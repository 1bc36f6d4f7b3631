use watchbench::generator::{Generator, VALUE_LEN};

#[test]
fn generator_counts_its_iterations_down() {
    let mut g = Generator::new(3);
    assert!(g.next_value().is_some());
    assert!(g.next_value().is_some());
    assert!(g.next_value().is_some());
    assert_eq!(g.remaining, 0);
    assert!(g.next_value().is_none());
    assert!(g.next_value().is_none());
}

#[test]
fn generated_values_are_fixed_length_alphanumeric() {
    let mut g = Generator::new(20);
    while let Some(v) = g.next_value() {
        assert_eq!(v.chars().count(), VALUE_LEN);
        assert!(v.chars().all(|c| c.is_ascii_alphanumeric()));
    }
}

#[test]
fn generated_values_vary() {
    // Thirty random alphanumeric characters: two draws coinciding would be
    // astronomically unlikely, so equal values would mean the generator is
    // not drawing at all.
    let mut g = Generator::new(2);
    let a = g.next_value().unwrap();
    let b = g.next_value().unwrap();
    assert_ne!(a, b);
}

#[test]
fn exhausted_generator_stays_exhausted() {
    let mut g = Generator::new(0);
    assert!(g.next_value().is_none());
    assert_eq!(g.remaining, 0);
}
