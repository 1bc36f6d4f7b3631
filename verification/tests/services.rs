use watchbench::benchmark::BenchmarkServer;
use watchbench::scenario::{MyScenarioService, Scenario};

#[test]
fn benchmark_reply_reports_elapsed_microseconds() {
    let server = BenchmarkServer::default();
    let r = server.send_timestamp(1_000, 3_500);
    assert_eq!(r.elapsed_microseconds, 2);
    assert!(r.success);
}

#[test]
fn benchmark_reply_truncates_partial_microseconds() {
    let server = BenchmarkServer::default();
    let r = server.send_timestamp(0, 999);
    assert_eq!(r.elapsed_microseconds, 0);
    let r = server.send_timestamp(500, 500);
    assert_eq!(r.elapsed_microseconds, 0);
}

#[test]
fn send_name_reports_retrieval_and_elapsed() {
    let svc = MyScenarioService::default();
    let r = svc.send_name("scen-gear-p-left-window-close", 1_000_000, 3_000_000);
    assert_eq!(r.status, "Retrieved scenario 'scen-gear-p-left-window-close'");
    assert_eq!(r.elapsed_ms, 2_000);
}

#[test]
fn send_yaml_reports_the_parsed_scenario() {
    let svc = MyScenarioService::default();
    let scenario = Scenario {
        name: String::from("scen-gear-p-left-window-close"),
        conditions: vec![String::from("gear == P")],
        actions: vec![String::from("launch act-leftwindow-close")],
    };
    let r = svc.send_yaml(&scenario, 2_000, 10_000);
    assert_eq!(r.status, "Parsed scenario 'scen-gear-p-left-window-close'");
    assert_eq!(r.elapsed_ms, 8);
}
