use observatory::double::Double;
use observatory::nodes::{unreachable_metrics, CpuLoad, NodeConfig, NodeMetrics};
use observatory::poller::{
    check_service, finish_check, is_port_listening, lsof_args, node_actions, node_alerts,
    read_eps_info, service_actions, tailscale_args, tailscale_ip, Action, CheckStep, EpsInfo,
    EpsManifest, EpsPackage, EpsService, ServiceCheck, ServiceEntry,
};

fn text(s: &str) -> String {
    s.to_string()
}

fn double(x: f64) -> Double {
    Double { bits: x.to_bits() }
}

fn load(x: f64) -> Option<CpuLoad> {
    Some(CpuLoad { value: double(x), text: format!("{x:.2}") })
}

fn check(status: &str) -> ServiceCheck {
    ServiceCheck { status: text(status), response_ms: None, status_code: None, repo_url: None }
}

fn entry(port: u16) -> ServiceEntry {
    ServiceEntry { dir: text("/srv/api"), port }
}

fn info(health_check: Option<&str>, tls: Option<bool>) -> EpsInfo {
    EpsInfo { health_check: health_check.map(text), tls, repo_url: Some(text("git@repo")) }
}

#[test]
fn what_a_manifest_says() {
    let nothing = read_eps_info(None);
    assert_eq!(nothing, EpsInfo { health_check: None, tls: None, repo_url: None });
    let all = read_eps_info(Some(EpsManifest {
        package: Some(EpsPackage { repository: Some(text("r")) }),
        service: Some(EpsService { health_check: Some(text("/health")), tls: Some(true) }),
    }));
    assert_eq!(
        all,
        EpsInfo { health_check: Some(text("/health")), tls: Some(true), repo_url: Some(text("r")) }
    );
    let package_only = read_eps_info(Some(EpsManifest {
        package: Some(EpsPackage { repository: Some(text("r")) }),
        service: None,
    }));
    assert_eq!(package_only, EpsInfo { health_check: None, tls: None, repo_url: Some(text("r")) });
    let service_only = read_eps_info(Some(EpsManifest {
        package: None,
        service: Some(EpsService { health_check: None, tls: Some(false) }),
    }));
    assert_eq!(service_only, EpsInfo { health_check: None, tls: Some(false), repo_url: None });
}

#[test]
fn ports() {
    assert_eq!(lsof_args(8080), ["-t", "-i", ":8080", "-sTCP:LISTEN"]);
    assert_eq!(lsof_args(0)[2], ":0");
    assert!(is_port_listening(Some(&b"123\n".to_vec())));
    assert!(!is_port_listening(Some(&vec![])));
    assert!(!is_port_listening(None));
}

#[test]
fn the_address_of_this_machine() {
    assert_eq!(tailscale_args(), ["ip", "-4"]);
    assert_eq!(tailscale_ip(Some(b" 100.64.0.1\n".to_vec())), "100.64.0.1");
    assert_eq!(tailscale_ip(Some("é\n".as_bytes().to_vec())), "é");
    assert_eq!(tailscale_ip(Some(b"100.64.0.1\xff\n".to_vec())), "");
    assert_eq!(tailscale_ip(Some(vec![])), "");
    assert_eq!(tailscale_ip(None), "");
}

#[test]
fn a_service_that_does_not_listen_is_stopped() {
    let step = check_service(&entry(80), false, info(Some("/health"), None), "100.64.0.1");
    let expect = ServiceCheck { repo_url: Some(text("git@repo")), ..check("stopped") };
    assert_eq!(step, CheckStep::Done(expect));
}

#[test]
fn a_service_without_a_health_check_is_running() {
    let step = check_service(&entry(80), true, info(None, Some(true)), "100.64.0.1");
    let expect = ServiceCheck { repo_url: Some(text("git@repo")), ..check("running") };
    assert_eq!(step, CheckStep::Done(expect));
}

fn asked(tls: Option<bool>) -> (String, bool) {
    match check_service(&entry(8443), true, info(Some("/x"), tls), "100.64.0.1") {
        CheckStep::Ask(probe) => {
            assert_eq!(probe.repo_url, Some(text("git@repo")));
            (probe.url, probe.tls)
        }
        CheckStep::Done(_) => panic!("not asked"),
    }
}

#[test]
fn a_service_with_a_health_check_is_asked() {
    assert_eq!(asked(None), (text("http://100.64.0.1:8443/health"), false));
    assert_eq!(asked(Some(false)), (text("http://100.64.0.1:8443/health"), false));
    assert_eq!(asked(Some(true)), (text("https://100.64.0.1:8443/health"), true));
}

#[test]
fn success_is_running_and_all_else_degraded() {
    for code in 100..1000u16 {
        let expect = reqwest::StatusCode::from_u16(code).unwrap().is_success();
        let r = finish_check(Some(text("r")), 12, Some(code));
        assert_eq!(r.status == "running", expect, "{code}");
        assert_eq!(r.status == "degraded", !expect, "{code}");
        assert_eq!(r.response_ms, Some(12));
        assert_eq!(r.status_code, Some(code));
        assert_eq!(r.repo_url, Some(text("r")));
    }
    let failed = finish_check(None, 2000, None);
    assert_eq!(
        failed,
        ServiceCheck { response_ms: Some(2000), ..check("degraded") }
    );
}

fn sent(actions: &[Action]) -> Vec<String> {
    actions
        .iter()
        .filter_map(|a| match a {
            Action::Send { message } => Some(message.clone()),
            _ => None,
        })
        .collect()
}

fn service_sent(prev: Option<&str>, status: &str, alerting: bool) -> Vec<String> {
    sent(&service_actions("api", "t", prev, check(status), alerting))
}

#[test]
fn a_poll_of_a_service_is_recorded() {
    let c = ServiceCheck {
        status: text("running"),
        response_ms: Some(5),
        status_code: Some(200),
        repo_url: Some(text("r")),
    };
    let actions = service_actions("api", "now", None, c, true);
    assert_eq!(
        actions,
        [
            Action::RecordCheck {
                service: text("api"),
                at: text("now"),
                status: text("running"),
                response_ms: Some(5),
                status_code: Some(200),
            },
            Action::RecordStatus {
                service: text("api"),
                status: text("running"),
                at: text("now"),
                repo_url: Some(text("r")),
            },
        ]
    );
}

#[test]
fn a_service_alerts_on_a_change_only() {
    assert_eq!(service_sent(Some("stopped"), "running", true), ["[Observatory] api recovered"]);
    assert_eq!(service_sent(Some("running"), "degraded", true), ["[Observatory] api is DEGRADED"]);
    assert_eq!(service_sent(Some("running"), "stopped", true), ["[Observatory] api is DOWN"]);
    assert_eq!(service_sent(Some("running"), "other", true), ["[Observatory] api is DOWN"]);
    assert!(service_sent(Some("running"), "running", true).is_empty());
    assert!(service_sent(None, "stopped", true).is_empty());
    assert!(service_sent(Some("running"), "stopped", false).is_empty());
}

#[test]
fn a_status_is_announced_once() {
    let first = service_actions("api", "1", Some("running"), check("stopped"), true);
    assert_eq!(sent(&first).len(), 1);
    let Action::RecordStatus { status, .. } = &first[1] else { panic!("no status") };
    let second = service_actions("api", "2", Some(status), check("stopped"), true);
    assert!(sent(&second).is_empty());
    let third = service_actions("api", "3", Some("stopped"), check("running"), true);
    assert_eq!(sent(&third), ["[Observatory] api recovered"]);
}

fn node() -> NodeConfig {
    NodeConfig {
        name: text("atlas"),
        host: text("h"),
        ssh_user: text("u"),
        ssh_key: None,
        services: vec![text("nginx")],
        disk_alert_threshold: 85,
        cpu_alert_threshold: double(4.0),
    }
}

fn metrics(disk: Option<u8>, cpu: Option<CpuLoad>, status: &str) -> NodeMetrics {
    NodeMetrics {
        disk_pct: disk,
        cpu_load: cpu,
        mem_pct: Some(7),
        service_statuses: vec![(text("nginx"), true), (text("redis"), false)],
        status: text(status),
    }
}

#[test]
fn a_poll_of_a_node_is_recorded() {
    let actions = node_actions(&node(), "now", None, &metrics(Some(3), load(0.5), "ok"), true);
    assert_eq!(
        actions,
        [
            Action::RecordNodeCheck {
                node: text("atlas"),
                at: text("now"),
                disk_pct: Some(3),
                cpu_load: load(0.5),
                mem_pct: Some(7),
                status: text("ok"),
            },
            Action::RecordNodeState {
                node: text("atlas"),
                status: text("ok"),
                at: text("now"),
                disk_pct: Some(3),
                cpu_load: load(0.5),
                mem_pct: Some(7),
            },
            Action::RecordNodeService {
                node: text("atlas"),
                service: text("nginx"),
                at: text("now"),
                active: true,
            },
            Action::RecordNodeService {
                node: text("atlas"),
                service: text("redis"),
                at: text("now"),
                active: false,
            },
        ]
    );
}

#[test]
fn a_node_is_announced_when_it_is_lost_and_found() {
    let n = node();
    let lost = unreachable_metrics();
    let ok = metrics(Some(3), None, "ok");
    assert_eq!(node_alerts(&n, Some("ok"), &lost, true), ["[Observatory] atlas is UNREACHABLE"]);
    assert!(node_alerts(&n, Some("unreachable"), &lost, true).is_empty());
    assert!(node_alerts(&n, None, &lost, true).is_empty());
    let back = node_alerts(&n, Some("unreachable"), &ok, true);
    assert_eq!(back, ["[Observatory] atlas is back online"]);
    assert!(node_alerts(&n, Some("warn"), &ok, true).is_empty());
    assert!(node_alerts(&n, Some("ok"), &lost, false).is_empty());
}

#[test]
fn a_node_is_announced_while_it_is_over_a_threshold() {
    let n = node();
    let full = metrics(Some(91), load(4.0), "alert");
    let expect = ["[Observatory] atlas: disk 91% full", "[Observatory] atlas: CPU load 4.00"];
    assert_eq!(node_alerts(&n, None, &full, true), expect);
    assert_eq!(node_alerts(&n, Some("alert"), &full, true), expect);
    assert_eq!(
        sent(&node_actions(&n, "t", Some("unreachable"), &full, true)),
        [
            "[Observatory] atlas is back online",
            "[Observatory] atlas: disk 91% full",
            "[Observatory] atlas: CPU load 4.00",
        ]
    );
    assert!(node_alerts(&n, None, &metrics(Some(84), load(3.99), "warn"), true).is_empty());
    assert!(sent(&node_actions(&n, "t", None, &full, false)).is_empty());
}
