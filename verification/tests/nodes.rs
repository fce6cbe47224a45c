use observatory::double::Double;
use observatory::nodes::{
    compute_status, configured, default_cpu_threshold, default_disk_threshold, load_nodes,
    node_command, parse_output, poll_args, poll_node, poll_report, resolve_key, ssh_args,
    unreachable_metrics, CpuLoad, NodeConfig, NodeEntry, SshReply,
};

fn double(x: f64) -> Double {
    Double { bits: x.to_bits() }
}

fn load(x: f64) -> Option<CpuLoad> {
    Some(CpuLoad { value: double(x), text: format!("{x:.2}") })
}

fn entry(name: &str) -> NodeEntry {
    NodeEntry {
        name: name.to_string(),
        host: "10.0.0.7".to_string(),
        ssh_user: "eps".to_string(),
        ssh_key: None,
        services: None,
        disk_alert_threshold: None,
        cpu_alert_threshold: None,
    }
}

fn node() -> NodeConfig {
    configured(entry("atlas"))
}

#[test]
fn defaults() {
    assert_eq!(default_disk_threshold(), 85);
    assert_eq!(default_cpu_threshold(), double(95.0));
    let n = node();
    assert_eq!(n.disk_alert_threshold, 85);
    assert_eq!(n.cpu_alert_threshold, double(95.0));
    assert!(n.services.is_empty());
    assert_eq!(n.name, "atlas");
}

#[test]
fn configured_values_win_over_defaults() {
    let mut e = entry("atlas");
    e.services = Some(vec!["nginx".to_string()]);
    e.disk_alert_threshold = Some(0);
    e.cpu_alert_threshold = Some(double(4.5));
    e.ssh_key = Some("/k".to_string());
    let n = configured(e);
    assert_eq!(n.services, ["nginx"]);
    assert_eq!(n.disk_alert_threshold, 0);
    assert_eq!(n.cpu_alert_threshold, double(4.5));
    assert_eq!(n.ssh_key, Some("/k".to_string()));
}

#[test]
fn nodes_are_loaded_in_order() {
    assert!(load_nodes(None).is_empty());
    assert!(load_nodes(Some(vec![])).is_empty());
    let nodes = load_nodes(Some(vec![entry("a"), entry("b")]));
    assert_eq!(nodes.len(), 2);
    assert_eq!(nodes[0].name, "a");
    assert_eq!(nodes[1].name, "b");
}

#[test]
fn the_command_without_services() {
    assert_eq!(
        node_command(&vec![]),
        "echo DISK:$(df -P / | tail -1 | awk '{print $5}' | tr -d '%'); \
         echo LOAD:$(cat /proc/loadavg | awk '{print $1}'); \
         echo MEM:$(free -m | grep Mem | awk '{printf \"%.0f\", $3/$2*100}'); "
    );
}

#[test]
fn the_command_checks_every_service() {
    let services = vec!["nginx".to_string(), "redis".to_string()];
    let command = node_command(&services);
    let head = node_command(&vec![]);
    assert_eq!(
        &command[head.len()..],
        "echo SVC:nginx:$(systemctl is-active nginx 2>/dev/null || echo inactive); \
         echo SVC:redis:$(systemctl is-active redis 2>/dev/null || echo inactive)"
    );
}

#[test]
fn keys_are_resolved_below_the_home_directory() {
    assert_eq!(resolve_key("~/.ssh/k", Some("/home/eps")), "/home/eps/.ssh/k");
    assert_eq!(resolve_key("~", Some("/home/eps")), "/home/eps");
    assert_eq!(resolve_key("~/.ssh/k", None), "~/.ssh/k");
    assert_eq!(resolve_key("/etc/k", Some("/home/eps")), "/etc/k");
    assert_eq!(resolve_key("", Some("/home/eps")), "");
    let once = resolve_key("~/k", Some("/home/eps"));
    assert_eq!(resolve_key(&once, Some("/home/eps")), once);
}

#[test]
fn ssh_is_called_without_questions() {
    let args = ssh_args("/k", "eps", "10.0.0.7", "uptime");
    assert_eq!(
        args,
        [
            "-i", "/k", "-o", "StrictHostKeyChecking=no", "-o", "ConnectTimeout=5", "-o",
            "BatchMode=yes", "eps@10.0.0.7", "uptime",
        ]
    );
}

#[test]
fn a_node_is_polled_with_its_key_or_the_usual_one() {
    let mut n = node();
    let args = poll_args(&n, Some("/home/eps"));
    assert_eq!(args[1], "/home/eps/.ssh/id_ed25519");
    assert_eq!(args[8], "eps@10.0.0.7");
    assert_eq!(args[9], node_command(&vec![]));
    assert_eq!(poll_args(&n, None)[1], "~/.ssh/id_ed25519");
    n.ssh_key = Some("/etc/key".to_string());
    assert_eq!(poll_args(&n, Some("/home/eps"))[1], "/etc/key");
}

#[test]
fn a_report_is_read() {
    let r = parse_output("DISK:42\nLOAD: 0.15 \nMEM:63\nSVC:nginx:active\nSVC:redis:inactive\n");
    assert_eq!(r.disk_pct, Some(42));
    assert_eq!(r.load_text, Some("0.15".to_string()));
    assert_eq!(r.mem_pct, Some(63));
    assert_eq!(
        r.service_statuses,
        [("nginx".to_string(), true), ("redis".to_string(), false)]
    );
}

#[test]
fn odd_lines_of_a_report() {
    let r = parse_output("hello\r\n disk:1\nDISK:256\nMEM:\nSVC:nocolon\nSVC:a: active \r\nSVC::x:y");
    assert_eq!(r.disk_pct, None);
    assert_eq!(r.load_text, None);
    assert_eq!(r.mem_pct, None);
    assert_eq!(r.service_statuses, [("a".to_string(), true), (String::new(), false)]);
    let empty = parse_output("");
    assert_eq!(empty.disk_pct, None);
    assert!(empty.service_statuses.is_empty());
}

#[test]
fn the_last_line_of_a_metric_counts() {
    let r = parse_output("DISK:1\nDISK:2\nLOAD:1\nLOAD:x\nMEM:3\nMEM:bad\n");
    assert_eq!(r.disk_pct, Some(2));
    assert_eq!(r.load_text, Some("x".to_string()));
    assert_eq!(r.mem_pct, None);
}

#[test]
fn other_lines_change_nothing() {
    let plain = parse_output("DISK:5\nMEM:6\n");
    let mixed = parse_output("motd\nDISK:5\n\nxDISK:9\nMEM:6\nbye");
    assert_eq!(plain, mixed);
}

fn reply(success: bool, stdout: &[u8]) -> Option<SshReply> {
    Some(SshReply { success, stdout: stdout.to_vec(), stderr: vec![] })
}

#[test]
fn only_a_successful_reply_holds_a_report() {
    assert!(poll_report(None).is_none());
    assert!(poll_report(reply(false, b"DISK:1\n")).is_none());
    let report = poll_report(reply(true, b"DISK:1\nSVC:\xff:active\n")).unwrap();
    assert_eq!(report.disk_pct, Some(1));
    assert_eq!(report.service_statuses, [("\u{fffd}".to_string(), true)]);
}

#[test]
fn statuses() {
    let n = node();
    let status = |disk: Option<u8>, l: Option<CpuLoad>| compute_status(&disk, &l, &n);
    assert_eq!(status(None, None), "unreachable");
    assert_eq!(status(Some(74), None), "ok");
    assert_eq!(status(Some(75), None), "warn");
    assert_eq!(status(Some(84), None), "warn");
    assert_eq!(status(Some(85), None), "alert");
    assert_eq!(status(Some(100), load(0.0)), "alert");
    assert_eq!(status(None, load(94.9)), "ok");
    assert_eq!(status(None, load(95.0)), "alert");
    assert_eq!(status(Some(10), load(200.0)), "alert");
    assert_eq!(status(Some(80), load(200.0)), "warn");
    assert_eq!(status(None, load(f64::NAN)), "ok");
}

#[test]
fn a_low_disk_threshold_has_no_room_for_warnings() {
    let mut n = node();
    n.disk_alert_threshold = 5;
    assert_eq!(compute_status(&Some(4), &None, &n), "warn");
    assert_eq!(compute_status(&Some(0), &None, &n), "warn");
    n.disk_alert_threshold = 0;
    assert_eq!(compute_status(&Some(0), &None, &n), "alert");
}

#[test]
fn the_metrics_of_a_poll() {
    let n = node();
    let lost = poll_node(&n, None, load(1.0));
    assert_eq!(lost, unreachable_metrics());
    assert_eq!(lost.status, "unreachable");
    assert!(lost.cpu_load.is_none());

    let report = parse_output("DISK:42\nLOAD:0.15\nMEM:63\nSVC:nginx:active\n");
    let m = poll_node(&n, Some(report), load(0.15));
    assert_eq!(m.disk_pct, Some(42));
    assert_eq!(m.cpu_load, load(0.15));
    assert_eq!(m.mem_pct, Some(63));
    assert_eq!(m.service_statuses, [("nginx".to_string(), true)]);
    assert_eq!(m.status, "ok");

    let silent = poll_node(&n, Some(parse_output("MEM:5\n")), load(99.0));
    assert_eq!(silent.cpu_load, None);
    assert_eq!(silent.mem_pct, Some(5));
    assert_eq!(silent.status, "unreachable");
}

#[test]
fn a_report_is_read_back_from_its_bytes() {
    let text = "DISK:9\r\nLOAD:1.5\nMEM: 12\nSVC:größe:active\nSVC:x y:failed\n";
    let report = poll_report(reply(true, text.as_bytes())).unwrap();
    assert_eq!(report, parse_output(text));
    assert_eq!(report.disk_pct, Some(9));
    assert_eq!(report.mem_pct, Some(12));
    assert_eq!(
        report.service_statuses,
        [("größe".to_string(), true), ("x y".to_string(), false)]
    );
    for n in 0..=255u8 {
        assert_eq!(parse_output(&format!("DISK:{n}\n")).disk_pct, Some(n));
    }
}
