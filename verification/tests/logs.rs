use observatory::double::Double;
use observatory::logs::{
    logs_content, logs_request, names_refusal, node_logs_content, node_logs_request,
    node_logs_title, shown_output, Refusal,
};
use observatory::nodes::{poll_args, NodeConfig, SshReply};

fn node(name: &str, key: Option<&str>, host: &str) -> NodeConfig {
    NodeConfig {
        name: name.to_string(),
        host: host.to_string(),
        ssh_user: "eps".to_string(),
        ssh_key: key.map(|k| k.to_string()),
        services: vec![],
        disk_alert_threshold: 85,
        cpu_alert_threshold: Double { bits: 0 },
    }
}

fn refusal(status: u16, message: &str) -> Refusal {
    Refusal { status, message: message.to_string() }
}

#[test]
fn the_log_of_a_service() {
    assert_eq!(
        logs_request("api", Some("/home/eps")),
        Ok("/home/eps/.epm/services/logs/api.log".to_string())
    );
    for bad in ["../../etc/passwd", "a/b", "a b", "."] {
        assert_eq!(logs_request(bad, None), Err(refusal(400, "invalid service name")));
    }
    assert_eq!(logs_content(Some("line\n".to_string()), "/l"), "line\n");
    assert_eq!(logs_content(None, "/l"), "No log file found at /l");
}

#[test]
fn names_are_checked_first() {
    assert_eq!(names_refusal("atlas", "nginx"), None);
    assert_eq!(names_refusal("at/las", "nginx"), Some(refusal(400, "invalid name")));
    assert_eq!(names_refusal("atlas", "nginx;reboot"), Some(refusal(400, "invalid name")));
    let nodes = vec![node("atlas", None, "h")];
    let r = node_logs_request(&nodes, "atlas", "$(reboot)", None);
    assert_eq!(r, Err(refusal(400, "invalid name")));
    let r = node_logs_request(&vec![], "at.las", "nginx", None);
    assert_eq!(r, Err(refusal(400, "invalid name")));
}

#[test]
fn an_unknown_node_is_not_found() {
    let r = node_logs_request(&vec![node("atlas", None, "h")], "zeus", "nginx", None);
    assert_eq!(r, Err(refusal(404, "node 'zeus' not found")));
}

#[test]
fn the_log_of_a_service_on_a_node() {
    let nodes = vec![node("zeus", None, "z"), node("atlas", None, "one"), node("atlas", None, "two")];
    let args = node_logs_request(&nodes, "atlas", "nginx", Some("/home/eps")).unwrap();
    assert_eq!(
        args,
        [
            "-i", "/home/eps/.ssh/id_ed25519", "-o", "StrictHostKeyChecking=no", "-o",
            "ConnectTimeout=5", "-o", "BatchMode=yes", "eps@one",
            "journalctl -u nginx --no-pager -n 500 --output=short 2>&1",
        ]
    );
}

#[test]
fn the_key_for_logs() {
    let key = |k: Option<&str>, home: Option<&str>| {
        node_logs_request(&vec![node("a", k, "h")], "a", "s", home).unwrap()[1].clone()
    };
    assert_eq!(key(Some("~/k"), Some("/home/eps")), "/home/eps/k");
    assert_eq!(key(Some("~/k"), None), "/k");
    assert_eq!(key(Some("/k"), Some("/home/eps")), "/k");
    assert_eq!(key(None, None), "/.ssh/id_ed25519");
}

fn reply(stdout: &[u8], stderr: &[u8]) -> Result<SshReply, String> {
    Ok(SshReply { success: false, stdout: stdout.to_vec(), stderr: stderr.to_vec() })
}

#[test]
fn what_is_shown_of_a_reply() {
    assert_eq!(shown_output("o".to_string(), "e".to_string()), "o");
    assert_eq!(shown_output(String::new(), "e".to_string()), "e");
    assert_eq!(node_logs_content(reply(b"out", b"err")), "out");
    assert_eq!(node_logs_content(reply(b"", b"err\xff")), "err\u{fffd}");
    assert_eq!(node_logs_content(reply("é".as_bytes(), b"err\xff")), "é");
    assert_eq!(node_logs_content(reply(b"\xff", b"err")), "\u{fffd}");
    assert_eq!(node_logs_content(reply(b"", b"")), "");
    assert_eq!(node_logs_content(reply("é\u{20ac}".as_bytes(), b"")), "é€");
    assert_eq!(node_logs_content(Err("no ssh".to_string())), "SSH error: no ssh");
    assert_eq!(node_logs_title("atlas", "nginx"), "atlas / nginx");
}

#[test]
fn a_node_has_one_key() {
    for k in [None, Some("~/k"), Some("/k"), Some("k")] {
        let nodes = vec![node("a", k, "h")];
        let args = node_logs_request(&nodes, "a", "s", Some("/home/eps")).unwrap();
        assert_eq!(args[1], poll_args(&nodes[0], Some("/home/eps"))[1]);
    }
}
