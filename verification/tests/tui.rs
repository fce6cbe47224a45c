use observatory::double::Double;
use observatory::nodes::{CpuLoad, NodeConfig};
use observatory::store::{NodeSnapshot, ServiceState};
use observatory::tui::{bar, dim_line, draw, quits, Key, Rgb, Span};

fn text(s: &str) -> String {
    s.to_string()
}

fn rgb(r: u8, g: u8, b: u8) -> Rgb {
    Rgb { r, g, b }
}

fn span(s: &str, fg: Rgb) -> Span {
    Span { text: text(s), fg: Some(fg), bold: false }
}

fn bold(s: &str, fg: Rgb) -> Span {
    Span { text: text(s), fg: Some(fg), bold: true }
}

fn plain(s: &str) -> Span {
    Span { text: text(s), fg: None, bold: false }
}

fn double(x: f64) -> Double {
    Double { bits: x.to_bits() }
}

fn load(x: f64) -> Option<CpuLoad> {
    Some(CpuLoad { value: double(x), text: format!("{x:.2}") })
}

fn node(name: &str, services: &[&str]) -> NodeConfig {
    NodeConfig {
        name: text(name),
        host: text("h"),
        ssh_user: text("u"),
        ssh_key: None,
        services: services.iter().map(|s| text(s)).collect(),
        disk_alert_threshold: 85,
        cpu_alert_threshold: double(95.0),
    }
}

fn snapshot(
    name: &str,
    status: &str,
    disk: Option<u8>,
    cpu: Option<CpuLoad>,
    mem: Option<u8>,
) -> NodeSnapshot {
    NodeSnapshot {
        node: text(name),
        last_status: text(status),
        disk_pct: disk,
        cpu_load: cpu,
        mem_pct: mem,
    }
}

fn service(name: &str, status: &str) -> ServiceState {
    ServiceState { service: text(name), last_status: text(status), last_checked: text("t") }
}

fn green() -> Rgb {
    rgb(76, 175, 80)
}

fn orange() -> Rgb {
    rgb(255, 152, 0)
}

fn red() -> Rgb {
    rgb(244, 67, 54)
}

fn title() -> Vec<Span> {
    vec![
        bold("◆ Observatory", rgb(160, 160, 200)),
        span("   [q] quit", rgb(70, 70, 100)),
    ]
}

fn footer(now: &str) -> Vec<Span> {
    dim_line(&format!("── last rendered: {now} ─────────────────────────────────────"))
}

#[test]
fn bars() {
    assert_eq!(bar(0, 20), "░░░░░░░░░░░░░░░░░░░░");
    assert_eq!(bar(50, 20), "██████████░░░░░░░░░░");
    assert_eq!(bar(4, 20), "░░░░░░░░░░░░░░░░░░░░");
    assert_eq!(bar(99, 20), "███████████████████░");
    assert_eq!(bar(100, 20), "████████████████████");
    assert_eq!(bar(255, 20), "████████████████████");
    assert_eq!(bar(50, 0), "");
    for pct in 0..=255u8 {
        assert_eq!(bar(pct, 20).chars().count(), 20);
    }
}

#[test]
fn a_faint_line() {
    assert_eq!(dim_line("x"), [span("x", rgb(50, 50, 80))]);
}

#[test]
fn an_empty_screen() {
    let lines = draw(&vec![], &vec![], &vec![], &vec![], "12:00:00");
    assert_eq!(
        lines,
        [
            title(),
            vec![],
            vec![span("  no data — is observatory server running?", rgb(80, 80, 110))],
            footer("12:00:00"),
        ]
    );
}

#[test]
fn the_whole_screen() {
    let nodes = vec![node("atlas", &["nginx", "redis"]), node("zeus", &[])];
    let states = vec![snapshot("atlas", "warn", Some(80), load(2.5), Some(63))];
    let known = vec![(text("atlas"), vec![(text("redis"), false), (text("nginx"), true)])];
    let services = vec![service("api", "running"), service("db", "stopped")];
    let lines = draw(&nodes, &states, &known, &services, "12:34:56");
    let label = rgb(70, 70, 110);
    let value = rgb(150, 150, 190);
    let grey = rgb(100, 100, 130);
    assert_eq!(
        lines,
        [
            title(),
            vec![],
            dim_line("── nodes ──────────────────────────────────────────────"),
            vec![],
            vec![
                span("  ● ", orange()),
                bold("atlas", rgb(200, 200, 240)),
                span("  warn", orange()),
            ],
            vec![
                span("    disk  ", label),
                span("████████████████░░░░", orange()),
                span("  80%", value),
            ],
            vec![
                plain("    "),
                span("cpu  ", label),
                span("2.50    ", orange()),
                span("mem  ", label),
                span("████████████░░░░░░░░", rgb(100, 149, 237)),
                span("  63%", value),
            ],
            vec![
                plain("    "),
                span("nginx", rgb(140, 190, 140)),
                span(" ●  ", green()),
                span("redis", rgb(190, 100, 100)),
                span(" ●  ", red()),
            ],
            vec![],
            vec![
                span("  ● ", grey),
                bold("zeus", rgb(200, 200, 240)),
                span("  no data", grey),
            ],
            vec![],
            dim_line("── services ────────────────────────────────────────────"),
            vec![],
            vec![
                plain("  "),
                span("api                   ", rgb(190, 190, 230)),
                span("● ", green()),
                span("running", green()),
            ],
            vec![
                plain("  "),
                span("db                    ", rgb(190, 190, 230)),
                span("● ", rgb(68, 68, 102)),
                span("stopped", rgb(80, 80, 110)),
            ],
            vec![],
            footer("12:34:56"),
        ]
    );
}

fn one_node(state: NodeSnapshot) -> Vec<Vec<Span>> {
    let nodes = vec![node("atlas", &[])];
    draw(&nodes, &vec![state], &vec![], &vec![], "t")[4..].to_vec()
}

#[test]
fn the_mark_of_a_node() {
    let grey = rgb(100, 100, 130);
    for (status, colour, word) in [
        ("ok", green(), "  ok"),
        ("warn", orange(), "  warn"),
        ("alert", red(), "  alert"),
        ("unreachable", grey, "  unreachable"),
        ("strange", grey, "  unknown"),
    ] {
        let lines = one_node(snapshot("atlas", status, None, None, None));
        assert_eq!(lines.len(), 3);
        assert_eq!(lines[0][0], span("  ● ", colour));
        assert_eq!(lines[0][2], span(word, colour));
    }
}

#[test]
fn the_colours_of_measures() {
    for (disk, colour) in [(74, green()), (75, orange()), (84, orange()), (85, red())] {
        let lines = one_node(snapshot("atlas", "ok", Some(disk), None, None));
        assert_eq!(lines[1][1].fg, Some(colour));
    }
    for (cpu, colour) in [(1.99, rgb(150, 150, 190)), (2.0, orange()), (95.0, red())] {
        let lines = one_node(snapshot("atlas", "ok", None, load(cpu), None));
        assert_eq!(lines[1].len(), 3);
        assert_eq!(lines[1][2].fg, Some(colour));
    }
    for (mem, colour) in [(74, rgb(100, 149, 237)), (75, orange()), (89, orange()), (90, red())] {
        let lines = one_node(snapshot("atlas", "ok", None, None, Some(mem)));
        assert_eq!(lines[1].len(), 4);
        assert_eq!(lines[1][2].fg, Some(colour));
    }
}

#[test]
fn the_last_state_of_a_node_is_shown() {
    let nodes = vec![node("atlas", &[])];
    let states = vec![
        snapshot("atlas", "ok", Some(1), None, None),
        snapshot("atlas", "alert", None, None, None),
        snapshot("zeus", "warn", None, None, None),
    ];
    let lines = draw(&nodes, &states, &vec![], &vec![], "t");
    assert_eq!(lines[4][2], span("  alert", red()));
    assert_eq!(lines.len(), 7);
}

#[test]
fn every_known_service_is_shown() {
    let services = vec![service("a", "degraded"), service("gone", "running"), service("z", "")];
    let lines = draw(&vec![], &vec![], &vec![], &services, "t");
    assert_eq!(lines.len(), 9);
    assert_eq!(lines[4][3], span("degraded", orange()));
    assert_eq!(lines[5][1].text.trim_end(), "gone");
    assert_eq!(lines[6][3], span("", rgb(80, 80, 110)));
}

#[test]
fn keys_that_quit() {
    assert!(quits(Key::Char('q'), true));
    assert!(quits(Key::Char('Q'), true));
    assert!(quits(Key::Esc, true));
    assert!(!quits(Key::Char('x'), true));
    assert!(!quits(Key::Other, true));
    assert!(!quits(Key::Esc, false));
    assert!(!quits(Key::Char('q'), false));
}
