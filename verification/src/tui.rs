//! The terminal screen.
use crate::double::{lemma_patterns, one, Double, TWO};
use crate::nodes::{disk_warn_threshold, lemma_statuses_differ, node_status, CpuLoad, CpuLoadModel,
    NodeConfig, NodeModel};
use crate::number::{decimal, decimal_text};
use crate::store::{NodeSnapshot, ServiceModel, ServiceState, SnapshotModel};
use crate::text::{pad_right, padded, repeat_char, repeated, same_text};
use vstd::prelude::*;

verus! {

// ── Styled text ───────────────────────────────────────────────────────────────

/// A colour.
#[derive(Clone, Copy, Debug, PartialEq, Eq, Structural)]
pub struct Rgb {
    pub r: u8,
    pub g: u8,
    pub b: u8,
}

/// A piece of a line in one style. Without a colour it has that of the terminal.
#[derive(Clone, Debug, PartialEq, Eq)]
pub struct Span {
    pub text: String,
    pub fg: Option<Rgb>,
    pub bold: bool,
}

/// What a `Span` holds.
pub struct SpanModel {
    pub text: Seq<char>,
    pub fg: Option<Rgb>,
    pub bold: bool,
}

impl DeepView for Span {
    type V = SpanModel;

    open spec fn deep_view(&self) -> SpanModel {
        SpanModel { text: self.text@, fg: self.fg, bold: self.bold }
    }
}

/// The colour of what is well.
#[verifier::allow_in_spec]
pub fn green() -> Rgb
    returns
        (Rgb { r: 76, g: 175, b: 80 }),
{
    Rgb { r: 76, g: 175, b: 80 }
}

/// The colour of what calls for attention.
#[verifier::allow_in_spec]
pub fn orange() -> Rgb
    returns
        (Rgb { r: 255, g: 152, b: 0 }),
{
    Rgb { r: 255, g: 152, b: 0 }
}

/// The colour of what is wrong.
#[verifier::allow_in_spec]
pub fn red() -> Rgb
    returns
        (Rgb { r: 244, g: 67, b: 54 }),
{
    Rgb { r: 244, g: 67, b: 54 }
}

/// The colour of a node of which nothing is known.
#[verifier::allow_in_spec]
pub fn grey() -> Rgb
    returns
        (Rgb { r: 100, g: 100, b: 130 }),
{
    Rgb { r: 100, g: 100, b: 130 }
}

/// The colour of the names of values.
#[verifier::allow_in_spec]
pub fn label_colour() -> Rgb
    returns
        (Rgb { r: 70, g: 70, b: 110 }),
{
    Rgb { r: 70, g: 70, b: 110 }
}

/// The colour of values.
#[verifier::allow_in_spec]
pub fn value_colour() -> Rgb
    returns
        (Rgb { r: 150, g: 150, b: 190 }),
{
    Rgb { r: 150, g: 150, b: 190 }
}

/// Text in a colour.
pub open spec fn coloured(text: Seq<char>, fg: Rgb) -> SpanModel {
    SpanModel { text, fg: Some(fg), bold: false }
}

/// Bold text in a colour.
pub open spec fn strong(text: Seq<char>, fg: Rgb) -> SpanModel {
    SpanModel { text, fg: Some(fg), bold: true }
}

/// Text without a style.
pub open spec fn plain(text: Seq<char>) -> SpanModel {
    SpanModel { text, fg: None, bold: false }
}

/// A line in a faint colour.
pub open spec fn faint(text: Seq<char>) -> Seq<SpanModel> {
    seq![coloured(text, Rgb { r: 50, g: 50, b: 80 })]
}

/// Text in a colour.
fn coloured_span(text: &str, fg: Rgb) -> (r: Span)
    ensures
        r.deep_view() == coloured(text@, fg),
{
    Span { text: text.to_owned(), fg: Some(fg), bold: false }
}

/// Bold text in a colour.
fn strong_span(text: &str, fg: Rgb) -> (r: Span)
    ensures
        r.deep_view() == strong(text@, fg),
{
    Span { text: text.to_owned(), fg: Some(fg), bold: true }
}

/// Text without a style.
fn plain_span(text: &str) -> (r: Span)
    ensures
        r.deep_view() == plain(text@),
{
    Span { text: text.to_owned(), fg: None, bold: false }
}

/// A line in a faint colour.
pub fn dim_line(s: &str) -> (r: Vec<Span>)
    ensures
        r.deep_view() == faint(s@),
{
    let mut r: Vec<Span> = Vec::new();
    r.push(coloured_span(s, Rgb { r: 50, g: 50, b: 80 }));
    assert(r.deep_view() =~= faint(s@));
    r
}

/// A line without anything.
fn blank_line() -> (r: Vec<Span>)
    ensures
        r.deep_view() == Seq::<SpanModel>::empty(),
{
    let r: Vec<Span> = Vec::new();
    assert(r.deep_view() =~= Seq::empty());
    r
}

// ── Bars ──────────────────────────────────────────────────────────────────────

/// How many of `width` cells a bar fills at `pct` percent: the part that is full, rounded down.
pub open spec fn filled_cells(pct: u8, width: nat) -> nat {
    if pct >= 100 {
        width
    } else {
        (pct as nat * width) / 100
    }
}

/// A bar of `width` cells, filled to `pct` percent.
pub open spec fn bar_text(pct: u8, width: nat) -> Seq<char> {
    let filled = filled_cells(pct, width);
    repeated('█', filled) + repeated('░', (width - filled) as nat)
}

proof fn lemma_filled_cells(pct: u8, width: nat)
    ensures
        filled_cells(pct, width) <= width,
        filled_cells(pct, width) == if (pct as nat * width) / 100 <= width {
            (pct as nat * width) / 100
        } else {
            width
        },
{
    let p = pct as int;
    let w = width as int;
    if pct >= 100 {
        assert(p * w >= 100 * w) by (nonlinear_arith)
            requires
                p >= 100,
                w >= 0,
        ;
    } else {
        assert(p * w <= 100 * w) by (nonlinear_arith)
            requires
                p < 100,
                w >= 0,
        ;
    }
}

/// A bar of `width` cells, filled to `pct` percent.
pub fn bar(pct: u8, width: usize) -> (r: String)
    requires
        pct * width <= usize::MAX,
    ensures
        r@ == bar_text(pct, width as nat),
{
    proof {
        lemma_filled_cells(pct, width as nat);
        reveal_strlit("█");
        reveal_strlit("░");
    }
    let scaled: usize = (pct as usize) * width / 100;
    let filled: usize = if scaled <= width {
        scaled
    } else {
        width
    };
    let mut r = repeat_char("█", filled);
    let empty = repeat_char("░", width - filled);
    r.append(empty.as_str());
    r
}

/// Every bar is as wide as it was asked to be, whatever the percentage is.
pub proof fn law_bar_has_its_width(pct: u8, width: nat)
    ensures
        bar_text(pct, width).len() == width,
{
    lemma_filled_cells(pct, width);
}

/// A higher percentage never fills fewer cells; nothing is filled at zero, and everything from a
/// hundred on.
pub proof fn law_bar_grows(pct: u8, more: u8, width: nat)
    requires
        pct <= more,
    ensures
        filled_cells(pct, width) <= filled_cells(more, width),
        filled_cells(0, width) == 0,
        more >= 100 ==> filled_cells(more, width) == width,
{
    lemma_filled_cells(pct, width);
    lemma_filled_cells(more, width);
    let (p, q, w) = (pct as int, more as int, width as int);
    assert(p * w <= q * w) by (nonlinear_arith)
        requires
            p <= q,
            w >= 0,
    ;
}

// ── What stands on the screen ─────────────────────────────────────────────────

/// The last of the states of the node `name`.
pub open spec fn state_of(states: Seq<SnapshotModel>, name: Seq<char>) -> Option<SnapshotModel>
    decreases states.len(),
{
    if states.len() == 0 {
        None
    } else if states.last().node == name {
        Some(states.last())
    } else {
        state_of(states.drop_last(), name)
    }
}

/// The services that are listed for the node `name`.
pub open spec fn services_of(
    all: Seq<(Seq<char>, Seq<(Seq<char>, bool)>)>,
    name: Seq<char>,
) -> Seq<(Seq<char>, bool)>
    decreases all.len(),
{
    if all.len() == 0 {
        Seq::empty()
    } else if all[0].0 == name {
        all[0].1
    } else {
        services_of(all.drop_first(), name)
    }
}

/// Whether `service` is listed as active.
pub open spec fn is_active(services: Seq<(Seq<char>, bool)>, service: Seq<char>) -> bool
    decreases services.len(),
{
    if services.len() == 0 {
        false
    } else if services[0].0 == service {
        services[0].1
    } else {
        is_active(services.drop_first(), service)
    }
}

/// The colour of a node and the word for its state.
pub open spec fn node_mark(state: Option<SnapshotModel>) -> (Rgb, Seq<char>) {
    match state {
        Some(s) => if s.last_status == "ok"@ {
            (green(), "ok"@)
        } else if s.last_status == "warn"@ {
            (orange(), "warn"@)
        } else if s.last_status == "alert"@ {
            (red(), "alert"@)
        } else if s.last_status == "unreachable"@ {
            (grey(), "unreachable"@)
        } else {
            (grey(), "unknown"@)
        },
        None => (grey(), "no data"@),
    }
}

/// The line with the name and the status of a node.
pub open spec fn node_header(name: Seq<char>, state: Option<SnapshotModel>) -> Seq<SpanModel> {
    let (colour, word) = node_mark(state);
    seq![
        coloured("  ● "@, colour),
        strong(name, Rgb { r: 200, g: 200, b: 240 }),
        coloured("  "@ + word, colour),
    ]
}

/// The colour of a disk usage.
pub open spec fn disk_colour(disk_pct: u8, alert: u8) -> Rgb {
    if disk_pct >= alert {
        red()
    } else if disk_pct >= disk_warn_threshold(alert) {
        orange()
    } else {
        green()
    }
}

/// The line with the disk usage of a node.
pub open spec fn disk_line(disk_pct: u8, alert: u8) -> Seq<SpanModel> {
    seq![
        coloured("    disk  "@, label_colour()),
        coloured(bar_text(disk_pct, 20), disk_colour(disk_pct, alert)),
        coloured("  "@ + decimal(disk_pct as nat) + "%"@, value_colour()),
    ]
}

/// The colour of a load.
pub open spec fn load_colour(load: Double, alert: Double) -> Rgb {
    if load.ge(alert) {
        red()
    } else if load.ge(Double { bits: TWO }) {
        orange()
    } else {
        value_colour()
    }
}

/// The pieces with the load of a node.
pub open spec fn load_spans(load: Option<CpuLoadModel>, alert: Double) -> Seq<SpanModel> {
    match load {
        Some(l) => seq![
            coloured("cpu  "@, label_colour()),
            coloured(l.text + "    "@, load_colour(l.value, alert)),
        ],
        None => Seq::empty(),
    }
}

/// The colour of a memory usage.
pub open spec fn mem_colour(mem_pct: u8) -> Rgb {
    if mem_pct >= 90 {
        red()
    } else if mem_pct >= 75 {
        orange()
    } else {
        Rgb { r: 100, g: 149, b: 237 }
    }
}

/// The pieces with the memory usage of a node.
pub open spec fn mem_spans(mem_pct: Option<u8>) -> Seq<SpanModel> {
    match mem_pct {
        Some(m) => seq![
            coloured("mem  "@, label_colour()),
            coloured(bar_text(m, 20), mem_colour(m)),
            coloured("  "@ + decimal(m as nat) + "%"@, value_colour()),
        ],
        None => Seq::empty(),
    }
}

/// The lines with the measures of a node: its disk, then its load and its memory. What was not
/// measured is left out.
pub open spec fn measure_lines(state: SnapshotModel, node: NodeModel) -> Seq<Seq<SpanModel>> {
    (match state.disk_pct {
        Some(d) => seq![disk_line(d, node.disk_alert_threshold)],
        None => Seq::empty(),
    }) + if state.cpu_load is Some || state.mem_pct is Some {
        seq![
            seq![plain("    "@)] + load_spans(state.cpu_load, node.cpu_alert_threshold)
                + mem_spans(state.mem_pct),
        ]
    } else {
        Seq::empty()
    }
}

/// The pieces with the name of a service and whether it is active.
pub open spec fn service_spans(service: Seq<char>, active: bool) -> Seq<SpanModel> {
    if active {
        seq![
            coloured(service, Rgb { r: 140, g: 190, b: 140 }),
            coloured(" ●  "@, green()),
        ]
    } else {
        seq![
            coloured(service, Rgb { r: 190, g: 100, b: 100 }),
            coloured(" ●  "@, red()),
        ]
    }
}

/// The line with the services of a node.
pub open spec fn services_line(
    services: Seq<Seq<char>>,
    known: Seq<(Seq<char>, bool)>,
) -> Seq<SpanModel>
    decreases services.len(),
{
    if services.len() == 0 {
        seq![plain("    "@)]
    } else {
        services_line(services.drop_last(), known) + service_spans(
            services.last(),
            is_active(known, services.last()),
        )
    }
}

/// The lines of a node.
pub open spec fn node_lines(
    node: NodeModel,
    states: Seq<SnapshotModel>,
    known: Seq<(Seq<char>, Seq<(Seq<char>, bool)>)>,
) -> Seq<Seq<SpanModel>> {
    let state = state_of(states, node.name);
    seq![Seq::empty(), node_header(node.name, state)] + (match state {
        Some(s) => measure_lines(s, node),
        None => Seq::empty(),
    }) + if node.services.len() > 0 {
        seq![services_line(node.services, services_of(known, node.name))]
    } else {
        Seq::empty()
    }
}

/// The lines of all nodes, in their order.
pub open spec fn all_node_lines(
    nodes: Seq<NodeModel>,
    states: Seq<SnapshotModel>,
    known: Seq<(Seq<char>, Seq<(Seq<char>, bool)>)>,
) -> Seq<Seq<SpanModel>>
    decreases nodes.len(),
{
    if nodes.len() == 0 {
        Seq::empty()
    } else {
        all_node_lines(nodes.drop_last(), states, known) + node_lines(nodes.last(), states, known)
    }
}

/// The colours of the mark and of the status of a service.
pub open spec fn service_colours(status: Seq<char>) -> (Rgb, Rgb) {
    if status == "running"@ {
        (green(), green())
    } else if status == "degraded"@ {
        (orange(), orange())
    } else {
        (Rgb { r: 68, g: 68, b: 102 }, Rgb { r: 80, g: 80, b: 110 })
    }
}

/// The line of a service.
pub open spec fn service_line(state: ServiceModel) -> Seq<SpanModel> {
    let (mark, status) = service_colours(state.last_status);
    seq![
        plain("  "@),
        coloured(padded(state.service, 22), Rgb { r: 190, g: 190, b: 230 }),
        coloured("● "@, mark),
        coloured(state.last_status, status),
    ]
}

/// The line over the screen.
pub open spec fn title() -> Seq<SpanModel> {
    seq![
        strong("◆ Observatory"@, Rgb { r: 160, g: 160, b: 200 }),
        coloured("   [q] quit"@, Rgb { r: 70, g: 70, b: 100 }),
    ]
}

/// The part of the screen with the nodes.
pub open spec fn nodes_part(
    nodes: Seq<NodeModel>,
    states: Seq<SnapshotModel>,
    known: Seq<(Seq<char>, Seq<(Seq<char>, bool)>)>,
) -> Seq<Seq<SpanModel>> {
    if nodes.len() > 0 {
        seq![faint("── nodes ──────────────────────────────────────────────"@)] + all_node_lines(nodes, states, known) + seq![Seq::empty()]
    } else {
        Seq::empty()
    }
}

/// The part of the screen with the services.
pub open spec fn services_part(services: Seq<ServiceModel>) -> Seq<Seq<SpanModel>> {
    if services.len() > 0 {
        seq![faint("── services ────────────────────────────────────────────"@), Seq::empty()]
            + services.map_values(|s: ServiceModel| service_line(s)) + seq![Seq::empty()]
    } else {
        Seq::empty()
    }
}

/// The line that stands for an empty screen.
pub open spec fn nothing_known() -> Seq<SpanModel> {
    seq![coloured("  no data — is observatory server running?"@, Rgb { r: 80, g: 80, b: 110 })]
}

/// The line under the screen.
pub open spec fn footer(now: Seq<char>) -> Seq<SpanModel> {
    faint("── last rendered: "@ + now + " ─────────────────────────────────────"@)
}

/// The screen: the nodes of the configuration, with what is known of them, and the services of
/// which something is known.
pub open spec fn screen(
    nodes: Seq<NodeModel>,
    states: Seq<SnapshotModel>,
    known: Seq<(Seq<char>, Seq<(Seq<char>, bool)>)>,
    services: Seq<ServiceModel>,
    now: Seq<char>,
) -> Seq<Seq<SpanModel>> {
    seq![title(), Seq::empty()] + nodes_part(nodes, states, known) + services_part(services) + (
    if nodes.len() == 0 && services.len() == 0 {
        seq![nothing_known()]
    } else {
        Seq::empty()
    }) + seq![footer(now)]
}

// ── Drawing ───────────────────────────────────────────────────────────────────

/// The last of the states of the node `name`.
fn find_state<'a>(states: &'a Vec<NodeSnapshot>, name: &str) -> (r: Option<&'a NodeSnapshot>)
    ensures
        r.deep_view() == state_of(states.deep_view(), name@),
{
    let ghost all = states.deep_view();
    let mut i: usize = states.len();
    assert(all.take(all.len() as int) =~= all);
    while i > 0
        invariant
            i <= states@.len(),
            all == states.deep_view(),
            state_of(all, name@) == state_of(all.take(i as int), name@),
        decreases i,
    {
        assert(all.take(i as int).last() == states@[i - 1].deep_view());
        if same_text(states[i - 1].node.as_str(), name) {
            return Some(&states[i - 1]);
        }
        assert(all.take(i as int).drop_last() =~= all.take(i - 1));
        i = i - 1;
    }
    None
}

/// Whether `service` is listed as active for the node `name`.
fn find_active(all: &Vec<(String, Vec<(String, bool)>)>, name: &str, service: &str) -> (r: bool)
    ensures
        r == is_active(services_of(all.deep_view(), name@), service@),
{
    let ghost known = all.deep_view();
    let mut i: usize = 0;
    assert(known.skip(0) =~= known);
    while i < all.len()
        invariant
            i <= all@.len(),
            known == all.deep_view(),
            services_of(known, name@) == services_of(known.skip(i as int), name@),
        decreases all@.len() - i,
    {
        assert(known.skip(i as int)[0] == all@[i as int].deep_view());
        if same_text(all[i].0.as_str(), name) {
            return listed_active(&all[i].1, service);
        }
        assert(known.skip(i as int).drop_first() =~= known.skip(i as int + 1));
        i = i + 1;
    }
    false
}

/// Whether `service` is listed as active.
fn listed_active(services: &Vec<(String, bool)>, service: &str) -> (r: bool)
    ensures
        r == is_active(services.deep_view(), service@),
{
    let ghost known = services.deep_view();
    let mut i: usize = 0;
    assert(known.skip(0) =~= known);
    while i < services.len()
        invariant
            i <= services@.len(),
            known == services.deep_view(),
            is_active(known, service@) == is_active(known.skip(i as int), service@),
        decreases services@.len() - i,
    {
        assert(known.skip(i as int)[0] == services@[i as int].deep_view());
        if same_text(services[i].0.as_str(), service) {
            return services[i].1;
        }
        assert(known.skip(i as int).drop_first() =~= known.skip(i as int + 1));
        i = i + 1;
    }
    false
}

/// The line with the name and the status of a node.
fn draw_header(name: &str, state: Option<&NodeSnapshot>) -> (r: Vec<Span>)
    ensures
        r.deep_view() == node_header(name@, state.deep_view()),
{
    let (colour, word) = match state {
        Some(s) => {
            let status = s.last_status.as_str();
            if same_text(status, "ok") {
                (green(), "ok")
            } else if same_text(status, "warn") {
                (orange(), "warn")
            } else if same_text(status, "alert") {
                (red(), "alert")
            } else if same_text(status, "unreachable") {
                (grey(), "unreachable")
            } else {
                (grey(), "unknown")
            }
        },
        None => (grey(), "no data"),
    };
    let mut shown = "  ".to_owned();
    shown.append(word);
    let mut r: Vec<Span> = Vec::new();
    r.push(coloured_span("  ● ", colour));
    r.push(strong_span(name, Rgb { r: 200, g: 200, b: 240 }));
    r.push(coloured_span(shown.as_str(), colour));
    assert(r.deep_view() =~= node_header(name@, state.deep_view()));
    r
}

/// A percentage as it is shown behind a bar.
fn percent_text(pct: u8) -> (r: String)
    ensures
        r@ == "  "@ + decimal(pct as nat) + "%"@,
{
    let mut r = "  ".to_owned();
    r.append(decimal_text(pct as u64).as_str());
    r.append("%");
    r
}

/// The line with the disk usage of a node.
fn draw_disk(disk_pct: u8, alert: u8) -> (r: Vec<Span>)
    ensures
        r.deep_view() == disk_line(disk_pct, alert),
{
    let colour = if disk_pct >= alert {
        red()
    } else if disk_pct >= alert.saturating_sub(10) {
        orange()
    } else {
        green()
    };
    let mut r: Vec<Span> = Vec::new();
    r.push(coloured_span("    disk  ", label_colour()));
    r.push(coloured_span(bar(disk_pct, 20).as_str(), colour));
    r.push(coloured_span(percent_text(disk_pct).as_str(), value_colour()));
    assert(r.deep_view() =~= disk_line(disk_pct, alert));
    r
}

/// The line with the load and the memory usage of a node.
fn draw_usage(load: &Option<CpuLoad>, mem_pct: Option<u8>, alert: &Double) -> (r: Vec<Span>)
    ensures
        r.deep_view() == seq![plain("    "@)] + load_spans(load.deep_view(), *alert) + mem_spans(
            mem_pct,
        ),
{
    let mut r: Vec<Span> = Vec::new();
    r.push(plain_span("    "));
    let ghost indent = seq![plain("    "@)];
    assert(r.deep_view() =~= indent);
    if let Some(l) = load {
        let colour = if l.value.at_least(alert) {
            red()
        } else if l.value.at_least(&Double { bits: TWO }) {
            orange()
        } else {
            value_colour()
        };
        let mut shown = l.text.clone();
        shown.append("    ");
        r.push(coloured_span("cpu  ", label_colour()));
        r.push(coloured_span(shown.as_str(), colour));
    }
    let ghost load_part = load_spans(load.deep_view(), *alert);
    assert(r.deep_view() =~= indent + load_part);
    if let Some(m) = mem_pct {
        let colour = if m >= 90 {
            red()
        } else if m >= 75 {
            orange()
        } else {
            Rgb { r: 100, g: 149, b: 237 }
        };
        r.push(coloured_span("mem  ", label_colour()));
        r.push(coloured_span(bar(m, 20).as_str(), colour));
        r.push(coloured_span(percent_text(m).as_str(), value_colour()));
    }
    assert(r.deep_view() =~= indent + load_part + mem_spans(mem_pct));
    r
}

/// The line with the services of a node.
fn draw_services(node: &NodeConfig, known: &Vec<(String, Vec<(String, bool)>)>) -> (r: Vec<Span>)
    ensures
        r.deep_view() == services_line(
            node.services.deep_view(),
            services_of(known.deep_view(), node.name@),
        ),
{
    let ghost all = node.services.deep_view();
    let ghost listed = services_of(known.deep_view(), node.name@);
    let mut r: Vec<Span> = Vec::new();
    r.push(plain_span("    "));
    assert(all.take(0) =~= Seq::empty());
    assert(r.deep_view() =~= services_line(all.take(0), listed));
    let mut i: usize = 0;
    while i < node.services.len()
        invariant
            i <= node.services@.len(),
            all == node.services.deep_view(),
            listed == services_of(known.deep_view(), node.name@),
            r.deep_view() == services_line(all.take(i as int), listed),
        decreases node.services@.len() - i,
    {
        let ghost done = r.deep_view();
        let service = node.services[i].as_str();
        let active = find_active(known, node.name.as_str(), service);
        if active {
            r.push(coloured_span(service, Rgb { r: 140, g: 190, b: 140 }));
            r.push(coloured_span(" ●  ", green()));
        } else {
            r.push(coloured_span(service, Rgb { r: 190, g: 100, b: 100 }));
            r.push(coloured_span(" ●  ", red()));
        }
        assert(all.take(i as int + 1).drop_last() =~= all.take(i as int));
        assert(r.deep_view() =~= done + service_spans(all[i as int], active));
        i = i + 1;
    }
    assert(all.take(i as int) =~= all);
    r
}

/// Adds the lines of a node to the screen.
fn draw_node(
    out: &mut Vec<Vec<Span>>,
    node: &NodeConfig,
    states: &Vec<NodeSnapshot>,
    known: &Vec<(String, Vec<(String, bool)>)>,
)
    ensures
        final(out).deep_view() == old(out).deep_view() + node_lines(
            node.deep_view(),
            states.deep_view(),
            known.deep_view(),
        ),
{
    let ghost start = out.deep_view();
    let state = find_state(states, node.name.as_str());
    out.push(blank_line());
    out.push(draw_header(node.name.as_str(), state));
    let ghost head = seq![
        Seq::<SpanModel>::empty(),
        node_header(node.name@, state.deep_view()),
    ];
    assert(out.deep_view() =~= start + head);
    if let Some(s) = state {
        if let Some(d) = s.disk_pct {
            out.push(draw_disk(d, node.disk_alert_threshold));
        }
        if s.cpu_load.is_some() || s.mem_pct.is_some() {
            out.push(draw_usage(&s.cpu_load, s.mem_pct, &node.cpu_alert_threshold));
        }
    }
    let ghost measures = match state.deep_view() {
        Some(s) => measure_lines(s, node.deep_view()),
        None => Seq::empty(),
    };
    assert(out.deep_view() =~= start + head + measures);
    if node.services.len() > 0 {
        out.push(draw_services(node, known));
    }
    assert(out.deep_view() =~= start + node_lines(
        node.deep_view(),
        states.deep_view(),
        known.deep_view(),
    ));
}

/// The line of a service.
fn draw_service(state: &ServiceState) -> (r: Vec<Span>)
    ensures
        r.deep_view() == service_line(state.deep_view()),
{
    let status = state.last_status.as_str();
    let (mark, colour) = if same_text(status, "running") {
        (green(), green())
    } else if same_text(status, "degraded") {
        (orange(), orange())
    } else {
        (Rgb { r: 68, g: 68, b: 102 }, Rgb { r: 80, g: 80, b: 110 })
    };
    let name = pad_right(state.service.as_str(), 22);
    let mut r: Vec<Span> = Vec::new();
    r.push(plain_span("  "));
    r.push(coloured_span(name.as_str(), Rgb { r: 190, g: 190, b: 230 }));
    r.push(coloured_span("● ", mark));
    r.push(coloured_span(status, colour));
    assert(r.deep_view() =~= service_line(state.deep_view()));
    r
}

/// The line over the screen.
fn draw_title() -> (r: Vec<Span>)
    ensures
        r.deep_view() == title(),
{
    let mut r: Vec<Span> = Vec::new();
    r.push(strong_span("◆ Observatory", Rgb { r: 160, g: 160, b: 200 }));
    r.push(coloured_span("   [q] quit", Rgb { r: 70, g: 70, b: 100 }));
    assert(r.deep_view() =~= title());
    r
}

/// Adds the part with the nodes to the screen.
fn draw_nodes(
    out: &mut Vec<Vec<Span>>,
    nodes: &Vec<NodeConfig>,
    states: &Vec<NodeSnapshot>,
    known: &Vec<(String, Vec<(String, bool)>)>,
)
    ensures
        final(out).deep_view() == old(out).deep_view() + nodes_part(
            nodes.deep_view(),
            states.deep_view(),
            known.deep_view(),
        ),
{
    let ghost start = out.deep_view();
    if nodes.len() == 0 {
        assert(out.deep_view() =~= start + Seq::<Seq<SpanModel>>::empty());
        return;
    }
    out.push(dim_line("── nodes ──────────────────────────────────────────────"));
    let ghost head = seq![faint("── nodes ──────────────────────────────────────────────"@)];
    let ghost all = nodes.deep_view();
    assert(all.take(0) =~= Seq::empty());
    assert(out.deep_view() =~= start + head + all_node_lines(
        all.take(0),
        states.deep_view(),
        known.deep_view(),
    ));
    let mut i: usize = 0;
    while i < nodes.len()
        invariant
            i <= nodes@.len(),
            all == nodes.deep_view(),
            out.deep_view() == start + head + all_node_lines(
                all.take(i as int),
                states.deep_view(),
                known.deep_view(),
            ),
        decreases nodes@.len() - i,
    {
        draw_node(out, &nodes[i], states, known);
        assert(all.take(i as int + 1).drop_last() =~= all.take(i as int));
        i = i + 1;
        assert(out.deep_view() =~= start + head + all_node_lines(
            all.take(i as int),
            states.deep_view(),
            known.deep_view(),
        ));
    }
    assert(all.take(i as int) =~= all);
    let ghost done = out.deep_view();
    out.push(blank_line());
    assert(out.deep_view() =~= done.push(Seq::empty()));
    assert(out.deep_view() =~= start + nodes_part(all, states.deep_view(), known.deep_view()));
}

/// Adds the part with the services to the screen.
fn draw_service_states(out: &mut Vec<Vec<Span>>, services: &Vec<ServiceState>)
    ensures
        final(out).deep_view() == old(out).deep_view() + services_part(services.deep_view()),
{
    let ghost start = out.deep_view();
    if services.len() == 0 {
        assert(out.deep_view() =~= start + Seq::<Seq<SpanModel>>::empty());
        return;
    }
    out.push(dim_line("── services ────────────────────────────────────────────"));
    out.push(blank_line());
    let ghost head = seq![faint("── services ────────────────────────────────────────────"@), Seq::<SpanModel>::empty()];
    let ghost all = services.deep_view().map_values(|s: ServiceModel| service_line(s));
    assert(out.deep_view() =~= start + head + all.take(0));
    let mut i: usize = 0;
    while i < services.len()
        invariant
            i <= services@.len(),
            all == services.deep_view().map_values(|s: ServiceModel| service_line(s)),
            out.deep_view() == start + head + all.take(i as int),
        decreases services@.len() - i,
    {
        let ghost done = out.deep_view();
        out.push(draw_service(&services[i]));
        assert(out.deep_view() =~= done.push(all[i as int]));
        i = i + 1;
        assert(out.deep_view() =~= start + head + all.take(i as int));
    }
    assert(all.take(i as int) =~= all);
    let ghost done = out.deep_view();
    out.push(blank_line());
    assert(out.deep_view() =~= done.push(Seq::empty()));
    assert(out.deep_view() =~= start + services_part(services.deep_view()));
}

/// The screen at the time `now`: the configured nodes with their states and their services, and
/// the services of which something is known. `known` lists each node once, and each service of a
/// node once.
pub fn draw(
    nodes: &Vec<NodeConfig>,
    states: &Vec<NodeSnapshot>,
    known: &Vec<(String, Vec<(String, bool)>)>,
    services: &Vec<ServiceState>,
    now: &str,
) -> (r: Vec<Vec<Span>>)
    ensures
        r.deep_view() == screen(
            nodes.deep_view(),
            states.deep_view(),
            known.deep_view(),
            services.deep_view(),
            now@,
        ),
{
    let mut r: Vec<Vec<Span>> = Vec::new();
    r.push(draw_title());
    r.push(blank_line());
    assert(r.deep_view() =~= seq![title(), Seq::<SpanModel>::empty()]);
    draw_nodes(&mut r, nodes, states, known);
    draw_service_states(&mut r, services);
    let ghost parts = r.deep_view();
    if services.len() == 0 && nodes.len() == 0 {
        let mut line: Vec<Span> = Vec::new();
        line.push(coloured_span("  no data — is observatory server running?", Rgb { r: 80, g: 80, b: 110 }));
        assert(line.deep_view() =~= nothing_known());
        r.push(line);
        assert(r.deep_view() =~= parts + seq![nothing_known()]);
    } else {
        assert(r.deep_view() =~= parts + Seq::<Seq<SpanModel>>::empty());
    }
    let ghost above = r.deep_view();
    let mut text = "── last rendered: ".to_owned();
    text.append(now);
    text.append(" ─────────────────────────────────────");
    r.push(dim_line(text.as_str()));
    assert(r.deep_view() =~= above + seq![footer(now@)]);
    r
}

// ── Keys ──────────────────────────────────────────────────────────────────────

/// A key.
#[derive(Clone, Copy, Debug, PartialEq, Eq, Structural)]
pub enum Key {
    Char(char),
    Esc,
    Other,
}

/// Whether the screen is left at this key: at a press of `q`, of `Q` or of the escape key.
pub fn quits(key: Key, pressed: bool) -> (r: bool)
    ensures
        r <==> pressed && (key == Key::Char('q') || key == Key::Char('Q') || key == Key::Esc),
{
    pressed && match key {
        Key::Char(c) => c == 'q' || c == 'Q',
        Key::Esc => true,
        Key::Other => false,
    }
}

// ── Laws ──────────────────────────────────────────────────────────────────────

/// The screen starts with the title and ends with the footer.
pub proof fn law_screen_is_framed(
    nodes: Seq<NodeModel>,
    states: Seq<SnapshotModel>,
    known: Seq<(Seq<char>, Seq<(Seq<char>, bool)>)>,
    services: Seq<ServiceModel>,
    now: Seq<char>,
)
    ensures
        screen(nodes, states, known, services, now).len() >= 3,
        screen(nodes, states, known, services, now)[0] == title(),
        screen(nodes, states, known, services, now).last() == footer(now),
{
}

/// Every service of which something is known is shown, in order, with the status that was last
/// known of it, whether or not it is still polled.
pub proof fn law_every_service_is_shown(
    nodes: Seq<NodeModel>,
    states: Seq<SnapshotModel>,
    known: Seq<(Seq<char>, Seq<(Seq<char>, bool)>)>,
    services: Seq<ServiceModel>,
    now: Seq<char>,
    i: int,
)
    requires
        0 <= i < services.len(),
    ensures
        screen(nodes, states, known, services, now)[4 + nodes_part(nodes, states, known).len() + i]
            == service_line(services[i]),
        service_line(services[i]).last().text == services[i].last_status,
{
    let above = seq![title(), Seq::empty()] + nodes_part(nodes, states, known);
    let part = services_part(services);
    assert(part[2 + i] == service_line(services[i]));
    assert((above + part)[above.len() + 2 + i] == part[2 + i]);
}

proof fn lemma_node_is_shown(
    nodes: Seq<NodeModel>,
    states: Seq<SnapshotModel>,
    known: Seq<(Seq<char>, Seq<(Seq<char>, bool)>)>,
    i: int,
) -> (at: int)
    requires
        0 <= i < nodes.len(),
    ensures
        0 <= at < all_node_lines(nodes, states, known).len(),
        all_node_lines(nodes, states, known)[at] == node_header(
            nodes[i].name,
            state_of(states, nodes[i].name),
        ),
    decreases nodes.len(),
{
    let before = all_node_lines(nodes.drop_last(), states, known);
    let last = node_lines(nodes.last(), states, known);
    if i == nodes.len() - 1 {
        assert(last[1] == node_header(nodes[i].name, state_of(states, nodes[i].name)));
        assert((before + last)[before.len() as int + 1] == last[1]);
        before.len() as int + 1
    } else {
        let at = lemma_node_is_shown(nodes.drop_last(), states, known, i);
        assert((before + last)[at] == before[at]);
        at
    }
}

/// Every configured node is shown, with what is known of it.
pub proof fn law_every_node_is_shown(
    nodes: Seq<NodeModel>,
    states: Seq<SnapshotModel>,
    known: Seq<(Seq<char>, Seq<(Seq<char>, bool)>)>,
    services: Seq<ServiceModel>,
    now: Seq<char>,
    i: int,
)
    requires
        0 <= i < nodes.len(),
    ensures
        screen(nodes, states, known, services, now).contains(
            node_header(nodes[i].name, state_of(states, nodes[i].name)),
        ),
{
    let at = lemma_node_is_shown(nodes, states, known, i);
    let lines = all_node_lines(nodes, states, known);
    let all = screen(nodes, states, known, services, now);
    assert(nodes_part(nodes, states, known)[1 + at] == lines[at]);
    assert(all[3 + at] == nodes_part(nodes, states, known)[1 + at]);
    assert(all[3 + at] == node_header(nodes[i].name, state_of(states, nodes[i].name)));
}

/// Of several states of one node the last one is shown, and a node without a state is shown as
/// one without data.
pub proof fn law_last_state_counts(states: Seq<SnapshotModel>, name: Seq<char>)
    ensures
        state_of(states, name) is None <==> forall|i: int|
            0 <= i < states.len() ==> (#[trigger] states[i]).node != name,
        state_of(states, name) matches Some(s) ==> exists|i: int|
            0 <= i < states.len() && #[trigger] states[i] == s && s.node == name && forall|k: int|
                i < k < states.len() ==> (#[trigger] states[k]).node != name,
    decreases states.len(),
{
    if states.len() > 0 {
        if states.last().node == name {
            assert(states[states.len() - 1].node == name);
        } else {
            let before = states.drop_last();
            law_last_state_counts(before, name);
            assert forall|i: int| 0 <= i < before.len() implies #[trigger] before[i]
                == states[i] by {}
            if let Some(s) = state_of(states, name) {
                let i = choose|i: int|
                    0 <= i < before.len() && #[trigger] before[i] == s && s.node == name
                        && forall|k: int|
                        i < k < before.len() ==> (#[trigger] before[k]).node != name;
                assert(states[i] == s);
                assert forall|k: int| i < k < states.len() implies (
                #[trigger] states[k]).node != name by {
                    if k < before.len() {
                        assert(before[k].node != name);
                    }
                }
            } else {
                assert forall|k: int| 0 <= k < states.len() implies (
                #[trigger] states[k]).node != name by {
                    if k < before.len() {
                        assert(before[k].node != name);
                    }
                }
            }
        }
    }
}

/// The colour of a disk usage agrees with the status of the node: as long as the load is below its
/// threshold, the disk is red exactly if the node alerts, orange exactly if it warns, and green
/// exactly if it is well.
pub proof fn law_disk_colour_agrees_with_status(
    disk_pct: u8,
    load: Option<Double>,
    disk_alert: u8,
    cpu_alert: Double,
)
    requires
        load is Some ==> !load->0.ge(cpu_alert),
    ensures
        ({
            let status = node_status(Some(disk_pct), load, disk_alert, cpu_alert);
            let colour = disk_colour(disk_pct, disk_alert);
            &&& colour == red() <==> status == "alert"@
            &&& colour == orange() <==> status == "warn"@
            &&& colour == green() <==> status == "ok"@
        }),
{
    lemma_statuses_differ();
}

/// The line that stands for an empty screen is the only one between the title and the footer if
/// there are neither nodes nor services.
pub proof fn law_empty_screen_says_so(
    states: Seq<SnapshotModel>,
    known: Seq<(Seq<char>, Seq<(Seq<char>, bool)>)>,
    now: Seq<char>,
)
    ensures
        screen(Seq::empty(), states, known, Seq::empty(), now) == seq![
            title(),
            Seq::empty(),
            nothing_known(),
            footer(now),
        ],
{
    assert(screen(Seq::empty(), states, known, Seq::empty(), now) =~= seq![
        title(),
        Seq::empty(),
        nothing_known(),
        footer(now),
    ]);
}

/// If every node is listed once, then the services that are looked up for a node are those of its
/// own entry, wherever that entry stands.
pub proof fn law_services_are_those_of_the_node(known: Seq<(Seq<char>, Seq<(Seq<char>, bool)>)>)
    requires
        forall|i: int, j: int|
            0 <= i < j < known.len() ==> (#[trigger] known[i]).0 != (#[trigger] known[j]).0,
    ensures
        forall|i: int|
            0 <= i < known.len() ==> services_of(known, (#[trigger] known[i]).0) == known[i].1,
    decreases known.len(),
{
    if known.len() > 0 {
        let rest = known.drop_first();
        assert forall|i: int, j: int| 0 <= i < j < rest.len() implies (#[trigger] rest[i]).0 != (
        #[trigger] rest[j]).0 by {
            assert(known[i + 1].0 != known[j + 1].0);
        }
        law_services_are_those_of_the_node(rest);
        assert forall|i: int| 0 <= i < known.len() implies services_of(
            known,
            (#[trigger] known[i]).0,
        ) == known[i].1 by {
            if i > 0 {
                assert(known[0].0 != known[i].0);
                assert(rest[i - 1] == known[i]);
            }
        }
    }
}

/// Of a node that is not listed no service is found, so that each is taken as inactive.
pub proof fn law_unlisted_nodes_have_no_active_service(
    known: Seq<(Seq<char>, Seq<(Seq<char>, bool)>)>,
    name: Seq<char>,
    service: Seq<char>,
)
    requires
        forall|i: int| 0 <= i < known.len() ==> (#[trigger] known[i]).0 != name,
    ensures
        services_of(known, name).len() == 0,
        !is_active(services_of(known, name), service),
    decreases known.len(),
{
    if known.len() > 0 {
        let rest = known.drop_first();
        assert(known[0].0 != name);
        assert forall|i: int| 0 <= i < rest.len() implies (#[trigger] rest[i]).0 != name by {
            assert(known[i + 1].0 != name);
        }
        law_unlisted_nodes_have_no_active_service(rest, name, service);
    }
}

/// If every service is listed once, then each is active exactly if its own entry says so; one that
/// is not listed is not active.
pub proof fn law_services_are_active_as_listed(
    services: Seq<(Seq<char>, bool)>,
    service: Seq<char>,
)
    requires
        forall|i: int, j: int|
            0 <= i < j < services.len() ==> (#[trigger] services[i]).0 != (
            #[trigger] services[j]).0,
    ensures
        is_active(services, service) <==> services.contains((service, true)),
    decreases services.len(),
{
    if services.len() > 0 {
        let rest = services.drop_first();
        assert forall|i: int, j: int| 0 <= i < j < rest.len() implies (#[trigger] rest[i]).0 != (
        #[trigger] rest[j]).0 by {
            assert(services[i + 1].0 != services[j + 1].0);
        }
        law_services_are_active_as_listed(rest, service);
        let wanted = (service, true);
        if services[0].0 == service {
            if services.contains(wanted) {
                let k = choose|k: int| 0 <= k < services.len() && services[k] == wanted;
                assert(k == 0 || services[0].0 != services[k].0);
            }
            if services[0].1 {
                assert(services[0] == wanted);
            }
        } else {
            if rest.contains(wanted) {
                let k = choose|k: int| 0 <= k < rest.len() && rest[k] == wanted;
                assert(services[k + 1] == wanted);
            }
            if services.contains(wanted) {
                let k = choose|k: int| 0 <= k < services.len() && services[k] == wanted;
                assert(rest[k - 1] == wanted);
            }
        }
    }
}

/// The first entry of a node, and the first entry of a service, are the ones that count.
pub proof fn law_first_entry_counts(
    known: Seq<(Seq<char>, Seq<(Seq<char>, bool)>)>,
    entry: (Seq<char>, Seq<(Seq<char>, bool)>),
    services: Seq<(Seq<char>, bool)>,
    state: (Seq<char>, bool),
)
    ensures
        services_of(seq![entry] + known, entry.0) == entry.1,
        forall|name: Seq<char>|
            name != entry.0 ==> #[trigger] services_of(seq![entry] + known, name) == services_of(
                known,
                name,
            ),
        is_active(seq![state] + services, state.0) == state.1,
        forall|service: Seq<char>|
            service != state.0 ==> #[trigger] is_active(seq![state] + services, service)
                == is_active(services, service),
{
    assert((seq![entry] + known).drop_first() =~= known);
    assert((seq![state] + services).drop_first() =~= services);
}

/// In the line of a node's services each service stands behind its predecessors with its mark, both
/// in green tones if it is active and in red tones if it is not.
pub proof fn law_services_stand_in_their_order(
    services: Seq<Seq<char>>,
    known: Seq<(Seq<char>, bool)>,
    i: int,
)
    requires
        0 <= i < services.len(),
    ensures
        ({
            let line = services_line(services, known);
            let name = line[1 + 2 * i];
            let mark = line[2 + 2 * i];
            let active = is_active(known, services[i]);
            &&& line.len() == 1 + 2 * services.len()
            &&& line[0].text == "    "@ && line[0].fg is None && !line[0].bold
            &&& name.text == services[i] && !name.bold
            &&& mark.text == " ●  "@ && !mark.bold
            &&& active ==> name.fg == Some(Rgb { r: 140, g: 190, b: 140 }) && mark.fg == Some(
                Rgb { r: 76, g: 175, b: 80 },
            )
            &&& !active ==> name.fg == Some(Rgb { r: 190, g: 100, b: 100 }) && mark.fg == Some(
                Rgb { r: 244, g: 67, b: 54 },
            )
        }),
    decreases services.len(),
{
    let before = services_line(services.drop_last(), known);
    lemma_services_line_len(services.drop_last(), known);
    if i < services.len() - 1 {
        law_services_stand_in_their_order(services.drop_last(), known, i);
        assert(services_line(services, known)[1 + 2 * i] == before[1 + 2 * i]);
        assert(services_line(services, known)[2 + 2 * i] == before[2 + 2 * i]);
    }
}

proof fn lemma_services_line_len(services: Seq<Seq<char>>, known: Seq<(Seq<char>, bool)>)
    ensures
        services_line(services, known).len() == 1 + 2 * services.len(),
        services_line(services, known)[0] == plain("    "@),
    decreases services.len(),
{
    if services.len() > 0 {
        lemma_services_line_len(services.drop_last(), known);
    }
}

/// If every node is listed once, and every service of a node once, then a service of a node is
/// shown as active exactly if the entry of that node lists it as active. Of a node that is not
/// listed every service is shown as inactive.
pub proof fn law_services_are_shown_as_listed(
    node: NodeModel,
    states: Seq<SnapshotModel>,
    known: Seq<(Seq<char>, Seq<(Seq<char>, bool)>)>,
    i: int,
)
    requires
        0 <= i < node.services.len(),
        forall|a: int, b: int|
            0 <= a < b < known.len() ==> (#[trigger] known[a]).0 != (#[trigger] known[b]).0,
        forall|k: int, a: int, b: int|
            0 <= k < known.len() && 0 <= a < b < known[k].1.len() ==> (
            #[trigger] known[k].1[a]).0 != (#[trigger] known[k].1[b]).0,
    ensures
        ({
            let line = node_lines(node, states, known).last();
            let active = exists|k: int|
                0 <= k < known.len() && (#[trigger] known[k]).0 == node.name
                    && known[k].1.contains((node.services[i], true));
            &&& line[1 + 2 * i].text == node.services[i]
            &&& line[2 + 2 * i].fg == Some(
                if active {
                    Rgb { r: 76, g: 175, b: 80 }
                } else {
                    Rgb { r: 244, g: 67, b: 54 }
                },
            )
        }),
{
    let service = node.services[i];
    let listed = services_of(known, node.name);
    law_services_stand_in_their_order(node.services, listed, i);
    assert(node_lines(node, states, known).last() == services_line(node.services, listed));
    law_services_are_those_of_the_node(known);
    if exists|k: int| 0 <= k < known.len() && (#[trigger] known[k]).0 == node.name {
        let k = choose|k: int| 0 <= k < known.len() && (#[trigger] known[k]).0 == node.name;
        assert(listed == known[k].1);
        assert forall|a: int, b: int| 0 <= a < b < listed.len() implies (#[trigger] listed[a]).0
            != (#[trigger] listed[b]).0 by {
            assert(known[k].1[a].0 != known[k].1[b].0);
        }
        law_services_are_active_as_listed(listed, service);
        assert forall|j: int|
            0 <= j < known.len() && (#[trigger] known[j]).0 == node.name implies j == k by {
            if j < k {
                assert(known[j].0 != known[k].0);
            } else if k < j {
                assert(known[k].0 != known[j].0);
            }
        }
    } else {
        law_unlisted_nodes_have_no_active_service(known, node.name, service);
    }
}

/// The colours, in numbers.
pub proof fn law_colours_in_numbers()
    ensures
        green() == (Rgb { r: 76, g: 175, b: 80 }),
        orange() == (Rgb { r: 255, g: 152, b: 0 }),
        red() == (Rgb { r: 244, g: 67, b: 54 }),
        grey() == (Rgb { r: 100, g: 100, b: 130 }),
        label_colour() == (Rgb { r: 70, g: 70, b: 110 }),
        value_colour() == (Rgb { r: 150, g: 150, b: 190 }),
{
}

/// Text keeps its letters in every style; only bold text is bold, and only plain text is without a
/// colour. What a piece of a line holds is what its fields hold.
pub proof fn law_styles_keep_the_text(text: Seq<char>, fg: Rgb, span: Span)
    ensures
        coloured(text, fg).text == text && coloured(text, fg).fg == Some(fg),
        !coloured(text, fg).bold,
        strong(text, fg).text == text && strong(text, fg).fg == Some(fg),
        strong(text, fg).bold,
        plain(text).text == text && plain(text).fg is None,
        !plain(text).bold,
        faint(text).len() == 1,
        faint(text)[0].text == text && faint(text)[0].fg == Some(Rgb { r: 50, g: 50, b: 80 }),
        !faint(text)[0].bold,
        span.deep_view().text == span.text@,
        span.deep_view().fg == span.fg,
        span.deep_view().bold == span.bold,
{
}

/// A cell of a bar is full exactly if the percentage reaches to its end: the cell `i` of `width`
/// cells ends at `100 * (i + 1) / width` percent. Every other cell is empty.
pub proof fn law_cells_are_full_up_to_the_percentage(pct: u8, width: nat, i: int)
    requires
        0 <= i < width,
    ensures
        bar_text(pct, width).len() == width,
        bar_text(pct, width)[i] == '█' <==> 100 * (i + 1) <= pct * width,
        bar_text(pct, width)[i] == '░' <==> 100 * (i + 1) > pct * width,
{
    lemma_filled_cells(pct, width);
    let p = pct as int;
    let w = width as int;
    if pct >= 100 {
        assert(100 * (i + 1) <= p * w) by (nonlinear_arith)
            requires
                p >= 100,
                i < w,
                i >= 0,
        ;
    }
}

/// What `bar` returns, cell by cell.
pub proof fn law_bars_in_full(pct: u8, width: usize, text: String, i: int)
    requires
        call_ensures(bar, (pct, width), text),
        0 <= i < width,
    ensures
        text@.len() == width,
        text@[i] == if 100 * (i + 1) <= pct * width {
            '█'
        } else {
            '░'
        },
{
    law_cells_are_full_up_to_the_percentage(pct, width as nat, i);
}

/// A disk usage is red from its threshold on, orange at most ten below it, and green otherwise.
pub proof fn law_disk_colour_in_plain_numbers(d: u8, t: u8)
    ensures
        d >= t ==> disk_colour(d, t) == (Rgb { r: 244, g: 67, b: 54 }),
        d < t && d + 10 >= t ==> disk_colour(d, t) == (Rgb { r: 255, g: 152, b: 0 }),
        d + 10 < t ==> disk_colour(d, t) == (Rgb { r: 76, g: 175, b: 80 }),
{
}

/// A load is red from its threshold on, else orange from two on, and else has the colour of values.
pub proof fn law_load_colour_in_plain_numbers(load: Double, alert: Double)
    ensures
        load.ge(alert) ==> load_colour(load, alert) == (Rgb { r: 244, g: 67, b: 54 }),
        !load.ge(alert) && !load.is_nan() && load.value() >= 2 * one() ==> load_colour(load, alert)
            == (Rgb { r: 255, g: 152, b: 0 }),
        !load.ge(alert) && (load.is_nan() || load.value() < 2 * one()) ==> load_colour(load, alert)
            == (Rgb { r: 150, g: 150, b: 190 }),
{
    lemma_patterns();
}

/// A memory usage is red from 90 on, orange from 75 on, and blue below.
pub proof fn law_mem_colour_in_plain_numbers(m: u8)
    ensures
        m >= 90 ==> mem_colour(m) == (Rgb { r: 244, g: 67, b: 54 }),
        75 <= m < 90 ==> mem_colour(m) == (Rgb { r: 255, g: 152, b: 0 }),
        m < 75 ==> mem_colour(m) == (Rgb { r: 100, g: 149, b: 237 }),
{
}

/// The colour of a node: green if it is well, orange if it warns, red if it alerts, and grey in
/// every other case. The word for its state is its status, if that is one of the four, and says
/// otherwise whether anything is known.
pub proof fn law_node_marks_by_status(state: SnapshotModel)
    ensures
        ({
            let status = state.last_status;
            let (colour, word) = node_mark(Some(state));
            let four = status == "ok"@ || status == "warn"@ || status == "alert"@ || status
                == "unreachable"@;
            &&& colour == (Rgb { r: 76, g: 175, b: 80 }) <==> status == "ok"@
            &&& colour == (Rgb { r: 255, g: 152, b: 0 }) <==> status == "warn"@
            &&& colour == (Rgb { r: 244, g: 67, b: 54 }) <==> status == "alert"@
            &&& colour == (Rgb { r: 100, g: 100, b: 130 }) <==> status != "ok"@ && status
                != "warn"@ && status != "alert"@
            &&& four ==> word == status
            &&& !four ==> word == "unknown"@
        }),
        node_mark(None).0 == (Rgb { r: 100, g: 100, b: 130 }),
        node_mark(None).1 == "no data"@,
{
    lemma_statuses_differ();
}

/// The header of a node: a mark, its name in bold, and the word for its state.
pub proof fn law_header_shows_name_and_state(name: Seq<char>, state: Option<SnapshotModel>)
    ensures
        ({
            let line = node_header(name, state);
            let (colour, word) = node_mark(state);
            &&& line.len() == 3
            &&& line[0].text == "  ● "@ && line[0].fg == Some(colour) && !line[0].bold
            &&& line[1].text == name && line[1].fg == Some(Rgb { r: 200, g: 200, b: 240 })
                && line[1].bold
            &&& line[2].text == seq![' ', ' '] + word && line[2].fg == Some(colour) && !line[2].bold
        }),
{
    reveal_strlit("  ");
    assert("  "@ =~= seq![' ', ' ']);
}

/// The line of a disk: its label, a bar of twenty cells, and the percentage.
pub proof fn law_disk_line_shows_the_usage(d: u8, t: u8)
    ensures
        ({
            let line = disk_line(d, t);
            &&& line.len() == 3
            &&& line[0].text == "    disk  "@ && line[0].fg == Some(Rgb { r: 70, g: 70, b: 110 })
                && !line[0].bold
            &&& line[1].text == bar_text(d, 20) && line[1].fg == Some(disk_colour(d, t))
                && !line[1].bold
            &&& line[2].text == seq![' ', ' '] + decimal(d as nat) + seq!['%'] && line[2].fg
                == Some(Rgb { r: 150, g: 150, b: 190 }) && !line[2].bold
        }),
{
    reveal_strlit("  ");
    reveal_strlit("%");
    assert("  "@ =~= seq![' ', ' ']);
    assert("%"@ =~= seq!['%']);
}

/// The line of a load and a memory usage shows the load as it was written, and the memory as a
/// bar of twenty cells and a percentage; one that is unknown leaves nothing.
pub proof fn law_usage_is_shown_as_measured(
    load: Option<CpuLoadModel>,
    alert: Double,
    mem_pct: Option<u8>,
)
    ensures
        load is None ==> load_spans(load, alert).len() == 0,
        load is Some ==> ({
            let spans = load_spans(load, alert);
            &&& spans.len() == 2
            &&& spans[0].text == "cpu  "@ && spans[0].fg == Some(Rgb { r: 70, g: 70, b: 110 })
                && !spans[0].bold
            &&& spans[1].text == load->0.text + seq![' ', ' ', ' ', ' '] && spans[1].fg == Some(
                load_colour(load->0.value, alert),
            ) && !spans[1].bold
        }),
        mem_pct is None ==> mem_spans(mem_pct).len() == 0,
        mem_pct is Some ==> ({
            let spans = mem_spans(mem_pct);
            &&& spans.len() == 3
            &&& spans[0].text == "mem  "@ && spans[0].fg == Some(Rgb { r: 70, g: 70, b: 110 })
                && !spans[0].bold
            &&& spans[1].text == bar_text(mem_pct->0, 20) && spans[1].fg == Some(
                mem_colour(mem_pct->0),
            ) && !spans[1].bold
            &&& spans[2].text == seq![' ', ' '] + decimal(mem_pct->0 as nat) + seq!['%']
                && spans[2].fg == Some(Rgb { r: 150, g: 150, b: 190 }) && !spans[2].bold
        }),
{
    reveal_strlit("    ");
    reveal_strlit("  ");
    reveal_strlit("%");
    assert("    "@ =~= seq![' ', ' ', ' ', ' ']);
    assert("  "@ =~= seq![' ', ' ']);
    assert("%"@ =~= seq!['%']);
}

/// The lines of a node, in full: an empty one, its header, its disk if it was measured, its load
/// and its memory if either was measured, and its services if it has any.
pub proof fn law_node_lines_in_their_order(
    node: NodeModel,
    states: Seq<SnapshotModel>,
    known: Seq<(Seq<char>, Seq<(Seq<char>, bool)>)>,
)
    ensures
        ({
            let lines = node_lines(node, states, known);
            let state = state_of(states, node.name);
            let disk = state is Some && state->0.disk_pct is Some;
            let usage = state is Some && (state->0.cpu_load is Some || state->0.mem_pct is Some);
            let a: int = if disk {
                3
            } else {
                2
            };
            let b: int = if usage {
                a + 1
            } else {
                a
            };
            &&& lines.len() == if node.services.len() > 0 {
                b + 1
            } else {
                b
            }
            &&& lines[0].len() == 0
            &&& lines[1] == node_header(node.name, state)
            &&& disk ==> lines[2] == disk_line(state->0.disk_pct->0, node.disk_alert_threshold)
            &&& usage ==> lines[a] == seq![
                SpanModel { text: "    "@, fg: None, bold: false },
            ] + load_spans(state->0.cpu_load, node.cpu_alert_threshold) + mem_spans(
                state->0.mem_pct,
            )
            &&& node.services.len() > 0 ==> lines[b] == services_line(
                node.services,
                services_of(known, node.name),
            )
        }),
{
}

/// The lines of some nodes and then of others are the lines of them all.
pub proof fn law_nodes_stand_one_after_another(
    node: NodeModel,
    a: Seq<NodeModel>,
    b: Seq<NodeModel>,
    states: Seq<SnapshotModel>,
    known: Seq<(Seq<char>, Seq<(Seq<char>, bool)>)>,
)
    ensures
        all_node_lines(Seq::empty(), states, known).len() == 0,
        all_node_lines(seq![node], states, known) == node_lines(node, states, known),
        all_node_lines(a + b, states, known) == all_node_lines(a, states, known) + all_node_lines(
            b,
            states,
            known,
        ),
    decreases b.len(),
{
    assert(seq![node].drop_last() =~= Seq::empty());
    assert(all_node_lines(Seq::empty(), states, known) + node_lines(node, states, known)
        =~= node_lines(node, states, known));
    if b.len() == 0 {
        assert(a + b =~= a);
        assert(all_node_lines(a, states, known) + all_node_lines(b, states, known)
            =~= all_node_lines(a, states, known));
    } else {
        law_nodes_stand_one_after_another(node, a, b.drop_last(), states, known);
        assert((a + b).drop_last() =~= a + b.drop_last());
        assert((a + b).last() == b.last());
        assert(all_node_lines(a + b, states, known) =~= all_node_lines(a, states, known)
            + all_node_lines(b, states, known));
    }
}

/// The line of a service: its name in a column of 22, and its status, both it and its mark green if
/// the service is running, orange if it is degraded, and dark otherwise.
pub proof fn law_service_line_shows_the_status(state: ServiceModel)
    ensures
        ({
            let line = service_line(state);
            let running = state.last_status == "running"@;
            let degraded = state.last_status == "degraded"@;
            &&& line.len() == 4
            &&& line[0].text == "  "@ && line[0].fg is None && !line[0].bold
            &&& line[1].text == padded(state.service, 22) && line[1].fg == Some(
                Rgb { r: 190, g: 190, b: 230 },
            ) && !line[1].bold
            &&& line[2].text == "● "@ && !line[2].bold
            &&& line[3].text == state.last_status && !line[3].bold
            &&& running ==> line[2].fg == Some(Rgb { r: 76, g: 175, b: 80 }) && line[3].fg == Some(
                Rgb { r: 76, g: 175, b: 80 },
            )
            &&& degraded ==> line[2].fg == Some(Rgb { r: 255, g: 152, b: 0 }) && line[3].fg == Some(
                Rgb { r: 255, g: 152, b: 0 },
            )
            &&& !running && !degraded ==> line[2].fg == Some(Rgb { r: 68, g: 68, b: 102 })
                && line[3].fg == Some(Rgb { r: 80, g: 80, b: 110 })
        }),
{
    reveal_strlit("running");
    reveal_strlit("degraded");
    assert("running"@.len() == 7);
    assert("degraded"@.len() == 8);
}

/// The screen in full: the title and an empty line; with nodes, their heading, their lines and an
/// empty line; with services, their heading, an empty line, a line for each and an empty line;
/// without either, a line that says so; and the footer with the time.
pub proof fn law_screen_in_full(
    nodes: Vec<NodeConfig>,
    states: Vec<NodeSnapshot>,
    known: Vec<(String, Vec<(String, bool)>)>,
    services: Vec<ServiceState>,
    now: &str,
    drawn: Vec<Vec<Span>>,
)
    requires
        call_ensures(draw, (&nodes, &states, &known, &services, now), drawn),
    ensures
        ({
            let lines = drawn.deep_view();
            let of_nodes = all_node_lines(
                nodes.deep_view(),
                states.deep_view(),
                known.deep_view(),
            );
            let n = of_nodes.len() as int;
            let s = services@.len() as int;
            let a = if nodes@.len() > 0 {
                4 + n
            } else {
                2
            };
            let b = if s > 0 {
                a + 3 + s
            } else if nodes@.len() == 0 {
                3
            } else {
                a
            };
            let dark = Rgb { r: 50, g: 50, b: 80 };
            &&& drawn@.len() == b + 1
            &&& lines[0] == seq![
                SpanModel {
                    text: "◆ Observatory"@,
                    fg: Some(Rgb { r: 160, g: 160, b: 200 }),
                    bold: true,
                },
                SpanModel {
                    text: "   [q] quit"@,
                    fg: Some(Rgb { r: 70, g: 70, b: 100 }),
                    bold: false,
                },
            ]
            &&& lines[1].len() == 0
            &&& nodes@.len() > 0 ==> {
                &&& lines[2] == seq![
                    SpanModel {
                        text: "── nodes ──────────────────────────────────────────────"@,
                        fg: Some(dark),
                        bold: false,
                    },
                ]
                &&& lines.subrange(3, 3 + n) == of_nodes
                &&& lines[3 + n].len() == 0
            }
            &&& s > 0 ==> {
                &&& lines[a] == seq![
                    SpanModel {
                        text: "── services ────────────────────────────────────────────"@,
                        fg: Some(dark),
                        bold: false,
                    },
                ]
                &&& lines[a + 1].len() == 0
                &&& forall|i: int|
                    0 <= i < s ==> #[trigger] lines[a + 2 + i] == service_line(
                        services@[i].deep_view(),
                    )
                &&& lines[a + 2 + s].len() == 0
            }
            &&& s == 0 && nodes@.len() == 0 ==> lines[2] == seq![
                SpanModel {
                    text: "  no data — is observatory server running?"@,
                    fg: Some(Rgb { r: 80, g: 80, b: 110 }),
                    bold: false,
                },
            ]
            &&& lines[b] == seq![
                SpanModel {
                    text: "── last rendered: "@ + now@ + " ─────────────────────────────────────"@,
                    fg: Some(dark),
                    bold: false,
                },
            ]
        }),
{
    let lines = drawn.deep_view();
    let of_nodes = all_node_lines(nodes.deep_view(), states.deep_view(), known.deep_view());
    let n = of_nodes.len() as int;
    assert(lines.len() == drawn@.len());
    assert(nodes.deep_view().len() == nodes@.len());
    assert(services.deep_view().len() == services@.len());
    if nodes@.len() > 0 {
        assert(lines.subrange(3, 3 + n) =~= of_nodes);
    }
}

/// A line that is drawn faintly holds the text that it was given.
pub proof fn law_dim_lines_in_full(s: &str, line: Vec<Span>)
    requires
        call_ensures(dim_line, (s,), line),
    ensures
        line@.len() == 1,
        line@[0].text@ == s@,
        line@[0].fg == Some(Rgb { r: 50, g: 50, b: 80 }),
        !line@[0].bold,
{
    assert(line.deep_view().len() == line@.len());
    assert(line.deep_view()[0] == line@[0].deep_view());
}

/// The screen is left at a press of `q`, of `Q` or of the escape key, and at nothing else.
pub proof fn law_keys_that_quit(key: Key, pressed: bool, left: bool)
    requires
        call_ensures(quits, (key, pressed), left),
    ensures
        left ==> pressed,
        key is Esc ==> left == pressed,
        key is Other ==> !left,
        key is Char ==> (left <==> pressed && (key->Char_0 == 'q' || key->Char_0 == 'Q')),
{
}

} // verus!
