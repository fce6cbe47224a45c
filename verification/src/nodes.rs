//! The nodes: what is configured of them, how they are asked, and what their answers mean.
use crate::bytes::{text_lossy, utf8_lossy};
use crate::double::{lemma_patterns, one, Double, NINETY_FIVE};
use crate::number::{decimal, is_digit, law_decimal_is_read_back, law_what_is_read_as_a_number,
    lemma_decimal, parse_u8, unsigned};
use crate::paths::{home_file, home_or_tmp, join_path};
use crate::text::{find, join, joined, law_join_of_two_lists, law_lines_are_read_back,
    law_lines_come_one_by_one, law_lines_of_two_texts,
    law_trim_takes_what_surrounds, lemma_find_is, lemma_join_holds, lemma_trim_drops_last, lines,
    lines_of, part, repeated, same_text, split_once, strip_prefix, trim, trimmed, white_space,
    without_cr, written};
use vstd::prelude::*;
use vstd::utf8::{decode_utf8, encode_utf8, encode_utf8_decode_utf8, encode_utf8_valid_utf8,
    valid_utf8};

verus! {

// ── Config ────────────────────────────────────────────────────────────────────

/// A node to poll.
#[derive(Clone, Debug, PartialEq, Eq)]
pub struct NodeConfig {
    pub name: String,
    pub host: String,
    pub ssh_user: String,
    pub ssh_key: Option<String>,
    pub services: Vec<String>,
    pub disk_alert_threshold: u8,
    pub cpu_alert_threshold: Double,
}

/// What a `NodeConfig` holds.
pub struct NodeModel {
    pub name: Seq<char>,
    pub host: Seq<char>,
    pub ssh_user: Seq<char>,
    pub ssh_key: Option<Seq<char>>,
    pub services: Seq<Seq<char>>,
    pub disk_alert_threshold: u8,
    pub cpu_alert_threshold: Double,
}

impl DeepView for NodeConfig {
    type V = NodeModel;

    open spec fn deep_view(&self) -> NodeModel {
        NodeModel {
            name: self.name@,
            host: self.host@,
            ssh_user: self.ssh_user@,
            ssh_key: self.ssh_key.deep_view(),
            services: self.services.deep_view(),
            disk_alert_threshold: self.disk_alert_threshold,
            cpu_alert_threshold: self.cpu_alert_threshold,
        }
    }
}

/// A node as the file `nodes.toml` lists it.
#[derive(Clone, Debug, PartialEq, Eq)]
pub struct NodeEntry {
    pub name: String,
    pub host: String,
    pub ssh_user: String,
    pub ssh_key: Option<String>,
    pub services: Option<Vec<String>>,
    pub disk_alert_threshold: Option<u8>,
    pub cpu_alert_threshold: Option<Double>,
}

impl DeepView for NodeEntry {
    type V = NodeModel;

    /// The node that the entry configures: what it leaves out has a default.
    open spec fn deep_view(&self) -> NodeModel {
        NodeModel {
            name: self.name@,
            host: self.host@,
            ssh_user: self.ssh_user@,
            ssh_key: self.ssh_key.deep_view(),
            services: match self.services.deep_view() {
                Some(services) => services,
                None => Seq::empty(),
            },
            disk_alert_threshold: match self.disk_alert_threshold {
                Some(threshold) => threshold,
                None => 85,
            },
            cpu_alert_threshold: match self.cpu_alert_threshold {
                Some(threshold) => threshold,
                None => (Double { bits: NINETY_FIVE }),
            },
        }
    }
}

/// The disk usage, in percent, at which a node alerts unless it is configured otherwise.
pub fn default_disk_threshold() -> (r: u8)
    ensures
        r == 85,
{
    85
}

/// The load at which a node alerts unless it is configured otherwise.
pub fn default_cpu_threshold() -> (r: Double)
    ensures
        r.bits == NINETY_FIVE,
        !r.is_nan(),
        r.value() == 95 * one(),
{
    proof {
        lemma_patterns();
    }
    Double { bits: NINETY_FIVE }
}

/// The list of the nodes to poll.
pub fn nodes_toml_path(home: Option<&str>) -> (r: String)
    ensures
        r@ == join_path(home_or_tmp(home.deep_view()), ".epc/nodes.toml"@),
{
    home_file(home, ".epc/nodes.toml")
}

/// The node that an entry configures.
pub fn configured(entry: NodeEntry) -> (r: NodeConfig)
    ensures
        r.deep_view() == entry.deep_view(),
{
    let services: Vec<String> = match entry.services {
        Some(services) => services,
        None => Vec::new(),
    };
    let disk: u8 = match entry.disk_alert_threshold {
        Some(threshold) => threshold,
        None => default_disk_threshold(),
    };
    let cpu = match entry.cpu_alert_threshold {
        Some(threshold) => threshold,
        None => default_cpu_threshold(),
    };
    let r = NodeConfig {
        name: entry.name,
        host: entry.host,
        ssh_user: entry.ssh_user,
        ssh_key: entry.ssh_key,
        services,
        disk_alert_threshold: disk,
        cpu_alert_threshold: cpu,
    };
    assert(r.deep_view().services =~= entry.deep_view().services);
    r
}

/// The nodes of a file, in its order. A file that cannot be read, or that is no list of nodes,
/// has none, and neither has one that lists none.
pub fn load_nodes(file: Option<Vec<NodeEntry>>) -> (r: Vec<NodeConfig>)
    ensures
        r.deep_view() == match file.deep_view() {
            Some(nodes) => nodes,
            None => Seq::empty(),
        },
{
    let mut r: Vec<NodeConfig> = Vec::new();
    if let Some(entries) = file {
        let ghost all = entries.deep_view();
        for entry in it: entries
            invariant
                it.seq() == entries@,
                all == entries.deep_view(),
                r.deep_view() =~= all.take(it.index()),
        {
            let ghost done = r.deep_view();
            let ghost i = it.index();
            assert(entry == entries@[i]);
            r.push(configured(entry));
            assert(r.deep_view() =~= done.push(all[i]));
        }
        assert(all.take(all.len() as int) =~= all);
    }
    assert(file is None ==> r.deep_view() =~= Seq::empty());
    r
}

// ── Asking a node ─────────────────────────────────────────────────────────────

/// The key that a node without one is asked with.
pub const DEFAULT_KEY: &'static str = "~/.ssh/id_ed25519";

/// The commands that write the disk usage, the load and the memory usage of a node.
pub const METRICS_COMMAND: &'static str =
    "echo DISK:$(df -P / | tail -1 | awk '{print $5}' | tr -d '%'); echo LOAD:$(cat /proc/loadavg | awk '{print $1}'); echo MEM:$(free -m | grep Mem | awk '{printf \"%.0f\", $3/$2*100}'); ";

/// The path of a key: a leading tilde stands for the home directory, where there is one.
pub open spec fn key_path(key: Seq<char>, home: Option<Seq<char>>) -> Seq<char> {
    if key.len() > 0 && key[0] == '~' && home is Some {
        home->0 + key.drop_first()
    } else {
        key
    }
}

/// The command that writes whether `service` is active.
pub open spec fn service_check(service: Seq<char>) -> Seq<char> {
    "echo SVC:"@ + service + ":$(systemctl is-active "@ + service
        + " 2>/dev/null || echo inactive)"@
}

/// The command that a node is asked to run.
pub open spec fn poll_command(services: Seq<Seq<char>>) -> Seq<char> {
    METRICS_COMMAND@ + join(services.map_values(|s: Seq<char>| service_check(s)), "; "@)
}

/// The arguments with which `ssh` runs `command` as `user` on `host`, without asking anything.
pub open spec fn ssh_arguments(
    key: Seq<char>,
    user: Seq<char>,
    host: Seq<char>,
    command: Seq<char>,
) -> Seq<Seq<char>> {
    seq![
        "-i"@,
        key,
        "-o"@,
        "StrictHostKeyChecking=no"@,
        "-o"@,
        "ConnectTimeout=5"@,
        "-o"@,
        "BatchMode=yes"@,
        user + "@"@ + host,
        command,
    ]
}

/// The arguments with which `ssh` polls a node.
pub open spec fn poll_arguments(node: NodeModel, home: Option<Seq<char>>) -> Seq<Seq<char>> {
    let key = match node.ssh_key {
        Some(key) => key,
        None => DEFAULT_KEY@,
    };
    ssh_arguments(key_path(key, home), node.ssh_user, node.host, poll_command(node.services))
}

/// The path of a key: a leading tilde stands for the home directory, where there is one.
pub fn resolve_key(key: &str, home: Option<&str>) -> (r: String)
    ensures
        r@ == key_path(key@, home.deep_view()),
{
    let n: usize = key.unicode_len();
    if n > 0 && key.get_char(0) == '~' {
        if let Some(h) = home {
            let mut r = h.to_owned();
            let rest = part(key, 1, n);
            assert(rest@ =~= key@.drop_first());
            r.append(rest.as_str());
            return r;
        }
    }
    key.to_owned()
}

/// The command that writes whether `service` is active.
fn service_check_command(service: &str) -> (r: String)
    ensures
        r@ == service_check(service@),
{
    let mut r = "echo SVC:".to_owned();
    r.append(service);
    r.append(":$(systemctl is-active ");
    r.append(service);
    r.append(" 2>/dev/null || echo inactive)");
    r
}

/// The command that a node with these services is asked to run.
pub fn node_command(services: &Vec<String>) -> (r: String)
    ensures
        r@ == poll_command(services.deep_view()),
{
    let mut checks: Vec<String> = Vec::new();
    let mut i: usize = 0;
    let ghost all = services.deep_view().map_values(|s: Seq<char>| service_check(s));
    while i < services.len()
        invariant
            i <= services@.len(),
            all == services.deep_view().map_values(|s: Seq<char>| service_check(s)),
            checks.deep_view() =~= all.take(i as int),
        decreases services@.len() - i,
    {
        let ghost done = checks.deep_view();
        checks.push(service_check_command(services[i].as_str()));
        assert(checks.deep_view() =~= done.push(all[i as int]));
        i = i + 1;
    }
    assert(all.take(i as int) =~= all);
    let tail = joined(&checks, "; ");
    let mut r = METRICS_COMMAND.to_owned();
    r.append(tail.as_str());
    r
}

/// The arguments with which `ssh` runs `command` as `user` on `host`.
pub fn ssh_args(key: &str, user: &str, host: &str, command: &str) -> (r: Vec<String>)
    ensures
        r.deep_view() == ssh_arguments(key@, user@, host@, command@),
{
    let mut target = user.to_owned();
    target.append("@");
    target.append(host);
    let mut r: Vec<String> = Vec::new();
    r.push("-i".to_owned());
    r.push(key.to_owned());
    r.push("-o".to_owned());
    r.push("StrictHostKeyChecking=no".to_owned());
    r.push("-o".to_owned());
    r.push("ConnectTimeout=5".to_owned());
    r.push("-o".to_owned());
    r.push("BatchMode=yes".to_owned());
    r.push(target);
    r.push(command.to_owned());
    assert(r.deep_view() =~= ssh_arguments(key@, user@, host@, command@));
    r
}

/// The arguments with which `ssh` polls `node`.
pub fn poll_args(node: &NodeConfig, home: Option<&str>) -> (r: Vec<String>)
    ensures
        r.deep_view() == poll_arguments(node.deep_view(), home.deep_view()),
{
    let key = match &node.ssh_key {
        Some(key) => resolve_key(key.as_str(), home),
        None => resolve_key(DEFAULT_KEY, home),
    };
    let command = node_command(&node.services);
    ssh_args(key.as_str(), node.ssh_user.as_str(), node.host.as_str(), command.as_str())
}

// ── What a node answers ───────────────────────────────────────────────────────

/// What `ssh` left behind: whether it succeeded, and what it wrote.
#[derive(Clone, Debug, PartialEq, Eq)]
pub struct SshReply {
    pub success: bool,
    pub stdout: Vec<u8>,
    pub stderr: Vec<u8>,
}

/// What a node reported. The load is kept as it was written.
#[derive(Clone, Debug, PartialEq, Eq)]
pub struct Report {
    pub disk_pct: Option<u8>,
    pub load_text: Option<String>,
    pub mem_pct: Option<u8>,
    pub service_statuses: Vec<(String, bool)>,
}

/// What a `Report` holds.
pub struct ReportModel {
    pub disk_pct: Option<u8>,
    pub load_text: Option<Seq<char>>,
    pub mem_pct: Option<u8>,
    pub service_statuses: Seq<(Seq<char>, bool)>,
}

impl DeepView for Report {
    type V = ReportModel;

    open spec fn deep_view(&self) -> ReportModel {
        ReportModel {
            disk_pct: self.disk_pct,
            load_text: self.load_text.deep_view(),
            mem_pct: self.mem_pct,
            service_statuses: self.service_statuses.deep_view(),
        }
    }
}

/// The percentage that a value is, white space around it aside.
pub open spec fn percentage(value: Seq<char>) -> Option<u8> {
    match unsigned(trim(value), u8::MAX as nat) {
        Some(n) => Some(n as u8),
        None => None,
    }
}

/// A report that says nothing.
pub open spec fn empty_report() -> ReportModel {
    ReportModel {
        disk_pct: None,
        load_text: None,
        mem_pct: None,
        service_statuses: Seq::empty(),
    }
}

/// What is known after one more line. A line of another form than the four changes nothing.
pub open spec fn read_line(known: ReportModel, line: Seq<char>) -> ReportModel {
    if "DISK:"@.is_prefix_of(line) {
        ReportModel { disk_pct: percentage(line.skip("DISK:"@.len() as int)), ..known }
    } else if "LOAD:"@.is_prefix_of(line) {
        ReportModel { load_text: Some(trim(line.skip("LOAD:"@.len() as int))), ..known }
    } else if "MEM:"@.is_prefix_of(line) {
        ReportModel { mem_pct: percentage(line.skip("MEM:"@.len() as int)), ..known }
    } else if "SVC:"@.is_prefix_of(line) {
        let rest = line.skip("SVC:"@.len() as int);
        let colon = find(rest, ':');
        if colon < rest.len() {
            let service = rest.take(colon);
            let active = trim(rest.skip(colon + 1)) == "active"@;
            ReportModel {
                service_statuses: known.service_statuses.push((service, active)),
                ..known
            }
        } else {
            known
        }
    } else {
        known
    }
}

/// What is known after all lines, read in their order.
pub open spec fn read_lines(all: Seq<Seq<char>>) -> ReportModel
    decreases all.len(),
{
    if all.len() == 0 {
        empty_report()
    } else {
        read_line(read_lines(all.drop_last()), all.last())
    }
}

/// Reads one line of a report.
fn take_line(report: &mut Report, line: &str)
    ensures
        final(report).deep_view() == read_line(old(report).deep_view(), line@),
{
    if let Some(value) = strip_prefix(line, "DISK:") {
        report.disk_pct = parse_u8(trimmed(value.as_str()).as_str());
    } else if let Some(value) = strip_prefix(line, "LOAD:") {
        report.load_text = Some(trimmed(value.as_str()));
    } else if let Some(value) = strip_prefix(line, "MEM:") {
        report.mem_pct = parse_u8(trimmed(value.as_str()).as_str());
    } else if let Some(rest) = strip_prefix(line, "SVC:") {
        if let Some((service, state)) = split_once(rest.as_str(), ':') {
            let active = same_text(trimmed(state.as_str()).as_str(), "active");
            let ghost known = report.service_statuses.deep_view();
            report.service_statuses.push((service, active));
            assert(report.service_statuses.deep_view() =~= known.push((service@, active)));
        }
    }
}

/// Reads the report of a node.
pub fn parse_output(output: &str) -> (r: Report)
    ensures
        r.deep_view() == read_lines(lines(output@)),
{
    let all = lines_of(output);
    let mut r = Report {
        disk_pct: None,
        load_text: None,
        mem_pct: None,
        service_statuses: Vec::new(),
    };
    let mut i: usize = 0;
    let ghost seen = all.deep_view();
    assert(r.deep_view().service_statuses =~= Seq::empty());
    assert(r.deep_view() == empty_report());
    while i < all.len()
        invariant
            i <= all@.len(),
            seen == all.deep_view(),
            r.deep_view() == read_lines(seen.take(i as int)),
        decreases all@.len() - i,
    {
        take_line(&mut r, all[i].as_str());
        assert(seen.take(i as int + 1).drop_last() =~= seen.take(i as int));
        i = i + 1;
    }
    assert(seen.take(i as int) =~= seen);
    r
}

/// The report in what `ssh` left behind. There is none if `ssh` did not run, or failed.
pub fn poll_report(reply: Option<SshReply>) -> (r: Option<Report>)
    ensures
        r is Some <==> (reply is Some && reply->0.success),
        r matches Some(report) ==> report.deep_view() == read_lines(
            lines(utf8_lossy(reply->0.stdout@)),
        ),
        r is Some && valid_utf8(reply->0.stdout@) ==> r->0.deep_view() == read_lines(
            lines(decode_utf8(reply->0.stdout@)),
        ),
{
    match reply {
        Some(reply) => {
            if reply.success {
                let output = text_lossy(&reply.stdout);
                Some(parse_output(output.as_str()))
            } else {
                None
            }
        },
        None => None,
    }
}

// ── Metrics ───────────────────────────────────────────────────────────────────

/// A measured load: the number, and the number written with two decimals.
#[derive(Clone, Debug, PartialEq, Eq)]
pub struct CpuLoad {
    pub value: Double,
    pub text: String,
}

/// What a `CpuLoad` holds.
pub struct CpuLoadModel {
    pub value: Double,
    pub text: Seq<char>,
}

impl DeepView for CpuLoad {
    type V = CpuLoadModel;

    open spec fn deep_view(&self) -> CpuLoadModel {
        CpuLoadModel { value: self.value, text: self.text@ }
    }
}

/// The state of a node. The status is `ok`, `warn`, `alert` or `unreachable`.
#[derive(Clone, Debug, PartialEq, Eq)]
pub struct NodeMetrics {
    pub disk_pct: Option<u8>,
    pub cpu_load: Option<CpuLoad>,
    pub mem_pct: Option<u8>,
    pub service_statuses: Vec<(String, bool)>,
    pub status: String,
}

/// What a `NodeMetrics` holds.
pub struct MetricsModel {
    pub disk_pct: Option<u8>,
    pub cpu_load: Option<CpuLoadModel>,
    pub mem_pct: Option<u8>,
    pub service_statuses: Seq<(Seq<char>, bool)>,
    pub status: Seq<char>,
}

impl DeepView for NodeMetrics {
    type V = MetricsModel;

    open spec fn deep_view(&self) -> MetricsModel {
        MetricsModel {
            disk_pct: self.disk_pct,
            cpu_load: self.cpu_load.deep_view(),
            mem_pct: self.mem_pct,
            service_statuses: self.service_statuses.deep_view(),
            status: self.status@,
        }
    }
}

/// The disk usage at which a node starts to warn: ten percent below the alert.
pub open spec fn disk_warn_threshold(alert: u8) -> int {
    if alert >= 10 {
        alert - 10
    } else {
        0
    }
}

/// The status of a node. A disk close to the alert warns before the load is looked at.
pub open spec fn node_status(
    disk_pct: Option<u8>,
    load: Option<Double>,
    disk_alert: u8,
    cpu_alert: Double,
) -> Seq<char> {
    if disk_pct is None && load is None {
        "unreachable"@
    } else if disk_pct is Some && disk_pct->0 >= disk_alert {
        "alert"@
    } else if disk_pct is Some && disk_pct->0 >= disk_warn_threshold(disk_alert) {
        "warn"@
    } else if load is Some && load->0.ge(cpu_alert) {
        "alert"@
    } else {
        "ok"@
    }
}

/// The number of a load, where there is one.
pub open spec fn load_value(load: Option<CpuLoadModel>) -> Option<Double> {
    match load {
        Some(l) => Some(l.value),
        None => None,
    }
}

/// The load of a report, where its text was read as `load`. A report without one has none.
pub open spec fn read_load(report: ReportModel, load: Option<CpuLoadModel>) -> Option<
    CpuLoadModel,
> {
    if report.load_text is Some {
        load
    } else {
        None
    }
}

/// What is known of a node that cannot be reached.
pub open spec fn unreachable_model() -> MetricsModel {
    MetricsModel {
        disk_pct: None,
        cpu_load: None,
        mem_pct: None,
        service_statuses: Seq::empty(),
        status: "unreachable"@,
    }
}

/// The state of a node that gave a report, and whose load was read as `load`.
pub open spec fn reported_model(
    report: ReportModel,
    load: Option<CpuLoadModel>,
    node: NodeModel,
) -> MetricsModel {
    MetricsModel {
        disk_pct: report.disk_pct,
        cpu_load: read_load(report, load),
        mem_pct: report.mem_pct,
        service_statuses: report.service_statuses,
        status: node_status(
            report.disk_pct,
            load_value(read_load(report, load)),
            node.disk_alert_threshold,
            node.cpu_alert_threshold,
        ),
    }
}

/// The state of a node that cannot be reached.
pub fn unreachable_metrics() -> (r: NodeMetrics)
    ensures
        r.deep_view() == unreachable_model(),
{
    let r = NodeMetrics {
        disk_pct: None,
        cpu_load: None,
        mem_pct: None,
        service_statuses: Vec::new(),
        status: "unreachable".to_owned(),
    };
    assert(r.deep_view().service_statuses =~= Seq::empty());
    r
}

/// The status of `node` with this disk usage and this load.
pub fn compute_status(
    disk_pct: &Option<u8>,
    cpu_load: &Option<CpuLoad>,
    node: &NodeConfig,
) -> (r: String)
    ensures
        r@ == node_status(
            *disk_pct,
            load_value(cpu_load.deep_view()),
            node.disk_alert_threshold,
            node.cpu_alert_threshold,
        ),
{
    if disk_pct.is_none() && cpu_load.is_none() {
        return "unreachable".to_owned();
    }
    if let Some(d) = disk_pct {
        if *d >= node.disk_alert_threshold {
            return "alert".to_owned();
        }
        if *d >= node.disk_alert_threshold.saturating_sub(10) {
            return "warn".to_owned();
        }
    }
    if let Some(l) = cpu_load {
        if l.value.at_least(&node.cpu_alert_threshold) {
            return "alert".to_owned();
        }
    }
    "ok".to_owned()
}

/// The state of `node` after a poll: what it reported, or that it cannot be reached. `load` is
/// what the load in the report was read as.
pub fn poll_node(node: &NodeConfig, report: Option<Report>, load: Option<CpuLoad>) -> (r:
    NodeMetrics)
    ensures
        r.deep_view() == match report.deep_view() {
            Some(report) => reported_model(report, load.deep_view(), node.deep_view()),
            None => unreachable_model(),
        },
{
    match report {
        Some(report) => {
            let cpu_load = if report.load_text.is_some() {
                load
            } else {
                None
            };
            let status = compute_status(&report.disk_pct, &cpu_load, node);
            NodeMetrics {
                disk_pct: report.disk_pct,
                cpu_load,
                mem_pct: report.mem_pct,
                service_statuses: report.service_statuses,
                status,
            }
        },
        None => unreachable_metrics(),
    }
}

// ── Laws ──────────────────────────────────────────────────────────────────────

/// The lines that a node writes: the three metrics, then the services and their states.
pub open spec fn report_lines(
    disk: Seq<char>,
    load: Seq<char>,
    mem: Seq<char>,
    services: Seq<(Seq<char>, Seq<char>)>,
) -> Seq<Seq<char>> {
    seq!["DISK:"@ + disk, "LOAD:"@ + load, "MEM:"@ + mem] + services.map_values(
        |s: (Seq<char>, Seq<char>)| service_line(s),
    )
}

/// The line that a node writes of a service and its state.
pub open spec fn service_line(s: (Seq<char>, Seq<char>)) -> Seq<char> {
    "SVC:"@ + s.0 + ":"@ + s.1
}

/// What the line of a service and its state says.
pub open spec fn service_status(s: (Seq<char>, Seq<char>)) -> (Seq<char>, bool) {
    (s.0, trim(s.1) == "active"@)
}

proof fn lemma_metric_lines(known: ReportModel, value: Seq<char>)
    ensures
        read_line(known, "DISK:"@ + value) == (ReportModel {
            disk_pct: percentage(value),
            ..known
        }),
        read_line(known, "LOAD:"@ + value) == (ReportModel {
            load_text: Some(trim(value)),
            ..known
        }),
        read_line(known, "MEM:"@ + value) == (ReportModel { mem_pct: percentage(value), ..known }),
{
    reveal_strlit("DISK:");
    reveal_strlit("LOAD:");
    reveal_strlit("MEM:");
    reveal_strlit("SVC:");
    let disk = "DISK:"@ + value;
    let load = "LOAD:"@ + value;
    let mem = "MEM:"@ + value;
    assert(disk.skip(5) =~= value);
    assert(load.skip(5) =~= value);
    assert(mem.skip(4) =~= value);
    assert(disk.subrange(0, 5) =~= "DISK:"@);
    assert(load.subrange(0, 5) =~= "LOAD:"@);
    assert(mem.subrange(0, 4) =~= "MEM:"@);
    lemma_not_prefix("DISK:"@, load);
    lemma_not_prefix("DISK:"@, mem);
    lemma_not_prefix("LOAD:"@, mem);
}

proof fn lemma_not_prefix(prefix: Seq<char>, s: Seq<char>)
    requires
        prefix.len() > 0,
        s.len() > 0,
        prefix[0] != s[0],
    ensures
        !prefix.is_prefix_of(s),
{
    if prefix.is_prefix_of(s) {
        assert(s.subrange(0, prefix.len() as int)[0] == s[0]);
    }
}

proof fn lemma_service_line(known: ReportModel, s: (Seq<char>, Seq<char>))
    requires
        !s.0.contains(':'),
    ensures
        read_line(known, service_line(s)) == (ReportModel {
            service_statuses: known.service_statuses.push(service_status(s)),
            ..known
        }),
{
    reveal_strlit("DISK:");
    reveal_strlit("LOAD:");
    reveal_strlit("MEM:");
    reveal_strlit("SVC:");
    reveal_strlit(":");
    let line = service_line(s);
    let rest = s.0 + ":"@ + s.1;
    assert(line.skip(4) =~= rest);
    assert(line.subrange(0, 4) =~= "SVC:"@);
    lemma_not_prefix("DISK:"@, line);
    lemma_not_prefix("LOAD:"@, line);
    lemma_not_prefix("MEM:"@, line);
    let n = s.0.len() as int;
    assert forall|i: int| 0 <= i < n implies rest[i] != ':' by {
        assert(s.0.contains(s.0[i]));
    }
    lemma_find_is(rest, ':', n);
    assert(rest.take(n) =~= s.0);
    assert(rest.skip(n + 1) =~= s.1);
}

proof fn lemma_service_lines(head: Seq<Seq<char>>, services: Seq<(Seq<char>, Seq<char>)>)
    requires
        forall|i: int| 0 <= i < services.len() ==> !(#[trigger] services[i]).0.contains(':'),
    ensures
        read_lines(
            head + services.map_values(|s: (Seq<char>, Seq<char>)| service_line(s)),
        ) == (ReportModel {
            service_statuses: read_lines(head).service_statuses + services.map_values(
                |s: (Seq<char>, Seq<char>)| service_status(s),
            ),
            ..read_lines(head)
        }),
    decreases services.len(),
{
    let all = head + services.map_values(|s: (Seq<char>, Seq<char>)| service_line(s));
    let statuses = read_lines(head).service_statuses + services.map_values(
        |s: (Seq<char>, Seq<char>)| service_status(s),
    );
    if services.len() == 0 {
        assert(all =~= head);
        assert(statuses =~= read_lines(head).service_statuses);
    } else {
        let before = services.drop_last();
        lemma_service_lines(head, before);
        assert(all.drop_last() =~= head + before.map_values(
            |s: (Seq<char>, Seq<char>)| service_line(s),
        ));
        lemma_service_line(read_lines(all.drop_last()), services.last());
        assert(statuses =~= (read_lines(head).service_statuses + before.map_values(
            |s: (Seq<char>, Seq<char>)| service_status(s),
        )).push(service_status(services.last())));
    }
}

/// A carriage return at the end of a value changes nothing.
proof fn lemma_value_without_cr(value: Seq<char>)
    ensures
        trim(without_cr(value)) == trim(value),
{
    if value.len() > 0 && value.last() == '\r' {
        lemma_trim_drops_last(value);
    }
}

/// The carriage return at the end of a line that is not its head is that of the rest.
proof fn lemma_line_without_cr(head: Seq<char>, rest: Seq<char>)
    requires
        head.len() > 0,
        head.last() != '\r',
    ensures
        without_cr(head + rest) == head + without_cr(rest),
{
    assert(without_cr(head + rest) =~= head + without_cr(rest));
}

/// Reading a report back: of the lines that a poll makes a node write, the reading takes every
/// value as it was written, and every service in its order, active if its state is `active`.
pub proof fn law_report_is_read_back(
    disk: Seq<char>,
    load: Seq<char>,
    mem: Seq<char>,
    services: Seq<(Seq<char>, Seq<char>)>,
)
    requires
        !disk.contains('\n'),
        !load.contains('\n'),
        !mem.contains('\n'),
        forall|i: int|
            0 <= i < services.len() ==> !(#[trigger] services[i]).0.contains('\n')
                && !services[i].1.contains('\n') && !services[i].0.contains(':'),
    ensures
        read_lines(lines(written(report_lines(disk, load, mem, services)))) == (ReportModel {
            disk_pct: percentage(disk),
            load_text: Some(trim(load)),
            mem_pct: percentage(mem),
            service_statuses: services.map_values(
                |s: (Seq<char>, Seq<char>)| service_status(s),
            ),
        }),
{
    reveal_strlit("DISK:");
    reveal_strlit("LOAD:");
    reveal_strlit("MEM:");
    reveal_strlit("SVC:");
    reveal_strlit(":");
    let all = report_lines(disk, load, mem, services);
    assert forall|i: int| 0 <= i < all.len() implies !(#[trigger] all[i]).contains('\n') by {
        if i >= 3 {
            let s = services[i - 3];
            assert(all[i] == service_line(s));
            lemma_concat_lacks("SVC:"@, s.0, '\n');
            lemma_concat_lacks("SVC:"@ + s.0, ":"@, '\n');
            lemma_concat_lacks("SVC:"@ + s.0 + ":"@, s.1, '\n');
        } else if i == 0 {
            lemma_concat_lacks("DISK:"@, disk, '\n');
        } else if i == 1 {
            lemma_concat_lacks("LOAD:"@, load, '\n');
        } else {
            lemma_concat_lacks("MEM:"@, mem, '\n');
        }
    }
    law_lines_are_read_back(all);
    // The lines are read as if each value had been written without a carriage return at its end.
    let bare = services.map_values(|s: (Seq<char>, Seq<char>)| (s.0, without_cr(s.1)));
    let read = report_lines(without_cr(disk), without_cr(load), without_cr(mem), bare);
    assert forall|i: int| 0 <= i < all.len() implies without_cr(#[trigger] all[i])
        == read[i] by {
        if i >= 3 {
            let s = services[i - 3];
            lemma_line_without_cr("SVC:"@ + s.0 + ":"@, s.1);
            assert(read[i] == service_line(bare[i - 3]));
        } else if i == 0 {
            lemma_line_without_cr("DISK:"@, disk);
        } else if i == 1 {
            lemma_line_without_cr("LOAD:"@, load);
        } else {
            lemma_line_without_cr("MEM:"@, mem);
        }
    }
    assert(all.map_values(|line: Seq<char>| without_cr(line)) =~= read);
    lemma_value_without_cr(disk);
    lemma_value_without_cr(load);
    lemma_value_without_cr(mem);
    lemma_report_lines(without_cr(disk), without_cr(load), without_cr(mem), bare);
    assert forall|i: int| 0 <= i < services.len() implies service_status(bare[i])
        == service_status(#[trigger] services[i]) by {
        lemma_value_without_cr(services[i].1);
    }
    assert(bare.map_values(|s: (Seq<char>, Seq<char>)| service_status(s)) =~= services.map_values(
        |s: (Seq<char>, Seq<char>)| service_status(s),
    ));
}

/// Reading a report back from the bytes on the wire: a report that a node writes in UTF-8 is read
/// as it was written.
pub proof fn law_report_bytes_are_read_back(
    disk: Seq<char>,
    load: Seq<char>,
    mem: Seq<char>,
    services: Seq<(Seq<char>, Seq<char>)>,
)
    requires
        !disk.contains('\n'),
        !load.contains('\n'),
        !mem.contains('\n'),
        forall|i: int|
            0 <= i < services.len() ==> !(#[trigger] services[i]).0.contains('\n')
                && !services[i].1.contains('\n') && !services[i].0.contains(':'),
    ensures
        ({
            let stdout = encode_utf8(written(report_lines(disk, load, mem, services)));
            &&& valid_utf8(stdout)
            &&& read_lines(lines(decode_utf8(stdout))) == (ReportModel {
                disk_pct: percentage(disk),
                load_text: Some(trim(load)),
                mem_pct: percentage(mem),
                service_statuses: services.map_values(
                    |s: (Seq<char>, Seq<char>)| service_status(s),
                ),
            })
        }),
{
    let text = written(report_lines(disk, load, mem, services));
    encode_utf8_valid_utf8(text);
    encode_utf8_decode_utf8(text);
    law_report_is_read_back(disk, load, mem, services);
}

proof fn lemma_concat_lacks(a: Seq<char>, b: Seq<char>, c: char)
    requires
        !a.contains(c),
        !b.contains(c),
    ensures
        !(a + b).contains(c),
{
    if (a + b).contains(c) {
        let i = choose|i: int| 0 <= i < (a + b).len() && (a + b)[i] == c;
        if i < a.len() {
            assert(a[i] == c);
        } else {
            assert(b[i - a.len()] == c);
        }
    }
}

proof fn lemma_report_lines(
    disk: Seq<char>,
    load: Seq<char>,
    mem: Seq<char>,
    services: Seq<(Seq<char>, Seq<char>)>,
)
    requires
        forall|i: int| 0 <= i < services.len() ==> !(#[trigger] services[i]).0.contains(':'),
    ensures
        read_lines(report_lines(disk, load, mem, services)) == (ReportModel {
            disk_pct: percentage(disk),
            load_text: Some(trim(load)),
            mem_pct: percentage(mem),
            service_statuses: services.map_values(
                |s: (Seq<char>, Seq<char>)| service_status(s),
            ),
        }),
{
    let head = seq!["DISK:"@ + disk, "LOAD:"@ + load, "MEM:"@ + mem];
    lemma_service_lines(head, services);
    let one = seq!["DISK:"@ + disk];
    let two = seq!["DISK:"@ + disk, "LOAD:"@ + load];
    assert(one.drop_last() =~= Seq::empty());
    assert(two.drop_last() =~= one);
    assert(head.drop_last() =~= two);
    assert(read_lines(Seq::empty()) == empty_report());
    lemma_metric_lines(empty_report(), disk);
    lemma_metric_lines(read_lines(one), load);
    lemma_metric_lines(read_lines(two), mem);
    assert(read_lines(head).service_statuses + services.map_values(
        |s: (Seq<char>, Seq<char>)| service_status(s),
    ) =~= services.map_values(|s: (Seq<char>, Seq<char>)| service_status(s)));
}

/// A percentage that is written as a number is read as that number.
pub proof fn law_percentage_is_read_back(n: u8)
    ensures
        percentage(decimal(n as nat)) == Some(n),
{
    law_decimal_is_read_back(n as nat, u8::MAX as nat);
    lemma_decimal(n as nat);
    let s = decimal(n as nat);
    assert(is_digit(s[0]));
    assert(is_digit(s.last()));
}

/// A line of another form than the four changes nothing, wherever it stands.
pub proof fn law_other_lines_are_ignored(
    before: Seq<Seq<char>>,
    line: Seq<char>,
    after: Seq<Seq<char>>,
)
    requires
        !"DISK:"@.is_prefix_of(line),
        !"LOAD:"@.is_prefix_of(line),
        !"MEM:"@.is_prefix_of(line),
        !"SVC:"@.is_prefix_of(line),
    ensures
        read_lines(before.push(line) + after) == read_lines(before + after),
    decreases after.len(),
{
    if after.len() == 0 {
        assert(before.push(line) + after =~= before.push(line));
        assert(before.push(line).drop_last() =~= before);
        assert(before + after =~= before);
    } else {
        law_other_lines_are_ignored(before, line, after.drop_last());
        assert((before.push(line) + after).drop_last() =~= before.push(line) + after.drop_last());
        assert((before + after).drop_last() =~= before + after.drop_last());
    }
}

/// Of several lines of one metric the last one counts, even if it cannot be read.
pub proof fn law_last_line_of_a_metric_counts(
    before: Seq<Seq<char>>,
    value: Seq<char>,
    after: Seq<Seq<char>>,
)
    ensures
        (forall|i: int| 0 <= i < after.len() ==> !"DISK:"@.is_prefix_of(#[trigger] after[i]))
            ==> read_lines(before.push("DISK:"@ + value) + after).disk_pct == percentage(value),
        (forall|i: int| 0 <= i < after.len() ==> !"LOAD:"@.is_prefix_of(#[trigger] after[i]))
            ==> read_lines(before.push("LOAD:"@ + value) + after).load_text == Some(trim(value)),
        (forall|i: int| 0 <= i < after.len() ==> !"MEM:"@.is_prefix_of(#[trigger] after[i]))
            ==> read_lines(before.push("MEM:"@ + value) + after).mem_pct == percentage(value),
    decreases after.len(),
{
    let disk = before.push("DISK:"@ + value);
    let load = before.push("LOAD:"@ + value);
    let mem = before.push("MEM:"@ + value);
    if after.len() == 0 {
        lemma_metric_lines(read_lines(before), value);
        assert(disk + after =~= disk);
        assert(load + after =~= load);
        assert(mem + after =~= mem);
        assert(disk.drop_last() =~= before);
        assert(load.drop_last() =~= before);
        assert(mem.drop_last() =~= before);
    } else {
        let fewer = after.drop_last();
        law_last_line_of_a_metric_counts(before, value, fewer);
        assert((disk + after).drop_last() =~= disk + fewer);
        assert((load + after).drop_last() =~= load + fewer);
        assert((mem + after).drop_last() =~= mem + fewer);
        assert(after[after.len() - 1] == after.last());
        assert(forall|i: int| 0 <= i < fewer.len() ==> #[trigger] fewer[i] == after[i]);
    }
}

/// The command of a poll checks every service of the node.
pub proof fn law_every_service_is_checked(services: Seq<Seq<char>>, i: int)
    requires
        0 <= i < services.len(),
    ensures
        exists|head: Seq<char>, tail: Seq<char>|
            poll_command(services) == #[trigger] (head + service_check(services[i]) + tail),
{
    let checks = services.map_values(|s: Seq<char>| service_check(s));
    let (head, tail) = lemma_join_holds(checks, "; "@, i);
    assert(poll_command(services) =~= (METRICS_COMMAND@ + head) + service_check(services[i])
        + tail);
}

/// A key path without a tilde in front stands for itself, and so does every one where the home
/// directory is not known.
pub proof fn law_plain_key_is_kept(key: Seq<char>, home: Option<Seq<char>>)
    requires
        key.len() == 0 || key[0] != '~' || home is None,
    ensures
        key_path(key, home) == key,
{
}

/// Below a home directory with an absolute path, a resolved key is resolved for good.
pub proof fn law_key_is_resolved_once(key: Seq<char>, home: Seq<char>)
    requires
        home.len() > 0,
        home[0] == '/',
    ensures
        key_path(key_path(key, Some(home)), Some(home)) == key_path(key, Some(home)),
        key_path(key, Some(home)).len() > 0 ==> key_path(key, Some(home))[0] != '~',
{
}

/// The four statuses are different texts.
pub proof fn lemma_statuses_differ()
    ensures
        "ok"@ != "warn"@,
        "ok"@ != "alert"@,
        "ok"@ != "unreachable"@,
        "warn"@ != "alert"@,
        "warn"@ != "unreachable"@,
        "alert"@ != "unreachable"@,
{
    reveal_strlit("ok");
    reveal_strlit("warn");
    reveal_strlit("alert");
    reveal_strlit("unreachable");
    assert("ok"@.len() == 2);
    assert("warn"@.len() == 4);
    assert("alert"@.len() == 5);
    assert("unreachable"@.len() == 11);
}

/// A node counts as unreachable exactly if neither its disk usage nor its load is known.
pub proof fn law_unreachable_means_unmeasured(
    disk_pct: Option<u8>,
    load: Option<Double>,
    disk_alert: u8,
    cpu_alert: Double,
)
    ensures
        node_status(disk_pct, load, disk_alert, cpu_alert) == "unreachable"@ <==> disk_pct is None
            && load is None,
{
    lemma_statuses_differ();
}

/// A load at the threshold or above alerts, unless the disk usage is in the warning band.
pub proof fn law_high_load_alerts(
    disk_pct: Option<u8>,
    load: Double,
    disk_alert: u8,
    cpu_alert: Double,
)
    requires
        load.ge(cpu_alert),
        disk_pct is Some ==> !(disk_warn_threshold(disk_alert) <= disk_pct->0 < disk_alert),
    ensures
        node_status(disk_pct, Some(load), disk_alert, cpu_alert) == "alert"@,
{
}

/// How bad a status is.
pub open spec fn severity(status: Seq<char>) -> int {
    if status == "ok"@ {
        0
    } else if status == "warn"@ {
        1
    } else {
        2
    }
}

/// A fuller disk never makes the status of a node better, as long as its load is below the
/// threshold.
pub proof fn law_fuller_disk_is_no_better(
    disk: u8,
    fuller: u8,
    load: Option<Double>,
    disk_alert: u8,
    cpu_alert: Double,
)
    requires
        disk <= fuller,
        load is Some ==> !load->0.ge(cpu_alert),
    ensures
        severity(node_status(Some(disk), load, disk_alert, cpu_alert)) <= severity(
            node_status(Some(fuller), load, disk_alert, cpu_alert),
        ),
{
    lemma_statuses_differ();
}

/// A disk usage at the threshold or above alerts, whatever the load is.
pub proof fn law_disk_at_the_threshold_alerts(
    disk: u8,
    load: Option<Double>,
    disk_alert: u8,
    cpu_alert: Double,
)
    requires
        disk >= disk_alert,
    ensures
        node_status(Some(disk), load, disk_alert, cpu_alert) == "alert"@,
{
}

/// What a configuration holds is what its fields hold.
pub proof fn law_configuration_is_seen_as_it_is(node: NodeConfig)
    ensures
        node.deep_view().name == node.name@,
        node.deep_view().host == node.host@,
        node.deep_view().ssh_user == node.ssh_user@,
        node.deep_view().ssh_key is Some <==> node.ssh_key is Some,
        node.ssh_key is Some ==> node.deep_view().ssh_key->0 == node.ssh_key->0@,
        node.deep_view().services.len() == node.services@.len(),
        forall|i: int|
            0 <= i < node.services@.len() ==> #[trigger] node.deep_view().services[i]
                == node.services@[i]@,
        node.deep_view().disk_alert_threshold == node.disk_alert_threshold,
        node.deep_view().cpu_alert_threshold == node.cpu_alert_threshold,
{
}

/// An entry configures what it says; where it says nothing, a node has no services, alerts at 85
/// percent of its disk, and alerts at a load of 95.
pub proof fn law_entries_have_defaults(entry: NodeEntry)
    ensures
        entry.deep_view().name == entry.name@,
        entry.deep_view().host == entry.host@,
        entry.deep_view().ssh_user == entry.ssh_user@,
        entry.deep_view().ssh_key is Some <==> entry.ssh_key is Some,
        entry.ssh_key is Some ==> entry.deep_view().ssh_key->0 == entry.ssh_key->0@,
        entry.services is None ==> entry.deep_view().services.len() == 0,
        entry.services is Some ==> entry.deep_view().services.len() == entry.services->0@.len(),
        entry.services is Some ==> forall|i: int|
            0 <= i < entry.services->0@.len() ==> #[trigger] entry.deep_view().services[i]
                == entry.services->0@[i]@,
        entry.disk_alert_threshold is None ==> entry.deep_view().disk_alert_threshold == 85,
        entry.disk_alert_threshold is Some ==> entry.deep_view().disk_alert_threshold
            == entry.disk_alert_threshold->0,
        entry.cpu_alert_threshold is None ==> !entry.deep_view().cpu_alert_threshold.is_nan()
            && entry.deep_view().cpu_alert_threshold.value() == 95 * one(),
        entry.cpu_alert_threshold is Some ==> entry.deep_view().cpu_alert_threshold
            == entry.cpu_alert_threshold->0,
{
    lemma_patterns();
}

/// A tilde in front of a key stands for the home directory, and what follows it stays.
pub proof fn law_tilde_is_the_home_directory(rest: Seq<char>, home: Seq<char>)
    ensures
        key_path(seq!['~'] + rest, Some(home)) == home + rest,
{
    assert((seq!['~'] + rest).drop_first() =~= rest);
}

/// The command of a poll is made service by service: without services it is the metrics alone, a
/// service adds one check that writes its name and its state, and the checks of more services
/// follow behind a semicolon.
pub proof fn law_poll_command_grows_by_service(
    service: Seq<char>,
    a: Seq<Seq<char>>,
    b: Seq<Seq<char>>,
)
    requires
        a.len() > 0,
        b.len() > 0,
    ensures
        poll_command(Seq::empty()) == METRICS_COMMAND@,
        poll_command(seq![service]) == METRICS_COMMAND@ + ("echo SVC:"@ + service
            + ":$(systemctl is-active "@ + service + " 2>/dev/null || echo inactive)"@),
        poll_command(a + b) == poll_command(a) + "; "@ + poll_command(b).skip(
            METRICS_COMMAND@.len() as int,
        ),
{
    let f = |s: Seq<char>| service_check(s);
    assert(Seq::<Seq<char>>::empty().map_values(f) =~= Seq::empty());
    assert(poll_command(Seq::empty()) =~= METRICS_COMMAND@);
    assert(seq![service].map_values(f) =~= seq![service_check(service)]);
    assert((a + b).map_values(f) =~= a.map_values(f) + b.map_values(f));
    law_join_of_two_lists(a.map_values(f), b.map_values(f), "; "@);
    assert(poll_command(b).skip(METRICS_COMMAND@.len() as int) =~= join(b.map_values(f), "; "@));
    assert(poll_command(a + b) =~= poll_command(a) + "; "@ + join(b.map_values(f), "; "@));
}

/// `ssh` gets the key, the target and the command that it is asked to use, each in its place, and
/// the three options that keep it from asking or waiting.
pub proof fn law_ssh_arguments_in_their_places(
    key: Seq<char>,
    user: Seq<char>,
    host: Seq<char>,
    command: Seq<char>,
)
    ensures
        ({
            let args = ssh_arguments(key, user, host, command);
            &&& args.len() == 10
            &&& args[0] == "-i"@ && args[1] == key
            &&& args[2] == "-o"@ && args[3] == "StrictHostKeyChecking=no"@
            &&& args[4] == "-o"@ && args[5] == "ConnectTimeout=5"@
            &&& args[6] == "-o"@ && args[7] == "BatchMode=yes"@
            &&& args[8] == user + "@"@ + host
            &&& args[9] == command
        }),
{
}

/// A node is polled as its user on its host, with its key or else the usual one, and is asked for
/// its own services.
pub proof fn law_a_node_is_polled_as_configured(node: NodeModel, home: Option<Seq<char>>)
    ensures
        ({
            let args = poll_arguments(node, home);
            &&& args.len() == 10
            &&& node.ssh_key is Some ==> args[1] == key_path(node.ssh_key->0, home)
            &&& node.ssh_key is None ==> args[1] == key_path("~/.ssh/id_ed25519"@, home)
            &&& args[8] == node.ssh_user + "@"@ + node.host
            &&& args[9] == poll_command(node.services)
        }),
{
}

/// A report is read line by line, starting from nothing.
pub proof fn law_reading_goes_line_by_line(all: Seq<Seq<char>>, line: Seq<char>)
    ensures
        read_lines(all.push(line)) == read_line(read_lines(all), line),
        read_lines(Seq::empty()).disk_pct is None,
        read_lines(Seq::empty()).load_text is None,
        read_lines(Seq::empty()).mem_pct is None,
        read_lines(Seq::empty()).service_statuses.len() == 0,
{
    assert(all.push(line).drop_last() =~= all);
}

/// The line of a metric sets that metric, whatever was known of it, and nothing else.
pub proof fn law_a_metric_line_sets_its_metric(known: ReportModel, value: Seq<char>)
    ensures
        read_line(known, "DISK:"@ + value).disk_pct == percentage(value),
        read_line(known, "DISK:"@ + value).load_text == known.load_text,
        read_line(known, "DISK:"@ + value).mem_pct == known.mem_pct,
        read_line(known, "DISK:"@ + value).service_statuses == known.service_statuses,
        read_line(known, "LOAD:"@ + value).disk_pct == known.disk_pct,
        read_line(known, "LOAD:"@ + value).load_text == Some(trim(value)),
        read_line(known, "LOAD:"@ + value).mem_pct == known.mem_pct,
        read_line(known, "LOAD:"@ + value).service_statuses == known.service_statuses,
        read_line(known, "MEM:"@ + value).disk_pct == known.disk_pct,
        read_line(known, "MEM:"@ + value).load_text == known.load_text,
        read_line(known, "MEM:"@ + value).mem_pct == percentage(value),
        read_line(known, "MEM:"@ + value).service_statuses == known.service_statuses,
{
    lemma_metric_lines(known, value);
}

/// A value is read as a percentage exactly if it is the text of a number up to 255, with white
/// space around it, zeros and a plus sign in front of it, or without.
pub proof fn law_what_is_read_as_a_percentage(value: Seq<char>, n: u8)
    ensures
        percentage(value) == Some(n) <==> exists|k: nat|
            trim(value) == #[trigger] repeated('0', k) + decimal(n as nat) || trim(value)
                == seq!['+'] + (repeated('0', k) + decimal(n as nat)),
{
    law_what_is_read_as_a_number(trim(value), u8::MAX as nat, n as nat);
}

/// The line of a service adds that service to those before it, as active exactly if its state,
/// without the white space around it, is the text `active` and no other; all else stays.
pub proof fn law_active_is_one_text(known: ReportModel, name: Seq<char>, state: Seq<char>)
    requires
        !name.contains(':'),
        !name.contains('\n'),
        !state.contains('\n'),
    ensures
        ({
            let after = read_line(known, "SVC:"@ + name + ":"@ + state);
            let n = known.service_statuses.len() as int;
            &&& after.service_statuses.len() == n + 1
            &&& after.service_statuses.take(n) == known.service_statuses
            &&& after.service_statuses[n].0 == name
            &&& after.service_statuses[n].1 <==> trim(state) == "active"@
            &&& after.disk_pct == known.disk_pct
            &&& after.load_text == known.load_text
            &&& after.mem_pct == known.mem_pct
        }),
        service_line((name, state)) == "SVC:"@ + name + ":"@ + state,
        service_status((name, state)).0 == name,
        service_status((name, state)).1 <==> trim(state) == "active"@,
{
    lemma_service_line(known, (name, state));
    let after = read_line(known, "SVC:"@ + name + ":"@ + state);
    assert(after.service_statuses.take(known.service_statuses.len() as int)
        =~= known.service_statuses);
}

/// A state that only starts or ends like `active`, as `activating` or `inactive` do, is not active.
pub proof fn law_longer_states_are_not_active(known: ReportModel, name: Seq<char>, more: Seq<char>)
    requires
        !name.contains(':'),
        !name.contains('\n'),
        more.len() > 0,
        forall|i: int| 0 <= i < more.len() ==> !white_space(#[trigger] more[i]),
    ensures
        !read_line(
            known,
            "SVC:"@ + name + ":"@ + ("active"@ + more),
        ).service_statuses.last().1,
        !read_line(
            known,
            "SVC:"@ + name + ":"@ + (more + "active"@),
        ).service_statuses.last().1,
{
    reveal_strlit("active");
    let none = Seq::<char>::empty();
    let after = "active"@ + more;
    let before = more + "active"@;
    law_trim_takes_what_surrounds(none, after, none);
    law_trim_takes_what_surrounds(none, before, none);
    assert(none + after + none =~= after);
    assert(none + before + none =~= before);
    lemma_service_line(known, (name, after));
    lemma_service_line(known, (name, before));
    assert(after.len() > "active"@.len());
    assert(before.len() > "active"@.len());
}

/// The line of a service without a state says nothing.
pub proof fn law_service_line_needs_a_state(known: ReportModel, rest: Seq<char>)
    requires
        !rest.contains(':'),
    ensures
        read_line(known, "SVC:"@ + rest) == known,
{
    reveal_strlit("DISK:");
    reveal_strlit("LOAD:");
    reveal_strlit("MEM:");
    reveal_strlit("SVC:");
    let line = "SVC:"@ + rest;
    assert(line.skip(4) =~= rest);
    assert(line.subrange(0, 4) =~= "SVC:"@);
    lemma_not_prefix("DISK:"@, line);
    lemma_not_prefix("LOAD:"@, line);
    lemma_not_prefix("MEM:"@, line);
    assert forall|i: int| 0 <= i < rest.len() implies rest[i] != ':' by {
        assert(rest.contains(rest[i]));
    }
    lemma_find_is(rest, ':', rest.len() as int);
}

/// The status of a node in plain numbers. With a disk usage `d` and a disk threshold `t`: it warns
/// exactly if `d` is below `t` by at most ten; it alerts exactly if `d` is at least `t`, or if the
/// load is at least its threshold and the node does not warn; it is unreachable exactly if neither
/// was measured; and it is well otherwise.
pub proof fn law_status_in_plain_numbers(
    disk_pct: Option<u8>,
    load: Option<Double>,
    t: u8,
    cpu_alert: Double,
)
    ensures
        ({
            let status = node_status(disk_pct, load, t, cpu_alert);
            let busy = load is Some && load->0.ge(cpu_alert);
            &&& status == "warn"@ <==> disk_pct is Some && disk_pct->0 < t && disk_pct->0 + 10 >= t
            &&& status == "alert"@ <==> (disk_pct is Some && disk_pct->0 >= t) || (busy && !(
            disk_pct is Some && disk_pct->0 < t && disk_pct->0 + 10 >= t))
            &&& status == "unreachable"@ <==> disk_pct is None && load is None
            &&& status == "ok"@ <==> (disk_pct is Some || load is Some) && (disk_pct is Some
                ==> disk_pct->0 + 10 < t) && !busy
        }),
{
    lemma_statuses_differ();
}

/// A node that reported has the disk usage, the memory usage and the services of its report, the
/// load that its load was read as, and the status that these give.
pub proof fn law_a_report_is_kept(report: ReportModel, load: Option<CpuLoadModel>, node: NodeModel)
    ensures
        ({
            let m = reported_model(report, load, node);
            &&& m.disk_pct == report.disk_pct
            &&& m.mem_pct == report.mem_pct
            &&& m.service_statuses == report.service_statuses
            &&& report.load_text is Some ==> m.cpu_load == load
            &&& report.load_text is None ==> m.cpu_load is None
            &&& m.cpu_load is None ==> m.status == node_status(
                report.disk_pct,
                None,
                node.disk_alert_threshold,
                node.cpu_alert_threshold,
            )
            &&& m.cpu_load is Some ==> m.status == node_status(
                report.disk_pct,
                Some(load->0.value),
                node.disk_alert_threshold,
                node.cpu_alert_threshold,
            )
        }),
{
}

/// Of a node that cannot be reached nothing is known.
pub proof fn law_nothing_is_known_of_a_lost_node()
    ensures
        unreachable_model().disk_pct is None,
        unreachable_model().cpu_load is None,
        unreachable_model().mem_pct is None,
        unreachable_model().service_statuses.len() == 0,
        unreachable_model().status == "unreachable"@,
{
}

/// What reports, loads and metrics hold is what their fields hold.
pub proof fn law_measures_are_seen_as_they_are(
    report: Report,
    load: CpuLoad,
    metrics: NodeMetrics,
    i: int,
)
    ensures
        report.deep_view().disk_pct == report.disk_pct,
        report.deep_view().load_text is Some <==> report.load_text is Some,
        report.load_text is Some ==> report.deep_view().load_text->0 == report.load_text->0@,
        report.deep_view().mem_pct == report.mem_pct,
        report.deep_view().service_statuses.len() == report.service_statuses@.len(),
        0 <= i < report.service_statuses@.len() ==> report.deep_view().service_statuses[i] == (
            report.service_statuses@[i].0@,
            report.service_statuses@[i].1,
        ),
        load.deep_view().value == load.value,
        load.deep_view().text == load.text@,
        metrics.deep_view().disk_pct == metrics.disk_pct,
        metrics.deep_view().cpu_load is Some <==> metrics.cpu_load is Some,
        metrics.cpu_load is Some ==> metrics.deep_view().cpu_load->0.value
            == metrics.cpu_load->0.value,
        metrics.cpu_load is Some ==> metrics.deep_view().cpu_load->0.text
            == metrics.cpu_load->0.text@,
        metrics.deep_view().mem_pct == metrics.mem_pct,
        metrics.deep_view().service_statuses.len() == metrics.service_statuses@.len(),
        0 <= i < metrics.service_statuses@.len() ==> metrics.deep_view().service_statuses[i] == (
            metrics.service_statuses@[i].0@,
            metrics.service_statuses@[i].1,
        ),
        metrics.deep_view().status == metrics.status@,
{
}

/// What `compute_status` returns, in plain numbers: with a disk usage `d` and a disk threshold `t`,
/// `warn` exactly if `d < t` and `d + 10 >= t`; with the load below its threshold, `ok` exactly if
/// `d + 10 < t` and `alert` exactly if `d >= t`.
pub proof fn law_statuses_of_known_disks(
    d: u8,
    cpu_load: Option<CpuLoad>,
    node: NodeConfig,
    status: String,
)
    requires
        call_ensures(compute_status, (&Some(d), &cpu_load, &node), status),
    ensures
        status@ == "warn"@ <==> d < node.disk_alert_threshold && d + 10
            >= node.disk_alert_threshold,
        d >= node.disk_alert_threshold ==> status@ == "alert"@,
        cpu_load is None || !cpu_load->0.value.ge(node.cpu_alert_threshold) ==> (status@ == "ok"@
            <==> d + 10 < node.disk_alert_threshold),
        cpu_load is None || !cpu_load->0.value.ge(node.cpu_alert_threshold) ==> (status@
            == "alert"@ <==> d >= node.disk_alert_threshold),
        cpu_load is Some && cpu_load->0.value.ge(node.cpu_alert_threshold) && d + 10
            < node.disk_alert_threshold ==> status@ == "alert"@,
{
    lemma_statuses_differ();
}

/// What `compute_status` returns for a node whose disk usage is not known: its load alone decides,
/// and without a load the node counts as unreachable.
pub proof fn law_statuses_of_unknown_disks(
    cpu_load: Option<CpuLoad>,
    node: NodeConfig,
    status: String,
)
    requires
        call_ensures(compute_status, (&None, &cpu_load, &node), status),
    ensures
        cpu_load is None ==> status@ == "unreachable"@,
        cpu_load is Some && cpu_load->0.value.ge(node.cpu_alert_threshold) ==> status@ == "alert"@,
        cpu_load is Some && !cpu_load->0.value.ge(node.cpu_alert_threshold) ==> status@ == "ok"@,
{
}

proof fn lemma_line_is_read_last(a: Seq<char>, line: Seq<char>)
    requires
        a.len() == 0 || a.last() == '\n',
        !line.contains('\n'),
    ensures
        read_lines(lines(a + (line + seq!['\n']))) == read_line(
            read_lines(lines(a)),
            without_cr(line),
        ),
{
    let none = Seq::<char>::empty();
    law_lines_of_two_texts(a, line + seq!['\n']);
    let kept = without_cr(line);
    if kept != line {
        assert(line =~= kept + seq!['\r']);
        assert forall|i: int| 0 <= i < kept.len() implies kept[i] != '\n' by {
            assert(line.contains(line[i]));
        }
        law_lines_come_one_by_one(kept, none);
        assert(kept + seq!['\r', '\n'] + none =~= line + seq!['\n']);
    } else {
        if line.len() > 0 && line.last() == '\r' {
            assert(kept.len() == line.len() - 1);
        }
        law_lines_come_one_by_one(line, none);
        assert(line + seq!['\n'] + none =~= line + seq!['\n']);
    }
    assert(lines(line + seq!['\n']) =~= seq![kept]);
    assert(lines(a) + seq![kept] =~= lines(a).push(kept));
    law_reading_goes_line_by_line(lines(a), kept);
}

/// What `parse_output` makes of one more line of a service, `SVC:<name>:<state>`: the service is
/// added, as active exactly if the state without the white space around it is the text `active`,
/// and everything else stays as it was without the line.
pub proof fn law_a_service_line_adds_its_service(
    before: &str,
    after: &str,
    name: Seq<char>,
    state: Seq<char>,
    first: Report,
    second: Report,
)
    requires
        before@.len() == 0 || before@.last() == '\n',
        !name.contains(':'),
        !name.contains('\n'),
        !state.contains('\n'),
        after@ == before@ + ("SVC:"@ + name + ":"@ + state + seq!['\n']),
        call_ensures(parse_output, (before,), first),
        call_ensures(parse_output, (after,), second),
    ensures
        second.disk_pct == first.disk_pct,
        second.load_text.deep_view() == first.load_text.deep_view(),
        second.mem_pct == first.mem_pct,
        second.service_statuses.deep_view() == first.service_statuses.deep_view().push(
            (name, trim(state) == "active"@),
        ),
{
    reveal_strlit("SVC:");
    reveal_strlit(":");
    let line = "SVC:"@ + name + ":"@ + state;
    assert forall|i: int| 0 <= i < line.len() implies line[i] != '\n' by {
        if 4 <= i < 4 + name.len() {
            assert(name.contains(line[i]));
        } else if i > 4 + name.len() {
            assert(state.contains(line[i]));
        }
    }
    lemma_line_is_read_last(before@, line);
    let known = read_lines(lines(before@));
    if state.len() > 0 && state.last() == '\r' {
        lemma_trim_drops_last(state);
        assert(line.last() == '\r');
        assert(without_cr(line) =~= "SVC:"@ + name + ":"@ + state.drop_last());
        lemma_service_line(known, (name, state.drop_last()));
    } else {
        if state.len() == 0 {
            assert(line.last() == ':');
        } else {
            assert(line.last() == state.last());
        }
        assert(without_cr(line) == line);
        lemma_service_line(known, (name, state));
    }
}

/// What `parse_output` makes of one more line of a metric: that metric is set, and the others and
/// the services stay.
pub proof fn law_a_metric_line_replaces_its_metric(
    before: &str,
    disk: &str,
    load: &str,
    mem: &str,
    value: Seq<char>,
    first: Report,
    with_disk: Report,
    with_load: Report,
    with_mem: Report,
)
    requires
        before@.len() == 0 || before@.last() == '\n',
        !value.contains('\n'),
        !value.contains('\r'),
        disk@ == before@ + ("DISK:"@ + value + seq!['\n']),
        load@ == before@ + ("LOAD:"@ + value + seq!['\n']),
        mem@ == before@ + ("MEM:"@ + value + seq!['\n']),
        call_ensures(parse_output, (before,), first),
        call_ensures(parse_output, (disk,), with_disk),
        call_ensures(parse_output, (load,), with_load),
        call_ensures(parse_output, (mem,), with_mem),
    ensures
        with_disk.disk_pct == percentage(value),
        with_disk.load_text.deep_view() == first.load_text.deep_view(),
        with_disk.mem_pct == first.mem_pct,
        with_disk.service_statuses.deep_view() == first.service_statuses.deep_view(),
        with_load.disk_pct == first.disk_pct,
        with_load.load_text is Some && with_load.load_text->0@ == trim(value),
        with_load.mem_pct == first.mem_pct,
        with_load.service_statuses.deep_view() == first.service_statuses.deep_view(),
        with_mem.disk_pct == first.disk_pct,
        with_mem.load_text.deep_view() == first.load_text.deep_view(),
        with_mem.mem_pct == percentage(value),
        with_mem.service_statuses.deep_view() == first.service_statuses.deep_view(),
{
    reveal_strlit("DISK:");
    reveal_strlit("LOAD:");
    reveal_strlit("MEM:");
    let known = read_lines(lines(before@));
    lemma_metric_lines(known, value);
    lemma_metric_line_is_plain("DISK:"@, value);
    lemma_metric_line_is_plain("LOAD:"@, value);
    lemma_metric_line_is_plain("MEM:"@, value);
    lemma_line_is_read_last(before@, "DISK:"@ + value);
    lemma_line_is_read_last(before@, "LOAD:"@ + value);
    lemma_line_is_read_last(before@, "MEM:"@ + value);
}

proof fn lemma_metric_line_is_plain(prefix: Seq<char>, value: Seq<char>)
    requires
        prefix.len() > 0,
        forall|i: int| 0 <= i < prefix.len() ==> prefix[i] != '\n' && prefix[i] != '\r',
        !value.contains('\n'),
        !value.contains('\r'),
    ensures
        !(prefix + value).contains('\n'),
        without_cr(prefix + value) == prefix + value,
{
    let line = prefix + value;
    assert forall|i: int| 0 <= i < line.len() implies line[i] != '\n' && line[i] != '\r' by {
        if i >= prefix.len() {
            assert(value.contains(line[i]));
        }
    }
}

/// There is a report exactly if `ssh` ran and succeeded, and it is that of the text that `ssh`
/// wrote.
pub proof fn law_reports_come_from_successful_runs(
    reply: SshReply,
    report: Option<Report>,
    none: Option<Report>,
    text: &str,
    read: Report,
)
    requires
        call_ensures(poll_report, (Some(reply),), report),
        call_ensures(poll_report, (None,), none),
        call_ensures(parse_output, (text,), read),
    ensures
        none is None,
        report is Some <==> reply.success,
        reply.success && valid_utf8(reply.stdout@) && decode_utf8(reply.stdout@) == text@
            ==> report->0.deep_view() == read.deep_view(),
        reply.success && utf8_lossy(reply.stdout@) == text@ ==> report->0.deep_view()
            == read.deep_view(),
{
}

/// The state of a node after a poll: without a report nothing is known of it and it counts as
/// unreachable; with a report it has what was reported, and the status that `compute_status` gives
/// it.
pub proof fn law_polls_keep_the_report(
    node: NodeConfig,
    report: Report,
    load: Option<CpuLoad>,
    there: NodeMetrics,
    lost: NodeMetrics,
    known_load: Option<CpuLoad>,
    status: String,
)
    requires
        call_ensures(poll_node, (&node, Some(report), load), there),
        call_ensures(poll_node, (&node, None, load), lost),
        call_ensures(compute_status, (&report.disk_pct, &known_load, &node), status),
        known_load.deep_view() == there.cpu_load.deep_view(),
    ensures
        there.disk_pct == report.disk_pct,
        there.mem_pct == report.mem_pct,
        there.service_statuses.deep_view() == report.service_statuses.deep_view(),
        report.load_text is Some ==> there.cpu_load.deep_view() == load.deep_view(),
        report.load_text is None ==> there.cpu_load is None,
        there.status@ == status@,
        lost.disk_pct is None,
        lost.cpu_load is None,
        lost.mem_pct is None,
        lost.service_statuses@.len() == 0,
        lost.status@ == "unreachable"@,
{
    assert(lost.service_statuses.deep_view().len() == lost.service_statuses@.len());
}

/// Each node of a file is configured as its entry says, in the order of the file; a file that
/// cannot be read has no nodes.
pub proof fn law_nodes_are_those_of_the_file(
    entries: Vec<NodeEntry>,
    nodes: Vec<NodeConfig>,
    none: Vec<NodeConfig>,
    i: int,
)
    requires
        call_ensures(load_nodes, (Some(entries),), nodes),
        call_ensures(load_nodes, (None,), none),
        0 <= i < entries@.len(),
    ensures
        none@.len() == 0,
        nodes@.len() == entries@.len(),
        nodes@[i].name@ == entries@[i].name@,
        nodes@[i].host@ == entries@[i].host@,
        nodes@[i].ssh_user@ == entries@[i].ssh_user@,
        nodes@[i].ssh_key.deep_view() == entries@[i].ssh_key.deep_view(),
        entries@[i].services is Some ==> nodes@[i].services.deep_view()
            == entries@[i].services->0.deep_view(),
        entries@[i].services is None ==> nodes@[i].services@.len() == 0,
        nodes@[i].disk_alert_threshold == match entries@[i].disk_alert_threshold {
            Some(t) => t,
            None => 85,
        },
        entries@[i].cpu_alert_threshold is Some ==> nodes@[i].cpu_alert_threshold
            == entries@[i].cpu_alert_threshold->0,
        entries@[i].cpu_alert_threshold is None ==> !nodes@[i].cpu_alert_threshold.is_nan()
            && nodes@[i].cpu_alert_threshold.value() == 95 * one(),
{
    assert(none.deep_view().len() == none@.len());
    assert(nodes.deep_view().len() == nodes@.len());
    assert(nodes.deep_view()[i] == nodes@[i].deep_view());
    assert(entries.deep_view()[i] == entries@[i].deep_view());
    assert(nodes@[i].services.deep_view().len() == nodes@[i].services@.len());
    lemma_patterns();
}

/// The usual thresholds, and the commands that measure a node.
pub proof fn law_constants_of_a_node(
    disk: u8,
    cpu: Double,
    home: &str,
    path: String,
)
    requires
        call_ensures(default_disk_threshold, (), disk),
        call_ensures(default_cpu_threshold, (), cpu),
        call_ensures(nodes_toml_path, (Some(home),), path),
    ensures
        disk == 85,
        !cpu.is_nan() && cpu.value() == 95 * one(),
        DEFAULT_KEY@ == "~/.ssh/id_ed25519"@,
        METRICS_COMMAND@ == "echo DISK:$(df -P / | tail -1 | awk '{print $5}' | tr -d '%'); echo LOAD:$(cat /proc/loadavg | awk '{print $1}'); echo MEM:$(free -m | grep Mem | awk '{printf \"%.0f\", $3/$2*100}'); "@,
        path@ == join_path(home@, ".epc/nodes.toml"@),
{
}

/// The key, the target and the command with which a node is polled: a tilde in front of the key
/// stands for the home directory, and the command measures the node and then checks its services.
pub proof fn law_polls_in_full(
    node: NodeConfig,
    home: &str,
    args: Vec<String>,
    key: &str,
    path: String,
    command: String,
)
    requires
        call_ensures(poll_args, (&node, Some(home)), args),
        call_ensures(resolve_key, (key, Some(home)), path),
        call_ensures(node_command, (&node.services,), command),
    ensures
        key@.len() > 0 && key@[0] == '~' ==> path@ == home@ + key@.skip(1),
        key@.len() == 0 || key@[0] != '~' ==> path@ == key@,
        args@.len() == 10,
        args@[0]@ == "-i"@,
        node.ssh_key is Some && node.ssh_key->0@ == key@ ==> args@[1]@ == path@,
        node.ssh_key is None ==> args@[1]@ == home@ + "/.ssh/id_ed25519"@,
        args@[2]@ == "-o"@ && args@[3]@ == "StrictHostKeyChecking=no"@,
        args@[4]@ == "-o"@ && args@[5]@ == "ConnectTimeout=5"@,
        args@[6]@ == "-o"@ && args@[7]@ == "BatchMode=yes"@,
        args@[8]@ == node.ssh_user@ + seq!['@'] + node.host@,
        args@[9]@ == command@,
{
    reveal_strlit("@");
    assert("@"@ =~= seq!['@']);
    reveal_strlit("~/.ssh/id_ed25519");
    reveal_strlit("/.ssh/id_ed25519");
    assert(DEFAULT_KEY@.drop_first() =~= "/.ssh/id_ed25519"@);
    if key@.len() > 0 {
        assert(key@.drop_first() =~= key@.skip(1));
    }
    let all = args.deep_view();
    assert(all.len() == args@.len());
    assert forall|i: int| 0 <= i < all.len() implies #[trigger] args@[i]@ == all[i] by {
        assert(all[i] == args@[i].deep_view());
    }
    assert(all == poll_arguments(node.deep_view(), Some(home@)));
}

/// What `ssh` is called with, whatever it is called for; what an entry alone configures; and what a
/// lost node is taken to be.
pub proof fn law_calls_and_entries_in_full(
    key: &str,
    user: &str,
    host: &str,
    command: &str,
    args: Vec<String>,
    entry: NodeEntry,
    node: NodeConfig,
    lost: NodeMetrics,
)
    requires
        call_ensures(ssh_args, (key, user, host, command), args),
        call_ensures(configured, (entry,), node),
        call_ensures(unreachable_metrics, (), lost),
    ensures
        args.deep_view() == seq![
            "-i"@,
            key@,
            "-o"@,
            "StrictHostKeyChecking=no"@,
            "-o"@,
            "ConnectTimeout=5"@,
            "-o"@,
            "BatchMode=yes"@,
            user@ + seq!['@'] + host@,
            command@,
        ],
        node.name@ == entry.name@,
        node.host@ == entry.host@,
        node.ssh_user@ == entry.ssh_user@,
        node.ssh_key.deep_view() == entry.ssh_key.deep_view(),
        entry.services is Some ==> node.services.deep_view() == entry.services->0.deep_view(),
        entry.services is None ==> node.services.deep_view().len() == 0,
        entry.disk_alert_threshold is Some ==> node.disk_alert_threshold
            == entry.disk_alert_threshold->0,
        entry.disk_alert_threshold is None ==> node.disk_alert_threshold == 85,
        entry.cpu_alert_threshold is Some ==> node.cpu_alert_threshold
            == entry.cpu_alert_threshold->0,
        entry.cpu_alert_threshold is None ==> !node.cpu_alert_threshold.is_nan()
            && node.cpu_alert_threshold.value() == 95 * one(),
        lost.disk_pct is None,
        lost.cpu_load is None,
        lost.mem_pct is None,
        lost.service_statuses.deep_view().len() == 0,
        lost.status@ == "unreachable"@,
{
    reveal_strlit("@");
    assert("@"@ =~= seq!['@']);
    lemma_patterns();
}

/// The command of `node_command`: the measures, and behind them, for each service in turn, a check
/// that names it; between two checks stands a semicolon.
pub proof fn law_commands_in_full(
    none: Vec<String>,
    one_service: Vec<String>,
    more: Vec<String>,
    last: Seq<char>,
    empty: String,
    first: String,
    before: String,
    after_services: Vec<String>,
    after: String,
)
    requires
        none@.len() == 0,
        one_service@.len() == 1,
        more@.len() > 0,
        after_services.deep_view() == more.deep_view().push(last),
        call_ensures(node_command, (&none,), empty),
        call_ensures(node_command, (&one_service,), first),
        call_ensures(node_command, (&more,), before),
        call_ensures(node_command, (&after_services,), after),
    ensures
        empty@ == METRICS_COMMAND@,
        first@ == METRICS_COMMAND@ + ("echo SVC:"@ + one_service@[0]@ + ":$(systemctl is-active "@
            + one_service@[0]@ + " 2>/dev/null || echo inactive)"@),
        after@ == before@ + seq![';', ' '] + ("echo SVC:"@ + last + ":$(systemctl is-active "@
            + last + " 2>/dev/null || echo inactive)"@),
{
    reveal_strlit("; ");
    assert("; "@ =~= seq![';', ' ']);
    let single = one_service@[0]@;
    assert(none.deep_view() =~= Seq::empty());
    assert(one_service.deep_view() =~= seq![single]);
    law_poll_command_grows_by_service(single, more.deep_view(), seq![last]);
    law_poll_command_grows_by_service(last, more.deep_view(), seq![last]);
    assert(more.deep_view() + seq![last] =~= more.deep_view().push(last));
    let check = "echo SVC:"@ + last + ":$(systemctl is-active "@ + last
        + " 2>/dev/null || echo inactive)"@;
    assert((METRICS_COMMAND@ + check).skip(METRICS_COMMAND@.len() as int) =~= check);
}

} // verus!
