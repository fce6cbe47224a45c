//! Polling: how a service is checked, what a poll records, and whom it alerts.
use crate::bytes::text_strict;
use crate::nodes::{law_unreachable_means_unmeasured, lemma_statuses_differ, load_value, read_load,
    reported_model, unreachable_model, CpuLoad, CpuLoadModel, MetricsModel, NodeConfig, NodeMetrics,
    NodeModel, ReportModel};
use crate::number::{decimal, decimal_text};
use crate::text::{same_text, trim, trimmed};
use vstd::prelude::*;
use vstd::utf8::{decode_utf8, valid_utf8};

verus! {

// ── What is known of a service ────────────────────────────────────────────────

/// A service as the file `services.toml` lists it.
#[derive(Clone, Debug, PartialEq, Eq)]
pub struct ServiceEntry {
    pub dir: String,
    pub port: u16,
}

/// The part `package` of the file `eps.toml`.
#[derive(Clone, Debug, PartialEq, Eq)]
pub struct EpsPackage {
    pub repository: Option<String>,
}

/// The part `service` of the file `eps.toml`.
#[derive(Clone, Debug, PartialEq, Eq)]
pub struct EpsService {
    pub health_check: Option<String>,
    pub tls: Option<bool>,
}

/// The file `eps.toml` of a service.
#[derive(Clone, Debug, PartialEq, Eq)]
pub struct EpsManifest {
    pub package: Option<EpsPackage>,
    pub service: Option<EpsService>,
}

/// What the manifest of a service says of its health check, of TLS and of its repository.
#[derive(Clone, Debug, PartialEq, Eq)]
pub struct EpsInfo {
    pub health_check: Option<String>,
    pub tls: Option<bool>,
    pub repo_url: Option<String>,
}

/// What an `EpsInfo` holds.
pub struct EpsInfoModel {
    pub health_check: Option<Seq<char>>,
    pub tls: Option<bool>,
    pub repo_url: Option<Seq<char>>,
}

impl DeepView for EpsInfo {
    type V = EpsInfoModel;

    open spec fn deep_view(&self) -> EpsInfoModel {
        EpsInfoModel {
            health_check: self.health_check.deep_view(),
            tls: self.tls,
            repo_url: self.repo_url.deep_view(),
        }
    }
}

impl DeepView for EpsManifest {
    type V = EpsInfoModel;

    /// What the manifest says. A part that is left out says nothing.
    open spec fn deep_view(&self) -> EpsInfoModel {
        EpsInfoModel {
            health_check: match self.service {
                Some(service) => service.health_check.deep_view(),
                None => None,
            },
            tls: match self.service {
                Some(service) => service.tls,
                None => None,
            },
            repo_url: match self.package {
                Some(package) => package.repository.deep_view(),
                None => None,
            },
        }
    }
}

/// What is known of a service: what its manifest says, or nothing where there is no manifest
/// that can be read.
pub fn read_eps_info(manifest: Option<EpsManifest>) -> (r: EpsInfo)
    ensures
        r.deep_view() == match manifest.deep_view() {
            Some(info) => info,
            None => EpsInfoModel { health_check: None, tls: None, repo_url: None },
        },
{
    match manifest {
        Some(manifest) => {
            let repo_url = match manifest.package {
                Some(package) => package.repository,
                None => None,
            };
            match manifest.service {
                Some(service) => EpsInfo {
                    health_check: service.health_check,
                    tls: service.tls,
                    repo_url,
                },
                None => EpsInfo { health_check: None, tls: None, repo_url },
            }
        },
        None => EpsInfo { health_check: None, tls: None, repo_url: None },
    }
}

/// The arguments with which `lsof` lists the processes that listen on `port`.
pub fn lsof_args(port: u16) -> (r: Vec<String>)
    ensures
        r.deep_view() == seq!["-t"@, "-i"@, ":"@ + decimal(port as nat), "-sTCP:LISTEN"@],
{
    let mut address = ":".to_owned();
    address.append(decimal_text(port as u64).as_str());
    let mut r: Vec<String> = Vec::new();
    r.push("-t".to_owned());
    r.push("-i".to_owned());
    r.push(address);
    r.push("-sTCP:LISTEN".to_owned());
    assert(r.deep_view() =~= seq!["-t"@, "-i"@, ":"@ + decimal(port as nat), "-sTCP:LISTEN"@]);
    r
}

/// Whether a port is listened on: `lsof` ran, and wrote something.
pub fn is_port_listening(stdout: Option<&Vec<u8>>) -> (r: bool)
    ensures
        r <==> (stdout is Some && stdout->0@.len() > 0),
{
    match stdout {
        Some(stdout) => stdout.len() > 0,
        None => false,
    }
}

/// The arguments with which `tailscale` writes the address of this machine.
pub fn tailscale_args() -> (r: Vec<String>)
    ensures
        r.deep_view() == seq!["ip"@, "-4"@],
{
    let mut r: Vec<String> = Vec::new();
    r.push("ip".to_owned());
    r.push("-4".to_owned());
    assert(r.deep_view() =~= seq!["ip"@, "-4"@]);
    r
}

/// The address in what `tailscale` wrote, without the white space around it. It is empty if
/// `tailscale` did not run, or did not write UTF-8.
pub fn tailscale_ip(stdout: Option<Vec<u8>>) -> (r: String)
    ensures
        r@ == if stdout is Some && valid_utf8(stdout->0@) {
            trim(decode_utf8(stdout->0@))
        } else {
            Seq::empty()
        },
{
    match stdout {
        Some(bytes) => match text_strict(bytes) {
            Some(text) => trimmed(text.as_str()),
            None => String::new(),
        },
        None => String::new(),
    }
}

// ── Checking a service ────────────────────────────────────────────────────────

/// How long a health check may take, in seconds.
pub const PROBE_TIMEOUT_SECS: u64 = 2;

/// The outcome of checking a service. The status is `running`, `degraded` or `stopped`.
#[derive(Clone, Debug, PartialEq, Eq)]
pub struct ServiceCheck {
    pub status: String,
    pub response_ms: Option<i64>,
    pub status_code: Option<u16>,
    pub repo_url: Option<String>,
}

/// What a `ServiceCheck` holds.
pub struct CheckModel {
    pub status: Seq<char>,
    pub response_ms: Option<i64>,
    pub status_code: Option<u16>,
    pub repo_url: Option<Seq<char>>,
}

impl DeepView for ServiceCheck {
    type V = CheckModel;

    open spec fn deep_view(&self) -> CheckModel {
        CheckModel {
            status: self.status@,
            response_ms: self.response_ms,
            status_code: self.status_code,
            repo_url: self.repo_url.deep_view(),
        }
    }
}

/// A request to make of a service. With TLS, any certificate is accepted.
#[derive(Clone, Debug, PartialEq, Eq)]
pub struct Probe {
    pub url: String,
    pub tls: bool,
    pub repo_url: Option<String>,
}

/// How the check of a service goes on.
#[derive(Clone, Debug, PartialEq, Eq)]
pub enum CheckStep {
    /// The outcome is known.
    Done(ServiceCheck),
    /// The service has to be asked.
    Ask(Probe),
}

/// What a `CheckStep` holds.
pub enum CheckStepModel {
    Done(CheckModel),
    Ask { url: Seq<char>, tls: bool, repo_url: Option<Seq<char>> },
}

impl DeepView for CheckStep {
    type V = CheckStepModel;

    open spec fn deep_view(&self) -> CheckStepModel {
        match *self {
            CheckStep::Done(check) => CheckStepModel::Done(check.deep_view()),
            CheckStep::Ask(probe) => CheckStepModel::Ask {
                url: probe.url@,
                tls: probe.tls,
                repo_url: probe.repo_url.deep_view(),
            },
        }
    }
}

/// The address of the health check of a service.
pub open spec fn health_url(tls: bool, ip: Seq<char>, port: u16) -> Seq<char> {
    (if tls {
        "https"@
    } else {
        "http"@
    }) + "://"@ + ip + ":"@ + decimal(port as nat) + "/health"@
}

/// How the check of a service starts. A service whose port nobody listens on is stopped, and one
/// that is listening and has no health check is running. Any other has to be asked.
pub open spec fn check_start(
    port: u16,
    listening: bool,
    info: EpsInfoModel,
    ip: Seq<char>,
) -> CheckStepModel {
    if !listening {
        CheckStepModel::Done(
            CheckModel {
                status: "stopped"@,
                response_ms: None,
                status_code: None,
                repo_url: info.repo_url,
            },
        )
    } else if info.health_check is None {
        CheckStepModel::Done(
            CheckModel {
                status: "running"@,
                response_ms: None,
                status_code: None,
                repo_url: info.repo_url,
            },
        )
    } else {
        let tls = info.tls == Some(true);
        CheckStepModel::Ask { url: health_url(tls, ip, port), tls, repo_url: info.repo_url }
    }
}

/// The status codes of success.
pub open spec fn is_success(code: u16) -> bool {
    200 <= code < 300
}

/// The outcome for a service that was asked, and took `ms` milliseconds to answer with the status
/// code `code`, or to fail.
pub open spec fn check_end(repo_url: Option<Seq<char>>, ms: i64, code: Option<u16>) -> CheckModel {
    CheckModel {
        status: if code is Some && is_success(code->0) {
            "running"@
        } else {
            "degraded"@
        },
        response_ms: Some(ms),
        status_code: code,
        repo_url,
    }
}

/// Starts the check of a service on the machine at `ip`.
pub fn check_service(entry: &ServiceEntry, listening: bool, info: EpsInfo, ip: &str) -> (r:
    CheckStep)
    ensures
        r.deep_view() == check_start(entry.port, listening, info.deep_view(), ip@),
{
    if !listening {
        return CheckStep::Done(
            ServiceCheck {
                status: "stopped".to_owned(),
                response_ms: None,
                status_code: None,
                repo_url: info.repo_url,
            },
        );
    }
    if info.health_check.is_none() {
        return CheckStep::Done(
            ServiceCheck {
                status: "running".to_owned(),
                response_ms: None,
                status_code: None,
                repo_url: info.repo_url,
            },
        );
    }
    let tls: bool = match info.tls {
        Some(tls) => tls,
        None => false,
    };
    let mut url = if tls {
        "https".to_owned()
    } else {
        "http".to_owned()
    };
    url.append("://");
    url.append(ip);
    url.append(":");
    url.append(decimal_text(entry.port as u64).as_str());
    url.append("/health");
    CheckStep::Ask(Probe { url, tls, repo_url: info.repo_url })
}

/// Ends the check of a service that was asked.
pub fn finish_check(repo_url: Option<String>, ms: i64, code: Option<u16>) -> (r: ServiceCheck)
    ensures
        r.deep_view() == check_end(repo_url.deep_view(), ms, code),
{
    let status = match code {
        Some(c) => if 200 <= c && c < 300 {
            "running".to_owned()
        } else {
            "degraded".to_owned()
        },
        None => "degraded".to_owned(),
    };
    ServiceCheck { status, response_ms: Some(ms), status_code: code, repo_url }
}

// ── What a poll does ──────────────────────────────────────────────────────────

/// Something that a poll does.
#[derive(Clone, Debug, PartialEq, Eq)]
pub enum Action {
    /// Adds a check to the history of a service.
    RecordCheck {
        service: String,
        at: String,
        status: String,
        response_ms: Option<i64>,
        status_code: Option<u16>,
    },
    /// Sets the last status of a service.
    RecordStatus { service: String, status: String, at: String, repo_url: Option<String> },
    /// Adds a check to the history of a node.
    RecordNodeCheck {
        node: String,
        at: String,
        disk_pct: Option<u8>,
        cpu_load: Option<CpuLoad>,
        mem_pct: Option<u8>,
        status: String,
    },
    /// Sets the last state of a node.
    RecordNodeState {
        node: String,
        status: String,
        at: String,
        disk_pct: Option<u8>,
        cpu_load: Option<CpuLoad>,
        mem_pct: Option<u8>,
    },
    /// Adds a check to the history of a service on a node.
    RecordNodeService { node: String, service: String, at: String, active: bool },
    /// Sends a message.
    Send { message: String },
}

/// What an `Action` holds.
pub enum ActionModel {
    RecordCheck {
        service: Seq<char>,
        at: Seq<char>,
        status: Seq<char>,
        response_ms: Option<i64>,
        status_code: Option<u16>,
    },
    RecordStatus {
        service: Seq<char>,
        status: Seq<char>,
        at: Seq<char>,
        repo_url: Option<Seq<char>>,
    },
    RecordNodeCheck {
        node: Seq<char>,
        at: Seq<char>,
        disk_pct: Option<u8>,
        cpu_load: Option<CpuLoadModel>,
        mem_pct: Option<u8>,
        status: Seq<char>,
    },
    RecordNodeState {
        node: Seq<char>,
        status: Seq<char>,
        at: Seq<char>,
        disk_pct: Option<u8>,
        cpu_load: Option<CpuLoadModel>,
        mem_pct: Option<u8>,
    },
    RecordNodeService { node: Seq<char>, service: Seq<char>, at: Seq<char>, active: bool },
    Send { message: Seq<char> },
}

impl DeepView for Action {
    type V = ActionModel;

    open spec fn deep_view(&self) -> ActionModel {
        match *self {
            Action::RecordCheck { service, at, status, response_ms, status_code } =>
                ActionModel::RecordCheck {
                    service: service@,
                    at: at@,
                    status: status@,
                    response_ms,
                    status_code,
                },
            Action::RecordStatus { service, status, at, repo_url } => ActionModel::RecordStatus {
                service: service@,
                status: status@,
                at: at@,
                repo_url: repo_url.deep_view(),
            },
            Action::RecordNodeCheck { node, at, disk_pct, cpu_load, mem_pct, status } =>
                ActionModel::RecordNodeCheck {
                    node: node@,
                    at: at@,
                    disk_pct,
                    cpu_load: cpu_load.deep_view(),
                    mem_pct,
                    status: status@,
                },
            Action::RecordNodeState { node, status, at, disk_pct, cpu_load, mem_pct } =>
                ActionModel::RecordNodeState {
                    node: node@,
                    status: status@,
                    at: at@,
                    disk_pct,
                    cpu_load: cpu_load.deep_view(),
                    mem_pct,
                },
            Action::RecordNodeService { node, service, at, active } =>
                ActionModel::RecordNodeService {
                    node: node@,
                    service: service@,
                    at: at@,
                    active,
                },
            Action::Send { message } => ActionModel::Send { message: message@ },
        }
    }
}

/// The message that the status of a service has become `status`.
pub open spec fn service_message(name: Seq<char>, status: Seq<char>) -> Seq<char> {
    "[Observatory] "@ + name + if status == "running"@ {
        " recovered"@
    } else if status == "degraded"@ {
        " is DEGRADED"@
    } else {
        " is DOWN"@
    }
}

/// The message that the poll of a service leads to: one if its status was known and has changed,
/// and messages are wanted.
pub open spec fn service_alerts(
    name: Seq<char>,
    prev: Option<Seq<char>>,
    status: Seq<char>,
    alerting: bool,
) -> Seq<ActionModel> {
    if alerting && prev is Some && prev->0 != status {
        seq![ActionModel::Send { message: service_message(name, status) }]
    } else {
        Seq::empty()
    }
}

/// What the poll of a service does: it records the check and the status, then alerts.
pub open spec fn service_plan(
    name: Seq<char>,
    now: Seq<char>,
    prev: Option<Seq<char>>,
    check: CheckModel,
    alerting: bool,
) -> Seq<ActionModel> {
    seq![
        ActionModel::RecordCheck {
            service: name,
            at: now,
            status: check.status,
            response_ms: check.response_ms,
            status_code: check.status_code,
        },
        ActionModel::RecordStatus {
            service: name,
            status: check.status,
            at: now,
            repo_url: check.repo_url,
        },
    ] + service_alerts(name, prev, check.status, alerting)
}

/// The message that a node can no longer be reached, or can be reached again.
pub open spec fn reach_messages(
    name: Seq<char>,
    prev: Option<Seq<char>>,
    status: Seq<char>,
) -> Seq<Seq<char>> {
    if prev is None {
        Seq::empty()
    } else if prev->0 != "unreachable"@ && status == "unreachable"@ {
        seq!["[Observatory] "@ + name + " is UNREACHABLE"@]
    } else if prev->0 == "unreachable"@ && status != "unreachable"@ {
        seq!["[Observatory] "@ + name + " is back online"@]
    } else {
        Seq::empty()
    }
}

/// The message that the disk of a node is full.
pub open spec fn disk_messages(node: NodeModel, disk_pct: Option<u8>) -> Seq<Seq<char>> {
    if disk_pct is Some && disk_pct->0 >= node.disk_alert_threshold {
        seq!["[Observatory] "@ + node.name + ": disk "@ + decimal(disk_pct->0 as nat) + "% full"@]
    } else {
        Seq::empty()
    }
}

/// The message that the load of a node is high.
pub open spec fn cpu_messages(node: NodeModel, load: Option<CpuLoadModel>) -> Seq<Seq<char>> {
    if load is Some && load->0.value.ge(node.cpu_alert_threshold) {
        seq!["[Observatory] "@ + node.name + ": CPU load "@ + load->0.text]
    } else {
        Seq::empty()
    }
}

/// The messages that the poll of a node leads to, where messages are wanted: whether it can be
/// reached, if that has changed; then its disk and its load, as long as they are at their
/// thresholds.
pub open spec fn node_messages(
    node: NodeModel,
    prev: Option<Seq<char>>,
    metrics: MetricsModel,
    alerting: bool,
) -> Seq<Seq<char>> {
    if alerting {
        reach_messages(node.name, prev, metrics.status) + disk_messages(node, metrics.disk_pct)
            + cpu_messages(node, metrics.cpu_load)
    } else {
        Seq::empty()
    }
}

/// What the poll of a node does: it records the check, the state and each service, then alerts.
pub open spec fn node_plan(
    node: NodeModel,
    now: Seq<char>,
    prev: Option<Seq<char>>,
    metrics: MetricsModel,
    alerting: bool,
) -> Seq<ActionModel> {
    seq![
        ActionModel::RecordNodeCheck {
            node: node.name,
            at: now,
            disk_pct: metrics.disk_pct,
            cpu_load: metrics.cpu_load,
            mem_pct: metrics.mem_pct,
            status: metrics.status,
        },
        ActionModel::RecordNodeState {
            node: node.name,
            status: metrics.status,
            at: now,
            disk_pct: metrics.disk_pct,
            cpu_load: metrics.cpu_load,
            mem_pct: metrics.mem_pct,
        },
    ] + metrics.service_statuses.map_values(
        |s: (Seq<char>, bool)|
            ActionModel::RecordNodeService { node: node.name, service: s.0, at: now, active: s.1 },
    ) + node_messages(node, prev, metrics, alerting).map_values(
        |m: Seq<char>| ActionModel::Send { message: m },
    )
}

/// A copy of a load.
fn copy_load(load: &Option<CpuLoad>) -> (r: Option<CpuLoad>)
    ensures
        r.deep_view() == load.deep_view(),
{
    match load {
        Some(l) => Some(CpuLoad { value: l.value, text: l.text.clone() }),
        None => None,
    }
}

/// What the poll of the service `name` does at the time `now`. `prev` is the status that it had,
/// where it is known, and `alerting` says whether messages are wanted.
pub fn service_actions(
    name: &str,
    now: &str,
    prev: Option<&str>,
    check: ServiceCheck,
    alerting: bool,
) -> (r: Vec<Action>)
    ensures
        r.deep_view() == service_plan(
            name@,
            now@,
            prev.deep_view(),
            check.deep_view(),
            alerting,
        ),
{
    let mut r: Vec<Action> = Vec::new();
    r.push(
        Action::RecordCheck {
            service: name.to_owned(),
            at: now.to_owned(),
            status: check.status.clone(),
            response_ms: check.response_ms,
            status_code: check.status_code,
        },
    );
    r.push(
        Action::RecordStatus {
            service: name.to_owned(),
            status: check.status.clone(),
            at: now.to_owned(),
            repo_url: check.repo_url,
        },
    );
    if let Some(prev_status) = prev {
        if alerting && !same_text(prev_status, check.status.as_str()) {
            let mut message = "[Observatory] ".to_owned();
            message.append(name);
            if same_text(check.status.as_str(), "running") {
                message.append(" recovered");
            } else if same_text(check.status.as_str(), "degraded") {
                message.append(" is DEGRADED");
            } else {
                message.append(" is DOWN");
            }
            r.push(Action::Send { message });
        }
    }
    assert(r.deep_view() =~= service_plan(
        name@,
        now@,
        prev.deep_view(),
        check.deep_view(),
        alerting,
    ));
    r
}

/// The messages that the poll of `node` leads to.
pub fn node_alerts(
    node: &NodeConfig,
    prev: Option<&str>,
    metrics: &NodeMetrics,
    alerting: bool,
) -> (r: Vec<String>)
    ensures
        r.deep_view() == node_messages(
            node.deep_view(),
            prev.deep_view(),
            metrics.deep_view(),
            alerting,
        ),
{
    let mut r: Vec<String> = Vec::new();
    assert(r.deep_view() =~= Seq::empty());
    if !alerting {
        return r;
    }
    if let Some(prev_status) = prev {
        let was_lost = same_text(prev_status, "unreachable");
        let is_lost = same_text(metrics.status.as_str(), "unreachable");
        let mut message = "[Observatory] ".to_owned();
        message.append(node.name.as_str());
        if !was_lost && is_lost {
            message.append(" is UNREACHABLE");
            r.push(message);
        } else if was_lost && !is_lost {
            message.append(" is back online");
            r.push(message);
        }
    }
    let ghost reach = reach_messages(node.name@, prev.deep_view(), metrics.status@);
    assert(r.deep_view() =~= reach);
    if let Some(d) = metrics.disk_pct {
        if d >= node.disk_alert_threshold {
            let mut message = "[Observatory] ".to_owned();
            message.append(node.name.as_str());
            message.append(": disk ");
            message.append(decimal_text(d as u64).as_str());
            message.append("% full");
            r.push(message);
        }
    }
    let ghost disk = disk_messages(node.deep_view(), metrics.disk_pct);
    assert(r.deep_view() =~= reach + disk);
    if let Some(l) = &metrics.cpu_load {
        if l.value.at_least(&node.cpu_alert_threshold) {
            let mut message = "[Observatory] ".to_owned();
            message.append(node.name.as_str());
            message.append(": CPU load ");
            message.append(l.text.as_str());
            r.push(message);
        }
    }
    assert(r.deep_view() =~= reach + disk + cpu_messages(
        node.deep_view(),
        metrics.cpu_load.deep_view(),
    ));
    r
}

/// What the poll of `node` does at the time `now`. `prev` is the status that it had, where it is
/// known, and `alerting` says whether messages are wanted.
pub fn node_actions(
    node: &NodeConfig,
    now: &str,
    prev: Option<&str>,
    metrics: &NodeMetrics,
    alerting: bool,
) -> (r: Vec<Action>)
    ensures
        r.deep_view() == node_plan(
            node.deep_view(),
            now@,
            prev.deep_view(),
            metrics.deep_view(),
            alerting,
        ),
{
    let mut r: Vec<Action> = Vec::new();
    r.push(
        Action::RecordNodeCheck {
            node: node.name.clone(),
            at: now.to_owned(),
            disk_pct: metrics.disk_pct,
            cpu_load: copy_load(&metrics.cpu_load),
            mem_pct: metrics.mem_pct,
            status: metrics.status.clone(),
        },
    );
    r.push(
        Action::RecordNodeState {
            node: node.name.clone(),
            status: metrics.status.clone(),
            at: now.to_owned(),
            disk_pct: metrics.disk_pct,
            cpu_load: copy_load(&metrics.cpu_load),
            mem_pct: metrics.mem_pct,
        },
    );
    let ghost head = r.deep_view();
    let ghost services = metrics.deep_view().service_statuses.map_values(
        |s: (Seq<char>, bool)|
            ActionModel::RecordNodeService {
                node: node.deep_view().name,
                service: s.0,
                at: now@,
                active: s.1,
            },
    );
    let mut i: usize = 0;
    while i < metrics.service_statuses.len()
        invariant
            i <= metrics.service_statuses@.len(),
            services == metrics.deep_view().service_statuses.map_values(
                |s: (Seq<char>, bool)|
                    ActionModel::RecordNodeService {
                        node: node.deep_view().name,
                        service: s.0,
                        at: now@,
                        active: s.1,
                    },
            ),
            r.deep_view() =~= head + services.take(i as int),
        decreases metrics.service_statuses@.len() - i,
    {
        let ghost done = r.deep_view();
        r.push(
            Action::RecordNodeService {
                node: node.name.clone(),
                service: metrics.service_statuses[i].0.clone(),
                at: now.to_owned(),
                active: metrics.service_statuses[i].1,
            },
        );
        assert(r.deep_view() =~= done.push(services[i as int]));
        i = i + 1;
    }
    assert(services.take(i as int) =~= services);
    let messages = node_alerts(node, prev, metrics, alerting);
    let ghost sends = messages.deep_view().map_values(
        |m: Seq<char>| ActionModel::Send { message: m },
    );
    let mut k: usize = 0;
    while k < messages.len()
        invariant
            k <= messages@.len(),
            sends == messages.deep_view().map_values(
                |m: Seq<char>| ActionModel::Send { message: m },
            ),
            r.deep_view() =~= head + services + sends.take(k as int),
        decreases messages@.len() - k,
    {
        let ghost done = r.deep_view();
        r.push(Action::Send { message: messages[k].clone() });
        assert(r.deep_view() =~= done.push(sends[k as int]));
        k = k + 1;
    }
    assert(sends.take(k as int) =~= sends);
    assert(head =~= seq![head[0], head[1]]);
    r
}

// ── Laws ──────────────────────────────────────────────────────────────────────

/// A service is asked exactly if it is listening and has a health check. One that is not asked is
/// running if it is listening and stopped if not, with no time and no status code; one that is
/// asked is running exactly if it answers with success.
pub proof fn law_check_outcomes(
    port: u16,
    listening: bool,
    info: EpsInfoModel,
    ip: Seq<char>,
    ms: i64,
    code: Option<u16>,
)
    ensures
        check_start(port, listening, info, ip) is Ask <==> listening && info.health_check is Some,
        check_start(port, listening, info, ip) matches CheckStepModel::Done(check) ==> {
            &&& check.response_ms is None
            &&& check.status_code is None
            &&& check.repo_url == info.repo_url
            &&& check.status == if listening {
                "running"@
            } else {
                "stopped"@
            }
        },
        check_end(info.repo_url, ms, code).status == "running"@ <==> code is Some && is_success(
            code->0,
        ),
{
    reveal_strlit("running");
    reveal_strlit("degraded");
    assert("running"@.len() == 7);
    assert("degraded"@.len() == 8);
}

/// Every poll of a service records its check and its status, whatever was known before and
/// whether or not messages are wanted.
pub proof fn law_service_poll_is_recorded(
    name: Seq<char>,
    now: Seq<char>,
    prev: Option<Seq<char>>,
    check: CheckModel,
    alerting: bool,
)
    ensures
        service_plan(name, now, prev, check, alerting).take(2) == service_plan(
            name,
            now,
            None,
            check,
            false,
        ),
        service_plan(name, now, prev, check, alerting)[1] == (ActionModel::RecordStatus {
            service: name,
            status: check.status,
            at: now,
            repo_url: check.repo_url,
        }),
{
    assert(service_plan(name, now, prev, check, alerting).take(2) =~= service_plan(
        name,
        now,
        None,
        check,
        false,
    ));
}

/// The poll of a service sends one message if its status was known and has changed and messages
/// are wanted, and none otherwise.
pub proof fn law_service_alerts_on_change(
    name: Seq<char>,
    now: Seq<char>,
    prev: Option<Seq<char>>,
    check: CheckModel,
    alerting: bool,
)
    ensures
        service_plan(name, now, prev, check, alerting).len() == 2 + (if alerting && prev is Some
            && prev->0 != check.status {
            1int
        } else {
            0
        }),
        forall|i: int|
            0 <= i < service_plan(name, now, prev, check, alerting).len() ==> ((
            #[trigger] service_plan(name, now, prev, check, alerting)[i]) is Send <==> i >= 2),
{
}

/// A service that keeps its status is not announced again: after a poll has recorded a status,
/// the next poll with that status sends nothing.
pub proof fn law_same_status_is_announced_once(
    name: Seq<char>,
    first: Seq<char>,
    second: Seq<char>,
    prev: Option<Seq<char>>,
    check: CheckModel,
    next: CheckModel,
    alerting: bool,
)
    requires
        next.status == check.status,
    ensures
        ({
            let recorded = service_plan(name, first, prev, check, alerting)[1];
            let known = recorded->RecordStatus_status;
            let then = service_plan(name, second, Some(known), next, alerting);
            forall|i: int| 0 <= i < then.len() ==> !((#[trigger] then[i]) is Send)
        }),
{
}

/// A service that goes down and comes back is announced twice, the second time as recovered.
pub proof fn law_recovery_is_announced(
    name: Seq<char>,
    first: Seq<char>,
    second: Seq<char>,
    prev: Seq<char>,
    check: CheckModel,
    next: CheckModel,
)
    requires
        prev == "running"@,
        check.status != "running"@,
        next.status == "running"@,
    ensures
        service_plan(name, first, Some(prev), check, true).last() is Send,
        service_plan(name, second, Some(check.status), next, true).last() == (ActionModel::Send {
            message: "[Observatory] "@ + name + " recovered"@,
        }),
{
}

/// Nothing is sent where messages are not wanted.
pub proof fn law_unwanted_messages_are_not_sent(
    node: NodeModel,
    now: Seq<char>,
    prev: Option<Seq<char>>,
    metrics: MetricsModel,
    check: CheckModel,
)
    ensures
        forall|i: int|
            0 <= i < node_plan(node, now, prev, metrics, false).len() ==> !((
            #[trigger] node_plan(node, now, prev, metrics, false)[i]) is Send),
        forall|i: int|
            0 <= i < service_plan(node.name, now, prev, check, false).len() ==> !((
            #[trigger] service_plan(node.name, now, prev, check, false)[i]) is Send),
{
}

/// Every poll of a node records its check, its state and each of its services, in this order, and
/// only then sends messages.
pub proof fn law_node_poll_is_recorded(
    node: NodeModel,
    now: Seq<char>,
    prev: Option<Seq<char>>,
    metrics: MetricsModel,
    alerting: bool,
)
    ensures
        ({
            let plan = node_plan(node, now, prev, metrics, alerting);
            let n = 2 + metrics.service_statuses.len();
            &&& plan.len() == n + node_messages(node, prev, metrics, alerting).len()
            &&& plan[0] is RecordNodeCheck
            &&& plan[1] is RecordNodeState
            &&& plan[1]->RecordNodeState_status == metrics.status
            &&& forall|i: int|
                2 <= i < n ==> (#[trigger] plan[i]) == (ActionModel::RecordNodeService {
                    node: node.name,
                    service: metrics.service_statuses[i - 2].0,
                    at: now,
                    active: metrics.service_statuses[i - 2].1,
                })
            &&& forall|i: int| n <= i < plan.len() ==> (#[trigger] plan[i]) is Send
        }),
{
}

/// A node that stays reachable, or stays unreachable, is not announced as either; one that
/// changes is announced once; and the first poll of a node announces neither.
pub proof fn law_reach_is_announced_on_change(
    name: Seq<char>,
    prev: Option<Seq<char>>,
    status: Seq<char>,
)
    ensures
        reach_messages(name, prev, status).len() == if prev is Some && (prev->0
            == "unreachable"@) != (status == "unreachable"@) {
            1int
        } else {
            0
        },
{
}

/// A node that cannot be reached is never reported as full or busy.
pub proof fn law_lost_node_is_not_full(
    node: NodeModel,
    prev: Option<Seq<char>>,
    report: ReportModel,
    load: Option<CpuLoadModel>,
)
    ensures
        node_messages(node, prev, unreachable_model(), true) == reach_messages(
            node.name,
            prev,
            "unreachable"@,
        ),
        reported_model(report, load, node).status == "unreachable"@ ==> node_messages(
            node,
            prev,
            reported_model(report, load, node),
            true,
        ) == reach_messages(node.name, prev, "unreachable"@),
{
    let none = reach_messages(node.name, prev, "unreachable"@);
    assert(none + Seq::<Seq<char>>::empty() + Seq::<Seq<char>>::empty() =~= none);
    law_unreachable_means_unmeasured(
        report.disk_pct,
        load_value(read_load(report, load)),
        node.disk_alert_threshold,
        node.cpu_alert_threshold,
    );
}

/// A node is announced as full or busy only while its status is `alert`, or `warn` where the
/// warning of its disk hides its load.
pub proof fn law_threshold_messages_match_the_status(
    node: NodeModel,
    report: ReportModel,
    load: Option<CpuLoadModel>,
)
    ensures
        ({
            let metrics = reported_model(report, load, node);
            &&& disk_messages(node, metrics.disk_pct).len() > 0 ==> metrics.status == "alert"@
            &&& cpu_messages(node, metrics.cpu_load).len() > 0 ==> metrics.status == "alert"@
                || metrics.status == "warn"@
            &&& metrics.status == "alert"@ ==> disk_messages(node, metrics.disk_pct).len() > 0
                || cpu_messages(node, metrics.cpu_load).len() > 0
        }),
{
    lemma_statuses_differ();
}

/// The messages of a poll in full, where messages are wanted. Whatever the status was before, a
/// disk at its threshold is announced, and so is a load at its threshold; the disk stands before
/// the load. In front of them stands that the node is lost or is back, if that has changed.
pub proof fn law_thresholds_are_announced_whatever_came_before(
    node: NodeModel,
    prev: Option<Seq<char>>,
    metrics: MetricsModel,
)
    ensures
        ({
            let messages = node_messages(node, prev, metrics, true);
            let full = metrics.disk_pct is Some && metrics.disk_pct->0 >= node.disk_alert_threshold;
            let busy = metrics.cpu_load is Some && metrics.cpu_load->0.value.ge(
                node.cpu_alert_threshold,
            );
            let lost = metrics.status == "unreachable"@;
            let changed = prev is Some && (prev->0 == "unreachable"@) != lost;
            let disk = "[Observatory] "@ + node.name + ": disk "@ + decimal(
                metrics.disk_pct->0 as nat,
            ) + "% full"@;
            let load = "[Observatory] "@ + node.name + ": CPU load "@ + metrics.cpu_load->0.text;
            let a: int = if changed {
                1
            } else {
                0
            };
            let b: int = if full {
                1
            } else {
                0
            };
            let c: int = if busy {
                1
            } else {
                0
            };
            &&& full ==> messages.contains(disk)
            &&& busy ==> messages.contains(load)
            &&& messages.len() == a + b + c
            &&& changed && lost ==> messages[0] == "[Observatory] "@ + node.name
                + " is UNREACHABLE"@
            &&& changed && !lost ==> messages[0] == "[Observatory] "@ + node.name
                + " is back online"@
            &&& full ==> messages[a] == disk
            &&& busy ==> messages[a + b] == load
        }),
        node_messages(node, prev, metrics, false).len() == 0,
{
    let messages = node_messages(node, prev, metrics, true);
    let a: int = reach_messages(node.name, prev, metrics.status).len() as int;
    let b: int = disk_messages(node, metrics.disk_pct).len() as int;
    if disk_messages(node, metrics.disk_pct).len() > 0 {
        assert(messages[a] == disk_messages(node, metrics.disk_pct)[0]);
    }
    if cpu_messages(node, metrics.cpu_load).len() > 0 {
        assert(messages[a + b] == cpu_messages(node, metrics.cpu_load)[0]);
    }
}

/// Two polls that find the same, after different statuses, announce the same of the disk and of the
/// load.
pub proof fn law_thresholds_do_not_depend_on_the_status_before(
    node: NodeModel,
    prev: Option<Seq<char>>,
    other: Option<Seq<char>>,
    metrics: MetricsModel,
)
    ensures
        ({
            let lost = metrics.status == "unreachable"@;
            let a: int = if prev is Some && (prev->0 == "unreachable"@) != lost {
                1
            } else {
                0
            };
            let b: int = if other is Some && (other->0 == "unreachable"@) != lost {
                1
            } else {
                0
            };
            node_messages(node, prev, metrics, true).skip(a) == node_messages(
                node,
                other,
                metrics,
                true,
            ).skip(b)
        }),
{
    let lost = metrics.status == "unreachable"@;
    let a: int = reach_messages(node.name, prev, metrics.status).len() as int;
    let b: int = reach_messages(node.name, other, metrics.status).len() as int;
    assert(node_messages(node, prev, metrics, true).skip(a) =~= node_messages(
        node,
        other,
        metrics,
        true,
    ).skip(b));
}

/// What `node_alerts` returns, in full: for every status before, a disk and a load at their
/// thresholds are announced, behind the message that the node is lost or is back, if that has
/// changed; and nothing is announced where messages are not wanted.
pub proof fn law_polls_announce_full_disks_and_high_loads(
    node: NodeConfig,
    prev: Option<&str>,
    metrics: NodeMetrics,
    returned: Vec<String>,
    unwanted: Vec<String>,
)
    requires
        call_ensures(node_alerts, (&node, prev, &metrics, true), returned),
        call_ensures(node_alerts, (&node, prev, &metrics, false), unwanted),
    ensures
        ({
            let messages = returned.deep_view();
            let full = metrics.disk_pct is Some && metrics.disk_pct->0 >= node.disk_alert_threshold;
            let busy = metrics.cpu_load is Some && metrics.cpu_load->0.value.ge(
                node.cpu_alert_threshold,
            );
            let lost = metrics.status@ == "unreachable"@;
            let changed = prev is Some && (prev->0@ == "unreachable"@) != lost;
            let disk = "[Observatory] "@ + node.name@ + ": disk "@ + decimal(
                metrics.disk_pct->0 as nat,
            ) + "% full"@;
            let load = "[Observatory] "@ + node.name@ + ": CPU load "@ + metrics.cpu_load->0.text@;
            let a: int = if changed {
                1
            } else {
                0
            };
            let b: int = if full {
                a + 1
            } else {
                a
            };
            &&& full ==> messages.contains(disk) && messages[a] == disk
            &&& busy ==> messages.contains(load) && messages[b] == load
            &&& changed && lost ==> messages[0] == "[Observatory] "@ + node.name@
                + " is UNREACHABLE"@
            &&& changed && !lost ==> messages[0] == "[Observatory] "@ + node.name@
                + " is back online"@
            &&& returned@.len() == if busy {
                b + 1
            } else {
                b
            }
        }),
        unwanted@.len() == 0,
{
    assert(returned.deep_view().len() == returned@.len());
    assert(unwanted.deep_view().len() == unwanted@.len());
    law_thresholds_are_announced_whatever_came_before(
        node.deep_view(),
        prev.deep_view(),
        metrics.deep_view(),
    );
}

/// The text of a service's message is fixed by its new status alone, whatever the status was
/// before: it ends in ` recovered` exactly if the service is now running, in ` is DEGRADED` exactly
/// if it is degraded, and in ` is DOWN` otherwise.
pub proof fn law_message_is_fixed_by_the_new_status(
    name: Seq<char>,
    now: Seq<char>,
    prev: Option<Seq<char>>,
    check: CheckModel,
)
    requires
        prev is Some,
        prev->0 != check.status,
    ensures
        ({
            let plan = service_plan(name, now, prev, check, true);
            let message = plan[2]->message;
            let running = check.status == "running"@;
            let degraded = check.status == "degraded"@;
            &&& plan.len() == 3
            &&& plan[2] is Send
            &&& running ==> message == "[Observatory] "@ + name + " recovered"@
            &&& degraded ==> message == "[Observatory] "@ + name + " is DEGRADED"@
            &&& !running && !degraded ==> message == "[Observatory] "@ + name + " is DOWN"@
            &&& " recovered"@.is_suffix_of(message) <==> running
            &&& " is DEGRADED"@.is_suffix_of(message) <==> degraded
            &&& " is DOWN"@.is_suffix_of(message) <==> !running && !degraded
        }),
{
    reveal_strlit("running");
    reveal_strlit("degraded");
    reveal_strlit(" recovered");
    reveal_strlit(" is DEGRADED");
    reveal_strlit(" is DOWN");
    assert("running"@.len() == 7);
    assert("degraded"@.len() == 8);
    let message = service_plan(name, now, prev, check, true)[2]->message;
    let start = "[Observatory] "@ + name;
    let recovered = " recovered"@;
    let degraded = " is DEGRADED"@;
    let down = " is DOWN"@;
    let n: int = message.len() as int;
    assert(recovered.last() == 'd');
    assert(degraded.last() == 'D');
    assert(down.last() == 'N');
    if check.status == "running"@ {
        assert(message == start + recovered);
        assert(message.subrange(n - 10, n) =~= recovered);
    } else if check.status == "degraded"@ {
        assert(message == start + degraded);
        assert(message.subrange(n - 12, n) =~= degraded);
    } else {
        assert(message == start + down);
        assert(message.subrange(n - 8, n) =~= down);
    }
    if recovered.is_suffix_of(message) {
        assert(message.subrange(n - 10, n).last() == message.last());
    }
    if degraded.is_suffix_of(message) {
        assert(message.subrange(n - 12, n).last() == message.last());
    }
    if down.is_suffix_of(message) {
        assert(message.subrange(n - 8, n).last() == message.last());
    }
}

/// Two polls that find the same status and both send a message send the same one.
pub proof fn law_message_does_not_depend_on_the_status_before(
    name: Seq<char>,
    now: Seq<char>,
    prev: Seq<char>,
    other: Seq<char>,
    check: CheckModel,
)
    requires
        prev != check.status,
        other != check.status,
    ensures
        service_plan(name, now, Some(prev), check, true) == service_plan(
            name,
            now,
            Some(other),
            check,
            true,
        ),
{
}

/// What the poll of a service returns, in full: the check, the status, and a message exactly if
/// messages are wanted and the status was known and has changed. The message is fixed by the new
/// status.
pub proof fn law_service_polls_in_full(
    name: &str,
    now: &str,
    prev: Option<&str>,
    check: ServiceCheck,
    alerting: bool,
    actions: Vec<Action>,
)
    requires
        call_ensures(service_actions, (name, now, prev, check, alerting), actions),
    ensures
        ({
            let done = actions.deep_view();
            let sends = alerting && prev is Some && prev->0@ != check.status@;
            &&& actions@.len() == if sends {
                3int
            } else {
                2
            }
            &&& done[0] is RecordCheck
            &&& done[0]->RecordCheck_service == name@
            &&& done[0]->RecordCheck_at == now@
            &&& done[0]->RecordCheck_status == check.status@
            &&& done[0]->response_ms == check.response_ms
            &&& done[0]->status_code == check.status_code
            &&& done[1] is RecordStatus
            &&& done[1]->RecordStatus_service == name@
            &&& done[1]->RecordStatus_at == now@
            &&& done[1]->RecordStatus_status == check.status@
            &&& done[1]->repo_url == check.repo_url.deep_view()
            &&& sends ==> done[2] is Send
            &&& sends && check.status@ == "running"@ ==> done[2]->message == "[Observatory] "@
                + name@ + " recovered"@
            &&& sends && check.status@ == "degraded"@ ==> done[2]->message == "[Observatory] "@
                + name@ + " is DEGRADED"@
            &&& sends && check.status@ != "running"@ && check.status@ != "degraded"@
                ==> done[2]->message == "[Observatory] "@ + name@ + " is DOWN"@
        }),
{
    reveal_strlit("running");
    reveal_strlit("degraded");
    assert("running"@.len() == 7);
    assert("degraded"@.len() == 8);
    assert(actions.deep_view().len() == actions@.len());
}

/// What the poll of a node records: its name, the time, its measures and its status, twice, and
/// what it then sends is its messages in their order.
pub proof fn law_node_polls_in_full(
    node: NodeConfig,
    now: &str,
    prev: Option<&str>,
    metrics: NodeMetrics,
    alerting: bool,
    actions: Vec<Action>,
)
    requires
        call_ensures(node_actions, (&node, now, prev, &metrics, alerting), actions),
    ensures
        ({
            let done = actions.deep_view();
            let n = 2 + metrics.service_statuses@.len() as int;
            let messages = node_messages(
                node.deep_view(),
                prev.deep_view(),
                metrics.deep_view(),
                alerting,
            );
            &&& actions@.len() == n + messages.len()
            &&& done[0] is RecordNodeCheck
            &&& done[0]->RecordNodeCheck_node == node.name@
            &&& done[0]->RecordNodeCheck_at == now@
            &&& done[0]->RecordNodeCheck_disk_pct == metrics.disk_pct
            &&& done[0]->RecordNodeCheck_cpu_load == metrics.cpu_load.deep_view()
            &&& done[0]->RecordNodeCheck_mem_pct == metrics.mem_pct
            &&& done[0]->RecordNodeCheck_status == metrics.status@
            &&& done[1] is RecordNodeState
            &&& done[1]->RecordNodeState_node == node.name@
            &&& done[1]->RecordNodeState_at == now@
            &&& done[1]->RecordNodeState_disk_pct == metrics.disk_pct
            &&& done[1]->RecordNodeState_cpu_load == metrics.cpu_load.deep_view()
            &&& done[1]->RecordNodeState_mem_pct == metrics.mem_pct
            &&& done[1]->RecordNodeState_status == metrics.status@
            &&& forall|i: int|
                0 <= i < metrics.service_statuses@.len() ==> #[trigger] done[2 + i] == (
                ActionModel::RecordNodeService {
                    node: node.name@,
                    service: metrics.service_statuses@[i].0@,
                    at: now@,
                    active: metrics.service_statuses@[i].1,
                })
            &&& forall|i: int|
                0 <= i < messages.len() ==> #[trigger] done[n + i] == (ActionModel::Send {
                    message: messages[i],
                })
        }),
{
    assert(actions.deep_view().len() == actions@.len());
}

/// A service is asked at the address `http` or `https`, its machine, its port and `/health`; over
/// TLS exactly if its manifest says so.
pub proof fn law_where_a_service_is_asked(
    port: u16,
    info: EpsInfoModel,
    ip: Seq<char>,
)
    requires
        info.health_check is Some,
    ensures
        ({
            let step = check_start(port, true, info, ip);
            &&& step is Ask
            &&& step->tls <==> info.tls == Some(true)
            &&& step->repo_url == info.repo_url
            &&& step->tls ==> step->url == "https://"@ + ip + ":"@ + decimal(port as nat)
                + "/health"@
            &&& !step->tls ==> step->url == "http://"@ + ip + ":"@ + decimal(port as nat)
                + "/health"@
        }),
{
    reveal_strlit("https://");
    reveal_strlit("http://");
    reveal_strlit("https");
    reveal_strlit("http");
    reveal_strlit("://");
    assert("https"@ + "://"@ =~= "https://"@);
    assert("http"@ + "://"@ =~= "http://"@);
}

/// A service that was asked is running if it answered with a code from 200 to 299, and degraded
/// otherwise; the time and the code are kept.
pub proof fn law_answers_in_plain_numbers(repo_url: Option<Seq<char>>, ms: i64, code: Option<u16>)
    ensures
        ({
            let check = check_end(repo_url, ms, code);
            let well = code is Some && code->0 >= 200 && code->0 <= 299;
            &&& well ==> check.status == "running"@
            &&& !well ==> check.status == "degraded"@
            &&& check.response_ms == Some(ms)
            &&& check.status_code == code
            &&& check.repo_url == repo_url
        }),
        forall|c: u16| #[trigger] is_success(c) <==> c / 100 == 2,
        PROBE_TIMEOUT_SECS == 2,
{
}

/// What the start and the end of a check return.
pub proof fn law_checks_in_full(
    entry: ServiceEntry,
    listening: bool,
    info: EpsInfo,
    ip: &str,
    step: CheckStep,
    repo_url: Option<String>,
    ms: i64,
    code: Option<u16>,
    check: ServiceCheck,
)
    requires
        call_ensures(check_service, (&entry, listening, info, ip), step),
        call_ensures(finish_check, (repo_url, ms, code), check),
    ensures
        step is Ask <==> listening && info.health_check is Some,
        step is Ask ==> ({
            let probe = step->Ask_0;
            let tls = info.tls == Some(true);
            &&& probe.tls == tls
            &&& probe.repo_url.deep_view() == info.repo_url.deep_view()
            &&& tls ==> probe.url@ == "https://"@ + ip@ + ":"@ + decimal(entry.port as nat)
                + "/health"@
            &&& !tls ==> probe.url@ == "http://"@ + ip@ + ":"@ + decimal(entry.port as nat)
                + "/health"@
        }),
        step is Done ==> ({
            let known = step->Done_0;
            &&& listening ==> known.status@ == "running"@
            &&& !listening ==> known.status@ == "stopped"@
            &&& known.response_ms is None
            &&& known.status_code is None
            &&& known.repo_url.deep_view() == info.repo_url.deep_view()
        }),
        code is Some && 200 <= code->0 <= 299 ==> check.status@ == "running"@,
        !(code is Some && 200 <= code->0 <= 299) ==> check.status@ == "degraded"@,
        check.response_ms == Some(ms),
        check.status_code == code,
        check.repo_url.deep_view() == repo_url.deep_view(),
{
    if listening && info.health_check is Some {
        law_where_a_service_is_asked(entry.port, info.deep_view(), ip@);
    }
}

/// What is known of a service is what its manifest says, part by part; without a manifest, or
/// without the part, nothing is known.
pub proof fn law_manifests_are_read_part_by_part(manifest: Option<EpsManifest>, info: EpsInfo)
    requires
        call_ensures(read_eps_info, (manifest,), info),
    ensures
        manifest is None ==> info.health_check is None && info.tls is None && info.repo_url is None,
        manifest is Some && manifest->0.service is None ==> info.health_check is None
            && info.tls is None,
        manifest is Some && manifest->0.service is Some ==> info.tls == manifest->0.service->0.tls
            && info.health_check.deep_view() == manifest->0.service->0.health_check.deep_view(),
        manifest is Some && manifest->0.package is None ==> info.repo_url is None,
        manifest is Some && manifest->0.package is Some ==> info.repo_url.deep_view()
            == manifest->0.package->0.repository.deep_view(),
{
}

/// The tools are called as they have to be, and what they write is read as it stands: a port is
/// listened on exactly if `lsof` wrote anything, and the address is what `tailscale` wrote.
pub proof fn law_tools_are_called_and_read(
    port: u16,
    lsof: Vec<String>,
    tailscale: Vec<String>,
    stdout: Vec<u8>,
    written: bool,
    missing: bool,
    ip: String,
    no_ip: String,
)
    requires
        call_ensures(lsof_args, (port,), lsof),
        call_ensures(tailscale_args, (), tailscale),
        call_ensures(is_port_listening, (Some(&stdout),), written),
        call_ensures(is_port_listening, (None,), missing),
        call_ensures(tailscale_ip, (Some(stdout),), ip),
        call_ensures(tailscale_ip, (None,), no_ip),
    ensures
        lsof.deep_view() == seq!["-t"@, "-i"@, seq![':'] + decimal(port as nat), "-sTCP:LISTEN"@],
        tailscale.deep_view() == seq!["ip"@, "-4"@],
        written <==> stdout@.len() > 0,
        !missing,
        valid_utf8(stdout@) ==> ip@ == trim(decode_utf8(stdout@)),
        !valid_utf8(stdout@) ==> ip@.len() == 0,
        no_ip@.len() == 0,
{
    reveal_strlit(":");
    assert(":"@ =~= seq![':']);
}

/// What actions, checks and requests hold is what their fields hold.
pub proof fn law_actions_are_seen_as_they_are(action: Action, check: ServiceCheck, step: CheckStep)
    ensures
        match action {
            Action::RecordCheck { service, at, status, response_ms, status_code } => {
                &&& action.deep_view() is RecordCheck
                &&& action.deep_view()->RecordCheck_service == service@
                &&& action.deep_view()->RecordCheck_at == at@
                &&& action.deep_view()->RecordCheck_status == status@
                &&& action.deep_view()->response_ms == response_ms
                &&& action.deep_view()->status_code == status_code
            },
            Action::RecordStatus { service, status, at, repo_url } => {
                &&& action.deep_view() is RecordStatus
                &&& action.deep_view()->RecordStatus_service == service@
                &&& action.deep_view()->RecordStatus_at == at@
                &&& action.deep_view()->RecordStatus_status == status@
                &&& action.deep_view()->repo_url == repo_url.deep_view()
            },
            Action::RecordNodeCheck { node, at, disk_pct, cpu_load, mem_pct, status } => {
                &&& action.deep_view() is RecordNodeCheck
                &&& action.deep_view()->RecordNodeCheck_node == node@
                &&& action.deep_view()->RecordNodeCheck_at == at@
                &&& action.deep_view()->RecordNodeCheck_disk_pct == disk_pct
                &&& action.deep_view()->RecordNodeCheck_cpu_load == cpu_load.deep_view()
                &&& action.deep_view()->RecordNodeCheck_mem_pct == mem_pct
                &&& action.deep_view()->RecordNodeCheck_status == status@
            },
            Action::RecordNodeState { node, status, at, disk_pct, cpu_load, mem_pct } => {
                &&& action.deep_view() is RecordNodeState
                &&& action.deep_view()->RecordNodeState_node == node@
                &&& action.deep_view()->RecordNodeState_at == at@
                &&& action.deep_view()->RecordNodeState_disk_pct == disk_pct
                &&& action.deep_view()->RecordNodeState_cpu_load == cpu_load.deep_view()
                &&& action.deep_view()->RecordNodeState_mem_pct == mem_pct
                &&& action.deep_view()->RecordNodeState_status == status@
            },
            Action::RecordNodeService { node, service, at, active } => {
                &&& action.deep_view() is RecordNodeService
                &&& action.deep_view()->RecordNodeService_node == node@
                &&& action.deep_view()->RecordNodeService_service == service@
                &&& action.deep_view()->RecordNodeService_at == at@
                &&& action.deep_view()->active == active
            },
            Action::Send { message } => {
                &&& action.deep_view() is Send
                &&& action.deep_view()->message == message@
            },
        },
        check.deep_view().status == check.status@,
        check.deep_view().response_ms == check.response_ms,
        check.deep_view().status_code == check.status_code,
        check.deep_view().repo_url == check.repo_url.deep_view(),
        step is Done ==> step.deep_view() is Done,
        step is Ask ==> step.deep_view() is Ask && step.deep_view()->url == step->Ask_0.url@
            && step.deep_view()->tls == step->Ask_0.tls && step.deep_view()->Ask_repo_url
            == step->Ask_0.repo_url.deep_view(),
{
}

} // verus!
