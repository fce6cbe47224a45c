//! The logs of services, on this machine and on the nodes.
use crate::bytes::{text_lossy, utf8_lossy};
use crate::names::{ascii_alphanumeric, is_valid, law_valid_name_is_inert, valid};
use crate::nodes::{key_path, ssh_args, ssh_arguments, NodeConfig, NodeModel, SshReply, DEFAULT_KEY};
use crate::paths::{home_or_empty, log_file, log_path};
use crate::text::{part, same_text};
use vstd::prelude::*;
use vstd::utf8::{decode_utf8, valid_utf8};

verus! {

/// A refused request: the HTTP status code and the text of the answer.
#[derive(Clone, Debug, PartialEq, Eq)]
pub struct Refusal {
    pub status: u16,
    pub message: String,
}

/// What a `Refusal` holds.
pub struct RefusalModel {
    pub status: u16,
    pub message: Seq<char>,
}

impl DeepView for Refusal {
    type V = RefusalModel;

    open spec fn deep_view(&self) -> RefusalModel {
        RefusalModel { status: self.status, message: self.message@ }
    }
}

// ── Logs on this machine ──────────────────────────────────────────────────────

/// The log file to show for a request, or the refusal of a name that is not valid.
pub fn logs_request(service: &str, home: Option<&str>) -> (r: Result<String, Refusal>)
    ensures
        r is Ok <==> valid(service@),
        r matches Ok(path) ==> path@ == log_file(home.deep_view(), service@),
        r matches Err(refusal) ==> refusal.deep_view() == (RefusalModel {
            status: 400,
            message: "invalid service name"@,
        }),
{
    if !is_valid(service) {
        return Err(Refusal { status: 400, message: "invalid service name".to_owned() });
    }
    Ok(log_path(home, service))
}

/// What is shown as the log at `path`: what it holds, or that it could not be read.
pub fn logs_content(content: Option<String>, path: &str) -> (r: String)
    ensures
        r@ == match content.deep_view() {
            Some(text) => text,
            None => "No log file found at "@ + path@,
        },
{
    match content {
        Some(text) => text,
        None => {
            let mut r = "No log file found at ".to_owned();
            r.append(path);
            r
        },
    }
}

// ── Logs on the nodes ─────────────────────────────────────────────────────────

/// The first node with the name `name`.
pub open spec fn node_named(nodes: Seq<NodeModel>, name: Seq<char>) -> Option<NodeModel>
    decreases nodes.len(),
{
    if nodes.len() == 0 {
        None
    } else if nodes[0].name == name {
        Some(nodes[0])
    } else {
        node_named(nodes.drop_first(), name)
    }
}

/// The path of the key with which a node is asked for logs. Without a home directory, nothing
/// stands in its place.
pub open spec fn logs_key(key: Option<Seq<char>>, home: Option<Seq<char>>) -> Seq<char> {
    match key {
        Some(k) => if k.len() > 0 && k[0] == '~' {
            home_or_empty(home) + k.drop_first()
        } else {
            k
        },
        None => home_or_empty(home) + "/.ssh/id_ed25519"@,
    }
}

/// The command that writes the end of the log of a service.
pub open spec fn journal_command(service: Seq<char>) -> Seq<char> {
    "journalctl -u "@ + service + " --no-pager -n 500 --output=short 2>&1"@
}

/// The arguments with which `ssh` asks a node for the log of a service.
pub open spec fn logs_arguments(
    node: NodeModel,
    service: Seq<char>,
    home: Option<Seq<char>>,
) -> Seq<Seq<char>> {
    ssh_arguments(
        logs_key(node.ssh_key, home),
        node.ssh_user,
        node.host,
        journal_command(service),
    )
}

/// The refusal of a request with a name that is not valid.
pub fn names_refusal(node: &str, service: &str) -> (r: Option<Refusal>)
    ensures
        r is None <==> valid(node@) && valid(service@),
        r matches Some(refusal) ==> refusal.deep_view() == (RefusalModel {
            status: 400,
            message: "invalid name"@,
        }),
{
    if !is_valid(node) || !is_valid(service) {
        Some(Refusal { status: 400, message: "invalid name".to_owned() })
    } else {
        None
    }
}

/// The position of the first node with the name `name`.
fn find_node(nodes: &Vec<NodeConfig>, name: &str) -> (r: Option<usize>)
    ensures
        match r {
            Some(i) => i < nodes@.len() && node_named(nodes.deep_view(), name@) == Some(
                nodes@[i as int].deep_view(),
            ),
            None => node_named(nodes.deep_view(), name@) is None,
        },
{
    let ghost all = nodes.deep_view();
    let mut i: usize = 0;
    assert(all.skip(0) =~= all);
    while i < nodes.len()
        invariant
            i <= nodes@.len(),
            all == nodes.deep_view(),
            node_named(all, name@) == node_named(all.skip(i as int), name@),
        decreases nodes@.len() - i,
    {
        assert(all.skip(i as int)[0] == nodes@[i as int].deep_view());
        if same_text(nodes[i].name.as_str(), name) {
            return Some(i);
        }
        assert(all.skip(i as int).drop_first() =~= all.skip(i as int + 1));
        i = i + 1;
    }
    None
}

/// The path of the key with which a node is asked for logs.
fn logs_key_path(key: &Option<String>, home: Option<&str>) -> (r: String)
    ensures
        r@ == logs_key(key.deep_view(), home.deep_view()),
{
    let mut r = match home {
        Some(h) => h.to_owned(),
        None => String::new(),
    };
    assert(r@ =~= home_or_empty(home.deep_view()));
    match key {
        Some(k) => {
            let n: usize = k.as_str().unicode_len();
            if n > 0 && k.as_str().get_char(0) == '~' {
                let rest = part(k.as_str(), 1, n);
                assert(rest@ =~= k@.drop_first());
                r.append(rest.as_str());
                r
            } else {
                k.clone()
            }
        },
        None => {
            r.append("/.ssh/id_ed25519");
            r
        },
    }
}

/// The arguments with which `ssh` asks for the log of `service` on `node`, or the refusal of a
/// name that is not valid or of a node that is not configured.
pub fn node_logs_request(
    nodes: &Vec<NodeConfig>,
    node: &str,
    service: &str,
    home: Option<&str>,
) -> (r: Result<Vec<String>, Refusal>)
    ensures
        r is Ok <==> valid(node@) && valid(service@) && node_named(nodes.deep_view(), node@)
            is Some,
        r matches Ok(args) ==> args.deep_view() == logs_arguments(
            node_named(nodes.deep_view(), node@)->0,
            service@,
            home.deep_view(),
        ),
        r matches Err(refusal) ==> refusal.deep_view() == if valid(node@) && valid(service@) {
            RefusalModel { status: 404, message: "node '"@ + node@ + "' not found"@ }
        } else {
            RefusalModel { status: 400, message: "invalid name"@ }
        },
{
    if let Some(refusal) = names_refusal(node, service) {
        return Err(refusal);
    }
    match find_node(nodes, node) {
        Some(i) => {
            let found = &nodes[i];
            let key = logs_key_path(&found.ssh_key, home);
            let mut command = "journalctl -u ".to_owned();
            command.append(service);
            command.append(" --no-pager -n 500 --output=short 2>&1");
            Ok(
                ssh_args(
                    key.as_str(),
                    found.ssh_user.as_str(),
                    found.host.as_str(),
                    command.as_str(),
                ),
            )
        },
        None => {
            let mut message = "node '".to_owned();
            message.append(node);
            message.append("' not found");
            Err(Refusal { status: 404, message })
        },
    }
}

/// What is shown of two outputs: the first, or the second where the first is empty.
pub open spec fn shown(stdout: Seq<char>, stderr: Seq<char>) -> Seq<char> {
    if stdout.len() == 0 {
        stderr
    } else {
        stdout
    }
}

/// What is shown of what a program wrote: its output, or its errors where it has no output.
pub fn shown_output(stdout: String, stderr: String) -> (r: String)
    ensures
        r@ == shown(stdout@, stderr@),
{
    if stdout.as_str().is_empty() {
        stderr
    } else {
        stdout
    }
}

/// What is shown as the log of a service on a node: what `ssh` left behind, or the error with
/// which it could not be run.
pub fn node_logs_content(reply: Result<SshReply, String>) -> (r: String)
    ensures
        match reply {
            Ok(reply) => {
                &&& r@ == shown(utf8_lossy(reply.stdout@), utf8_lossy(reply.stderr@))
                &&& valid_utf8(reply.stdout@) && decode_utf8(reply.stdout@).len() > 0 ==> r@
                    == decode_utf8(reply.stdout@)
                &&& valid_utf8(reply.stdout@) && decode_utf8(reply.stdout@).len() == 0 ==> r@
                    == utf8_lossy(reply.stderr@)
                &&& valid_utf8(reply.stdout@) && valid_utf8(reply.stderr@) ==> r@ == shown(
                    decode_utf8(reply.stdout@),
                    decode_utf8(reply.stderr@),
                )
            },
            Err(error) => r@ == "SSH error: "@ + error@,
        },
{
    match reply {
        Ok(reply) => shown_output(text_lossy(&reply.stdout), text_lossy(&reply.stderr)),
        Err(error) => {
            let mut r = "SSH error: ".to_owned();
            r.append(error.as_str());
            r
        },
    }
}

/// The title over the log of `service` on `node`.
pub fn node_logs_title(node: &str, service: &str) -> (r: String)
    ensures
        r@ == node@ + " / "@ + service@,
{
    let mut r = node.to_owned();
    r.append(" / ");
    r.append(service);
    r
}

// ── Laws ──────────────────────────────────────────────────────────────────────

/// The node that a name leads to has that name, is configured, and is the first such node.
pub proof fn law_named_node_is_the_first(nodes: Seq<NodeModel>, name: Seq<char>)
    ensures
        node_named(nodes, name) is None <==> forall|i: int|
            0 <= i < nodes.len() ==> (#[trigger] nodes[i]).name != name,
        node_named(nodes, name) matches Some(node) ==> exists|i: int|
            0 <= i < nodes.len() && #[trigger] nodes[i] == node && node.name == name && forall|
                k: int,
            |
                0 <= k < i ==> (#[trigger] nodes[k]).name != name,
    decreases nodes.len(),
{
    if nodes.len() > 0 {
        if nodes[0].name != name {
            let rest = nodes.drop_first();
            law_named_node_is_the_first(rest, name);
            if let Some(node) = node_named(nodes, name) {
                let i = choose|i: int|
                    0 <= i < rest.len() && #[trigger] rest[i] == node && node.name == name
                        && forall|k: int| 0 <= k < i ==> (#[trigger] rest[k]).name != name;
                assert(nodes[i + 1] == node);
                assert forall|k: int| 0 <= k < i + 1 implies (
                #[trigger] nodes[k]).name != name by {
                    if k > 0 {
                        assert(rest[k - 1].name != name);
                    }
                }
            } else {
                assert forall|k: int| 0 <= k < nodes.len() implies (
                #[trigger] nodes[k]).name != name by {
                    if k > 0 {
                        assert(rest[k - 1].name != name);
                    }
                }
            }
        }
    }
}

/// The command for the log of a service with a valid name runs `journalctl` on that name and
/// nothing else: the name holds no space and, of the ASCII characters, only letters, digits, the
/// underscore and the hyphen.
pub proof fn law_journal_command_is_inert(service: Seq<char>, i: int)
    requires
        valid(service),
        "journalctl -u "@.len() <= i < "journalctl -u "@.len() + service.len(),
    ensures
        journal_command(service)[i] != ' ',
        (journal_command(service)[i] as u32) < 0x80 ==> ascii_alphanumeric(
            journal_command(service)[i],
        ) || journal_command(service)[i] == '_' || journal_command(service)[i] == '-',
{
    law_valid_name_is_inert(service);
    let k = i - "journalctl -u "@.len();
    assert(journal_command(service)[i] == service[k]);
    assert(service.contains(service[k]));
}

/// Where the home directory is known, a node is asked for logs with the key that it is polled
/// with.
pub proof fn law_one_key_per_node(key: Option<Seq<char>>, home: Seq<char>)
    ensures
        logs_key(key, Some(home)) == key_path(
            match key {
                Some(k) => k,
                None => DEFAULT_KEY@,
            },
            Some(home),
        ),
{
    reveal_strlit("~/.ssh/id_ed25519");
    reveal_strlit("/.ssh/id_ed25519");
    assert(DEFAULT_KEY@.drop_first() =~= "/.ssh/id_ed25519"@);
}

/// A log on this machine is shown exactly for valid names, from the log file of that name; any other
/// name is refused with the status 400. A log that cannot be read is said to be missing.
pub proof fn law_local_logs_in_full(
    service: &str,
    home: Option<&str>,
    answer: Result<String, Refusal>,
    text: String,
    path: &str,
    there: String,
    missing: String,
)
    requires
        call_ensures(logs_request, (service, home), answer),
        call_ensures(logs_content, (Some(text), path), there),
        call_ensures(logs_content, (None, path), missing),
    ensures
        valid(service@) ==> answer is Ok && answer->Ok_0@ == log_file(home.deep_view(), service@),
        !valid(service@) ==> answer is Err && answer->Err_0.status == 400
            && answer->Err_0.message@ == "invalid service name"@,
        there@ == text@,
        missing@ == "No log file found at "@ + path@,
{
}

/// The key with which a node is asked for logs: a tilde in front of it stands for the home
/// directory, or for nothing without one, and a node without a key has the usual one.
pub proof fn law_keys_for_logs(key: Seq<char>, home: Option<Seq<char>>)
    ensures
        home is Some ==> logs_key(Some(seq!['~'] + key), home) == home->0 + key,
        home is None ==> logs_key(Some(seq!['~'] + key), home) == key,
        key.len() == 0 || key[0] != '~' ==> logs_key(Some(key), home) == key,
        home is Some ==> logs_key(None, home) == home->0 + "/.ssh/id_ed25519"@,
        home is None ==> logs_key(None, home) == "/.ssh/id_ed25519"@,
{
    assert((seq!['~'] + key).drop_first() =~= key);
    assert(Seq::<char>::empty() + key =~= key);
    assert(Seq::<char>::empty() + "/.ssh/id_ed25519"@ =~= "/.ssh/id_ed25519"@);
}

/// A log on a node is asked for exactly if both names are valid and the node is configured: of that
/// node, as its user, with its key, and for that service. A name that is not valid is refused with
/// the status 400, before the nodes are looked at, and an unknown node with the status 404.
pub proof fn law_node_logs_in_full(
    nodes: Vec<NodeConfig>,
    node: &str,
    service: &str,
    home: Option<&str>,
    answer: Result<Vec<String>, Refusal>,
    refused: Option<Refusal>,
)
    requires
        call_ensures(node_logs_request, (&nodes, node, service, home), answer),
        call_ensures(names_refusal, (node, service), refused),
    ensures
        ({
            let named = valid(node@) && valid(service@);
            let found = exists|i: int|
                0 <= i < nodes@.len() && (#[trigger] nodes@[i]).name@ == node@;
            &&& refused is Some <==> !named
            &&& !named ==> refused->0.status == 400 && refused->0.message@ == "invalid name"@
            &&& answer is Ok <==> named && found
            &&& !named ==> answer->Err_0.status == 400 && answer->Err_0.message@ == "invalid name"@
            &&& named && !found ==> answer->Err_0.status == 404 && answer->Err_0.message@
                == "node '"@ + node@ + "' not found"@
            &&& answer is Ok ==> exists|i: int|
                {
                    &&& 0 <= i < nodes@.len()
                    &&& (#[trigger] nodes@[i]).name@ == node@
                    &&& forall|k: int| 0 <= k < i ==> (#[trigger] nodes@[k]).name@ != node@
                    &&& answer->Ok_0.deep_view().len() == 10
                    &&& answer->Ok_0.deep_view()[1] == logs_key(
                        nodes@[i].ssh_key.deep_view(),
                        home.deep_view(),
                    )
                    &&& answer->Ok_0.deep_view()[8] == nodes@[i].ssh_user@ + seq!['@']
                        + nodes@[i].host@
                    &&& answer->Ok_0.deep_view()[9] == "journalctl -u "@ + service@
                        + " --no-pager -n 500 --output=short 2>&1"@
                }
        }),
{
    let all = nodes.deep_view();
    assert(all.len() == nodes@.len());
    law_named_node_is_the_first(all, node@);
    assert forall|i: int| 0 <= i < all.len() implies #[trigger] all[i] == nodes@[i].deep_view() by {
    }
    reveal_strlit("@");
    assert("@"@ =~= seq!['@']);
    if let Some(found) = node_named(all, node@) {
        let i = choose|i: int|
            0 <= i < all.len() && #[trigger] all[i] == found && found.name == node@ && forall|
                k: int,
            |
                0 <= k < i ==> (#[trigger] all[k]).name != node@;
        assert(nodes@[i].name@ == node@);
        assert forall|k: int| 0 <= k < i implies (#[trigger] nodes@[k]).name@ != node@ by {
            assert(all[k].name != node@);
        }
    } else {
        assert forall|i: int| 0 <= i < nodes@.len() implies (
        #[trigger] nodes@[i]).name@ != node@ by {
            assert(all[i].name != node@);
        }
    }
}

/// What is shown of a log: the output, or the errors if there is no output, or the error with which
/// `ssh` could not be run. Over it stand the names of the node and of the service.
pub proof fn law_shown_logs_in_full(
    stdout: String,
    stderr: String,
    both: String,
    error: String,
    failed: String,
    reply: SshReply,
    content: String,
    node: &str,
    service: &str,
    title: String,
)
    requires
        call_ensures(shown_output, (stdout, stderr), both),
        call_ensures(node_logs_content, (Err(error),), failed),
        call_ensures(node_logs_content, (Ok(reply),), content),
        call_ensures(node_logs_title, (node, service), title),
    ensures
        stdout@.len() > 0 ==> both@ == stdout@,
        stdout@.len() == 0 ==> both@ == stderr@,
        failed@ == "SSH error: "@ + error@,
        valid_utf8(reply.stdout@) && decode_utf8(reply.stdout@).len() > 0 ==> content@
            == decode_utf8(reply.stdout@),
        valid_utf8(reply.stdout@) && decode_utf8(reply.stdout@).len() == 0 && valid_utf8(
            reply.stderr@,
        ) ==> content@ == decode_utf8(reply.stderr@),
        utf8_lossy(reply.stdout@).len() > 0 ==> content@ == utf8_lossy(reply.stdout@),
        utf8_lossy(reply.stdout@).len() == 0 ==> content@ == utf8_lossy(reply.stderr@),
        title@ == node@ + seq![' ', '/', ' '] + service@,
{
    reveal_strlit(" / ");
    assert(" / "@ =~= seq![' ', '/', ' ']);
}

} // verus!
