//! Where the files of the monitor stand.
use crate::names;
use vstd::prelude::*;

verus! {

/// `rel` below the directory `base`, as a path. An absolute `rel` stands for itself.
pub open spec fn join_path(base: Seq<char>, rel: Seq<char>) -> Seq<char> {
    if rel.len() > 0 && rel[0] == '/' {
        rel
    } else if base.len() == 0 || base.last() == '/' {
        base + rel
    } else {
        base + "/"@ + rel
    }
}

/// The home directory, or `/tmp` where there is none.
pub open spec fn home_or_tmp(home: Option<Seq<char>>) -> Seq<char> {
    match home {
        Some(h) => h,
        None => "/tmp"@,
    }
}

/// The home directory, or the empty path where there is none.
pub open spec fn home_or_empty(home: Option<Seq<char>>) -> Seq<char> {
    match home {
        Some(h) => h,
        None => Seq::empty(),
    }
}

/// The directory of the service logs.
pub open spec fn log_dir(home: Option<Seq<char>>) -> Seq<char> {
    join_path(home_or_tmp(home), ".epm/services/logs"@)
}

/// The log file of a service.
pub open spec fn log_file(home: Option<Seq<char>>, service: Seq<char>) -> Seq<char> {
    join_path(log_dir(home), service + ".log"@)
}

/// Whether `s` starts with a slash.
fn starts_with_slash(s: &str) -> (r: bool)
    ensures
        r == (s@.len() > 0 && s@[0] == '/'),
{
    s.unicode_len() > 0 && s.get_char(0) == '/'
}

/// `rel` below the directory `base`, as a path.
pub fn joined_path(base: &str, rel: &str) -> (r: String)
    ensures
        r@ == join_path(base@, rel@),
{
    if starts_with_slash(rel) {
        return rel.to_owned();
    }
    let n: usize = base.unicode_len();
    let mut r = base.to_owned();
    if n > 0 && base.get_char(n - 1) != '/' {
        r.append("/");
    }
    r.append(rel);
    r
}

/// The file `rel` below the home directory, or below `/tmp` where there is no home directory.
pub fn home_file(home: Option<&str>, rel: &str) -> (r: String)
    ensures
        r@ == join_path(home_or_tmp(home.deep_view()), rel@),
{
    match home {
        Some(h) => joined_path(h, rel),
        None => joined_path("/tmp", rel),
    }
}

/// The list of the services to poll.
pub fn services_toml_path(home: Option<&str>) -> (r: String)
    ensures
        r@ == join_path(home_or_tmp(home.deep_view()), ".epc/services.toml"@),
{
    home_file(home, ".epc/services.toml")
}

/// The database of the monitor.
pub fn db_path(home: Option<&str>) -> (r: String)
    ensures
        r@ == join_path(home_or_tmp(home.deep_view()), ".epc/observatory.db"@),
{
    home_file(home, ".epc/observatory.db")
}

/// The code map: the file that the setting `MAP_PATH` names, or else the usual one.
pub fn map_path(setting: Option<&str>, home: Option<&str>) -> (r: String)
    ensures
        r@ == match setting.deep_view() {
            Some(p) => p,
            None => join_path(home_or_tmp(home.deep_view()), ".epm/services/code_map.md"@),
        },
{
    match setting {
        Some(p) => p.to_owned(),
        None => home_file(home, ".epm/services/code_map.md"),
    }
}

/// The manifest of the service in the directory `dir`.
pub fn eps_toml_path(dir: &str) -> (r: String)
    ensures
        r@ == join_path(dir@, "eps.toml"@),
{
    joined_path(dir, "eps.toml")
}

/// The log file of a service.
pub fn log_path(home: Option<&str>, service: &str) -> (r: String)
    ensures
        r@ == log_file(home.deep_view(), service@),
{
    let dir = home_file(home, ".epm/services/logs");
    let mut file = service.to_owned();
    file.append(".log");
    joined_path(dir.as_str(), file.as_str())
}

/// A request for the log of a service with a valid name never leaves the log directory: the path
/// is that of a file directly in it, which is neither the directory itself nor the one above.
pub proof fn law_log_stays_in_its_directory(home: Option<Seq<char>>, service: Seq<char>)
    requires
        names::valid(service),
    ensures
        log_file(home, service) == log_dir(home) + "/"@ + (service + ".log"@),
        !(service + ".log"@).contains('/'),
        service + ".log"@ != "."@,
        service + ".log"@ != ".."@,
{
    names::law_valid_name_is_inert(service);
    reveal_strlit(".log");
    reveal_strlit(".");
    reveal_strlit("..");
    reveal_strlit(".epm/services/logs");
    let file = service + ".log"@;
    assert forall|i: int| 0 <= i < file.len() implies file[i] != '/' by {
        if i < service.len() {
            assert(service.contains(service[i]));
        }
    }
    let rel = ".epm/services/logs"@;
    assert(log_dir(home).last() == rel.last());
    assert(file.len() >= 4);
}

/// Services with different valid names have different log files.
pub proof fn law_logs_are_apart(home: Option<Seq<char>>, a: Seq<char>, b: Seq<char>)
    requires
        names::valid(a),
        names::valid(b),
        log_file(home, a) == log_file(home, b),
    ensures
        a == b,
{
    law_log_stays_in_its_directory(home, a);
    law_log_stays_in_its_directory(home, b);
    let head = log_dir(home) + "/"@;
    let pa = log_file(home, a);
    let pb = log_file(home, b);
    assert(pa.skip(head.len() as int) =~= a + ".log"@);
    assert(pb.skip(head.len() as int) =~= b + ".log"@);
    let fa = a + ".log"@;
    let fb = b + ".log"@;
    assert(fa.take(fa.len() - ".log"@.len()) =~= a);
    assert(fb.take(fb.len() - ".log"@.len()) =~= b);
}

/// A relative path below a directory is the directory, a slash and the path; the slash is not
/// doubled; below nothing it is the path itself; and an absolute path is itself below anything.
pub proof fn law_paths_join_with_one_slash(base: Seq<char>, rel: Seq<char>)
    ensures
        ({
            let absolute = rel.len() > 0 && rel[0] == '/';
            let open = base.len() > 0 && base[base.len() - 1] != '/';
            &&& absolute ==> join_path(base, rel) == rel
            &&& !absolute && open ==> join_path(base, rel) == base + seq!['/'] + rel
            &&& !absolute && !open ==> join_path(base, rel) == base + rel
            &&& base.len() == 0 ==> join_path(base, rel) == rel
        }),
{
    reveal_strlit("/");
    assert("/"@ =~= seq!['/']);
    assert(base.len() == 0 ==> base + rel =~= rel);
}

/// Without a home directory files stand below `/tmp`, and what is looked for in the home directory
/// itself stands below the current directory.
pub proof fn law_home_has_a_stand_in(home: Seq<char>)
    ensures
        home_or_tmp(Some(home)) == home,
        home_or_tmp(None) == "/tmp"@,
        home_or_empty(Some(home)) == home,
        home_or_empty(None) == Seq::<char>::empty(),
{
}

/// The log of a service stands in the directory of logs of the home directory, under the name of
/// the service.
pub proof fn law_where_logs_stand(home: Seq<char>, service: Seq<char>)
    requires
        names::valid(service),
        home.len() > 0,
        home[home.len() - 1] != '/',
    ensures
        log_file(Some(home), service) == home + "/.epm/services/logs/"@ + service + ".log"@,
        log_file(None, service) == "/tmp/.epm/services/logs/"@ + service + ".log"@,
{
    law_log_stays_in_its_directory(Some(home), service);
    law_log_stays_in_its_directory(None, service);
    reveal_strlit("/");
    reveal_strlit("/tmp");
    reveal_strlit(".epm/services/logs");
    reveal_strlit("/.epm/services/logs/");
    reveal_strlit("/tmp/.epm/services/logs/");
    let dir = ".epm/services/logs"@;
    assert("/"@ + dir + "/"@ =~= "/.epm/services/logs/"@);
    assert("/tmp"@ + "/"@ + dir + "/"@ =~= "/tmp/.epm/services/logs/"@);
    assert(log_file(Some(home), service) =~= home + "/.epm/services/logs/"@ + service + ".log"@);
    assert(log_file(None, service) =~= "/tmp/.epm/services/logs/"@ + service + ".log"@);
}

proof fn lemma_below(home: Seq<char>, rel: Seq<char>, whole: Seq<char>)
    requires
        home.len() > 0,
        home.last() != '/',
        rel.len() > 0,
        rel[0] != '/',
        whole == seq!['/'] + rel,
    ensures
        join_path(home, rel) == home + whole,
{
    law_paths_join_with_one_slash(home, rel);
    assert(home + seq!['/'] + rel =~= home + whole);
}

/// The files of the monitor, by their whole paths below a home directory that does not end with a
/// slash.
pub proof fn law_where_files_stand(
    home: &str,
    setting: &str,
    services: String,
    db: String,
    map: String,
    set: String,
    manifest: String,
)
    requires
        home@.len() > 0,
        home@.last() != '/',
        call_ensures(services_toml_path, (Some(home),), services),
        call_ensures(db_path, (Some(home),), db),
        call_ensures(map_path, (None, Some(home)), map),
        call_ensures(map_path, (Some(setting), Some(home)), set),
        call_ensures(eps_toml_path, (home,), manifest),
    ensures
        services@ == home@ + "/.epc/services.toml"@,
        db@ == home@ + "/.epc/observatory.db"@,
        map@ == home@ + "/.epm/services/code_map.md"@,
        set@ == setting@,
        manifest@ == home@ + "/eps.toml"@,
{
    assert(".epc/services.toml"@.len() > 0 && "/.epc/services.toml"@ == seq!['/'] + ".epc/services.toml"@ && ".epc/services.toml"@[0] != '/') by {
        reveal_strlit(".epc/services.toml");
        reveal_strlit("/.epc/services.toml");
    }
    lemma_below(home@, ".epc/services.toml"@, "/.epc/services.toml"@);
    assert(".epc/observatory.db"@.len() > 0 && "/.epc/observatory.db"@ == seq!['/'] + ".epc/observatory.db"@ && ".epc/observatory.db"@[0] != '/') by {
        reveal_strlit(".epc/observatory.db");
        reveal_strlit("/.epc/observatory.db");
    }
    lemma_below(home@, ".epc/observatory.db"@, "/.epc/observatory.db"@);
    assert(".epm/services/code_map.md"@.len() > 0 && "/.epm/services/code_map.md"@ == seq!['/'] + ".epm/services/code_map.md"@ && ".epm/services/code_map.md"@[0] != '/') by {
        reveal_strlit(".epm/services/code_map.md");
        reveal_strlit("/.epm/services/code_map.md");
    }
    lemma_below(home@, ".epm/services/code_map.md"@, "/.epm/services/code_map.md"@);
    assert("eps.toml"@.len() > 0 && "/eps.toml"@ == seq!['/'] + "eps.toml"@ && "eps.toml"@[0] != '/') by {
        reveal_strlit("eps.toml");
        reveal_strlit("/eps.toml");
    }
    lemma_below(home@, "eps.toml"@, "/eps.toml"@);
}

/// Without a home directory the files stand below `/tmp`.
pub proof fn law_where_files_stand_without_a_home(
    rel: &str,
    service: &str,
    file: String,
    same: String,
    services: String,
    db: String,
    map: String,
    log: String,
    log_there: String,
)
    requires
        call_ensures(home_file, (None, rel), file),
        call_ensures(joined_path, ("/tmp", rel), same),
        call_ensures(services_toml_path, (None,), services),
        call_ensures(db_path, (None,), db),
        call_ensures(map_path, (None, None), map),
        call_ensures(log_path, (None, service), log),
        call_ensures(log_path, (Some("/tmp"), service), log_there),
    ensures
        file@ == same@,
        services@ == "/tmp/.epc/services.toml"@,
        db@ == "/tmp/.epc/observatory.db"@,
        map@ == "/tmp/.epm/services/code_map.md"@,
        log@ == log_there@,
{
    reveal_strlit("/");
    reveal_strlit("/tmp");
    reveal_strlit(".epc/services.toml");
    reveal_strlit("/tmp/.epc/services.toml");
    reveal_strlit(".epc/observatory.db");
    reveal_strlit("/tmp/.epc/observatory.db");
    reveal_strlit(".epm/services/code_map.md");
    reveal_strlit("/tmp/.epm/services/code_map.md");
    assert("/tmp"@.last() != '/');
    assert(services@ =~= "/tmp/.epc/services.toml"@);
    assert(db@ =~= "/tmp/.epc/observatory.db"@);
    assert(map@ =~= "/tmp/.epm/services/code_map.md"@);
}

/// What the functions that make paths return.
pub proof fn law_paths_in_full(
    base: &str,
    rel: &str,
    path: String,
    file: String,
    service: &str,
    log: String,
)
    requires
        call_ensures(joined_path, (base, rel), path),
        call_ensures(home_file, (Some(base), rel), file),
        call_ensures(log_path, (Some(base), service), log),
    ensures
        path@ == join_path(base@, rel@),
        file@ == join_path(base@, rel@),
        names::valid(service@) && base@.len() > 0 && base@[base@.len() - 1] != '/' ==> log@ == base@
            + "/.epm/services/logs/"@ + service@ + ".log"@,
{
    if names::valid(service@) && base@.len() > 0 && base@[base@.len() - 1] != '/' {
        law_where_logs_stand(base@, service@);
    }
}

} // verus!
