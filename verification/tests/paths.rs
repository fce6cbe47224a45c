use std::path::Path;

use observatory::nodes::nodes_toml_path;
use observatory::paths::{
    db_path, eps_toml_path, home_file, joined_path, log_path, map_path, services_toml_path,
};

#[test]
fn paths_are_joined_as_the_standard_library_joins_them() {
    for base in ["", "/", "/tmp", "/tmp/", "home", "home/", "/a//"] {
        for rel in ["x", "x/y", "/abs", ".epc/nodes.toml", ""] {
            let expect = Path::new(base).join(rel);
            assert_eq!(joined_path(base, rel), expect.to_str().unwrap(), "{base:?} {rel:?}");
        }
    }
}

#[test]
fn files_stand_below_the_home_directory() {
    assert_eq!(services_toml_path(Some("/home/eps")), "/home/eps/.epc/services.toml");
    assert_eq!(nodes_toml_path(Some("/home/eps")), "/home/eps/.epc/nodes.toml");
    assert_eq!(db_path(Some("/home/eps")), "/home/eps/.epc/observatory.db");
    assert_eq!(home_file(Some("/home/eps/"), "x"), "/home/eps/x");
}

#[test]
fn files_stand_below_tmp_without_a_home_directory() {
    assert_eq!(services_toml_path(None), "/tmp/.epc/services.toml");
    assert_eq!(nodes_toml_path(None), "/tmp/.epc/nodes.toml");
    assert_eq!(db_path(None), "/tmp/.epc/observatory.db");
    assert_eq!(log_path(None, "api"), "/tmp/.epm/services/logs/api.log");
}

#[test]
fn the_map_path_can_be_set() {
    assert_eq!(map_path(Some("/srv/map.md"), Some("/home/eps")), "/srv/map.md");
    assert_eq!(map_path(Some(""), None), "");
    assert_eq!(map_path(None, Some("/home/eps")), "/home/eps/.epm/services/code_map.md");
    assert_eq!(map_path(None, None), "/tmp/.epm/services/code_map.md");
}

#[test]
fn manifests_and_logs() {
    assert_eq!(eps_toml_path("/srv/api"), "/srv/api/eps.toml");
    assert_eq!(log_path(Some("/home/eps"), "api"), "/home/eps/.epm/services/logs/api.log");
    assert_ne!(log_path(Some("/home/eps"), "api"), log_path(Some("/home/eps"), "ap"));
}
