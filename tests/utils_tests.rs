use actor_registry::utils::{actor_name_from_path, format_actor_list, get_actor_file_path};

#[test]
fn actor_name_is_final_component() {
    assert_eq!(actor_name_from_path("/reg/foo"), Some("foo".to_string()));
    assert_eq!(actor_name_from_path("foo"), Some("foo".to_string()));
    assert_eq!(actor_name_from_path("/reg/foo/"), Some("foo".to_string()));
    assert_eq!(actor_name_from_path("/reg/foo/."), Some("foo".to_string()));
    assert_eq!(actor_name_from_path("/reg//foo//"), Some("foo".to_string()));
}

#[test]
fn actor_name_absent_for_unnamed_paths() {
    assert_eq!(actor_name_from_path(""), None);
    assert_eq!(actor_name_from_path("/"), None);
    assert_eq!(actor_name_from_path("."), None);
    assert_eq!(actor_name_from_path("/reg/.."), None);
    assert_eq!(actor_name_from_path(".."), None);
}

#[test]
fn actor_file_paths() {
    assert_eq!(get_actor_file_path("foo", "manifest"), "foo/manifest.toml");
    assert_eq!(get_actor_file_path("foo", "cargo"), "foo/Cargo.toml");
    assert_eq!(get_actor_file_path("foo", "src"), "foo/src/lib.rs");
    assert_eq!(get_actor_file_path("foo", "readme"), "foo/README.md");
    assert_eq!(get_actor_file_path("foo", "flake"), "foo/flake.nix");
    assert_eq!(get_actor_file_path("foo", "wit/world.wit"), "foo/wit/world.wit");
}

#[test]
fn actor_list_empty() {
    assert_eq!(format_actor_list(&vec![], true), "No actors found");
    assert_eq!(format_actor_list(&vec![], false), "No actors found");
}

#[test]
fn actor_list_plain_and_detailed() {
    let names = vec!["a".to_string(), "b".to_string(), "c".to_string()];
    assert_eq!(format_actor_list(&names, false), "a, b, c");
    assert_eq!(format_actor_list(&names, true), "Found 3 actors:\n\n- a\n- b\n- c");
    assert_eq!(format_actor_list(&vec!["x".to_string()], true), "Found 1 actors:\n\n- x");
}
