use actor_registry::actor::{Actor, ActorFiles};
use actor_registry::error::RegistryError;
use actor_registry::lifecycle::{BuildLocks, Timestamp};
use actor_registry::manifest::{ActorManifest, HandlerConfig};
use actor_registry::registry::{DirEntry, PathKind, Registry, RegistryConfig};
use actor_registry::status::BuildStatus;
use actor_registry::templates::{TemplateLibrary, TemplateTexts};

fn manifest(name: &str, component_path: &str) -> ActorManifest {
    ActorManifest {
        name: name.to_string(),
        component_path: component_path.to_string(),
        short_description: None,
        long_description: None,
        init_state: None,
        handlers: vec![HandlerConfig::Runtime],
    }
}

fn files(m: Option<Result<ActorManifest, String>>, exists: bool) -> ActorFiles {
    ActorFiles { manifest: m, cargo_config: None, component_exists: exists }
}

fn registry() -> Registry {
    Registry::new("/reg", PathKind::Directory, None).unwrap()
}

fn library() -> TemplateLibrary {
    let texts = |lib: &str, wit: &str| TemplateTexts { lib_rs: lib.to_string(), world_wit: wit.to_string() };
    TemplateLibrary {
        basic: texts("struct {{actor_name}};", "world {{actor_name}} {}"),
        http: texts("http {{actor_name}}", "world http-{{actor_name}} {}"),
        supervisor: texts("sup {{actor_name}}", "world sup-{{actor_name}} {}"),
        flake_nix: "pname = \"{{actor_name}}\";".to_string(),
    }
}

fn entries() -> Vec<DirEntry> {
    vec![
        DirEntry {
            path: "/reg/alpha".to_string(),
            is_dir: true,
            has_manifest: true,
            files: files(Some(Ok(manifest("alpha", "/out/alpha.wasm"))), true),
        },
        DirEntry {
            path: "/reg/broken".to_string(),
            is_dir: true,
            has_manifest: true,
            files: files(Some(Err("expected `=`".to_string())), false),
        },
        DirEntry {
            path: "/reg/notes.txt".to_string(),
            is_dir: false,
            has_manifest: false,
            files: files(None, false),
        },
        DirEntry {
            path: "/reg/empty".to_string(),
            is_dir: true,
            has_manifest: false,
            files: files(None, false),
        },
        DirEntry {
            path: "/reg/beta".to_string(),
            is_dir: true,
            has_manifest: true,
            files: files(Some(Ok(manifest("beta", ""))), false),
        },
    ]
}

#[test]
fn new_registry_requires_a_directory() {
    assert!(matches!(
        Registry::new("/nope", PathKind::Missing, None),
        Err(RegistryError::NotFound { .. })
    ));
    assert!(matches!(
        Registry::new("/file", PathKind::File, None),
        Err(RegistryError::NotADirectory { .. })
    ));
    let r = registry();
    assert_eq!(r.path(), "/reg");
    assert_eq!(r.config().default_template, "basic");
    assert_eq!(r.config().default_interfaces, vec!["ntwk:theater/actor"]);
    assert!(r.config().build_cache_enabled);
}

#[test]
fn new_registry_keeps_stored_config() {
    let stored = RegistryConfig {
        default_template: "http".to_string(),
        default_interfaces: vec![],
        build_cache_enabled: false,
    };
    let r = Registry::new("/reg", PathKind::Directory, Some(stored)).unwrap();
    assert_eq!(r.config().default_template, "http");
    assert!(!r.config().build_cache_enabled);
    assert_eq!(Registry::config_path("/reg"), "/reg/.registry.config.toml");
}

#[test]
fn find_actor_missing_is_not_found() {
    let r = registry();
    assert!(matches!(
        r.find_actor("ghost", false, files(None, false)),
        Err(RegistryError::NotFound { .. })
    ));
}

#[test]
fn find_actor_derives_status() {
    let r = registry();
    let built = r.find_actor("alpha", true, files(Some(Ok(manifest("alpha", "/out/a.wasm"))), true)).unwrap();
    assert_eq!(built.name, "alpha");
    assert_eq!(built.path, "/reg/alpha");
    assert_eq!(built.build_info.build_status, BuildStatus::Success);
    let gone = r.find_actor("alpha", true, files(Some(Ok(manifest("alpha", "/out/a.wasm"))), false)).unwrap();
    assert_eq!(gone.build_info.build_status, BuildStatus::NotBuilt);
    let bare = r.find_actor("alpha", true, files(None, true)).unwrap();
    assert!(bare.manifest.is_none());
    assert_eq!(bare.build_info.build_status, BuildStatus::NotBuilt);
}

#[test]
fn find_actor_reports_unparsable_manifest() {
    let r = registry();
    match r.find_actor("bad", true, files(Some(Err("expected `=`".to_string())), false)) {
        Err(RegistryError::ConfigurationError { file, diagnostic }) => {
            assert_eq!(file, "/reg/bad/manifest.toml");
            assert_eq!(diagnostic, "expected `=`");
        }
        _ => panic!("expected a configuration error"),
    }
}

#[test]
fn from_path_without_name_is_invalid() {
    assert!(matches!(
        Actor::from_path("/", files(None, false)),
        Err(RegistryError::InvalidPath { .. })
    ));
}

#[test]
fn listing_skips_bad_and_non_actor_entries() {
    let actors = registry().list_actors(entries());
    let names: Vec<&str> = actors.iter().map(|a| a.name.as_str()).collect();
    assert_eq!(names, vec!["alpha", "beta"]);
    assert_eq!(actors[0].build_info.build_status, BuildStatus::Success);
    assert_eq!(actors[1].build_info.build_status, BuildStatus::NotBuilt);
}

#[test]
fn listing_twice_gives_the_same_actors() {
    let r = registry();
    let a = r.list_actors(entries());
    let b = r.list_actors(entries());
    assert_eq!(a.len(), b.len());
    for (x, y) in a.iter().zip(b.iter()) {
        assert_eq!(x.name, y.name);
        assert_eq!(x.path, y.path);
        assert_eq!(x.build_info.build_status, y.build_info.build_status);
    }
}

#[test]
fn listing_of_nothing_is_empty() {
    assert!(registry().list_actors(vec![]).is_empty());
}

#[test]
fn create_actor_on_empty_registry() {
    let plan = registry().create_actor("foo", false, Some("basic"), &library()).unwrap();
    assert_eq!(plan.manifest.name, "foo");
    assert_eq!(plan.manifest.component_path, "");
    assert_eq!(plan.manifest_path, "/reg/foo/manifest.toml");
    assert_eq!(plan.directories, vec!["/reg/foo", "/reg/foo/src", "/reg/foo/wit"]);
    let loaded = Actor::from_path("/reg/foo", files(Some(Ok(plan.manifest.clone())), false)).unwrap();
    assert_eq!(loaded.name, "foo");
    assert_eq!(loaded.build_info.build_status, BuildStatus::NotBuilt);
}

#[test]
fn create_actor_when_directory_exists() {
    match registry().create_actor("foo", true, Some("basic"), &library()) {
        Err(RegistryError::AlreadyExists { name }) => assert_eq!(name, "foo"),
        _ => panic!("expected AlreadyExists"),
    }
}

#[test]
fn create_actor_unknown_template() {
    match registry().create_actor("foo", false, Some("grpc"), &library()) {
        Err(RegistryError::UnknownTemplate { name }) => assert_eq!(name, "grpc"),
        _ => panic!("expected UnknownTemplate"),
    }
}

#[test]
fn build_actor_locks_and_rejects_concurrent_build() {
    let r = registry();
    let mut locks = BuildLocks::new();
    let t = Timestamp { year: 2024, month: 1, day: 2, hour: 3, minute: 4, second: 5 };
    let f = || files(Some(Ok(manifest("foo", ""))), false);
    let first = r.build_actor("foo", true, f(), &mut locks, t).unwrap();
    assert_eq!(first.actor_path, "/reg/foo");
    assert!(first.has_manifest);
    match r.build_actor("foo", true, f(), &mut locks, t) {
        Err(RegistryError::BuildInProgress { name }) => assert_eq!(name, "foo"),
        _ => panic!("expected BuildInProgress"),
    }
    first.finish(&mut locks);
    assert!(r.build_actor("foo", true, f(), &mut locks, t).is_ok());
}

#[test]
fn build_actor_missing_is_not_found() {
    let mut locks = BuildLocks::new();
    let t = Timestamp { year: 2024, month: 1, day: 2, hour: 3, minute: 4, second: 5 };
    assert!(matches!(
        registry().build_actor("ghost", false, files(None, false), &mut locks, t),
        Err(RegistryError::NotFound { .. })
    ));
    assert!(!locks.is_held("/reg/ghost"));
}

#[test]
fn registry_templates_and_interfaces() {
    let r = registry();
    assert_eq!(r.get_templates(), vec!["basic", "http", "supervisor"]);
    assert_eq!(
        r.get_available_interfaces(),
        vec![
            "ntwk:theater/actor",
            "ntwk:theater/message-server-client",
            "ntwk:theater/http-handlers",
            "ntwk:theater/supervisor",
        ]
    );
}
