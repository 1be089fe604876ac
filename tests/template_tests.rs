use actor_registry::actor::Actor;
use actor_registry::error::RegistryError;
use actor_registry::manifest::HandlerConfig;
use actor_registry::templates::{basic, http, Template, TemplateLibrary, TemplateManager, TemplateTexts};

fn library() -> TemplateLibrary {
    let texts = |lib: &str, wit: &str| TemplateTexts { lib_rs: lib.to_string(), world_wit: wit.to_string() };
    TemplateLibrary {
        basic: texts("struct {{actor_name}};", "world {{actor_name}} {}"),
        http: texts("http {{actor_name}}", "world http-{{actor_name}} {}"),
        supervisor: texts("sup {{actor_name}}", "world sup-{{actor_name}} {}"),
        flake_nix: "pname = \"{{actor_name}}\";".to_string(),
    }
}

#[test]
fn template_names_parse() {
    assert_eq!(Template::parse("basic").unwrap(), Template::Basic);
    assert_eq!(Template::parse("http").unwrap(), Template::Http);
    assert_eq!(Template::parse("supervisor").unwrap(), Template::Supervisor);
    assert!(matches!(Template::parse("Basic"), Err(RegistryError::UnknownTemplate { .. })));
    assert_eq!(Template::Supervisor.name(), "supervisor");
}

#[test]
fn template_list_and_descriptions() {
    assert_eq!(TemplateManager::list_templates(), vec!["basic", "http", "supervisor"]);
    assert_eq!(
        TemplateManager::get_template_description("basic"),
        "A simple actor with message handling capabilities"
    );
    assert_eq!(
        TemplateManager::get_template_description("http"),
        "An HTTP server actor with REST API and WebSocket support"
    );
    assert_eq!(
        TemplateManager::get_template_description("supervisor"),
        "An actor with supervisor capabilities for managing child actors"
    );
    assert_eq!(TemplateManager::get_template_description("other"), "Unknown template");
    assert_eq!(basic::get_description(), "A simple actor with message handling capabilities");
    assert_eq!(http::get_description(), "An HTTP server actor with REST API and WebSocket support");
}

#[test]
fn template_handlers() {
    assert_eq!(TemplateManager::get_template_handlers("basic"), vec![HandlerConfig::Runtime]);
    assert_eq!(TemplateManager::get_template_handlers("other"), vec![HandlerConfig::Runtime]);
    assert_eq!(basic::get_handlers(), vec![HandlerConfig::Runtime]);
    assert_eq!(http::get_handlers(), vec![HandlerConfig::Runtime]);
}

#[test]
fn template_readmes() {
    assert!(basic::generate_readme("foo").starts_with("# foo\n\nA Theater actor created from the basic template."));
    assert!(http::generate_readme("foo").starts_with("# foo\n\nA Theater HTTP server actor."));
    assert!(Template::Supervisor.readme("foo").starts_with("# foo\n\nA Theater actor created from the supervisor template."));
}

#[test]
fn apply_template_substitutes_name() {
    let files = TemplateManager::apply_template("http", "web", "/reg/web", &library()).unwrap();
    let got: Vec<(String, String)> = files.into_iter().map(|f| (f.path, f.contents)).collect();
    assert_eq!(got[0], ("/reg/web/src/lib.rs".to_string(), "http web".to_string()));
    assert_eq!(got[1], ("/reg/web/wit/world.wit".to_string(), "world http-web {}".to_string()));
    assert_eq!(got[2], ("/reg/web/README.md".to_string(), http::generate_readme("web")));
    assert_eq!(got[3], ("/reg/web/flake.nix".to_string(), "pname = \"web\";".to_string()));
    assert!(matches!(
        TemplateManager::apply_template("nope", "web", "/reg/web", &library()),
        Err(RegistryError::UnknownTemplate { .. })
    ));
}

#[test]
fn create_plan_for_basic_actor() {
    let plan = Actor::create("foo", "/reg/foo", false, None, &library()).unwrap();
    assert_eq!(plan.manifest.name, "foo");
    assert_eq!(plan.manifest.component_path, "");
    assert_eq!(
        plan.manifest.short_description.as_deref(),
        Some("A Theater actor created from the basic template.")
    );
    assert_eq!(plan.manifest.handlers, vec![HandlerConfig::Runtime]);
    assert_eq!(plan.cargo_path, "/reg/foo/Cargo.toml");
    assert_eq!(plan.cargo_config.package.name, "foo");
    assert_eq!(plan.cargo_config.package.version, "0.1.0");
    assert_eq!(plan.cargo_config.package.edition, "2021");
    assert_eq!(plan.cargo_config.lib.as_ref().unwrap().crate_type, vec!["cdylib"]);
    let deps: Vec<(&str, &str)> = plan
        .cargo_config
        .dependencies
        .iter()
        .map(|d| (d.name.as_str(), d.spec_json.as_str()))
        .collect();
    assert_eq!(
        deps,
        vec![
            ("serde", "{\"features\":[\"derive\"],\"version\":\"1.0\"}"),
            ("serde_json", "\"1.0\""),
            ("wit-bindgen-rt", "{\"features\":[\"bitflags\"],\"version\":\"0.39.0\"}"),
        ]
    );
    assert_eq!(plan.files[0].contents, "struct foo;");
    assert_eq!(plan.wit_dir, "/reg/foo/wit");
}

#[test]
fn create_plan_refuses_existing_path() {
    assert!(matches!(
        Actor::create("foo", "/reg/foo", true, Some("basic"), &library()),
        Err(RegistryError::AlreadyExists { .. })
    ));
}
