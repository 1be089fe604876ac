//! The closed set of templates that new actors are scaffolded from.

pub mod basic;
pub mod http;

use vstd::prelude::*;
use crate::error::RegistryError;
use crate::manifest::HandlerConfig;
use crate::text::{concat_text, replace_all, replaced, same_text};

verus! {

/// A template that a new actor is scaffolded from.
#[derive(Clone, Copy, Debug, PartialEq, Eq, Structural)]
pub enum Template {
    Basic,
    Http,
    Supervisor,
}

/// The template of a given name.
pub open spec fn template_named(n: Seq<char>) -> Option<Template> {
    if n == "basic"@ {
        Some(Template::Basic)
    } else if n == "http"@ {
        Some(Template::Http)
    } else if n == "supervisor"@ {
        Some(Template::Supervisor)
    } else {
        None
    }
}

/// The name of a template.
pub open spec fn template_name_of(t: Template) -> Seq<char> {
    match t {
        Template::Basic => "basic"@,
        Template::Http => "http"@,
        Template::Supervisor => "supervisor"@,
    }
}

/// What a template of a given name makes.
pub open spec fn description_of(n: Seq<char>) -> Seq<char> {
    match template_named(n) {
        Some(Template::Basic) => "A simple actor with message handling capabilities"@,
        Some(Template::Http) => "An HTTP server actor with REST API and WebSocket support"@,
        Some(Template::Supervisor) => "An actor with supervisor capabilities for managing child actors"@,
        None => "Unknown template"@,
    }
}

/// The README of an actor named `name` made from a template without one of its own.
pub open spec fn generic_readme_of(name: Seq<char>, template: Seq<char>) -> Seq<char> {
    "# "@ + name + "\n\nA Theater actor created from the "@ + template
        + " template.\n\n## Building\n\nTo build the actor:\n\n```bash\ncargo build --target wasm32-unknown-unknown --release\n```\n\n## Running\n\nTo run the actor with Theater:\n\n```bash\ntheater start manifest.toml\n```\n"@
}

/// The README of an actor named `name` made from `t`.
pub open spec fn readme_for(t: Template, name: Seq<char>) -> Seq<char> {
    match t {
        Template::Basic => basic::readme_of(name),
        Template::Http => http::readme_of(name),
        Template::Supervisor => generic_readme_of(name, "supervisor"@),
    }
}

/// The placeholder in template text that stands for the actor's name.
pub open spec fn name_placeholder() -> Seq<char> {
    "{{actor_name}}"@
}

impl Template {
    /// The template named `name`; `UnknownTemplate` for any other name.
    pub fn parse(name: &str) -> (r: Result<Template, RegistryError>)
        ensures
            match r {
                Ok(t) => template_named(name@) == Some(t),
                Err(e) => {
                    &&& template_named(name@) is None
                    &&& e matches RegistryError::UnknownTemplate { name: n } && n@ == name@
                },
            },
    {
        if same_text(name, "basic") {
            Ok(Template::Basic)
        } else if same_text(name, "http") {
            Ok(Template::Http)
        } else if same_text(name, "supervisor") {
            Ok(Template::Supervisor)
        } else {
            Err(RegistryError::UnknownTemplate { name: String::from_str(name) })
        }
    }

    /// The template's name.
    pub fn name(&self) -> (r: String)
        ensures
            r@ == template_name_of(*self),
            template_named(r@) == Some(*self),
    {
        proof {
            reveal_strlit("basic");
            reveal_strlit("http");
            reveal_strlit("supervisor");
        }
        match self {
            Template::Basic => String::from_str("basic"),
            Template::Http => {
                assert("http"@ != "basic"@) by {
                    assert("http"@[0] != "basic"@[0]);
                }
                String::from_str("http")
            },
            Template::Supervisor => {
                assert("supervisor"@ != "basic"@) by {
                    assert("supervisor"@[0] != "basic"@[0]);
                }
                assert("supervisor"@ != "http"@) by {
                    assert("supervisor"@[0] != "http"@[0]);
                }
                String::from_str("supervisor")
            },
        }
    }

    /// The README of an actor named `name` made from this template.
    pub fn readme(&self, name: &str) -> (r: String)
        ensures
            r@ == readme_for(*self, name@),
    {
        match self {
            Template::Basic => basic::generate_readme(name),
            Template::Http => http::generate_readme(name),
            Template::Supervisor => {
                let mut s = String::from_str("# ");
                s.append(name);
                s.append("\n\nA Theater actor created from the ");
                s.append("supervisor");
                s.append(
                    " template.\n\n## Building\n\nTo build the actor:\n\n```bash\ncargo build --target wasm32-unknown-unknown --release\n```\n\n## Running\n\nTo run the actor with Theater:\n\n```bash\ntheater start manifest.toml\n```\n",
                );
                s
            },
        }
    }
}

/// The source text of one template, with `{{actor_name}}` placeholders.
pub struct TemplateTexts {
    pub lib_rs: String,
    pub world_wit: String,
}

/// The source text of every template, and the packaging descriptor common to all.
pub struct TemplateLibrary {
    pub basic: TemplateTexts,
    pub http: TemplateTexts,
    pub supervisor: TemplateTexts,
    pub flake_nix: String,
}

impl TemplateLibrary {
    pub open spec fn texts_for(&self, t: Template) -> TemplateTexts {
        match t {
            Template::Basic => self.basic,
            Template::Http => self.http,
            Template::Supervisor => self.supervisor,
        }
    }
}

/// A file to write: its path and its contents.
pub struct ScaffoldFile {
    pub path: String,
    pub contents: String,
}

/// The files that scaffold an actor named `name` at `path` from `t`: its source,
/// its interface world, its README and its packaging descriptor, in that order.
pub open spec fn scaffold_files_of(
    t: Template,
    name: Seq<char>,
    path: Seq<char>,
    lib: TemplateLibrary,
) -> Seq<(Seq<char>, Seq<char>)> {
    seq![
        (path + "/src/lib.rs"@, replaced(lib.texts_for(t).lib_rs@, name_placeholder(), name)),
        (path + "/wit/world.wit"@, replaced(lib.texts_for(t).world_wit@, name_placeholder(), name)),
        (path + "/README.md"@, readme_for(t, name)),
        (path + "/flake.nix"@, replaced(lib.flake_nix@, name_placeholder(), name)),
    ]
}

/// The view of a list of files to write.
pub open spec fn files_view(v: Seq<ScaffoldFile>) -> Seq<(Seq<char>, Seq<char>)> {
    v.map_values(|f: ScaffoldFile| (f.path@, f.contents@))
}

/// The files of an actor made from `t`.
pub fn template_files(t: Template, name: &str, path: &str, lib: &TemplateLibrary) -> (r: Vec<
    ScaffoldFile,
>)
    ensures
        files_view(r@) == scaffold_files_of(t, name@, path@, *lib),
{
    proof {
        reveal_strlit("{{actor_name}}");
    }
    let texts = match t {
        Template::Basic => &lib.basic,
        Template::Http => &lib.http,
        Template::Supervisor => &lib.supervisor,
    };
    let mut v: Vec<ScaffoldFile> = Vec::new();
    v.push(
        ScaffoldFile {
            path: concat_text(path, "/src/lib.rs"),
            contents: replace_all(texts.lib_rs.as_str(), "{{actor_name}}", name),
        },
    );
    v.push(
        ScaffoldFile {
            path: concat_text(path, "/wit/world.wit"),
            contents: replace_all(texts.world_wit.as_str(), "{{actor_name}}", name),
        },
    );
    v.push(ScaffoldFile { path: concat_text(path, "/README.md"), contents: t.readme(name) });
    v.push(
        ScaffoldFile {
            path: concat_text(path, "/flake.nix"),
            contents: replace_all(lib.flake_nix.as_str(), "{{actor_name}}", name),
        },
    );
    assert(files_view(v@) =~= scaffold_files_of(t, name@, path@, *lib));
    v
}

/// The registry of templates.
pub struct TemplateManager;

impl TemplateManager {
    /// The names of the templates: `basic`, `http` and `supervisor`.
    pub fn list_templates() -> (r: Vec<String>)
        ensures
            r@.map_values(|s: String| s@) == seq!["basic"@, "http"@, "supervisor"@],
    {
        let mut v: Vec<String> = Vec::new();
        v.push(String::from_str("basic"));
        v.push(String::from_str("http"));
        v.push(String::from_str("supervisor"));
        assert(v@.map_values(|s: String| s@) =~= seq!["basic"@, "http"@, "supervisor"@]);
        v
    }

    /// What the template named `template_name` makes; "Unknown template" for an
    /// unknown name.
    pub fn get_template_description(template_name: &str) -> (r: &'static str)
        ensures
            r@ == description_of(template_name@),
    {
        match Template::parse(template_name) {
            Ok(Template::Basic) => basic::get_description(),
            Ok(Template::Http) => http::get_description(),
            Ok(Template::Supervisor) => "An actor with supervisor capabilities for managing child actors",
            Err(_) => "Unknown template",
        }
    }

    /// The handlers that an actor made from the template named `template_name`
    /// declares: the runtime alone, for every template.
    pub fn get_template_handlers(template_name: &str) -> (r: Vec<HandlerConfig>)
        ensures
            r@ == seq![HandlerConfig::Runtime],
    {
        match Template::parse(template_name) {
            Ok(Template::Basic) => basic::get_handlers(),
            Ok(Template::Http) => http::get_handlers(),
            _ => {
                let mut v: Vec<HandlerConfig> = Vec::new();
                v.push(HandlerConfig::Runtime);
                assert(v@ =~= seq![HandlerConfig::Runtime]);
                v
            },
        }
    }

    /// The files that make an actor named `name` at `path` from the template
    /// named `template_name`; `UnknownTemplate` for an unknown name.
    pub fn apply_template(template_name: &str, name: &str, path: &str, lib: &TemplateLibrary) -> (r:
        Result<Vec<ScaffoldFile>, RegistryError>)
        ensures
            match template_named(template_name@) {
                Some(t) => r matches Ok(v) && files_view(v@) == scaffold_files_of(
                    t,
                    name@,
                    path@,
                    *lib,
                ),
                None => r matches Err(RegistryError::UnknownTemplate { name: n }) && n@
                    == template_name@,
            },
    {
        let t = Template::parse(template_name)?;
        Ok(template_files(t, name, path, lib))
    }
}

} // verus!
