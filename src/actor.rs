//! An actor: one project directory with its manifest, package descriptor and
//! build status.

use vstd::prelude::*;
use crate::error::RegistryError;
use crate::lifecycle::{BuildLocks, BuildRun, Timestamp};
use crate::manifest::{ActorCargoConfig, ActorManifest, CargoLib, CargoPackage, Dependency, HandlerConfig};
use crate::status::{BuildInfo, BuildStatus};
use crate::templates::{
    files_view, scaffold_files_of, template_files, template_name_of, template_named, ScaffoldFile,
    Template, TemplateLibrary, TemplateManager,
};
use crate::text::concat_text;
use crate::utils::{actor_name_from_path, file_name_of};

verus! {

/// What the caller read from an actor directory. For each of the manifest and
/// the package descriptor: `None` where the file is absent, `Err` with the
/// diagnostic where it could not be read or parsed. `component_exists` says
/// whether the file at the manifest's artifact path exists.
pub struct ActorFiles {
    pub manifest: Option<Result<ActorManifest, String>>,
    pub cargo_config: Option<Result<ActorCargoConfig, String>>,
    pub component_exists: bool,
}

/// A snapshot of one actor directory.
pub struct Actor {
    pub name: String,
    pub path: String,
    pub manifest: Option<ActorManifest>,
    pub cargo_config: Option<ActorCargoConfig>,
    pub build_info: BuildInfo,
}

/// The manifest that was read, if one was.
pub open spec fn manifest_of(f: ActorFiles) -> Option<ActorManifest> {
    match f.manifest {
        Some(Ok(m)) => Some(m),
        _ => None,
    }
}

/// The package descriptor that was read, if one was.
pub open spec fn cargo_of(f: ActorFiles) -> Option<ActorCargoConfig> {
    match f.cargo_config {
        Some(Ok(c)) => Some(c),
        _ => None,
    }
}

/// The status of an actor loaded from disk: `Success` where its manifest names
/// an artifact that exists, `NotBuilt` otherwise.
pub open spec fn derived_status(m: Option<ActorManifest>, component_exists: bool) -> BuildStatus {
    match m {
        Some(m) => if m.component_path@.len() > 0 && component_exists {
            BuildStatus::Success
        } else {
            BuildStatus::NotBuilt
        },
        None => BuildStatus::NotBuilt,
    }
}

/// An actor directory at `path` with files `f` loads: its path has a final
/// component, and neither file that is present failed to read.
pub open spec fn loads(path: Seq<char>, f: ActorFiles) -> bool {
    &&& file_name_of(path) is Some
    &&& !(f.manifest matches Some(Err(_)))
    &&& !(f.cargo_config matches Some(Err(_)))
}

/// `a` is what an actor directory at `path` with files `f` loads as.
pub open spec fn loaded_as(path: Seq<char>, f: ActorFiles, a: Actor) -> bool {
    &&& file_name_of(path) == Some(a.name@)
    &&& a.path@ == path
    &&& a.manifest == manifest_of(f)
    &&& a.cargo_config == cargo_of(f)
    &&& a.build_info == BuildInfo::bare(derived_status(manifest_of(f), f.component_exists))
}

/// The error that loading an actor directory at `path` with files `f` reports,
/// where it does not load.
pub open spec fn load_error(path: Seq<char>, f: ActorFiles, e: RegistryError) -> bool {
    if file_name_of(path) is None {
        e matches RegistryError::InvalidPath { path: p } && p@ == path
    } else if f.manifest matches Some(Err(d)) {
        e matches RegistryError::ConfigurationError { file, diagnostic } && file@ == path
            + "/manifest.toml"@ && f.manifest == Some(Err::<ActorManifest, String>(diagnostic))
    } else {
        e matches RegistryError::ConfigurationError { file, diagnostic } && file@ == path
            + "/Cargo.toml"@ && f.cargo_config == Some(Err::<ActorCargoConfig, String>(diagnostic))
    }
}

/// The package descriptor of a new actor named `name`.
pub open spec fn new_cargo_config(c: ActorCargoConfig, name: Seq<char>) -> bool {
    &&& c.package.name@ == name
    &&& c.package.version@ == "0.1.0"@
    &&& c.package.edition@ == "2021"@
    &&& c.lib matches Some(l) && l.crate_type@.len() == 1 && l.crate_type@[0]@ == "cdylib"@
    &&& c.dependencies@.len() == 3
    &&& c.dependencies@[0].name@ == "serde"@
    &&& c.dependencies@[0].spec_json@ == "{\"features\":[\"derive\"],\"version\":\"1.0\"}"@
    &&& c.dependencies@[1].name@ == "serde_json"@
    &&& c.dependencies@[1].spec_json@ == "\"1.0\""@
    &&& c.dependencies@[2].name@ == "wit-bindgen-rt"@
    &&& c.dependencies@[2].spec_json@ == "{\"features\":[\"bitflags\"],\"version\":\"0.39.0\"}"@
}

/// The manifest of a new actor named `name` made from `t`: no artifact yet.
pub open spec fn new_manifest(m: ActorManifest, name: Seq<char>, t: Template) -> bool {
    &&& m.name@ == name
    &&& m.component_path@.len() == 0
    &&& m.short_description matches Some(d) && d@ == "A Theater actor created from the "@
        + template_name_of(t) + " template."@
    &&& m.long_description is None
    &&& m.init_state is None
    &&& m.handlers@ == seq![HandlerConfig::Runtime]
}

/// Everything that scaffolding a new actor writes: the directories to create,
/// in order; the manifest and package descriptor with their paths; the other
/// files; and the directory into which shared interface files are copied.
pub struct ScaffoldPlan {
    pub directories: Vec<String>,
    pub manifest_path: String,
    pub manifest: ActorManifest,
    pub cargo_path: String,
    pub cargo_config: ActorCargoConfig,
    pub files: Vec<ScaffoldFile>,
    pub wit_dir: String,
}

fn dependency(name: &str, spec_json: &str) -> (r: Dependency)
    ensures
        r.name@ == name@,
        r.spec_json@ == spec_json@,
{
    Dependency { name: String::from_str(name), spec_json: String::from_str(spec_json) }
}

/// The view of an optional text.
pub open spec fn opt_str(o: Option<&str>) -> Option<Seq<char>> {
    match o {
        Some(t) => Some(t@),
        None => None,
    }
}

/// `r` is what planning a new actor named `name` at `path` from the template
/// named `template` (`basic` where none is given) gives: `AlreadyExists` where
/// `path` exists, `UnknownTemplate` for a name outside the template set, and
/// otherwise the plan that scaffolds it.
pub open spec fn create_outcome(
    r: Result<ScaffoldPlan, RegistryError>,
    name: Seq<char>,
    path: Seq<char>,
    path_exists: bool,
    template: Option<Seq<char>>,
    lib: TemplateLibrary,
) -> bool {
    let tn = match template {
        Some(t) => t,
        None => "basic"@,
    };
    if path_exists {
        r matches Err(RegistryError::AlreadyExists { name: n }) && n@ == name
    } else {
        match template_named(tn) {
            None => r matches Err(RegistryError::UnknownTemplate { name: n }) && n@ == tn,
            Some(t) => r matches Ok(plan) && {
                &&& plan.directories@.len() == 3
                &&& plan.directories@[0]@ == path
                &&& plan.directories@[1]@ == path + "/src"@
                &&& plan.directories@[2]@ == path + "/wit"@
                &&& plan.manifest_path@ == path + "/manifest.toml"@
                &&& new_manifest(plan.manifest, name, t)
                &&& plan.cargo_path@ == path + "/Cargo.toml"@
                &&& new_cargo_config(plan.cargo_config, name)
                &&& files_view(plan.files@) == scaffold_files_of(t, name, path, lib)
                &&& plan.wit_dir@ == path + "/wit"@
            },
        }
    }
}

impl Actor {
    /// Loads the actor at `path` from what was read there. The name is the
    /// path's final component (`InvalidPath` where there is none); a manifest or
    /// package descriptor that failed to read gives `ConfigurationError` with the
    /// file and its diagnostic. The status is derived: `Success` where the
    /// manifest names an artifact that exists, else `NotBuilt`.
    pub fn from_path(path: &str, files: ActorFiles) -> (r: Result<Actor, RegistryError>)
        ensures
            match r {
                Ok(a) => loads(path@, files) && loaded_as(path@, files, a),
                Err(e) => !loads(path@, files) && load_error(path@, files, e),
            },
    {
        let name = match actor_name_from_path(path) {
            Some(n) => n,
            None => {
                return Err(RegistryError::InvalidPath { path: String::from_str(path) });
            },
        };
        let ActorFiles { manifest, cargo_config, component_exists } = files;
        let manifest = match manifest {
            Some(Ok(m)) => Some(m),
            Some(Err(d)) => {
                return Err(
                    RegistryError::ConfigurationError {
                        file: concat_text(path, "/manifest.toml"),
                        diagnostic: d,
                    },
                );
            },
            None => None,
        };
        let cargo_config = match cargo_config {
            Some(Ok(c)) => Some(c),
            Some(Err(d)) => {
                return Err(
                    RegistryError::ConfigurationError {
                        file: concat_text(path, "/Cargo.toml"),
                        diagnostic: d,
                    },
                );
            },
            None => None,
        };
        let status = match &manifest {
            Some(m) => if m.component_path.as_str().unicode_len() > 0 && component_exists {
                BuildStatus::Success
            } else {
                BuildStatus::NotBuilt
            },
            None => BuildStatus::NotBuilt,
        };
        Ok(
            Actor {
                name,
                path: String::from_str(path),
                manifest,
                cargo_config,
                build_info: BuildInfo::with_status(status),
            },
        )
    }

    /// Plans a new actor named `name` at `path` from the template named
    /// `template` (`basic` where none is given). `AlreadyExists` where `path`
    /// exists, and `UnknownTemplate` for a name outside the template set; in
    /// either case nothing is to be written.
    pub fn create(
        name: &str,
        path: &str,
        path_exists: bool,
        template: Option<&str>,
        lib: &TemplateLibrary,
    ) -> (r: Result<ScaffoldPlan, RegistryError>)
        ensures
            create_outcome(r, name@, path@, path_exists, opt_str(template), *lib),
    {
        if path_exists {
            return Err(RegistryError::AlreadyExists { name: String::from_str(name) });
        }
        let t = match template {
            Some(tn) => Template::parse(tn)?,
            None => {
                proof {
                    reveal_strlit("basic");
                }
                Template::Basic
            },
        };
        let tname = t.name();
        let mut description = String::from_str("A Theater actor created from the ");
        description.append(tname.as_str());
        description.append(" template.");
        let manifest = ActorManifest {
            name: String::from_str(name),
            component_path: String::new(),
            short_description: Some(description),
            long_description: None,
            init_state: None,
            handlers: TemplateManager::get_template_handlers(tname.as_str()),
        };
        let mut crate_type: Vec<String> = Vec::new();
        crate_type.push(String::from_str("cdylib"));
        let mut dependencies: Vec<Dependency> = Vec::new();
        dependencies.push(dependency("serde", "{\"features\":[\"derive\"],\"version\":\"1.0\"}"));
        dependencies.push(dependency("serde_json", "\"1.0\""));
        dependencies.push(
            dependency("wit-bindgen-rt", "{\"features\":[\"bitflags\"],\"version\":\"0.39.0\"}"),
        );
        let cargo_config = ActorCargoConfig {
            package: CargoPackage {
                name: String::from_str(name),
                version: String::from_str("0.1.0"),
                edition: String::from_str("2021"),
            },
            lib: Some(CargoLib { crate_type }),
            dependencies,
        };
        let mut directories: Vec<String> = Vec::new();
        directories.push(String::from_str(path));
        directories.push(concat_text(path, "/src"));
        directories.push(concat_text(path, "/wit"));
        Ok(
            ScaffoldPlan {
                directories,
                manifest_path: concat_text(path, "/manifest.toml"),
                manifest,
                cargo_path: concat_text(path, "/Cargo.toml"),
                cargo_config,
                files: template_files(t, name, path, lib),
                wit_dir: concat_text(path, "/wit"),
            },
        )
    }

    /// Starts a build of this actor at `started`. `BuildInProgress` where a build
    /// of the same actor directory is running; otherwise the directory is locked
    /// until the run is finished.
    pub fn build(&self, locks: &mut BuildLocks, started: Timestamp) -> (r: Result<
        BuildRun,
        RegistryError,
    >)
        ensures
            final(locks)@ == old(locks)@.insert(self.path@),
            old(locks)@.contains(self.path@) ==> (r matches Err(
                RegistryError::BuildInProgress { name: n },
            ) && n@ == self.name@),
            !old(locks)@.contains(self.path@) ==> (r matches Ok(run) && {
                &&& run.actor_name@ == self.name@
                &&& run.actor_path@ == self.path@
                &&& run.started == started
                &&& run.has_manifest == self.manifest is Some
            }),
    {
        if !locks.try_acquire(self.path.as_str()) {
            return Err(RegistryError::BuildInProgress { name: self.name.clone() });
        }
        Ok(
            BuildRun {
                actor_name: self.name.clone(),
                actor_path: self.path.clone(),
                started,
                has_manifest: self.manifest.is_some(),
            },
        )
    }
}

} // verus!
