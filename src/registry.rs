//! The registry: a root directory of actors and its configuration.

use vstd::prelude::*;
use crate::actor::{
    create_outcome, load_error, loaded_as, loads, opt_str, Actor, ActorFiles, ScaffoldPlan,
};
use crate::error::RegistryError;
use crate::lifecycle::{BuildLocks, BuildRun, Timestamp};
use crate::templates::{TemplateLibrary, TemplateManager};

verus! {

/// Registry-wide settings.
#[derive(Clone, Debug)]
pub struct RegistryConfig {
    /// The template used where a caller names none.
    pub default_template: String,
    pub default_interfaces: Vec<String>,
    /// Declared for a build cache; nothing consults it.
    pub build_cache_enabled: bool,
}

/// The default configuration: the `basic` template, the actor interface, and the
/// cache flag on.
pub open spec fn is_default_config(c: RegistryConfig) -> bool {
    &&& c.default_template@ == "basic"@
    &&& c.default_interfaces@.len() == 1
    &&& c.default_interfaces@[0]@ == "ntwk:theater/actor"@
    &&& c.build_cache_enabled
}

impl Default for RegistryConfig {
    fn default() -> (r: RegistryConfig)
        ensures
            is_default_config(r),
    {
        let mut interfaces: Vec<String> = Vec::new();
        interfaces.push(String::from_str("ntwk:theater/actor"));
        RegistryConfig {
            default_template: String::from_str("basic"),
            default_interfaces: interfaces,
            build_cache_enabled: true,
        }
    }
}

/// What lies at a path.
#[derive(Clone, Copy, Debug, PartialEq, Eq, Structural)]
pub enum PathKind {
    Missing,
    File,
    Directory,
}

/// One entry directly under the registry root, as the caller found it:
/// whether it is a directory, whether it holds a manifest file, and what was read
/// from it.
pub struct DirEntry {
    pub path: String,
    pub is_dir: bool,
    pub has_manifest: bool,
    pub files: ActorFiles,
}

/// An entry is listed: a directory with a manifest that loads.
pub open spec fn listed(e: DirEntry) -> bool {
    e.is_dir && e.has_manifest && loads(e.path@, e.files)
}

/// `r` is the listing of `es`: the actors that the listed entries load as, in
/// the entries' order.
pub open spec fn listing_of(es: Seq<DirEntry>, r: Seq<Actor>) -> bool
    decreases es.len(),
{
    if es.len() == 0 {
        r.len() == 0
    } else if listed(es.last()) {
        r.len() > 0 && loaded_as(es.last().path@, es.last().files, r.last()) && listing_of(
            es.drop_last(),
            r.drop_last(),
        )
    } else {
        listing_of(es.drop_last(), r)
    }
}

/// The number of entries that are listed.
pub open spec fn listed_count(es: Seq<DirEntry>) -> nat
    decreases es.len(),
{
    if es.len() == 0 {
        0
    } else {
        listed_count(es.drop_last()) + if listed(es.last()) {
            1nat
        } else {
            0nat
        }
    }
}

/// The file under a registry root that holds its configuration.
pub open spec fn config_path_of(root: Seq<char>) -> Seq<char> {
    root + "/.registry.config.toml"@
}

/// A root directory of actors with its configuration.
pub struct Registry {
    path: String,
    config: RegistryConfig,
}

impl Registry {
    pub closed spec fn root(&self) -> Seq<char> {
        self.path@
    }

    pub closed spec fn settings(&self) -> RegistryConfig {
        self.config
    }

    /// The configuration file under `root`.
    pub fn config_path(root: &str) -> (r: String)
        ensures
            r@ == config_path_of(root@),
    {
        let mut s = String::from_str(root);
        s.append("/.registry.config.toml");
        s
    }

    /// Opens the registry rooted at `path`, of kind `kind`, with the configuration
    /// stored under it where there is one and the default otherwise (which the
    /// caller then stores). `NotFound` where nothing is at `path`, `NotADirectory`
    /// where a file is.
    pub fn new(path: &str, kind: PathKind, stored: Option<RegistryConfig>) -> (r: Result<
        Registry,
        RegistryError,
    >)
        ensures
            kind == PathKind::Missing ==> (r matches Err(RegistryError::NotFound { name: n }) && n@
                == path@),
            kind == PathKind::File ==> (r matches Err(RegistryError::NotADirectory { path: p })
                && p@ == path@),
            kind == PathKind::Directory ==> (r matches Ok(reg) && reg.root() == path@ && match stored {
                Some(c) => reg.settings() == c,
                None => is_default_config(reg.settings()),
            }),
    {
        match kind {
            PathKind::Missing => Err(RegistryError::NotFound { name: String::from_str(path) }),
            PathKind::File => Err(RegistryError::NotADirectory { path: String::from_str(path) }),
            PathKind::Directory => {
                let config = match stored {
                    Some(c) => c,
                    None => RegistryConfig::default(),
                };
                Ok(Registry { path: String::from_str(path), config })
            },
        }
    }

    /// The root directory.
    pub fn path(&self) -> (r: &str)
        ensures
            r@ == self.root(),
    {
        self.path.as_str()
    }

    /// The configuration.
    pub fn config(&self) -> (r: &RegistryConfig)
        ensures
            *r == self.settings(),
    {
        &self.config
    }

    /// The directory of the actor named `name`: `<root>/<name>`.
    pub fn actor_path(&self, name: &str) -> (r: String)
        ensures
            r@ == self.root() + "/"@ + name@,
    {
        let mut s = self.path.clone();
        s.append("/");
        s.append(name);
        s
    }

    /// The actor named `name`, from what was read at its directory; `NotFound`
    /// where the directory does not exist.
    pub fn find_actor(&self, name: &str, exists: bool, files: ActorFiles) -> (r: Result<
        Actor,
        RegistryError,
    >)
        ensures
            ({
                let p = self.root() + "/"@ + name@;
                if !exists {
                    r matches Err(RegistryError::NotFound { name: n }) && n@ == name@
                } else {
                    match r {
                        Ok(a) => loads(p, files) && loaded_as(p, files, a),
                        Err(e) => !loads(p, files) && load_error(p, files, e),
                    }
                }
            }),
    {
        if !exists {
            return Err(RegistryError::NotFound { name: String::from_str(name) });
        }
        let p = self.actor_path(name);
        Actor::from_path(p.as_str(), files)
    }

    /// The actors among the entries under the root: each directory that holds a
    /// manifest and loads, in the entries' order. An entry that fails to load is
    /// left out and does not stop the listing.
    pub fn list_actors(&self, entries: Vec<DirEntry>) -> (r: Vec<Actor>)
        ensures
            listing_of(entries@, r@),
            r@.len() == listed_count(entries@),
    {
        let ghost all = entries@;
        let n = entries.len();
        let mut rest = entries;
        let mut actors: Vec<Actor> = Vec::new();
        let mut i: usize = 0;
        while i < n
            invariant
                n == all.len(),
                i <= n,
                rest@ == all.subrange(i as int, n as int),
                listing_of(all.subrange(0, i as int), actors@),
                actors@.len() == listed_count(all.subrange(0, i as int)),
            decreases n - i,
        {
            let e = rest.remove(0);
            proof {
                assert(e == all[i as int]);
                assert(all.subrange(0, i + 1).drop_last() =~= all.subrange(0, i as int));
                assert(all.subrange(0, i + 1).last() == all[i as int]);
                assert(rest@ =~= all.subrange(i + 1, n as int));
            }
            let DirEntry { path, is_dir, has_manifest, files } = e;
            if is_dir && has_manifest {
                match Actor::from_path(path.as_str(), files) {
                    Ok(a) => {
                        let ghost before = actors@;
                        actors.push(a);
                        proof {
                            assert(actors@.drop_last() =~= before);
                        }
                    },
                    Err(_) => {},
                }
            }
            i = i + 1;
        }
        proof {
            assert(all.subrange(0, n as int) =~= all);
        }
        actors
    }

    /// Plans the actor named `name` under the root from the template named
    /// `template`; `AlreadyExists` where its directory exists. See
    /// [`Actor::create`].
    pub fn create_actor(
        &self,
        name: &str,
        exists: bool,
        template: Option<&str>,
        lib: &TemplateLibrary,
    ) -> (r: Result<ScaffoldPlan, RegistryError>)
        ensures
            create_outcome(r, name@, self.root() + "/"@ + name@, exists, opt_str(template), *lib),
    {
        if exists {
            return Err(RegistryError::AlreadyExists { name: String::from_str(name) });
        }
        let p = self.actor_path(name);
        Actor::create(name, p.as_str(), false, template, lib)
    }

    /// Starts a build of the actor named `name`: finds it as
    /// [`Registry::find_actor`] does, then starts as [`Actor::build`] does.
    pub fn build_actor(
        &self,
        name: &str,
        exists: bool,
        files: ActorFiles,
        locks: &mut BuildLocks,
        started: Timestamp,
    ) -> (r: Result<BuildRun, RegistryError>)
        ensures
            ({
                let p = self.root() + "/"@ + name@;
                if !exists {
                    &&& r matches Err(RegistryError::NotFound { name: n }) && n@ == name@
                    &&& final(locks)@ == old(locks)@
                } else if !loads(p, files) {
                    &&& r matches Err(e) && load_error(p, files, e)
                    &&& final(locks)@ == old(locks)@
                } else if old(locks)@.contains(p) {
                    &&& r matches Err(RegistryError::BuildInProgress { .. })
                    &&& final(locks)@ == old(locks)@
                } else {
                    &&& r matches Ok(run) && run.actor_path@ == p && Some(run.actor_name@)
                        == crate::utils::file_name_of(p) && run.started == started
                    &&& final(locks)@ == old(locks)@.insert(p)
                }
            }),
    {
        let actor = self.find_actor(name, exists, files)?;
        proof {
            if old(locks)@.contains(actor.path@) {
                assert(old(locks)@.insert(actor.path@) =~= old(locks)@);
            }
        }
        actor.build(locks, started)
    }

    /// The names of the templates that actors can be made from.
    pub fn get_templates(&self) -> (r: Vec<String>)
        ensures
            r@.map_values(|s: String| s@) == seq!["basic"@, "http"@, "supervisor"@],
    {
        TemplateManager::list_templates()
    }

    /// The interfaces that actors commonly implement or use.
    pub fn get_available_interfaces(&self) -> (r: Vec<String>)
        ensures
            r@.map_values(|s: String| s@) == seq![
                "ntwk:theater/actor"@,
                "ntwk:theater/message-server-client"@,
                "ntwk:theater/http-handlers"@,
                "ntwk:theater/supervisor"@,
            ],
    {
        let mut v: Vec<String> = Vec::new();
        v.push(String::from_str("ntwk:theater/actor"));
        v.push(String::from_str("ntwk:theater/message-server-client"));
        v.push(String::from_str("ntwk:theater/http-handlers"));
        v.push(String::from_str("ntwk:theater/supervisor"));
        assert(v@.map_values(|s: String| s@) =~= seq![
            "ntwk:theater/actor"@,
            "ntwk:theater/message-server-client"@,
            "ntwk:theater/http-handlers"@,
            "ntwk:theater/supervisor"@,
        ]);
        v
    }
}

/// Listing the same entries twice gives the same actors, in the same order,
/// with the same statuses.
pub proof fn lemma_listing_deterministic(es: Seq<DirEntry>, r1: Seq<Actor>, r2: Seq<Actor>)
    requires
        listing_of(es, r1),
        listing_of(es, r2),
    ensures
        r1.len() == r2.len(),
        forall|i: int|
            0 <= i < r1.len() ==> {
                &&& r1[i].name@ == r2[i].name@
                &&& r1[i].path@ == r2[i].path@
                &&& r1[i].manifest == r2[i].manifest
                &&& r1[i].cargo_config == r2[i].cargo_config
                &&& r1[i].build_info == r2[i].build_info
            },
    decreases es.len(),
{
    if es.len() > 0 {
        if listed(es.last()) {
            lemma_listing_deterministic(es.drop_last(), r1.drop_last(), r2.drop_last());
            assert forall|i: int| 0 <= i < r1.len() - 1 implies r1[i] == r1.drop_last()[i]
                && r2[i] == r2.drop_last()[i] by {}
        } else {
            lemma_listing_deterministic(es.drop_last(), r1, r2);
        }
    }
}

/// An entry whose manifest could not be read adds nothing to a listing and
/// takes nothing from it: the listing is exactly that of the other entries.
pub proof fn lemma_unreadable_manifest_skipped(es: Seq<DirEntry>, k: int, r: Seq<Actor>)
    requires
        listing_of(es, r),
        0 <= k < es.len(),
        es[k].files.manifest matches Some(Err(_)),
    ensures
        listing_of(es.remove(k), r),
    decreases es.len(),
{
    if k == es.len() - 1 {
        assert(es.remove(k) =~= es.drop_last());
    } else {
        let rest = es.remove(k);
        assert(rest.last() == es.last());
        assert(rest.drop_last() =~= es.drop_last().remove(k));
        if listed(es.last()) {
            lemma_unreadable_manifest_skipped(es.drop_last(), k, r.drop_last());
        } else {
            lemma_unreadable_manifest_skipped(es.drop_last(), k, r);
        }
    }
}

} // verus!
