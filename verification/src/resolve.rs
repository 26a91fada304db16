//! The runtime resolution strategy: choose between a development checkout
//! beside the executable and the synced cache. A development directory,
//! when present, is authoritative and read-only: the sync engine is never
//! invoked for it and nothing is written anywhere.

use vstd::prelude::*;
use vstd::string::*;
use crate::fs_model::MemFs;
use crate::paths::{assets_dir_chars, assets_dir_in, entry_point_chars, entry_point_in};
use crate::registry::Registry;
use crate::sync::{run_sync, sync_spec, outcome_matches, SyncError, SyncOutcome};

verus! {

/// How the bundle is sourced: embedded in the launcher and synced into a
/// per-user cache, or assumed already installed beside the executable.
pub enum BundleSource {
    EmbeddedWithCache,
    InstalledBesideExecutable,
}

/// What the launcher should run from: a directory used directly with no
/// sync, or the cache once the sync engine has brought it up to date.
pub enum RuntimePlan {
    UseDirectory { dir: String },
    SyncCache,
}

/// The executable's own install directory could not be determined.
#[derive(Debug)]
pub struct ResolutionError {}

impl ResolutionError {
    /// A line describing the failure.
    pub fn message(&self) -> (r: String)
        ensures
            r@ == "could not determine the executable's install directory"@,
    {
        "could not determine the executable's install directory".to_owned()
    }
}

/// Why no runnable entry point could be produced.
#[allow(inconsistent_fields)]
pub enum LaunchError {
    Resolution { error: ResolutionError },
    Sync { error: SyncError },
}

/// Chooses what to run from. With an embedded bundle, an assets directory
/// beside the executable is a development override and wins; otherwise
/// the cache is synced. With an installed bundle, the directory beside
/// the executable is used as it stands, and not knowing the executable's
/// directory is an error.
pub fn resolve_plan(
    source: &BundleSource,
    exe_dir: &Option<String>,
    dev_assets_present: bool,
) -> (r: Result<RuntimePlan, ResolutionError>)
    requires
        dev_assets_present ==> exe_dir is Some,
    ensures
        source is EmbeddedWithCache && dev_assets_present ==> (exe_dir matches Some(d)
            && r matches Ok(RuntimePlan::UseDirectory { dir }) && dir@ == assets_dir_chars(
            d@,
        )),
        source is EmbeddedWithCache && !dev_assets_present ==> (r matches Ok(p) && p
            is SyncCache),
        source is InstalledBesideExecutable ==> (exe_dir matches Some(d) ==> (r matches Ok(
            RuntimePlan::UseDirectory { dir },
        ) && dir@ == assets_dir_chars(d@))),
        source is InstalledBesideExecutable && exe_dir is None ==> r is Err,
{
    match source {
        BundleSource::EmbeddedWithCache => {
            if dev_assets_present {
                match exe_dir {
                    Some(d) => Ok(RuntimePlan::UseDirectory { dir: assets_dir_in(d) }),
                    None => {
                        proof {
                            assert(false);
                        }
                        Err(ResolutionError {})
                    },
                }
            } else {
                Ok(RuntimePlan::SyncCache)
            }
        },
        BundleSource::InstalledBesideExecutable => {
            match exe_dir {
                Some(d) => Ok(RuntimePlan::UseDirectory { dir: assets_dir_in(d) }),
                None => Err(ResolutionError {}),
            }
        },
    }
}

/// Resolves the entry point to run, syncing the cache only when no
/// development override applies: the whole strategy, against the injected
/// filesystem. When a development directory is used the filesystem is
/// left untouched, whatever the marker says.
pub fn resolve_entry_point(
    source: &BundleSource,
    exe_dir: &Option<String>,
    dev_assets_present: bool,
    cache_root: &String,
    reg: &Registry,
    fs: &mut MemFs,
) -> (r: Result<String, LaunchError>)
    requires
        reg@.wf(),
        dev_assets_present ==> exe_dir is Some,
    ensures
        source is EmbeddedWithCache && dev_assets_present ==> final(fs)@ == old(fs)@ && (
        exe_dir matches Some(d) ==> (r matches Ok(p) && p@ == entry_point_chars(
            assets_dir_chars(d@),
        ))),
        source is InstalledBesideExecutable ==> final(fs)@ == old(fs)@,
        source is InstalledBesideExecutable ==> (exe_dir matches Some(d) ==> (r matches Ok(
            p,
        ) && p@ == entry_point_chars(assets_dir_chars(d@)))),
        source is InstalledBesideExecutable && exe_dir is None ==> (r matches Err(e) && e
            matches LaunchError::Resolution { .. }),
        source is EmbeddedWithCache && !dev_assets_present ==> ({
            let post = sync_spec(old(fs)@, cache_root@, reg@);
            &&& final(fs)@ == post.fs
            &&& ((post.verdict is UpToDate || post.verdict is Synced) <==> r is Ok)
            &&& (r matches Ok(p) ==> p@ == entry_point_chars(assets_dir_chars(cache_root@)))
            &&& (r matches Err(e) ==> e matches LaunchError::Sync { error }
                && outcome_matches(
                (SyncOutcome::Failed { error }),
                post,
                cache_root@,
                reg@,
            ))
        }),
{
    match resolve_plan(source, exe_dir, dev_assets_present) {
        Ok(RuntimePlan::UseDirectory { dir }) => Ok(entry_point_in(&dir)),
        Ok(RuntimePlan::SyncCache) => {
            match run_sync(fs, cache_root, reg) {
                SyncOutcome::UpToDate { assets_dir } => Ok(entry_point_in(&assets_dir)),
                SyncOutcome::Synced { assets_dir } => Ok(entry_point_in(&assets_dir)),
                SyncOutcome::Failed { error } => Err(LaunchError::Sync { error }),
            }
        },
        Err(error) => Err(LaunchError::Resolution { error }),
    }
}

} // verus!
