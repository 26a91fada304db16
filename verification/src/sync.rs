//! The version-gated sync engine. The engine itself performs no I/O: it
//! hands out actions (read the marker, write one asset, write the marker)
//! and consumes the results, so a caller can drive it against any
//! filesystem. `run_sync` drives it against the model filesystem and is
//! proved equal to the mathematical `sync_spec`; the lemmas at the end
//! state the engine's guarantees: an up-to-date cache is never written,
//! a changed version forces a full rewrite, and a failed sync leaves the
//! marker untouched so the next run starts over.

use vstd::prelude::*;
use vstd::string::*;
use crate::fs_model::{FsSnap, MemFs};
use crate::paths::{
    asset_path_chars, asset_path_in, assets_dir_chars, assets_dir_in, marker_path_chars,
    marker_path_in, parent_dir_chars, parent_dir_in, lemma_asset_path_ne_marker,
    lemma_asset_path_injective,
};
use crate::registry::{Registry, RegistryV};
use crate::text::{marker_line_matches, line_matches_version};

verus! {

/// What a sync attempt can report, each failure with the offending path
/// and its underlying cause.
pub enum SyncError {
    DirectoryCreation { path: String, cause: String },
    FileWrite { path: String, cause: String },
    VersionMarkerWrite { path: String, cause: String },
}

impl SyncError {
    /// A line describing the failure: what could not be done, to which
    /// path, and the underlying cause.
    pub fn message(&self) -> (r: String)
        ensures
            self matches SyncError::DirectoryCreation { path, cause } ==> r@
                == "failed to create directory "@ + path@ + ": "@ + cause@,
            self matches SyncError::FileWrite { path, cause } ==> r@ == "failed to write "@
                + path@ + ": "@ + cause@,
            self matches SyncError::VersionMarkerWrite { path, cause } ==> r@
                == "failed to write version file "@ + path@ + ": "@ + cause@,
    {
        match self {
            SyncError::DirectoryCreation { path, cause } => "failed to create directory "
                .to_owned()
                .concat(path.as_str())
                .concat(": ")
                .concat(cause.as_str()),
            SyncError::FileWrite { path, cause } => "failed to write "
                .to_owned()
                .concat(path.as_str())
                .concat(": ")
                .concat(cause.as_str()),
            SyncError::VersionMarkerWrite { path, cause } => "failed to write version file "
                .to_owned()
                .concat(path.as_str())
                .concat(": ")
                .concat(cause.as_str()),
        }
    }
}

/// The result of a sync attempt; on success, the directory holding the
/// synced assets.
pub enum SyncOutcome {
    UpToDate { assets_dir: String },
    Synced { assets_dir: String },
    Failed { error: SyncError },
}

/// One filesystem step the engine asks its caller to perform.
pub enum SyncAction {
    ReadMarker { path: String },
    WriteAsset { dir: String, path: String, content: String },
    WriteMarker { path: String, content: String },
}

/// How writing one asset went: the parent directory could not be created,
/// or the file itself could not be written, or both steps succeeded.
pub enum AssetWriteResult {
    Success,
    DirectoryFailed { cause: String },
    FileFailed { cause: String },
}

/// The marker recorded under `root`, if any.
pub open spec fn marker_of(fs: FsSnap, root: Seq<char>) -> Option<Seq<char>> {
    if fs.files.contains_key(marker_path_chars(root)) {
        Some(fs.files[marker_path_chars(root)])
    } else {
        None
    }
}

/// Whether the marker under `root` records exactly this version.
pub open spec fn marker_current(fs: FsSnap, root: Seq<char>, version: Seq<char>) -> bool {
    marker_of(fs, root) matches Some(m) && marker_line_matches(m, version)
}

/// How a sync ends in the model: the marker already matched, or every
/// asset and the marker were written, or writing stopped at one asset or
/// at the marker.
pub ghost enum SyncVerdict {
    UpToDate,
    Synced,
    FailedAsset { index: int },
    FailedMarker,
}

/// A sync's mathematical result: the filesystem it leaves and its verdict.
#[verifier::ext_equal]
pub ghost struct SyncPost {
    pub fs: FsSnap,
    pub verdict: SyncVerdict,
}

/// Writing assets `i..` of the registry, then the marker: each asset step
/// creates the asset's parent directory and overwrites the asset; the
/// first refused write stops the sync, and the marker is written only
/// after every asset succeeded.
pub open spec fn sync_from(fs: FsSnap, root: Seq<char>, reg: RegistryV, i: int) -> SyncPost
    decreases reg.entries.len() - i,
{
    if i < 0 || i >= reg.entries.len() {
        if fs.can_write() {
            SyncPost {
                fs: fs.after_write(marker_path_chars(root), reg.version),
                verdict: SyncVerdict::Synced,
            }
        } else {
            SyncPost { fs, verdict: SyncVerdict::FailedMarker }
        }
    } else {
        let e = reg.entries[i];
        let fs1 = fs.after_mkdir(parent_dir_chars(root, e.path));
        if fs1.can_write() {
            sync_from(
                fs1.after_write(asset_path_chars(root, e.path), e.content),
                root,
                reg,
                i + 1,
            )
        } else {
            SyncPost { fs: fs1, verdict: SyncVerdict::FailedAsset { index: i } }
        }
    }
}

/// The whole sync: nothing at all happens when the marker already records
/// the registry's version; otherwise every asset is rewritten and the
/// marker recorded last.
pub open spec fn sync_spec(fs: FsSnap, root: Seq<char>, reg: RegistryV) -> SyncPost {
    if marker_current(fs, root, reg.version) {
        SyncPost { fs, verdict: SyncVerdict::UpToDate }
    } else {
        sync_from(fs, root, reg, 0)
    }
}

/// Whether an executable outcome reports the model verdict, with the
/// right directory on success and the right offending path on failure.
pub open spec fn outcome_matches(
    r: SyncOutcome,
    post: SyncPost,
    root: Seq<char>,
    reg: RegistryV,
) -> bool {
    match post.verdict {
        SyncVerdict::UpToDate => r matches SyncOutcome::UpToDate { assets_dir }
            && assets_dir@ == assets_dir_chars(root),
        SyncVerdict::Synced => r matches SyncOutcome::Synced { assets_dir } && assets_dir@
            == assets_dir_chars(root),
        SyncVerdict::FailedAsset { index } => {
            &&& r matches SyncOutcome::Failed { error }
            &&& error matches SyncError::FileWrite { path, cause }
            &&& path@ == asset_path_chars(root, reg.entries[index].path)
        },
        SyncVerdict::FailedMarker => {
            &&& r matches SyncOutcome::Failed { error }
            &&& error matches SyncError::VersionMarkerWrite { path, cause }
            &&& path@ == marker_path_chars(root)
        },
    }
}

/// Where the engine stands between events.
enum EngineState {
    AwaitMarker,
    WritingAsset { index: usize },
    WritingMarker,
    Finished,
}

/// The ghost mirror of the engine's position.
pub ghost enum EngineStateV {
    AwaitMarker,
    WritingAsset { index: int },
    WritingMarker,
    Finished,
}

/// The ghost value of a sync engine.
pub ghost struct SyncEngineV {
    pub root: Seq<char>,
    pub reg: RegistryV,
    pub state: EngineStateV,
}

impl SyncEngineV {
    /// The registry is well formed and the position is within it.
    pub open spec fn wf(self) -> bool {
        &&& self.reg.wf()
        &&& self.state matches EngineStateV::WritingAsset { index } ==> 0 <= index
            < self.reg.entries.len()
    }
}

/// The version-gated sync engine: decides what to do next from the events
/// its caller reports, never touching a filesystem itself.
pub struct SyncEngine<'a> {
    root: String,
    reg: &'a Registry,
    state: EngineState,
}

impl<'a> View for SyncEngine<'a> {
    type V = SyncEngineV;

    closed spec fn view(&self) -> SyncEngineV {
        SyncEngineV {
            root: self.root@,
            reg: self.reg@,
            state: match self.state {
                EngineState::AwaitMarker => EngineStateV::AwaitMarker,
                EngineState::WritingAsset { index } => EngineStateV::WritingAsset {
                    index: index as int,
                },
                EngineState::WritingMarker => EngineStateV::WritingMarker,
                EngineState::Finished => EngineStateV::Finished,
            },
        }
    }
}

impl<'a> SyncEngine<'a> {
    /// Starts a sync of `reg` into the cache at `root`; the first action
    /// is to read the version marker.
    pub fn new(root: String, reg: &'a Registry) -> (r: SyncEngine<'a>)
        requires
            reg@.wf(),
        ensures
            r@ == (SyncEngineV { root: root@, reg: reg@, state: EngineStateV::AwaitMarker }),
            r@.wf(),
    {
        SyncEngine { root, reg, state: EngineState::AwaitMarker }
    }

    /// The next filesystem step the caller should perform, or `None` once
    /// the sync is decided.
    pub fn next_action(&self) -> (a: Option<SyncAction>)
        requires
            self@.wf(),
        ensures
            match self@.state {
                EngineStateV::AwaitMarker => {
                    &&& a matches Some(SyncAction::ReadMarker { path })
                    &&& path@ == marker_path_chars(self@.root)
                },
                EngineStateV::WritingAsset { index } => {
                    &&& a matches Some(SyncAction::WriteAsset { dir, path, content })
                    &&& dir@ == parent_dir_chars(self@.root, self@.reg.entries[index].path)
                    &&& path@ == asset_path_chars(self@.root, self@.reg.entries[index].path)
                    &&& content@ == self@.reg.entries[index].content
                },
                EngineStateV::WritingMarker => {
                    &&& a matches Some(SyncAction::WriteMarker { path, content })
                    &&& path@ == marker_path_chars(self@.root)
                    &&& content@ == self@.reg.version
                },
                EngineStateV::Finished => a is None,
            },
    {
        match self.state {
            EngineState::AwaitMarker => Some(SyncAction::ReadMarker {
                path: marker_path_in(&self.root),
            }),
            EngineState::WritingAsset { index } => {
                let e = self.reg.entry_at(index);
                Some(SyncAction::WriteAsset {
                    dir: parent_dir_in(&self.root, &e.path),
                    path: asset_path_in(&self.root, &e.path),
                    content: e.content.clone(),
                })
            },
            EngineState::WritingMarker => Some(SyncAction::WriteMarker {
                path: marker_path_in(&self.root),
                content: self.reg.version().clone(),
            }),
            EngineState::Finished => None,
        }
    }

    /// Consumes the raw marker content (or its absence). A marker whose
    /// trimmed content equals the registry's version finishes the sync at
    /// once with nothing written; anything else starts the rewrite.
    pub fn marker_read(&mut self, content: Option<String>) -> (r: Option<SyncOutcome>)
        requires
            old(self)@.wf(),
            old(self)@.state is AwaitMarker,
        ensures
            final(self)@.wf(),
            final(self)@.root == old(self)@.root,
            final(self)@.reg == old(self)@.reg,
            ({
                let seen = content matches Some(c) && marker_line_matches(
                    c@,
                    old(self)@.reg.version,
                );
                if seen {
                    &&& final(self)@.state is Finished
                    &&& r matches Some(out)
                    &&& out matches SyncOutcome::UpToDate { assets_dir }
                    &&& assets_dir@ == assets_dir_chars(old(self)@.root)
                } else if old(self)@.reg.entries.len() > 0 {
                    &&& final(self)@.state == (EngineStateV::WritingAsset { index: 0 })
                    &&& r is None
                } else {
                    &&& final(self)@.state is WritingMarker
                    &&& r is None
                }
            }),
    {
        let up_to_date = match &content {
            Some(c) => line_matches_version(c.as_str(), self.reg.version()),
            None => false,
        };
        if up_to_date {
            self.state = EngineState::Finished;
            return Some(SyncOutcome::UpToDate { assets_dir: assets_dir_in(&self.root) });
        }
        if self.reg.len() > 0 {
            self.state = EngineState::WritingAsset { index: 0 };
        } else {
            self.state = EngineState::WritingMarker;
        }
        None
    }

    /// Consumes the result of writing the current asset. Success moves to
    /// the next asset, or to the marker after the last one; any failure
    /// aborts the sync with the offending path and cause.
    pub fn asset_written(&mut self, result: AssetWriteResult) -> (r: Option<SyncOutcome>)
        requires
            old(self)@.wf(),
            old(self)@.state matches EngineStateV::WritingAsset { .. },
        ensures
            final(self)@.wf(),
            final(self)@.root == old(self)@.root,
            final(self)@.reg == old(self)@.reg,
            ({
                let index = old(self)@.state->WritingAsset_index;
                match result {
                    AssetWriteResult::Success => {
                        if index + 1 < old(self)@.reg.entries.len() {
                            &&& final(self)@.state == (EngineStateV::WritingAsset {
                                index: index + 1,
                            })
                            &&& r is None
                        } else {
                            &&& final(self)@.state is WritingMarker
                            &&& r is None
                        }
                    },
                    AssetWriteResult::DirectoryFailed { cause } => {
                        &&& final(self)@.state is Finished
                        &&& r matches Some(out)
                        &&& out matches SyncOutcome::Failed { error }
                        &&& error matches SyncError::DirectoryCreation { path, cause: c }
                        &&& path@ == parent_dir_chars(
                            old(self)@.root,
                            old(self)@.reg.entries[index].path,
                        )
                        &&& c == cause
                    },
                    AssetWriteResult::FileFailed { cause } => {
                        &&& final(self)@.state is Finished
                        &&& r matches Some(out)
                        &&& out matches SyncOutcome::Failed { error }
                        &&& error matches SyncError::FileWrite { path, cause: c }
                        &&& path@ == asset_path_chars(
                            old(self)@.root,
                            old(self)@.reg.entries[index].path,
                        )
                        &&& c == cause
                    },
                }
            }),
    {
        let index = match self.state {
            EngineState::WritingAsset { index } => index,
            _ => 0,
        };
        match result {
            AssetWriteResult::Success => {
                let n = self.reg.len();
                proof {
                    assert(index < n);
                }
                if index + 1 < n {
                    self.state = EngineState::WritingAsset { index: index + 1 };
                } else {
                    self.state = EngineState::WritingMarker;
                }
                None
            },
            AssetWriteResult::DirectoryFailed { cause } => {
                let path = parent_dir_in(&self.root, &self.reg.entry_at(index).path);
                self.state = EngineState::Finished;
                Some(SyncOutcome::Failed {
                    error: SyncError::DirectoryCreation { path, cause },
                })
            },
            AssetWriteResult::FileFailed { cause } => {
                let path = asset_path_in(&self.root, &self.reg.entry_at(index).path);
                self.state = EngineState::Finished;
                Some(SyncOutcome::Failed { error: SyncError::FileWrite { path, cause } })
            },
        }
    }

    /// Consumes the result of writing the marker, which is the last step
    /// of a rewrite: success completes the sync, failure aborts it.
    pub fn marker_written(&mut self, result: Result<(), String>) -> (r: Option<SyncOutcome>)
        requires
            old(self)@.wf(),
            old(self)@.state is WritingMarker,
        ensures
            final(self)@.wf(),
            final(self)@.root == old(self)@.root,
            final(self)@.reg == old(self)@.reg,
            final(self)@.state is Finished,
            match result {
                Ok(u) => {
                    &&& r matches Some(out)
                    &&& out matches SyncOutcome::Synced { assets_dir }
                    &&& assets_dir@ == assets_dir_chars(old(self)@.root)
                },
                Err(cause) => {
                    &&& r matches Some(out)
                    &&& out matches SyncOutcome::Failed { error }
                    &&& error matches SyncError::VersionMarkerWrite { path, cause: c }
                    &&& path@ == marker_path_chars(old(self)@.root)
                    &&& c == cause
                },
            },
    {
        self.state = EngineState::Finished;
        match result {
            Ok(_) => Some(SyncOutcome::Synced { assets_dir: assets_dir_in(&self.root) }),
            Err(cause) => {
                let path = marker_path_in(&self.root);
                Some(SyncOutcome::Failed {
                    error: SyncError::VersionMarkerWrite { path, cause },
                })
            },
        }
    }
}

/// The cause recorded when the model filesystem refuses a write.
fn refusal_note() -> String {
    "write refused by the filesystem".to_owned()
}

/// Drives a full sync of `reg` into the cache at `root` on the model
/// filesystem, exactly as a launcher drives it on the real one. The
/// result is the mathematical `sync_spec`: nothing is written when the
/// marker is current, and otherwise every asset is rewritten before the
/// marker, stopping at the first refused write.
pub fn run_sync(fs: &mut MemFs, root: &String, reg: &Registry) -> (r: SyncOutcome)
    requires
        reg@.wf(),
    ensures
        final(fs)@ == sync_spec(old(fs)@, root@, reg@).fs,
        outcome_matches(r, sync_spec(old(fs)@, root@, reg@), root@, reg@),
{
    let ghost fs0 = fs@;
    let ghost target = sync_spec(fs0, root@, reg@);
    let mut engine = SyncEngine::new(root.clone(), reg);
    let mp = marker_path_in(root);
    let marker_content = fs.read_file(&mp);
    if let Some(out) = engine.marker_read(marker_content) {
        proof {
            assert(marker_current(fs0, root@, reg@.version));
        }
        return out;
    }
    proof {
        assert(!marker_current(fs0, root@, reg@.version));
    }
    loop
        invariant
            reg@.wf(),
            engine@.wf(),
            engine@.root == root@,
            engine@.reg == reg@,
            !(engine@.state is AwaitMarker),
            !(engine@.state is Finished),
            engine@.state matches EngineStateV::WritingAsset { index } ==> sync_from(
                fs@,
                root@,
                reg@,
                index,
            ) == target,
            engine@.state is WritingMarker ==> sync_from(
                fs@,
                root@,
                reg@,
                reg@.entries.len() as int,
            ) == target,
            fs0 == old(fs)@,
            target == sync_spec(fs0, root@, reg@),
        decreases (match engine@.state {
            EngineStateV::WritingAsset { index } => reg@.entries.len() - index + 1,
            _ => 1int,
        }),
    {
        let a = engine.next_action();
        match a {
            Some(SyncAction::WriteAsset { dir, path, content }) => {
                let ghost index = engine@.state->WritingAsset_index;
                let ghost fsb = fs@;
                fs.make_dir(&dir);
                let ok = fs.write_file(&path, &content);
                if ok {
                    let done = engine.asset_written(AssetWriteResult::Success);
                    proof {
                        assert(done is None);
                    }
                } else {
                    let out_opt = engine.asset_written(
                        AssetWriteResult::FileFailed { cause: refusal_note() },
                    );
                    match out_opt {
                        Some(out) => {
                            proof {
                                let e = reg@.entries[index];
                                assert(sync_from(fsb, root@, reg@, index) == SyncPost {
                                    fs: fsb.after_mkdir(parent_dir_chars(root@, e.path)),
                                    verdict: SyncVerdict::FailedAsset { index },
                                });
                            }
                            return out;
                        },
                        None => {
                            proof {
                                assert(false);
                            }
                        },
                    }
                }
            },
            Some(SyncAction::WriteMarker { path, content }) => {
                let ghost fsb = fs@;
                let ok = fs.write_file(&path, &content);
                let res: Result<(), String> = if ok {
                    Ok(())
                } else {
                    Err(refusal_note())
                };
                let out_opt = engine.marker_written(res);
                match out_opt {
                    Some(out) => {
                        proof {
                            let n = reg@.entries.len() as int;
                            if fsb.can_write() {
                                assert(sync_from(fsb, root@, reg@, n) == SyncPost {
                                    fs: fsb.after_write(marker_path_chars(root@), reg@.version),
                                    verdict: SyncVerdict::Synced,
                                });
                            } else {
                                assert(sync_from(fsb, root@, reg@, n) == SyncPost {
                                    fs: fsb,
                                    verdict: SyncVerdict::FailedMarker,
                                });
                            }
                        }
                        return out;
                    },
                    None => {
                        proof {
                            assert(false);
                        }
                    },
                }
            },
            _ => {
                proof {
                    assert(false);
                }
            },
        }
    }
}

/// A rewrite that did not stop at a refused write completed, and the
/// marker then records the registry's version.
proof fn lemma_sync_from_marker_set(fs: FsSnap, root: Seq<char>, reg: RegistryV, i: int)
    requires
        !(sync_from(fs, root, reg, i).verdict matches SyncVerdict::FailedAsset { .. }),
        !(sync_from(fs, root, reg, i).verdict is FailedMarker),
    ensures
        sync_from(fs, root, reg, i).verdict is Synced,
        marker_of(sync_from(fs, root, reg, i).fs, root) == Some(reg.version),
    decreases reg.entries.len() - i,
{
    if i < 0 || i >= reg.entries.len() {
        let f2 = fs.after_write(marker_path_chars(root), reg.version);
        assert(f2.files[marker_path_chars(root)] == reg.version);
    } else {
        let e = reg.entries[i];
        let fs1 = fs.after_mkdir(parent_dir_chars(root, e.path));
        if fs1.can_write() {
            lemma_sync_from_marker_set(
                fs1.after_write(asset_path_chars(root, e.path), e.content),
                root,
                reg,
                i + 1,
            );
        }
    }
}

/// Idempotence: after a sync that found the cache current or completed a
/// rewrite, a second sync with the same registry finds the marker current,
/// reports the cache up to date, and leaves the filesystem — its write
/// count included — exactly as it was.
pub proof fn lemma_sync_idempotent(fs: FsSnap, root: Seq<char>, reg: RegistryV)
    requires
        reg.wf(),
        sync_spec(fs, root, reg).verdict is UpToDate || sync_spec(fs, root, reg).verdict
            is Synced,
    ensures
        sync_spec(sync_spec(fs, root, reg).fs, root, reg) == (SyncPost {
            fs: sync_spec(fs, root, reg).fs,
            verdict: SyncVerdict::UpToDate,
        }),
{
    let post = sync_spec(fs, root, reg);
    if !marker_current(fs, root, reg.version) {
        lemma_sync_from_marker_set(fs, root, reg, 0);
        assert(marker_current(post.fs, root, reg.version));
    }
}

/// A sync that did not complete never touches the marker.
proof fn lemma_sync_from_keeps_marker(fs: FsSnap, root: Seq<char>, reg: RegistryV, i: int)
    requires
        !(sync_from(fs, root, reg, i).verdict is Synced),
    ensures
        marker_of(sync_from(fs, root, reg, i).fs, root) == marker_of(fs, root),
    decreases reg.entries.len() - i,
{
    if i < 0 || i >= reg.entries.len() {
    } else {
        let e = reg.entries[i];
        let fs1 = fs.after_mkdir(parent_dir_chars(root, e.path));
        if fs1.can_write() {
            let fs2 = fs1.after_write(asset_path_chars(root, e.path), e.content);
            lemma_asset_path_ne_marker(root, e.path);
            assert(marker_of(fs2, root) == marker_of(fs1, root));
            lemma_sync_from_keeps_marker(fs2, root, reg, i + 1);
        }
    }
}

/// Partial-failure safety: a sync that stops at a refused write leaves
/// the marker exactly as it was — at its prior value or absent — and in
/// particular not recording the registry's version, so the next sync
/// performs the full rewrite rather than trusting partial state.
pub proof fn lemma_failed_sync_keeps_marker(fs: FsSnap, root: Seq<char>, reg: RegistryV)
    requires
        sync_spec(fs, root, reg).verdict matches SyncVerdict::FailedAsset { .. } || sync_spec(
            fs,
            root,
            reg,
        ).verdict is FailedMarker,
    ensures
        marker_of(sync_spec(fs, root, reg).fs, root) == marker_of(fs, root),
        !marker_current(sync_spec(fs, root, reg).fs, root, reg.version),
{
    lemma_sync_from_keeps_marker(fs, root, reg, 0);
}

/// Whether the rewrite of assets `i..` still has a write to `p` ahead of
/// it: the marker, or the target path of a not-yet-written asset.
spec fn written_later(root: Seq<char>, reg: RegistryV, i: int, p: Seq<char>) -> bool {
    ||| p == marker_path_chars(root)
    ||| exists|k: int|
        i <= k < reg.entries.len() && p == asset_path_chars(
            root,
            (#[trigger] reg.entries[k]).path,
        )
}

/// With unlimited writes, rewriting assets `i..` succeeds, writes each of
/// them once plus the marker, records the version, and leaves every other
/// path untouched.
proof fn lemma_sync_from_unlimited(fs: FsSnap, root: Seq<char>, reg: RegistryV, i: int)
    requires
        reg.wf(),
        fs.budget is None,
        0 <= i <= reg.entries.len(),
    ensures
        sync_from(fs, root, reg, i).verdict is Synced,
        sync_from(fs, root, reg, i).fs.budget is None,
        sync_from(fs, root, reg, i).fs.writes == fs.writes + (reg.entries.len() - i) + 1,
        marker_of(sync_from(fs, root, reg, i).fs, root) == Some(reg.version),
        forall|k: int|
            i <= k < reg.entries.len() ==> {
                let q = asset_path_chars(root, (#[trigger] reg.entries[k]).path);
                sync_from(fs, root, reg, i).fs.files.contains_key(q) && sync_from(
                    fs,
                    root,
                    reg,
                    i,
                ).fs.files[q] == reg.entries[k].content
            },
        forall|p: Seq<char>|
            !(#[trigger] written_later(root, reg, i, p)) ==> sync_from(
                fs,
                root,
                reg,
                i,
            ).fs.files.contains_key(p) == fs.files.contains_key(p) && (fs.files.contains_key(p)
                ==> sync_from(fs, root, reg, i).fs.files[p] == fs.files[p]),
    decreases reg.entries.len() - i,
{
    let post = sync_from(fs, root, reg, i);
    if i >= reg.entries.len() {
    } else {
        let e = reg.entries[i];
        let fs1 = fs.after_mkdir(parent_dir_chars(root, e.path));
        let q_i = asset_path_chars(root, e.path);
        let fs2 = fs1.after_write(q_i, e.content);
        lemma_sync_from_unlimited(fs2, root, reg, i + 1);
        assert(!written_later(root, reg, i + 1, q_i)) by {
            lemma_asset_path_ne_marker(root, e.path);
            if exists|k2: int|
                i + 1 <= k2 < reg.entries.len() && q_i == asset_path_chars(
                    root,
                    (#[trigger] reg.entries[k2]).path,
                ) {
                let k2 = choose|k2: int|
                    i + 1 <= k2 < reg.entries.len() && q_i == asset_path_chars(
                        root,
                        (#[trigger] reg.entries[k2]).path,
                    );
                lemma_asset_path_injective(root, e.path, reg.entries[k2].path);
            }
        };
        assert forall|k: int| i <= k < reg.entries.len() implies {
            let q = asset_path_chars(root, (#[trigger] reg.entries[k]).path);
            post.fs.files.contains_key(q) && post.fs.files[q] == reg.entries[k].content
        } by {
            if k == i {
                assert(fs2.files.contains_key(q_i) && fs2.files[q_i] == e.content);
            }
        };
        assert forall|p: Seq<char>| !(#[trigger] written_later(root, reg, i, p))
            implies post.fs.files.contains_key(p) == fs.files.contains_key(p) && (
        fs.files.contains_key(p) ==> post.fs.files[p] == fs.files[p]) by {
            assert(p != marker_path_chars(root));
            assert(p != q_i);
            assert(!written_later(root, reg, i + 1, p)) by {
                if exists|k2: int|
                    i + 1 <= k2 < reg.entries.len() && p == asset_path_chars(
                        root,
                        (#[trigger] reg.entries[k2]).path,
                    ) {
                    let k2 = choose|k2: int|
                        i + 1 <= k2 < reg.entries.len() && p == asset_path_chars(
                            root,
                            (#[trigger] reg.entries[k2]).path,
                        );
                    assert(written_later(root, reg, i, p));
                }
            };
        };
    }
}

/// Version change triggers a full resync: when the marker does not record
/// the registry's version (it changed, or was never written) and writes
/// succeed, the sync rewrites every asset — one write each — then records
/// the new version in the marker and reports the bundle synced.
pub proof fn lemma_version_change_resyncs(fs: FsSnap, root: Seq<char>, reg: RegistryV)
    requires
        reg.wf(),
        fs.budget is None,
        !marker_current(fs, root, reg.version),
    ensures
        sync_spec(fs, root, reg).verdict is Synced,
        marker_of(sync_spec(fs, root, reg).fs, root) == Some(reg.version),
        forall|k: int|
            0 <= k < reg.entries.len() ==> {
                let q = asset_path_chars(root, (#[trigger] reg.entries[k]).path);
                sync_spec(fs, root, reg).fs.files.contains_key(q) && sync_spec(
                    fs,
                    root,
                    reg,
                ).fs.files[q] == reg.entries[k].content
            },
        sync_spec(fs, root, reg).fs.writes == fs.writes + reg.entries.len() + 1,
{
    lemma_sync_from_unlimited(fs, root, reg, 0);
}

} // verus!
