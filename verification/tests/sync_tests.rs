use nforge::fs_model::MemFs;
use nforge::registry::{AssetEntry, Registry};
use nforge::sync::{
    run_sync, AssetWriteResult, SyncAction, SyncEngine, SyncError, SyncOutcome,
};

fn entry(path: &str, content: &str) -> AssetEntry {
    AssetEntry { path: path.to_string(), content: content.to_string() }
}

fn sample_registry(version: &str, tag: &str) -> Registry {
    Registry::try_new(
        vec![
            entry("nforge.luau", &format!("entry {}", tag)),
            entry("commands/init.luau", &format!("init {}", tag)),
        ],
        version.to_string(),
    )
    .expect("well-formed registry")
}

fn assets_dir_of(out: &SyncOutcome) -> String {
    match out {
        SyncOutcome::UpToDate { assets_dir } => assets_dir.clone(),
        SyncOutcome::Synced { assets_dir } => assets_dir.clone(),
        SyncOutcome::Failed { .. } => panic!("sync failed"),
    }
}

#[test]
fn fresh_sync_writes_every_asset_and_the_marker() {
    let reg = sample_registry("0.1.0", "a");
    let mut fs = MemFs::new();
    let root = "home/.nforge".to_string();
    let out = run_sync(&mut fs, &root, &reg);
    assert!(matches!(out, SyncOutcome::Synced { .. }));
    assert_eq!(assets_dir_of(&out), "home/.nforge/assets");
    assert_eq!(
        fs.read_file(&"home/.nforge/assets/nforge.luau".to_string()),
        Some("entry a".to_string())
    );
    assert_eq!(
        fs.read_file(&"home/.nforge/assets/commands/init.luau".to_string()),
        Some("init a".to_string())
    );
    assert_eq!(
        fs.read_file(&"home/.nforge/.version".to_string()),
        Some("0.1.0".to_string())
    );
    assert!(fs.has_dir(&"home/.nforge/assets".to_string()));
    assert!(fs.has_dir(&"home/.nforge/assets/commands".to_string()));
}

#[test]
fn second_sync_performs_zero_writes() {
    let reg = sample_registry("0.1.0", "a");
    let root = "home/.nforge".to_string();
    // Exactly enough budget for the first sync: two assets and the marker.
    let mut fs = MemFs::with_write_budget(3);
    let first = run_sync(&mut fs, &root, &reg);
    assert!(matches!(first, SyncOutcome::Synced { .. }));
    // The budget is now exhausted, so any attempted write would fail the
    // second sync; it must succeed without one.
    let second = run_sync(&mut fs, &root, &reg);
    assert!(matches!(second, SyncOutcome::UpToDate { .. }));
    assert_eq!(assets_dir_of(&second), "home/.nforge/assets");
}

#[test]
fn version_change_rewrites_every_asset() {
    let old = sample_registry("0.1.0", "old");
    let new = sample_registry("0.2.0", "new");
    let root = "home/.nforge".to_string();
    let mut fs = MemFs::new();
    let first = run_sync(&mut fs, &root, &old);
    assert!(matches!(first, SyncOutcome::Synced { .. }));
    let second = run_sync(&mut fs, &root, &new);
    assert!(matches!(second, SyncOutcome::Synced { .. }));
    assert_eq!(
        fs.read_file(&"home/.nforge/assets/nforge.luau".to_string()),
        Some("entry new".to_string())
    );
    assert_eq!(
        fs.read_file(&"home/.nforge/assets/commands/init.luau".to_string()),
        Some("init new".to_string())
    );
    assert_eq!(
        fs.read_file(&"home/.nforge/.version".to_string()),
        Some("0.2.0".to_string())
    );
}

#[test]
fn failed_sync_leaves_the_marker_at_its_prior_value() {
    let reg = sample_registry("0.1.0", "a");
    let root = "home/.nforge".to_string();
    let mut fs = MemFs::new();
    let marker = "home/.nforge/.version".to_string();
    assert!(fs.write_file(&marker, &"0.0.9".to_string()));
    // Let the first asset write succeed and the second fail.
    fs.set_write_budget(1);
    let out = run_sync(&mut fs, &root, &reg);
    match out {
        SyncOutcome::Failed { error: SyncError::FileWrite { path, .. } } => {
            assert_eq!(path, "home/.nforge/assets/commands/init.luau");
        },
        _ => panic!("expected a file-write failure"),
    }
    assert_eq!(fs.read_file(&marker), Some("0.0.9".to_string()));
    // A later run with working writes synchronizes fully.
    fs.clear_write_budget();
    let retry = run_sync(&mut fs, &root, &reg);
    assert!(matches!(retry, SyncOutcome::Synced { .. }));
    assert_eq!(fs.read_file(&marker), Some("0.1.0".to_string()));
}

#[test]
fn sync_errors_describe_the_offending_path_and_cause() {
    let e = SyncError::FileWrite {
        path: "r/assets/a.luau".to_string(),
        cause: "disk full".to_string(),
    };
    assert_eq!(e.message(), "failed to write r/assets/a.luau: disk full");
    let d = SyncError::DirectoryCreation {
        path: "r/assets".to_string(),
        cause: "permission denied".to_string(),
    };
    assert_eq!(d.message(), "failed to create directory r/assets: permission denied");
    let m = SyncError::VersionMarkerWrite {
        path: "r/.version".to_string(),
        cause: "disk full".to_string(),
    };
    assert_eq!(m.message(), "failed to write version file r/.version: disk full");
}

#[test]
fn failed_marker_write_leaves_the_marker_absent() {
    let reg = sample_registry("0.1.0", "a");
    let root = "home/.nforge".to_string();
    // Enough budget for both assets, none for the marker.
    let mut fs = MemFs::with_write_budget(2);
    let out = run_sync(&mut fs, &root, &reg);
    match out {
        SyncOutcome::Failed { error: SyncError::VersionMarkerWrite { path, .. } } => {
            assert_eq!(path, "home/.nforge/.version");
        },
        _ => panic!("expected a marker-write failure"),
    }
    assert_eq!(fs.read_file(&"home/.nforge/.version".to_string()), None);
}

#[test]
fn marker_with_trailing_newline_counts_as_current() {
    let reg = sample_registry("0.1.0", "a");
    let root = "home/.nforge".to_string();
    let mut fs = MemFs::new();
    let marker = "home/.nforge/.version".to_string();
    assert!(fs.write_file(&marker, &"0.1.0\n".to_string()));
    let out = run_sync(&mut fs, &root, &reg);
    assert!(matches!(out, SyncOutcome::UpToDate { .. }));
}

#[test]
fn empty_bundle_sync_writes_only_the_marker() {
    let reg = Registry::try_new(Vec::new(), "9".to_string()).expect("empty bundle");
    let root = "r".to_string();
    let mut fs = MemFs::new();
    let out = run_sync(&mut fs, &root, &reg);
    assert!(matches!(out, SyncOutcome::Synced { .. }));
    assert_eq!(fs.read_file(&"r/.version".to_string()), Some("9".to_string()));
}

#[test]
fn engine_reports_directory_failure_with_the_directory_path() {
    let reg = sample_registry("0.1.0", "a");
    let mut engine = SyncEngine::new("root".to_string(), &reg);
    let action = engine.next_action();
    match action {
        Some(SyncAction::ReadMarker { path }) => assert_eq!(path, "root/.version"),
        _ => panic!("expected a marker read"),
    }
    assert!(engine.marker_read(None).is_none());
    match engine.next_action() {
        Some(SyncAction::WriteAsset { dir, path, content }) => {
            assert_eq!(dir, "root/assets");
            assert_eq!(path, "root/assets/nforge.luau");
            assert_eq!(content, "entry a");
        },
        _ => panic!("expected an asset write"),
    }
    let out = engine.asset_written(AssetWriteResult::DirectoryFailed {
        cause: "permission denied".to_string(),
    });
    match out {
        Some(SyncOutcome::Failed {
            error: SyncError::DirectoryCreation { path, cause },
        }) => {
            assert_eq!(path, "root/assets");
            assert_eq!(cause, "permission denied");
        },
        _ => panic!("expected a directory-creation failure"),
    }
    assert!(engine.next_action().is_none());
}

#[test]
fn engine_walks_assets_in_registry_order_then_the_marker() {
    let reg = sample_registry("0.1.0", "a");
    let mut engine = SyncEngine::new("root".to_string(), &reg);
    assert!(matches!(engine.next_action(), Some(SyncAction::ReadMarker { .. })));
    assert!(engine.marker_read(Some("stale".to_string())).is_none());
    match engine.next_action() {
        Some(SyncAction::WriteAsset { path, .. }) => {
            assert_eq!(path, "root/assets/nforge.luau")
        },
        _ => panic!("expected the first asset"),
    }
    assert!(engine.asset_written(AssetWriteResult::Success).is_none());
    match engine.next_action() {
        Some(SyncAction::WriteAsset { dir, path, .. }) => {
            assert_eq!(dir, "root/assets/commands");
            assert_eq!(path, "root/assets/commands/init.luau");
        },
        _ => panic!("expected the second asset"),
    }
    assert!(engine.asset_written(AssetWriteResult::Success).is_none());
    match engine.next_action() {
        Some(SyncAction::WriteMarker { path, content }) => {
            assert_eq!(path, "root/.version");
            assert_eq!(content, "0.1.0");
        },
        _ => panic!("expected the marker write"),
    }
    match engine.marker_written(Ok(())) {
        Some(SyncOutcome::Synced { assets_dir }) => assert_eq!(assets_dir, "root/assets"),
        _ => panic!("expected completion"),
    }
}
