use nforge::cache::resolve_cache_root;
use nforge::delegate::{
    build_interpreter_args, exit_code_from_status, interpreter_name, FAILURE_CODE,
};
use nforge::fs_model::MemFs;
use nforge::paths::{
    asset_path_in, assets_dir_in, entry_point_in, find_last_slash, marker_path_in,
    parent_dir_in,
};
use nforge::registry::{AssetEntry, Registry};
use nforge::resolve::{
    resolve_entry_point, resolve_plan, BundleSource, LaunchError, RuntimePlan,
};
use nforge::sync::SyncOutcome;

fn entry(path: &str, content: &str) -> AssetEntry {
    AssetEntry { path: path.to_string(), content: content.to_string() }
}

fn sample_registry() -> Registry {
    Registry::try_new(
        vec![entry("nforge.luau", "entry"), entry("commands/init.luau", "init")],
        "0.1.0".to_string(),
    )
    .expect("well-formed registry")
}

#[test]
fn path_builders_join_with_slashes() {
    let root = "home/.nforge".to_string();
    assert_eq!(assets_dir_in(&root), "home/.nforge/assets");
    assert_eq!(marker_path_in(&root), "home/.nforge/.version");
    assert_eq!(
        asset_path_in(&root, &"commands/init.luau".to_string()),
        "home/.nforge/assets/commands/init.luau"
    );
    assert_eq!(entry_point_in(&"d".to_string()), "d/nforge");
}

#[test]
fn parent_directory_of_a_top_level_asset_is_the_assets_dir() {
    let root = "r".to_string();
    assert_eq!(parent_dir_in(&root, &"nforge.luau".to_string()), "r/assets");
    assert_eq!(
        parent_dir_in(&root, &"commands/init.luau".to_string()),
        "r/assets/commands"
    );
    assert_eq!(parent_dir_in(&root, &"a/b/c.luau".to_string()), "r/assets/a/b");
}

#[test]
fn last_slash_is_found_from_the_end() {
    assert_eq!(find_last_slash("a/b/c"), Some(3));
    assert_eq!(find_last_slash("abc"), None);
    assert_eq!(find_last_slash("/x"), Some(0));
}

#[test]
fn cache_root_prefers_local_then_roaming_then_current_dir_on_windows() {
    let local = Some("C:/Users/u/AppData/Local".to_string());
    let roaming = Some("C:/Users/u/AppData/Roaming".to_string());
    assert_eq!(
        resolve_cache_root(true, &local, &roaming, &None),
        "C:/Users/u/AppData/Local/nforge"
    );
    assert_eq!(
        resolve_cache_root(true, &None, &roaming, &None),
        "C:/Users/u/AppData/Roaming/nforge"
    );
    assert_eq!(resolve_cache_root(true, &None, &None, &None), "./nforge");
}

#[test]
fn cache_root_uses_home_or_current_dir_elsewhere() {
    let home = Some("/home/u".to_string());
    assert_eq!(resolve_cache_root(false, &None, &None, &home), "/home/u/.nforge");
    assert_eq!(resolve_cache_root(false, &None, &None, &None), "./.nforge");
}

#[test]
fn development_directory_wins_and_nothing_is_written() {
    let exe_dir = Some("/opt/tool".to_string());
    let plan = resolve_plan(&BundleSource::EmbeddedWithCache, &exe_dir, true)
        .expect("plan");
    match plan {
        RuntimePlan::UseDirectory { dir } => assert_eq!(dir, "/opt/tool/assets"),
        RuntimePlan::SyncCache => panic!("the sync engine must not be chosen"),
    }
    // With no write budget at all, any write attempt would fail the
    // launch; the development override must succeed without one.
    let reg = sample_registry();
    let mut fs = MemFs::with_write_budget(0);
    let root = "home/.nforge".to_string();
    let r = resolve_entry_point(
        &BundleSource::EmbeddedWithCache,
        &exe_dir,
        true,
        &root,
        &reg,
        &mut fs,
    );
    assert_eq!(r.ok(), Some("/opt/tool/assets/nforge".to_string()));
    assert_eq!(fs.read_file(&"home/.nforge/.version".to_string()), None);
}

#[test]
fn without_a_dev_directory_the_cache_is_synced() {
    let reg = sample_registry();
    let mut fs = MemFs::new();
    let root = "home/.nforge".to_string();
    let r = resolve_entry_point(
        &BundleSource::EmbeddedWithCache,
        &None,
        false,
        &root,
        &reg,
        &mut fs,
    );
    assert_eq!(r.ok(), Some("home/.nforge/assets/nforge".to_string()));
    assert_eq!(
        fs.read_file(&"home/.nforge/.version".to_string()),
        Some("0.1.0".to_string())
    );
}

#[test]
fn installed_bundle_runs_beside_the_executable() {
    let exe_dir = Some("/opt/tool".to_string());
    let reg = sample_registry();
    let mut fs = MemFs::with_write_budget(0);
    let root = "home/.nforge".to_string();
    let r = resolve_entry_point(
        &BundleSource::InstalledBesideExecutable,
        &exe_dir,
        false,
        &root,
        &reg,
        &mut fs,
    );
    assert_eq!(r.ok(), Some("/opt/tool/assets/nforge".to_string()));
}

#[test]
fn installed_bundle_without_an_install_dir_is_an_error() {
    assert!(resolve_plan(&BundleSource::InstalledBesideExecutable, &None, false).is_err());
    let reg = sample_registry();
    let mut fs = MemFs::new();
    let root = "home/.nforge".to_string();
    let r = resolve_entry_point(
        &BundleSource::InstalledBesideExecutable,
        &None,
        false,
        &root,
        &reg,
        &mut fs,
    );
    match r {
        Err(LaunchError::Resolution { error }) => {
            assert!(!error.message().is_empty());
        },
        _ => panic!("expected a resolution error"),
    }
}

#[test]
fn failed_cache_sync_surfaces_the_sync_error() {
    let reg = sample_registry();
    let mut fs = MemFs::with_write_budget(0);
    let root = "home/.nforge".to_string();
    let r = resolve_entry_point(
        &BundleSource::EmbeddedWithCache,
        &None,
        false,
        &root,
        &reg,
        &mut fs,
    );
    assert!(matches!(r, Err(LaunchError::Sync { .. })));
}

#[test]
fn interpreter_arguments_preserve_order_and_count() {
    let entry_point = "d/nforge".to_string();
    let user_args = vec!["build".to_string(), "--release".to_string()];
    let argv = build_interpreter_args(&entry_point, &user_args);
    assert_eq!(argv, vec!["run", "d/nforge", "--", "build", "--release"]);
    assert_eq!(interpreter_name(), "lune");
}

#[test]
fn interpreter_arguments_with_no_user_args() {
    let entry_point = "d/nforge".to_string();
    let argv = build_interpreter_args(&entry_point, &Vec::new());
    assert_eq!(argv, vec!["run", "d/nforge", "--"]);
}

#[test]
fn exit_code_passes_the_child_code_through() {
    assert_eq!(exit_code_from_status(Some(3)), 3);
    assert_eq!(exit_code_from_status(Some(0)), 0);
    assert_eq!(exit_code_from_status(Some(255)), 255);
}

#[test]
fn exit_code_truncates_to_a_byte() {
    assert_eq!(exit_code_from_status(Some(259)), 3);
    assert_eq!(exit_code_from_status(Some(-1)), 255);
}

#[test]
fn unknown_child_status_maps_to_the_failure_code() {
    assert_eq!(exit_code_from_status(None), FAILURE_CODE);
    assert_eq!(FAILURE_CODE, 1);
}

#[test]
fn up_to_date_outcome_is_not_conflated_with_a_fresh_sync() {
    let reg = sample_registry();
    let mut fs = MemFs::new();
    let root = "home/.nforge".to_string();
    let first = nforge::sync::run_sync(&mut fs, &root, &reg);
    assert!(matches!(first, SyncOutcome::Synced { .. }));
    let second = nforge::sync::run_sync(&mut fs, &root, &reg);
    assert!(matches!(second, SyncOutcome::UpToDate { .. }));
}
