use vx::cli::{
    choose_elevation, detect_elevation_cmd, elevate, elevation_candidates, is_root_uid, privilege_command, refuse_root, AddArgs, CleanArgs,
    FindArgs, ListArgs, ListCommand, PinArgs, RemoveArgs, UnpinArgs, UpdateArgs, UpgradeArgs,
};
use vx::xbps::{
    add, add_with, clean, find, find_with, fzf_invocation, list, pin, remove, set_mode, sync, unpin,
    update, upgrade, Invocation, Step,
};

fn strs(v: &[&str]) -> Vec<String> {
    v.iter().map(|s| s.to_string()).collect()
}

fn run(step: Step) -> Invocation {
    match step {
        Step::Run(inv) => inv,
        other => panic!("expected a command to run, got {:?}", other),
    }
}

fn listed(step: Step) -> Invocation {
    match step {
        Step::RunIgnoringStatus(inv) => inv,
        other => panic!("expected a listing, got {:?}", other),
    }
}

fn browse(step: Step) -> Invocation {
    match step {
        Step::Browse(inv) => inv,
        other => panic!("expected a command to browse, got {:?}", other),
    }
}

#[test]
fn sync_is_elevated_install_sync() {
    assert_eq!(sync().argv("sudo"), strs(&["sudo", "xbps-install", "--sync"]));
}

#[test]
fn upgrade_flags_in_order() {
    let inv = upgrade(&UpgradeArgs { dry_run: true, yes: true });
    assert_eq!(inv.argv("doas"), strs(&["doas", "xbps-install", "--update", "--yes", "--dry-run"]));
    let inv = upgrade(&UpgradeArgs { dry_run: false, yes: false });
    assert_eq!(inv.argv("doas"), strs(&["doas", "xbps-install", "--update"]));
}

#[test]
fn update_syncs_first() {
    let inv = update(&UpdateArgs { dry_run: true, yes: true });
    assert_eq!(
        inv.argv("sudo"),
        strs(&["sudo", "xbps-install", "--sync", "--update", "--dry-run", "--yes"])
    );
}

#[test]
fn remove_needs_packages() {
    assert!(matches!(remove(&RemoveArgs { packages: vec![], yes: true, dry_run: true }), Step::NothingToDo));
    let inv = run(remove(&RemoveArgs { packages: strs(&["a", "b"]), yes: true, dry_run: true }));
    assert_eq!(inv.argv("sudo"), strs(&["sudo", "xbps-remove", "--yes", "--dry-run", "a", "b"]));
}

#[test]
fn clean_needs_orphans_or_cache() {
    let none = CleanArgs { orphans: false, cache: false, dry_run: true, yes: true };
    assert!(matches!(clean(&none), Step::NothingToDo));
    let all = CleanArgs { orphans: true, cache: true, dry_run: true, yes: true };
    assert_eq!(
        run(clean(&all)).argv("sudo"),
        strs(&["sudo", "xbps-remove", "--dry-run", "--remove-orphans", "--clean-cache", "--yes"])
    );
    let cache = CleanArgs { orphans: false, cache: true, dry_run: false, yes: false };
    assert_eq!(run(clean(&cache)).argv("sudo"), strs(&["sudo", "xbps-remove", "--clean-cache"]));
}

#[test]
fn pin_and_unpin_set_modes() {
    assert_eq!(
        run(pin(&PinArgs { packages: strs(&["linux"]) })).argv("doas"),
        strs(&["doas", "xbps-pkgdb", "--mode", "manual", "linux"])
    );
    assert_eq!(
        run(unpin(&UnpinArgs { packages: strs(&["linux"]) })).argv("doas"),
        strs(&["doas", "xbps-pkgdb", "--mode", "auto", "linux"])
    );
    assert!(matches!(pin(&PinArgs { packages: vec![] }), Step::NothingToDo));
    assert!(matches!(set_mode("hold", &vec![]), Step::NothingToDo));
}

fn list_args(command: ListCommand, verbose: bool, query: Option<&str>, fzf: bool) -> ListArgs {
    ListArgs { verbose, query: query.map(|q| q.to_string()), fzf, command }
}

#[test]
fn list_all_searches_or_lists() {
    let inv = listed(list(&list_args(ListCommand::All, true, Some("vim"), false)));
    assert!(!inv.elevated);
    assert_eq!(inv.argv("sudo"), strs(&["xbps-query", "--verbose", "--search", "vim"]));
    let inv = browse(list(&list_args(ListCommand::All, false, None, true)));
    assert_eq!(inv.argv("sudo"), strs(&["xbps-query", "--list-pkgs"]));
}

#[test]
fn list_orphans_and_manual() {
    let inv = listed(list(&list_args(ListCommand::Orphans, true, None, false)));
    assert_eq!(inv.argv("x"), strs(&["xbps-query", "--list-orphans", "--verbose"]));
    let inv = listed(list(&list_args(ListCommand::Manual, false, Some("ignored"), false)));
    assert_eq!(inv.argv("x"), strs(&["xbps-query", "--list-manual-pkgs"]));
}

#[test]
fn find_without_fzf_runs_search() {
    let args = FindArgs { query: Some("editor".to_string()), fzf: false };
    assert_eq!(run(find(&args)).argv("x"), strs(&["xbps-query", "-R", "--search", "editor"]));
}

#[test]
fn find_with_fzf() {
    let args = FindArgs { query: None, fzf: true };
    assert!(matches!(find_with(&args, false), Step::FzfMissing));
    assert_eq!(browse(find_with(&args, true)).argv("x"), strs(&["xbps-query", "-R", "--search", ""]));
}

fn add_args(packages: &[&str], force: bool, dry_run: bool, yes: bool, fzf: bool) -> AddArgs {
    AddArgs { packages: strs(packages), force, yes, dry_run, fzf }
}

#[test]
fn add_first_step() {
    assert!(matches!(add(&add_args(&[], true, true, true, false)), Step::NothingToDo));
    let inv = run(add(&add_args(&["vim", "git"], true, true, true, false)));
    assert_eq!(
        inv.argv("sudo"),
        strs(&["sudo", "xbps-install", "--force", "--dry-run", "--yes", "vim", "git"])
    );
    assert!(matches!(add_with(&add_args(&[], false, false, false, true), false), Step::FzfMissing));
    let inv = browse(add_with(&add_args(&["a"], false, false, false, true), true));
    assert_eq!(inv.argv("sudo"), strs(&["xbps-query", "-R", "--search", ""]));
}

#[test]
fn fzf_command_line() {
    assert_eq!(
        fzf_invocation().argv("x"),
        strs(&[
            "fzf",
            "--multi",
            "--header",
            "TAB to select, ENTER to confirm",
            "--bind",
            "tab:toggle+down,shift-tab:toggle+up"
        ])
    );
}

#[test]
fn elevation_choice_prefers_doas() {
    assert_eq!(choose_elevation(true, true), Some("doas".to_string()));
    assert_eq!(choose_elevation(false, true), Some("sudo".to_string()));
    assert_eq!(choose_elevation(false, false), None);
}

#[test]
fn user_choice_wins() {
    assert_eq!(privilege_command(Some("run0".to_string())), Some("run0".to_string()));
    match privilege_command(None) {
        Some(c) => assert!(c == "doas" || c == "sudo"),
        None => {}
    }
    let (pick, doas_found, sudo_found) = detect_elevation_cmd();
    assert_eq!(pick, choose_elevation(doas_found, sudo_found));
    assert!(!(doas_found && sudo_found));
}

#[test]
fn candidates_in_order_of_preference() {
    assert_eq!(elevation_candidates(), ("doas".to_string(), "sudo".to_string()));
}

#[test]
fn elevate_puts_privilege_first() {
    assert_eq!(elevate("doas", "xbps-install"), strs(&["doas", "xbps-install"]));
}

#[test]
fn root_is_uid_zero() {
    assert!(is_root_uid(0));
    assert!(!is_root_uid(1000));
    let (uid, refused) = refuse_root();
    assert_eq!(refused, uid == 0);
}

#[test]
fn plain_listing_ignores_status() {
    for command in [ListCommand::All, ListCommand::Orphans, ListCommand::Manual] {
        assert!(matches!(list(&list_args(command, false, None, false)), Step::RunIgnoringStatus(_)));
    }
    assert!(matches!(list(&list_args(ListCommand::Orphans, false, None, true)), Step::Browse(_)));
}

#[test]
fn elevation_only_for_changes() {
    assert!(sync().elevated);
    assert!(upgrade(&UpgradeArgs { dry_run: false, yes: false }).elevated);
    assert!(update(&UpdateArgs { dry_run: false, yes: false }).elevated);
    assert!(run(remove(&RemoveArgs { packages: strs(&["a"]), yes: false, dry_run: false })).elevated);
    assert!(run(pin(&PinArgs { packages: strs(&["a"]) })).elevated);
    assert!(run(add(&add_args(&["a"], false, false, false, false))).elevated);
    assert!(!run(find(&FindArgs { query: Some("a".to_string()), fzf: false })).elevated);
    assert!(!listed(list(&list_args(ListCommand::Manual, false, None, false))).elevated);
    assert!(!fzf_invocation().elevated);
}

#[test]
fn unelevated_argv_ignores_privilege() {
    let inv = listed(list(&list_args(ListCommand::Orphans, false, None, false)));
    assert_eq!(inv.argv("sudo"), inv.argv("doas"));
    assert_eq!(inv.program, "xbps-query");
}
