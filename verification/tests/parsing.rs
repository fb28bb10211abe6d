use vx::cli::AddArgs;
use vx::xbps::{add_selected, filter_selection, parse_xbps_line, selected_lines, Notice, Step};

fn strs(v: &[&str]) -> Vec<String> {
    v.iter().map(|s| s.to_string()).collect()
}

#[test]
fn parse_installed_line() {
    assert_eq!(
        parse_xbps_line("[*] foo-bar-1.2.3_1   Some description"),
        Some((true, "foo-bar".to_string()))
    );
}

#[test]
fn parse_available_line() {
    assert_eq!(
        parse_xbps_line("[-] firefox-128.0_1 Mozilla Firefox web browser"),
        Some((false, "firefox".to_string()))
    );
}

#[test]
fn parse_rejects_short_or_dashless_lines() {
    assert_eq!(parse_xbps_line(""), None);
    assert_eq!(parse_xbps_line("[*]"), None);
    assert_eq!(parse_xbps_line("[*] nodash desc"), None);
}

#[test]
fn parse_status_must_be_exact() {
    assert_eq!(parse_xbps_line("[*]x a-1"), Some((false, "a".to_string())));
    assert_eq!(parse_xbps_line("  [*]   a-1"), Some((true, "a".to_string())));
}

#[test]
fn filter_keeps_uninstalled_in_order() {
    let lines = strs(&["[-] b-1_1 d", "[*] a-2_1 d", "garbage", "[-] c-3_1 d"]);
    let (names, notices) = filter_selection(&lines);
    assert_eq!(names, strs(&["b", "c"]));
    assert_eq!(notices.len(), 2);
    assert!(matches!(&notices[0], Notice::AlreadyInstalled(n) if n == "a"));
    assert!(matches!(&notices[1], Notice::Unparsable(l) if l == "garbage"));
    assert_eq!(names.len() + notices.len(), lines.len());
}

fn add_args(packages: &[&str], fzf: bool) -> AddArgs {
    AddArgs { packages: strs(packages), force: false, yes: true, dry_run: false, fzf }
}

#[test]
fn add_selected_nothing_chosen() {
    let (step, notices) = add_selected(&add_args(&["vim"], true), &Vec::new());
    assert!(matches!(step, Step::NothingToDo));
    assert!(notices.is_empty());
}

#[test]
fn add_selected_only_installed_chosen() {
    let (step, notices) = add_selected(&add_args(&[], true), &strs(&["[*] a-1_1 x"]));
    assert!(matches!(step, Step::NothingToDo));
    assert_eq!(notices.len(), 1);
}

#[test]
fn add_selected_installs_named_then_chosen() {
    let (step, _) = add_selected(&add_args(&["vim"], true), &strs(&["[-] git-2.45_1 x", "[*] a-1_1 x"]));
    match step {
        Step::Run(inv) => assert_eq!(inv.argv("doas"), strs(&["doas", "xbps-install", "--yes", "vim", "git"])),
        other => panic!("unexpected {:?}", other),
    }
}

#[test]
fn selected_lines_empty_when_fzf_fails() {
    assert!(selected_lines(false, "a\nb\n").is_empty());
    assert_eq!(selected_lines(true, "a\nb\n"), strs(&["a", "b"]));
}
