//! Properties that hold across the commands and readers of `vx`.

use vstd::prelude::*;
use crate::cli::{
    elevation_choice, AddArgs, CleanArgs, FindArgs, ListArgs, ListCommand, RemoveArgs, UpdateArgs,
    UpgradeArgs,
};
use crate::text::{law_before_last_splits_at_last, words};
use crate::xbps::{
    add_selected_step, add_step, clean_cmd, find_step, flag, fzf_cmd, install_cmd, list_all_cmd, list_manual_cmd, list_orphans_cmd, list_step,
    parsed_line, StepView, remove_cmd, search_cmd, selected_names, selection_notices, set_mode_cmd,
    sync_cmd, update_cmd, upgrade_cmd,
};

verus! {

/// A line that reads as a package names it by its second word up to the
/// last `-`: that word is the name, a `-`, and a version without `-`; the
/// package counts as installed exactly when the first word is `[*]`. A line
/// with fewer than two words, or whose second word has no `-`, reads as
/// nothing.
pub proof fn law_package_name_ends_at_last_dash(line: Seq<char>)
    ensures
        parsed_line(line) matches Some((installed, name)) ==> {
            &&& words(line).len() >= 2
            &&& installed == (words(line)[0] == "[*]"@)
            &&& exists|v: Seq<char>| words(line)[1] == name.push('-') + v && !v.contains('-')
        },
        parsed_line(line) is None ==> words(line).len() < 2 || !words(line)[1].contains('-'),
{
    if words(line).len() >= 2 {
        law_before_last_splits_at_last(words(line)[1], '-');
    }
}

/// Every line chosen in fzf is accounted for once: it adds a package to
/// install, or it gives a remark (already installed, or unreadable). Every
/// package to install comes from a line that reads as not installed, and
/// every such line adds its package.
pub proof fn law_selection_accounts_for_every_line(lines: Seq<Seq<char>>)
    ensures
        selected_names(lines).len() + selection_notices(lines).len() == lines.len(),
        forall|i: int|
            0 <= i < selected_names(lines).len() ==> exists|j: int|
                0 <= j < lines.len() && parsed_line(lines[j]) == Some(
                    (false, #[trigger] selected_names(lines)[i]),
                ),
        forall|j: int|
            0 <= j < lines.len() && #[trigger] parsed_line(lines[j]) is Some && !parsed_line(
                lines[j],
            ).unwrap().0 ==> selected_names(lines).contains(parsed_line(lines[j]).unwrap().1),
    decreases lines.len(),
{
    if lines.len() > 0 {
        let init = lines.drop_last();
        law_selection_accounts_for_every_line(init);
        let names = selected_names(lines);
        let before = selected_names(init);
        assert forall|i: int| 0 <= i < names.len() implies exists|j: int|
            0 <= j < lines.len() && parsed_line(lines[j]) == Some((false, #[trigger] names[i])) by {
            if i < before.len() {
                assert(names[i] == before[i]);
                let j = choose|j: int|
                    0 <= j < init.len() && parsed_line(init[j]) == Some((false, before[i]));
                assert(lines[j] == init[j]);
            } else {
                assert(parsed_line(lines[lines.len() - 1]) == Some((false, names[i])));
            }
        }
        assert forall|j: int|
            0 <= j < lines.len() && #[trigger] parsed_line(lines[j]) is Some && !parsed_line(
                lines[j],
            ).unwrap().0 implies names.contains(parsed_line(lines[j]).unwrap().1) by {
            let (_, n) = parsed_line(lines[j]).unwrap();
            if j < init.len() {
                assert(lines[j] == init[j]);
                assert(before.contains(n));
                let k = choose|k: int| 0 <= k < before.len() && before[k] == n;
                assert(names[k] == n);
            } else {
                assert(names[names.len() - 1] == n);
            }
        }
    }
}

/// Pinning and unpinning run the same command on the same packages; only
/// the mode differs, `manual` against `auto`.
pub proof fn law_pin_and_unpin_differ_only_in_mode(packages: Seq<Seq<char>>)
    ensures
        ({
            let pin = set_mode_cmd("manual"@, packages);
            let unpin = set_mode_cmd("auto"@, packages);
            &&& pin.elevated == unpin.elevated
            &&& pin.program == unpin.program
            &&& pin.args.len() == unpin.args.len()
            &&& forall|k: int| 0 <= k < pin.args.len() && k != 1 ==> pin.args[k] == unpin.args[k]
            &&& pin.args[1] == "manual"@
            &&& unpin.args[1] == "auto"@
            &&& pin.args[1] != unpin.args[1]
        }),
{
    reveal_strlit("manual");
    reveal_strlit("auto");
    let pin = set_mode_cmd("manual"@, packages);
    let unpin = set_mode_cmd("auto"@, packages);
    assert(pin.args[1].len() != unpin.args[1].len());
}

/// `update` syncs the repositories and updates; `upgrade` updates from the
/// repository data already there, without syncing.
pub proof fn law_update_syncs_and_upgrade_does_not(up: &UpgradeArgs, ud: &UpdateArgs)
    ensures
        update_cmd(ud).args.contains("--sync"@),
        update_cmd(ud).args.contains("--update"@),
        upgrade_cmd(up).args.contains("--update"@),
        !upgrade_cmd(up).args.contains("--sync"@),
{
    reveal_strlit("--sync");
    reveal_strlit("--update");
    reveal_strlit("--yes");
    reveal_strlit("--dry-run");
    let ua = update_cmd(ud).args;
    assert(ua[0] == "--sync"@);
    assert(ua[1] == "--update"@);
    let ga = upgrade_cmd(up).args;
    assert(ga[0] == "--update"@);
    assert forall|k: int| 0 <= k < ga.len() implies #[trigger] ga[k] != "--sync"@ by {
        assert(ga[k].len() != "--sync"@.len());
    }
}

/// `clean` removes orphans exactly when asked to, and cleans the cache
/// exactly when asked to.
pub proof fn law_clean_does_what_was_asked(a: &CleanArgs)
    ensures
        clean_cmd(a).args.contains("--remove-orphans"@) == a.orphans,
        clean_cmd(a).args.contains("--clean-cache"@) == a.cache,
{
    reveal_strlit("--remove-orphans");
    reveal_strlit("--clean-cache");
    reveal_strlit("--yes");
    reveal_strlit("--dry-run");
    let args = clean_cmd(a).args;
    assert forall|k: int| 0 <= k < args.len() && #[trigger] args[k] == "--remove-orphans"@ implies a.orphans by {
        assert(args[k].len() == "--remove-orphans"@.len());
    }
    assert forall|k: int| 0 <= k < args.len() && #[trigger] args[k] == "--clean-cache"@ implies a.cache by {
        assert(args[k].len() == "--clean-cache"@.len());
    }
    if a.orphans {
        let k: int = if a.dry_run { 1 } else { 0 };
        assert(args[k] == "--remove-orphans"@);
    }
    if a.cache {
        let k: int = (if a.dry_run { 1int } else { 0int }) + (if a.orphans { 1int } else { 0int });
        assert(args[k] == "--clean-cache"@);
    }
}

/// `vx` asks for elevated privileges only for the commands that change the
/// system (installing, removing, syncing, setting modes); searching,
/// listing and browsing run as the user.
pub proof fn law_elevation_only_when_needed(
    add: &AddArgs,
    selected: Seq<Seq<char>>,
    up: &UpgradeArgs,
    ud: &UpdateArgs,
    rm: &RemoveArgs,
    cl: &CleanArgs,
    mode: Seq<char>,
    packages: Seq<Seq<char>>,
    query: Seq<char>,
    ls: &ListArgs,
)
    ensures
        sync_cmd().elevated,
        install_cmd(add, selected).elevated,
        upgrade_cmd(up).elevated,
        update_cmd(ud).elevated,
        remove_cmd(rm).elevated,
        clean_cmd(cl).elevated,
        set_mode_cmd(mode, packages).elevated,
        !search_cmd(query).elevated,
        !list_all_cmd(ls).elevated,
        !list_orphans_cmd(ls).elevated,
        !list_manual_cmd(ls).elevated,
        !fzf_cmd().elevated,
{
}

/// A listing never hands on the exit status of the command it runs: it
/// either runs `xbps-query` and succeeds whatever that returns, or browses
/// the output with fzf. It never runs elevated and always has a command.
pub proof fn law_listing_succeeds_whatever_the_query_returns(a: &ListArgs)
    ensures
        list_step(a) is RunIgnoringStatus || list_step(a) is Browse,
        !a.fzf ==> list_step(a) is RunIgnoringStatus,
        a.fzf ==> list_step(a) is Browse,
        match list_step(a) {
            StepView::RunIgnoringStatus(c) => !c.elevated && c.program == "xbps-query"@,
            StepView::Browse(c) => !c.elevated && c.program == "xbps-query"@,
            _ => false,
        },
{
}

proof fn lemma_flag_contains(on: bool, f: Seq<char>, x: Seq<char>)
    ensures
        flag(on, f).contains(x) == (on && f == x),
{
    if on {
        assert(flag(on, f)[0] == f);
    }
}

proof fn lemma_three_flags(
    b1: bool,
    f1: Seq<char>,
    b2: bool,
    f2: Seq<char>,
    b3: bool,
    f3: Seq<char>,
    x: Seq<char>,
)
    ensures
        (flag(b1, f1) + flag(b2, f2) + flag(b3, f3)).contains(x) == ((b1 && f1 == x) || (b2 && f2
            == x) || (b3 && f3 == x)),
        forall|k: int|
            0 <= k < (flag(b1, f1) + flag(b2, f2) + flag(b3, f3)).len() ==> {
                let o = #[trigger] (flag(b1, f1) + flag(b2, f2) + flag(b3, f3))[k];
                (b1 && o == f1) || (b2 && o == f2) || (b3 && o == f3)
            },
{
    broadcast use vstd::seq_lib::lemma_seq_concat_contains_all_elements;
    lemma_flag_contains(b1, f1, x);
    lemma_flag_contains(b2, f2, x);
    lemma_flag_contains(b3, f3, x);
    let s12 = flag(b1, f1) + flag(b2, f2);
    assert((s12 + flag(b3, f3)).contains(x) == (s12.contains(x) || flag(b3, f3).contains(x)));
    assert forall|k: int| 0 <= k < (s12 + flag(b3, f3)).len() implies {
        let o = #[trigger] (s12 + flag(b3, f3))[k];
        (b1 && o == f1) || (b2 && o == f2) || (b3 && o == f3)
    } by {
        let all = s12 + flag(b3, f3);
        assert(all.contains(all[k]));
        lemma_flag_contains(b1, f1, all[k]);
        lemma_flag_contains(b2, f2, all[k]);
        lemma_flag_contains(b3, f3, all[k]);
    }
}

/// The option words differ from one another.
proof fn lemma_options_differ()
    ensures
        "--force"@ != "--dry-run"@,
        "--force"@ != "--yes"@,
        "--dry-run"@ != "--yes"@,
        "--update"@ != "--yes"@,
        "--update"@ != "--dry-run"@,
        "--sync"@ != "--yes"@,
        "--sync"@ != "--dry-run"@,
        "--sync"@ != "--update"@,
        "--remove-orphans"@ != "--dry-run"@,
        "--remove-orphans"@ != "--yes"@,
        "--clean-cache"@ != "--dry-run"@,
        "--clean-cache"@ != "--yes"@,
        "--clean-cache"@ != "--remove-orphans"@,
        "--verbose"@ != "--search"@,
        "--verbose"@ != "--list-pkgs"@,
        "--search"@ != "--list-pkgs"@,
        "doas"@ != "sudo"@,
{
    reveal_strlit("--force");
    reveal_strlit("--dry-run");
    reveal_strlit("--yes");
    reveal_strlit("--update");
    reveal_strlit("--sync");
    reveal_strlit("--remove-orphans");
    reveal_strlit("--clean-cache");
    reveal_strlit("--verbose");
    reveal_strlit("--search");
    reveal_strlit("--list-pkgs");
    reveal_strlit("doas");
    reveal_strlit("sudo");
    assert("--force"@[2] != "--dry-run"@[2]);
    assert("--force"@[2] != "--yes"@[2]);
    assert("--dry-run"@[2] != "--yes"@[2]);
    assert("--update"@[2] != "--yes"@[2]);
    assert("--update"@[2] != "--dry-run"@[2]);
    assert("--sync"@[2] != "--yes"@[2]);
    assert("--sync"@[2] != "--dry-run"@[2]);
    assert("--sync"@[2] != "--update"@[2]);
    assert("--remove-orphans"@[2] != "--dry-run"@[2]);
    assert("--remove-orphans"@[2] != "--yes"@[2]);
    assert("--clean-cache"@[2] != "--dry-run"@[2]);
    assert("--clean-cache"@[2] != "--yes"@[2]);
    assert("--clean-cache"@[2] != "--remove-orphans"@[2]);
    assert("--verbose"@[2] != "--search"@[2]);
    assert("--verbose"@[2] != "--list-pkgs"@[2]);
    assert("--search"@[2] != "--list-pkgs"@[2]);
    assert("--verbose"@[2] != "--dry-run"@[2]);
    assert("--search"@[2] != "--update"@[2]);
    assert("doas"@[0] != "sudo"@[0]);
}

/// `vx add` installs with exactly the options asked for. The options come
/// first: `--force`, `--dry-run` and `--yes` each appear exactly when asked
/// for, independently of one another, and no other option appears. Then
/// come the named packages in order, then the packages chosen in fzf in
/// order. It always runs `xbps-install`, elevated.
pub proof fn law_install_passes_options_as_asked(a: &AddArgs, chosen: Seq<Seq<char>>)
    ensures
        ({
            let c = install_cmd(a, chosen);
            let packages = a.packages.deep_view() + chosen;
            let options = c.args.take(c.args.len() - packages.len());
            &&& c.elevated
            &&& c.program == "xbps-install"@
            &&& c.args.len() >= packages.len()
            &&& c.args.skip(c.args.len() - packages.len()) == packages
            &&& options.contains("--force"@) == a.force
            &&& options.contains("--dry-run"@) == a.dry_run
            &&& options.contains("--yes"@) == a.yes
            &&& forall|k: int|
                0 <= k < options.len() ==> #[trigger] options[k] == "--force"@ || options[k]
                    == "--dry-run"@ || options[k] == "--yes"@
        }),
{
    let c = install_cmd(a, chosen);
    let packages = a.packages.deep_view() + chosen;
    let f = flag(a.force, "--force"@) + flag(a.dry_run, "--dry-run"@) + flag(a.yes, "--yes"@);
    assert(c.args =~= f + packages);
    assert(c.args.take(c.args.len() - packages.len()) =~= f);
    assert(c.args.skip(c.args.len() - packages.len()) =~= packages);
    lemma_options_differ();
    lemma_three_flags(a.force, "--force"@, a.dry_run, "--dry-run"@, a.yes, "--yes"@, "--force"@);
    lemma_three_flags(a.force, "--force"@, a.dry_run, "--dry-run"@, a.yes, "--yes"@, "--dry-run"@);
    lemma_three_flags(a.force, "--force"@, a.dry_run, "--dry-run"@, a.yes, "--yes"@, "--yes"@);
}

/// `vx remove` passes exactly the options asked for: `--yes` and
/// `--dry-run` each appear exactly when asked for, independently of one
/// another, and no other option appears; then come the packages, in order.
/// It always runs `xbps-remove`, elevated.
pub proof fn law_remove_passes_options_as_asked(a: &RemoveArgs)
    ensures
        ({
            let c = remove_cmd(a);
            let packages = a.packages.deep_view();
            let options = c.args.take(c.args.len() - packages.len());
            &&& c.elevated
            &&& c.program == "xbps-remove"@
            &&& c.args.len() >= packages.len()
            &&& c.args.skip(c.args.len() - packages.len()) == packages
            &&& options.contains("--yes"@) == a.yes
            &&& options.contains("--dry-run"@) == a.dry_run
            &&& forall|k: int|
                0 <= k < options.len() ==> #[trigger] options[k] == "--yes"@ || options[k]
                    == "--dry-run"@
        }),
{
    let c = remove_cmd(a);
    let packages = a.packages.deep_view();
    let f = flag(a.yes, "--yes"@) + flag(a.dry_run, "--dry-run"@) + flag(false, ""@);
    assert(c.args =~= f + packages);
    assert(c.args.take(c.args.len() - packages.len()) =~= f);
    assert(c.args.skip(c.args.len() - packages.len()) =~= packages);
    lemma_options_differ();
    lemma_three_flags(a.yes, "--yes"@, a.dry_run, "--dry-run"@, false, ""@, "--yes"@);
    lemma_three_flags(a.yes, "--yes"@, a.dry_run, "--dry-run"@, false, ""@, "--dry-run"@);
}

/// `vx upgrade` always updates, never syncs, and passes `--yes` and
/// `--dry-run` exactly when asked; `vx update` always syncs and updates and
/// passes `--dry-run` and `--yes` exactly when asked. Both run
/// `xbps-install`, elevated, with no other option.
pub proof fn law_upgrade_and_update_pass_options_as_asked(up: &UpgradeArgs, ud: &UpdateArgs)
    ensures
        ({
            let c = upgrade_cmd(up);
            &&& c.elevated
            &&& c.program == "xbps-install"@
            &&& c.args.contains("--update"@)
            &&& !c.args.contains("--sync"@)
            &&& c.args.contains("--yes"@) == up.yes
            &&& c.args.contains("--dry-run"@) == up.dry_run
            &&& forall|k: int|
                0 <= k < c.args.len() ==> #[trigger] c.args[k] == "--update"@ || c.args[k]
                    == "--yes"@ || c.args[k] == "--dry-run"@
        }),
        ({
            let c = update_cmd(ud);
            &&& c.elevated
            &&& c.program == "xbps-install"@
            &&& c.args.contains("--sync"@)
            &&& c.args.contains("--update"@)
            &&& c.args.contains("--yes"@) == ud.yes
            &&& c.args.contains("--dry-run"@) == ud.dry_run
            &&& forall|k: int|
                0 <= k < c.args.len() ==> #[trigger] c.args[k] == "--sync"@ || c.args[k]
                    == "--update"@ || c.args[k] == "--yes"@ || c.args[k] == "--dry-run"@
        }),
{
    lemma_options_differ();
    let g = upgrade_cmd(up).args;
    assert(g =~= flag(true, "--update"@) + flag(up.yes, "--yes"@) + flag(up.dry_run, "--dry-run"@));
    lemma_three_flags(true, "--update"@, up.yes, "--yes"@, up.dry_run, "--dry-run"@, "--update"@);
    lemma_three_flags(true, "--update"@, up.yes, "--yes"@, up.dry_run, "--dry-run"@, "--sync"@);
    lemma_three_flags(true, "--update"@, up.yes, "--yes"@, up.dry_run, "--dry-run"@, "--yes"@);
    lemma_three_flags(true, "--update"@, up.yes, "--yes"@, up.dry_run, "--dry-run"@, "--dry-run"@);
    let u = update_cmd(ud).args;
    let rest = flag(ud.dry_run, "--dry-run"@) + flag(ud.yes, "--yes"@) + flag(false, ""@);
    assert(u =~= seq!["--sync"@, "--update"@] + rest);
    assert(u[0] == "--sync"@);
    assert(u[1] == "--update"@);
    lemma_three_flags(ud.dry_run, "--dry-run"@, ud.yes, "--yes"@, false, ""@, "--yes"@);
    lemma_three_flags(ud.dry_run, "--dry-run"@, ud.yes, "--yes"@, false, ""@, "--dry-run"@);
    assert(u.contains("--yes"@) == ud.yes) by {
        if u.contains("--yes"@) {
            let k = choose|k: int| 0 <= k < u.len() && u[k] == "--yes"@;
            assert(k >= 2);
            assert(rest[k - 2] == "--yes"@);
            assert(rest.contains("--yes"@));
        }
        if ud.yes {
            let k = choose|k: int| 0 <= k < rest.len() && rest[k] == "--yes"@;
            assert(u[k + 2] == "--yes"@);
        }
    }
    assert(u.contains("--dry-run"@) == ud.dry_run) by {
        if u.contains("--dry-run"@) {
            let k = choose|k: int| 0 <= k < u.len() && u[k] == "--dry-run"@;
            assert(k >= 2);
            assert(rest[k - 2] == "--dry-run"@);
            assert(rest.contains("--dry-run"@));
        }
        if ud.dry_run {
            let k = choose|k: int| 0 <= k < rest.len() && rest[k] == "--dry-run"@;
            assert(u[k + 2] == "--dry-run"@);
        }
    }
    assert forall|k: int| 0 <= k < u.len() implies #[trigger] u[k] == "--sync"@ || u[k]
        == "--update"@ || u[k] == "--yes"@ || u[k] == "--dry-run"@ by {
        if k >= 2 {
            assert(u[k] == rest[k - 2]);
        }
    }
}

/// `vx find` always searches the repositories for the user's query (the
/// empty query when none is given), with or without fzf: it browses the
/// search results when fzf was asked for and found, reports fzf missing when
/// it was asked for and not found, and runs the search otherwise. The search
/// runs as the user.
pub proof fn law_find_searches_for_the_query(a: &FindArgs, fzf_found: bool)
    ensures
        ({
            let q = match a.query {
                Some(q) => q@,
                None => ""@,
            };
            match find_step(a, fzf_found) {
                StepView::Run(c) => !a.fzf && !c.elevated && c.program == "xbps-query"@
                    && c.args == seq!["-R"@, "--search"@, q],
                StepView::Browse(c) => a.fzf && fzf_found && !c.elevated && c.program
                    == "xbps-query"@ && c.args == seq!["-R"@, "--search"@, q],
                StepView::FzfMissing => a.fzf && !fzf_found,
                _ => false,
            }
        }),
        a.fzf && fzf_found ==> find_step(a, fzf_found) is Browse,
        a.fzf && !fzf_found ==> find_step(a, fzf_found) is FzfMissing,
        !a.fzf ==> find_step(a, fzf_found) is Run,
{
}

/// Listing all packages searches for the query when one is given, whether or
/// not `--verbose` is given: the listing ends with `--search` and the query,
/// and `--list-pkgs` is passed only when there is no query, as the last
/// option. `--verbose` comes first exactly when asked for. Listing orphans
/// and manually installed packages passes `--list-orphans` or
/// `--list-manual-pkgs`, then `--verbose` exactly when asked for. All run
/// `xbps-query` as the user.
pub proof fn law_listings_pass_options_as_asked(a: &ListArgs)
    ensures
        ({
            let c = list_all_cmd(a);
            let n = c.args.len();
            &&& !c.elevated
            &&& c.program == "xbps-query"@
            &&& n >= 1
            &&& (a.verbose <==> c.args[0] == "--verbose"@)
            &&& match a.query {
                Some(q) => {
                    &&& n == (if a.verbose { 3int } else { 2int })
                    &&& c.args[n - 2] == "--search"@
                    &&& c.args[n - 1] == q@
                    &&& forall|k: int| 0 <= k < n - 1 ==> #[trigger] c.args[k] != "--list-pkgs"@
                },
                None => {
                    &&& n == (if a.verbose { 2int } else { 1int })
                    &&& c.args[n - 1] == "--list-pkgs"@
                    &&& !c.args.contains("--search"@)
                },
            }
        }),
        ({
            let c = list_orphans_cmd(a);
            &&& !c.elevated
            &&& c.program == "xbps-query"@
            &&& c.args.len() == (if a.verbose { 2int } else { 1int })
            &&& c.args[0] == "--list-orphans"@
            &&& a.verbose ==> c.args[1] == "--verbose"@
        }),
        ({
            let c = list_manual_cmd(a);
            &&& !c.elevated
            &&& c.program == "xbps-query"@
            &&& c.args.len() == (if a.verbose { 2int } else { 1int })
            &&& c.args[0] == "--list-manual-pkgs"@
            &&& a.verbose ==> c.args[1] == "--verbose"@
        }),
        a.command is All ==> list_step(a) == (if a.fzf {
            StepView::Browse(list_all_cmd(a))
        } else {
            StepView::RunIgnoringStatus(list_all_cmd(a))
        }),
        a.command is Orphans ==> list_step(a) == (if a.fzf {
            StepView::Browse(list_orphans_cmd(a))
        } else {
            StepView::RunIgnoringStatus(list_orphans_cmd(a))
        }),
        a.command is Manual ==> list_step(a) == (if a.fzf {
            StepView::Browse(list_manual_cmd(a))
        } else {
            StepView::RunIgnoringStatus(list_manual_cmd(a))
        }),
{
    lemma_options_differ();
    reveal_strlit("--list-orphans");
    reveal_strlit("--list-manual-pkgs");
    let c = list_all_cmd(a);
    match a.query {
        Some(q) => {
            if a.verbose {
                assert(c.args =~= seq!["--verbose"@, "--search"@, q@]);
            } else {
                assert(c.args =~= seq!["--search"@, q@]);
            }
        },
        None => {
            if a.verbose {
                assert(c.args =~= seq!["--verbose"@, "--list-pkgs"@]);
            } else {
                assert(c.args =~= seq!["--list-pkgs"@]);
            }
        },
    }
    if a.verbose {
        assert(list_orphans_cmd(a).args =~= seq!["--list-orphans"@, "--verbose"@]);
        assert(list_manual_cmd(a).args =~= seq!["--list-manual-pkgs"@, "--verbose"@]);
    } else {
        assert(list_orphans_cmd(a).args =~= seq!["--list-orphans"@]);
        assert(list_manual_cmd(a).args =~= seq!["--list-manual-pkgs"@]);
    }
}

/// The elevation command is `doas` whenever `doas` was found, whatever else
/// was; `sudo` when only `sudo` was found; and there is none only when
/// neither was found.
pub proof fn law_doas_preferred_then_sudo(doas_found: bool, sudo_found: bool)
    ensures
        doas_found ==> elevation_choice(doas_found, sudo_found) == Some("doas"@),
        !doas_found && sudo_found ==> elevation_choice(doas_found, sudo_found) == Some("sudo"@),
        elevation_choice(doas_found, sudo_found) is None <==> !doas_found && !sudo_found,
        elevation_choice(doas_found, sudo_found) is Some ==> elevation_choice(true, sudo_found)
            == Some("doas"@),
        elevation_choice(true, false) != elevation_choice(false, true),
{
    lemma_options_differ();
}

/// `vx clean` passes `--dry-run`, `--remove-orphans`, `--clean-cache` and
/// `--yes` each exactly when asked for, independently of one another, and
/// no other option; it runs `xbps-remove`, elevated.
pub proof fn law_clean_passes_options_as_asked(a: &CleanArgs)
    ensures
        ({
            let c = clean_cmd(a);
            &&& c.elevated
            &&& c.program == "xbps-remove"@
            &&& c.args.contains("--dry-run"@) == a.dry_run
            &&& c.args.contains("--remove-orphans"@) == a.orphans
            &&& c.args.contains("--clean-cache"@) == a.cache
            &&& c.args.contains("--yes"@) == a.yes
            &&& forall|k: int|
                0 <= k < c.args.len() ==> #[trigger] c.args[k] == "--dry-run"@ || c.args[k]
                    == "--remove-orphans"@ || c.args[k] == "--clean-cache"@ || c.args[k]
                    == "--yes"@
        }),
{
    broadcast use vstd::seq_lib::lemma_seq_concat_contains_all_elements;
    lemma_options_differ();
    let first = flag(a.dry_run, "--dry-run"@) + flag(a.orphans, "--remove-orphans"@) + flag(
        a.cache,
        "--clean-cache"@,
    );
    let args = clean_cmd(a).args;
    assert(args == first + flag(a.yes, "--yes"@));
    lemma_three_flags(a.dry_run, "--dry-run"@, a.orphans, "--remove-orphans"@, a.cache, "--clean-cache"@, "--dry-run"@);
    lemma_three_flags(a.dry_run, "--dry-run"@, a.orphans, "--remove-orphans"@, a.cache, "--clean-cache"@, "--remove-orphans"@);
    lemma_three_flags(a.dry_run, "--dry-run"@, a.orphans, "--remove-orphans"@, a.cache, "--clean-cache"@, "--clean-cache"@);
    lemma_three_flags(a.dry_run, "--dry-run"@, a.orphans, "--remove-orphans"@, a.cache, "--clean-cache"@, "--yes"@);
    lemma_flag_contains(a.yes, "--yes"@, "--dry-run"@);
    lemma_flag_contains(a.yes, "--yes"@, "--remove-orphans"@);
    lemma_flag_contains(a.yes, "--yes"@, "--clean-cache"@);
    lemma_flag_contains(a.yes, "--yes"@, "--yes"@);
    assert forall|k: int| 0 <= k < args.len() implies #[trigger] args[k] == "--dry-run"@ || args[k]
        == "--remove-orphans"@ || args[k] == "--clean-cache"@ || args[k] == "--yes"@ by {
        if k < first.len() {
            assert(args[k] == first[k]);
        } else {
            assert(args[k] == flag(a.yes, "--yes"@)[k - first.len()]);
        }
    }
}

/// Setting a mode passes `--mode`, then the mode, then the packages in
/// order, to `xbps-pkgdb`, elevated.
pub proof fn law_set_mode_names_mode_then_packages(mode: Seq<char>, packages: Seq<Seq<char>>)
    ensures
        ({
            let c = set_mode_cmd(mode, packages);
            &&& c.elevated
            &&& c.program == "xbps-pkgdb"@
            &&& c.args.len() == packages.len() + 2
            &&& c.args[0] == "--mode"@
            &&& c.args[1] == mode
            &&& c.args.skip(2) == packages
        }),
{
    assert(set_mode_cmd(mode, packages).args.skip(2) =~= packages);
}

/// The first step of `vx add`: nothing to do exactly when no package is
/// named and fzf is not asked for. With fzf it browses every package
/// (`xbps-query -R --search` with the empty query) when fzf was found, and
/// reports fzf missing when it was not. Without fzf it installs the named
/// packages and nothing else.
pub proof fn law_add_first_step(a: &AddArgs, fzf_found: bool)
    ensures
        (add_step(a, fzf_found) is NothingToDo) <==> (a.packages@.len() == 0 && !a.fzf),
        a.fzf && fzf_found ==> add_step(a, fzf_found) == StepView::Browse(search_cmd(""@)),
        a.fzf && fzf_found ==> search_cmd(""@).args == seq!["-R"@, "--search"@, ""@],
        a.fzf && !fzf_found ==> add_step(a, fzf_found) is FzfMissing,
        !a.fzf && a.packages@.len() > 0 ==> add_step(a, fzf_found) == StepView::Run(
            install_cmd(a, seq![]),
        ),
{
}

/// After choosing in fzf, `vx add` does nothing when nothing was chosen, or
/// when neither named nor chosen packages remain to install; else it
/// installs the named packages, then the chosen packages not yet installed.
pub proof fn law_add_after_choosing(a: &AddArgs, chosen: Seq<Seq<char>>)
    ensures
        chosen.len() == 0 ==> add_selected_step(a, chosen) is NothingToDo,
        chosen.len() > 0 ==> ((add_selected_step(a, chosen) is NothingToDo) <==> (
        a.packages@.len() == 0 && selected_names(chosen).len() == 0)),
        !(add_selected_step(a, chosen) is NothingToDo) ==> add_selected_step(a, chosen)
            == StepView::Run(install_cmd(a, selected_names(chosen))),
{
}

} // verus!
