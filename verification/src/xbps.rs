//! The XBPS commands that `vx` runs, as plain command lines, and the
//! reading of what `xbps-query` prints.

use vstd::prelude::*;
use crate::cli::{
    elevate, AddArgs, CleanArgs, FindArgs, ListArgs, ListCommand, PinArgs, RemoveArgs, UnpinArgs,
    UpdateArgs, UpgradeArgs,
};
use crate::host::on_path;
use crate::text::{before_last, lines, lines_of, prefix_before_last, split_whitespace, words};

verus! {

/// A command to run: a program, its arguments, and whether it runs through
/// the privilege command.
#[derive(Debug)]
pub struct Invocation {
    /// Run through the privilege command (`doas`, `sudo`, ...).
    pub elevated: bool,
    /// The program to run.
    pub program: String,
    /// Its arguments, in order.
    pub args: Vec<String>,
}

/// The meaning of an [`Invocation`].
pub struct InvocationView {
    pub elevated: bool,
    pub program: Seq<char>,
    pub args: Seq<Seq<char>>,
}

impl View for Invocation {
    type V = InvocationView;

    open spec fn view(&self) -> InvocationView {
        InvocationView {
            elevated: self.elevated,
            program: self.program@,
            args: self.args.deep_view(),
        }
    }
}

/// What to do next for a command.
#[derive(Debug)]
pub enum Step {
    /// Nothing to do: report it and succeed.
    NothingToDo,
    /// fzf was asked for but is not installed: report it and fail.
    FzfMissing,
    /// Run the command and hand on its exit status.
    Run(Invocation),
    /// Run the command, then succeed with the default status whatever its
    /// own exit status was (a listing).
    RunIgnoringStatus(Invocation),
    /// Run the command with its output piped through fzf
    /// ([`fzf_invocation`]), print the lines chosen, and succeed.
    Browse(Invocation),
}

/// The meaning of a [`Step`].
pub enum StepView {
    NothingToDo,
    FzfMissing,
    Run(InvocationView),
    RunIgnoringStatus(InvocationView),
    Browse(InvocationView),
}

impl View for Step {
    type V = StepView;

    open spec fn view(&self) -> StepView {
        match self {
            Step::NothingToDo => StepView::NothingToDo,
            Step::FzfMissing => StepView::FzfMissing,
            Step::Run(i) => StepView::Run(i@),
            Step::RunIgnoringStatus(i) => StepView::RunIgnoringStatus(i@),
            Step::Browse(i) => StepView::Browse(i@),
        }
    }
}

/// `f` when `on`, else nothing.
pub open spec fn flag(on: bool, f: Seq<char>) -> Seq<Seq<char>> {
    if on {
        seq![f]
    } else {
        seq![]
    }
}

/// The full command line of `inv`, with `privilege` in front when it is
/// elevated.
pub open spec fn argv_of(inv: InvocationView, privilege: Seq<char>) -> Seq<Seq<char>> {
    (if inv.elevated {
        seq![privilege, inv.program]
    } else {
        seq![inv.program]
    }) + inv.args
}

fn push_text(v: &mut Vec<String>, s: &str)
    ensures
        final(v).deep_view() == old(v).deep_view().push(s@),
{
    let ghost before = v.deep_view();
    v.push(String::from_str(s));
    assert(v.deep_view() =~= before.push(s@));
}

fn push_flag(v: &mut Vec<String>, on: bool, f: &str)
    ensures
        final(v).deep_view() == old(v).deep_view() + flag(on, f@),
{
    if on {
        push_text(v, f);
    }
    assert(final(v).deep_view() =~= old(v).deep_view() + flag(on, f@));
}

fn push_all(v: &mut Vec<String>, more: &Vec<String>)
    ensures
        final(v).deep_view() == old(v).deep_view() + more.deep_view(),
{
    let ghost start = v.deep_view();
    let mut k: usize = 0;
    while k < more.len()
        invariant
            k <= more@.len(),
            v.deep_view() == start + more.deep_view().take(k as int),
        decreases more@.len() - k,
    {
        let ghost before = v.deep_view();
        v.push(more[k].clone());
        assert(v.deep_view() =~= before.push(more@[k as int]@));
        assert(more.deep_view().take(k + 1) =~= more.deep_view().take(k as int).push(
            more@[k as int]@,
        ));
        k = k + 1;
    }
    assert(more.deep_view().take(k as int) =~= more.deep_view());
}

impl Invocation {
    /// The full command line: the privilege command and the program when
    /// elevated, else the program alone; then the arguments.
    pub fn argv(&self, privilege: &str) -> (r: Vec<String>)
        ensures
            r.deep_view() == argv_of(self@, privilege@),
    {
        let mut v: Vec<String> = if self.elevated {
            elevate(privilege, self.program.as_str())
        } else {
            let mut v: Vec<String> = Vec::new();
            push_text(&mut v, self.program.as_str());
            v
        };
        push_all(&mut v, &self.args);
        assert(v.deep_view() =~= argv_of(self@, privilege@));
        v
    }
}

} // verus!

verus! {

/// `xbps-install --sync`, elevated.
pub open spec fn sync_cmd() -> InvocationView {
    InvocationView { elevated: true, program: "xbps-install"@, args: seq!["--sync"@] }
}

/// `xbps-install --update [--yes] [--dry-run]`, elevated.
pub open spec fn upgrade_cmd(a: &UpgradeArgs) -> InvocationView {
    InvocationView {
        elevated: true,
        program: "xbps-install"@,
        args: seq!["--update"@] + flag(a.yes, "--yes"@) + flag(a.dry_run, "--dry-run"@),
    }
}

/// `xbps-install --sync --update [--dry-run] [--yes]`, elevated.
pub open spec fn update_cmd(a: &UpdateArgs) -> InvocationView {
    InvocationView {
        elevated: true,
        program: "xbps-install"@,
        args: seq!["--sync"@, "--update"@] + flag(a.dry_run, "--dry-run"@) + flag(a.yes, "--yes"@),
    }
}

/// `xbps-remove [--yes] [--dry-run] PACKAGES...`, elevated.
pub open spec fn remove_cmd(a: &RemoveArgs) -> InvocationView {
    InvocationView {
        elevated: true,
        program: "xbps-remove"@,
        args: flag(a.yes, "--yes"@) + flag(a.dry_run, "--dry-run"@) + a.packages.deep_view(),
    }
}

/// `xbps-remove [--dry-run] [--remove-orphans] [--clean-cache] [--yes]`,
/// elevated.
pub open spec fn clean_cmd(a: &CleanArgs) -> InvocationView {
    InvocationView {
        elevated: true,
        program: "xbps-remove"@,
        args: flag(a.dry_run, "--dry-run"@) + flag(a.orphans, "--remove-orphans"@) + flag(
            a.cache,
            "--clean-cache"@,
        ) + flag(a.yes, "--yes"@),
    }
}

/// `xbps-pkgdb --mode MODE PACKAGES...`, elevated.
pub open spec fn set_mode_cmd(mode: Seq<char>, packages: Seq<Seq<char>>) -> InvocationView {
    InvocationView {
        elevated: true,
        program: "xbps-pkgdb"@,
        args: seq!["--mode"@, mode] + packages,
    }
}

/// `xbps-query -R --search QUERY`, not elevated.
pub open spec fn search_cmd(query: Seq<char>) -> InvocationView {
    InvocationView { elevated: false, program: "xbps-query"@, args: seq!["-R"@, "--search"@, query] }
}

/// `xbps-install [--force] [--dry-run] [--yes] PACKAGES... SELECTED...`,
/// elevated.
pub open spec fn install_cmd(a: &AddArgs, selected: Seq<Seq<char>>) -> InvocationView {
    InvocationView {
        elevated: true,
        program: "xbps-install"@,
        args: flag(a.force, "--force"@) + flag(a.dry_run, "--dry-run"@) + flag(a.yes, "--yes"@)
            + a.packages.deep_view() + selected,
    }
}

/// `xbps-query [--verbose] (--search QUERY | --list-pkgs)`, not elevated.
pub open spec fn list_all_cmd(a: &ListArgs) -> InvocationView {
    InvocationView {
        elevated: false,
        program: "xbps-query"@,
        args: flag(a.verbose, "--verbose"@) + match a.query {
            Some(q) => seq!["--search"@, q@],
            None => seq!["--list-pkgs"@],
        },
    }
}

/// `xbps-query --list-orphans [--verbose]`, not elevated.
pub open spec fn list_orphans_cmd(a: &ListArgs) -> InvocationView {
    InvocationView {
        elevated: false,
        program: "xbps-query"@,
        args: seq!["--list-orphans"@] + flag(a.verbose, "--verbose"@),
    }
}

/// `xbps-query --list-manual-pkgs [--verbose]`, not elevated.
pub open spec fn list_manual_cmd(a: &ListArgs) -> InvocationView {
    InvocationView {
        elevated: false,
        program: "xbps-query"@,
        args: seq!["--list-manual-pkgs"@] + flag(a.verbose, "--verbose"@),
    }
}

fn invocation(elevated: bool, program: &str, args: Vec<String>) -> (r: Invocation)
    ensures
        r@ == (InvocationView { elevated, program: program@, args: args.deep_view() }),
{
    Invocation { elevated, program: String::from_str(program), args }
}

/// Syncs the XBPS repositories.
pub fn sync() -> (r: Invocation)
    ensures
        r@ == sync_cmd(),
{
    let mut a: Vec<String> = Vec::new();
    push_text(&mut a, "--sync");
    assert(a.deep_view() =~= seq!["--sync"@]);
    invocation(true, "xbps-install", a)
}

/// Upgrades all packages using the repository data already there.
pub fn upgrade(args: &UpgradeArgs) -> (r: Invocation)
    ensures
        r@ == upgrade_cmd(args),
{
    let mut a: Vec<String> = Vec::new();
    push_text(&mut a, "--update");
    push_flag(&mut a, args.yes, "--yes");
    push_flag(&mut a, args.dry_run, "--dry-run");
    assert(a.deep_view() =~= upgrade_cmd(args).args);
    invocation(true, "xbps-install", a)
}

/// Syncs the repositories and updates the whole system.
pub fn update(args: &UpdateArgs) -> (r: Invocation)
    ensures
        r@ == update_cmd(args),
{
    let mut a: Vec<String> = Vec::new();
    push_text(&mut a, "--sync");
    push_text(&mut a, "--update");
    push_flag(&mut a, args.dry_run, "--dry-run");
    push_flag(&mut a, args.yes, "--yes");
    assert(a.deep_view() =~= update_cmd(args).args);
    invocation(true, "xbps-install", a)
}

/// Removes packages; nothing to do when none are named.
pub fn remove(args: &RemoveArgs) -> (r: Step)
    ensures
        args.packages@.len() == 0 ==> r@ == StepView::NothingToDo,
        args.packages@.len() > 0 ==> r@ == StepView::Run(remove_cmd(args)),
{
    if args.packages.len() == 0 {
        return Step::NothingToDo;
    }
    let mut a: Vec<String> = Vec::new();
    push_flag(&mut a, args.yes, "--yes");
    push_flag(&mut a, args.dry_run, "--dry-run");
    push_all(&mut a, &args.packages);
    assert(a.deep_view() =~= remove_cmd(args).args);
    Step::Run(invocation(true, "xbps-remove", a))
}

/// Removes orphaned packages and/or cleans the package cache; nothing to do
/// when neither is asked for.
pub fn clean(args: &CleanArgs) -> (r: Step)
    ensures
        !(args.orphans || args.cache) ==> r@ == StepView::NothingToDo,
        (args.orphans || args.cache) ==> r@ == StepView::Run(clean_cmd(args)),
{
    if !(args.orphans || args.cache) {
        return Step::NothingToDo;
    }
    let mut a: Vec<String> = Vec::new();
    push_flag(&mut a, args.dry_run, "--dry-run");
    push_flag(&mut a, args.orphans, "--remove-orphans");
    push_flag(&mut a, args.cache, "--clean-cache");
    push_flag(&mut a, args.yes, "--yes");
    assert(a.deep_view() =~= clean_cmd(args).args);
    Step::Run(invocation(true, "xbps-remove", a))
}

/// Sets the installation mode of packages; nothing to do when none are
/// named.
pub fn set_mode(mode: &str, packages: &Vec<String>) -> (r: Step)
    ensures
        packages@.len() == 0 ==> r@ == StepView::NothingToDo,
        packages@.len() > 0 ==> r@ == StepView::Run(set_mode_cmd(mode@, packages.deep_view())),
{
    if packages.len() == 0 {
        return Step::NothingToDo;
    }
    let mut a: Vec<String> = Vec::new();
    push_text(&mut a, "--mode");
    push_text(&mut a, mode);
    push_all(&mut a, packages);
    assert(a.deep_view() =~= set_mode_cmd(mode@, packages.deep_view()).args);
    Step::Run(invocation(true, "xbps-pkgdb", a))
}

/// Marks packages as manually installed, so that `clean` keeps them.
pub fn pin(args: &PinArgs) -> (r: Step)
    ensures
        args.packages@.len() == 0 ==> r@ == StepView::NothingToDo,
        args.packages@.len() > 0 ==> r@ == StepView::Run(
            set_mode_cmd("manual"@, args.packages.deep_view()),
        ),
{
    set_mode("manual", &args.packages)
}

/// Marks packages as automatically installed again.
pub fn unpin(args: &UnpinArgs) -> (r: Step)
    ensures
        args.packages@.len() == 0 ==> r@ == StepView::NothingToDo,
        args.packages@.len() > 0 ==> r@ == StepView::Run(
            set_mode_cmd("auto"@, args.packages.deep_view()),
        ),
{
    set_mode("auto", &args.packages)
}

} // verus!

verus! {

/// A listing: browses the output of `cmd` with fzf when `fzf` is set, else
/// runs `cmd` as it is; either way the listing succeeds whatever the exit
/// status of `cmd`.
pub open spec fn shown(fzf: bool, cmd: InvocationView) -> StepView {
    if fzf {
        StepView::Browse(cmd)
    } else {
        StepView::RunIgnoringStatus(cmd)
    }
}

fn show(fzf: bool, inv: Invocation) -> (r: Step)
    ensures
        r@ == shown(fzf, inv@),
{
    if fzf {
        Step::Browse(inv)
    } else {
        Step::RunIgnoringStatus(inv)
    }
}

/// Lists all packages, or searches them when a query is given.
pub fn list_all_pkgs(args: &ListArgs) -> (r: Step)
    ensures
        r@ == shown(args.fzf, list_all_cmd(args)),
{
    let mut a: Vec<String> = Vec::new();
    push_flag(&mut a, args.verbose, "--verbose");
    match &args.query {
        Some(q) => {
            push_text(&mut a, "--search");
            push_text(&mut a, q.as_str());
        },
        None => {
            push_text(&mut a, "--list-pkgs");
        },
    }
    assert(a.deep_view() =~= list_all_cmd(args).args);
    show(args.fzf, invocation(false, "xbps-query", a))
}

/// Lists orphaned packages.
pub fn list_orphaned_pkgs(args: &ListArgs) -> (r: Step)
    ensures
        r@ == shown(args.fzf, list_orphans_cmd(args)),
{
    let mut a: Vec<String> = Vec::new();
    push_text(&mut a, "--list-orphans");
    push_flag(&mut a, args.verbose, "--verbose");
    assert(a.deep_view() =~= list_orphans_cmd(args).args);
    show(args.fzf, invocation(false, "xbps-query", a))
}

/// Lists manually installed packages.
pub fn list_manual_pkgs(args: &ListArgs) -> (r: Step)
    ensures
        r@ == shown(args.fzf, list_manual_cmd(args)),
{
    let mut a: Vec<String> = Vec::new();
    push_text(&mut a, "--list-manual-pkgs");
    push_flag(&mut a, args.verbose, "--verbose");
    assert(a.deep_view() =~= list_manual_cmd(args).args);
    show(args.fzf, invocation(false, "xbps-query", a))
}

/// The listing that `args.command` asks for.
pub open spec fn list_step(a: &ListArgs) -> StepView {
    match a.command {
        ListCommand::All => shown(a.fzf, list_all_cmd(a)),
        ListCommand::Orphans => shown(a.fzf, list_orphans_cmd(a)),
        ListCommand::Manual => shown(a.fzf, list_manual_cmd(a)),
    }
}

/// Lists packages of the kind that `args.command` names.
pub fn list(args: &ListArgs) -> (r: Step)
    ensures
        r@ == list_step(args),
{
    match args.command {
        ListCommand::All => list_all_pkgs(args),
        ListCommand::Orphans => list_orphaned_pkgs(args),
        ListCommand::Manual => list_manual_pkgs(args),
    }
}

fn search(query: &str) -> (r: Invocation)
    ensures
        r@ == search_cmd(query@),
{
    let mut a: Vec<String> = Vec::new();
    push_text(&mut a, "-R");
    push_text(&mut a, "--search");
    push_text(&mut a, query);
    assert(a.deep_view() =~= search_cmd(query@).args);
    invocation(false, "xbps-query", a)
}

/// The query of `vx find`, empty when none was given.
pub open spec fn find_query(a: &FindArgs) -> Seq<char> {
    match a.query {
        Some(q) => q@,
        None => ""@,
    }
}

/// What `vx find` does, given whether fzf is on the search path.
pub open spec fn find_step(a: &FindArgs, fzf_found: bool) -> StepView {
    if a.fzf {
        if fzf_found {
            StepView::Browse(search_cmd(find_query(a)))
        } else {
            StepView::FzfMissing
        }
    } else {
        StepView::Run(search_cmd(find_query(a)))
    }
}

/// Searches the repositories, given whether fzf is on the search path.
/// Without `--fzf` a query is required.
pub fn find_with(args: &FindArgs, fzf_found: bool) -> (r: Step)
    requires
        args.fzf || args.query is Some,
    ensures
        r@ == find_step(args, fzf_found),
{
    let query: &str = match &args.query {
        Some(q) => q.as_str(),
        None => "",
    };
    if args.fzf {
        if fzf_found {
            Step::Browse(search(query))
        } else {
            Step::FzfMissing
        }
    } else {
        Step::Run(search(query))
    }
}

/// Searches the repositories. With `--fzf` it first looks on the search
/// path for the program that `fzf_invocation` runs; what is found depends
/// on the machine. Without `--fzf` a query is required.
pub fn find(args: &FindArgs) -> (r: Step)
    requires
        args.fzf || args.query is Some,
    ensures
        r@ == find_step(args, true) || r@ == find_step(args, false),
        !args.fzf ==> r@ == find_step(args, true),
{
    let fzf_found = if args.fzf {
        on_path(fzf_invocation().program.as_str())
    } else {
        true
    };
    find_with(args, fzf_found)
}

/// What `vx add` does first, given whether fzf is on the search path:
/// nothing without packages or `--fzf`; with `--fzf`, search all packages
/// to choose from; else install the named packages.
pub open spec fn add_step(a: &AddArgs, fzf_found: bool) -> StepView {
    if a.packages@.len() == 0 && !a.fzf {
        StepView::NothingToDo
    } else if a.fzf {
        if fzf_found {
            StepView::Browse(search_cmd(""@))
        } else {
            StepView::FzfMissing
        }
    } else {
        StepView::Run(install_cmd(a, seq![]))
    }
}

fn install(args: &AddArgs, selected: &Vec<String>) -> (r: Invocation)
    ensures
        r@ == install_cmd(args, selected.deep_view()),
{
    let mut a: Vec<String> = Vec::new();
    push_flag(&mut a, args.force, "--force");
    push_flag(&mut a, args.dry_run, "--dry-run");
    push_flag(&mut a, args.yes, "--yes");
    push_all(&mut a, &args.packages);
    push_all(&mut a, selected);
    assert(a.deep_view() =~= install_cmd(args, selected.deep_view()).args);
    invocation(true, "xbps-install", a)
}

/// The first step of `vx add`, given whether fzf is on the search path.
pub fn add_with(args: &AddArgs, fzf_found: bool) -> (r: Step)
    ensures
        r@ == add_step(args, fzf_found),
{
    if args.packages.len() == 0 && !args.fzf {
        Step::NothingToDo
    } else if args.fzf {
        if fzf_found {
            Step::Browse(search(""))
        } else {
            Step::FzfMissing
        }
    } else {
        let none: Vec<String> = Vec::new();
        let r = install(args, &none);
        assert(none.deep_view() =~= Seq::<Seq<char>>::empty());
        Step::Run(r)
    }
}

/// The first step of `vx add`. With `--fzf` it looks on the search path for
/// the program that `fzf_invocation` runs; what is found depends on the
/// machine.
pub fn add(args: &AddArgs) -> (r: Step)
    ensures
        r@ == add_step(args, true) || r@ == add_step(args, false),
        !args.fzf ==> r@ == add_step(args, true),
{
    let fzf_found = if args.fzf {
        on_path(fzf_invocation().program.as_str())
    } else {
        true
    };
    add_with(args, fzf_found)
}

} // verus!

verus! {

/// What a line of `xbps-query --search` output says, such as
/// `[*] foo-bar-1.2.3_1  Some description`: whether the package is installed
/// (its first word is `[*]`) and its name (the second word up to its last
/// `-`). `None` when there are fewer than two words or the second has no `-`.
pub open spec fn parsed_line(line: Seq<char>) -> Option<(bool, Seq<char>)> {
    let w = words(line);
    if w.len() < 2 {
        None
    } else {
        match before_last(w[1], '-') {
            Some(name) => Some((w[0] == "[*]"@, name)),
            None => None,
        }
    }
}

/// Reads a line of `xbps-query --search` output: whether the package is
/// installed, and its name.
pub fn parse_xbps_line(line: &str) -> (r: Option<(bool, String)>)
    ensures
        match r {
            Some((installed, name)) => parsed_line(line@) == Some((installed, name@)),
            None => parsed_line(line@) is None,
        },
{
    let parts = split_whitespace(line);
    if parts.len() < 2 {
        return None;
    }
    assert(parts@[1]@ == words(line@)[1]);
    match prefix_before_last(parts[1].as_str(), '-') {
        None => None,
        Some(name) => {
            let star = String::from_str("[*]");
            assert(parts@[0]@ == words(line@)[0]);
            let installed = parts[0] == star;
            Some((installed, name))
        },
    }
}

/// A remark made while reading the lines chosen in fzf.
#[derive(Debug)]
pub enum Notice {
    /// The package is already installed, so it is skipped.
    AlreadyInstalled(String),
    /// The line could not be read.
    Unparsable(String),
}

/// The meaning of a [`Notice`].
pub enum NoticeView {
    AlreadyInstalled(Seq<char>),
    Unparsable(Seq<char>),
}

impl DeepView for Notice {
    type V = NoticeView;

    open spec fn deep_view(&self) -> NoticeView {
        match self {
            Notice::AlreadyInstalled(n) => NoticeView::AlreadyInstalled(n@),
            Notice::Unparsable(l) => NoticeView::Unparsable(l@),
        }
    }
}

/// The names of the packages on `lines` that are not installed yet, in
/// order.
pub open spec fn selected_names(lines: Seq<Seq<char>>) -> Seq<Seq<char>>
    decreases lines.len(),
{
    if lines.len() == 0 {
        seq![]
    } else {
        let rest = selected_names(lines.drop_last());
        match parsed_line(lines.last()) {
            Some((false, name)) => rest.push(name),
            _ => rest,
        }
    }
}

/// The remarks on `lines`, in order: each installed package and each line
/// that could not be read.
pub open spec fn selection_notices(lines: Seq<Seq<char>>) -> Seq<NoticeView>
    decreases lines.len(),
{
    if lines.len() == 0 {
        seq![]
    } else {
        let rest = selection_notices(lines.drop_last());
        match parsed_line(lines.last()) {
            Some((true, name)) => rest.push(NoticeView::AlreadyInstalled(name)),
            Some((false, _)) => rest,
            None => rest.push(NoticeView::Unparsable(lines.last())),
        }
    }
}

/// Reads the lines chosen in fzf: the packages to install, and the remarks
/// on the lines that add none.
pub fn filter_selection(lines: &Vec<String>) -> (r: (Vec<String>, Vec<Notice>))
    ensures
        r.0.deep_view() == selected_names(lines.deep_view()),
        r.1.deep_view() == selection_notices(lines.deep_view()),
{
    let mut names: Vec<String> = Vec::new();
    let mut notices: Vec<Notice> = Vec::new();
    let mut i: usize = 0;
    while i < lines.len()
        invariant
            i <= lines@.len(),
            names.deep_view() == selected_names(lines.deep_view().take(i as int)),
            notices.deep_view() == selection_notices(lines.deep_view().take(i as int)),
        decreases lines@.len() - i,
    {
        let ghost seen = lines.deep_view().take(i + 1);
        assert(seen.drop_last() =~= lines.deep_view().take(i as int));
        assert(seen.last() == lines@[i as int]@);
        let ghost names_before = names.deep_view();
        let ghost notices_before = notices.deep_view();
        match parse_xbps_line(lines[i].as_str()) {
            Some((true, name)) => {
                notices.push(Notice::AlreadyInstalled(name));
                assert(notices.deep_view() =~= notices_before.push(
                    NoticeView::AlreadyInstalled(name@),
                ));
            },
            Some((false, name)) => {
                names.push(name);
                assert(names.deep_view() =~= names_before.push(name@));
            },
            None => {
                notices.push(Notice::Unparsable(lines[i].clone()));
                assert(notices.deep_view() =~= notices_before.push(
                    NoticeView::Unparsable(lines@[i as int]@),
                ));
            },
        }
        i = i + 1;
    }
    assert(lines.deep_view().take(i as int) =~= lines.deep_view());
    (names, notices)
}

/// What `vx add` does with the lines chosen in fzf: nothing when none was
/// chosen, or when neither named nor chosen packages remain to install;
/// else install the named packages, then the chosen ones not installed yet.
pub open spec fn add_selected_step(a: &AddArgs, chosen: Seq<Seq<char>>) -> StepView {
    if chosen.len() == 0 {
        StepView::NothingToDo
    } else if a.packages@.len() == 0 && selected_names(chosen).len() == 0 {
        StepView::NothingToDo
    } else {
        StepView::Run(install_cmd(a, selected_names(chosen)))
    }
}

/// The second step of `vx add --fzf`: the install command for the lines
/// chosen in fzf, and the remarks to report.
pub fn add_selected(args: &AddArgs, chosen: &Vec<String>) -> (r: (Step, Vec<Notice>))
    ensures
        r.0@ == add_selected_step(args, chosen.deep_view()),
        chosen@.len() == 0 ==> r.1@.len() == 0,
        chosen@.len() > 0 ==> r.1.deep_view() == selection_notices(chosen.deep_view()),
{
    if chosen.len() == 0 {
        return (Step::NothingToDo, Vec::new());
    }
    let (names, notices) = filter_selection(chosen);
    if args.packages.len() == 0 && names.len() == 0 {
        (Step::NothingToDo, notices)
    } else {
        (Step::Run(install(args, &names)), notices)
    }
}

/// The lines that fzf printed: none when it did not succeed (the user
/// aborted), else the lines of its output.
pub fn selected_lines(succeeded: bool, output: &str) -> (r: Vec<String>)
    ensures
        !succeeded ==> r@.len() == 0,
        succeeded ==> r.deep_view() == lines_of(output@),
{
    if succeeded {
        lines(output)
    } else {
        Vec::new()
    }
}

/// The fzf command that browses a listing: several choices, a header that
/// explains the keys, and TAB bound to toggle a choice.
pub open spec fn fzf_cmd() -> InvocationView {
    InvocationView {
        elevated: false,
        program: "fzf"@,
        args: seq![
            "--multi"@,
            "--header"@,
            "TAB to select, ENTER to confirm"@,
            "--bind"@,
            "tab:toggle+down,shift-tab:toggle+up"@,
        ],
    }
}

/// The fzf command that browses a listing.
pub fn fzf_invocation() -> (r: Invocation)
    ensures
        r@ == fzf_cmd(),
{
    let mut a: Vec<String> = Vec::new();
    push_text(&mut a, "--multi");
    push_text(&mut a, "--header");
    push_text(&mut a, "TAB to select, ENTER to confirm");
    push_text(&mut a, "--bind");
    push_text(&mut a, "tab:toggle+down,shift-tab:toggle+up");
    assert(a.deep_view() =~= fzf_cmd().args);
    invocation(false, "fzf", a)
}

} // verus!
