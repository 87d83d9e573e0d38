//! What git is asked, as argument lists, and how its answer is read.

use crate::cli::ErrorKind;
use crate::text::views;
use vstd::prelude::*;
use vstd::string::*;

verus! {

/// One invocation of git.
#[derive(Debug, Clone, PartialEq, Eq)]
pub enum GitCommand {
    /// The status listing in its short form.
    StatusShort,
    /// The listing of all branches, local and remote.
    Branches,
    /// Fetch from all remotes.
    Fetch,
    /// The one-line log, of `branch` if one is given.
    Log { branch: Option<String> },
    /// Create the branch `name`, at `start` if one is given.
    CreateBranch { name: String, start: Option<String> },
    Pull,
    Push,
    /// Check out the given branches or paths.
    Checkout { targets: Vec<String> },
    /// Stage the given paths.
    Add { paths: Vec<String> },
    /// Unstage the given paths.
    Reset { paths: Vec<String> },
    /// Commit with one `-m` per message segment, verbosely if asked.
    Commit { segments: Vec<String>, verbose: bool },
    /// Revert the commit `hash`.
    Revert { hash: String },
    /// The names of all files in the tree of `HEAD`.
    LsTree,
    /// Remove the given paths, from the index only if `cached`.
    Rm { paths: Vec<String>, cached: bool },
}

/// The mathematical value of a [`GitCommand`].
pub enum GitCommandView {
    StatusShort,
    Branches,
    Fetch,
    Log { branch: Option<Seq<char>> },
    CreateBranch { name: Seq<char>, start: Option<Seq<char>> },
    Pull,
    Push,
    Checkout { targets: Seq<Seq<char>> },
    Add { paths: Seq<Seq<char>> },
    Reset { paths: Seq<Seq<char>> },
    Commit { segments: Seq<Seq<char>>, verbose: bool },
    Revert { hash: Seq<char> },
    LsTree,
    Rm { paths: Seq<Seq<char>>, cached: bool },
}

/// The characters of a string that may be absent.
pub open spec fn optional_view(s: Option<String>) -> Option<Seq<char>> {
    match s {
        Some(text) => Some(text@),
        None => None,
    }
}

impl View for GitCommand {
    type V = GitCommandView;

    open spec fn view(&self) -> GitCommandView {
        match *self {
            GitCommand::StatusShort => GitCommandView::StatusShort,
            GitCommand::Branches => GitCommandView::Branches,
            GitCommand::Fetch => GitCommandView::Fetch,
            GitCommand::Log { branch } => GitCommandView::Log { branch: optional_view(branch) },
            GitCommand::CreateBranch { name, start } => GitCommandView::CreateBranch {
                name: name@,
                start: optional_view(start),
            },
            GitCommand::Pull => GitCommandView::Pull,
            GitCommand::Push => GitCommandView::Push,
            GitCommand::Checkout { targets } => GitCommandView::Checkout {
                targets: views(targets@),
            },
            GitCommand::Add { paths } => GitCommandView::Add { paths: views(paths@) },
            GitCommand::Reset { paths } => GitCommandView::Reset { paths: views(paths@) },
            GitCommand::Commit { segments, verbose } => GitCommandView::Commit {
                segments: views(segments@),
                verbose,
            },
            GitCommand::Revert { hash } => GitCommandView::Revert { hash: hash@ },
            GitCommand::LsTree => GitCommandView::LsTree,
            GitCommand::Rm { paths, cached } => GitCommandView::Rm { paths: views(paths@), cached },
        }
    }
}

/// The values of a list of commands.
pub open spec fn command_views(v: Seq<GitCommand>) -> Seq<GitCommandView> {
    Seq::new(v.len(), |i: int| v[i]@)
}

/// A list of no word or one.
pub open spec fn optional_word(word: Option<Seq<char>>) -> Seq<Seq<char>> {
    match word {
        Some(w) => seq![w],
        None => Seq::empty(),
    }
}

/// The flag `word` if `on`, else nothing.
pub open spec fn flag(on: bool, word: Seq<char>) -> Seq<Seq<char>> {
    if on {
        seq![word]
    } else {
        Seq::empty()
    }
}

/// One `-m` and the segment after it, for each message segment in order.
pub open spec fn message_args(segments: Seq<Seq<char>>) -> Seq<Seq<char>>
    decreases segments.len(),
{
    if segments.len() == 0 {
        Seq::empty()
    } else {
        message_args(segments.drop_last()) + seq!["-m"@, segments.last()]
    }
}

/// The arguments that git is started with for a command.
pub open spec fn argv(command: GitCommandView) -> Seq<Seq<char>> {
    match command {
        GitCommandView::StatusShort => seq!["status"@, "--short"@],
        GitCommandView::Branches => seq!["branch"@, "-a"@],
        GitCommandView::Fetch => seq!["fetch"@, "--all"@],
        GitCommandView::Log { branch } => seq!["log"@, "--oneline"@] + optional_word(branch),
        GitCommandView::CreateBranch { name, start } => seq!["branch"@, name] + optional_word(
            start,
        ),
        GitCommandView::Pull => seq!["pull"@],
        GitCommandView::Push => seq!["push"@],
        GitCommandView::Checkout { targets } => seq!["checkout"@] + targets,
        GitCommandView::Add { paths } => seq!["add"@] + paths,
        GitCommandView::Reset { paths } => seq!["reset"@] + paths,
        GitCommandView::Commit { segments, verbose } => seq!["commit"@] + message_args(segments)
            + flag(verbose, "-v"@),
        GitCommandView::Revert { hash } => seq!["revert"@, hash],
        GitCommandView::LsTree => seq![
            "ls-tree"@,
            "--full-tree"@,
            "-r"@,
            "--name-only"@,
            "HEAD"@,
        ],
        GitCommandView::Rm { paths, cached } => seq!["rm"@] + flag(cached, "--cached"@) + paths,
    }
}

/// Appends copies of `more` to `args`.
fn extend(args: &mut Vec<String>, more: &Vec<String>)
    ensures
        views(final(args)@) == views(old(args)@) + views(more@),
{
    let ghost before = views(args@);
    let mut i: usize = 0;
    while i < more.len()
        invariant
            i <= more.len(),
            views(args@) == before + views(more@).subrange(0, i as int),
        decreases more.len() - i,
    {
        let ghost so_far = views(args@);
        args.push(more[i].clone());
        assert(views(args@) =~= so_far.push(more@[i as int]@));
        assert(views(more@).subrange(0, i + 1) =~= views(more@).subrange(0, i as int).push(
            more@[i as int]@,
        ));
        i += 1;
    }
    assert(views(more@).subrange(0, more.len() as int) =~= views(more@));
}

/// Appends `word` to `args`.
fn put(args: &mut Vec<String>, word: &str)
    ensures
        views(final(args)@) == views(old(args)@).push(word@),
{
    let ghost before = views(args@);
    args.push(word.to_owned());
    assert(views(args@) =~= before.push(word@));
}

/// Appends `word` to `args` if there is one.
fn put_optional(args: &mut Vec<String>, word: &Option<String>)
    ensures
        views(final(args)@) == views(old(args)@) + optional_word(optional_view(*word)),
{
    let ghost before = views(args@);
    match word {
        Some(w) => {
            put(args, w.as_str());
            assert(before.push(w@) =~= before + optional_word(optional_view(*word)));
        },
        None => {
            assert(before =~= before + optional_word(optional_view(*word)));
        },
    }
}

/// Appends one `-m` and the segment after it for each of `segments`.
fn put_segments(args: &mut Vec<String>, segments: &Vec<String>)
    ensures
        views(final(args)@) == views(old(args)@) + message_args(views(segments@)),
{
    let ghost before = views(args@);
    let ghost all = views(segments@);
    let mut i: usize = 0;
    assert(all.subrange(0, 0) =~= Seq::<Seq<char>>::empty());
    assert(before =~= before + message_args(all.subrange(0, 0)));
    while i < segments.len()
        invariant
            i <= segments.len(),
            all == views(segments@),
            views(args@) == before + message_args(all.subrange(0, i as int)),
        decreases segments.len() - i,
    {
        let ghost upto = all.subrange(0, i + 1);
        assert(upto.drop_last() =~= all.subrange(0, i as int));
        assert(upto.last() == segments@[i as int]@);
        let ghost so_far = views(args@);
        put(args, "-m");
        put(args, segments[i].as_str());
        assert(views(args@) =~= before + message_args(upto));
        i += 1;
    }
    assert(all.subrange(0, segments.len() as int) =~= all);
}

impl GitCommand {
    /// The arguments to start git with, the program's own name left out.
    pub fn arguments(&self) -> (args: Vec<String>)
        ensures
            views(args@) == argv(self@),
    {
        let mut args: Vec<String> = Vec::new();
        assert(views(args@) =~= Seq::<Seq<char>>::empty());
        match self {
            GitCommand::StatusShort => {
                put(&mut args, "status");
                put(&mut args, "--short");
            },
            GitCommand::Branches => {
                put(&mut args, "branch");
                put(&mut args, "-a");
            },
            GitCommand::Fetch => {
                put(&mut args, "fetch");
                put(&mut args, "--all");
            },
            GitCommand::Log { branch } => {
                put(&mut args, "log");
                put(&mut args, "--oneline");
                put_optional(&mut args, branch);
            },
            GitCommand::CreateBranch { name, start } => {
                put(&mut args, "branch");
                put(&mut args, name.as_str());
                put_optional(&mut args, start);
            },
            GitCommand::Pull => {
                put(&mut args, "pull");
            },
            GitCommand::Push => {
                put(&mut args, "push");
            },
            GitCommand::Checkout { targets } => {
                put(&mut args, "checkout");
                extend(&mut args, targets);
            },
            GitCommand::Add { paths } => {
                put(&mut args, "add");
                extend(&mut args, paths);
            },
            GitCommand::Reset { paths } => {
                put(&mut args, "reset");
                extend(&mut args, paths);
            },
            GitCommand::Commit { segments, verbose } => {
                put(&mut args, "commit");
                put_segments(&mut args, segments);
                if *verbose {
                    put(&mut args, "-v");
                }
            },
            GitCommand::Revert { hash } => {
                put(&mut args, "revert");
                put(&mut args, hash.as_str());
            },
            GitCommand::LsTree => {
                put(&mut args, "ls-tree");
                put(&mut args, "--full-tree");
                put(&mut args, "-r");
                put(&mut args, "--name-only");
                put(&mut args, "HEAD");
            },
            GitCommand::Rm { paths, cached } => {
                put(&mut args, "rm");
                if *cached {
                    put(&mut args, "--cached");
                }
                extend(&mut args, paths);
            },
        }
        assert(views(args@) =~= argv(self@));
        args
    }
}

/// What git printed, as a listing: output of at most one character, which
/// can be nothing but a line ending, lists nothing.
pub open spec fn listing(output: Seq<char>) -> Option<Seq<char>> {
    if output.len() > 1 {
        Some(output)
    } else {
        None
    }
}

/// Reads the end of a run of git that prints a listing.
///
/// A failure carries what git wrote to its error stream, unchanged. A
/// success with at most one character of output is a listing of nothing.
pub fn tool_text(success: bool, output: String, errors: String) -> (r: Result<
    Option<String>,
    ErrorKind,
>)
    ensures
        success ==> (r matches Ok(text) && optional_view(text) == listing(output@)),
        !success ==> (r matches Err(ErrorKind::ExternalToolFailure(text)) && text@ == errors@),
{
    if !success {
        Err(ErrorKind::ExternalToolFailure(errors))
    } else if output.as_str().unicode_len() <= 1 {
        Ok(None)
    } else {
        Ok(Some(output))
    }
}

/// Reads the end of a run of git that is called for its effect.
///
/// A failure carries what git wrote to its error stream, unchanged.
pub fn tool_done(success: bool, errors: String) -> (r: Result<(), ErrorKind>)
    ensures
        success ==> r is Ok,
        !success ==> (r matches Err(ErrorKind::ExternalToolFailure(text)) && text@ == errors@),
{
    if success {
        Ok(())
    } else {
        Err(ErrorKind::ExternalToolFailure(errors))
    }
}

} // verus!
