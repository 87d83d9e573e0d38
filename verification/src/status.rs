//! Reading the short form of `git status`.
//!
//! Each line is a two-character status code, a separator and a path. The path
//! stands between double quotes when git had to quote it. A line becomes a
//! [`FileChangeRecord`], is passed over, or is rejected. The two characters of
//! the code decide which; a line too short to hold the path that its code
//! asks for is rejected as well.

use crate::text::{
    lemma_scan_lines_append, lemma_scan_lines_close, lines_of, scan_lines, split_lines, views,
    without_cr,
};
use vstd::prelude::*;
use vstd::string::*;

verus! {

/// What kind of change a status line reports.
#[derive(Clone, Copy, Debug, PartialEq, Eq, Structural)]
pub enum ChangeCategory {
    Untracked,
    AddedStaged,
    ModifiedUnstaged,
    ModifiedStaged,
    DeletedOrRenamed,
    ConflictedOrUnknown,
}

/// One changed file: its path exactly as git names it, and the kind of change.
#[derive(Clone, Debug, PartialEq, Eq)]
pub struct FileChangeRecord {
    pub path: String,
    pub category: ChangeCategory,
}

/// The mathematical value of a [`FileChangeRecord`].
pub struct RecordView {
    pub path: Seq<char>,
    pub category: ChangeCategory,
}

impl View for FileChangeRecord {
    type V = RecordView;

    open spec fn view(&self) -> RecordView {
        RecordView { path: self.path@, category: self.category }
    }
}

/// The values of a list of records.
pub open spec fn record_views(v: Seq<FileChangeRecord>) -> Seq<RecordView> {
    Seq::new(v.len(), |i: int| v[i]@)
}

/// Why a status listing could not be read.
#[derive(Clone, Debug, PartialEq, Eq)]
pub enum ParseError {
    /// The line is too short to hold a code and a path, or its first column
    /// holds a code that is not known.
    UnrecognizedStatusCode { line: String },
}

/// What a two-character status code asks for.
#[derive(Clone, Copy, Debug, PartialEq, Eq, Structural)]
pub enum CodeClass {
    /// The line is passed over.
    Skipped,
    /// The line yields a record of this category.
    Entry(ChangeCategory),
    /// The line is rejected.
    Unrecognized,
}

/// The codes that may stand in the first column of a line whose second
/// column is neither blank nor `?`.
pub open spec fn known_first_column(c: char) -> bool {
    c == ' ' || c == 'A' || c == 'M' || c == 'D' || c == 'R' || c == 'U'
}

/// The meaning of the status code `first`, `second`.
///
/// A blank second column means that nothing is left to stage: the line is
/// passed over, unless the first column says that the file was added. A `?`
/// in the second column marks an untracked file. Otherwise the first column
/// must hold a known code.
pub open spec fn code_class(first: char, second: char) -> CodeClass {
    if second == ' ' {
        if first == 'A' {
            CodeClass::Entry(ChangeCategory::AddedStaged)
        } else {
            CodeClass::Skipped
        }
    } else if second == '?' {
        CodeClass::Entry(ChangeCategory::Untracked)
    } else if !known_first_column(first) {
        CodeClass::Unrecognized
    } else if second == 'M' {
        if first == ' ' || first == 'A' {
            CodeClass::Entry(ChangeCategory::AddedStaged)
        } else {
            CodeClass::Entry(ChangeCategory::ModifiedStaged)
        }
    } else if first == 'D' || first == 'R' {
        CodeClass::Entry(ChangeCategory::DeletedOrRenamed)
    } else if first == 'A' {
        CodeClass::Entry(ChangeCategory::AddedStaged)
    } else {
        CodeClass::Entry(ChangeCategory::ConflictedOrUnknown)
    }
}

/// A path field without the double quotes that git put around it.
pub open spec fn unquoted(field: Seq<char>) -> Seq<char> {
    if field.len() >= 2 && field[0] == '"' {
        field.subrange(1, field.len() - 1)
    } else {
        field
    }
}

/// The path that a status line of at least four characters names.
pub open spec fn path_of(line: Seq<char>) -> Seq<char> {
    unquoted(line.subrange(3, line.len() as int))
}

/// What becomes of one status line.
pub enum LineOutcome {
    Skipped,
    Entry(RecordView),
    Rejected,
}

/// What becomes of `line`.
pub open spec fn line_outcome(line: Seq<char>) -> LineOutcome {
    if line.len() < 2 {
        LineOutcome::Rejected
    } else {
        match code_class(line[0], line[1]) {
            CodeClass::Skipped => LineOutcome::Skipped,
            CodeClass::Unrecognized => LineOutcome::Rejected,
            CodeClass::Entry(category) => if line.len() < 4 {
                LineOutcome::Rejected
            } else {
                LineOutcome::Entry(RecordView { path: path_of(line), category })
            },
        }
    }
}

/// No line of `lines` is rejected.
pub open spec fn all_accepted(lines: Seq<Seq<char>>) -> bool {
    forall|i: int| 0 <= i < lines.len() ==> !(#[trigger] line_outcome(lines[i]) is Rejected)
}

/// `k` is the first rejected line of `lines`.
pub open spec fn first_rejected(lines: Seq<Seq<char>>, k: int) -> bool {
    &&& 0 <= k < lines.len()
    &&& line_outcome(lines[k]) is Rejected
    &&& forall|i: int| 0 <= i < k ==> !(#[trigger] line_outcome(lines[i]) is Rejected)
}

/// The records that `lines` yield, in the order of the lines.
pub open spec fn entries_of(lines: Seq<Seq<char>>) -> Seq<RecordView>
    decreases lines.len(),
{
    if lines.len() == 0 {
        Seq::empty()
    } else {
        let before = entries_of(lines.drop_last());
        match line_outcome(lines.last()) {
            LineOutcome::Entry(record) => before.push(record),
            _ => before,
        }
    }
}

/// The first-column codes of a file that has something staged.
pub open spec fn is_staged_code(c: char) -> bool {
    c == 'M' || c == 'A' || c == 'C' || c == 'D'
}

/// The path of `line` if the line reports something staged.
pub open spec fn staged_path(line: Seq<char>) -> Option<Seq<char>> {
    if line.len() >= 4 && is_staged_code(line[0]) {
        Some(path_of(line))
    } else {
        None
    }
}

/// The paths with something staged that `lines` report, in order.
pub open spec fn staged_of(lines: Seq<Seq<char>>) -> Seq<Seq<char>>
    decreases lines.len(),
{
    if lines.len() == 0 {
        Seq::empty()
    } else {
        let before = staged_of(lines.drop_last());
        match staged_path(lines.last()) {
            Some(path) => before.push(path),
            None => before,
        }
    }
}

/// The status line that git writes for `path` under the code `first`,
/// `second`: the path stands between double quotes if it holds a blank.
pub open spec fn status_line(first: char, second: char, path: Seq<char>) -> Seq<char> {
    let field = if path.contains(' ') {
        seq!['"'] + path + seq!['"']
    } else {
        path
    };
    seq![first, second, ' '] + field
}

/// The listing that git writes for `paths`, all under the code `first`,
/// `second`: one line for each path, each ended by a line feed.
pub open spec fn status_listing(first: char, second: char, paths: Seq<Seq<char>>) -> Seq<char>
    decreases paths.len(),
{
    if paths.len() == 0 {
        Seq::empty()
    } else {
        status_listing(first, second, paths.drop_last()) + status_line(
            first,
            second,
            paths.last(),
        ) + seq!['\n']
    }
}

/// A path that a status line can carry as it is: it is not empty and holds
/// no line feed; and where it holds no blank, so that it is written without
/// quotes, it neither looks like a quoted field nor ends in a carriage
/// return.
pub open spec fn carried(path: Seq<char>) -> bool {
    &&& path.len() > 0
    &&& !path.contains('\n')
    &&& path.contains(' ') || (path.last() != '\r' && (path.len() < 2 || path[0] != '"'))
}

/// The records of `paths`, all of one category.
pub open spec fn records_of(paths: Seq<Seq<char>>, category: ChangeCategory) -> Seq<RecordView> {
    Seq::new(paths.len(), |i: int| RecordView { path: paths[i], category })
}

/// Classifies a two-character status code.
pub fn classify(first: char, second: char) -> (class: CodeClass)
    ensures
        class == code_class(first, second),
{
    if second == ' ' {
        if first == 'A' {
            CodeClass::Entry(ChangeCategory::AddedStaged)
        } else {
            CodeClass::Skipped
        }
    } else if second == '?' {
        CodeClass::Entry(ChangeCategory::Untracked)
    } else if !(first == ' ' || first == 'A' || first == 'M' || first == 'D' || first == 'R'
        || first == 'U') {
        CodeClass::Unrecognized
    } else if second == 'M' {
        if first == ' ' || first == 'A' {
            CodeClass::Entry(ChangeCategory::AddedStaged)
        } else {
            CodeClass::Entry(ChangeCategory::ModifiedStaged)
        }
    } else if first == 'D' || first == 'R' {
        CodeClass::Entry(ChangeCategory::DeletedOrRenamed)
    } else if first == 'A' {
        CodeClass::Entry(ChangeCategory::AddedStaged)
    } else {
        CodeClass::Entry(ChangeCategory::ConflictedOrUnknown)
    }
}

/// Takes the double quotes off a path field, if it has them.
pub fn unquote(field: &str) -> (path: String)
    ensures
        path@ == unquoted(field@),
{
    let n = field.unicode_len();
    if n >= 2 && field.get_char(0) == '"' {
        field.substring_char(1, n - 1).to_owned()
    } else {
        field.to_owned()
    }
}

/// The path named by a status line of `n >= 4` characters.
fn read_path(line: &str, n: usize) -> (path: String)
    requires
        n == line@.len(),
        n >= 4,
    ensures
        path@ == path_of(line@),
{
    unquote(line.substring_char(3, n))
}

/// Reads one line of a short status listing.
///
/// `Ok(None)` says that the line is passed over.
pub fn parse_status_line(line: &str) -> (r: Result<Option<FileChangeRecord>, ParseError>)
    ensures
        match line_outcome(line@) {
            LineOutcome::Skipped => r == Ok::<Option<FileChangeRecord>, ParseError>(None),
            LineOutcome::Entry(record) => r matches Ok(Some(found)) && found@ == record,
            LineOutcome::Rejected => r matches Err(ParseError::UnrecognizedStatusCode { line: l })
                && l@ == line@,
        },
{
    let n = line.unicode_len();
    if n < 2 {
        return Err(ParseError::UnrecognizedStatusCode { line: line.to_owned() });
    }
    match classify(line.get_char(0), line.get_char(1)) {
        CodeClass::Skipped => Ok(None),
        CodeClass::Unrecognized => Err(
            ParseError::UnrecognizedStatusCode { line: line.to_owned() },
        ),
        CodeClass::Entry(category) => {
            if n < 4 {
                Err(ParseError::UnrecognizedStatusCode { line: line.to_owned() })
            } else {
                Ok(Some(FileChangeRecord { path: read_path(line, n), category }))
            }
        },
    }
}

/// Reads a whole short status listing.
///
/// The records come in the order of their lines. The first rejected line
/// ends the reading, and the error names it.
pub fn parse_status(text: &str) -> (r: Result<Vec<FileChangeRecord>, ParseError>)
    ensures
        r is Ok <==> all_accepted(lines_of(text@)),
        r matches Ok(records) ==> record_views(records@) == entries_of(lines_of(text@)),
        r matches Err(ParseError::UnrecognizedStatusCode { line }) ==> exists|k: int|
            first_rejected(lines_of(text@), k) && line@ == lines_of(text@)[k],
{
    let lines = split_lines(text);
    let ghost all = lines_of(text@);
    let mut records: Vec<FileChangeRecord> = Vec::new();
    let mut i: usize = 0;
    assert(all.subrange(0, 0) =~= Seq::<Seq<char>>::empty());
    assert(record_views(records@) =~= Seq::<RecordView>::empty());
    while i < lines.len()
        invariant
            i <= lines.len(),
            all == lines_of(text@),
            views(lines@) == all,
            forall|j: int| 0 <= j < i ==> !(#[trigger] line_outcome(all[j]) is Rejected),
            record_views(records@) == entries_of(all.subrange(0, i as int)),
        decreases lines.len() - i,
    {
        let ghost upto = all.subrange(0, i + 1);
        assert(upto.drop_last() =~= all.subrange(0, i as int));
        assert(upto.last() == all[i as int]);
        assert(all[i as int] == lines@[i as int]@);
        match parse_status_line(lines[i].as_str()) {
            Err(e) => {
                assert(first_rejected(all, i as int));
                return Err(e);
            },
            Ok(None) => {},
            Ok(Some(record)) => {
                let ghost before = records@;
                records.push(record);
                assert(record_views(records@) =~= record_views(before).push(record@));
            },
        }
        i += 1;
    }
    assert(all.subrange(0, lines.len() as int) =~= all);
    Ok(records)
}

/// The paths in a short status listing that have something staged, in the
/// order of their lines.
pub fn staged_paths(text: &str) -> (paths: Vec<String>)
    ensures
        views(paths@) == staged_of(lines_of(text@)),
{
    let lines = split_lines(text);
    let ghost all = lines_of(text@);
    let mut paths: Vec<String> = Vec::new();
    let mut i: usize = 0;
    assert(all.subrange(0, 0) =~= Seq::<Seq<char>>::empty());
    assert(views(paths@) =~= Seq::<Seq<char>>::empty());
    while i < lines.len()
        invariant
            i <= lines.len(),
            all == lines_of(text@),
            views(lines@) == all,
            views(paths@) == staged_of(all.subrange(0, i as int)),
        decreases lines.len() - i,
    {
        let ghost upto = all.subrange(0, i + 1);
        assert(upto.drop_last() =~= all.subrange(0, i as int));
        assert(upto.last() == all[i as int]);
        assert(all[i as int] == lines@[i as int]@);
        let line = lines[i].as_str();
        let n = line.unicode_len();
        if n >= 4 {
            let c = line.get_char(0);
            if c == 'M' || c == 'A' || c == 'C' || c == 'D' {
                let ghost before = paths@;
                paths.push(read_path(line, n));
                assert(views(paths@) =~= views(before).push(path_of(line@)));
            }
        }
        i += 1;
    }
    assert(all.subrange(0, lines.len() as int) =~= all);
    paths
}

/// A status code decides the outcome of its line, but for the path: two
/// lines with the same first two characters, both long enough to hold a path,
/// fall in the same class, and if that class is a record, in the same
/// category.
pub proof fn lemma_category_follows_code(a: Seq<char>, b: Seq<char>)
    requires
        a.len() >= 4,
        b.len() >= 4,
        a[0] == b[0],
        a[1] == b[1],
    ensures
        line_outcome(a) is Skipped <==> line_outcome(b) is Skipped,
        line_outcome(a) is Rejected <==> line_outcome(b) is Rejected,
        line_outcome(a) matches LineOutcome::Entry(x) ==> (line_outcome(b) matches
            LineOutcome::Entry(y) && x.category == y.category),
{
}

/// No status code yields the category `ModifiedUnstaged`: a file modified in
/// the work tree alone counts as `AddedStaged`.
pub proof fn lemma_no_code_is_modified_unstaged(first: char, second: char)
    ensures
        code_class(first, second) != CodeClass::Entry(ChangeCategory::ModifiedUnstaged),
{
}

/// Taking the quotes off is exact: a quoted path comes back as it was, and a
/// field that does not begin with a quote is left alone.
pub proof fn lemma_unquoted_exact(path: Seq<char>)
    ensures
        unquoted(seq!['"'] + path + seq!['"']) == path,
        path.len() == 0 || path[0] != '"' ==> unquoted(path) == path,
{
    let field = seq!['"'] + path + seq!['"'];
    assert(field.subrange(1, field.len() - 1) =~= path);
}

/// Taking the quotes off twice is the same as taking them off once, unless
/// what is left is itself a quoted field.
pub proof fn lemma_unquoted_idempotent(field: Seq<char>)
    requires
        unquoted(field).len() < 2 || unquoted(field)[0] != '"',
    ensures
        unquoted(unquoted(field)) == unquoted(field),
{
}

/// A path survives the way through a status line: the line that git writes
/// for `path` under any code names `path` again, character for character.
///
/// This holds of every path that is not empty and that, where it holds no
/// blank, does not itself look like a quoted field.
pub proof fn lemma_status_line_round_trip(first: char, second: char, path: Seq<char>)
    requires
        path.len() > 0,
        path.contains(' ') || path.len() < 2 || path[0] != '"',
    ensures
        path_of(status_line(first, second, path)) == path,
        code_class(first, second) matches CodeClass::Entry(category) ==> line_outcome(
            status_line(first, second, path),
        ) == LineOutcome::Entry(RecordView { path, category }),
        code_class(first, second) is Skipped ==> line_outcome(status_line(first, second, path))
            is Skipped,
        is_staged_code(first) ==> staged_path(status_line(first, second, path)) == Some(path),
{
    let line = status_line(first, second, path);
    let field = if path.contains(' ') {
        seq!['"'] + path + seq!['"']
    } else {
        path
    };
    assert(line.subrange(3, line.len() as int) =~= field);
    lemma_unquoted_exact(path);
    assert(line[0] == first);
    assert(line[1] == second);
}

/// The lines of a listing that git writes are the status lines of its
/// paths.
proof fn lemma_lines_of_listing(first: char, second: char, paths: Seq<Seq<char>>)
    requires
        first != '\n',
        second != '\n',
        forall|i: int| 0 <= i < paths.len() ==> carried(#[trigger] paths[i]),
    ensures
        scan_lines(status_listing(first, second, paths)) == (
            Seq::new(paths.len(), |i: int| status_line(first, second, paths[i])),
            Seq::<char>::empty(),
        ),
        lines_of(status_listing(first, second, paths)) == Seq::new(
            paths.len(),
            |i: int| status_line(first, second, paths[i]),
        ),
    decreases paths.len(),
{
    let lines = Seq::new(paths.len(), |i: int| status_line(first, second, paths[i]));
    if paths.len() == 0 {
        assert(lines =~= Seq::<Seq<char>>::empty());
    } else {
        let before = paths.drop_last();
        let path = paths.last();
        let line = status_line(first, second, path);
        let text = status_listing(first, second, before);
        assert forall|i: int| 0 <= i < before.len() implies carried(#[trigger] before[i]) by {
            assert(before[i] == paths[i]);
        }
        assert(carried(path)) by {
            assert(path == paths[paths.len() - 1]);
        }
        lemma_lines_of_listing(first, second, before);
        let field = if path.contains(' ') {
            seq!['"'] + path + seq!['"']
        } else {
            path
        };
        assert(line =~= seq![first, second, ' '] + field);
        assert forall|i: int| 0 <= i < line.len() implies line[i] != '\n' by {
            if i >= 3 {
                if path.contains(' ') {
                    if 4 <= i < line.len() - 1 {
                        assert(line[i] == path[i - 4]);
                    }
                } else {
                    assert(line[i] == path[i - 3]);
                }
            }
        }
        assert(line.len() > 3);
        assert(line.last() != '\r') by {
            if path.contains(' ') {
                assert(line.last() == '"');
            } else {
                assert(line.last() == path.last());
            }
        }
        lemma_scan_lines_append(text, line);
        lemma_scan_lines_close(text + line);
        assert(Seq::<char>::empty() + line =~= line);
        assert(without_cr(line) == line);
        let earlier = Seq::new(before.len(), |i: int| status_line(first, second, before[i]));
        assert(earlier.push(line) =~= lines);
    }
}

/// A whole listing survives the way through git: if the paths that were
/// staged are written out again as a status listing, under any code that
/// reports something staged, reading that listing gives the same paths in
/// the same order, character for character. Under a code that yields a
/// record, the records read hold these paths as well.
///
/// This holds of the paths that a status line can carry as they are.
pub proof fn lemma_listing_round_trip(first: char, second: char, paths: Seq<Seq<char>>)
    requires
        first != '\n',
        second != '\n',
        forall|i: int| 0 <= i < paths.len() ==> carried(#[trigger] paths[i]),
    ensures
        is_staged_code(first) ==> staged_of(lines_of(status_listing(first, second, paths)))
            == paths,
        code_class(first, second) matches CodeClass::Entry(category) ==> all_accepted(
            lines_of(status_listing(first, second, paths)),
        ) && entries_of(lines_of(status_listing(first, second, paths))) == records_of(
            paths,
            category,
        ),
{
    lemma_lines_of_listing(first, second, paths);
    let lines = Seq::new(paths.len(), |i: int| status_line(first, second, paths[i]));
    assert forall|i: int| 0 <= i < paths.len() implies path_of(#[trigger] lines[i]) == paths[i]
        && lines[i].len() >= 4 && lines[i][0] == first && lines[i][1] == second by {
        assert(carried(paths[i]));
        lemma_status_line_round_trip(first, second, paths[i]);
    }
    if is_staged_code(first) {
        lemma_staged_of_lines(lines, paths);
    }
    if let CodeClass::Entry(category) = code_class(first, second) {
        lemma_entries_of_lines(lines, records_of(paths, category));
    }
}

/// Where every line reports something staged, the staged paths are the
/// paths of the lines.
proof fn lemma_staged_of_lines(lines: Seq<Seq<char>>, paths: Seq<Seq<char>>)
    requires
        lines.len() == paths.len(),
        forall|i: int| 0 <= i < lines.len() ==> staged_path(#[trigger] lines[i]) == Some(paths[i]),
    ensures
        staged_of(lines) == paths,
    decreases lines.len(),
{
    if lines.len() == 0 {
        assert(paths =~= Seq::<Seq<char>>::empty());
    } else {
        lemma_staged_of_lines(lines.drop_last(), paths.drop_last());
        assert(staged_path(lines.last()) == Some(paths.last())) by {
            assert(lines.last() == lines[lines.len() - 1]);
        }
        assert(paths.drop_last().push(paths.last()) =~= paths);
    }
}

/// Where every line yields a record, the records read are the records of
/// the lines.
proof fn lemma_entries_of_lines(lines: Seq<Seq<char>>, records: Seq<RecordView>)
    requires
        lines.len() == records.len(),
        forall|i: int|
            0 <= i < lines.len() ==> line_outcome(#[trigger] lines[i]) == LineOutcome::Entry(
                records[i],
            ),
    ensures
        all_accepted(lines),
        entries_of(lines) == records,
    decreases lines.len(),
{
    if lines.len() == 0 {
        assert(records =~= Seq::<RecordView>::empty());
    } else {
        lemma_entries_of_lines(lines.drop_last(), records.drop_last());
        assert(line_outcome(lines.last()) == LineOutcome::Entry(records.last())) by {
            assert(lines.last() == lines[lines.len() - 1]);
        }
        assert(records.drop_last().push(records.last()) =~= records);
    }
}

} // verus!
