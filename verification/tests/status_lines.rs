use gust::status::{
    classify, parse_status, parse_status_line, staged_paths, unquote, ChangeCategory, CodeClass,
    FileChangeRecord, ParseError,
};

fn record(path: &str, category: ChangeCategory) -> FileChangeRecord {
    FileChangeRecord { path: path.to_string(), category }
}

fn rejected(line: &str) -> ParseError {
    ParseError::UnrecognizedStatusCode { line: line.to_string() }
}

#[test]
fn untracked_line_yields_untracked_record() {
    assert_eq!(
        parse_status_line("?? newfile.txt"),
        Ok(Some(record("newfile.txt", ChangeCategory::Untracked)))
    );
}

#[test]
fn worktree_modification_counts_as_added_staged() {
    assert_eq!(
        parse_status_line(" M src/lib.rs"),
        Ok(Some(record("src/lib.rs", ChangeCategory::AddedStaged)))
    );
}

#[test]
fn modified_twice_counts_as_modified_staged() {
    assert_eq!(
        parse_status_line("MM src/lib.rs"),
        Ok(Some(record("src/lib.rs", ChangeCategory::ModifiedStaged)))
    );
}

#[test]
fn quoted_path_loses_its_quotes() {
    assert_eq!(
        parse_status_line("A  \"path with space.txt\""),
        Ok(Some(record("path with space.txt", ChangeCategory::AddedStaged)))
    );
}

#[test]
fn quoted_untracked_path_loses_its_quotes() {
    assert_eq!(
        parse_status_line("?? \"a b\""),
        Ok(Some(record("a b", ChangeCategory::Untracked)))
    );
}

#[test]
fn blank_second_column_is_passed_over() {
    assert_eq!(parse_status_line("M  src/lib.rs"), Ok(None));
    assert_eq!(parse_status_line("D  gone.rs"), Ok(None));
    assert_eq!(parse_status_line("R  old -> new"), Ok(None));
    assert_eq!(parse_status_line("X  whatever"), Ok(None));
    assert_eq!(parse_status_line("M "), Ok(None));
}

#[test]
fn added_file_is_yielded_with_blank_second_column() {
    assert_eq!(
        parse_status_line("A  new.rs"),
        Ok(Some(record("new.rs", ChangeCategory::AddedStaged)))
    );
}

#[test]
fn question_mark_wins_over_first_column() {
    assert_eq!(parse_status_line("X? odd"), Ok(Some(record("odd", ChangeCategory::Untracked))));
    assert_eq!(parse_status_line("R? odd"), Ok(Some(record("odd", ChangeCategory::Untracked))));
}

#[test]
fn second_column_m_goes_by_first_column() {
    assert_eq!(parse_status_line("AM f"), Ok(Some(record("f", ChangeCategory::AddedStaged))));
    assert_eq!(parse_status_line("DM f"), Ok(Some(record("f", ChangeCategory::ModifiedStaged))));
    assert_eq!(parse_status_line("RM f"), Ok(Some(record("f", ChangeCategory::ModifiedStaged))));
    assert_eq!(parse_status_line("UM f"), Ok(Some(record("f", ChangeCategory::ModifiedStaged))));
}

#[test]
fn deleted_or_renamed_goes_by_first_column() {
    assert_eq!(parse_status_line("DD f"), Ok(Some(record("f", ChangeCategory::DeletedOrRenamed))));
    assert_eq!(parse_status_line("RD f"), Ok(Some(record("f", ChangeCategory::DeletedOrRenamed))));
    assert_eq!(parse_status_line("DU f"), Ok(Some(record("f", ChangeCategory::DeletedOrRenamed))));
}

#[test]
fn added_first_column_counts_as_added_staged() {
    assert_eq!(parse_status_line("AD f"), Ok(Some(record("f", ChangeCategory::AddedStaged))));
    assert_eq!(parse_status_line("AA f"), Ok(Some(record("f", ChangeCategory::AddedStaged))));
}

#[test]
fn other_known_codes_are_conflicted_or_unknown() {
    assert_eq!(
        parse_status_line("UU f"),
        Ok(Some(record("f", ChangeCategory::ConflictedOrUnknown)))
    );
    assert_eq!(
        parse_status_line(" D f"),
        Ok(Some(record("f", ChangeCategory::ConflictedOrUnknown)))
    );
    assert_eq!(
        parse_status_line("MD f"),
        Ok(Some(record("f", ChangeCategory::ConflictedOrUnknown)))
    );
}

#[test]
fn unknown_first_column_is_rejected() {
    assert_eq!(parse_status_line("XM src/lib.rs"), Err(rejected("XM src/lib.rs")));
    assert_eq!(parse_status_line("CM src/lib.rs"), Err(rejected("CM src/lib.rs")));
    assert_eq!(parse_status_line("?M src/lib.rs"), Err(rejected("?M src/lib.rs")));
    assert_eq!(parse_status_line("XD src/lib.rs"), Err(rejected("XD src/lib.rs")));
}

#[test]
fn line_without_room_for_a_path_is_rejected() {
    assert_eq!(parse_status_line(""), Err(rejected("")));
    assert_eq!(parse_status_line("M"), Err(rejected("M")));
    assert_eq!(parse_status_line("??"), Err(rejected("??")));
    assert_eq!(parse_status_line("?? "), Err(rejected("?? ")));
    assert_eq!(parse_status_line("A "), Err(rejected("A ")));
}

#[test]
fn shortest_path_is_one_character() {
    assert_eq!(parse_status_line("?? a"), Ok(Some(record("a", ChangeCategory::Untracked))));
    assert_eq!(parse_status_line("?? \""), Ok(Some(record("\"", ChangeCategory::Untracked))));
    assert_eq!(parse_status_line("?? \"\""), Ok(Some(record("", ChangeCategory::Untracked))));
}

#[test]
fn opening_quote_takes_the_last_character_with_it() {
    assert_eq!(parse_status_line("?? \"ab"), Ok(Some(record("a", ChangeCategory::Untracked))));
}

#[test]
fn path_keeps_every_other_character() {
    assert_eq!(
        parse_status_line("?? d\u{e9}j\u{e0} vu/\u{1F600}.txt"),
        Ok(Some(record("d\u{e9}j\u{e0} vu/\u{1F600}.txt", ChangeCategory::Untracked)))
    );
    assert_eq!(
        parse_status_line(" M  lead and trail "),
        Ok(Some(record(" lead and trail ", ChangeCategory::AddedStaged)))
    );
}

#[test]
fn classify_is_a_function_of_the_code() {
    assert_eq!(classify('?', '?'), CodeClass::Entry(ChangeCategory::Untracked));
    assert_eq!(classify(' ', 'M'), CodeClass::Entry(ChangeCategory::AddedStaged));
    assert_eq!(classify('M', 'M'), CodeClass::Entry(ChangeCategory::ModifiedStaged));
    assert_eq!(classify('M', ' '), CodeClass::Skipped);
    assert_eq!(classify('A', ' '), CodeClass::Entry(ChangeCategory::AddedStaged));
    assert_eq!(classify('Z', 'M'), CodeClass::Unrecognized);
    for (line_a, line_b) in [("MM a.txt", "MM \"b c\""), (" M x", " M yyyy"), ("?? p", "?? qq")] {
        let a = parse_status_line(line_a).unwrap().unwrap();
        let b = parse_status_line(line_b).unwrap().unwrap();
        assert_eq!(a.category, b.category);
    }
}

#[test]
fn no_code_yields_modified_unstaged() {
    let codes = [' ', '?', '!', 'A', 'M', 'D', 'R', 'U', 'C', 'T', 'X'];
    for first in codes {
        for second in codes {
            assert_ne!(
                classify(first, second),
                CodeClass::Entry(ChangeCategory::ModifiedUnstaged)
            );
        }
    }
}

#[test]
fn unquote_is_exact() {
    assert_eq!(unquote("\"path with space.txt\""), "path with space.txt");
    assert_eq!(unquote("plain.txt"), "plain.txt");
    assert_eq!(unquote(""), "");
    assert_eq!(unquote("\""), "\"");
    assert_eq!(unquote("\"\""), "");
    assert_eq!(unquote("a\"b\""), "a\"b\"");
}

#[test]
fn unquote_twice_is_unquote_once() {
    for field in ["\"path with space.txt\"", "plain.txt", "\"a\"", "x\"y"] {
        let once = unquote(field);
        assert_eq!(unquote(&once), once);
    }
    // what is left may itself be a quoted field: then a second pass goes on
    assert_eq!(unquote("\"\"a\"\""), "\"a\"");
    assert_eq!(unquote("\"a\""), "a");
}

#[test]
fn listing_yields_records_in_line_order() {
    let text = " M a.rs\n?? b.rs\nM  c.rs\nA  \"d e.rs\"\nUU f.rs\n";
    assert_eq!(
        parse_status(text),
        Ok(vec![
            record("a.rs", ChangeCategory::AddedStaged),
            record("b.rs", ChangeCategory::Untracked),
            record("d e.rs", ChangeCategory::AddedStaged),
            record("f.rs", ChangeCategory::ConflictedOrUnknown),
        ])
    );
}

#[test]
fn listing_without_final_line_feed_and_with_carriage_returns() {
    assert_eq!(
        parse_status(" M a.rs\r\n?? b.rs"),
        Ok(vec![
            record("a.rs", ChangeCategory::AddedStaged),
            record("b.rs", ChangeCategory::Untracked),
        ])
    );
}

#[test]
fn empty_listing_yields_no_record() {
    assert_eq!(parse_status(""), Ok(vec![]));
    assert_eq!(parse_status("M  staged.rs\n"), Ok(vec![]));
}

#[test]
fn first_rejected_line_ends_the_listing() {
    assert_eq!(parse_status(" M a\nXM b\nYM c\n"), Err(rejected("XM b")));
    assert_eq!(parse_status("?? a\n\n?? b\n"), Err(rejected("")));
}

#[test]
fn staged_paths_lists_what_has_something_staged() {
    let text = "M  a\n M b\nA  \"c d\"\nC  e\nD  f\n?? g\nR  h\nMM i\n";
    assert_eq!(staged_paths(text), vec!["a", "c d", "e", "f", "i"]);
    assert_eq!(staged_paths(""), Vec::<String>::new());
    assert_eq!(staged_paths("M\nA  \n\nM  x"), vec!["x"]);
}

#[test]
fn path_comes_back_from_the_line_git_writes_for_it() {
    for path in ["src/lib.rs", "path with space.txt", "a", "tab\there", "quote\"inside"] {
        let field = if path.contains(' ') { format!("\"{}\"", path) } else { path.to_string() };
        let line = format!("A  {}", field);
        assert_eq!(parse_status_line(&line).unwrap().unwrap().path, path);
        assert_eq!(staged_paths(&line), vec![path.to_string()]);
        let line = format!("?? {}", field);
        assert_eq!(parse_status_line(&line).unwrap().unwrap().path, path);
    }
}
