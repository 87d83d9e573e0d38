//! Interpreting what the operator answered.
//!
//! A menu shows a list of entries. When the menu allows it, an entry "All"
//! stands before the list and an entry "None" after it. The terminal hands
//! back the positions that were picked, counted over the entries as shown, or
//! nothing at all when the operator aborted.

use crate::text::views;
use crate::utils::{all_escape_free, strip_vec_colors, stripped_all};
use vstd::prelude::*;
use vstd::string::*;

verus! {

/// The answer to a menu: everything, an explicit choice, or an explicit
/// nothing.
#[derive(Debug, Clone, PartialEq, Eq)]
pub enum UserResponse<T> {
    All,
    Picked(T),
    Nothing,
}

impl View for UserResponse<usize> {
    type V = UserResponse<int>;

    open spec fn view(&self) -> UserResponse<int> {
        match *self {
            UserResponse::All => UserResponse::All,
            UserResponse::Picked(i) => UserResponse::Picked(i as int),
            UserResponse::Nothing => UserResponse::Nothing,
        }
    }
}

impl View for UserResponse<Vec<usize>> {
    type V = UserResponse<Seq<int>>;

    open spec fn view(&self) -> UserResponse<Seq<int>> {
        match *self {
            UserResponse::All => UserResponse::All,
            UserResponse::Picked(v) => UserResponse::Picked(
                Seq::new(v.len() as nat, |k: int| v[k] as int),
            ),
            UserResponse::Nothing => UserResponse::Nothing,
        }
    }
}

impl View for UserResponse<Vec<String>> {
    type V = UserResponse<Seq<Seq<char>>>;

    open spec fn view(&self) -> UserResponse<Seq<Seq<char>>> {
        match *self {
            UserResponse::All => UserResponse::All,
            UserResponse::Picked(v) => UserResponse::Picked(views(v@)),
            UserResponse::Nothing => UserResponse::Nothing,
        }
    }
}

/// Why a flow ended without doing what it was started for.
#[derive(Debug, Clone, PartialEq, Eq)]
pub enum ErrorKind {
    /// The operator aborted a prompt or chose nothing.
    NoSelection,
    /// The branch listing is empty.
    NoBranches,
    /// Git ended with a failure; the text is what it wrote to its error
    /// stream.
    ExternalToolFailure(String),
    /// The convention document is missing; the text is where it was expected.
    ConfigurationMissing(String),
}

/// The value of an answer that may have failed.
pub open spec fn answered<T: View>(r: Result<T, ErrorKind>) -> Result<T::V, ErrorKind> {
    match r {
        Ok(response) => Ok(response@),
        Err(e) => Err(e),
    }
}

/// The position of the first listed item among the entries shown.
pub open spec fn first_item(has_all: bool) -> int {
    if has_all {
        1
    } else {
        0
    }
}

/// The position of the entry "None" among the entries shown, where the menu
/// has one.
pub open spec fn none_entry(n: int, has_all: bool) -> int {
    n + first_item(has_all)
}

/// The number of entries shown for a list of `n` items.
pub open spec fn menu_size(n: int, has_all: bool, has_none: bool) -> int {
    none_entry(n, has_all) + if has_none {
        1int
    } else {
        0int
    }
}

/// Every pick is the position of an entry shown.
pub open spec fn valid_picks(n: int, has_all: bool, has_none: bool, picks: Seq<usize>) -> bool {
    forall|k: int| 0 <= k < picks.len() ==> #[trigger] picks[k] < menu_size(n, has_all, has_none)
}

/// `entry` is among the picks.
pub open spec fn holds(picks: Seq<usize>, entry: int) -> bool {
    exists|k: int| 0 <= k < picks.len() && #[trigger] picks[k] == entry
}

/// The meaning of one pick in a menu over `n` items: "All" if that entry is
/// shown and picked, else "None" if that entry is shown and picked, else the
/// item picked, counted over the items.
pub open spec fn resolved_one(n: int, has_all: bool, has_none: bool, pick: int) -> UserResponse<
    int,
> {
    if has_all && pick == 0 {
        UserResponse::All
    } else if has_none && pick == none_entry(n, has_all) {
        UserResponse::Nothing
    } else {
        UserResponse::Picked(pick - first_item(has_all))
    }
}

/// The meaning of a set of picks in a menu over `n` items.
///
/// "All" wins over everything else that was picked with it. "None" wins over
/// the items picked with it, and stands also for an empty set of picks in a
/// menu that shows it. What is left is the items picked, in the order of the
/// picks, counted over the items.
pub open spec fn resolved_many(
    n: int,
    has_all: bool,
    has_none: bool,
    picks: Seq<usize>,
) -> UserResponse<Seq<int>> {
    if has_all && holds(picks, 0) {
        UserResponse::All
    } else if has_none && (picks.len() == 0 || holds(picks, none_entry(n, has_all))) {
        UserResponse::Nothing
    } else {
        UserResponse::Picked(Seq::new(picks.len(), |k: int| picks[k] - first_item(has_all)))
    }
}

/// The outcome of a menu with one pick. An aborted prompt is an error, never
/// the answer "None".
pub open spec fn single_outcome(
    n: int,
    has_all: bool,
    has_none: bool,
    selected: Option<usize>,
) -> Result<UserResponse<int>, ErrorKind> {
    match selected {
        None => Err(ErrorKind::NoSelection),
        Some(pick) => Ok(resolved_one(n, has_all, has_none, pick as int)),
    }
}

/// The outcome of a menu with any number of picks. An aborted prompt is an
/// error, never the answer "None".
pub open spec fn multi_outcome(
    n: int,
    has_all: bool,
    has_none: bool,
    selected: Option<Seq<usize>>,
) -> Result<UserResponse<Seq<int>>, ErrorKind> {
    match selected {
        None => Err(ErrorKind::NoSelection),
        Some(picks) => Ok(resolved_many(n, has_all, has_none, picks)),
    }
}

/// The items at the given positions.
pub open spec fn texts_at(items: Seq<Seq<char>>, indices: Seq<int>) -> Seq<Seq<char>> {
    Seq::new(indices.len(), |k: int| items[indices[k]])
}

/// An answer over positions, turned into an answer over the items there.
pub open spec fn response_texts(
    items: Seq<Seq<char>>,
    response: UserResponse<Seq<int>>,
) -> UserResponse<Seq<Seq<char>>> {
    match response {
        UserResponse::All => UserResponse::All,
        UserResponse::Picked(indices) => UserResponse::Picked(texts_at(items, indices)),
        UserResponse::Nothing => UserResponse::Nothing,
    }
}

/// The outcome of a menu with any number of picks over `items`, as the
/// items picked.
pub open spec fn plain_outcome(
    items: Seq<Seq<char>>,
    has_all: bool,
    has_none: bool,
    selected: Option<Seq<usize>>,
) -> Result<UserResponse<Seq<Seq<char>>>, ErrorKind> {
    match multi_outcome(items.len() as int, has_all, has_none, selected) {
        Ok(response) => Ok(response_texts(items, response)),
        Err(e) => Err(e),
    }
}

/// The picks of an answer are positions in a list of `n` items.
pub open spec fn within(response: UserResponse<Seq<int>>, n: int) -> bool {
    response matches UserResponse::Picked(indices) ==> forall|k: int|
        0 <= k < indices.len() ==> 0 <= #[trigger] indices[k] < n
}

/// The entries shown for `choices`.
pub open spec fn entries(choices: Seq<Seq<char>>, has_all: bool, has_none: bool) -> Seq<
    Seq<char>,
> {
    let head = if has_all {
        seq!["All"@]
    } else {
        Seq::empty()
    };
    let tail = if has_none {
        seq!["None"@]
    } else {
        Seq::empty()
    };
    head + choices + tail
}

/// Puts the entries "All" and "None" around `choices`, as the menu allows.
pub fn menu_entries(choices: Vec<String>, has_all: bool, has_none: bool) -> (shown: Vec<String>)
    ensures
        views(shown@) == entries(views(choices@), has_all, has_none),
{
    let mut shown: Vec<String> = Vec::new();
    if has_all {
        shown.push("All".to_owned());
    }
    let mut i: usize = 0;
    while i < choices.len()
        invariant
            i <= choices.len(),
            shown.len() == first_item(has_all) + i,
            has_all ==> shown@[0]@ == "All"@,
            forall|j: int| 0 <= j < i ==> shown@[first_item(has_all) + j]@ == choices@[j]@,
        decreases choices.len() - i,
    {
        shown.push(choices[i].clone());
        i += 1;
    }
    if has_none {
        shown.push("None".to_owned());
    }
    assert(views(shown@) =~= entries(views(choices@), has_all, has_none));
    shown
}

/// Whether `pick` is the entry "None" of a menu over `n` items that shows it.
fn is_none_entry(n: usize, has_all: bool, pick: usize) -> (r: bool)
    ensures
        r == (pick == none_entry(n as int, has_all)),
{
    if has_all {
        pick >= 1 && pick - 1 == n
    } else {
        pick == n
    }
}

/// Interprets the answer to a menu in which one entry is picked.
///
/// `selected` is the position picked among the entries shown, or `None` if
/// the operator aborted.
pub fn choice_single(
    choices: &Vec<String>,
    has_all: bool,
    has_none: bool,
    selected: Option<usize>,
) -> (r: Result<UserResponse<usize>, ErrorKind>)
    requires
        selected matches Some(pick) ==> pick < menu_size(choices.len() as int, has_all, has_none),
    ensures
        answered(r) == single_outcome(choices.len() as int, has_all, has_none, selected),
        r matches Ok(UserResponse::Picked(i)) ==> i < choices.len(),
{
    match selected {
        None => Err(ErrorKind::NoSelection),
        Some(pick) => {
            if has_all && pick == 0 {
                Ok(UserResponse::All)
            } else if has_none && is_none_entry(choices.len(), has_all, pick) {
                Ok(UserResponse::Nothing)
            } else if has_all {
                Ok(UserResponse::Picked(pick - 1))
            } else {
                Ok(UserResponse::Picked(pick))
            }
        },
    }
}

/// The picks of a menu with any number of picks, as a sequence.
pub open spec fn picks_view(selected: Option<Vec<usize>>) -> Option<Seq<usize>> {
    match selected {
        Some(picks) => Some(picks@),
        None => None,
    }
}

/// Whether `entry` is among `picks`.
fn picked(picks: &Vec<usize>, entry: usize) -> (r: bool)
    ensures
        r == holds(picks@, entry as int),
{
    let mut k: usize = 0;
    while k < picks.len()
        invariant
            k <= picks.len(),
            forall|j: int| 0 <= j < k ==> picks@[j] != entry,
        decreases picks.len() - k,
    {
        if picks[k] == entry {
            return true;
        }
        k += 1;
    }
    false
}

/// Whether the entry "None" of a menu over `n` items is among `picks`.
fn picked_none(picks: &Vec<usize>, n: usize, has_all: bool) -> (r: bool)
    ensures
        r == holds(picks@, none_entry(n as int, has_all)),
{
    let mut k: usize = 0;
    while k < picks.len()
        invariant
            k <= picks.len(),
            forall|j: int| 0 <= j < k ==> picks@[j] != none_entry(n as int, has_all),
        decreases picks.len() - k,
    {
        if is_none_entry(n, has_all, picks[k]) {
            return true;
        }
        k += 1;
    }
    false
}

/// Interprets the answer to a menu over `n` items in which any number of
/// entries is picked, as positions in the list of items.
///
/// `selected` holds the positions picked among the entries shown, or is
/// `None` if the operator aborted.
pub fn resolve_indices(
    n: usize,
    has_all: bool,
    has_none: bool,
    selected: Option<Vec<usize>>,
) -> (r: Result<UserResponse<Vec<usize>>, ErrorKind>)
    requires
        selected matches Some(picks) ==> valid_picks(n as int, has_all, has_none, picks@),
    ensures
        answered(r) == multi_outcome(n as int, has_all, has_none, picks_view(selected)),
        r matches Ok(response) ==> within(response@, n as int),
{
    match selected {
        None => Err(ErrorKind::NoSelection),
        Some(picks) => {
            if has_all && picked(&picks, 0) {
                Ok(UserResponse::All)
            } else if has_none && (picks.len() == 0 || picked_none(&picks, n, has_all)) {
                Ok(UserResponse::Nothing)
            } else {
                let mut indices: Vec<usize> = Vec::new();
                let mut k: usize = 0;
                while k < picks.len()
                    invariant
                        k <= picks.len(),
                        indices.len() == k,
                        valid_picks(n as int, has_all, has_none, picks@),
                        has_all ==> !holds(picks@, 0),
                        has_none ==> !holds(picks@, none_entry(n as int, has_all)),
                        forall|j: int|
                            0 <= j < k ==> indices@[j] == picks@[j] - first_item(has_all)
                                && indices@[j] < n,
                    decreases picks.len() - k,
                {
                    let pick = picks[k];
                    assert(picks@[k as int] < menu_size(n as int, has_all, has_none));
                    if has_all {
                        indices.push(pick - 1);
                    } else {
                        indices.push(pick);
                    }
                    k += 1;
                }
                let response = UserResponse::Picked(indices);
                assert(response@ == resolved_many(n as int, has_all, has_none, picks@)) by {
                    assert(response@->Picked_0 =~= Seq::new(
                        picks@.len(),
                        |k: int| picks@[k] - first_item(has_all),
                    ));
                }
                Ok(response)
            }
        },
    }
}

/// Fetches the items that an answer over positions names.
pub fn pick_texts(items: &Vec<String>, response: &UserResponse<Vec<usize>>) -> (r: UserResponse<
    Vec<String>,
>)
    requires
        within(response@, items.len() as int),
    ensures
        r@ == response_texts(views(items@), response@),
{
    match response {
        UserResponse::All => UserResponse::All,
        UserResponse::Nothing => UserResponse::Nothing,
        UserResponse::Picked(indices) => {
            let mut texts: Vec<String> = Vec::new();
            let mut k: usize = 0;
            while k < indices.len()
                invariant
                    k <= indices.len(),
                    texts.len() == k,
                    within(response@, items.len() as int),
                    response@ == UserResponse::Picked(
                        Seq::new(indices.len() as nat, |j: int| indices[j] as int),
                    ),
                    forall|j: int| 0 <= j < k ==> texts@[j]@ == items@[indices@[j] as int]@,
                decreases indices.len() - k,
            {
                assert(response@->Picked_0[k as int] == indices@[k as int]);
                texts.push(items[indices[k]].clone());
                k += 1;
            }
            assert(views(texts@) =~= texts_at(views(items@), response@->Picked_0));
            UserResponse::Picked(texts)
        },
    }
}

/// Interprets the answer to a menu in which any number of entries is picked.
///
/// `choices` are the items as they were shown, styling included; `selected`
/// holds the positions picked among the entries shown, or is `None` if the
/// operator aborted. The items that come back are free of styling; where
/// no item held a character that can begin an ANSI code, they are the items
/// as they were, character for character.
pub fn choice_no_limit(
    choices: Vec<String>,
    has_none: bool,
    has_all: bool,
    selected: Option<Vec<usize>>,
) -> (r: Result<UserResponse<Vec<String>>, ErrorKind>)
    requires
        selected matches Some(picks) ==> valid_picks(
            choices.len() as int,
            has_all,
            has_none,
            picks@,
        ),
    ensures
        answered(r) == plain_outcome(
            stripped_all(views(choices@)),
            has_all,
            has_none,
            picks_view(selected),
        ),
        all_escape_free(views(choices@)) ==> answered(r) == plain_outcome(
            views(choices@),
            has_all,
            has_none,
            picks_view(selected),
        ),
{
    let n = choices.len();
    match resolve_indices(n, has_all, has_none, selected) {
        Err(e) => Err(e),
        Ok(response) => {
            let plain = strip_vec_colors(choices);
            assert(views(plain@).len() == plain.len());
            assert(stripped_all(views(choices@)).len() == n);
            Ok(pick_texts(&plain, &response))
        },
    }
}

/// Interprets the answer to a searchable menu over `choices`, in which one
/// entry is picked and the entry "None" is shown after the list if
/// `allow_none` is set. `Ok(None)` says that "None" was picked.
pub fn filter_choice_cli(choices: &Vec<String>, allow_none: bool, selection: Option<usize>) -> (r:
    Result<Option<String>, ErrorKind>)
    requires
        selection matches Some(pick) ==> pick < menu_size(choices.len() as int, false, allow_none),
    ensures
        selection is None ==> r == Err::<Option<String>, ErrorKind>(ErrorKind::NoSelection),
        selection matches Some(pick) ==> (if pick == choices.len() {
            r == Ok::<Option<String>, ErrorKind>(None)
        } else {
            r matches Ok(Some(text)) && text@ == choices@[pick as int]@
        }),
{
    match choice_single(choices, false, allow_none, selection) {
        Err(e) => Err(e),
        Ok(UserResponse::Picked(i)) => Ok(Some(choices[i].clone())),
        Ok(_) => Ok(None),
    }
}

/// Interprets the answer to a confirmation: an aborted prompt is an error.
pub fn ask_choice_cli(answer: Option<bool>) -> (r: Result<bool, ErrorKind>)
    ensures
        r == match answer {
            Some(yes) => Ok::<bool, ErrorKind>(yes),
            None => Err::<bool, ErrorKind>(ErrorKind::NoSelection),
        },
{
    match answer {
        Some(yes) => Ok(yes),
        None => Err(ErrorKind::NoSelection),
    }
}

/// The meaning of a typed answer to a yes-or-no question: yes if it begins
/// with `y` or `Y`, no if it begins with anything else, and the default if
/// it is empty.
pub open spec fn means_yes(answer: Seq<char>, default_yes: bool) -> bool {
    if answer.len() == 0 {
        default_yes
    } else {
        answer[0] == 'y' || answer[0] == 'Y'
    }
}

/// Interprets a typed answer to a yes-or-no question.
pub fn ask_yes_no(answer: &str, default_yes: bool) -> (r: Result<bool, ErrorKind>)
    ensures
        r == Ok::<bool, ErrorKind>(means_yes(answer@, default_yes)),
{
    if answer.unicode_len() == 0 {
        Ok(default_yes)
    } else {
        let c = answer.get_char(0);
        Ok(c == 'y' || c == 'Y')
    }
}

/// In a menu that shows both extra entries, picking "All" gives `All`,
/// whatever else was picked with it.
pub proof fn lemma_all_entry_wins(n: int, picks: Seq<usize>)
    requires
        holds(picks, 0),
    ensures
        multi_outcome(n, true, true, Some(picks)) == Ok::<UserResponse<Seq<int>>, ErrorKind>(
            UserResponse::All,
        ),
{
}

/// In a menu that shows both extra entries, picking "None" without "All"
/// gives `Nothing`, whatever items were picked with it.
pub proof fn lemma_none_entry_wins(n: int, picks: Seq<usize>)
    requires
        holds(picks, n + 1),
        !holds(picks, 0),
    ensures
        multi_outcome(n, true, true, Some(picks)) == Ok::<UserResponse<Seq<int>>, ErrorKind>(
            UserResponse::Nothing,
        ),
{
}

/// An aborted prompt is the error `NoSelection` under every setting of the
/// menu, and so never the answer `Nothing`.
pub proof fn lemma_abort_is_no_selection(n: int, has_all: bool, has_none: bool)
    ensures
        multi_outcome(n, has_all, has_none, None) == Err::<UserResponse<Seq<int>>, ErrorKind>(
            ErrorKind::NoSelection,
        ),
        single_outcome(n, has_all, has_none, None) == Err::<UserResponse<int>, ErrorKind>(
            ErrorKind::NoSelection,
        ),
{
}

/// A menu that shows neither extra entry only ever answers with a choice of
/// items; and an answer `Picked` is empty only where the menu does not show
/// "None".
pub proof fn lemma_picked_shape(n: int, has_all: bool, has_none: bool, picks: Seq<usize>)
    ensures
        !has_all && !has_none ==> resolved_many(n, has_all, has_none, picks) is Picked,
        resolved_many(n, has_all, has_none, picks) matches UserResponse::Picked(indices) ==> (
        indices.len() == 0 ==> !has_none),
{
}

} // verus!
