//! Taking terminal styling off text.

use crate::text::views;
use vstd::prelude::*;
use vstd::string::*;

verus! {

/// What `console::strip_ansi_codes` leaves of a text.
pub uninterp spec fn stripped(s: Seq<char>) -> Seq<char>;

/// The text holds neither an escape character nor a control sequence
/// introducer, the two characters with which an ANSI code can begin.
pub open spec fn escape_free(s: Seq<char>) -> bool {
    forall|i: int| 0 <= i < s.len() ==> s[i] != '\u{1b}' && s[i] != '\u{9b}'
}

/// The result of stripping each text of a list.
pub open spec fn stripped_all(texts: Seq<Seq<char>>) -> Seq<Seq<char>> {
    Seq::new(texts.len(), |i: int| stripped(texts[i]))
}

/// None of the texts holds a character with which an ANSI code can begin.
pub open spec fn all_escape_free(texts: Seq<Seq<char>>) -> bool {
    forall|i: int| 0 <= i < texts.len() ==> escape_free(#[trigger] texts[i])
}

/// Removes ANSI escape codes from `input`.
///
/// Trusted: the body calls `console::strip_ansi_codes`. The contract names the
/// result and claims one thing of it, which the scanner in that crate shows:
/// a code can only begin at an escape character or a control sequence
/// introducer, so a text without either comes back unchanged.
#[verifier::external_body]
pub fn strip_colors(input: String) -> (plain: String)
    ensures
        plain@ == stripped(input@),
        escape_free(input@) ==> plain@ == input@,
{
    console::strip_ansi_codes(input.as_str()).to_string()
}

/// Removes ANSI escape codes from every text of `input`. Texts without a
/// character that can begin such a code come back as they were.
pub fn strip_vec_colors(input: Vec<String>) -> (plain: Vec<String>)
    ensures
        views(plain@) == stripped_all(views(input@)),
        all_escape_free(views(input@)) ==> views(plain@) == views(input@),
{
    let mut plain: Vec<String> = Vec::new();
    let mut i: usize = 0;
    while i < input.len()
        invariant
            i <= input.len(),
            plain.len() == i,
            forall|j: int| 0 <= j < i ==> plain@[j]@ == stripped(input@[j]@),
            forall|j: int| 0 <= j < i && escape_free(input@[j]@) ==> plain@[j]@ == input@[j]@,
        decreases input.len() - i,
    {
        plain.push(strip_colors(input[i].clone()));
        i += 1;
    }
    assert(views(plain@) =~= stripped_all(views(input@)));
    proof {
        if all_escape_free(views(input@)) {
            assert forall|j: int| 0 <= j < input.len() implies plain@[j]@ == input@[j]@ by {
                assert(escape_free(views(input@)[j]));
            }
            assert(views(plain@) =~= views(input@));
        }
    }
    plain
}

} // verus!
