//! What the user typed: a choice of the menu, or the name to look for.

use vstd::prelude::*;
use crate::text::SearchRequest;

verus! {

/// A line without the white space at its two ends, as `str::trim` of the
/// standard library gives it.
pub uninterp spec fn trimmed(line: Seq<char>) -> Seq<char>;

/// Calls `str::trim`. Nothing is proved of it: the contract only gives the
/// result its name, [`trimmed`].
#[verifier::external_body]
fn trim<'a>(line: &'a str) -> (inner: &'a str)
    ensures
        inner@ == trimmed(line@),
{
    line.trim()
}

/// The choices of the main menu.
#[derive(Clone, Copy, Debug, PartialEq, Eq, Structural)]
pub enum MenuOption {
    /// `1`: search for a file.
    Search,
    /// `2`: monitor the system.
    Monitor,
    /// `3`: leave.
    Quit,
    /// Anything else.
    Invalid,
}

/// The choice that an answer stands for.
pub open spec fn option_of(answer: Seq<char>) -> MenuOption {
    if answer == seq!['1'] {
        MenuOption::Search
    } else if answer == seq!['2'] {
        MenuOption::Monitor
    } else if answer == seq!['3'] {
        MenuOption::Quit
    } else {
        MenuOption::Invalid
    }
}

/// The choice that an answer stands for, the white space at its ends already
/// taken off.
pub fn read_option(answer: &str) -> (option: MenuOption)
    ensures
        option == option_of(answer@),
{
    if answer.unicode_len() != 1 {
        return MenuOption::Invalid;
    }
    let c = answer.get_char(0);
    assert(answer@ =~= seq![c]);
    if c == '1' {
        MenuOption::Search
    } else if c == '2' {
        MenuOption::Monitor
    } else if c == '3' {
        MenuOption::Quit
    } else {
        assert(seq![c][0] == c);
        MenuOption::Invalid
    }
}

/// The choice that a line of input stands for.
pub fn parse_option(line: &str) -> (option: MenuOption)
    ensures
        option == option_of(trimmed(line@)),
{
    read_option(trim(line))
}

/// The request for a name, the white space at its ends already taken off.
/// There is none for the empty name.
pub fn accept_pattern(pattern: &str) -> (request: Option<SearchRequest>)
    ensures
        request is None <==> pattern@.len() == 0,
        request matches Some(r) ==> r.pattern() == pattern@,
{
    if pattern.unicode_len() == 0 {
        None
    } else {
        Some(SearchRequest::new(pattern))
    }
}

/// The request that a line of input stands for: for the name that is left
/// when the white space at the ends of the line is taken off, and none where
/// nothing is left.
pub fn pattern_from_line(line: &str) -> (request: Option<SearchRequest>)
    ensures
        request is None <==> trimmed(line@).len() == 0,
        request matches Some(r) ==> r.pattern() == trimmed(line@),
{
    accept_pattern(trim(line))
}

} // verus!
