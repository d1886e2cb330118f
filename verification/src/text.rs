//! Case-insensitive comparison of file names.

use vstd::prelude::*;

verus! {

/// The lower-case form of a text, as `str::to_lowercase` of the standard
/// library computes it.
pub uninterp spec fn lowercase(text: Seq<char>) -> Seq<char>;

/// Two names are the same when their lower-case forms are equal, character
/// for character and over their whole length.
pub open spec fn same_name(a: Seq<char>, b: Seq<char>) -> bool {
    lowercase(a) == lowercase(b)
}

/// The texts that a sequence of strings holds.
pub open spec fn texts(strings: Seq<String>) -> Seq<Seq<char>> {
    strings.map_values(|s: String| s@)
}

/// Calls `str::to_lowercase`. Nothing is proved of it: the contract only
/// gives the result its name, [`lowercase`], which rests on the call returning
/// the same text for the same input, on every machine.
#[verifier::external_body]
fn to_lowercase(text: &str) -> (lower: String)
    ensures
        lower@ == lowercase(text@),
{
    text.to_lowercase()
}

/// Whether two texts, already in lower case, are equal.
pub fn folded_equal(a: &String, b: &String) -> (equal: bool)
    ensures
        equal == (a@ == b@),
{
    *a == *b
}

/// Whether `name` and `pattern` are the same name, whatever the case of their
/// letters.
pub fn names_match(name: &str, pattern: &str) -> (hit: bool)
    ensures
        hit == same_name(name@, pattern@),
{
    let name_lower = to_lowercase(name);
    let pattern_lower = to_lowercase(pattern);
    folded_equal(&name_lower, &pattern_lower)
}

/// The pattern of one search: the name that is looked for. It is fixed when
/// the request is made, and holds its lower-case form so that each entry
/// costs one conversion, not two.
pub struct SearchRequest {
    pattern: String,
    folded: String,
}

impl SearchRequest {
    /// The pattern as the caller wrote it.
    pub closed spec fn pattern(&self) -> Seq<char> {
        self.pattern@
    }

    #[verifier::type_invariant]
    spec fn well_formed(self) -> bool {
        self.folded@ == lowercase(self.pattern@)
    }

    /// A request for entries named `pattern`.
    pub fn new(pattern: &str) -> (request: SearchRequest)
        ensures
            request.pattern() == pattern@,
    {
        SearchRequest { pattern: pattern.to_owned(), folded: to_lowercase(pattern) }
    }

    /// The pattern as the caller wrote it.
    pub fn as_str(&self) -> (pattern: &str)
        ensures
            pattern@ == self.pattern(),
    {
        self.pattern.as_str()
    }

    /// Whether an entry of this base name is a match.
    pub fn matches(&self, name: &str) -> (hit: bool)
        ensures
            hit == same_name(name@, self.pattern()),
    {
        proof {
            use_type_invariant(self);
        }
        let name_lower = to_lowercase(name);
        folded_equal(&name_lower, &self.folded)
    }
}

/// Every name matches itself.
pub proof fn same_name_reflexive(a: Seq<char>)
    ensures
        same_name(a, a),
{
}

/// Matching does not depend on which of the two texts is the pattern.
pub proof fn same_name_symmetric(a: Seq<char>, b: Seq<char>)
    ensures
        same_name(a, b) == same_name(b, a),
{
}

/// Two names that match a third match each other.
pub proof fn same_name_transitive(a: Seq<char>, b: Seq<char>, c: Seq<char>)
    requires
        same_name(a, b),
        same_name(b, c),
    ensures
        same_name(a, c),
{
}

} // verus!
