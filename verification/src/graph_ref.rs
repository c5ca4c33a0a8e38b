//! Structured references to published graphs in a schema registry.
//!
//! A graph reference is written `NAME` or `NAME@VARIANT`. The name is one to
//! sixty-four letters, digits, hyphens or underscores and begins with a
//! letter; the variant is one to sixty-four characters; a reference without
//! a variant names the `current` variant.

use vstd::prelude::*;
use vstd::string::{StrSliceExecFns, StringExecFns};

verus! {

/// A structured reference to a published graph: the graph's name and the
/// variant the reference names.
#[derive(Debug, PartialEq, Eq)]
pub struct GraphRef {
    pub name: String,
    pub variant: String,
}

/// The mathematical model of a [`GraphRef`].
pub struct GraphRefView {
    pub name: Seq<char>,
    pub variant: Seq<char>,
}

impl View for GraphRef {
    type V = GraphRefView;

    open spec fn view(&self) -> GraphRefView {
        GraphRefView { name: self.name@, variant: self.variant@ }
    }
}

/// A character a graph name may begin with: a letter.
pub open spec fn is_graph_name_start(c: char) -> bool {
    ('a' as u32 <= c as u32 && c as u32 <= 'z' as u32) || ('A' as u32 <= c as u32 && c as u32
        <= 'Z' as u32)
}

/// A character a graph name may contain: a letter, a digit, a hyphen or an
/// underscore.
pub open spec fn is_graph_name_char(c: char) -> bool {
    is_graph_name_start(c) || ('0' as u32 <= c as u32 && c as u32 <= '9' as u32) || c == '-' || c
        == '_'
}

/// A well-formed graph name: one to sixty-four name characters, the first a
/// letter.
pub open spec fn valid_graph_name(s: Seq<char>) -> bool {
    &&& 1 <= s.len() <= 64
    &&& is_graph_name_start(s[0])
    &&& forall|i: int| 0 <= i < s.len() ==> is_graph_name_char(#[trigger] s[i])
}

/// A well-formed variant name: one to sixty-four characters.
pub open spec fn valid_variant(s: Seq<char>) -> bool {
    1 <= s.len() <= 64
}

/// Holds when the reference text contains an `@` separator.
pub open spec fn has_at(s: Seq<char>) -> bool {
    exists|i: int| 0 <= i < s.len() && s[i] == '@'
}

/// The position of the first `@` in the text (its length when there is
/// none).
pub open spec fn first_at(s: Seq<char>) -> int
    decreases s.len(),
{
    if s.len() == 0 {
        0
    } else if s[0] == '@' {
        0
    } else {
        1 + first_at(s.subrange(1, s.len() as int))
    }
}

/// The name part of a reference text: everything before the first `@`, or
/// the whole text when there is none.
pub open spec fn graph_ref_name_part(s: Seq<char>) -> Seq<char> {
    if has_at(s) {
        s.subrange(0, first_at(s))
    } else {
        s
    }
}

/// The variant part of a reference text: everything after the first `@`, or
/// `current` when there is none.
pub open spec fn graph_ref_variant_part(s: Seq<char>) -> Seq<char> {
    if has_at(s) {
        s.subrange(first_at(s) + 1, s.len() as int)
    } else {
        "current"@
    }
}

/// A reference text parses exactly when both of its parts are well formed.
pub open spec fn valid_graph_ref(s: Seq<char>) -> bool {
    valid_graph_name(graph_ref_name_part(s)) && valid_variant(graph_ref_variant_part(s))
}

proof fn lemma_first_at_found(s: Seq<char>, i: int)
    requires
        0 <= i < s.len(),
        s[i] == '@',
        forall|j: int| 0 <= j < i ==> s[j] != '@',
    ensures
        has_at(s),
        first_at(s) == i,
    decreases i,
{
    assert(has_at(s));
    if i > 0 {
        let t = s.subrange(1, s.len() as int);
        assert(t[i - 1] == s[i]);
        assert(forall|j: int| 0 <= j < i - 1 ==> t[j] == s[j + 1]);
        lemma_first_at_found(t, i - 1);
    }
}

/// Finds the first `@` of the reference text, if it has one.
fn find_at(s: &str) -> (r: Option<usize>)
    ensures
        match r {
            Some(p) => has_at(s@) && first_at(s@) == p as int && p < s@.len(),
            None => !has_at(s@),
        },
{
    let len = s.unicode_len();
    let mut i: usize = 0;
    while i < len
        invariant
            i <= len,
            len == s@.len(),
            forall|j: int| 0 <= j < i ==> s@[j] != '@',
        decreases len - i,
    {
        if s.get_char(i) == '@' {
            proof {
                lemma_first_at_found(s@, i as int);
            }
            return Some(i);
        }
        i = i + 1;
    }
    None
}

/// Reports whether `c` may begin a graph name.
fn is_name_start_char(c: char) -> (r: bool)
    ensures
        r == is_graph_name_start(c),
{
    let u = c as u32;
    ('a' as u32 <= u && u <= 'z' as u32) || ('A' as u32 <= u && u <= 'Z' as u32)
}

/// Reports whether `c` may stand in a graph name.
fn is_name_char(c: char) -> (r: bool)
    ensures
        r == is_graph_name_char(c),
{
    is_name_start_char(c) || {
        let u = c as u32;
        ('0' as u32 <= u && u <= '9' as u32) || c == '-' || c == '_'
    }
}

/// Checks a candidate graph name.
fn check_graph_name(s: &str) -> (r: bool)
    ensures
        r == valid_graph_name(s@),
{
    let len = s.unicode_len();
    if len < 1 || len > 64 {
        return false;
    }
    if !is_name_start_char(s.get_char(0)) {
        return false;
    }
    let mut i: usize = 0;
    while i < len
        invariant
            i <= len,
            len == s@.len(),
            1 <= len <= 64,
            is_graph_name_start(s@[0]),
            forall|j: int| 0 <= j < i ==> is_graph_name_char(#[trigger] s@[j]),
        decreases len - i,
    {
        if !is_name_char(s.get_char(i)) {
            return false;
        }
        i = i + 1;
    }
    true
}

/// Checks a candidate variant name.
fn check_variant(s: &str) -> (r: bool)
    ensures
        r == valid_variant(s@),
{
    let len = s.unicode_len();
    1 <= len && len <= 64
}

/// The failure of parsing a graph reference: the text that did not parse.
#[derive(Debug, PartialEq, Eq)]
pub struct GraphRefParseError {
    pub input: String,
}

/// The mathematical model of a [`GraphRefParseError`].
pub struct GraphRefParseErrorView {
    pub input: Seq<char>,
}

impl View for GraphRefParseError {
    type V = GraphRefParseErrorView;

    open spec fn view(&self) -> GraphRefParseErrorView {
        GraphRefParseErrorView { input: self.input@ }
    }
}

/// The diagnostic line of a failed graph-reference parse.
pub open spec fn graph_ref_parse_error_text() -> Seq<char> {
    "graph references must be of the form NAME or NAME@VARIANT, where NAME is one to sixty-four letters, numbers, hyphens, or underscores beginning with a letter, and VARIANT is one to sixty-four characters"@
}

impl GraphRefParseError {
    /// Renders the parse failure as a diagnostic line.
    pub fn message(&self) -> (r: String)
        ensures
            r@ == graph_ref_parse_error_text(),
    {
        String::from_str(
            "graph references must be of the form NAME or NAME@VARIANT, where NAME is one to sixty-four letters, numbers, hyphens, or underscores beginning with a letter, and VARIANT is one to sixty-four characters",
        )
    }
}

impl GraphRef {
    /// Parses a reference text. Returns the structured reference exactly
    /// when the text is well formed, and the parse failure otherwise.
    pub fn from_str(s: &str) -> (r: Result<GraphRef, GraphRefParseError>)
        ensures
            match r {
                Ok(g) => valid_graph_ref(s@) && g@.name == graph_ref_name_part(s@) && g@.variant
                    == graph_ref_variant_part(s@),
                Err(e) => !valid_graph_ref(s@) && e@.input == s@,
            },
    {
        match find_at(s) {
            None => {
                proof {
                    reveal_strlit("current");
                }
                if check_graph_name(s) {
                    Ok(GraphRef { name: String::from_str(s), variant: String::from_str("current") })
                } else {
                    Err(GraphRefParseError { input: String::from_str(s) })
                }
            },
            Some(p) => {
                let len = s.unicode_len();
                let name_part = s.substring_char(0, p);
                let variant_part = s.substring_char(p + 1, len);
                if check_graph_name(name_part) && check_variant(variant_part) {
                    Ok(GraphRef {
                        name: String::from_str(name_part),
                        variant: String::from_str(variant_part),
                    })
                } else {
                    Err(GraphRefParseError { input: String::from_str(s) })
                }
            },
        }
    }
}

impl Clone for GraphRef {
    /// Cloning keeps the reference's model.
    fn clone(&self) -> (r: Self)
        ensures
            r@ == self@,
    {
        GraphRef { name: self.name.clone(), variant: self.variant.clone() }
    }
}

} // verus!
