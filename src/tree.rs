//! The parsed syntax tree of a pattern, held as plain values, and its
//! statically derived properties.
use vstd::prelude::*;

verus! {

/// One node of a parsed pattern. Leaf payloads that the tree library
/// describes itself (a character class, an assertion kind) are held as the
/// text that library gives for them.
pub enum Node {
    /// Matches the empty string.
    Empty,
    /// A literal string, as text.
    Literal(String),
    /// A character class, as described by the tree library.
    Class(String),
    /// A zero-width assertion, by its kind.
    Look(String),
    /// `sub` repeated between `min` and `max` times (`None`: no upper bound).
    Repetition { min: u32, max: Option<u32>, greedy: bool, sub: Box<Node> },
    /// A capture group with its 1-based index and optional name.
    Capture { index: u32, name: Option<String>, sub: Box<Node> },
    /// The children matched one after another.
    Concat(Vec<Node>),
    /// Any one of the children.
    Alternation(Vec<Node>),
}

/// Facts derived statically from a whole parsed pattern.
pub struct Properties {
    /// Shortest match length; `None` when the pattern can never match.
    pub minimum_len: Option<usize>,
    /// Longest match length; `None` when unbounded.
    pub maximum_len: Option<usize>,
    /// Assertions anywhere in the pattern.
    pub look_set: String,
    /// Assertions required at the start of every match.
    pub look_set_prefix: String,
    /// Assertions required at the end of every match.
    pub look_set_suffix: String,
    /// Assertions that may occur at the start of a match.
    pub look_set_prefix_any: String,
    /// Assertions that may occur at the end of a match.
    pub look_set_suffix_any: String,
    /// Whether every match is valid UTF-8.
    pub utf8: bool,
    /// Number of explicit capture groups.
    pub explicit_captures_len: usize,
    /// Number of explicit groups that take part in every match, when fixed.
    pub static_explicit_captures_len: Option<usize>,
    /// Whether the pattern matches exactly one literal string.
    pub literal: bool,
    /// Whether the pattern is an alternation of literal strings only.
    pub alternation_literal: bool,
}

/// A parsed pattern: its root node and the properties of the whole.
pub struct Tree {
    pub root: Node,
    pub properties: Properties,
}

} // verus!
