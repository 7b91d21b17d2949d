//! The tree model of ABNF grammar rules: a named `Rule` owning a `Node`
//! definition tree, together with the quantifier (`Repeat`) and numeric
//! terminal (`Range`) shapes that appear inside it.

use vstd::prelude::*;

verus! {

/// Is a rule a basic rule (`=`) or an incremental alternative (`=/`)?
/// See RFC 5234, section 3.3.
#[derive(Debug, Clone, PartialEq, Eq)]
pub enum Definition {
    /// Basic rule definition.
    Basic,
    /// Incremental alternative.
    Incremental,
}

/// A named grammar production: a name paired with a definition tree.
#[derive(Debug, PartialEq, Eq)]
pub struct Rule {
    pub name: String,
    pub node: Node,
    pub definition: Definition,
}

/// One syntactic construct within a rule's definition.
#[derive(Debug, PartialEq, Eq)]
pub enum Node {
    /// Ordered choice over the children, rendered `a / b / c`.
    Alternation(Vec<Node>),
    /// Ordered sequence of the children, rendered `a b c`.
    Concatenation(Vec<Node>),
    /// A quantified sub-node; `repeat == None` means exactly one, with no
    /// quantifier rendered.
    Repetition { repeat: Option<Repeat>, node: Box<Node> },
    /// A reference to another rule by name.
    Rulename(String),
    /// A parenthesized sub-expression, purely a precedence marker.
    Group(Box<Node>),
    /// A bracketed zero-or-one sub-expression.
    Optional(Box<Node>),
    /// Literal quoted text.
    CharVal(String),
    /// A numeric terminal.
    NumVal(Range),
    /// Free-text prose; despite the angle-bracket rendering it is never a
    /// rule reference.
    ProseVal(String),
}

/// Repetition bounds; an absent bound means unbounded on that side.
#[derive(Debug, Clone, PartialEq, Eq)]
pub struct Repeat {
    pub min: Option<usize>,
    pub max: Option<usize>,
}

/// A numeric terminal: either an explicit set of codepoints or an inclusive
/// interval.
#[derive(Debug, Clone, PartialEq, Eq)]
pub enum Range {
    OneOf(Vec<u32>),
    Range(u32, u32),
}

impl Rule {
    /// Builds a rule from a name and a definition tree; the definition kind
    /// defaults to `Definition::Basic`.
    pub fn new(name: &str, node: Node) -> (r: Rule)
        ensures
            r.name@ == name@,
            r.node == node,
            r.definition == Definition::Basic,
    {
        Rule { name: name.to_owned(), node, definition: Definition::Basic }
    }

    /// Returns this rule with its definition kind replaced and every other
    /// field unchanged.
    pub fn definition(self, definition: Definition) -> (r: Rule)
        ensures
            r.name == self.name,
            r.node == self.node,
            r.definition == definition,
    {
        Rule { name: self.name, node: self.node, definition }
    }
}

} // verus!
