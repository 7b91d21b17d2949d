//! The canonical renderer: a total function from a rule or node tree to its
//! ABNF text. Precedence is never inferred; parentheses appear only where the
//! tree holds an explicit `Group`.

use vstd::prelude::*;
use vstd::string::StringExecFns;

use crate::ast::Definition;
use crate::ast::Node;
use crate::ast::Range;
use crate::ast::Repeat;
use crate::ast::Rule;
use crate::digits::dec_str;
use crate::digits::hex_padded_str;
use crate::digits::spec_dec_digits;
use crate::digits::spec_hex_padded;

verus! {

/// The canonical text of a node tree.
pub open spec fn spec_render_node(n: Node) -> Seq<char>
    decreases n,
{
    match n {
        Node::Alternation(nodes) => spec_render_children(nodes@, seq![' ', '/', ' ']),
        Node::Concatenation(nodes) => spec_render_children(nodes@, seq![' ']),
        Node::Repetition { repeat, node } => spec_render_repeat(repeat) + spec_render_node(*node),
        Node::Rulename(name) => name@,
        Node::Group(node) => seq!['('] + spec_render_node(*node) + seq![')'],
        Node::Optional(node) => seq!['['] + spec_render_node(*node) + seq![']'],
        Node::CharVal(s) => seq!['"'] + s@ + seq!['"'],
        Node::NumVal(range) => seq!['%', 'x'] + spec_render_range(range),
        Node::ProseVal(s) => seq!['<'] + s@ + seq!['>'],
    }
}

/// The texts of the children, in declaration order, joined by `sep`.
pub open spec fn spec_render_children(ns: Seq<Node>, sep: Seq<char>) -> Seq<char>
    decreases ns,
{
    if ns.len() == 0 {
        Seq::empty()
    } else if ns.len() == 1 {
        spec_render_node(ns[0])
    } else {
        spec_render_node(ns[0]) + sep + spec_render_children(ns.drop_first(), sep)
    }
}

/// The quantifier prefix: `min` if present, a literal `*`, then `max` if
/// present; nothing at all when no repeat is given.
pub open spec fn spec_render_repeat(repeat: Option<Repeat>) -> Seq<char> {
    match repeat {
        Option::None => Seq::empty(),
        Option::Some(r) => spec_render_bound(r.min) + seq!['*'] + spec_render_bound(r.max),
    }
}

/// One repetition bound: its decimal text, or nothing when unbounded.
pub open spec fn spec_render_bound(b: Option<usize>) -> Seq<char> {
    match b {
        Option::None => Seq::empty(),
        Option::Some(n) => spec_dec_digits(n as nat),
    }
}

/// The text after the `%x` prefix of a numeric terminal.
pub open spec fn spec_render_range(r: Range) -> Seq<char> {
    match r {
        Range::OneOf(cps) => spec_render_oneof(cps@),
        Range::Range(lo, hi) => spec_hex_padded(lo as nat) + seq!['-'] + spec_hex_padded(
            hi as nat,
        ),
    }
}

/// The codepoints of a `OneOf`, each in padded hex, joined by `.`.
pub open spec fn spec_render_oneof(cps: Seq<u32>) -> Seq<char>
    decreases cps.len(),
{
    if cps.len() == 0 {
        Seq::empty()
    } else if cps.len() == 1 {
        spec_hex_padded(cps[0] as nat)
    } else {
        spec_hex_padded(cps[0] as nat) + seq!['.'] + spec_render_oneof(cps.drop_first())
    }
}

/// The canonical text of a whole rule: the name, ` = ` or ` =/ ` after the
/// definition kind, then the node text.
pub open spec fn spec_render_rule(rule: Rule) -> Seq<char> {
    rule.name@ + (match rule.definition {
        Definition::Basic => seq![' ', '=', ' '],
        Definition::Incremental => seq![' ', '=', '/', ' '],
    }) + spec_render_node(rule.node)
}

/// Renders a node tree to its canonical text.
pub fn render_node(n: &Node) -> (r: String)
    ensures
        r@ == spec_render_node(*n),
    decreases *n,
{
    match n {
        Node::Alternation(nodes) => {
            proof {
                reveal_strlit(" / ");
                assert(" / "@ =~= seq![' ', '/', ' ']);
                assert(nodes@.skip(0) =~= nodes@);
            }
            render_children(nodes, 0, " / ")
        },
        Node::Concatenation(nodes) => {
            proof {
                reveal_strlit(" ");
                assert(" "@ =~= seq![' ']);
                assert(nodes@.skip(0) =~= nodes@);
            }
            render_children(nodes, 0, " ")
        },
        Node::Repetition { repeat, node } => {
            let mut s = render_repeat(repeat);
            let inner = render_node(node);
            s.append(inner.as_str());
            s
        },
        Node::Rulename(name) => name.clone(),
        Node::Group(node) => {
            proof {
                reveal_strlit("(");
                reveal_strlit(")");
                assert("("@ =~= seq!['(']);
                assert(")"@ =~= seq![')']);
            }
            let mut s = "(".to_owned();
            let inner = render_node(node);
            s.append(inner.as_str());
            s.append(")");
            s
        },
        Node::Optional(node) => {
            proof {
                reveal_strlit("[");
                reveal_strlit("]");
                assert("["@ =~= seq!['[']);
                assert("]"@ =~= seq![']']);
            }
            let mut s = "[".to_owned();
            let inner = render_node(node);
            s.append(inner.as_str());
            s.append("]");
            s
        },
        Node::CharVal(text) => {
            proof {
                reveal_strlit("\"");
                assert("\""@ =~= seq!['"']);
            }
            let mut s = "\"".to_owned();
            s.append(text.as_str());
            s.append("\"");
            s
        },
        Node::NumVal(range) => {
            proof {
                reveal_strlit("%x");
                assert("%x"@ =~= seq!['%', 'x']);
            }
            let mut s = "%x".to_owned();
            let rest = render_range(range);
            s.append(rest.as_str());
            s
        },
        Node::ProseVal(text) => {
            proof {
                reveal_strlit("<");
                reveal_strlit(">");
                assert("<"@ =~= seq!['<']);
                assert(">"@ =~= seq!['>']);
            }
            let mut s = "<".to_owned();
            s.append(text.as_str());
            s.append(">");
            s
        },
    }
}

/// Renders the children from index `i` on, joined by `sep`.
fn render_children(ns: &Vec<Node>, i: usize, sep: &str) -> (r: String)
    requires
        i <= ns.len(),
    ensures
        r@ == spec_render_children(ns@.skip(i as int), sep@),
    decreases ns@, ns.len() - i,
{
    if i == ns.len() {
        String::new()
    } else {
        let mut s = render_node(&ns[i]);
        if i + 1 < ns.len() {
            s.append(sep);
            let rest = render_children(ns, i + 1, sep);
            s.append(rest.as_str());
        }
        proof {
            let suffix = ns@.skip(i as int);
            assert(suffix[0] == ns@[i as int]);
            assert(suffix.drop_first() =~= ns@.skip(i as int + 1));
        }
        s
    }
}

/// Renders a quantifier prefix.
fn render_repeat(repeat: &Option<Repeat>) -> (r: String)
    ensures
        r@ == spec_render_repeat(*repeat),
{
    match repeat {
        Option::None => String::new(),
        Option::Some(rep) => {
            proof {
                reveal_strlit("*");
                assert("*"@ =~= seq!['*']);
            }
            let mut s = render_bound(rep.min);
            s.append("*");
            let after = render_bound(rep.max);
            s.append(after.as_str());
            s
        },
    }
}

/// Renders one repetition bound.
fn render_bound(b: Option<usize>) -> (r: String)
    ensures
        r@ == spec_render_bound(b),
{
    match b {
        Option::None => String::new(),
        Option::Some(n) => dec_str(n),
    }
}

/// Renders the part of a numeric terminal after the `%x` prefix.
fn render_range(r: &Range) -> (res: String)
    ensures
        res@ == spec_render_range(*r),
{
    match r {
        Range::OneOf(cps) => {
            proof {
                assert(cps@.skip(0) =~= cps@);
            }
            render_oneof(cps, 0)
        },
        Range::Range(lo, hi) => {
            proof {
                reveal_strlit("-");
                assert("-"@ =~= seq!['-']);
            }
            let mut s = hex_padded_str(*lo);
            s.append("-");
            let after = hex_padded_str(*hi);
            s.append(after.as_str());
            s
        },
    }
}

/// Renders the codepoints from index `i` on, joined by `.`.
fn render_oneof(cps: &Vec<u32>, i: usize) -> (r: String)
    requires
        i <= cps.len(),
    ensures
        r@ == spec_render_oneof(cps@.skip(i as int)),
    decreases cps.len() - i,
{
    if i == cps.len() {
        String::new()
    } else {
        let mut s = hex_padded_str(cps[i]);
        if i + 1 < cps.len() {
            proof {
                reveal_strlit(".");
                assert("."@ =~= seq!['.']);
            }
            s.append(".");
            let rest = render_oneof(cps, i + 1);
            s.append(rest.as_str());
        }
        proof {
            let suffix = cps@.skip(i as int);
            assert(suffix[0] == cps@[i as int]);
            assert(suffix.drop_first() =~= cps@.skip(i as int + 1));
        }
        s
    }
}

/// Renders a whole rule to its canonical text.
pub fn render_rule(rule: &Rule) -> (r: String)
    ensures
        r@ == spec_render_rule(*rule),
{
    let mut s = rule.name.clone();
    match rule.definition {
        Definition::Basic => {
            proof {
                reveal_strlit(" = ");
                assert(" = "@ =~= seq![' ', '=', ' ']);
            }
            s.append(" = ");
        },
        Definition::Incremental => {
            proof {
                reveal_strlit(" =/ ");
                assert(" =/ "@ =~= seq![' ', '=', '/', ' ']);
            }
            s.append(" =/ ");
        },
    }
    let body = render_node(&rule.node);
    s.append(body.as_str());
    s
}

} // verus!

