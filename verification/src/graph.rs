//! The graph exporter: turns an ordered rule list into a directed-graph
//! document. Each rule with at least one dependency contributes one edge
//! line, in list order, with every identifier sanitized by replacing `-` with
//! `_`; rules without dependencies contribute nothing. The document is
//! wrapped in a fixed header and a closing line.

use vstd::prelude::*;
use vstd::string::StrSliceExecFns;
use vstd::string::StringExecFns;

use crate::ast::Rule;
use crate::deps::rule_dependencies;
use crate::deps::rule_deps;

verus! {

/// The identifier with every `-` replaced by `_`.
pub open spec fn spec_sanitize(s: Seq<char>) -> Seq<char> {
    s.map_values(
        |c: char|
            if c == '-' {
                '_'
            } else {
                c
            },
    )
}

/// The sanitized dependency names joined by `, `.
pub open spec fn spec_dep_list(deps: Seq<Seq<char>>) -> Seq<char>
    decreases deps.len(),
{
    if deps.len() == 0 {
        Seq::empty()
    } else if deps.len() == 1 {
        spec_sanitize(deps[0])
    } else {
        spec_sanitize(deps[0]) + ", "@ + spec_dep_list(deps.drop_first())
    }
}

/// The edge line a rule contributes: its sanitized name, an arrow, and its
/// sanitized dependency list in extraction order; nothing at all when the
/// rule has no dependencies.
pub open spec fn spec_edge_line(rule: Rule) -> Seq<char> {
    let deps = rule_dependencies(rule);
    if deps.len() == 0 {
        Seq::empty()
    } else {
        spec_sanitize(rule.name@) + " -> { "@ + spec_dep_list(deps) + " }\n"@
    }
}

/// The edge lines of the rules, in list order.
pub open spec fn spec_edge_lines(rules: Seq<Rule>) -> Seq<char>
    decreases rules.len(),
{
    if rules.len() == 0 {
        Seq::empty()
    } else {
        spec_edge_line(rules[0]) + spec_edge_lines(rules.drop_first())
    }
}

/// The fixed opening of the document: the graph-type declaration and a
/// layout-hint attribute.
pub open spec fn spec_header() -> Seq<char> {
    "digraph {\n"@ + "rankdir=LR;\n"@
}

/// The fixed closing line of the document.
pub open spec fn spec_footer() -> Seq<char> {
    "}\n"@
}

/// The whole directed-graph document for a rule list.
pub open spec fn spec_document(rules: Seq<Rule>) -> Seq<char> {
    spec_header() + spec_edge_lines(rules) + spec_footer()
}

/// A rule whose definition references no other rule contributes nothing to
/// the document body.
pub proof fn lemma_no_deps_no_line(rule: Rule)
    requires
        rule_dependencies(rule).len() == 0,
    ensures
        spec_edge_line(rule) == Seq::<char>::empty(),
{
}

/// Relies on String::push: appends the given character to the end of the
/// string.
#[verifier::external_body]
fn push_char(s: &mut String, c: char)
    ensures
        final (s)@ == old(s)@.push(c),
{
    s.push(c);
}

/// Replaces every `-` in the identifier by `_`.
pub fn sanitize_name(name: &str) -> (r: String)
    ensures
        r@ == spec_sanitize(name@),
{
    let len = name.unicode_len();
    let mut out = String::new();
    let mut i: usize = 0;
    while i < len
        invariant
            i <= len,
            len == name@.len(),
            out@.len() == i,
            forall|j: int|
                0 <= j < i ==> out@[j] == (if name@[j] == '-' {
                    '_'
                } else {
                    name@[j]
                }),
        decreases len - i,
    {
        let c = name.get_char(i);
        if c == '-' {
            push_char(&mut out, '_');
        } else {
            push_char(&mut out, c);
        }
        i += 1;
    }
    assert(out@ =~= spec_sanitize(name@));
    out
}

/// Renders the sanitized dependency names from index `i` on, joined by `, `.
fn dep_list(deps: &Vec<String>, i: usize) -> (r: String)
    requires
        i <= deps.len(),
    ensures
        r@ == spec_dep_list(deps.deep_view().skip(i as int)),
    decreases deps.len() - i,
{
    if i == deps.len() {
        String::new()
    } else {
        let mut s = sanitize_name(deps[i].as_str());
        if i + 1 < deps.len() {
            s.append(", ");
            let rest = dep_list(deps, i + 1);
            s.append(rest.as_str());
        }
        proof {
            let suffix = deps.deep_view().skip(i as int);
            assert(suffix[0] == deps.deep_view()[i as int]);
            assert(suffix.drop_first() =~= deps.deep_view().skip(i as int + 1));
        }
        s
    }
}

/// Returns the edge line of one rule, empty when it has no dependencies.
pub fn rule_edge_line(rule: &Rule) -> (r: String)
    ensures
        r@ == spec_edge_line(*rule),
{
    let deps = rule_deps(rule);
    if deps.len() == 0 {
        String::new()
    } else {
        let mut s = sanitize_name(rule.name.as_str());
        s.append(" -> { ");
        let list = dep_list(&deps, 0);
        s.append(list.as_str());
        s.append(" }\n");
        proof {
            assert(deps.deep_view().skip(0) =~= deps.deep_view());
        }
        s
    }
}

/// Renders the edge lines of the rules from index `i` on.
fn edge_lines(rules: &Vec<Rule>, i: usize) -> (r: String)
    requires
        i <= rules.len(),
    ensures
        r@ == spec_edge_lines(rules@.skip(i as int)),
    decreases rules.len() - i,
{
    if i == rules.len() {
        String::new()
    } else {
        let mut s = rule_edge_line(&rules[i]);
        let rest = edge_lines(rules, i + 1);
        s.append(rest.as_str());
        proof {
            let suffix = rules@.skip(i as int);
            assert(suffix[0] == rules@[i as int]);
            assert(suffix.drop_first() =~= rules@.skip(i as int + 1));
        }
        s
    }
}

/// Builds the directed-graph document for the rules, in list order.
pub fn export_graph(rules: &Vec<Rule>) -> (r: String)
    ensures
        r@ == spec_document(rules@),
{
    let mut s = "digraph {\n".to_owned();
    s.append("rankdir=LR;\n");
    let body = edge_lines(rules, 0);
    s.append(body.as_str());
    s.append("}\n");
    proof {
        assert(rules@.skip(0) =~= rules@);
    }
    s
}

} // verus!
