//! Abstract syntax for ABNF grammars (RFC 5234): a tree model of grammar
//! rules, a canonical textual renderer, a dependency extractor that lists the
//! rule names a definition refers to, and an exporter that turns a rule list
//! into a directed-graph document.

pub mod ast;
pub mod digits;
pub mod deps;
pub mod graph;
pub mod render;

pub use ast::Definition;
pub use ast::Node;
pub use ast::Range;
pub use ast::Repeat;
pub use ast::Rule;
pub use deps::node_deps;
pub use deps::rule_deps;
pub use graph::export_graph;
pub use render::render_node;
pub use render::render_rule;
