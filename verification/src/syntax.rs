//! The simplified syntax tree the scanner walks.
//!
//! A parser front end reduces a parsed source file to this shape: the four
//! node kinds the analysis inspects, each carrying the node's source text as
//! the front end rendered it, and every other construct collapsed to a
//! [`AstNode::Group`] that only carries its relevant descendants.

use vstd::prelude::*;

verus! {

/// One node of the tree, pre-order; children are the node's relevant
/// descendants in source order.
pub enum AstNode {
    /// A function item: whether it carries a test or bench attribute, and
    /// whether its signature declares a named (foreign) ABI.
    FnItem { is_test: bool, is_extern_abi: bool, children: Vec<AstNode> },
    /// A method call expression: the called method's name and the rendered
    /// text of the whole call expression.
    MethodCall { method: String, code: String, children: Vec<AstNode> },
    /// An indexing (subscript) expression, with its rendered text.
    IndexExpr { code: String, children: Vec<AstNode> },
    /// A macro invocation: the final segment of the macro path and the
    /// rendered invocation text.
    MacroCall { name: String, code: String, children: Vec<AstNode> },
    /// Any other construct with relevant descendants.
    Group { children: Vec<AstNode> },
}

} // verus!
