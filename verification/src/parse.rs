//! The input parser: sequences the pre-parsed nodes into a union
//! declaration, or fails with a [`SyntaxError`] naming the sub-parse that
//! failed and its position.
//!
//! The parse is pure and purely structural: the stream must hold exactly one
//! enum-like declaration followed by exactly one impl-like block.  No
//! semantic check is made here — duplicate subtype names or a mismatched
//! impl target are deferred to the downstream compiler.

use vstd::prelude::*;

use crate::model::EnumNode;
use crate::model::Expected;
use crate::model::ImplNode;
use crate::model::Node;
use crate::model::SyntaxError;

verus! {

/// The parsed pair: the enum-like declaration and the impl-like block.
#[derive(Debug)]
pub struct UnionType {
    pub enum_type: EnumNode,
    pub impl_type: ImplNode,
}

/// The inputs on which the parse succeeds: exactly an enum declaration,
/// then an impl block, then nothing.
pub open spec fn parse_accepts(nodes: Seq<Node>) -> bool {
    &&& nodes.len() == 2
    &&& nodes[0] is EnumDecl
    &&& nodes[1] is ImplBlock
}

/// The error reported for a rejected stream: the first position at which
/// the two-part shape fails, and what was expected there.
pub open spec fn spec_parse_error(nodes: Seq<Node>) -> SyntaxError {
    if nodes.len() == 0 || !(nodes[0] is EnumDecl) {
        SyntaxError { position: 0, expected: Expected::EnumDeclaration }
    } else if nodes.len() == 1 || !(nodes[1] is ImplBlock) {
        SyntaxError { position: 1, expected: Expected::ImplBlock }
    } else {
        SyntaxError { position: 2, expected: Expected::EndOfInput }
    }
}

impl UnionType {
    /// Parse the input stream: succeeds exactly on "enum declaration, then
    /// impl block", and hands both nodes over unchanged.
    pub fn parse(input: Vec<Node>) -> (r: Result<UnionType, SyntaxError>)
        ensures
            r is Ok <==> parse_accepts(input@),
            parse_accepts(input@) ==> (r matches Ok(u)
                && u.enum_type == input@[0]->EnumDecl_0
                && u.impl_type == input@[1]->ImplBlock_0),
            !parse_accepts(input@) ==> r == Result::<UnionType, SyntaxError>::Err(
                spec_parse_error(input@),
            ),
    {
        let mut input = input;
        if input.len() == 0 {
            return Err(SyntaxError { position: 0, expected: Expected::EnumDeclaration });
        }
        match &input[0] {
            Node::EnumDecl(_) => {},
            _ => {
                return Err(SyntaxError { position: 0, expected: Expected::EnumDeclaration });
            },
        }
        if input.len() == 1 {
            return Err(SyntaxError { position: 1, expected: Expected::ImplBlock });
        }
        match &input[1] {
            Node::ImplBlock(_) => {},
            _ => {
                return Err(SyntaxError { position: 1, expected: Expected::ImplBlock });
            },
        }
        if input.len() > 2 {
            return Err(SyntaxError { position: 2, expected: Expected::EndOfInput });
        }
        let second = input.pop().unwrap();
        let first = input.pop().unwrap();
        match (first, second) {
            (Node::EnumDecl(enum_type), Node::ImplBlock(impl_type)) => {
                Ok(UnionType { enum_type, impl_type })
            },
            _ => {
                proof {
                    assert(false);
                }
                Err(SyntaxError { position: 0, expected: Expected::EnumDeclaration })
            },
        }
    }
}

} // verus!
