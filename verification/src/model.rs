//! The declaration model: the typed in-memory form of the user's input.
//!
//! A union declaration pairs an enum-like node (name, visibility, attribute
//! tags, ordered subtype names) with an impl-like node (target name, ordered
//! operation signatures).  Attribute tags, visibilities, generic parameter
//! lists and types are opaque token text, copied through verbatim and never
//! interpreted here.

use vstd::prelude::*;

verus! {

/// One parameter of a declared operation signature.
///
/// Only named value parameters are forwarded by the generated dispatch
/// method; the receiver is consumed by the match itself, and a parameter
/// bound by a non-identifier pattern is dropped from the forwarded argument
/// list (a documented sharp edge: the downstream compiler then rejects the
/// call unless the subtype operation happens to accept fewer arguments).
#[derive(Debug)]
pub enum Param {
    /// The self-like receiver, with its verbatim text (for example `&self`).
    Receiver(String),
    /// A named value parameter: identifier and verbatim type text.
    Named(String, String),
    /// A parameter bound by a non-identifier pattern: verbatim pattern text
    /// and verbatim type text.
    Pattern(String, String),
}

/// The declared shape of one forwarded operation.
#[derive(Debug)]
pub struct OperationSig {
    /// Attribute tags above the method, one verbatim line each.
    pub attrs: Vec<String>,
    /// Verbatim visibility text; empty for a private method.
    pub vis: String,
    /// The operation's name.
    pub name: String,
    /// Verbatim generic parameter list with bounds, brackets included;
    /// empty when the operation has none.
    pub generics: String,
    /// The ordered parameter list.
    pub params: Vec<Param>,
    /// Verbatim return type text; empty when the operation returns nothing.
    pub ret: String,
}

/// The pre-parsed enum-like declaration, as the host parser hands it over.
#[derive(Debug)]
pub struct EnumNode {
    /// Attribute tags above the enum, one verbatim line each.
    pub attrs: Vec<String>,
    /// Verbatim visibility text; empty for a private type.
    pub vis: String,
    /// The union type's name.
    pub name: String,
    /// The ordered subtype names, one per future variant.  Duplicates are
    /// not rejected here: the transformer emits one variant per occurrence
    /// and leaves the clash to the downstream compiler, like every other
    /// semantic error.
    pub subtypes: Vec<String>,
}

/// The pre-parsed impl-like block, as the host parser hands it over.
#[derive(Debug)]
pub struct ImplNode {
    /// The name the block targets.  The transformer is deliberately
    /// permissive here: it does not require this name to match the enum's,
    /// and the output is generated under the enum's name regardless.
    pub target: String,
    /// The declared operation signatures, in order.
    pub ops: Vec<OperationSig>,
}

/// One pre-parsed top-level node of the input stream.
#[derive(Debug)]
pub enum Node {
    EnumDecl(EnumNode),
    ImplBlock(ImplNode),
}

/// Which sub-parse the input failed to satisfy.
#[derive(PartialEq, Eq, Structural, Clone, Copy, Debug)]
pub enum Expected {
    /// An enum-like declaration was expected.
    EnumDeclaration,
    /// An impl-like block was expected.
    ImplBlock,
    /// The two-part input should have ended, but more nodes followed.
    EndOfInput,
}

/// The only error this library raises itself: the input stream does not
/// match the two-part grammar "enum declaration, then impl block".
#[derive(PartialEq, Eq, Structural, Clone, Copy, Debug)]
pub struct SyntaxError {
    /// The index of the offending node in the input stream.
    pub position: usize,
    /// Which sub-parse failed there.
    pub expected: Expected,
}

} // verus!
