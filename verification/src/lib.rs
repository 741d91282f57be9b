//! A source-to-source transformer for closed "union types".
//!
//! Given a declarative description of a set of subtypes that share a common
//! method surface — an enum-like declaration listing the subtype names,
//! followed by an impl-like block listing the operation signatures — the
//! library emits the text of a tagged union type: one variant per subtype,
//! one dispatch method per declared operation, and a pair of conversions
//! (total forward, fallible reverse) per subtype.
//!
//! The host language's own parser is an upstream collaborator: it supplies
//! the enum declaration and the impl block as pre-parsed structured nodes
//! ([`model::Node`]).  This library sequences and re-shapes those nodes
//! ([`parse`]) and generates the output code ([`emit`]); it never tokenizes
//! raw text itself, and it performs no semantic validation — malformed
//! output is left to the downstream compiler to reject.

mod digits;
mod emit;
mod model;
mod parse;
mod sample;

pub use digits::i32_dec;
pub use digits::spec_digit;
pub use digits::spec_i32_dec;
pub use digits::spec_udec;
pub use emit::argument_names;
pub use emit::impl_from;
pub use emit::impl_reverse_try_from;
pub use emit::lemma_conversion_pair_per_subtype;
pub use emit::lemma_one_arm_per_subtype;
pub use emit::lemma_one_method_per_operation;
pub use emit::lemma_one_variant_per_subtype;
pub use emit::spec_arg_list;
pub use emit::spec_argument_names;
pub use emit::spec_union_method;
pub use emit::spec_union_method_arm;
pub use emit::spec_union_type;
pub use emit::union_method;
pub use emit::union_method_arm;
pub use emit::union_type;
pub use model::EnumNode;
pub use model::Expected;
pub use model::ImplNode;
pub use model::Node;
pub use model::OperationSig;
pub use model::Param;
pub use model::SyntaxError;
pub use parse::UnionType;
pub use parse::parse_accepts;
pub use parse::spec_parse_error;
pub use sample::A;
pub use sample::B;
pub use sample::C;
pub use sample::lemma_closed_variant_set;
pub use sample::lemma_dispatch_equivalence;
pub use sample::lemma_forward_round_trip;
pub use sample::lemma_reverse_conversion;
pub use sample::spec_c_describe;
pub use sample::spec_c_f;
pub use sample::spec_c_g;
pub use sample::spec_try_into_a;
pub use sample::spec_try_into_b;
