//! The code generator: turns a parsed union declaration into the emitted
//! code text.
//!
//! The emission is a mechanical, side-effect-free rewrite that cannot fail:
//! the union type definition (one single-field variant per subtype, in
//! declaration order), one dispatch method per declared operation (an
//! exhaustive match forwarding the named value parameters in order), and a
//! forward/reverse conversion pair per subtype.  No validation happens
//! here; a subtype missing an operation surfaces only when the emitted code
//! is compiled downstream.
//!
//! Every function's contract pins the emitted text exactly, character for
//! character, through the `spec_` functions of this module.

use vstd::prelude::*;
use vstd::string::StringExecFns;

use crate::model::Node;
use crate::model::OperationSig;
use crate::model::Param;
use crate::model::SyntaxError;
use crate::parse::parse_accepts;
use crate::parse::spec_parse_error;
use crate::parse::UnionType;

verus! {

/// Attribute tags, one per line, in order.
pub open spec fn spec_attr_lines(attrs: Seq<String>) -> Seq<char>
    decreases attrs.len(),
{
    if attrs.len() == 0 {
        Seq::empty()
    } else {
        spec_attr_lines(attrs.drop_last()) + attrs.last()@ + "\n"@
    }
}

/// A visibility prefix: the verbatim text followed by a space, or nothing
/// at all for a private item.
pub open spec fn spec_vis(vis: Seq<char>) -> Seq<char> {
    if vis.len() == 0 {
        vis
    } else {
        vis + " "@
    }
}

/// One union variant: named after the subtype, holding one value of it.
pub open spec fn spec_variant_line(sub: Seq<char>) -> Seq<char> {
    "    "@ + sub + "("@ + sub + "),\n"@
}

/// The variant list: exactly one variant per subtype, in declaration order.
pub open spec fn spec_variant_lines(subs: Seq<String>) -> Seq<char>
    decreases subs.len(),
{
    if subs.len() == 0 {
        Seq::empty()
    } else {
        spec_variant_lines(subs.drop_last()) + spec_variant_line(subs.last()@)
    }
}

/// One parameter as it appears in the generated signature.
pub open spec fn spec_param_text(p: Param) -> Seq<char> {
    match p {
        Param::Receiver(t) => t@,
        Param::Named(n, ty) => n@ + ": "@ + ty@,
        Param::Pattern(pat, ty) => pat@ + ": "@ + ty@,
    }
}

/// The comma-separated parameter list.
pub open spec fn spec_param_list(ps: Seq<Param>) -> Seq<char>
    decreases ps.len(),
{
    if ps.len() == 0 {
        Seq::empty()
    } else if ps.len() == 1 {
        spec_param_text(ps[0])
    } else {
        spec_param_list(ps.drop_last()) + ", "@ + spec_param_text(ps.last())
    }
}

/// The names forwarded by a dispatch method: the named value parameters,
/// in order.  The receiver is consumed by the match itself; a parameter
/// bound by a non-identifier pattern is dropped entirely.
pub open spec fn spec_argument_names(ps: Seq<Param>) -> Seq<String>
    decreases ps.len(),
{
    if ps.len() == 0 {
        Seq::empty()
    } else {
        let rest = spec_argument_names(ps.drop_last());
        match ps.last() {
            Param::Named(n, _) => rest.push(n),
            _ => rest,
        }
    }
}

/// The comma-separated forwarded argument list.
pub open spec fn spec_arg_list(args: Seq<String>) -> Seq<char>
    decreases args.len(),
{
    if args.len() == 0 {
        Seq::empty()
    } else if args.len() == 1 {
        args[0]@
    } else {
        spec_arg_list(args.drop_last()) + ", "@ + args.last()@
    }
}

/// One match arm of a dispatch method: unwrap the held subtype value and
/// invoke the identically named operation on it, forwarding the named
/// value parameters and returning the result directly.
pub open spec fn spec_union_method_arm(
    uname: Seq<char>,
    sub: Seq<char>,
    mname: Seq<char>,
    args: Seq<String>,
) -> Seq<char> {
    "            "@ + uname + "::"@ + sub + "(x) => x."@ + mname + "("@ + spec_arg_list(args)
        + "),\n"@
}

/// The match arms of a dispatch method: one per subtype, in declaration
/// order.
pub open spec fn spec_arm_lines(
    uname: Seq<char>,
    subs: Seq<String>,
    mname: Seq<char>,
    args: Seq<String>,
) -> Seq<char>
    decreases subs.len(),
{
    if subs.len() == 0 {
        Seq::empty()
    } else {
        spec_arm_lines(uname, subs.drop_last(), mname, args) + spec_union_method_arm(
            uname,
            subs.last()@,
            mname,
            args,
        )
    }
}

/// An empty return type is omitted; any other is copied verbatim.
pub open spec fn spec_ret(ret: Seq<char>) -> Seq<char> {
    if ret.len() == 0 {
        ret
    } else {
        " -> "@ + ret
    }
}

/// One dispatch method: the declared signature reproduced verbatim, whose
/// body is an exhaustive match over the union's variants.
pub open spec fn spec_union_method(m: OperationSig, uname: Seq<char>, subs: Seq<String>) -> Seq<
    char,
> {
    spec_attr_lines(m.attrs@) + "    "@ + spec_vis(m.vis@) + "fn "@ + m.name@ + m.generics@ + "("@
        + spec_param_list(m.params@) + ")"@ + spec_ret(m.ret@) + " {\n"@ + "        match self {\n"@
        + spec_arm_lines(uname, subs, m.name@, spec_argument_names(m.params@)) + "        }\n"@
        + "    }\n"@
}

/// The dispatch methods: one per declared operation, in order.
pub open spec fn spec_method_items(ops: Seq<OperationSig>, uname: Seq<char>, subs: Seq<String>) -> Seq<
    char,
>
    decreases ops.len(),
{
    if ops.len() == 0 {
        Seq::empty()
    } else {
        spec_method_items(ops.drop_last(), uname, subs) + spec_union_method(
            ops.last(),
            uname,
            subs,
        )
    }
}

/// The forward conversion for one subtype: total, always succeeds.
pub open spec fn spec_impl_from(uname: Seq<char>, sub: Seq<char>) -> Seq<char> {
    "impl std::convert::From<"@ + sub + "> for "@ + uname + " {\n"@ + "    fn from(x: "@ + sub
        + ") -> Self {\n"@ + "        "@ + uname + "::"@ + sub + "(x)\n"@ + "    }\n"@ + "}\n"@
}

/// The forward conversions: one per subtype, in declaration order.
pub open spec fn spec_from_impls(uname: Seq<char>, subs: Seq<String>) -> Seq<char>
    decreases subs.len(),
{
    if subs.len() == 0 {
        Seq::empty()
    } else {
        spec_from_impls(uname, subs.drop_last()) + spec_impl_from(uname, subs.last()@)
    }
}

/// The reverse conversion for one subtype: succeeds exactly when the union
/// holds that variant, and otherwise fails with a plain wrong-variant
/// error that names no other variant.
pub open spec fn spec_impl_reverse_try_from(uname: Seq<char>, sub: Seq<char>) -> Seq<char> {
    "impl std::convert::TryFrom<"@ + uname + "> for "@ + sub + " {\n"@ + "    type Error = ();\n"@
        + "    fn try_from(x: "@ + uname + ") -> Result<Self, Self::Error> {\n"@
        + "        if let "@ + uname + "::"@ + sub + "(x) = x {\n"@ + "            Ok(x)\n"@
        + "        } else {\n"@ + "            Err(())\n"@ + "        }\n"@ + "    }\n"@ + "}\n"@
}

/// The reverse conversions: one per subtype, in declaration order.
pub open spec fn spec_try_from_impls(uname: Seq<char>, subs: Seq<String>) -> Seq<char>
    decreases subs.len(),
{
    if subs.len() == 0 {
        Seq::empty()
    } else {
        spec_try_from_impls(uname, subs.drop_last()) + spec_impl_reverse_try_from(
            uname,
            subs.last()@,
        )
    }
}

/// The whole emission bundle, produced atomically: the union type, its
/// dispatch methods, then the conversion pairs for each subtype in
/// declaration order.  The impl block's target name plays no part: the
/// output is generated under the enum's name regardless.
pub open spec fn spec_union_type(u: UnionType) -> Seq<char> {
    spec_attr_lines(u.enum_type.attrs@) + spec_vis(u.enum_type.vis@) + "enum "@ + u.enum_type.name@
        + " {\n"@ + spec_variant_lines(u.enum_type.subtypes@) + "}\n"@ + "impl "@
        + u.enum_type.name@ + " {\n"@ + spec_method_items(
        u.impl_type.ops@,
        u.enum_type.name@,
        u.enum_type.subtypes@,
    ) + "}\n"@ + spec_from_impls(u.enum_type.name@, u.enum_type.subtypes@) + spec_try_from_impls(
        u.enum_type.name@,
        u.enum_type.subtypes@,
    )
}

/// Variant-count invariant, at the emission level: for every declaration,
/// the generated union's variant list is exactly the concatenation of one
/// variant line per declared subtype, in declaration order — no more, no
/// less.
pub proof fn lemma_one_variant_per_subtype(subs: Seq<String>)
    ensures
        subs.map_values(|s: String| spec_variant_line(s@)).len() == subs.len(),
        spec_variant_lines(subs) == subs.map_values(
            |s: String| spec_variant_line(s@),
        ).flatten_alt(),
    decreases subs.len(),
{
    let lines = subs.map_values(|s: String| spec_variant_line(s@));
    if subs.len() == 0 {
        assert(lines.flatten_alt() =~= Seq::<char>::empty());
    } else {
        lemma_one_variant_per_subtype(subs.drop_last());
        assert(lines.drop_last() =~= subs.drop_last().map_values(
            |s: String| spec_variant_line(s@),
        ));
        assert(spec_variant_lines(subs) =~= lines.flatten_alt());
    }
}

/// Dispatch fan-out invariant, at the emission level: for every declared
/// operation, the generated match holds exactly one arm per declared
/// subtype, in declaration order.
pub proof fn lemma_one_arm_per_subtype(
    uname: Seq<char>,
    subs: Seq<String>,
    mname: Seq<char>,
    args: Seq<String>,
)
    ensures
        subs.map_values(|s: String| spec_union_method_arm(uname, s@, mname, args)).len()
            == subs.len(),
        spec_arm_lines(uname, subs, mname, args) == subs.map_values(
            |s: String| spec_union_method_arm(uname, s@, mname, args),
        ).flatten_alt(),
    decreases subs.len(),
{
    let arms = subs.map_values(|s: String| spec_union_method_arm(uname, s@, mname, args));
    if subs.len() == 0 {
        assert(arms.flatten_alt() =~= Seq::<char>::empty());
    } else {
        lemma_one_arm_per_subtype(uname, subs.drop_last(), mname, args);
        assert(arms.drop_last() =~= subs.drop_last().map_values(
            |s: String| spec_union_method_arm(uname, s@, mname, args),
        ));
        assert(spec_arm_lines(uname, subs, mname, args) =~= arms.flatten_alt());
    }
}

/// Dispatch-method invariant, at the emission level: the generated impl
/// block holds exactly one method per declared operation, in declaration
/// order.
pub proof fn lemma_one_method_per_operation(
    ops: Seq<OperationSig>,
    uname: Seq<char>,
    subs: Seq<String>,
)
    ensures
        ops.map_values(|m: OperationSig| spec_union_method(m, uname, subs)).len() == ops.len(),
        spec_method_items(ops, uname, subs) == ops.map_values(
            |m: OperationSig| spec_union_method(m, uname, subs),
        ).flatten_alt(),
    decreases ops.len(),
{
    let methods = ops.map_values(|m: OperationSig| spec_union_method(m, uname, subs));
    if ops.len() == 0 {
        assert(methods.flatten_alt() =~= Seq::<char>::empty());
    } else {
        lemma_one_method_per_operation(ops.drop_last(), uname, subs);
        assert(methods.drop_last() =~= ops.drop_last().map_values(
            |m: OperationSig| spec_union_method(m, uname, subs),
        ));
        assert(spec_method_items(ops, uname, subs) =~= methods.flatten_alt());
    }
}

/// Conversion-pair invariant, at the emission level: for every declaration
/// the emitted forward conversions are exactly one per subtype, and so are
/// the reverse conversions — two implementations per subtype in all,
/// whether or not any operation was declared.
pub proof fn lemma_conversion_pair_per_subtype(uname: Seq<char>, subs: Seq<String>)
    ensures
        subs.map_values(|s: String| spec_impl_from(uname, s@)).len() == subs.len(),
        spec_from_impls(uname, subs) == subs.map_values(
            |s: String| spec_impl_from(uname, s@),
        ).flatten_alt(),
        subs.map_values(|s: String| spec_impl_reverse_try_from(uname, s@)).len() == subs.len(),
        spec_try_from_impls(uname, subs) == subs.map_values(
            |s: String| spec_impl_reverse_try_from(uname, s@),
        ).flatten_alt(),
    decreases subs.len(),
{
    let froms = subs.map_values(|s: String| spec_impl_from(uname, s@));
    let trys = subs.map_values(|s: String| spec_impl_reverse_try_from(uname, s@));
    if subs.len() == 0 {
        assert(froms.flatten_alt() =~= Seq::<char>::empty());
        assert(trys.flatten_alt() =~= Seq::<char>::empty());
    } else {
        lemma_conversion_pair_per_subtype(uname, subs.drop_last());
        assert(froms.drop_last() =~= subs.drop_last().map_values(
            |s: String| spec_impl_from(uname, s@),
        ));
        assert(trys.drop_last() =~= subs.drop_last().map_values(
            |s: String| spec_impl_reverse_try_from(uname, s@),
        ));
        assert(spec_from_impls(uname, subs) =~= froms.flatten_alt());
        assert(spec_try_from_impls(uname, subs) =~= trys.flatten_alt());
    }
}

/// The attribute tags, one per line.
fn attr_lines(attrs: &Vec<String>) -> (r: String)
    ensures
        r@ == spec_attr_lines(attrs@),
{
    let mut out = String::new();
    let mut i: usize = 0;
    while i < attrs.len()
        invariant
            i <= attrs.len(),
            out@ == spec_attr_lines(attrs@.take(i as int)),
        decreases attrs.len() - i,
    {
        out.append(attrs[i].as_str());
        out.append("\n");
        proof {
            assert(attrs@.take(i as int + 1).drop_last() =~= attrs@.take(i as int));
            assert(out@ =~= spec_attr_lines(attrs@.take(i as int + 1)));
        }
        i += 1;
    }
    proof {
        assert(attrs@.take(attrs@.len() as int) =~= attrs@);
    }
    out
}

/// The visibility prefix.
fn vis_text(vis: &str) -> (r: String)
    ensures
        r@ == spec_vis(vis@),
{
    if vis.is_empty() {
        vis.to_owned()
    } else {
        let mut out = vis.to_owned();
        out.append(" ");
        out
    }
}

/// The variant list of the union type.
fn variant_lines(subtypes: &Vec<String>) -> (r: String)
    ensures
        r@ == spec_variant_lines(subtypes@),
{
    let mut out = String::new();
    let mut i: usize = 0;
    while i < subtypes.len()
        invariant
            i <= subtypes.len(),
            out@ == spec_variant_lines(subtypes@.take(i as int)),
        decreases subtypes.len() - i,
    {
        out.append("    ");
        out.append(subtypes[i].as_str());
        out.append("(");
        out.append(subtypes[i].as_str());
        out.append("),\n");
        proof {
            assert(subtypes@.take(i as int + 1).drop_last() =~= subtypes@.take(i as int));
            assert(out@ =~= spec_variant_lines(subtypes@.take(i as int + 1)));
        }
        i += 1;
    }
    proof {
        assert(subtypes@.take(subtypes@.len() as int) =~= subtypes@);
    }
    out
}

/// The comma-separated parameter list of a generated signature.
fn param_list(params: &Vec<Param>) -> (r: String)
    ensures
        r@ == spec_param_list(params@),
{
    let mut out = String::new();
    let mut i: usize = 0;
    while i < params.len()
        invariant
            i <= params.len(),
            out@ == spec_param_list(params@.take(i as int)),
        decreases params.len() - i,
    {
        if i > 0 {
            out.append(", ");
        }
        match &params[i] {
            Param::Receiver(t) => {
                out.append(t.as_str());
            },
            Param::Named(n, ty) => {
                out.append(n.as_str());
                out.append(": ");
                out.append(ty.as_str());
            },
            Param::Pattern(pat, ty) => {
                out.append(pat.as_str());
                out.append(": ");
                out.append(ty.as_str());
            },
        }
        proof {
            assert(params@.take(i as int + 1).drop_last() =~= params@.take(i as int));
            assert(out@ =~= spec_param_list(params@.take(i as int + 1)));
        }
        i += 1;
    }
    proof {
        assert(params@.take(params@.len() as int) =~= params@);
    }
    out
}

/// The identifiers a dispatch method forwards: the named value parameters,
/// in their original order.  The receiver is not forwarded, and a
/// parameter bound by a non-identifier pattern is dropped from the list.
pub fn argument_names(parameters: &Vec<Param>) -> (r: Vec<String>)
    ensures
        r@ == spec_argument_names(parameters@),
{
    let mut r: Vec<String> = Vec::new();
    let mut i: usize = 0;
    while i < parameters.len()
        invariant
            i <= parameters.len(),
            r@ == spec_argument_names(parameters@.take(i as int)),
        decreases parameters.len() - i,
    {
        match &parameters[i] {
            Param::Named(n, _) => {
                r.push(n.clone());
            },
            _ => {},
        }
        proof {
            assert(parameters@.take(i as int + 1).drop_last() =~= parameters@.take(i as int));
            assert(r@ =~= spec_argument_names(parameters@.take(i as int + 1)));
        }
        i += 1;
    }
    proof {
        assert(parameters@.take(parameters@.len() as int) =~= parameters@);
    }
    r
}

/// The comma-separated forwarded argument list.
fn arg_list(args: &Vec<String>) -> (r: String)
    ensures
        r@ == spec_arg_list(args@),
{
    let mut out = String::new();
    let mut i: usize = 0;
    while i < args.len()
        invariant
            i <= args.len(),
            out@ == spec_arg_list(args@.take(i as int)),
        decreases args.len() - i,
    {
        if i > 0 {
            out.append(", ");
        }
        out.append(args[i].as_str());
        proof {
            assert(args@.take(i as int + 1).drop_last() =~= args@.take(i as int));
            assert(out@ =~= spec_arg_list(args@.take(i as int + 1)));
        }
        i += 1;
    }
    proof {
        assert(args@.take(args@.len() as int) =~= args@);
    }
    out
}

/// One match arm of a dispatch method.
pub fn union_method_arm(
    union_type_name: &str,
    subtype_name: &str,
    method_name: &str,
    argument_names: &Vec<String>,
) -> (r: String)
    ensures
        r@ == spec_union_method_arm(
            union_type_name@,
            subtype_name@,
            method_name@,
            argument_names@,
        ),
{
    let mut out = "            ".to_owned();
    out.append(union_type_name);
    out.append("::");
    out.append(subtype_name);
    out.append("(x) => x.");
    out.append(method_name);
    out.append("(");
    out.append(arg_list(argument_names).as_str());
    out.append("),\n");
    proof {
        assert(out@ =~= spec_union_method_arm(
            union_type_name@,
            subtype_name@,
            method_name@,
            argument_names@,
        ));
    }
    out
}

/// One dispatch method on the union type: the declared signature verbatim,
/// with an exhaustive match forwarding to whichever subtype is held.
pub fn union_method(
    impl_item_method: &OperationSig,
    union_type_name: &str,
    subtypes: &Vec<String>,
) -> (r: String)
    ensures
        r@ == spec_union_method(*impl_item_method, union_type_name@, subtypes@),
{
    let args = argument_names(&impl_item_method.params);
    let mut out = attr_lines(&impl_item_method.attrs);
    out.append("    ");
    out.append(vis_text(impl_item_method.vis.as_str()).as_str());
    out.append("fn ");
    out.append(impl_item_method.name.as_str());
    out.append(impl_item_method.generics.as_str());
    out.append("(");
    out.append(param_list(&impl_item_method.params).as_str());
    out.append(")");
    if !impl_item_method.ret.as_str().is_empty() {
        out.append(" -> ");
        out.append(impl_item_method.ret.as_str());
    }
    out.append(" {\n");
    out.append("        match self {\n");
    let mut i: usize = 0;
    let ghost prefix: Seq<char> = out@;
    while i < subtypes.len()
        invariant
            i <= subtypes.len(),
            out@ == prefix + spec_arm_lines(
                union_type_name@,
                subtypes@.take(i as int),
                impl_item_method.name@,
                args@,
            ),
            args@ == spec_argument_names(impl_item_method.params@),
        decreases subtypes.len() - i,
    {
        out.append(
            union_method_arm(
                union_type_name,
                subtypes[i].as_str(),
                impl_item_method.name.as_str(),
                &args,
            ).as_str(),
        );
        proof {
            assert(subtypes@.take(i as int + 1).drop_last() =~= subtypes@.take(i as int));
            assert(out@ =~= prefix + spec_arm_lines(
                union_type_name@,
                subtypes@.take(i as int + 1),
                impl_item_method.name@,
                args@,
            ));
        }
        i += 1;
    }
    out.append("        }\n");
    out.append("    }\n");
    proof {
        assert(subtypes@.take(subtypes@.len() as int) =~= subtypes@);
        assert(out@ =~= spec_union_method(*impl_item_method, union_type_name@, subtypes@));
    }
    out
}

/// The total forward conversion for one subtype: wraps the value in the
/// matching variant.
pub fn impl_from(union_type_name: &str, subtype_name: &str) -> (r: String)
    ensures
        r@ == spec_impl_from(union_type_name@, subtype_name@),
{
    let mut out = "impl std::convert::From<".to_owned();
    out.append(subtype_name);
    out.append("> for ");
    out.append(union_type_name);
    out.append(" {\n");
    out.append("    fn from(x: ");
    out.append(subtype_name);
    out.append(") -> Self {\n");
    out.append("        ");
    out.append(union_type_name);
    out.append("::");
    out.append(subtype_name);
    out.append("(x)\n");
    out.append("    }\n");
    out.append("}\n");
    proof {
        assert(out@ =~= spec_impl_from(union_type_name@, subtype_name@));
    }
    out
}

/// The fallible reverse conversion for one subtype: extracts the held
/// value exactly when the union holds this variant, and otherwise fails
/// with a plain wrong-variant error.
pub fn impl_reverse_try_from(union_type_name: &str, subtype_name: &str) -> (r: String)
    ensures
        r@ == spec_impl_reverse_try_from(union_type_name@, subtype_name@),
{
    let mut out = "impl std::convert::TryFrom<".to_owned();
    out.append(union_type_name);
    out.append("> for ");
    out.append(subtype_name);
    out.append(" {\n");
    out.append("    type Error = ();\n");
    out.append("    fn try_from(x: ");
    out.append(union_type_name);
    out.append(") -> Result<Self, Self::Error> {\n");
    out.append("        if let ");
    out.append(union_type_name);
    out.append("::");
    out.append(subtype_name);
    out.append("(x) = x {\n");
    out.append("            Ok(x)\n");
    out.append("        } else {\n");
    out.append("            Err(())\n");
    out.append("        }\n");
    out.append("    }\n");
    out.append("}\n");
    proof {
        assert(out@ =~= spec_impl_reverse_try_from(union_type_name@, subtype_name@));
    }
    out
}

/// The whole transformation: parse the two-part input, then emit the union
/// type, its dispatch methods, and the conversion pair for every subtype.
/// All-or-nothing: on a syntax error no partial code is emitted.
pub fn union_type(input: Vec<Node>) -> (r: Result<String, SyntaxError>)
    ensures
        r is Ok <==> parse_accepts(input@),
        parse_accepts(input@) ==> (r matches Ok(code) && code@ == spec_union_type(
            UnionType {
                enum_type: input@[0]->EnumDecl_0,
                impl_type: input@[1]->ImplBlock_0,
            },
        )),
        !parse_accepts(input@) ==> r == Result::<String, SyntaxError>::Err(
            spec_parse_error(input@),
        ),
{
    let u = match UnionType::parse(input) {
        Ok(u) => u,
        Err(e) => {
            return Err(e);
        },
    };
    let mut out = attr_lines(&u.enum_type.attrs);
    out.append(vis_text(u.enum_type.vis.as_str()).as_str());
    out.append("enum ");
    out.append(u.enum_type.name.as_str());
    out.append(" {\n");
    out.append(variant_lines(&u.enum_type.subtypes).as_str());
    out.append("}\n");
    out.append("impl ");
    out.append(u.enum_type.name.as_str());
    out.append(" {\n");
    let ghost prefix: Seq<char> = out@;
    let mut i: usize = 0;
    while i < u.impl_type.ops.len()
        invariant
            i <= u.impl_type.ops.len(),
            out@ == prefix + spec_method_items(
                u.impl_type.ops@.take(i as int),
                u.enum_type.name@,
                u.enum_type.subtypes@,
            ),
        decreases u.impl_type.ops.len() - i,
    {
        out.append(
            union_method(&u.impl_type.ops[i], u.enum_type.name.as_str(), &u.enum_type.subtypes)
                .as_str(),
        );
        proof {
            assert(u.impl_type.ops@.take(i as int + 1).drop_last() =~= u.impl_type.ops@.take(
                i as int,
            ));
            assert(out@ =~= prefix + spec_method_items(
                u.impl_type.ops@.take(i as int + 1),
                u.enum_type.name@,
                u.enum_type.subtypes@,
            ));
        }
        i += 1;
    }
    out.append("}\n");
    let ghost prefix2: Seq<char> = out@;
    let mut i: usize = 0;
    while i < u.enum_type.subtypes.len()
        invariant
            i <= u.enum_type.subtypes.len(),
            out@ == prefix2 + spec_from_impls(
                u.enum_type.name@,
                u.enum_type.subtypes@.take(i as int),
            ),
        decreases u.enum_type.subtypes.len() - i,
    {
        out.append(
            impl_from(u.enum_type.name.as_str(), u.enum_type.subtypes[i].as_str()).as_str(),
        );
        proof {
            assert(u.enum_type.subtypes@.take(i as int + 1).drop_last()
                =~= u.enum_type.subtypes@.take(i as int));
            assert(out@ =~= prefix2 + spec_from_impls(
                u.enum_type.name@,
                u.enum_type.subtypes@.take(i as int + 1),
            ));
        }
        i += 1;
    }
    let ghost prefix3: Seq<char> = out@;
    let mut i: usize = 0;
    while i < u.enum_type.subtypes.len()
        invariant
            i <= u.enum_type.subtypes.len(),
            out@ == prefix3 + spec_try_from_impls(
                u.enum_type.name@,
                u.enum_type.subtypes@.take(i as int),
            ),
        decreases u.enum_type.subtypes.len() - i,
    {
        out.append(
            impl_reverse_try_from(u.enum_type.name.as_str(), u.enum_type.subtypes[i].as_str())
                .as_str(),
        );
        proof {
            assert(u.enum_type.subtypes@.take(i as int + 1).drop_last()
                =~= u.enum_type.subtypes@.take(i as int));
            assert(out@ =~= prefix3 + spec_try_from_impls(
                u.enum_type.name@,
                u.enum_type.subtypes@.take(i as int + 1),
            ));
        }
        i += 1;
    }
    proof {
        assert(u.impl_type.ops@.take(u.impl_type.ops@.len() as int) =~= u.impl_type.ops@);
        assert(u.enum_type.subtypes@.take(u.enum_type.subtypes@.len() as int)
            =~= u.enum_type.subtypes@);
        assert(out@ =~= spec_union_type(u));
    }
    Ok(out)
}

} // verus!
