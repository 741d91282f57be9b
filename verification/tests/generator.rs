use union_type::argument_names;
use union_type::impl_from;
use union_type::impl_reverse_try_from;
use union_type::union_method;
use union_type::union_method_arm;
use union_type::union_type;
use union_type::EnumNode;
use union_type::ImplNode;
use union_type::Node;
use union_type::OperationSig;
use union_type::Param;

fn strings(items: &[&str]) -> Vec<String> {
    items.iter().map(|s| s.to_string()).collect()
}

fn op(
    name: &str,
    generics: &str,
    params: Vec<Param>,
    ret: &str,
) -> OperationSig {
    OperationSig {
        attrs: Vec::new(),
        vis: String::new(),
        name: name.to_string(),
        generics: generics.to_string(),
        params,
        ret: ret.to_string(),
    }
}

fn receiver() -> Param {
    Param::Receiver("&self".to_string())
}

fn named(name: &str, ty: &str) -> Param {
    Param::Named(name.to_string(), ty.to_string())
}

#[test]
fn argument_names_keeps_named_parameters_in_order() {
    let params = vec![
        receiver(),
        named("a", "i32"),
        Param::Pattern("(x, y)".to_string(), "(i32, i32)".to_string()),
        named("b", "String"),
    ];
    assert_eq!(argument_names(&params), vec!["a".to_string(), "b".to_string()]);
}

#[test]
fn argument_names_empty_for_receiver_only() {
    let params = vec![receiver()];
    assert_eq!(argument_names(&params), Vec::<String>::new());
}

#[test]
fn arm_forwards_arguments_by_name() {
    let args = strings(&["a", "b"]);
    assert_eq!(
        union_method_arm("C", "A", "f", &args),
        "            C::A(x) => x.f(a, b),\n"
    );
}

#[test]
fn arm_with_no_arguments_calls_with_empty_list() {
    let args = Vec::new();
    assert_eq!(
        union_method_arm("C", "B", "poke", &args),
        "            C::B(x) => x.poke(),\n"
    );
}

#[test]
fn from_impl_text() {
    let expected = "\
impl std::convert::From<A> for C {
    fn from(x: A) -> Self {
        C::A(x)
    }
}
";
    assert_eq!(impl_from("C", "A"), expected);
}

#[test]
fn reverse_try_from_impl_text() {
    let expected = "\
impl std::convert::TryFrom<C> for B {
    type Error = ();
    fn try_from(x: C) -> Result<Self, Self::Error> {
        if let C::B(x) = x {
            Ok(x)
        } else {
            Err(())
        }
    }
}
";
    assert_eq!(impl_reverse_try_from("C", "B"), expected);
}

#[test]
fn union_method_matches_each_variant() {
    let m = op("f", "", vec![receiver(), named("a", "i32")], "i32");
    let subs = strings(&["A", "B"]);
    let expected = "    fn f(&self, a: i32) -> i32 {
        match self {
            C::A(x) => x.f(a),
            C::B(x) => x.f(a),
        }
    }
";
    assert_eq!(union_method(&m, "C", &subs), expected);
}

#[test]
fn union_method_copies_modifiers_verbatim() {
    let m = OperationSig {
        attrs: strings(&["#[inline]"]),
        vis: "pub".to_string(),
        name: "g".to_string(),
        generics: "<T: Display>".to_string(),
        params: vec![receiver(), named("t", "T")],
        ret: "String".to_string(),
    };
    let subs = strings(&["A"]);
    let expected = "\
#[inline]
    pub fn g<T: Display>(&self, t: T) -> String {
        match self {
            C::A(x) => x.g(t),
        }
    }
";
    assert_eq!(union_method(&m, "C", &subs), expected);
}

#[test]
fn union_type_emits_whole_bundle() {
    let input = vec![
        Node::EnumDecl(EnumNode {
            attrs: strings(&["#[derive(Debug, Clone)]"]),
            vis: String::new(),
            name: "C".to_string(),
            subtypes: strings(&["A", "B"]),
        }),
        Node::ImplBlock(ImplNode {
            target: "C".to_string(),
            ops: vec![
                op("f", "", vec![receiver(), named("a", "i32")], "i32"),
                op("g", "<T: Display>", vec![receiver(), named("t", "T")], "String"),
            ],
        }),
    ];
    let code = union_type(input).unwrap();
    let expected = "\
#[derive(Debug, Clone)]
enum C {
    A(A),
    B(B),
}
impl C {
    fn f(&self, a: i32) -> i32 {
        match self {
            C::A(x) => x.f(a),
            C::B(x) => x.f(a),
        }
    }
    fn g<T: Display>(&self, t: T) -> String {
        match self {
            C::A(x) => x.g(t),
            C::B(x) => x.g(t),
        }
    }
}
impl std::convert::From<A> for C {
    fn from(x: A) -> Self {
        C::A(x)
    }
}
impl std::convert::From<B> for C {
    fn from(x: B) -> Self {
        C::B(x)
    }
}
impl std::convert::TryFrom<C> for A {
    type Error = ();
    fn try_from(x: C) -> Result<Self, Self::Error> {
        if let C::A(x) = x {
            Ok(x)
        } else {
            Err(())
        }
    }
}
impl std::convert::TryFrom<C> for B {
    type Error = ();
    fn try_from(x: C) -> Result<Self, Self::Error> {
        if let C::B(x) = x {
            Ok(x)
        } else {
            Err(())
        }
    }
}
";
    assert_eq!(code, expected);
}

#[test]
fn union_type_with_zero_operations_still_emits_conversions() {
    // The union is usable purely as a tagged container: the conversion
    // pair exists for every subtype even with no operation declared.
    let input = vec![
        Node::EnumDecl(EnumNode {
            attrs: Vec::new(),
            vis: "pub".to_string(),
            name: "U".to_string(),
            subtypes: strings(&["X"]),
        }),
        Node::ImplBlock(ImplNode {
            target: "U".to_string(),
            ops: Vec::new(),
        }),
    ];
    let code = union_type(input).unwrap();
    let expected = "\
pub enum U {
    X(X),
}
impl U {
}
impl std::convert::From<X> for U {
    fn from(x: X) -> Self {
        U::X(x)
    }
}
impl std::convert::TryFrom<U> for X {
    type Error = ();
    fn try_from(x: U) -> Result<Self, Self::Error> {
        if let U::X(x) = x {
            Ok(x)
        } else {
            Err(())
        }
    }
}
";
    assert_eq!(code, expected);
}

#[test]
fn union_type_rejects_enum_only() {
    let input = vec![Node::EnumDecl(EnumNode {
        attrs: Vec::new(),
        vis: String::new(),
        name: "C".to_string(),
        subtypes: strings(&["A"]),
    })];
    let e = union_type(input).unwrap_err();
    assert_eq!(e.position, 1);
}

#[test]
fn pattern_parameter_is_dropped_from_forwarded_call() {
    // Known sharp edge: a non-identifier pattern parameter is excluded
    // from the forwarded argument list entirely, so the emitted call has
    // fewer arguments than the subtype operation expects and the
    // downstream compiler rejects it.
    let m = op(
        "h",
        "",
        vec![
            receiver(),
            Param::Pattern("(x, y)".to_string(), "(i32, i32)".to_string()),
        ],
        "i32",
    );
    let subs = strings(&["A"]);
    let expected = "    fn h(&self, (x, y): (i32, i32)) -> i32 {
        match self {
            C::A(x) => x.h(),
        }
    }
";
    assert_eq!(union_method(&m, "C", &subs), expected);
}

#[test]
fn union_type_with_zero_subtypes_emits_empty_union() {
    let input = vec![
        Node::EnumDecl(EnumNode {
            attrs: Vec::new(),
            vis: String::new(),
            name: "N".to_string(),
            subtypes: Vec::new(),
        }),
        Node::ImplBlock(ImplNode {
            target: "N".to_string(),
            ops: Vec::new(),
        }),
    ];
    let code = union_type(input).unwrap();
    let expected = "\
enum N {
}
impl N {
}
";
    assert_eq!(code, expected);
}

#[test]
fn duplicate_subtype_names_pass_through() {
    // Duplicates are a deferred semantic error: one variant is emitted per
    // occurrence, and the downstream compiler rejects the clash.
    let input = vec![
        Node::EnumDecl(EnumNode {
            attrs: Vec::new(),
            vis: String::new(),
            name: "D".to_string(),
            subtypes: strings(&["A", "A"]),
        }),
        Node::ImplBlock(ImplNode {
            target: "D".to_string(),
            ops: Vec::new(),
        }),
    ];
    let code = union_type(input).unwrap();
    assert!(code.starts_with(
        "enum D {\n    A(A),\n    A(A),\n}\n"
    ));
}
