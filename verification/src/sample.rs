//! A worked instance of the scheme the generator emits, written out by
//! hand and verified: two subtypes `A` and `B`, their closed union `C`,
//! the dispatch methods, and the conversion pair per subtype.
//!
//! This module is the semantic witness for the emitted code's shape: the
//! conversion and dispatch laws that hold of every union the generator
//! describes are stated and proved here over a concrete declaration
//! (`enum C { A, B }` with operations `f`, `g` and `describe`).

use vstd::prelude::*;
use vstd::std_specs::convert::FromSpec;
use vstd::string::StringExecFns;

use crate::digits::i32_dec;
use crate::digits::spec_i32_dec;

verus! {

/// A subtype holding a name.
#[derive(Debug, Clone, PartialEq, Eq)]
pub struct A(pub String);

/// A subtype holding a count.
#[derive(Debug, Clone, PartialEq, Eq)]
pub struct B(pub i32);

/// What `A::f` returns: the successor of its argument.
pub open spec fn spec_a_f(x: A, a: int) -> int {
    a + 1
}

/// What `B::f` returns: the argument shifted by the held count.
pub open spec fn spec_b_f(x: B, a: int) -> int {
    a + x.0
}

/// What `A::g` returns: the held name followed by the argument text.
pub open spec fn spec_a_g(x: A, t: Seq<char>) -> Seq<char> {
    x.0@ + t
}

/// What `B::g` returns: the held count in decimal, a colon, then the
/// argument text.
pub open spec fn spec_b_g(x: B, t: Seq<char>) -> Seq<char> {
    spec_i32_dec(x.0 as int) + ":"@ + t
}

/// What `A::describe` returns: the held name.
pub open spec fn spec_a_describe(x: A) -> Seq<char> {
    x.0@
}

/// What `B::describe` returns: the held count, formatted as text.
pub open spec fn spec_b_describe(x: B) -> Seq<char> {
    spec_i32_dec(x.0 as int)
}

impl A {
    pub fn f(&self, a: i32) -> (r: i32)
        requires
            a < i32::MAX,
        ensures
            r == spec_a_f(*self, a as int),
    {
        a + 1
    }

    pub fn g(&self, t: &str) -> (r: String)
        ensures
            r@ == spec_a_g(*self, t@),
    {
        let mut s = self.0.clone();
        s.append(t);
        s
    }

    pub fn describe(&self) -> (r: String)
        ensures
            r@ == spec_a_describe(*self),
    {
        self.0.clone()
    }
}

impl B {
    pub fn f(&self, a: i32) -> (r: i32)
        requires
            i32::MIN <= a + self.0 <= i32::MAX,
        ensures
            r == spec_b_f(*self, a as int),
    {
        a + self.0
    }

    pub fn g(&self, t: &str) -> (r: String)
        ensures
            r@ == spec_b_g(*self, t@),
    {
        let mut s = i32_dec(self.0);
        s.append(":");
        s.append(t);
        s
    }

    pub fn describe(&self) -> (r: String)
        ensures
            r@ == spec_b_describe(*self),
    {
        i32_dec(self.0)
    }
}

/// The closed union over the declared subtypes: exactly one variant per
/// subtype, each holding one value of it, in declaration order.
#[derive(Debug, Clone, PartialEq, Eq)]
pub enum C {
    A(A),
    B(B),
}

/// What the union's dispatch of `f` returns: the held subtype's own `f`.
pub open spec fn spec_c_f(c: C, a: int) -> int {
    match c {
        C::A(x) => spec_a_f(x, a),
        C::B(x) => spec_b_f(x, a),
    }
}

/// What the union's dispatch of `g` returns: the held subtype's own `g`.
pub open spec fn spec_c_g(c: C, t: Seq<char>) -> Seq<char> {
    match c {
        C::A(x) => spec_a_g(x, t),
        C::B(x) => spec_b_g(x, t),
    }
}

/// What the union's dispatch of `describe` returns: the held subtype's
/// own `describe`.
pub open spec fn spec_c_describe(c: C) -> Seq<char> {
    match c {
        C::A(x) => spec_a_describe(x),
        C::B(x) => spec_b_describe(x),
    }
}

/// The reverse conversion to `A`: the held value exactly when the union
/// holds the `A` variant, and a plain wrong-variant error otherwise.
pub open spec fn spec_try_into_a(c: C) -> Result<A, ()> {
    match c {
        C::A(x) => Ok(x),
        _ => Err(()),
    }
}

/// The reverse conversion to `B`.
pub open spec fn spec_try_into_b(c: C) -> Result<B, ()> {
    match c {
        C::B(x) => Ok(x),
        _ => Err(()),
    }
}

impl C {
    /// Dispatch of `f`: forwards the argument to whichever subtype is
    /// held and returns its result directly.
    pub fn f(&self, a: i32) -> (r: i32)
        requires
            self matches C::A(_) ==> a < i32::MAX,
            self matches C::B(x) ==> i32::MIN <= a + x.0 <= i32::MAX,
        ensures
            r == spec_c_f(*self, a as int),
    {
        match self {
            C::A(x) => x.f(a),
            C::B(x) => x.f(a),
        }
    }

    /// Dispatch of `g`.
    pub fn g(&self, t: &str) -> (r: String)
        ensures
            r@ == spec_c_g(*self, t@),
    {
        match self {
            C::A(x) => x.g(t),
            C::B(x) => x.g(t),
        }
    }

    /// Dispatch of `describe`.
    pub fn describe(&self) -> (r: String)
        ensures
            r@ == spec_c_describe(*self),
    {
        match self {
            C::A(x) => x.describe(),
            C::B(x) => x.describe(),
        }
    }
}

impl From<A> for C {
    /// The total forward conversion from `A`: wraps the value in the
    /// matching variant, and always succeeds.
    fn from(x: A) -> (r: C) {
        C::A(x)
    }
}

impl vstd::std_specs::convert::FromSpecImpl<A> for C {
    open spec fn obeys_from_spec() -> bool {
        true
    }

    open spec fn from_spec(x: A) -> C {
        C::A(x)
    }
}

impl From<B> for C {
    /// The total forward conversion from `B`.
    fn from(x: B) -> (r: C) {
        C::B(x)
    }
}

impl vstd::std_specs::convert::FromSpecImpl<B> for C {
    open spec fn obeys_from_spec() -> bool {
        true
    }

    open spec fn from_spec(x: B) -> C {
        C::B(x)
    }
}

impl TryFrom<C> for A {
    type Error = ();

    /// The reverse conversion to `A`: succeeds exactly when the union
    /// holds the `A` variant.
    fn try_from(x: C) -> (r: Result<A, ()>) {
        match x {
            C::A(a) => Ok(a),
            _ => Err(()),
        }
    }
}

impl vstd::std_specs::convert::TryFromSpecImpl<C> for A {
    open spec fn obeys_try_from_spec() -> bool {
        true
    }

    open spec fn try_from_spec(v: C) -> Result<A, ()> {
        spec_try_into_a(v)
    }
}

impl TryFrom<C> for B {
    type Error = ();

    /// The reverse conversion to `B`.
    fn try_from(x: C) -> (r: Result<B, ()>) {
        match x {
            C::B(b) => Ok(b),
            _ => Err(()),
        }
    }
}

impl vstd::std_specs::convert::TryFromSpecImpl<C> for B {
    open spec fn obeys_try_from_spec() -> bool {
        true
    }

    open spec fn try_from_spec(v: C) -> Result<B, ()> {
        spec_try_into_b(v)
    }
}

/// Totality of forward conversion: wrapping any subtype value in the
/// union and immediately converting back recovers the original value
/// unchanged, for every declared subtype.
pub proof fn lemma_forward_round_trip(a: A, b: B)
    ensures
        spec_try_into_a(C::from_spec(a)) == Ok::<A, ()>(a),
        spec_try_into_b(C::from_spec(b)) == Ok::<B, ()>(b),
{
}

/// Reverse-conversion correctness: for distinct declared subtypes, a
/// union built from one subtype refuses conversion to the other, and
/// conversion back to the same subtype succeeds with an equal value.
pub proof fn lemma_reverse_conversion(a: A, b: B)
    ensures
        spec_try_into_b(C::from_spec(a)) == Err::<B, ()>(()),
        spec_try_into_a(C::from_spec(b)) == Err::<A, ()>(()),
        spec_try_into_a(C::from_spec(a)) == Ok::<A, ()>(a),
        spec_try_into_b(C::from_spec(b)) == Ok::<B, ()>(b),
{
}

/// Dispatch equivalence: calling any declared operation on a union value
/// gives exactly what the held subtype's own operation gives on the same
/// underlying value and arguments — pure forwarding, no transformation of
/// arguments or results.
pub proof fn lemma_dispatch_equivalence(c: C, a: int, t: Seq<char>)
    ensures
        c matches C::A(x) ==> (spec_c_f(c, a) == spec_a_f(x, a) && spec_c_g(c, t) == spec_a_g(x, t)
            && spec_c_describe(c) == spec_a_describe(x)),
        c matches C::B(x) ==> (spec_c_f(c, a) == spec_b_f(x, a) && spec_c_g(c, t) == spec_b_g(x, t)
            && spec_c_describe(c) == spec_b_describe(x)),
{
}

/// Variant-count invariant: a union value always holds exactly one of
/// the declared subtypes — one variant per subtype, and no value outside
/// that closed set.
pub proof fn lemma_closed_variant_set(c: C)
    ensures
        c is A || c is B,
        !(c is A && c is B),
{
}

} // verus!
