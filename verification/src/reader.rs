//! Functions that come as arguments.
//!
//! How a text is read as a price, how a whole number becomes one and how a price
//! is rounded depends on the number type. Such a step comes as a function
//! argument, one that gives equal arguments equal results, and contracts speak
//! of its result.

use vstd::prelude::*;

verus! {

/// `read` can be called on any text, and gives texts of the same characters the
/// same result.
pub open spec fn steady<F, N: Fn(&str) -> Option<F>>(read: N) -> bool {
    &&& forall|s: &str| #[trigger] call_requires(read, (s,))
    &&& forall|s: &str, t: &str, a: Option<F>, b: Option<F>|
        s@ == t@ && #[trigger] call_ensures(read, (s,), a) && #[trigger] call_ensures(
            read,
            (t,),
            b,
        ) ==> a == b
}

/// `read` gives `r` for some text of the characters `s`.
pub open spec fn gives<F, N: Fn(&str) -> Option<F>>(read: N, s: Seq<char>, r: Option<F>) -> bool {
    exists|t: &str| t@ == s && #[trigger] call_ensures(read, (t,), r)
}

/// The number that `read` finds in a text of the characters `s`.
pub open spec fn number<F, N: Fn(&str) -> Option<F>>(read: N, s: Seq<char>) -> Option<F> {
    choose|r: Option<F>| gives(read, s, r)
}

/// The number that `read` finds in `s`.
pub fn read_number<F, N: Fn(&str) -> Option<F>>(read: &N, s: &str) -> (r: Option<F>)
    requires
        steady::<F, N>(*read),
    ensures
        r == number::<F, N>(*read, s@),
{
    let r = read(s);
    proof {
        assert(gives(*read, s@, r));
        let n = number::<F, N>(*read, s@);
        assert(gives(*read, s@, n));
    }
    r
}

/// `f` can be called on any argument, and gives equal arguments equal results.
pub open spec fn pure<A, B, G: Fn(A) -> B>(f: G) -> bool {
    &&& forall|a: A| #[trigger] call_requires(f, (a,))
    &&& forall|a: A, x: B, y: B| #[trigger]
        call_ensures(f, (a,), x) && #[trigger] call_ensures(f, (a,), y) ==> x == y
}

/// The result of `f` on `a`.
pub open spec fn result<A, B, G: Fn(A) -> B>(f: G, a: A) -> B {
    choose|b: B| #[trigger] call_ensures(f, (a,), b)
}

/// Calls `f` on `a`.
pub fn apply<A, B, G: Fn(A) -> B>(f: &G, a: A) -> (r: B)
    requires
        pure::<A, B, G>(*f),
    ensures
        r == result::<A, B, G>(*f, a),
{
    let r = f(a);
    assert(call_ensures(*f, (a,), r));
    assert(call_ensures(*f, (a,), result::<A, B, G>(*f, a)));
    r
}

/// What `read` once gave for a text is the number in every text of its characters.
pub proof fn number_is_what_was_read<F, N: Fn(&str) -> Option<F>>(read: N, t: &str, r: Option<F>)
    requires
        steady::<F, N>(read),
        call_ensures(read, (t,), r),
    ensures
        number::<F, N>(read, t@) == r,
{
    assert(gives(read, t@, r));
    assert(gives(read, t@, number::<F, N>(read, t@)));
}

/// What `f` once gave for `a` is its result on `a`.
pub proof fn result_is_what_was_given<A, B, G: Fn(A) -> B>(f: G, a: A, b: B)
    requires
        pure::<A, B, G>(f),
        call_ensures(f, (a,), b),
    ensures
        result::<A, B, G>(f, a) == b,
{
    assert(call_ensures(f, (a,), result::<A, B, G>(f, a)));
}

} // verus!
