use vstd::prelude::*;

verus! {

/// `i` is the first position of `s` whose element satisfies `p`.
pub open spec fn e_primeiro<A>(s: Seq<A>, p: spec_fn(A) -> bool, i: int) -> bool {
    &&& 0 <= i < s.len()
    &&& p(s[i])
    &&& forall|j: int| 0 <= j < i ==> !p(#[trigger] s[j])
}

/// The first position of `s` whose element satisfies `p`, if any: what a
/// front-to-back search such as `Iterator::find` lands on.
pub open spec fn primeiro<A>(s: Seq<A>, p: spec_fn(A) -> bool) -> Option<int> {
    if exists|i: int| e_primeiro(s, p, i) {
        Some(choose|i: int| e_primeiro(s, p, i))
    } else {
        None
    }
}

/// A first position, once found, is the one `primeiro` names.
pub proof fn lema_primeiro_unico<A>(s: Seq<A>, p: spec_fn(A) -> bool, i: int)
    requires
        e_primeiro(s, p, i),
    ensures
        primeiro(s, p) == Some(i),
{
    let k = choose|k: int| e_primeiro(s, p, k);
    assert(e_primeiro(s, p, k));
    if k < i {
        assert(!p(s[k]));
    } else if i < k {
        assert(!p(s[i]));
    }
}

/// Where some element satisfies `p`, `primeiro` finds a first one.
pub proof fn lema_primeiro_existe<A>(s: Seq<A>, p: spec_fn(A) -> bool, i: int)
    requires
        0 <= i < s.len(),
        p(s[i]),
    ensures
        primeiro(s, p) is Some,
        e_primeiro(s, p, primeiro(s, p)->0),
    decreases i,
{
    if exists|j: int| 0 <= j < i && p(#[trigger] s[j]) {
        let j = choose|j: int| 0 <= j < i && p(#[trigger] s[j]);
        lema_primeiro_existe(s, p, j);
    } else {
        assert(e_primeiro(s, p, i));
        lema_primeiro_unico(s, p, i);
    }
}

/// `primeiro` finds nothing exactly when no element satisfies `p`, and what
/// it finds is a first position.
pub proof fn lema_primeiro<A>(s: Seq<A>, p: spec_fn(A) -> bool)
    ensures
        primeiro(s, p) is None <==> (forall|i: int| 0 <= i < s.len() ==> !p(#[trigger] s[i])),
        primeiro(s, p) matches Some(k) ==> e_primeiro(s, p, k),
{
    if exists|i: int| 0 <= i < s.len() && p(#[trigger] s[i]) {
        let i = choose|i: int| 0 <= i < s.len() && p(#[trigger] s[i]);
        lema_primeiro_existe(s, p, i);
    }
}

/// Two searches that agree position by position find the same position.
pub proof fn lema_primeiro_mesmo<A, B>(a: Seq<A>, p: spec_fn(A) -> bool, b: Seq<B>, q: spec_fn(B) -> bool)
    requires
        a.len() == b.len(),
        forall|i: int| 0 <= i < a.len() ==> p(#[trigger] a[i]) == q(b[i]),
    ensures
        primeiro(a, p) == primeiro(b, q),
{
    lema_primeiro(a, p);
    lema_primeiro(b, q);
    if let Some(k) = primeiro(a, p) {
        assert forall|j: int| 0 <= j < k implies !q(#[trigger] b[j]) by {
            assert(!p(a[j]));
        }
        assert(p(a[k]));
        lema_primeiro_unico(b, q, k);
    } else {
        assert forall|i: int| 0 <= i < b.len() implies !q(#[trigger] b[i]) by {
            assert(!p(a[i]));
        }
    }
}

} // verus!
