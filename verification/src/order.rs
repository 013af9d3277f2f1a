//! Byte-wise lexicographic order of strings (the order `String` sorts by)
//! and a sorted, duplicate-free string list built by insertion.

use vstd::prelude::*;

verus! {

/// `a` sorts strictly before `b` in byte-wise lexicographic order: at the
/// first differing byte `a` has the smaller one, or `a` is a proper prefix of `b`.
pub open spec fn lex_lt(a: Seq<u8>, b: Seq<u8>) -> bool
    decreases a.len(),
{
    if b.len() == 0 {
        false
    } else if a.len() == 0 {
        true
    } else if a[0] != b[0] {
        a[0] < b[0]
    } else {
        lex_lt(a.drop_first(), b.drop_first())
    }
}

/// The UTF-8 bytes of a string's characters.
pub open spec fn str_bytes(s: Seq<char>) -> Seq<u8> {
    vstd::utf8::encode_utf8(s)
}

/// A list of strings in strictly increasing byte order (so without duplicates).
pub open spec fn strictly_sorted(v: Seq<String>) -> bool {
    forall|i: int, j: int| 0 <= i < j < v.len() ==> lex_lt(str_bytes(v[i]@), str_bytes(v[j]@))
}

proof fn lemma_lex_lt_transitive(a: Seq<u8>, b: Seq<u8>, c: Seq<u8>)
    requires
        lex_lt(a, b),
        lex_lt(b, c),
    ensures
        lex_lt(a, c),
    decreases a.len(),
{
    if a.len() > 0 && b.len() > 0 && c.len() > 0 && a[0] == b[0] && b[0] == c[0] {
        lemma_lex_lt_transitive(a.drop_first(), b.drop_first(), c.drop_first());
    }
}

proof fn lemma_lex_lt_total(a: Seq<u8>, b: Seq<u8>)
    requires
        a != b,
    ensures
        lex_lt(a, b) || lex_lt(b, a),
    decreases a.len(),
{
    if a.len() > 0 && b.len() > 0 && a[0] == b[0] {
        if a.drop_first() == b.drop_first() {
            assert(a =~= seq![a[0]] + a.drop_first());
            assert(b =~= seq![b[0]] + b.drop_first());
        }
        lemma_lex_lt_total(a.drop_first(), b.drop_first());
    } else if a.len() == 0 && b.len() == 0 {
        assert(a =~= b);
    }
}

/// Compares two byte strings: negative when `a` sorts first, zero when they
/// are equal, positive when `b` sorts first.
pub fn compare_bytes(a: &[u8], b: &[u8]) -> (r: i8)
    ensures
        r < 0 <==> lex_lt(a@, b@),
        r == 0 <==> a@ == b@,
        r > 0 <==> lex_lt(b@, a@),
{
    let n = a.len();
    let m = b.len();
    let mut i: usize = 0;
    proof {
        assert(a@.skip(0) =~= a@);
        assert(b@.skip(0) =~= b@);
    }
    while i < n && i < m
        invariant
            n == a@.len(),
            m == b@.len(),
            i <= n,
            i <= m,
            a@.subrange(0, i as int) == b@.subrange(0, i as int),
            lex_lt(a@, b@) == lex_lt(a@.skip(i as int), b@.skip(i as int)),
            lex_lt(b@, a@) == lex_lt(b@.skip(i as int), a@.skip(i as int)),
        decreases n - i,
    {
        if a[i] != b[i] {
            proof {
                assert(a@.skip(i as int)[0] == a@[i as int]);
                assert(b@.skip(i as int)[0] == b@[i as int]);
                if a@ == b@ {
                    assert(a@[i as int] == b@[i as int]);
                }
            }
            if a[i] < b[i] {
                return -1;
            } else {
                return 1;
            }
        }
        proof {
            assert(a@.skip(i as int).drop_first() =~= a@.skip(i + 1));
            assert(b@.skip(i as int).drop_first() =~= b@.skip(i + 1));
            assert(a@.subrange(0, i + 1) =~= a@.subrange(0, i as int).push(a@[i as int]));
            assert(b@.subrange(0, i + 1) =~= b@.subrange(0, i as int).push(b@[i as int]));
        }
        i = i + 1;
    }
    proof {
        if n == m {
            assert(a@ =~= a@.subrange(0, i as int));
            assert(b@ =~= b@.subrange(0, i as int));
        }
        if a@ == b@ {
            assert(n == m);
        }
        assert(a@.skip(i as int).len() == n - i);
        assert(b@.skip(i as int).len() == m - i);
    }
    if n < m {
        -1
    } else if n == m {
        0
    } else {
        1
    }
}

} // verus!

verus! {

/// The byte strings of the strings in `v`.
pub open spec fn key_set(v: Seq<String>) -> Set<Seq<u8>> {
    Set::new(|k: Seq<u8>| exists|i: int| 0 <= i < v.len() && str_bytes(v[i]@) == k)
}

/// Inserts `x` into a strictly sorted list at its place, unless a string with
/// the same bytes is already there.
pub fn insert_sorted_unique(v: &mut Vec<String>, x: String)
    requires
        strictly_sorted(old(v)@),
    ensures
        strictly_sorted(final(v)@),
        key_set(final(v)@) == key_set(old(v)@).insert(str_bytes(x@)),
        forall|i: int| 0 <= i < final(v)@.len() ==> old(v)@.contains(#[trigger] final(v)@[i]) || final(v)@[i] == x,
{
    let n = v.len();
    let xb = x.as_str().as_bytes();
    let mut p: usize = 0;
    let mut found = false;
    while p < n
        invariant_except_break
            !found,
        invariant
            n == v@.len(),
            p <= n,
            xb@ == str_bytes(x@),
            strictly_sorted(v@),
            v@ == old(v)@,
            forall|i: int| 0 <= i < p ==> lex_lt(str_bytes(#[trigger] v@[i]@), str_bytes(x@)),
        ensures
            p <= n,
            v@ == old(v)@,
            forall|i: int| 0 <= i < p ==> lex_lt(str_bytes(#[trigger] v@[i]@), str_bytes(x@)),
            found ==> p < n && str_bytes(v@[p as int]@) == str_bytes(x@),
            !found ==> p == n || (!lex_lt(str_bytes(v@[p as int]@), str_bytes(x@))
                && str_bytes(v@[p as int]@) != str_bytes(x@)),
        decreases n - p,
    {
        let c = compare_bytes(v[p].as_str().as_bytes(), xb);
        if c < 0 {
            p = p + 1;
        } else {
            if c == 0 {
                found = true;
            }
            break;
        }
    }
    let ghost ov = v@;
    let ghost xk = str_bytes(x@);
    if found {
        proof {
            assert(key_set(v@) =~= key_set(ov).insert(xk)) by {
                assert(key_set(ov).contains(xk)) by {
                    assert(str_bytes(ov[p as int]@) == xk);
                }
            }
        }
        return;
    }
    proof {
        if p < n {
            lemma_lex_lt_total(str_bytes(ov[p as int]@), xk);
            assert forall|j: int| p <= j < n implies lex_lt(xk, str_bytes(#[trigger] ov[j]@)) by {
                if j > p {
                    lemma_lex_lt_transitive(xk, str_bytes(ov[p as int]@), str_bytes(ov[j]@));
                }
            }
        }
    }
    v.insert(p, x);
    proof {
        let nv = v@;
        assert(nv.len() == ov.len() + 1);
        assert forall|i: int| 0 <= i < nv.len() implies nv[i] == (if i < p { ov[i] } else if i == p { x } else { ov[i - 1] }) by {}
        assert forall|i: int, j: int| 0 <= i < j < nv.len() implies lex_lt(str_bytes(nv[i]@), str_bytes(nv[j]@)) by {
            if j < p {
            } else if j == p {
            } else if i < p {
                lemma_lex_lt_transitive(str_bytes(ov[i]@), xk, str_bytes(ov[j - 1]@));
            } else if i == p {
            } else {
            }
        }
        assert(key_set(nv) =~= key_set(ov).insert(xk)) by {
            assert forall|k: Seq<u8>| key_set(nv).contains(k) implies key_set(ov).insert(xk).contains(k) by {
                let i = choose|i: int| 0 <= i < nv.len() && str_bytes(nv[i]@) == k;
                if i < p {
                    assert(str_bytes(ov[i]@) == k);
                } else if i > p {
                    assert(str_bytes(ov[i - 1]@) == k);
                }
            }
            assert forall|k: Seq<u8>| key_set(ov).insert(xk).contains(k) implies key_set(nv).contains(k) by {
                if k == xk {
                    assert(str_bytes(nv[p as int]@) == k);
                } else {
                    let i = choose|i: int| 0 <= i < ov.len() && str_bytes(ov[i]@) == k;
                    if i < p {
                        assert(str_bytes(nv[i]@) == k);
                    } else {
                        assert(str_bytes(nv[i + 1]@) == k);
                    }
                }
            }
        }
        assert forall|i: int| 0 <= i < nv.len() implies ov.contains(#[trigger] nv[i]) || nv[i] == x by {
            if i < p {
                assert(ov[i] == nv[i]);
            } else if i > p {
                assert(ov[i - 1] == nv[i]);
            }
        }
    }
}

} // verus!
