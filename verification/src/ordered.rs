//! Sorted sets kept as sequences: the model of a `BTreeSet` that is built by
//! inserting items one at a time and then read back in order.
use vstd::prelude::*;
use crate::text::lex_lt;

verus! {

broadcast use vstd::seq_lib::group_seq_properties;

/// `lt` is a strict total order.
pub open spec fn is_strict_order<T>(lt: spec_fn(T, T) -> bool) -> bool {
    &&& forall|a: T| !#[trigger] lt(a, a)
    &&& forall|a: T, b: T, c: T| #[trigger] lt(a, b) && #[trigger] lt(b, c) ==> lt(a, c)
    &&& forall|a: T, b: T| a != b ==> #[trigger] lt(a, b) || #[trigger] lt(b, a)
}

/// Every item of `s` comes strictly before every later item under `lt`.
pub open spec fn strictly_sorted<T>(s: Seq<T>, lt: spec_fn(T, T) -> bool) -> bool {
    forall|i: int, j: int| 0 <= i < j < s.len() ==> #[trigger] lt(s[i], s[j])
}

/// `s` with `x` added at its place under `lt`, unless `x` is already there.
pub open spec fn insert_sorted<T>(s: Seq<T>, x: T, lt: spec_fn(T, T) -> bool) -> Seq<T>
    decreases s.len(),
{
    if s.len() == 0 {
        seq![x]
    } else if s[0] == x {
        s
    } else if lt(x, s[0]) {
        seq![x] + s
    } else {
        seq![s[0]] + insert_sorted(s.drop_first(), x, lt)
    }
}

/// `s` with every item of `xs` inserted, first to last.
pub open spec fn insert_all<T>(s: Seq<T>, xs: Seq<T>, lt: spec_fn(T, T) -> bool) -> Seq<T>
    decreases xs.len(),
{
    if xs.len() == 0 {
        s
    } else {
        insert_sorted(insert_all(s, xs.drop_last(), lt), xs.last(), lt)
    }
}

/// The order of strings, as a function value.
pub open spec fn text_order() -> spec_fn(Seq<char>, Seq<char>) -> bool {
    |a: Seq<char>, b: Seq<char>| lex_lt(a, b)
}

/// The character views of a sequence of strings.
pub open spec fn texts(v: Seq<String>) -> Seq<Seq<char>> {
    v.map_values(|s: String| s@)
}

proof fn lemma_lex_irreflexive(a: Seq<char>)
    ensures
        !lex_lt(a, a),
    decreases a.len(),
{
    if a.len() > 0 {
        lemma_lex_irreflexive(a.drop_first());
    }
}

proof fn lemma_lex_transitive(a: Seq<char>, b: Seq<char>, c: Seq<char>)
    requires
        lex_lt(a, b),
        lex_lt(b, c),
    ensures
        lex_lt(a, c),
    decreases a.len(),
{
    if a.len() > 0 && b.len() > 0 && c.len() > 0 && a[0] == b[0] && b[0] == c[0] {
        lemma_lex_transitive(a.drop_first(), b.drop_first(), c.drop_first());
    }
}

proof fn lemma_lex_total(a: Seq<char>, b: Seq<char>)
    requires
        a != b,
    ensures
        lex_lt(a, b) || lex_lt(b, a),
    decreases a.len(),
{
    if a.len() > 0 && b.len() > 0 && a[0] == b[0] {
        if a.drop_first() == b.drop_first() {
            assert(a == seq![a[0]] + a.drop_first());
            assert(b == seq![b[0]] + b.drop_first());
        }
        lemma_lex_total(a.drop_first(), b.drop_first());
    } else if a.len() > 0 && b.len() > 0 {
    } else if a.len() == 0 && b.len() == 0 {
        assert(a == b);
    }
}

/// The order of strings is a strict total order.
pub proof fn lemma_text_order()
    ensures
        is_strict_order(text_order()),
{
    assert forall|a: Seq<char>| !#[trigger] text_order()(a, a) by {
        lemma_lex_irreflexive(a);
    }
    assert forall|a: Seq<char>, b: Seq<char>, c: Seq<char>|
        #[trigger] text_order()(a, b) && #[trigger] text_order()(b, c) implies text_order()(a, c) by {
        lemma_lex_transitive(a, b, c);
    }
    assert forall|a: Seq<char>, b: Seq<char>|
        a != b implies #[trigger] text_order()(a, b) || #[trigger] text_order()(b, a) by {
        lemma_lex_total(a, b);
    }
}

/// Inserting into a strictly sorted sequence keeps it strictly sorted and adds
/// exactly the inserted item to its set.
pub proof fn lemma_insert_sorted<T>(s: Seq<T>, x: T, lt: spec_fn(T, T) -> bool)
    requires
        is_strict_order(lt),
        strictly_sorted(s, lt),
    ensures
        strictly_sorted(insert_sorted(s, x, lt), lt),
        insert_sorted(s, x, lt).to_set() == s.to_set().insert(x),
    decreases s.len(),
{
    let r = insert_sorted(s, x, lt);
    if s.len() == 0 {
        assert(r.to_set() =~= s.to_set().insert(x)) by {
            assert(r =~= seq![x]);
        }
    } else if s[0] == x {
        assert(s.to_set() =~= s.to_set().insert(x)) by {
            assert(s.contains(s[0]));
        }
    } else if lt(x, s[0]) {
        assert forall|i: int, j: int| 0 <= i < j < r.len() implies #[trigger] lt(r[i], r[j]) by {
            if i == 0 {
                assert(r[j] == s[j - 1]);
                if j > 1 {
                    assert(lt(s[0], s[j - 1]));
                }
            } else {
                assert(r[i] == s[i - 1] && r[j] == s[j - 1]);
            }
        }
        assert(r.to_set() =~= s.to_set().insert(x)) by {
            assert forall|y: T| r.to_set().contains(y) <==> s.to_set().insert(x).contains(y) by {
                if r.contains(y) {
                    let k = choose|k: int| 0 <= k < r.len() && r[k] == y;
                    if k > 0 {
                        assert(s[k - 1] == y);
                    }
                }
                if s.contains(y) {
                    let k = choose|k: int| 0 <= k < s.len() && s[k] == y;
                    assert(r[k + 1] == y);
                }
                if y == x {
                    assert(r[0] == y);
                }
            }
        }
    } else {
        let t = s.drop_first();
        assert(strictly_sorted(t, lt)) by {
            assert forall|i: int, j: int| 0 <= i < j < t.len() implies #[trigger] lt(t[i], t[j]) by {
                assert(lt(s[i + 1], s[j + 1]));
            }
        }
        lemma_insert_sorted(t, x, lt);
        let rt = insert_sorted(t, x, lt);
        assert(lt(s[0], x));
        assert(r == seq![s[0]] + rt);
        assert forall|k: int| 0 <= k < rt.len() implies #[trigger] lt(s[0], rt[k]) by {
            assert(rt.to_set().contains(rt[k]));
            assert(rt.contains(rt[k]));
            if rt[k] != x {
                assert(t.to_set().contains(rt[k]));
                let m = choose|m: int| 0 <= m < t.len() && t[m] == rt[k];
                assert(lt(s[0], s[m + 1]));
            }
        }
        assert forall|i: int, j: int| 0 <= i < j < r.len() implies #[trigger] lt(r[i], r[j]) by {
            if i == 0 {
                assert(r[j] == rt[j - 1]);
            } else {
                assert(r[i] == rt[i - 1] && r[j] == rt[j - 1]);
            }
        }
        assert(r.to_set() =~= s.to_set().insert(x)) by {
            assert(s =~= seq![s[0]] + t);
            assert forall|y: T| r.to_set().contains(y) <==> s.to_set().insert(x).contains(y) by {
                if r.contains(y) {
                    let k = choose|k: int| 0 <= k < r.len() && r[k] == y;
                    if k > 0 {
                        assert(rt.contains(y));
                        assert(rt.to_set().contains(y));
                        if y != x {
                            assert(t.to_set().contains(y));
                            let m = choose|m: int| 0 <= m < t.len() && t[m] == y;
                            assert(s[m + 1] == y);
                        }
                    } else {
                        assert(s[0] == y);
                    }
                }
                if s.contains(y) {
                    let k = choose|k: int| 0 <= k < s.len() && s[k] == y;
                    if k == 0 {
                        assert(r[0] == y);
                    } else {
                        assert(t[k - 1] == y);
                        assert(t.to_set().contains(y));
                        assert(rt.to_set().contains(y));
                        let m = choose|m: int| 0 <= m < rt.len() && rt[m] == y;
                        assert(r[m + 1] == y);
                    }
                }
                if y == x {
                    assert(rt.to_set().contains(y));
                    let m = choose|m: int| 0 <= m < rt.len() && rt[m] == y;
                    assert(r[m + 1] == y);
                }
            }
        }
    }
}

/// Inserting every item of `xs` into a strictly sorted sequence gives a strictly
/// sorted sequence whose set is the union of both.
pub proof fn lemma_insert_all<T>(s: Seq<T>, xs: Seq<T>, lt: spec_fn(T, T) -> bool)
    requires
        is_strict_order(lt),
        strictly_sorted(s, lt),
    ensures
        strictly_sorted(insert_all(s, xs, lt), lt),
        insert_all(s, xs, lt).to_set() == s.to_set().union(xs.to_set()),
    decreases xs.len(),
{
    if xs.len() == 0 {
        assert(s.to_set().union(xs.to_set()) =~= s.to_set());
    } else {
        lemma_insert_all(s, xs.drop_last(), lt);
        lemma_insert_sorted(insert_all(s, xs.drop_last(), lt), xs.last(), lt);
        assert(xs == xs.drop_last().push(xs.last()));
        assert(s.to_set().union(xs.to_set()) =~= s.to_set().union(xs.drop_last().to_set()).insert(
            xs.last(),
        )) by {
            assert forall|y: T| xs.to_set().contains(y) <==> xs.drop_last().to_set().insert(
                xs.last(),
            ).contains(y) by {
                if xs.contains(y) {
                    let k = choose|k: int| 0 <= k < xs.len() && xs[k] == y;
                    if k < xs.len() - 1 {
                        assert(xs.drop_last()[k] == y);
                    }
                }
                if xs.drop_last().contains(y) {
                    let k = choose|k: int| 0 <= k < xs.drop_last().len() && xs.drop_last()[k] == y;
                    assert(xs[k] == y);
                }
            }
        }
    }
}

/// Where the scan for `x` stops at `j`, inserting `x` is inserting it at `j`
/// (or nothing, when `x` is already there).
pub proof fn lemma_insert_at<T>(s: Seq<T>, x: T, lt: spec_fn(T, T) -> bool, j: int)
    requires
        is_strict_order(lt),
        0 <= j <= s.len(),
        forall|k: int| 0 <= k < j ==> #[trigger] lt(s[k], x),
        j < s.len() ==> !lt(s[j], x),
    ensures
        insert_sorted(s, x, lt) == (if j < s.len() && s[j] == x {
            s
        } else {
            s.insert(j, x)
        }),
    decreases j,
{
    if j == 0 {
        if s.len() > 0 && s[0] != x {
            assert(lt(x, s[0]) || lt(s[0], x));
            assert(seq![x] + s =~= s.insert(0, x));
        } else if s.len() == 0 {
            assert(seq![x] =~= s.insert(0, x));
        }
    } else {
        assert(lt(s[0], x));
        assert(s[0] != x);
        assert(!lt(x, s[0]));
        let t = s.drop_first();
        assert forall|k: int| 0 <= k < j - 1 implies #[trigger] lt(t[k], x) by {
            assert(lt(s[k + 1], x));
        }
        lemma_insert_at(t, x, lt, j - 1);
        if j < s.len() && s[j] == x {
            assert(seq![s[0]] + t =~= s);
        } else {
            assert(seq![s[0]] + t.insert(j - 1, x) =~= s.insert(j, x));
        }
    }
}

/// Inserts `x` into `v` at its place in the order of strings, unless an equal
/// string is already there.
pub fn insert_text_sorted(v: &mut Vec<String>, x: String)
    ensures
        texts(final(v)@) == insert_sorted(texts(old(v)@), x@, text_order()),
{
    proof {
        lemma_text_order();
    }
    let ghost s = texts(v@);
    let n = v.len();
    let mut j: usize = 0;
    while j < n && crate::text::text_less(v[j].as_str(), x.as_str())
        invariant
            n == v@.len(),
            j <= n,
            s == texts(v@),
            forall|k: int| 0 <= k < j ==> #[trigger] text_order()(s[k], x@),
        decreases n - j,
    {
        j = j + 1;
    }
    proof {
        lemma_insert_at(s, x@, text_order(), j as int);
    }
    if j < n && crate::text::same_text(v[j].as_str(), x.as_str()) {
        return;
    }
    v.insert(j, x);
    assert(texts(v@) =~= s.insert(j as int, x@));
}

} // verus!
