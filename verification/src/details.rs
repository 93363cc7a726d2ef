//! A deterministic map of structured error metadata.
use vstd::prelude::*;
use vstd::std_specs::iter::IteratorSpec;
use vstd::utf8::{decode_utf8, encode_utf8, encode_utf8_decode_utf8};

use crate::detail::{DetailValue, DetailValueView};

verus! {

/// Strict lexicographic order on byte sequences (the order of `str`).
pub open spec fn bytes_before(a: Seq<u8>, b: Seq<u8>) -> bool
    decreases a.len(),
{
    if a.len() == 0 {
        b.len() > 0
    } else if b.len() == 0 {
        false
    } else if a[0] != b[0] {
        a[0] < b[0]
    } else {
        bytes_before(a.drop_first(), b.drop_first())
    }
}

/// The order of keys: the lexicographic order of their UTF-8 bytes,
/// which is the order of Rust strings.
pub open spec fn key_before(a: Seq<char>, b: Seq<char>) -> bool {
    bytes_before(encode_utf8(a), encode_utf8(b))
}

/// Whether a sequence of keys is strictly increasing.
pub open spec fn keys_increasing(ks: Seq<Seq<char>>) -> bool {
    forall|i: int, j: int| 0 <= i < j < ks.len() ==> key_before(#[trigger] ks[i], #[trigger] ks[j])
}

/// Lexicographic order from the first byte, stated directly: `a` is a
/// proper prefix of `b`, or at the first position where they differ the
/// byte of `a` is smaller.
pub open spec fn lexicographically_before(a: Seq<u8>, b: Seq<u8>) -> bool {
    ||| (a.len() < b.len() && b.take(a.len() as int) == a)
    ||| exists|i: int|
        #![trigger a[i], b[i]]
        0 <= i < a.len() && i < b.len() && a.take(i) == b.take(i) && a[i] < b[i]
}

/// The key order is the lexicographic order from the first byte: one byte
/// string comes before another exactly when it is a proper prefix of it, or
/// when, at the first position where they differ, its byte is smaller.
pub proof fn lemma_bytes_before_lexicographic(a: Seq<u8>, b: Seq<u8>)
    ensures
        bytes_before(a, b) <==> lexicographically_before(a, b),
    decreases a.len(),
{
    if a.len() == 0 {
        assert(b.take(0) =~= a);
    } else if b.len() == 0 {
    } else if a[0] != b[0] {
        assert(a.take(0) =~= b.take(0));
        if a.len() < b.len() && b.take(a.len() as int) == a {
            assert(b.take(a.len() as int)[0] == b[0]);
        }
        if exists|i: int|
            #![trigger a[i], b[i]]
            0 <= i < a.len() && i < b.len() && a.take(i) == b.take(i) && a[i] < b[i] {
            let i = choose|i: int|
                #![trigger a[i], b[i]]
                0 <= i < a.len() && i < b.len() && a.take(i) == b.take(i) && a[i] < b[i];
            if i > 0 {
                assert(a.take(i)[0] == b.take(i)[0]);
            }
        }
    } else {
        let a1 = a.drop_first();
        let b1 = b.drop_first();
        lemma_bytes_before_lexicographic(a1, b1);
        if a1.len() < b1.len() && b1.take(a1.len() as int) == a1 {
            assert(b.take(a.len() as int) =~= seq![b[0]] + b1.take(a1.len() as int));
            assert(a =~= seq![a[0]] + a1);
        }
        if a.len() < b.len() && b.take(a.len() as int) == a {
            assert(b1.take(a1.len() as int) =~= b.take(a.len() as int).drop_first());
            assert(a1 =~= a.drop_first());
        }
        if exists|i: int|
            #![trigger a1[i], b1[i]]
            0 <= i < a1.len() && i < b1.len() && a1.take(i) == b1.take(i) && a1[i] < b1[i] {
            let i = choose|i: int|
                #![trigger a1[i], b1[i]]
                0 <= i < a1.len() && i < b1.len() && a1.take(i) == b1.take(i) && a1[i] < b1[i];
            assert(a.take(i + 1) =~= seq![a[0]] + a1.take(i));
            assert(b.take(i + 1) =~= seq![b[0]] + b1.take(i));
            assert(a[i + 1] == a1[i] && b[i + 1] == b1[i]);
        }
        if exists|i: int|
            #![trigger a[i], b[i]]
            0 <= i < a.len() && i < b.len() && a.take(i) == b.take(i) && a[i] < b[i] {
            let i = choose|i: int|
                #![trigger a[i], b[i]]
                0 <= i < a.len() && i < b.len() && a.take(i) == b.take(i) && a[i] < b[i];
            assert(i > 0);
            assert(a1.take(i - 1) =~= a.take(i).drop_first());
            assert(b1.take(i - 1) =~= b.take(i).drop_first());
            assert(a1[i - 1] == a[i] && b1[i - 1] == b[i]);
        }
    }
}

/// No byte sequence comes before itself.
pub proof fn lemma_bytes_before_irreflexive(a: Seq<u8>)
    ensures
        !bytes_before(a, a),
    decreases a.len(),
{
    if a.len() > 0 {
        lemma_bytes_before_irreflexive(a.drop_first());
    }
}

/// The byte order is transitive.
pub proof fn lemma_bytes_before_transitive(a: Seq<u8>, b: Seq<u8>, c: Seq<u8>)
    requires
        bytes_before(a, b),
        bytes_before(b, c),
    ensures
        bytes_before(a, c),
    decreases a.len(),
{
    if a.len() > 0 && b.len() > 0 && c.len() > 0 && a[0] == b[0] && b[0] == c[0] {
        lemma_bytes_before_transitive(a.drop_first(), b.drop_first(), c.drop_first());
    }
}

/// Two distinct byte sequences are ordered one way or the other.
pub proof fn lemma_bytes_before_total(a: Seq<u8>, b: Seq<u8>)
    requires
        a != b,
    ensures
        bytes_before(a, b) || bytes_before(b, a),
    decreases a.len(),
{
    if a.len() > 0 && b.len() > 0 && a[0] == b[0] {
        if a.drop_first() == b.drop_first() {
            assert(a =~= seq![a[0]] + a.drop_first());
            assert(b =~= seq![b[0]] + b.drop_first());
        }
        lemma_bytes_before_total(a.drop_first(), b.drop_first());
    } else if a.len() == 0 && b.len() == 0 {
        assert(a =~= b);
    }
}

/// No byte sequence comes both before and after another.
pub proof fn lemma_bytes_before_asymmetric(a: Seq<u8>, b: Seq<u8>)
    requires
        bytes_before(a, b),
    ensures
        !bytes_before(b, a),
{
    if bytes_before(b, a) {
        lemma_bytes_before_transitive(a, b, a);
        lemma_bytes_before_irreflexive(a);
    }
}

/// Texts with the same UTF-8 bytes are the same text.
pub proof fn lemma_encode_injective(a: Seq<char>, b: Seq<char>)
    requires
        encode_utf8(a) == encode_utf8(b),
    ensures
        a == b,
{
    encode_utf8_decode_utf8(a);
    encode_utf8_decode_utf8(b);
}

/// The key order is transitive.
pub proof fn lemma_key_before_transitive(a: Seq<char>, b: Seq<char>, c: Seq<char>)
    requires
        key_before(a, b),
        key_before(b, c),
    ensures
        key_before(a, c),
{
    lemma_bytes_before_transitive(encode_utf8(a), encode_utf8(b), encode_utf8(c));
}

/// No key comes before itself.
pub proof fn lemma_key_before_irreflexive(a: Seq<char>)
    ensures
        !key_before(a, a),
{
    lemma_bytes_before_irreflexive(encode_utf8(a));
}

/// Two distinct keys are ordered one way or the other.
pub proof fn lemma_key_before_total(a: Seq<char>, b: Seq<char>)
    requires
        a != b,
    ensures
        key_before(a, b) || key_before(b, a),
{
    if encode_utf8(a) == encode_utf8(b) {
        lemma_encode_injective(a, b);
    }
    lemma_bytes_before_total(encode_utf8(a), encode_utf8(b));
}

/// Keys kept in increasing order ascend as Rust strings do: each key's
/// UTF-8 bytes come lexicographically, from the first byte, before those of
/// every later key.
pub proof fn lemma_increasing_keys_ascend(ks: Seq<Seq<char>>)
    requires
        keys_increasing(ks),
    ensures
        forall|i: int, j: int|
            0 <= i < j < ks.len() ==> lexicographically_before(
                encode_utf8(#[trigger] ks[i]),
                encode_utf8(#[trigger] ks[j]),
            ),
{
    assert forall|i: int, j: int| 0 <= i < j < ks.len() implies lexicographically_before(
        encode_utf8(#[trigger] ks[i]),
        encode_utf8(#[trigger] ks[j]),
    ) by {
        lemma_bytes_before_lexicographic(encode_utf8(ks[i]), encode_utf8(ks[j]));
    }
}

/// The order of keys is determined by the keys alone: two increasing
/// sequences holding the same keys are the same sequence.
pub proof fn lemma_increasing_keys_determined(a: Seq<Seq<char>>, b: Seq<Seq<char>>)
    requires
        keys_increasing(a),
        keys_increasing(b),
        forall|k: Seq<char>| a.contains(k) <==> b.contains(k),
    ensures
        a == b,
    decreases a.len(),
{
    if a.len() == 0 {
        if b.len() > 0 {
            assert(b.contains(b[0]));
        }
        assert(a =~= b);
    } else {
        assert(a.contains(a[0]));
        assert(b.contains(a[0]));
        let j = choose|j: int| 0 <= j < b.len() && b[j] == a[0];
        assert(b.contains(b[0]));
        assert(a.contains(b[0]));
        let i = choose|i: int| 0 <= i < a.len() && a[i] == b[0];
        if a[0] != b[0] {
            assert(i > 0 && j > 0);
            assert(key_before(a[0], a[i]));
            assert(key_before(b[0], b[j]));
            lemma_bytes_before_asymmetric(encode_utf8(a[0]), encode_utf8(b[0]));
        }
        let a1 = a.drop_first();
        let b1 = b.drop_first();
        assert forall|k: Seq<char>| a1.contains(k) <==> b1.contains(k) by {
            if a1.contains(k) {
                let x = choose|x: int| 0 <= x < a1.len() && a1[x] == k;
                assert(a[x + 1] == k);
                assert(key_before(a[0], a[x + 1]));
                lemma_key_before_irreflexive(k);
                assert(a.contains(k));
                assert(b.contains(k));
                let y = choose|y: int| 0 <= y < b.len() && b[y] == k;
                assert(y != 0);
                assert(b1[y - 1] == k);
            }
            if b1.contains(k) {
                let x = choose|x: int| 0 <= x < b1.len() && b1[x] == k;
                assert(b[x + 1] == k);
                assert(key_before(b[0], b[x + 1]));
                lemma_key_before_irreflexive(k);
                assert(b.contains(k));
                assert(a.contains(k));
                let y = choose|y: int| 0 <= y < a.len() && a[y] == k;
                assert(y != 0);
                assert(a1[y - 1] == k);
            }
        }
        assert(keys_increasing(a1)) by {
            assert forall|x: int, y: int| 0 <= x < y < a1.len() implies key_before(
                #[trigger] a1[x],
                #[trigger] a1[y],
            ) by {
                assert(a1[x] == a[x + 1] && a1[y] == a[y + 1]);
            }
        }
        assert(keys_increasing(b1)) by {
            assert forall|x: int, y: int| 0 <= x < y < b1.len() implies key_before(
                #[trigger] b1[x],
                #[trigger] b1[y],
            ) by {
                assert(b1[x] == b[x + 1] && b1[y] == b[y + 1]);
            }
        }
        lemma_increasing_keys_determined(a1, b1);
        assert(a =~= seq![a[0]] + a1);
        assert(b =~= seq![b[0]] + b1);
    }
}

/// The outcome of comparing two byte strings.
enum ByteOrder {
    Less,
    Equal,
    Greater,
}

/// Compares two byte strings lexicographically.
fn compare_bytes(a: &[u8], b: &[u8]) -> (r: ByteOrder)
    ensures
        r is Less <==> bytes_before(a@, b@),
        r is Equal <==> a@ == b@,
        r is Greater <==> bytes_before(b@, a@),
{
    let n = if a.len() < b.len() {
        a.len()
    } else {
        b.len()
    };
    let mut i: usize = 0;
    assert(a@.skip(0) =~= a@);
    assert(b@.skip(0) =~= b@);
    while i < n
        invariant
            n <= a@.len(),
            n <= b@.len(),
            n == a@.len() || n == b@.len(),
            i <= n,
            a@.subrange(0, i as int) == b@.subrange(0, i as int),
            bytes_before(a@, b@) == bytes_before(a@.skip(i as int), b@.skip(i as int)),
            bytes_before(b@, a@) == bytes_before(b@.skip(i as int), a@.skip(i as int)),
        decreases n - i,
    {
        let x = a[i];
        let y = b[i];
        assert(a@.skip(i as int)[0] == x);
        assert(b@.skip(i as int)[0] == y);
        if x < y {
            proof { lemma_bytes_before_asymmetric(a@, b@); }
            return ByteOrder::Less;
        }
        if x > y {
            proof { lemma_bytes_before_asymmetric(b@, a@); }
            return ByteOrder::Greater;
        }
        assert(a@.skip(i as int).drop_first() =~= a@.skip(i + 1));
        assert(b@.skip(i as int).drop_first() =~= b@.skip(i + 1));
        assert(a@.subrange(0, i + 1) =~= a@.subrange(0, i as int).push(x));
        assert(b@.subrange(0, i + 1) =~= b@.subrange(0, i as int).push(y));
        i = i + 1;
    }
    if a.len() == b.len() {
        assert(a@ =~= a@.subrange(0, i as int));
        assert(b@ =~= b@.subrange(0, i as int));
        proof { lemma_bytes_before_irreflexive(a@); }
        ByteOrder::Equal
    } else if a.len() < b.len() {
        assert(a@.skip(i as int).len() == 0);
        assert(a@ != b@);
        proof { lemma_bytes_before_asymmetric(a@, b@); }
        ByteOrder::Less
    } else {
        assert(b@.skip(i as int).len() == 0);
        assert(a@ != b@);
        proof { lemma_bytes_before_asymmetric(b@, a@); }
        ByteOrder::Greater
    }
}


/// The map held by a sequence of distinct keys and their values.
pub open spec fn entries_map(ks: Seq<Seq<char>>, vs: Seq<DetailValueView>) -> Map<
    Seq<char>,
    DetailValueView,
> {
    Map::new(|k: Seq<char>| ks.contains(k), |k: Seq<char>| vs[ks.index_of(k)])
}

/// The map obtained by inserting the entries one after another, so that a
/// later entry replaces an earlier one with the same key.
pub open spec fn insert_all(
    m: Map<Seq<char>, DetailValueView>,
    es: Seq<(Seq<char>, DetailValueView)>,
) -> Map<Seq<char>, DetailValueView>
    decreases es.len(),
{
    if es.len() == 0 {
        m
    } else {
        insert_all(m, es.drop_last()).insert(es.last().0, es.last().1)
    }
}

/// The key and value of each entry, by their views.
pub open spec fn entry_views(es: Seq<(String, DetailValue)>) -> Seq<(Seq<char>, DetailValueView)> {
    es.map_values(|e: (String, DetailValue)| (e.0@, e.1@))
}

/// Inserting entries in order keeps the keys of the map and adds those of
/// the entries.
pub proof fn lemma_insert_all_keys(
    m: Map<Seq<char>, DetailValueView>,
    es: Seq<(Seq<char>, DetailValueView)>,
    k: Seq<char>,
)
    ensures
        insert_all(m, es).contains_key(k) <==> (m.contains_key(k) || exists|i: int|
            0 <= i < es.len() && (#[trigger] es[i]).0 == k),
    decreases es.len(),
{
    if es.len() > 0 {
        let init = es.drop_last();
        lemma_insert_all_keys(m, init, k);
        if exists|i: int| 0 <= i < init.len() && (#[trigger] init[i]).0 == k {
            let i = choose|i: int| 0 <= i < init.len() && (#[trigger] init[i]).0 == k;
            assert(es[i] == init[i]);
        }
        if exists|i: int| 0 <= i < es.len() && (#[trigger] es[i]).0 == k {
            let i = choose|i: int| 0 <= i < es.len() && (#[trigger] es[i]).0 == k;
            if i < init.len() {
                assert(init[i] == es[i]);
            }
        }
    }
}

/// A key that an entry carries ends up with the value of the last entry
/// that carries it.
pub proof fn lemma_insert_all_last_wins(
    m: Map<Seq<char>, DetailValueView>,
    es: Seq<(Seq<char>, DetailValueView)>,
    i: int,
)
    requires
        0 <= i < es.len(),
        forall|j: int| i < j < es.len() ==> (#[trigger] es[j]).0 != es[i].0,
    ensures
        insert_all(m, es)[es[i].0] == es[i].1,
    decreases es.len(),
{
    if i < es.len() - 1 {
        let init = es.drop_last();
        assert(es.last().0 != es[i].0);
        assert forall|j: int| i < j < init.len() implies (#[trigger] init[j]).0 != init[i].0 by {
            assert(init[j] == es[j]);
        }
        lemma_insert_all_last_wins(m, init, i);
    }
}

/// A key that no entry carries keeps its value.
pub proof fn lemma_insert_all_untouched(
    m: Map<Seq<char>, DetailValueView>,
    es: Seq<(Seq<char>, DetailValueView)>,
    k: Seq<char>,
)
    requires
        forall|i: int| 0 <= i < es.len() ==> (#[trigger] es[i]).0 != k,
    ensures
        insert_all(m, es)[k] == m[k],
    decreases es.len(),
{
    if es.len() > 0 {
        let init = es.drop_last();
        assert(es.last().0 != k);
        assert forall|i: int| 0 <= i < init.len() implies (#[trigger] init[i]).0 != k by {
            assert(init[i] == es[i]);
        }
        lemma_insert_all_untouched(m, init, k);
    }
}

proof fn lemma_entries_map_at(ks: Seq<Seq<char>>, vs: Seq<DetailValueView>, i: int)
    requires
        keys_increasing(ks),
        0 <= i < ks.len(),
    ensures
        entries_map(ks, vs).contains_key(ks[i]),
        entries_map(ks, vs)[ks[i]] == vs[i],
{
    assert(ks.contains(ks[i]));
    let j = ks.index_of(ks[i]);
    assert(0 <= j < ks.len() && ks[j] == ks[i]);
    if j < i {
        lemma_key_before_irreflexive(ks[i]);
    } else if j > i {
        lemma_key_before_irreflexive(ks[i]);
    }
}

proof fn lemma_insert_keeps_increasing(ks: Seq<Seq<char>>, p: int, k: Seq<char>)
    requires
        keys_increasing(ks),
        0 <= p <= ks.len(),
        forall|j: int| 0 <= j < p ==> key_before(#[trigger] ks[j], k),
        p < ks.len() ==> key_before(k, ks[p]),
    ensures
        keys_increasing(ks.insert(p, k)),
{
    let ks2 = ks.insert(p, k);
    assert forall|i: int, j: int| 0 <= i < j < ks2.len() implies key_before(
        #[trigger] ks2[i],
        #[trigger] ks2[j],
    ) by {
        if j < p {
            assert(ks2[i] == ks[i] && ks2[j] == ks[j]);
        } else if j == p {
            assert(ks2[i] == ks[i]);
        } else if i == p {
            assert(ks2[j] == ks[j - 1]);
            if j - 1 > p {
                assert(key_before(ks[p], ks[j - 1]));
                lemma_key_before_transitive(k, ks[p], ks[j - 1]);
            }
        } else if i < p {
            assert(ks2[i] == ks[i] && ks2[j] == ks[j - 1]);
        } else {
            assert(ks2[i] == ks[i - 1] && ks2[j] == ks[j - 1]);
        }
    }
}

proof fn lemma_entries_map_insert_new(
    ks: Seq<Seq<char>>,
    vs: Seq<DetailValueView>,
    p: int,
    k: Seq<char>,
    v: DetailValueView,
)
    requires
        keys_increasing(ks),
        ks.len() == vs.len(),
        0 <= p <= ks.len(),
        keys_increasing(ks.insert(p, k)),
    ensures
        !entries_map(ks, vs).contains_key(k),
        entries_map(ks.insert(p, k), vs.insert(p, v)) =~= entries_map(ks, vs).insert(k, v),
{
    let ks2 = ks.insert(p, k);
    let vs2 = vs.insert(p, v);
    let old_map = entries_map(ks, vs);
    let new_map = entries_map(ks2, vs2);
    assert forall|j: int| 0 <= j < ks.len() implies ks[j] != k by {
        if j < p {
            assert(ks2[j] == ks[j] && ks2[p] == k);
            assert(key_before(ks2[j], ks2[p]));
            lemma_key_before_irreflexive(k);
        } else {
            assert(ks2[j + 1] == ks[j] && ks2[p] == k);
            assert(key_before(ks2[p], ks2[j + 1]));
            lemma_key_before_irreflexive(k);
        }
    }
    assert(!ks.contains(k));
    lemma_entries_map_at(ks2, vs2, p);
    assert forall|x: Seq<char>| new_map.contains_key(x) <==> old_map.insert(k, v).contains_key(x) by {
        if ks2.contains(x) {
            let i = ks2.index_of(x);
            if i < p {
                assert(ks[i] == x);
            } else if i > p {
                assert(ks[i - 1] == x);
            }
        }
        if ks.contains(x) {
            let i = ks.index_of(x);
            if i < p {
                assert(ks2[i] == x);
            } else {
                assert(ks2[i + 1] == x);
            }
        }
    }
    assert forall|x: Seq<char>| #[trigger] new_map.contains_key(x) implies new_map[x] == old_map.insert(
        k,
        v,
    )[x] by {
        if x != k {
            let i = ks.index_of(x);
            assert(ks.contains(x));
            lemma_entries_map_at(ks, vs, i);
            if i < p {
                assert(ks2[i] == x && vs2[i] == vs[i]);
                lemma_entries_map_at(ks2, vs2, i);
            } else {
                assert(ks2[i + 1] == x && vs2[i + 1] == vs[i]);
                lemma_entries_map_at(ks2, vs2, i + 1);
            }
        }
    }
}

proof fn lemma_entries_map_update(
    ks: Seq<Seq<char>>,
    vs: Seq<DetailValueView>,
    p: int,
    v: DetailValueView,
)
    requires
        keys_increasing(ks),
        ks.len() == vs.len(),
        0 <= p < ks.len(),
    ensures
        entries_map(ks, vs).contains_key(ks[p]),
        entries_map(ks, vs)[ks[p]] == vs[p],
        entries_map(ks, vs.update(p, v)) =~= entries_map(ks, vs).insert(ks[p], v),
{
    let vs2 = vs.update(p, v);
    let old_map = entries_map(ks, vs);
    let new_map = entries_map(ks, vs2);
    lemma_entries_map_at(ks, vs, p);
    lemma_entries_map_at(ks, vs2, p);
    assert forall|x: Seq<char>| #[trigger] new_map.contains_key(x) implies new_map[x] == old_map.insert(
        ks[p],
        v,
    )[x] by {
        if x != ks[p] {
            let i = ks.index_of(x);
            assert(ks.contains(x));
            lemma_entries_map_at(ks, vs, i);
            lemma_entries_map_at(ks, vs2, i);
        }
    }
}

/// Finds where `key` stands among increasing keys, by binary search: the
/// index of the key when present (`true`), otherwise the index at which it
/// would be inserted (`false`).
fn search_keys(keys: &Vec<String>, key: &str) -> (place: (usize, bool))
    requires
        keys_increasing(keys@.map_values(|k: String| k@)),
    ensures
        place.0 <= keys.len(),
        place.1 ==> place.0 < keys.len() && keys@[place.0 as int]@ == key@,
        !place.1 ==> forall|j: int| 0 <= j < place.0 ==> key_before(#[trigger] keys@[j]@, key@),
        !place.1 ==> place.0 < keys.len() ==> key_before(key@, keys@[place.0 as int]@),
{
    let ghost ks = keys@.map_values(|k: String| k@);
    let wanted = key.as_bytes();
    let mut lo: usize = 0;
    let mut hi: usize = keys.len();
    while lo < hi
        invariant
            ks == keys@.map_values(|k: String| k@),
            keys_increasing(ks),
            wanted@ == encode_utf8(key@),
            lo <= hi <= keys.len(),
            forall|j: int| 0 <= j < lo ==> key_before(#[trigger] ks[j], key@),
            forall|j: int| hi <= j < keys.len() ==> key_before(key@, #[trigger] ks[j]),
        decreases hi - lo,
    {
        let mid = lo + (hi - lo) / 2;
        assert(ks[mid as int] == keys@[mid as int]@);
        match compare_bytes(keys[mid].as_str().as_bytes(), wanted) {
            ByteOrder::Less => {
                assert forall|j: int| 0 <= j < mid + 1 implies key_before(#[trigger] ks[j], key@) by {
                    if j < mid {
                        lemma_key_before_transitive(ks[j], ks[mid as int], key@);
                    }
                }
                lo = mid + 1;
            },
            ByteOrder::Equal => {
                proof {
                    lemma_encode_injective(keys@[mid as int]@, key@);
                }
                return (mid, true);
            },
            ByteOrder::Greater => {
                assert forall|j: int| mid <= j < keys.len() implies key_before(key@, #[trigger] ks[j]) by {
                    if j > mid {
                        lemma_key_before_transitive(key@, ks[mid as int], ks[j]);
                    }
                }
                hi = mid;
            },
        }
    }
    assert forall|j: int| 0 <= j < lo implies key_before(#[trigger] keys@[j]@, key@) by {
        assert(ks[j] == keys@[j]@);
    }
    if lo < keys.len() {
        assert(ks[lo as int] == keys@[lo as int]@);
    }
    (lo, false)
}

proof fn lemma_entries_map_remove(ks: Seq<Seq<char>>, vs: Seq<DetailValueView>, p: int)
    requires
        keys_increasing(ks),
        ks.len() == vs.len(),
        0 <= p < ks.len(),
    ensures
        keys_increasing(ks.remove(p)),
        entries_map(ks, vs).contains_key(ks[p]),
        entries_map(ks, vs)[ks[p]] == vs[p],
        entries_map(ks.remove(p), vs.remove(p)) =~= entries_map(ks, vs).remove(ks[p]),
{
    let ks2 = ks.remove(p);
    let vs2 = vs.remove(p);
    assert forall|i: int, j: int| 0 <= i < j < ks2.len() implies key_before(
        #[trigger] ks2[i],
        #[trigger] ks2[j],
    ) by {
        let a = if i < p { i } else { i + 1 };
        let b = if j < p { j } else { j + 1 };
        assert(ks2[i] == ks[a] && ks2[j] == ks[b]);
    }
    lemma_entries_map_at(ks, vs, p);
    let old_map = entries_map(ks, vs);
    let new_map = entries_map(ks2, vs2);
    assert forall|x: Seq<char>| new_map.contains_key(x) <==> old_map.remove(ks[p]).contains_key(x) by {
        if ks2.contains(x) {
            let i = ks2.index_of(x);
            let a = if i < p { i } else { i + 1 };
            assert(ks[a] == x);
            assert(ks.contains(x));
            if a != p {
                if a < p {
                    assert(key_before(ks[a], ks[p]));
                } else {
                    assert(key_before(ks[p], ks[a]));
                }
                lemma_key_before_irreflexive(x);
            }
        }
        if ks.contains(x) && x != ks[p] {
            let i = ks.index_of(x);
            if i < p {
                assert(ks2[i] == x);
            } else {
                assert(i != p);
                assert(ks2[i - 1] == x);
            }
        }
    }
    assert forall|x: Seq<char>| #[trigger] new_map.contains_key(x) implies new_map[x] == old_map.remove(
        ks[p],
    )[x] by {
        let i = ks2.index_of(x);
        assert(ks2.contains(x));
        lemma_entries_map_at(ks2, vs2, i);
        let a = if i < p { i } else { i + 1 };
        assert(ks[a] == ks2[i] && vs[a] == vs2[i]);
        lemma_entries_map_at(ks, vs, a);
    }
}

/// A deterministic map of structured error metadata, keyed by text.
///
/// Keys are kept in increasing order (the order of Rust strings, that is,
/// of their UTF-8 bytes), each at most once, so that iteration, comparison
/// and rendering are reproducible.
#[derive(PartialEq, Eq)]
pub struct ErrorDetails {
    keys: Vec<String>,
    values: Vec<DetailValue>,
}

impl ErrorDetails {
    closed spec fn key_seq(&self) -> Seq<Seq<char>> {
        self.keys@.map_values(|k: String| k@)
    }

    closed spec fn value_seq(&self) -> Seq<DetailValueView> {
        self.values@.map_values(|v: DetailValue| v@)
    }

    #[verifier::type_invariant]
    closed spec fn well_formed(self) -> bool {
        &&& self.keys.len() == self.values.len()
        &&& keys_increasing(self.key_seq())
    }

    /// The keys in the order in which they are kept and iterated.
    pub closed spec fn ordered_keys(&self) -> Seq<Seq<char>> {
        self.key_seq()
    }
}

impl View for ErrorDetails {
    type V = Map<Seq<char>, DetailValueView>;

    closed spec fn view(&self) -> Map<Seq<char>, DetailValueView> {
        entries_map(self.key_seq(), self.value_seq())
    }
}

impl ErrorDetails {
    /// Creates an empty map.
    pub fn new() -> (details: Self)
        ensures
            details@ == Map::<Seq<char>, DetailValueView>::empty(),
    {
        let details = ErrorDetails { keys: Vec::new(), values: Vec::new() };
        assert(details@ =~= Map::<Seq<char>, DetailValueView>::empty());
        details
    }

    /// Returns `true` if the map holds no entry.
    pub fn is_empty(&self) -> (empty: bool)
        ensures
            empty <==> self@ == Map::<Seq<char>, DetailValueView>::empty(),
    {
        proof {
            use_type_invariant(self);
        }
        if self.keys.len() == 0 {
            assert(self@ =~= Map::<Seq<char>, DetailValueView>::empty());
            true
        } else {
            proof {
                lemma_entries_map_at(self.key_seq(), self.value_seq(), 0);
            }
            false
        }
    }

    /// Returns the value stored under `key`, if any.
    pub fn get(&self, key: &str) -> (value: Option<&DetailValue>)
        ensures
            value is Some <==> self@.contains_key(key@),
            value matches Some(v) ==> self@[key@] == v@,
    {
        proof {
            use_type_invariant(self);
        }
        let (i, found) = search_keys(&self.keys, key);
        if found {
            proof {
                assert(self.key_seq()[i as int] == self.keys@[i as int]@);
                lemma_entries_map_at(self.key_seq(), self.value_seq(), i as int);
            }
            Some(&self.values[i])
        } else {
            proof {
                let ks = self.key_seq();
                assert forall|j: int| 0 <= j < ks.len() implies ks[j] != key@ by {
                    assert(ks[j] == self.keys@[j]@);
                    lemma_key_before_irreflexive(key@);
                    if j >= i {
                        assert(ks[i as int] == self.keys@[i as int]@);
                        if j > i {
                            lemma_key_before_transitive(key@, ks[i as int], ks[j]);
                        }
                    }
                }
            }
            None
        }
    }

    /// Stores `value` under `key`, returning the value that was stored there
    /// before, if any. When the key is already present its value is replaced
    /// and the stored key is kept.
    pub fn insert(&mut self, key: String, value: DetailValue) -> (previous: Option<DetailValue>)
        ensures
            final(self)@ == old(self)@.insert(key@, value@),
            previous is Some <==> old(self)@.contains_key(key@),
            previous matches Some(v) ==> old(self)@[key@] == v@,
    {
        proof {
            use_type_invariant(&*self);
        }
        let mut this = ErrorDetails { keys: Vec::new(), values: Vec::new() };
        std::mem::swap(&mut this, self);
        proof {
            use_type_invariant(&this);
        }
        let ghost ks = this.key_seq();
        let ghost vs = this.value_seq();
        let ErrorDetails { keys: mut keys, values: mut values } = this;
        let (p, same) = search_keys(&keys, key.as_str());
        assert forall|j: int| 0 <= j < p && !same implies key_before(#[trigger] ks[j], key@) by {
            assert(ks[j] == keys@[j]@);
        }
        if p < keys.len() {
            assert(ks[p as int] == keys@[p as int]@);
        }
        if same {
            let ghost new_view = value@;
            let mut previous = value;
            std::mem::swap(&mut values[p], &mut previous);
            proof {
                assert(values@.map_values(|v: DetailValue| v@) =~= vs.update(p as int, new_view));
                lemma_entries_map_update(ks, vs, p as int, new_view);
            }
            *self = ErrorDetails { keys, values };
            Some(previous)
        } else {
            let ghost key_view = key@;
            let ghost new_view = value@;
            keys.insert(p, key);
            values.insert(p, value);
            proof {
                assert(keys@.map_values(|k: String| k@) =~= ks.insert(p as int, key_view));
                assert(values@.map_values(|v: DetailValue| v@) =~= vs.insert(p as int, new_view));
                lemma_insert_keeps_increasing(ks, p as int, key_view);
                lemma_entries_map_insert_new(ks, vs, p as int, key_view, new_view);
            }
            *self = ErrorDetails { keys, values };
            None
        }
    }

    /// Returns the number of entries.
    pub fn len(&self) -> (count: usize)
        ensures
            count == self@.len(),
    {
        proof {
            use_type_invariant(self);
            let ks = self.key_seq();
            assert(self@.dom() =~= ks.to_set());
            assert forall|i: int, j: int| 0 <= i < ks.len() && 0 <= j < ks.len() && i != j implies ks[i]
                != ks[j] by {
                lemma_key_before_irreflexive(ks[i]);
                if i < j {
                    assert(key_before(ks[i], ks[j]));
                } else {
                    assert(key_before(ks[j], ks[i]));
                }
            }
            assert(ks.no_duplicates());
            ks.unique_seq_to_set();
        }
        self.keys.len()
    }

    /// Returns `true` if a value is stored under `key`.
    pub fn contains_key(&self, key: &str) -> (present: bool)
        ensures
            present == self@.contains_key(key@),
    {
        let value = self.get(key);
        value.is_some()
    }

    /// Removes the entry stored under `key`, returning its value, if any.
    pub fn remove(&mut self, key: &str) -> (removed: Option<DetailValue>)
        ensures
            final(self)@ == old(self)@.remove(key@),
            removed is Some <==> old(self)@.contains_key(key@),
            removed matches Some(v) ==> old(self)@[key@] == v@,
    {
        proof {
            use_type_invariant(&*self);
        }
        let mut this = ErrorDetails { keys: Vec::new(), values: Vec::new() };
        std::mem::swap(&mut this, self);
        proof {
            use_type_invariant(&this);
        }
        let ghost ks = this.key_seq();
        let ghost vs = this.value_seq();
        let ErrorDetails { keys: mut keys, values: mut values } = this;
        let (p, found) = search_keys(&keys, key);
        if found {
            assert(ks[p as int] == keys@[p as int]@);
            keys.remove(p);
            let removed = values.remove(p);
            proof {
                assert(keys@.map_values(|k: String| k@) =~= ks.remove(p as int));
                assert(values@.map_values(|v: DetailValue| v@) =~= vs.remove(p as int));
                lemma_entries_map_remove(ks, vs, p as int);
            }
            *self = ErrorDetails { keys, values };
            Some(removed)
        } else {
            proof {
                assert forall|j: int| 0 <= j < ks.len() implies ks[j] != key@ by {
                    assert(ks[j] == keys@[j]@);
                    lemma_key_before_irreflexive(key@);
                    if j >= p {
                        assert(ks[p as int] == keys@[p as int]@);
                        if j > p {
                            lemma_key_before_transitive(key@, ks[p as int], ks[j]);
                        }
                    }
                }
                assert(entries_map(ks, vs).remove(key@) =~= entries_map(ks, vs));
            }
            *self = ErrorDetails { keys, values };
            None
        }
    }

    /// Returns the entries, in increasing key order.
    pub fn iter(&self) -> (entries: Vec<(&String, &DetailValue)>)
        ensures
            entries@.len() == self.ordered_keys().len(),
            forall|i: int|
                0 <= i < entries@.len() ==> (#[trigger] entries@[i]).0@ == self.ordered_keys()[i]
                    && self@[self.ordered_keys()[i]] == entries@[i].1@,
            keys_increasing(self.ordered_keys()),
            forall|i: int, j: int|
                0 <= i < j < self.ordered_keys().len() ==> lexicographically_before(
                    encode_utf8(#[trigger] self.ordered_keys()[i]),
                    encode_utf8(#[trigger] self.ordered_keys()[j]),
                ),
            forall|k: Seq<char>| self@.contains_key(k) <==> self.ordered_keys().contains(k),
    {
        proof {
            use_type_invariant(self);
            lemma_increasing_keys_ascend(self.key_seq());
        }
        let n = self.keys.len();
        let mut entries: Vec<(&String, &DetailValue)> = Vec::new();
        let mut i: usize = 0;
        while i < n
            invariant
                n == self.keys.len(),
                n == self.values.len(),
                keys_increasing(self.key_seq()),
                i <= n,
                entries@.len() == i,
                forall|j: int|
                    0 <= j < i ==> (#[trigger] entries@[j]).0@ == self.key_seq()[j]
                        && self@[self.key_seq()[j]] == entries@[j].1@,
            decreases n - i,
        {
            proof {
                lemma_entries_map_at(self.key_seq(), self.value_seq(), i as int);
            }
            entries.push((&self.keys[i], &self.values[i]));
            i = i + 1;
        }
        entries
    }

    /// Returns an iterator over the keys, in increasing order.
    pub fn keys(&self) -> (keys: std::slice::Iter<'_, String>)
        ensures
            IteratorSpec::remaining(&keys).map_values(|k: &String| k@) == self.ordered_keys(),
            keys_increasing(self.ordered_keys()),
            forall|i: int, j: int|
                0 <= i < j < self.ordered_keys().len() ==> lexicographically_before(
                    encode_utf8(#[trigger] self.ordered_keys()[i]),
                    encode_utf8(#[trigger] self.ordered_keys()[j]),
                ),
            forall|k: Seq<char>| self@.contains_key(k) <==> self.ordered_keys().contains(k),
    {
        proof {
            use_type_invariant(self);
            broadcast use vstd::std_specs::slice::axiom_spec_slice_iter;
            lemma_increasing_keys_ascend(self.key_seq());
        }
        let keys = self.keys.as_slice().iter();
        assert(IteratorSpec::remaining(&keys).map_values(|k: &String| k@) =~= self.key_seq());
        keys
    }

    /// Inserts the entries one after another; a later entry replaces an
    /// earlier one with the same key.
    pub fn extend(&mut self, entries: Vec<(String, DetailValue)>)
        ensures
            final(self)@ == insert_all(old(self)@, entry_views(entries@)),
    {
        let ghost all = entry_views(entries@);
        let ghost original = entries@;
        let ghost start = self@;
        proof {
            broadcast use vstd::std_specs::vec::axiom_spec_into_iter;
        }
        assert(all.take(0) =~= Seq::<(Seq<char>, DetailValueView)>::empty());
        for entry in it: entries.into_iter()
            invariant
                it.seq() == original,
                all == entry_views(original),
                self@ == insert_all(start, all.take(it.index())),
        {
            let ghost done = it.index();
            let (key, value) = entry;
            assert(all[done] == (key@, value@));
            self.insert(key, value);
            assert(all.take(done + 1).drop_last() =~= all.take(done));
        }
        assert(all.take(all.len() as int) =~= all);
    }
}


impl std::fmt::Debug for ErrorDetails {
    /// Formats the entries as a map, `{key: value, ...}`, in key order.
    #[verifier::external_body]
    fn fmt(&self, f: &mut std::fmt::Formatter<'_>) -> std::fmt::Result {
        f.debug_map().entries(self.keys.iter().zip(self.values.iter())).finish()
    }
}

impl Clone for ErrorDetails {
    fn clone(&self) -> (copy: Self)
        ensures
            copy@ == self@,
            copy.ordered_keys() == self.ordered_keys(),
    {
        proof {
            use_type_invariant(self);
        }
        let n = self.keys.len();
        let mut keys: Vec<String> = Vec::new();
        let mut values: Vec<DetailValue> = Vec::new();
        let mut i: usize = 0;
        while i < n
            invariant
                n == self.keys.len(),
                n == self.values.len(),
                i <= n,
                keys.len() == i,
                values.len() == i,
                forall|j: int| 0 <= j < i ==> (#[trigger] keys@[j])@ == self.keys@[j]@,
                forall|j: int| 0 <= j < i ==> (#[trigger] values@[j])@ == self.values@[j]@,
            decreases n - i,
        {
            keys.push(self.keys[i].clone());
            values.push(self.values[i].clone());
            i = i + 1;
        }
        assert(keys@.map_values(|k: String| k@) =~= self.key_seq());
        assert(values@.map_values(|v: DetailValue| v@) =~= self.value_seq());
        ErrorDetails { keys, values }
    }
}

} // verus!
