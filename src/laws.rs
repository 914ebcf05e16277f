use vstd::prelude::*;
use crate::identifier::valid_identifier;
use crate::paths::{
    entry_path_of, lemma_join_injective, lemma_temp_name_injective, temp_name_of, temp_path_of,
};
use crate::store::{after_put, lookup, truncated, PasteStore, WriteSession};

verus! {

/// The namespace `ns` after the writes `puts`, each an identifier and its
/// content, made in order.
pub open spec fn replay(
    ns: Map<Seq<char>, Seq<u8>>,
    root: Seq<char>,
    limit: nat,
    puts: Seq<(Seq<char>, Seq<u8>)>,
) -> Map<Seq<char>, Seq<u8>>
    decreases puts.len(),
{
    if puts.len() == 0 {
        ns
    } else {
        let last = puts.last();
        after_put(replay(ns, root, limit, puts.drop_last()), root, limit, last.0, last.1)
    }
}

/// Renaming a write session into place, once it was offered the content `c`,
/// is exactly the write of `c` to its identifier.
pub proof fn lemma_session_is_put(
    store: PasteStore,
    s: WriteSession,
    ns: Map<Seq<char>, Seq<u8>>,
    id: Seq<char>,
    c: Seq<u8>,
)
    requires
        s.target_path@ == entry_path_of(store.root@, id),
        s.size_limit == store.size_limit,
        s.received@ == c,
    ensures
        s.commit(ns) == after_put(ns, store.root@, store.size_limit as nat, id, c),
{
}

/// Content within the limit that is written to a valid identifier is read
/// back exactly.
pub proof fn lemma_round_trip(
    store: PasteStore,
    ns: Map<Seq<char>, Seq<u8>>,
    id: Seq<char>,
    c: Seq<u8>,
)
    requires
        valid_identifier(id),
        c.len() <= store.size_limit,
    ensures
        lookup(after_put(ns, store.root@, store.size_limit as nat, id, c), entry_path_of(store.root@, id))
            == Some(c),
{
}

/// A second write to an identifier replaces the first entirely.
pub proof fn lemma_overwrite(
    store: PasteStore,
    ns: Map<Seq<char>, Seq<u8>>,
    id: Seq<char>,
    c1: Seq<u8>,
    c2: Seq<u8>,
)
    requires
        valid_identifier(id),
    ensures
        ({
            let l = store.size_limit as nat;
            let ns2 = after_put(after_put(ns, store.root@, l, id, c1), store.root@, l, id, c2);
            lookup(ns2, entry_path_of(store.root@, id)) == Some(truncated(c2, l))
        }),
        c2.len() <= store.size_limit ==> lookup(
            after_put(
                after_put(ns, store.root@, store.size_limit as nat, id, c1),
                store.root@,
                store.size_limit as nat,
                id,
                c2,
            ),
            entry_path_of(store.root@, id),
        ) == Some(c2),
{
}

/// An identifier that no write has named is not found, starting from a
/// namespace without its entry.
pub proof fn lemma_absence(
    store: PasteStore,
    ns: Map<Seq<char>, Seq<u8>>,
    puts: Seq<(Seq<char>, Seq<u8>)>,
    id: Seq<char>,
)
    requires
        valid_identifier(id),
        !ns.contains_key(entry_path_of(store.root@, id)),
        forall|i: int| 0 <= i < puts.len() ==> (#[trigger] puts[i]).0 != id,
    ensures
        lookup(replay(ns, store.root@, store.size_limit as nat, puts), entry_path_of(store.root@, id))
            == None::<Seq<u8>>,
    decreases puts.len(),
{
    if puts.len() > 0 {
        let prefix = puts.drop_last();
        assert forall|i: int| 0 <= i < prefix.len() implies (#[trigger] prefix[i]).0 != id by {
            assert(prefix[i] == puts[i]);
        }
        lemma_absence(store, ns, prefix, id);
        let other = puts.last().0;
        assert(puts[puts.len() - 1].0 != id);
        if entry_path_of(store.root@, other) == entry_path_of(store.root@, id) {
            lemma_join_injective(store.root@, other, id);
        }
    }
}

/// A write never keeps more than the limit: it keeps all of a content that
/// fits and exactly the first `limit` bytes of one that does not.
pub proof fn lemma_size_limit(c: Seq<u8>, limit: nat)
    ensures
        truncated(c, limit).len() <= limit,
        c.len() <= limit ==> truncated(c, limit) == c,
        c.len() > limit ==> truncated(c, limit).len() == limit
            && truncated(c, limit) == c.take(limit as int),
{
}

/// Writes to two different identifiers do not interfere: neither touches a
/// path of the other, and each entry ends with its own content whatever the
/// order in which the two writes complete.
pub proof fn lemma_isolation(
    store: PasteStore,
    ns: Map<Seq<char>, Seq<u8>>,
    a: Seq<char>,
    ca: Seq<u8>,
    m: nat,
    b: Seq<char>,
    cb: Seq<u8>,
    n: nat,
)
    requires
        valid_identifier(a),
        valid_identifier(b),
        a != b,
    ensures
        entry_path_of(store.root@, a) != entry_path_of(store.root@, b),
        temp_path_of(store.root@, a, m) != temp_path_of(store.root@, b, n),
        temp_path_of(store.root@, a, m) != entry_path_of(store.root@, b),
        temp_path_of(store.root@, a, m) != entry_path_of(store.root@, a),
        ({
            let l = store.size_limit as nat;
            let r = store.root@;
            let ab = after_put(after_put(ns, r, l, a, ca), r, l, b, cb);
            let ba = after_put(after_put(ns, r, l, b, cb), r, l, a, ca);
            &&& ab == ba
            &&& lookup(ab, entry_path_of(r, a)) == Some(truncated(ca, l))
            &&& lookup(ab, entry_path_of(r, b)) == Some(truncated(cb, l))
        }),
{
    let r = store.root@;
    if entry_path_of(r, a) == entry_path_of(r, b) {
        lemma_join_injective(r, a, b);
    }
    if temp_path_of(r, a, m) == temp_path_of(r, b, n) {
        lemma_join_injective(r, temp_name_of(a, m), temp_name_of(b, n));
        lemma_temp_name_injective(a, m, b, n);
    }
    lemma_temp_not_entry(r, a, m, b);
    lemma_temp_not_entry(r, a, m, a);
    let l = store.size_limit as nat;
    let ab = after_put(after_put(ns, r, l, a, ca), r, l, b, cb);
    let ba = after_put(after_put(ns, r, l, b, cb), r, l, a, ca);
    assert(ab =~= ba);
}

/// Two writes of one identifier in progress at once with distinct numbers
/// prepare their content in distinct places.
pub proof fn lemma_distinct_temporaries(root: Seq<char>, id: Seq<char>, m: nat, n: nat)
    requires
        m != n,
    ensures
        temp_path_of(root, id, m) != temp_path_of(root, id, n),
{
    if temp_path_of(root, id, m) == temp_path_of(root, id, n) {
        lemma_join_injective(root, temp_name_of(id, m), temp_name_of(id, n));
        lemma_temp_name_injective(id, m, id, n);
    }
}

proof fn lemma_temp_not_entry(root: Seq<char>, a: Seq<char>, m: nat, b: Seq<char>)
    requires
        valid_identifier(b),
    ensures
        temp_path_of(root, a, m) != entry_path_of(root, b),
{
    if temp_path_of(root, a, m) == entry_path_of(root, b) {
        lemma_join_injective(root, temp_name_of(a, m), b);
        assert(temp_name_of(a, m)[0] == '.');
    }
}

} // verus!
