//! The model of the specialisation registry: an insertion-ordered list of
//! (layout, operation, helper) entries with at most one entry per key.
use vstd::prelude::*;
use crate::gen_refcount::RefcountOp;
use crate::layout::Layout;
use crate::symbol::Symbol;

verus! {

/// A registered helper: the layout and operation it is for, and its name.
pub type Entry = (Layout, RefcountOp, Symbol);

/// The helper registered for `(layout, op)`, if any.
pub open spec fn lookup(entries: Seq<Entry>, layout: Layout, op: RefcountOp) -> Option<Symbol>
    decreases entries.len(),
{
    if entries.len() == 0 {
        None
    } else if entries[0].0 == layout && entries[0].1 == op {
        Some(entries[0].2)
    } else {
        lookup(entries.drop_first(), layout, op)
    }
}

/// No two entries share a layout and an operation.
pub open spec fn unique_keys(entries: Seq<Entry>) -> bool {
    forall|i: int, j: int|
        0 <= i < j < entries.len() ==> !(#[trigger] entries[i].0 == #[trigger] entries[j].0
            && entries[i].1 == entries[j].1)
}

/// The registry after a request for `(layout, op)` that would name a new
/// helper `fresh`.
pub open spec fn register(entries: Seq<Entry>, layout: Layout, op: RefcountOp, fresh: Symbol) -> Seq<
    Entry,
> {
    if lookup(entries, layout, op) is Some {
        entries
    } else {
        entries.push((layout, op, fresh))
    }
}

/// The helper that a request for `(layout, op)` calls: the registered one,
/// else the new one `fresh`.
pub open spec fn helper_for(entries: Seq<Entry>, layout: Layout, op: RefcountOp, fresh: Symbol) -> Symbol {
    match lookup(entries, layout, op) {
        Some(s) => s,
        None => fresh,
    }
}

/// The key of an entry.
pub open spec fn key_of(e: Entry) -> (Layout, RefcountOp) {
    (e.0, e.1)
}

/// Looking up a key finds the first entry with that key.
pub proof fn lemma_lookup_first(entries: Seq<Entry>, layout: Layout, op: RefcountOp)
    ensures
        lookup(entries, layout, op) is Some <==> exists|i: int|
            0 <= i < entries.len() && #[trigger] key_of(entries[i]) == (layout, op),
        lookup(entries, layout, op) matches Some(s) ==> exists|i: int|
            0 <= i < entries.len() && #[trigger] key_of(entries[i]) == (layout, op) && entries[i].2
                == s,
    decreases entries.len(),
{
    if entries.len() > 0 {
        let rest = entries.drop_first();
        lemma_lookup_first(rest, layout, op);
        if lookup(rest, layout, op) is Some {
            let i = choose|i: int| 0 <= i < rest.len() && #[trigger] key_of(rest[i]) == (layout, op);
            assert(key_of(entries[i + 1]) == (layout, op));
        }
        if exists|i: int| 0 <= i < entries.len() && #[trigger] key_of(entries[i]) == (layout, op) {
            let i = choose|i: int|
                0 <= i < entries.len() && #[trigger] key_of(entries[i]) == (layout, op);
            if i > 0 {
                assert(key_of(rest[i - 1]) == (layout, op));
            }
        }
        if lookup(entries, layout, op) is Some && !(entries[0].0 == layout && entries[0].1 == op) {
            let s = lookup(rest, layout, op)->Some_0;
            let i = choose|i: int|
                0 <= i < rest.len() && #[trigger] key_of(rest[i]) == (layout, op) && rest[i].2 == s;
            assert(key_of(entries[i + 1]) == (layout, op) && entries[i + 1].2 == s);
        }
        if entries[0].0 == layout && entries[0].1 == op {
            assert(key_of(entries[0]) == (layout, op));
        }
    }
}

/// Registering keeps keys unique.
pub proof fn lemma_register_unique(entries: Seq<Entry>, layout: Layout, op: RefcountOp, fresh: Symbol)
    requires
        unique_keys(entries),
    ensures
        unique_keys(register(entries, layout, op, fresh)),
        lookup(register(entries, layout, op, fresh), layout, op) == Some(
            helper_for(entries, layout, op, fresh),
        ),
{
    lemma_lookup_first(entries, layout, op);
    let r = register(entries, layout, op, fresh);
    if lookup(entries, layout, op) is None {
        assert forall|i: int, j: int|
            0 <= i < j < r.len() implies !(#[trigger] r[i].0 == #[trigger] r[j].0 && r[i].1
            == r[j].1) by {
            if j == entries.len() {
                assert(key_of(entries[i]) != (layout, op));
            }
        }
        lemma_lookup_push(entries, (layout, op, fresh));
    }
}

/// Looking up the key of an entry pushed after entries without that key finds it.
proof fn lemma_lookup_push(entries: Seq<Entry>, e: Entry)
    requires
        lookup(entries, e.0, e.1) is None,
    ensures
        lookup(entries.push(e), e.0, e.1) == Some(e.2),
    decreases entries.len(),
{
    if entries.len() > 0 {
        assert(entries.push(e).drop_first() =~= entries.drop_first().push(e));
        lemma_lookup_push(entries.drop_first(), e);
    } else {
        assert(entries.push(e).drop_first() =~= Seq::<Entry>::empty());
    }
}

/// No two entries name the same helper.
pub open spec fn distinct_symbols(entries: Seq<Entry>) -> bool {
    forall|i: int, j: int| 0 <= i < j < entries.len() ==> #[trigger] entries[i].2 != #[trigger] entries[j].2
}

/// Registering a symbol that no entry has keeps the symbols distinct.
pub proof fn lemma_register_distinct(entries: Seq<Entry>, layout: Layout, op: RefcountOp, fresh: Symbol)
    requires
        distinct_symbols(entries),
        forall|i: int| 0 <= i < entries.len() ==> #[trigger] entries[i].2 != fresh,
    ensures
        distinct_symbols(register(entries, layout, op, fresh)),
{
}

/// The registry after a series of requests, each a layout, an operation and
/// the symbol that a new helper would get at that point. Each expansion of
/// an `Inc` or `Dec` moves the registry by `register`, so a series of them
/// moves it by `after_requests`.
pub open spec fn after_requests(entries: Seq<Entry>, reqs: Seq<Entry>) -> Seq<Entry>
    decreases reqs.len(),
{
    if reqs.len() == 0 {
        entries
    } else {
        let q = reqs.last();
        register(after_requests(entries, reqs.drop_last()), q.0, q.1, q.2)
    }
}

/// The helper that the `k`-th of a series of requests calls.
pub open spec fn helper_of_request(entries: Seq<Entry>, reqs: Seq<Entry>, k: int) -> Symbol {
    helper_for(after_requests(entries, reqs.take(k)), reqs[k].0, reqs[k].1, reqs[k].2)
}

/// The keys of the entries, in order.
pub open spec fn keys(entries: Seq<Entry>) -> Seq<(Layout, RefcountOp)> {
    entries.map_values(|e: Entry| key_of(e))
}

/// The distinct items of `s`, in the order of their first occurrence.
pub open spec fn first_occurrences(s: Seq<(Layout, RefcountOp)>) -> Seq<(Layout, RefcountOp)>
    decreases s.len(),
{
    if s.len() == 0 {
        s
    } else {
        let prev = first_occurrences(s.drop_last());
        if prev.contains(s.last()) {
            prev
        } else {
            prev.push(s.last())
        }
    }
}

/// Any number of requests for one layout and operation register one helper,
/// as the first request alone does, and every request calls that helper.
pub proof fn lemma_idempotent_specialization(
    entries: Seq<Entry>,
    layout: Layout,
    op: RefcountOp,
    reqs: Seq<Entry>,
)
    requires
        unique_keys(entries),
        reqs.len() > 0,
        forall|k: int| 0 <= k < reqs.len() ==> #[trigger] reqs[k].0 == layout && reqs[k].1 == op,
    ensures
        after_requests(entries, reqs) == register(entries, layout, op, reqs[0].2),
        unique_keys(after_requests(entries, reqs)),
        lookup(after_requests(entries, reqs), layout, op) == Some(
            helper_for(entries, layout, op, reqs[0].2),
        ),
        forall|k: int|
            0 <= k < reqs.len() ==> #[trigger] helper_of_request(entries, reqs, k) == helper_for(
                entries,
                layout,
                op,
                reqs[0].2,
            ),
    decreases reqs.len(),
{
    lemma_register_unique(entries, layout, op, reqs[0].2);
    let first = register(entries, layout, op, reqs[0].2);
    let prev = reqs.drop_last();
    if reqs.len() == 1 {
        assert(reqs.take(0) =~= Seq::<Entry>::empty());
        assert(reqs.drop_last() =~= Seq::<Entry>::empty());
        assert(after_requests(entries, reqs.drop_last()) == entries);
        assert(reqs[0].0 == layout && reqs[0].1 == op);
    } else {
        lemma_idempotent_specialization(entries, layout, op, prev);
        assert(prev[0] == reqs[0]);
        assert(reqs[reqs.len() - 1].0 == layout && reqs[reqs.len() - 1].1 == op);
        assert(after_requests(entries, reqs) == register(first, layout, op, reqs.last().2));
        assert forall|k: int| 0 <= k < reqs.len() implies #[trigger] helper_of_request(
            entries,
            reqs,
            k,
        ) == helper_for(entries, layout, op, reqs[0].2) by {
            if k < reqs.len() - 1 {
                assert(reqs.take(k) =~= prev.take(k));
                assert(helper_of_request(entries, prev, k) == helper_of_request(entries, reqs, k));
            } else {
                assert(reqs.take(k) =~= prev);
            }
        }
    }
}

/// Pushing an entry keeps what an existing key looks up.
proof fn lemma_lookup_push_other(entries: Seq<Entry>, e: Entry, layout: Layout, op: RefcountOp)
    requires
        lookup(entries, layout, op) is Some,
    ensures
        lookup(entries.push(e), layout, op) == lookup(entries, layout, op),
    decreases entries.len(),
{
    if entries.len() > 0 {
        assert(entries.push(e).drop_first() =~= entries.drop_first().push(e));
        if !(entries[0].0 == layout && entries[0].1 == op) {
            lemma_lookup_push_other(entries.drop_first(), e, layout, op);
        }
    }
}

/// Over any series of requests, interleaved across keys, each key keeps at
/// most one entry, and every request calls the helper that ends up
/// registered for its layout and operation: requests for one pair all call
/// one helper.
pub proof fn lemma_requests_share_helpers(entries: Seq<Entry>, reqs: Seq<Entry>)
    requires
        unique_keys(entries),
    ensures
        unique_keys(after_requests(entries, reqs)),
        forall|k: int|
            0 <= k < reqs.len() ==> lookup(after_requests(entries, reqs), reqs[k].0, reqs[k].1)
                == Some(#[trigger] helper_of_request(entries, reqs, k)),
    decreases reqs.len(),
{
    if reqs.len() > 0 {
        let prev = reqs.drop_last();
        let q = reqs.last();
        lemma_requests_share_helpers(entries, prev);
        let before = after_requests(entries, prev);
        lemma_register_unique(before, q.0, q.1, q.2);
        assert forall|k: int| 0 <= k < reqs.len() implies lookup(
            after_requests(entries, reqs),
            reqs[k].0,
            reqs[k].1,
        ) == Some(#[trigger] helper_of_request(entries, reqs, k)) by {
            if k < reqs.len() - 1 {
                assert(reqs.take(k) =~= prev.take(k));
                assert(prev[k] == reqs[k]);
                assert(helper_of_request(entries, prev, k) == helper_of_request(entries, reqs, k));
                if lookup(before, q.0, q.1) is None {
                    lemma_lookup_push_other(before, (q.0, q.1, q.2), reqs[k].0, reqs[k].1);
                }
            } else {
                assert(reqs.take(k) =~= prev);
            }
        }
    }
}

/// The keys of a list of entries contain a key exactly where looking it up succeeds.
proof fn lemma_lookup_keys(entries: Seq<Entry>, layout: Layout, op: RefcountOp)
    ensures
        lookup(entries, layout, op) is Some <==> keys(entries).contains((layout, op)),
{
    lemma_lookup_first(entries, layout, op);
    if keys(entries).contains((layout, op)) {
        let i = choose|i: int| 0 <= i < keys(entries).len() && keys(entries)[i] == (layout, op);
        assert(key_of(entries[i]) == (layout, op));
    }
    if lookup(entries, layout, op) is Some {
        let i = choose|i: int| 0 <= i < entries.len() && #[trigger] key_of(entries[i]) == (layout, op);
        assert(keys(entries)[i] == (layout, op));
    }
}

/// Starting from an empty registry, the registered keys are the requested
/// ones, each once, in the order in which they were first requested.
pub proof fn lemma_order_preserved(reqs: Seq<Entry>)
    ensures
        keys(after_requests(Seq::empty(), reqs)) == first_occurrences(keys(reqs)),
    decreases reqs.len(),
{
    if reqs.len() == 0 {
        assert(keys(reqs) =~= Seq::<(Layout, RefcountOp)>::empty());
        assert(keys(Seq::<Entry>::empty()) =~= Seq::<(Layout, RefcountOp)>::empty());
    } else {
        let prev = reqs.drop_last();
        let q = reqs.last();
        lemma_order_preserved(prev);
        assert(keys(reqs).drop_last() =~= keys(prev));
        assert(keys(reqs).last() == (q.0, q.1));
        let before = after_requests(Seq::empty(), prev);
        lemma_lookup_keys(before, q.0, q.1);
        if lookup(before, q.0, q.1) is None {
            assert(keys(before.push(q)) =~= keys(before).push((q.0, q.1)));
        }
    }
}

} // verus!
