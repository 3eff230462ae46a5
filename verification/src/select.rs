//! The selection engine: from a registry and a filter of vendor/product
//! identifiers to the handles to act on.

use vstd::prelude::*;
use crate::action::ActionKind;
use crate::error::EngineError;
use crate::ident::{texts, Token, UsbId};
use crate::registry::Registry;

verus! {

/// The identifiers that a filter names, as a set.
pub open spec fn filter_set(filter: Seq<UsbId>) -> Set<Seq<char>> {
    texts(filter).to_set()
}

/// The keys of `registry` that `filter` admits and that `handle` is listed
/// under.
pub open spec fn holders(
    registry: Map<Seq<char>, Set<Seq<char>>>,
    filter: Set<Seq<char>>,
    handle: Seq<char>,
) -> Set<Seq<char>> {
    Set::new(
        |id: Seq<char>|
            registry.contains_key(id) && filter.contains(id) && registry[id].contains(handle),
    )
}

/// The handles listed under the keys of `registry` that `filter` admits:
/// the union of their sets.
pub open spec fn selection(
    registry: Map<Seq<char>, Set<Seq<char>>>,
    filter: Set<Seq<char>>,
) -> Set<Seq<char>> {
    Set::new(
        |handle: Seq<char>|
            exists|id: Seq<char>|
                registry.contains_key(id) && filter.contains(id) && registry[id].contains(handle),
    )
}

/// The texts of a run of borrowed tokens, in order.
pub open spec fn ref_texts<T: Token>(tokens: Seq<&T>) -> Seq<Seq<char>> {
    tokens.map_values(|t: &T| t@)
}

/// `handles` is the selection flattened: each handle stands in it once for
/// each admitted key that it is listed under, and nothing else stands in it.
pub open spec fn flattens(
    handles: Seq<Seq<char>>,
    registry: Map<Seq<char>, Set<Seq<char>>>,
    filter: Set<Seq<char>>,
) -> bool {
    forall|handle: Seq<char>| #[trigger]
        handles.to_multiset().count(handle) == holders(registry, filter, handle).len()
}

/// Adds the number of handles under `id` to `sum`.
pub open spec fn add_handles(registry: Map<Seq<char>, Set<Seq<char>>>) -> spec_fn(
    nat,
    Seq<char>,
) -> nat {
    |sum: nat, id: Seq<char>| sum + registry[id].len()
}

/// The keys of `registry` that `filter` admits.
pub open spec fn admitted_keys(
    registry: Map<Seq<char>, Set<Seq<char>>>,
    filter: Set<Seq<char>>,
) -> Set<Seq<char>> {
    registry.dom().filter(|id: Seq<char>| filter.contains(id))
}

/// The number of handles under the keys of `registry` that `filter` admits,
/// key by key: a handle under two keys counts twice.
pub open spec fn handle_total(
    registry: Map<Seq<char>, Set<Seq<char>>>,
    filter: Set<Seq<char>>,
) -> nat {
    admitted_keys(registry, filter).fold(0nat, add_handles(registry))
}

/// What a flattened selection holds: the handles of the selection and no
/// others, and none at all exactly if the selection is empty.
pub proof fn lemma_flattens(
    handles: Seq<Seq<char>>,
    registry: Map<Seq<char>, Set<Seq<char>>>,
    filter: Set<Seq<char>>,
)
    requires
        registry.dom().finite(),
        flattens(handles, registry, filter),
    ensures
        handles.to_set() == selection(registry, filter),
        handles.len() == 0 <==> selection(registry, filter) == Set::<Seq<char>>::empty(),
        filter.disjoint(registry.dom()) ==> handles.len() == 0,
{
    assert forall|h: Seq<char>| handles.to_set().contains(h) == selection(
        registry,
        filter,
    ).contains(h) by {
        let holding = holders(registry, filter, h);
        vstd::set_lib::lemma_set_subset_finite(registry.dom(), holding);
        vstd::seq_lib::to_multiset_contains(handles, h);
        if selection(registry, filter).contains(h) {
            let id = choose|id: Seq<char>|
                registry.contains_key(id) && filter.contains(id) && registry[id].contains(h);
            assert(holding.contains(id));
        } else {
            assert(holding =~= Set::empty());
        }
    }
    if handles.len() == 0 {
        assert(handles.to_set() =~= Set::empty());
    } else {
        assert(handles.to_set().contains(handles[0]));
    }
}

/// Where no handle is listed under two admitted keys, no handle stands twice
/// in the flattened selection: the only duplicates are those of the
/// registry itself.
pub proof fn lemma_flattens_distinct(
    handles: Seq<Seq<char>>,
    registry: Map<Seq<char>, Set<Seq<char>>>,
    filter: Set<Seq<char>>,
)
    requires
        flattens(handles, registry, filter),
        forall|handle: Seq<char>| #[trigger] holders(registry, filter, handle).len() <= 1,
    ensures
        handles.no_duplicates(),
{
    handles.lemma_multiset_has_no_duplicates_conv();
}

/// Whether `id` is named in `filter`.
pub fn names(filter: &Vec<UsbId>, id: &UsbId) -> (named: bool)
    ensures
        named == filter_set(filter@).contains(id@),
{
    let mut i: usize = 0;
    while i < filter.len()
        invariant
            i <= filter.len(),
            forall|k: int| 0 <= k < i ==> texts(filter@)[k] != id@,
        decreases filter.len() - i,
    {
        if filter[i] == *id {
            assert(texts(filter@)[i as int] == id@);
            return true;
        }
        i += 1;
    }
    false
}

/// The part of `holders` that the first `upto` keys of `m` account for.
spec fn holders_before<T: Token>(
    m: &Registry<T>,
    filter: Set<Seq<char>>,
    handle: Seq<char>,
    upto: int,
) -> Set<Seq<char>> {
    Set::new(
        |id: Seq<char>|
            exists|k: int|
                0 <= k < upto && m.keys()[k] == id && filter.contains(id) && m.handles_at(
                    k,
                ).contains(handle),
    )
}

/// Taking one more key into account adds it to the holders where the filter
/// admits it and the handle is listed under it.
proof fn lemma_holders_step<T: Token>(
    m: &Registry<T>,
    filter: Set<Seq<char>>,
    handle: Seq<char>,
    i: int,
)
    requires
        m.wf(),
        0 <= i < m.keys().len(),
    ensures
        holders_before(m, filter, handle, i).finite(),
        !holders_before(m, filter, handle, i).contains(m.keys()[i]),
        holders_before(m, filter, handle, i + 1) == (if filter.contains(m.keys()[i])
            && m.handles_at(i).contains(handle) {
            holders_before(m, filter, handle, i).insert(m.keys()[i])
        } else {
            holders_before(m, filter, handle, i)
        }),
{
    m.lemma_layout();
    vstd::set_lib::lemma_set_subset_finite(
        m.keys().to_set(),
        holders_before(m, filter, handle, i),
    );
}

/// Once every key is taken into account, the holders are those of the view.
proof fn lemma_holders_all<T: Token>(m: &Registry<T>, filter: Set<Seq<char>>, handle: Seq<char>)
    requires
        m.wf(),
    ensures
        holders_before(m, filter, handle, m.keys().len() as int) == holders(m@, filter, handle),
{
    m.lemma_layout();
}

/// The admitted keys among the first `upto` keys of `m`.
spec fn keys_before<T: Token>(m: &Registry<T>, filter: Set<Seq<char>>, upto: int) -> Set<
    Seq<char>,
> {
    Set::new(
        |id: Seq<char>| exists|k: int| 0 <= k < upto && m.keys()[k] == id && filter.contains(id),
    )
}

/// The handles under the admitted keys among the first `upto` keys of `m`.
spec fn total_before<T: Token>(m: &Registry<T>, filter: Set<Seq<char>>, upto: int) -> nat {
    keys_before(m, filter, upto).fold(0nat, add_handles(m@))
}

/// Taking one more key into account adds its handles to the total where the
/// filter admits it.
proof fn lemma_total_step<T: Token>(m: &Registry<T>, filter: Set<Seq<char>>, i: int)
    requires
        m.wf(),
        0 <= i < m.keys().len(),
    ensures
        total_before(m, filter, i + 1) == (if filter.contains(m.keys()[i]) {
            total_before(m, filter, i) + m.handles_at(i).len()
        } else {
            total_before(m, filter, i)
        }),
{
    m.lemma_layout();
    let before = keys_before(m, filter, i);
    let after = keys_before(m, filter, i + 1);
    let key = m.keys()[i];
    vstd::set_lib::lemma_set_subset_finite(m.keys().to_set(), before);
    let expected = if filter.contains(key) {
        before.insert(key)
    } else {
        before
    };
    assert(after =~= expected);
    if filter.contains(key) {
        vstd::set::fold::lemma_fold_insert(before, 0nat, add_handles(m@), key);
        m.handles_at(i).unique_seq_to_set();
    }
}

/// Once every key is taken into account, the total is that of the view.
proof fn lemma_total_all<T: Token>(m: &Registry<T>, filter: Set<Seq<char>>)
    requires
        m.wf(),
    ensures
        total_before(m, filter, m.keys().len() as int) == handle_total(m@, filter),
{
    m.lemma_layout();
    let n = m.keys().len() as int;
    let all = keys_before(m, filter, n);
    assert(all =~= admitted_keys(m@, filter));
}

/// How often `handle` stands in a run without duplicates: once or never.
proof fn lemma_count_once(run: Seq<Seq<char>>, handle: Seq<char>)
    requires
        run.no_duplicates(),
    ensures
        run.to_multiset().count(handle) == (if run.contains(handle) {
            1nat
        } else {
            0nat
        }),
{
    run.lemma_multiset_has_no_duplicates();
    vstd::seq_lib::to_multiset_contains(run, handle);
}

/// The identifiers that an optional filter admits: those it names, or all
/// where there is none.
spec fn admitted(filter: Option<&Vec<UsbId>>) -> Set<Seq<char>> {
    match filter {
        Some(ids) => filter_set(ids@),
        None => Set::full(),
    }
}

/// The handles under the keys that `filter` admits, key by key.
fn gather<'a, T: Token>(m: &'a Registry<T>, filter: Option<&Vec<UsbId>>) -> (handles: Vec<&'a T>)
    ensures
        flattens(ref_texts(handles@), m@, admitted(filter)),
        handles@.len() == handle_total(m@, admitted(filter)),
{
    let ghost allowed = admitted(filter);
    let mut out: Vec<&'a T> = Vec::new();
    let n = m.len();
    let mut i: usize = 0;
    proof {
        use_type_invariant(m);
        assert forall|h: Seq<char>| #[trigger]
            ref_texts(out@).to_multiset().count(h) == holders_before(m, allowed, h, 0).len() by {
            assert(holders_before(m, allowed, h, 0) =~= Set::empty());
            vstd::seq_lib::to_multiset_len(ref_texts(out@));
        }
        assert(keys_before(m, allowed, 0) =~= Set::empty());
        vstd::set::fold::lemma_fold_empty::<Seq<char>, nat>(0nat, add_handles(m@));
    }
    while i < n
        invariant
            i <= n,
            n == m.keys().len(),
            m.wf(),
            allowed == admitted(filter),
            forall|h: Seq<char>| #[trigger]
                ref_texts(out@).to_multiset().count(h) == holders_before(
                    m,
                    allowed,
                    h,
                    i as int,
                ).len(),
            out@.len() == total_before(m, allowed, i as int),
        decreases n - i,
    {
        let ghost before = ref_texts(out@);
        match m.entry(i) {
            Some((id, handles)) => {
                let take = match filter {
                    Some(ids) => names(ids, id),
                    None => true,
                };
                proof {
                    m.lemma_layout();
                    lemma_total_step(m, allowed, i as int);
                }
                if take {
                    let mut j: usize = 0;
                    while j < handles.len()
                        invariant
                            j <= handles.len(),
                            ref_texts(out@) == before + texts(handles@).take(j as int),
                            out@.len() == before.len() + j,
                        decreases handles.len() - j,
                    {
                        let ghost gathered = out@;
                        out.push(&handles[j]);
                        proof {
                            let text = handles@[j as int]@;
                            assert(ref_texts(out@) =~= ref_texts(gathered).push(text));
                        }
                        j += 1;
                    }
                    proof {
                        assert(texts(handles@).take(j as int) =~= texts(handles@));
                        let run = m.handles_at(i as int);
                        vstd::seq_lib::lemma_multiset_commutative(before, run);
                        assert forall|h: Seq<char>| #[trigger]
                            ref_texts(out@).to_multiset().count(h) == holders_before(
                                m,
                                allowed,
                                h,
                                i + 1,
                            ).len() by {
                            lemma_holders_step(m, allowed, h, i as int);
                            lemma_count_once(run, h);
                        }
                    }
                } else {
                    proof {
                        assert forall|h: Seq<char>| #[trigger]
                            ref_texts(out@).to_multiset().count(h) == holders_before(
                                m,
                                allowed,
                                h,
                                i + 1,
                            ).len() by {
                            lemma_holders_step(m, allowed, h, i as int);
                        }
                    }
                }
            },
            None => {},
        }
        i += 1;
    }
    proof {
        assert forall|h: Seq<char>| #[trigger]
            ref_texts(out@).to_multiset().count(h) == holders(m@, allowed, h).len() by {
            lemma_holders_all(m, allowed, h);
        }
        lemma_total_all(m, allowed);
    }
    out
}

/// The handles of every key of `m` that `usb_ids` names. A key that the
/// filter does not name gives nothing, and a name that is no key gives
/// nothing either: where the filter names no key at all the result is empty,
/// which is no error. The order of the result means nothing.
pub fn collect_matching<'a, T: Token>(
    m: &'a Registry<T>,
    usb_ids: &Vec<UsbId>,
) -> (handles: Vec<&'a T>)
    ensures
        flattens(ref_texts(handles@), m@, filter_set(usb_ids@)),
        ref_texts(handles@).to_set() == selection(m@, filter_set(usb_ids@)),
        handles@.len() == handle_total(m@, filter_set(usb_ids@)),
        filter_set(usb_ids@).disjoint(m@.dom()) ==> handles@.len() == 0,
{
    let handles = gather(m, Some(usb_ids));
    proof {
        use_type_invariant(m);
        m.lemma_layout();
        lemma_flattens(ref_texts(handles@), m@, filter_set(usb_ids@));
    }
    handles
}

/// The handles of every key of `m`: the union of all its sets, flattened.
/// The order of the result means nothing.
pub fn all_values<'a, T: Token>(m: &'a Registry<T>) -> (handles: Vec<&'a T>)
    ensures
        flattens(ref_texts(handles@), m@, Set::full()),
        ref_texts(handles@).to_set() == selection(m@, Set::full()),
        handles@.len() == handle_total(m@, Set::full()),
{
    let handles = gather(m, None);
    proof {
        use_type_invariant(m);
        m.lemma_layout();
        lemma_flattens(ref_texts(handles@), m@, Set::full());
    }
    handles
}

/// The identifiers that a command acts on, given the identifiers that the
/// user named. Naming none means all devices for an unbind, an attach and a
/// detach; a bind acts on what was named and on nothing else.
pub open spec fn effective_filter(kind: ActionKind, usb_ids: Seq<UsbId>) -> Set<Seq<char>> {
    if usb_ids.len() == 0 && kind != ActionKind::Bind {
        Set::full()
    } else {
        filter_set(usb_ids)
    }
}

/// The handles that a command of kind `kind` acts on: those of every listed
/// device where the user named no identifier (but for a bind), else those
/// of the devices whose identifier was named. The order of the result means
/// nothing.
pub fn select<'a, T: Token>(
    kind: ActionKind,
    m: &'a Registry<T>,
    usb_ids: &Vec<UsbId>,
) -> (handles: Vec<&'a T>)
    ensures
        flattens(ref_texts(handles@), m@, effective_filter(kind, usb_ids@)),
        ref_texts(handles@).to_set() == selection(m@, effective_filter(kind, usb_ids@)),
        handles@.len() == handle_total(m@, effective_filter(kind, usb_ids@)),
{
    if usb_ids.len() == 0 && kind != ActionKind::Bind {
        all_values(m)
    } else {
        collect_matching(m, usb_ids)
    }
}

/// The handles that a command of kind `kind` acts on, or the error that
/// there are none: a command that finds nothing to act on has failed.
pub fn resolve<'a, T: Token>(
    kind: ActionKind,
    m: &'a Registry<T>,
    usb_ids: &Vec<UsbId>,
) -> (resolved: Result<Vec<&'a T>, EngineError>)
    ensures
        resolved is Err <==> selection(m@, effective_filter(kind, usb_ids@)) == Set::<
            Seq<char>,
        >::empty(),
        resolved matches Ok(handles) ==> handles@.len() > 0,
        resolved matches Ok(handles) ==> flattens(
            ref_texts(handles@),
            m@,
            effective_filter(kind, usb_ids@),
        ),
        resolved matches Ok(handles) ==> ref_texts(handles@).to_set() == selection(
            m@,
            effective_filter(kind, usb_ids@),
        ),
        resolved matches Ok(handles) ==> handles@.len() == handle_total(
            m@,
            effective_filter(kind, usb_ids@),
        ),
        resolved matches Err(error) ==> error == (EngineError::NoMatch {
            ports: kind == ActionKind::Detach,
        }),
{
    let handles = select(kind, m, usb_ids);
    proof {
        use_type_invariant(m);
        m.lemma_layout();
        lemma_flattens(ref_texts(handles@), m@, effective_filter(kind, usb_ids@));
    }
    if handles.len() == 0 {
        Err(EngineError::NoMatch { ports: kind == ActionKind::Detach })
    } else {
        Ok(handles)
    }
}

} // verus!
