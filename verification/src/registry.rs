//! The registry: which handles each vendor/product identifier was listed
//! with.

use vstd::prelude::*;
use vstd::std_specs::cmp::PartialEqSpecImpl;
use crate::ident::{texts, Token, UsbId};
use crate::pattern::captured_from;
use crate::text::contains_text;

verus! {

/// `registry` after `handle` was listed under `id`: the set of `id` gains
/// `handle`, and is made first where `id` was not yet a key.
pub open spec fn registry_insert(
    registry: Map<Seq<char>, Set<Seq<char>>>,
    id: Seq<char>,
    handle: Seq<char>,
) -> Map<Seq<char>, Set<Seq<char>>> {
    registry.insert(
        id,
        if registry.contains_key(id) {
            registry[id].insert(handle)
        } else {
            set![handle]
        },
    )
}

/// The registry that a run of captured pairs folds into. A pair holds what
/// one match captured: the handle first, the identifier second. A pair that
/// lacks either is no device line and counts for nothing. The handles of an
/// identifier are those captured together with it.
pub open spec fn registry_of(pairs: Seq<(Option<Seq<char>>, Option<Seq<char>>)>) -> Map<
    Seq<char>,
    Set<Seq<char>>,
> {
    Map::new(
        |id: Seq<char>| exists|handle: Seq<char>| pairs.contains((Some(handle), Some(id))),
        |id: Seq<char>| Set::new(|handle: Seq<char>| pairs.contains((Some(handle), Some(id)))),
    )
}

/// Every identifier and every handle of `registry` stands in `text`,
/// character for character.
pub open spec fn drawn_from(registry: Map<Seq<char>, Set<Seq<char>>>, text: Seq<char>) -> bool {
    forall|id: Seq<char>, handle: Seq<char>|
        registry.contains_key(id) && #[trigger] registry[id].contains(handle) ==> contains_text(
            text,
            id,
        ) && contains_text(text, handle)
}

/// A registry folded from pairs that were captured from a text is drawn
/// from that text.
pub proof fn lemma_registry_of_drawn_from(
    pairs: Seq<(Option<Seq<char>>, Option<Seq<char>>)>,
    text: Seq<char>,
)
    requires
        forall|i: int| 0 <= i < pairs.len() ==> captured_from(#[trigger] pairs[i], text),
    ensures
        drawn_from(registry_of(pairs), text),
{
}

/// No pairs fold into the registry without keys.
pub proof fn lemma_registry_of_empty()
    ensures
        registry_of(Seq::empty()) == Map::<Seq<char>, Set<Seq<char>>>::empty(),
{
}

/// Folding one more pair lists its handle under its identifier where it
/// holds both, and changes nothing where it does not.
pub proof fn lemma_registry_of_push(
    pairs: Seq<(Option<Seq<char>>, Option<Seq<char>>)>,
    pair: (Option<Seq<char>>, Option<Seq<char>>),
)
    ensures
        registry_of(pairs.push(pair)) == (match pair {
            (Some(handle), Some(id)) => registry_insert(registry_of(pairs), id, handle),
            _ => registry_of(pairs),
        }),
{
    let grown = pairs.push(pair);
    let expected = match pair {
        (Some(handle), Some(id)) => registry_insert(registry_of(pairs), id, handle),
        _ => registry_of(pairs),
    };
    assert forall|p: (Option<Seq<char>>, Option<Seq<char>>)|
        grown.contains(p) <==> pairs.contains(p) || p == pair by {
        if pairs.contains(p) {
            let i = choose|i: int| 0 <= i < pairs.len() && pairs[i] == p;
            assert(grown[i] == p);
        }
        if p == pair {
            assert(grown[pairs.len() as int] == p);
        }
    }
    assert forall|id: Seq<char>| #[trigger]
        registry_of(grown).contains_key(id) == expected.contains_key(id) by {
        if expected.contains_key(id) && !registry_of(pairs).contains_key(id) {
            assert(grown.contains(pair));
        }
    }
    assert forall|id: Seq<char>| #[trigger]
        registry_of(grown).contains_key(id) implies registry_of(grown)[id] =~= expected[id] by {
    }
}

/// The order of the pairs does not matter, nor how often a pair occurs: two
/// runs that hold the same pairs fold into the same registry.
pub proof fn lemma_registry_of_same_pairs(
    first: Seq<(Option<Seq<char>>, Option<Seq<char>>)>,
    second: Seq<(Option<Seq<char>>, Option<Seq<char>>)>,
)
    requires
        first.to_set() == second.to_set(),
    ensures
        registry_of(first) == registry_of(second),
{
    assert forall|p: (Option<Seq<char>>, Option<Seq<char>>)|
        first.contains(p) == second.contains(p) by {
        assert(second.to_set().contains(p) == second.contains(p));
    }
    assert forall|id: Seq<char>| #[trigger]
        registry_of(first).contains_key(id) implies registry_of(first)[id] =~= registry_of(
        second,
    )[id] by {}
}

/// Listing a handle under an identifier a second time changes nothing.
pub proof fn lemma_insert_twice(
    registry: Map<Seq<char>, Set<Seq<char>>>,
    id: Seq<char>,
    handle: Seq<char>,
)
    ensures
        registry_insert(registry_insert(registry, id, handle), id, handle) == registry_insert(
            registry,
            id,
            handle,
        ),
{
    let once = registry_insert(registry, id, handle);
    assert(once[id].insert(handle) =~= once[id]);
}

/// Every key of a folded registry has a handle, and finitely many.
pub proof fn lemma_registry_of_sets(pairs: Seq<(Option<Seq<char>>, Option<Seq<char>>)>)
    ensures
        registry_of(pairs).dom().finite(),
        forall|id: Seq<char>| #[trigger]
            registry_of(pairs).contains_key(id) ==> registry_of(pairs)[id].finite()
                && registry_of(pairs)[id].len() > 0,
    decreases pairs.len(),
{
    if pairs.len() == 0 {
        assert(registry_of(pairs).dom() =~= Set::empty());
    } else {
        let rest = pairs.drop_last();
        lemma_registry_of_sets(rest);
        lemma_registry_of_push(rest, pairs.last());
        assert(rest.push(pairs.last()) =~= pairs);
    }
}

/// A vendor/product identifier together with the handle that one line of a
/// listing gave for it. It lives only while the listing is scanned.
#[derive(Debug, Clone)]
pub struct IdPair<T: Token> {
    pub usb_id: UsbId,
    pub handle: T,
}

impl<T: Token> IdPair<T> {
    /// The pair that a match stands for, if it captured both a handle and an
    /// identifier.
    pub fn from_capture(handle: Option<String>, usb_id: Option<String>) -> (pair: Option<Self>)
        ensures
            pair is Some == (handle is Some && usb_id is Some),
            pair matches Some(p) ==> p.handle@ == handle->0@ && p.usb_id@ == usb_id->0@,
    {
        match (handle, usb_id) {
            (Some(h), Some(u)) => Some(IdPair { usb_id: UsbId(u), handle: T::from_text(h) }),
            _ => None,
        }
    }
}

/// One key of a registry with the handles listed under it.
#[derive(Debug)]
struct Entry<T: Token> {
    id: UsbId,
    handles: Vec<T>,
}

/// A mapping from vendor/product identifier to the set of handles (bus
/// identifiers or ports) of the devices that carry it. It is built from one
/// listing and only queried afterwards.
///
/// The view is the mapping itself: a `Map` from the identifier's text to the
/// set of the handles' texts. Every key has at least one handle.
#[derive(Debug)]
pub struct Registry<T: Token> {
    entries: Vec<Entry<T>>,
}

/// The index of the entry whose key is `id`, if there is one.
spec fn position<T: Token>(entries: Seq<Entry<T>>, id: Seq<char>) -> Option<int> {
    if exists|i: int| 0 <= i < entries.len() && entries[i].id@ == id {
        Some(choose|i: int| 0 <= i < entries.len() && entries[i].id@ == id)
    } else {
        None
    }
}

/// No key stands twice, and under each key stands at least one handle and
/// none twice.
spec fn entries_wf<T: Token>(entries: Seq<Entry<T>>) -> bool {
    &&& forall|i: int, j: int| 0 <= i < j < entries.len() ==> entries[i].id@ != entries[j].id@
    &&& forall|i: int|
        0 <= i < entries.len() ==> {
            &&& (#[trigger] entries[i]).handles.len() > 0
            &&& texts(entries[i].handles@).no_duplicates()
        }
}

/// The mapping that the entries stand for.
spec fn entries_view<T: Token>(entries: Seq<Entry<T>>) -> Map<Seq<char>, Set<Seq<char>>> {
    Map::new(
        |id: Seq<char>| position(entries, id) is Some,
        |id: Seq<char>| texts(entries[position(entries, id)->0].handles@).to_set(),
    )
}

/// The view of well-formed entries, entry by entry.
proof fn lemma_entries_view<T: Token>(entries: Seq<Entry<T>>)
    requires
        entries_wf(entries),
    ensures
        forall|id: Seq<char>| #[trigger]
            entries_view(entries).contains_key(id) <==> exists|i: int|
                0 <= i < entries.len() && entries[i].id@ == id,
        forall|i: int|
            0 <= i < entries.len() ==> entries_view(entries).contains_key(
                (#[trigger] entries[i]).id@,
            ) && entries_view(entries)[entries[i].id@] == texts(entries[i].handles@).to_set(),
{
}

/// The index of the entry whose key is `id`.
fn find<T: Token>(entries: &Vec<Entry<T>>, id: &UsbId) -> (found: Option<usize>)
    ensures
        found is Some == entries_view(entries@).contains_key(id@),
        found matches Some(i) ==> i < entries.len() && entries[i as int].id@ == id@,
{
    let mut i: usize = 0;
    while i < entries.len()
        invariant
            i <= entries.len(),
            forall|k: int| 0 <= k < i ==> entries[k].id@ != id@,
        decreases entries.len() - i,
    {
        if entries[i].id == *id {
            return Some(i);
        }
        i += 1;
    }
    None
}

/// Lists `handle` under `id` among `entries`.
fn insert_entry<T: Token>(entries: &mut Vec<Entry<T>>, id: UsbId, handle: T)
    requires
        entries_wf(old(entries)@),
    ensures
        entries_wf(final(entries)@),
        entries_view(final(entries)@) == registry_insert(
            entries_view(old(entries)@),
            id@,
            handle@,
        ),
{
    let ghost before = entries@;
    let ghost after_view = registry_insert(entries_view(before), id@, handle@);
    match find(entries, &id) {
        Some(i) => {
            if !holds(&entries[i].handles, &handle) {
                entries[i].handles.push(handle);
                proof {
                    let now = entries@;
                    let grown = before[i as int].handles@.push(handle);
                    assert(texts(grown) =~= texts(before[i as int].handles@).push(handle@));
                    texts(before[i as int].handles@).lemma_push_to_set_commute(handle@);
                    assert forall|k: Seq<char>| #[trigger]
                        after_view.contains_key(k) implies entries_view(now).contains_key(k) by {
                        let j = choose|j: int| 0 <= j < before.len() && before[j].id@ == k;
                        assert(now[j].id@ == k);
                    }
                }
            } else {
                assert(entries_view(before)[id@].insert(handle@) =~= entries_view(before)[id@]);
            }
        },
        None => {
            let mut handles: Vec<T> = Vec::new();
            handles.push(handle);
            entries.push(Entry { id, handles });
            proof {
                let now = entries@;
                let n = before.len() as int;
                assert(texts(now[n].handles@) =~= seq![handle@]);
                lemma_singleton_to_set(handle@);
                assert forall|k: Seq<char>| #[trigger]
                    after_view.contains_key(k) implies entries_view(now).contains_key(k) by {
                    if k != id@ {
                        let j = choose|j: int| 0 <= j < before.len() && before[j].id@ == k;
                        assert(now[j].id@ == k);
                    }
                }
            }
        },
    }
}

impl<T: Token> View for Registry<T> {
    type V = Map<Seq<char>, Set<Seq<char>>>;

    closed spec fn view(&self) -> Map<Seq<char>, Set<Seq<char>>> {
        entries_view(self.entries@)
    }
}

impl<T: Token> Registry<T> {
    /// What holds of every registry: no key stands twice, and under each key
    /// stands at least one handle and none twice.
    #[verifier::type_invariant]
    pub closed spec fn wf(&self) -> bool {
        entries_wf(self.entries@)
    }

    /// The keys, in the order in which the listing first gave them.
    pub closed spec fn keys(&self) -> Seq<Seq<char>> {
        self.entries@.map_values(|e: Entry<T>| e.id@)
    }

    /// The handles under the key at `i`, in the order in which the listing
    /// first gave them.
    pub closed spec fn handles_at(&self, i: int) -> Seq<Seq<char>> {
        texts(self.entries[i].handles@)
    }

    /// How the view is laid out: the keys are its domain, each once, and the
    /// handles at a key are the set under it, each once and at least one.
    pub proof fn lemma_layout(&self)
        requires
            self.wf(),
        ensures
            self.keys().no_duplicates(),
            self.keys().to_set() == self@.dom(),
            self@.dom().finite(),
            self@.dom().len() == self.keys().len(),
            forall|i: int|
                0 <= i < self.keys().len() ==> self@[#[trigger] self.keys()[i]]
                    == self.handles_at(i).to_set(),
            forall|i: int|
                0 <= i < self.keys().len() ==> (#[trigger] self.handles_at(i)).no_duplicates()
                    && self.handles_at(i).len() > 0,
    {
        let keys = self.keys();
        assert forall|id: Seq<char>| keys.to_set().contains(id) == self@.dom().contains(id) by {
            if self@.dom().contains(id) {
                let i = choose|i: int| 0 <= i < self.entries.len() && self.entries[i].id@ == id;
                assert(keys[i] == id);
            }
        }
        assert(keys.to_set() =~= self@.dom());
        keys.unique_seq_to_set();
    }

    /// The number of keys.
    pub fn len(&self) -> (n: usize)
        ensures
            n == self@.dom().len(),
            n == self.keys().len(),
    {
        proof {
            use_type_invariant(self);
            self.lemma_layout();
        }
        self.entries.len()
    }

    /// Whether the registry has no key: the listing showed no device.
    pub fn is_empty(&self) -> (empty: bool)
        ensures
            empty == (self@ == Map::<Seq<char>, Set<Seq<char>>>::empty()),
    {
        proof {
            use_type_invariant(self);
            self.lemma_layout();
            if self.entries.len() == 0 {
                assert(self@ =~= Map::<Seq<char>, Set<Seq<char>>>::empty());
            }
        }
        self.entries.len() == 0
    }

    /// The key at `i` with the handles under it, for `i` below the number of
    /// keys.
    pub fn entry(&self, i: usize) -> (entry: Option<(&UsbId, &Vec<T>)>)
        ensures
            entry is Some == (i < self.keys().len()),
            entry matches Some((id, handles)) ==> id@ == self.keys()[i as int] && texts(handles@)
                == self.handles_at(i as int),
    {
        if i < self.entries.len() {
            Some((&self.entries[i].id, &self.entries[i].handles))
        } else {
            None
        }
    }

    /// The handles listed under `id`, each once, if `id` is a key.
    pub fn get(&self, id: &UsbId) -> (handles: Option<&Vec<T>>)
        ensures
            handles is Some == self@.contains_key(id@),
            handles matches Some(found) ==> texts(found@).to_set() == self@[id@] && texts(
                found@,
            ).no_duplicates() && found@.len() > 0,
    {
        proof {
            use_type_invariant(self);
        }
        match find(&self.entries, id) {
            Some(i) => Some(&self.entries[i].handles),
            None => None,
        }
    }

    /// Whether `self` and `other` hold the same keys with the same set of
    /// handles under each. The order in which the listings gave them does
    /// not count.
    pub fn same_contents(&self, other: &Self) -> (same: bool)
        ensures
            same == (self@ == other@),
    {
        proof {
            use_type_invariant(self);
            use_type_invariant(other);
            self.lemma_layout();
            other.lemma_layout();
        }
        if self.entries.len() != other.entries.len() {
            return false;
        }
        let mut i: usize = 0;
        while i < self.entries.len()
            invariant
                i <= self.entries.len(),
                self.wf(),
                other.wf(),
                forall|k: int|
                    0 <= k < i ==> other@.contains_key((#[trigger] self.keys()[k]))
                        && other@[self.keys()[k]] == self@[self.keys()[k]],
            decreases self.entries.len() - i,
        {
            proof {
                lemma_entries_view(other.entries@);
            }
            match find(&other.entries, &self.entries[i].id) {
                None => return false,
                Some(j) => {
                    let mine = &self.entries[i].handles;
                    let theirs = &other.entries[j].handles;
                    proof {
                        texts(mine@).unique_seq_to_set();
                        texts(theirs@).unique_seq_to_set();
                    }
                    if mine.len() != theirs.len() {
                        return false;
                    }
                    if !within(mine, theirs) {
                        return false;
                    }
                    proof {
                        vstd::set_lib::lemma_subset_equality(
                            texts(mine@).to_set(),
                            texts(theirs@).to_set(),
                        );
                    }
                },
            }
            i += 1;
        }
        proof {
            vstd::set_lib::lemma_subset_equality(self@.dom(), other@.dom());
            assert(self@ =~= other@);
        }
        true
    }

    /// The registry without any key.
    pub fn new() -> (registry: Self)
        ensures
            registry@ == Map::<Seq<char>, Set<Seq<char>>>::empty(),
    {
        Registry { entries: Vec::new() }
    }

    /// Lists `handle` under `id`. A handle that already stands under `id`
    /// is not listed again.
    pub fn insert(&mut self, id: UsbId, handle: T)
        ensures
            final(self)@ == registry_insert(old(self)@, id@, handle@),
    {
        proof {
            use_type_invariant(&*self);
        }
        let mut entries: Vec<Entry<T>> = Vec::new();
        core::mem::swap(&mut self.entries, &mut entries);
        insert_entry(&mut entries, id, handle);
        self.entries = entries;
    }

    /// Folds the pairs that a scan captured into a registry: each pair that
    /// holds both a handle and an identifier lists that handle under that
    /// identifier; the others are passed over.
    pub fn from_captures(captures: Vec<(Option<String>, Option<String>)>) -> (registry: Self)
        ensures
            registry@ == registry_of(captures.deep_view()),
    {
        let ghost pairs = captures.deep_view();
        let mut registry = Self::new();
        for capture in it: captures
            invariant
                it.seq().len() == pairs.len(),
                forall|k: int|
                    0 <= k < pairs.len() ==> (#[trigger] it.seq()[k]).deep_view() == pairs[k],
                registry@ == registry_of(pairs.take(it.index() as int)),
        {
            proof {
                let done = it.index() as int;
                assert(pairs.take(done + 1) =~= pairs.take(done).push(pairs[done]));
                lemma_registry_of_push(pairs.take(done), pairs[done]);
            }
            let (handle, usb_id) = capture;
            match IdPair::<T>::from_capture(handle, usb_id) {
                Some(pair) => {
                    registry.insert(pair.usb_id, pair.handle);
                },
                None => {},
            }
        }
        assert(pairs.take(pairs.len() as int) =~= pairs);
        registry
    }
}

impl<T: Token> PartialEq for Registry<T> {
    /// Two registries are equal if they hold the same mapping.
    fn eq(&self, other: &Self) -> (equal: bool) {
        self.same_contents(other)
    }
}

impl<T: Token> PartialEqSpecImpl for Registry<T> {
    open spec fn obeys_eq_spec() -> bool {
        true
    }

    open spec fn eq_spec(&self, other: &Self) -> bool {
        self@ == other@
    }
}

/// The set of a sequence of one element holds that element and no other.
pub proof fn lemma_singleton_to_set<A>(a: A)
    ensures
        seq![a].to_set() == set![a],
{
    assert(seq![a][0] == a);
}

/// Whether the text of every token of `part` is the text of a token of
/// `whole`.
fn within<T: Token>(part: &Vec<T>, whole: &Vec<T>) -> (all: bool)
    ensures
        all == texts(part@).to_set().subset_of(texts(whole@).to_set()),
{
    let mut i: usize = 0;
    while i < part.len()
        invariant
            i <= part.len(),
            forall|k: int| 0 <= k < i ==> texts(whole@).contains(#[trigger] texts(part@)[k]),
        decreases part.len() - i,
    {
        if !holds(whole, &part[i]) {
            proof {
                let text = texts(part@)[i as int];
                assert(!texts(whole@).to_set().contains(text));
            }
            return false;
        }
        i += 1;
    }
    true
}

/// Whether a token with the text of `handle` stands in `handles`.
fn holds<T: Token>(handles: &Vec<T>, handle: &T) -> (found: bool)
    ensures
        found == texts(handles@).contains(handle@),
{
    let mut i: usize = 0;
    while i < handles.len()
        invariant
            i <= handles.len(),
            forall|k: int| 0 <= k < i ==> texts(handles@)[k] != handle@,
        decreases handles.len() - i,
    {
        if handles[i].same_text(handle) {
            assert(texts(handles@)[i as int] == handle@);
            return true;
        }
        i += 1;
    }
    false
}

} // verus!
