//! Extension negotiation: each side declares, once, the capabilities it
//! implements, each backed by the data partition that matches the thread
//! class of its calls; the other side queries them by identifier.
use vstd::prelude::*;

verus! {

/// Where an extension's calls may come from.
#[derive(Clone, Copy, Debug, PartialEq, Eq, Structural)]
pub enum ThreadClass {
    /// From any thread, concurrently: the implementation must be thread-safe.
    AnyThread,
    /// Only from the instance's main thread.
    MainThread,
    /// Only from the thread driving the process call, while processing.
    AudioThread,
}

/// The three data partitions of an instance.
#[derive(Clone, Copy, Debug, PartialEq, Eq, Structural)]
pub enum Partition {
    /// Reachable from any thread; synchronises its own mutable state.
    Shared,
    /// Reachable from the main thread only.
    MainThread,
    /// Reachable from the audio thread only, while the processor is active.
    AudioProcessor,
}

/// Whether data of partition `p` may back calls of class `c`.
pub open spec fn partition_serves(p: Partition, c: ThreadClass) -> bool {
    match c {
        ThreadClass::AnyThread => p == Partition::Shared,
        ThreadClass::MainThread => p == Partition::MainThread,
        ThreadClass::AudioThread => p == Partition::AudioProcessor,
    }
}

/// The partition whose data backs calls of class `c`.
pub fn partition_for(c: ThreadClass) -> (r: Partition)
    ensures
        partition_serves(r, c),
        forall|p: Partition| partition_serves(p, c) ==> p == r,
{
    match c {
        ThreadClass::AnyThread => Partition::Shared,
        ThreadClass::MainThread => Partition::MainThread,
        ThreadClass::AudioThread => Partition::AudioProcessor,
    }
}

/// Byte-wise equality of two identifiers.
fn same_identifier(a: &[u8], b: &[u8]) -> (r: bool)
    ensures
        r == (a@ == b@),
{
    if a.len() != b.len() {
        return false;
    }
    let mut i: usize = 0;
    while i < a.len()
        invariant
            a@.len() == b@.len(),
            i <= a@.len(),
            forall|j: int| 0 <= j < i ==> a@[j] == b@[j],
        decreases a@.len() - i,
    {
        if a[i] != b[i] {
            return false;
        }
        i = i + 1;
    }
    assert(a@ =~= b@);
    true
}

/// One declared capability: its identifier, the thread class of its calls,
/// the partition backing it, and its call table.
pub struct ExtensionEntry<'a, V> {
    pub identifier: &'a [u8],
    pub thread_class: ThreadClass,
    pub partition: Partition,
    pub vtable: V,
}

/// The table of the first entry declared under `id`, if any.
pub open spec fn lookup<'a, V>(entries: Seq<ExtensionEntry<'a, V>>, id: Seq<u8>) -> Option<V>
    decreases entries.len(),
{
    if entries.len() == 0 {
        None
    } else if entries[0].identifier@ == id {
        Some(entries[0].vtable)
    } else {
        lookup(entries.drop_first(), id)
    }
}

/// Whether some entry is declared under `id`.
pub open spec fn declares<'a, V>(entries: Seq<ExtensionEntry<'a, V>>, id: Seq<u8>) -> bool {
    exists|i: int| 0 <= i < entries.len() && #[trigger] entries[i].identifier@ == id
}

proof fn lemma_lookup_declares<'a, V>(entries: Seq<ExtensionEntry<'a, V>>, id: Seq<u8>)
    ensures
        lookup(entries, id) is Some <==> declares(entries, id),
    decreases entries.len(),
{
    if entries.len() > 0 {
        lemma_lookup_declares(entries.drop_first(), id);
        if declares(entries, id) && entries[0].identifier@ != id {
            let i = choose|i: int| 0 <= i < entries.len() && #[trigger] entries[i].identifier@ == id;
            assert(entries.drop_first()[i - 1].identifier@ == id);
        }
        if declares(entries.drop_first(), id) {
            let i = choose|i: int| 0 <= i < entries.len() - 1 && #[trigger] entries.drop_first()[i].identifier@ == id;
            assert(entries[i + 1].identifier@ == id);
        }
    }
}

proof fn lemma_lookup_unique<'a, V>(entries: Seq<ExtensionEntry<'a, V>>, i: int)
    requires
        0 <= i < entries.len(),
        forall|j: int| 0 <= j < i ==> #[trigger] entries[j].identifier@ != entries[i].identifier@,
    ensures
        lookup(entries, entries[i].identifier@) == Some(entries[i].vtable),
    decreases i,
{
    if i > 0 {
        let rest = entries.drop_first();
        assert forall|j: int| 0 <= j < i - 1 implies #[trigger] rest[j].identifier@ != rest[i - 1].identifier@ by {
            assert(entries[j + 1].identifier@ != entries[i].identifier@);
        }
        lemma_lookup_unique(rest, i - 1);
    }
}

proof fn lemma_lookup_push<'a, V>(entries: Seq<ExtensionEntry<'a, V>>, e: ExtensionEntry<'a, V>, id: Seq<u8>)
    ensures
        lookup(entries.push(e), id) == if declares(entries, id) {
            lookup(entries, id)
        } else if e.identifier@ == id {
            Some(e.vtable)
        } else {
            None::<V>
        },
    decreases entries.len(),
{
    lemma_lookup_declares(entries, id);
    if entries.len() == 0 {
        assert(entries.push(e)[0] == e);
        assert(entries.push(e).drop_first() =~= entries);
    } else {
        assert(entries.push(e).drop_first() =~= entries.drop_first().push(e));
        lemma_lookup_push(entries.drop_first(), e, id);
        lemma_lookup_declares(entries.drop_first(), id);
        if entries[0].identifier@ != id && declares(entries, id) {
            let i = choose|i: int| 0 <= i < entries.len() && #[trigger] entries[i].identifier@ == id;
            assert(entries.drop_first()[i - 1].identifier@ == id);
        }
        if declares(entries.drop_first(), id) {
            let i = choose|i: int| 0 <= i < entries.len() - 1 && #[trigger] entries.drop_first()[i].identifier@ == id;
            assert(entries[i + 1].identifier@ == id);
        }
    }
}

/// The capabilities one side declares, each under a distinct identifier.
pub struct ExtensionRegistry<'a, V> {
    entries: Vec<ExtensionEntry<'a, V>>,
}

impl<'a, V> View for ExtensionRegistry<'a, V> {
    type V = Seq<ExtensionEntry<'a, V>>;

    closed spec fn view(&self) -> Seq<ExtensionEntry<'a, V>> {
        self.entries@
    }
}

impl<'a, V> ExtensionRegistry<'a, V> {
    /// No identifier is declared twice, and every entry is backed by the
    /// partition its calls need.
    pub open spec fn wf(&self) -> bool {
        &&& forall|i: int, j: int|
            0 <= i < j < self@.len() ==> #[trigger] self@[i].identifier@ != #[trigger] self@[j].identifier@
        &&& forall|i: int|
            0 <= i < self@.len() ==> partition_serves(#[trigger] self@[i].partition, self@[i].thread_class)
    }

    pub fn new() -> (r: ExtensionRegistry<'a, V>)
        ensures
            r.wf(),
            r@.len() == 0,
    {
        ExtensionRegistry { entries: Vec::new() }
    }

    pub fn len(&self) -> (r: usize)
        ensures
            r == self@.len(),
    {
        self.entries.len()
    }

    /// Declares `vtable` under `identifier`, backed by `partition`, which
    /// must be the one that serves calls of `thread_class`. An identifier
    /// already declared keeps its first table; the call then returns `false`.
    pub fn register(&mut self, identifier: &'a [u8], thread_class: ThreadClass, partition: Partition, vtable: V) -> (r:
        bool)
        requires
            old(self).wf(),
            partition_serves(partition, thread_class),
        ensures
            final(self).wf(),
            r == !declares(old(self)@, identifier@),
            r ==> final(self)@ == old(self)@.push(ExtensionEntry { identifier, thread_class, partition, vtable }),
            !r ==> final(self)@ == old(self)@,
    {
        let mut i: usize = 0;
        while i < self.entries.len()
            invariant
                self@ == old(self)@,
                self.wf(),
                i <= self@.len(),
                forall|j: int| 0 <= j < i ==> #[trigger] self@[j].identifier@ != identifier@,
            decreases self@.len() - i,
        {
            if same_identifier(self.entries[i].identifier, identifier) {
                assert(self@[i as int].identifier@ == identifier@);
                return false;
            }
            i = i + 1;
        }
        self.entries.push(ExtensionEntry { identifier, thread_class, partition, vtable });
        true
    }

    /// Whether a capability is declared under `identifier`.
    pub fn supports(&self, identifier: &[u8]) -> (r: bool)
        ensures
            r == declares(self@, identifier@),
    {
        let mut i: usize = 0;
        while i < self.entries.len()
            invariant
                i <= self@.len(),
                forall|j: int| 0 <= j < i ==> #[trigger] self@[j].identifier@ != identifier@,
            decreases self@.len() - i,
        {
            if same_identifier(self.entries[i].identifier, identifier) {
                assert(self@[i as int].identifier@ == identifier@);
                return true;
            }
            i = i + 1;
        }
        false
    }

    /// The table declared under `identifier`, or `None` when the other side
    /// does not support it: absence is an answer, not an error.
    pub fn get(&self, identifier: &[u8]) -> (r: Option<&V>)
        requires
            self.wf(),
        ensures
            match lookup(self@, identifier@) {
                Some(v) => r is Some && *r->Some_0 == v,
                None => r is None,
            },
    {
        let mut i: usize = 0;
        while i < self.entries.len()
            invariant
                self.wf(),
                i <= self@.len(),
                forall|j: int| 0 <= j < i ==> #[trigger] self@[j].identifier@ != identifier@,
            decreases self@.len() - i,
        {
            if same_identifier(self.entries[i].identifier, identifier) {
                proof {
                    lemma_lookup_unique(self@, i as int);
                }
                return Some(&self.entries[i].vtable);
            }
            i = i + 1;
        }
        proof {
            lemma_lookup_declares(self@, identifier@);
        }
        None
    }
}

/// Declaring a new identifier makes exactly that table answer queries for it,
/// and leaves the answers for every other identifier as they were.
pub proof fn lemma_register_then_get<'a, V>(
    before: Seq<ExtensionEntry<'a, V>>,
    e: ExtensionEntry<'a, V>,
    query: Seq<u8>,
)
    requires
        !declares(before, e.identifier@),
    ensures
        lookup(before.push(e), e.identifier@) == Some(e.vtable),
        query != e.identifier@ ==> lookup(before.push(e), query) == lookup(before, query),
{
    lemma_lookup_push(before, e, e.identifier@);
    lemma_lookup_push(before, e, query);
    lemma_lookup_declares(before, query);
}

} // verus!
