//! The table of requests that await their response.

use vstd::prelude::*;
use super::ipc::IpcResponse;

verus! {

/// One request that awaits its response: its correlation id and the waiter to
/// hand the response to.
struct Entry<W> {
    id: String,
    waiter: W,
}

/// The requests that await a response, by correlation id.
///
/// `W` is whatever the caller uses to hand a response over to the thread that
/// waits for it. The table holds at most one waiter for an id; its view is the
/// map from each id to its waiter.
pub struct PendingTable<W> {
    entries: Vec<Entry<W>>,
}

/// Whether some entry has this id.
spec fn has_id<W>(entries: Seq<Entry<W>>, id: Seq<char>) -> bool {
    exists|i: int| 0 <= i < entries.len() && #[trigger] entries[i].id@ == id
}

/// The place of an entry with this id.
spec fn place_of<W>(entries: Seq<Entry<W>>, id: Seq<char>) -> int {
    choose|i: int| 0 <= i < entries.len() && #[trigger] entries[i].id@ == id
}

/// Whether no id occurs twice.
spec fn distinct_ids<W>(entries: Seq<Entry<W>>) -> bool {
    forall|i: int, j: int|
        0 <= i < j < entries.len() ==> #[trigger] entries[i].id@ != #[trigger] entries[j].id@
}

/// The map from each id to its waiter.
spec fn table_of<W>(entries: Seq<Entry<W>>) -> Map<Seq<char>, W> {
    Map::new(|id: Seq<char>| has_id(entries, id), |id: Seq<char>| entries[place_of(entries, id)].waiter)
}

proof fn lemma_table_at<W>(entries: Seq<Entry<W>>, i: int)
    requires
        distinct_ids(entries),
        0 <= i < entries.len(),
    ensures
        has_id(entries, entries[i].id@),
        place_of(entries, entries[i].id@) == i,
        table_of(entries).contains_key(entries[i].id@),
        table_of(entries)[entries[i].id@] == entries[i].waiter,
{
    let id = entries[i].id@;
    assert(entries[i].id@ == id);
    let p = place_of(entries, id);
    assert(0 <= p < entries.len() && entries[p].id@ == id);
    if p < i {
        assert(entries[p].id@ != entries[i].id@);
    } else if i < p {
        assert(entries[i].id@ != entries[p].id@);
    }
}

proof fn lemma_table_push<W>(entries: Seq<Entry<W>>, e: Entry<W>)
    requires
        distinct_ids(entries),
        !has_id(entries, e.id@),
    ensures
        distinct_ids(entries.push(e)),
        table_of(entries.push(e)) == table_of(entries).insert(e.id@, e.waiter),
{
    let after = entries.push(e);
    assert forall|i: int, j: int| 0 <= i < j < after.len() implies #[trigger] after[i].id@
        != #[trigger] after[j].id@ by {
        if j == entries.len() {
            assert(after[i] == entries[i]);
            if entries[i].id@ == e.id@ {
                assert(has_id(entries, e.id@));
            }
        } else {
            assert(after[i] == entries[i] && after[j] == entries[j]);
        }
    }
    let want = table_of(entries).insert(e.id@, e.waiter);
    assert forall|id: Seq<char>| table_of(after).contains_key(id) <==> want.contains_key(
        id,
    ) by {
        if has_id(after, id) {
            let p = place_of(after, id);
            if p < entries.len() {
                assert(entries[p].id@ == id);
            }
        }
        if has_id(entries, id) {
            let p = place_of(entries, id);
            assert(after[p].id@ == id);
        }
        if id == e.id@ {
            assert(after[entries.len() as int].id@ == id);
        }
    }
    assert forall|id: Seq<char>| table_of(after).contains_key(id) implies table_of(after)[id]
        == want[id] by {
        let p = place_of(after, id);
        lemma_table_at(after, p);
        if p < entries.len() {
            assert(after[p] == entries[p]);
            lemma_table_at(entries, p);
            assert(entries[p].id@ == id);
            assert(id != e.id@);
        }
    }
    assert(table_of(after) =~= want);
}

proof fn lemma_table_remove<W>(entries: Seq<Entry<W>>, i: int)
    requires
        distinct_ids(entries),
        0 <= i < entries.len(),
    ensures
        distinct_ids(entries.remove(i)),
        !has_id(entries.remove(i), entries[i].id@),
        table_of(entries.remove(i)) == table_of(entries).remove(entries[i].id@),
{
    let after = entries.remove(i);
    let gone = entries[i].id@;
    assert forall|k: int| 0 <= k < after.len() implies #[trigger] after[k] == entries[if k < i {
        k
    } else {
        k + 1
    }] by {}
    assert forall|a: int, b: int| 0 <= a < b < after.len() implies #[trigger] after[a].id@
        != #[trigger] after[b].id@ by {
        let a0 = if a < i { a } else { a + 1 };
        let b0 = if b < i { b } else { b + 1 };
        assert(after[a] == entries[a0] && after[b] == entries[b0]);
        assert(entries[a0].id@ != entries[b0].id@);
    }
    if has_id(after, gone) {
        let p = place_of(after, gone);
        let p0 = if p < i { p } else { p + 1 };
        assert(after[p] == entries[p0]);
        if p0 < i {
            assert(entries[p0].id@ != entries[i].id@);
        } else {
            assert(entries[i].id@ != entries[p0].id@);
        }
    }
    let want = table_of(entries).remove(gone);
    assert forall|id: Seq<char>| table_of(after).contains_key(id) <==> want.contains_key(
        id,
    ) by {
        if has_id(after, id) {
            let p = place_of(after, id);
            let p0 = if p < i { p } else { p + 1 };
            assert(after[p] == entries[p0]);
            assert(entries[p0].id@ == id);
        }
        if has_id(entries, id) && id != gone {
            let p = place_of(entries, id);
            let q = if p < i { p } else { p - 1 };
            assert(after[q] == entries[p]);
            assert(after[q].id@ == id);
        }
    }
    assert forall|id: Seq<char>| table_of(after).contains_key(id) implies table_of(after)[id]
        == want[id] by {
        let p = place_of(after, id);
        lemma_table_at(after, p);
        let p0 = if p < i { p } else { p + 1 };
        assert(after[p] == entries[p0]);
        lemma_table_at(entries, p0);
    }
    assert(table_of(after) =~= want);
}

/// The table after a response was routed.
pub open spec fn table_after_route<W>(
    table: Map<Seq<char>, W>,
    response: IpcResponse,
) -> Map<Seq<char>, W> {
    table.remove(response.id@)
}

/// What routing a response hands over: the waiter registered under the
/// response's id, with the response; nothing where no such waiter is registered.
pub open spec fn delivery_of<W>(table: Map<Seq<char>, W>, response: IpcResponse) -> Option<
    (W, IpcResponse),
> {
    if table.contains_key(response.id@) {
        Some((table[response.id@], response))
    } else {
        None
    }
}

/// What routing a sequence of responses, one after the other, hands over
/// for each of them.
pub open spec fn deliveries_of<W>(table: Map<Seq<char>, W>, responses: Seq<IpcResponse>) -> Seq<
    Option<(W, IpcResponse)>,
>
    decreases responses.len(),
{
    if responses.len() == 0 {
        Seq::empty()
    } else {
        seq![delivery_of(table, responses[0])] + deliveries_of(
            table_after_route(table, responses[0]),
            responses.drop_first(),
        )
    }
}

/// Whatever responses arrive and in whatever order: a response is handed
/// over exactly if a request is pending under its id and no earlier response
/// had that id, and it is handed, as it is, to the waiter of that request.
/// Correlation goes by id alone, never by the order of arrival.
pub proof fn lemma_routing_goes_by_id<W>(
    table: Map<Seq<char>, W>,
    responses: Seq<IpcResponse>,
    i: int,
)
    requires
        0 <= i < responses.len(),
    ensures
        deliveries_of(table, responses).len() == responses.len(),
        deliveries_of(table, responses)[i] == if table.contains_key(responses[i].id@) && forall|
            j: int,
        |
            0 <= j < i ==> (#[trigger] responses[j]).id@ != responses[i].id@ {
            Some((table[responses[i].id@], responses[i]))
        } else {
            None
        },
    decreases responses.len(),
{
    let rest = responses.drop_first();
    let after = table_after_route(table, responses[0]);
    lemma_deliveries_len(after, rest);
    if i > 0 {
        lemma_routing_goes_by_id(after, rest, i - 1);
        assert(rest[i - 1] == responses[i]);
        assert(deliveries_of(table, responses)[i] == deliveries_of(after, rest)[i - 1]);
        let own = responses[i].id@;
        if after.contains_key(own) && forall|j: int|
            0 <= j < i - 1 ==> (#[trigger] rest[j]).id@ != own {
            assert forall|j: int| 0 <= j < i implies (#[trigger] responses[j]).id@ != own by {
                if j > 0 {
                    assert(rest[j - 1] == responses[j]);
                }
            }
        } else if after.contains_key(own) {
            let j = choose|j: int| 0 <= j < i - 1 && (#[trigger] rest[j]).id@ == own;
            assert(responses[j + 1] == rest[j]);
        } else if table.contains_key(own) {
            assert(responses[0].id@ == own);
        }
    }
}

proof fn lemma_deliveries_len<W>(table: Map<Seq<char>, W>, responses: Seq<IpcResponse>)
    ensures
        deliveries_of(table, responses).len() == responses.len(),
    decreases responses.len(),
{
    if responses.len() > 0 {
        lemma_deliveries_len(table_after_route(table, responses[0]), responses.drop_first());
    }
}

/// Two requests with distinct ids are pending and both are answered: whichever
/// response is routed first, each waiter is handed its own response and never
/// the other's, and the table ends up the same.
pub proof fn lemma_each_waiter_gets_its_own<W>(
    table: Map<Seq<char>, W>,
    first: IpcResponse,
    second: IpcResponse,
)
    requires
        table.contains_key(first.id@),
        table.contains_key(second.id@),
        first.id@ != second.id@,
    ensures
        delivery_of(table, first) == Some((table[first.id@], first)),
        delivery_of(table_after_route(table, first), second) == Some((table[second.id@], second)),
        delivery_of(table, second) == Some((table[second.id@], second)),
        delivery_of(table_after_route(table, second), first) == Some((table[first.id@], first)),
        table_after_route(table_after_route(table, first), second) == table_after_route(
            table_after_route(table, second),
            first,
        ),
{
    assert(table_after_route(table_after_route(table, first), second) =~= table_after_route(
        table_after_route(table, second),
        first,
    ));
}

/// Routing a response leaves every other pending request as it was.
pub proof fn lemma_route_leaves_others<W>(
    table: Map<Seq<char>, W>,
    response: IpcResponse,
    id: Seq<char>,
)
    requires
        id != response.id@,
    ensures
        table_after_route(table, response).contains_key(id) == table.contains_key(id),
        table.contains_key(id) ==> table_after_route(table, response)[id] == table[id],
{
}

/// A request is answered at most once: after a response to it was routed, a
/// further response with the same id is dropped.
pub proof fn lemma_at_most_one_delivery<W>(
    table: Map<Seq<char>, W>,
    response: IpcResponse,
    again: IpcResponse,
)
    requires
        again.id@ == response.id@,
    ensures
        delivery_of(table_after_route(table, response), again) is None,
        table_after_route(table_after_route(table, response), again) == table_after_route(
            table,
            response,
        ),
{
    assert(table_after_route(table_after_route(table, response), again) =~= table_after_route(
        table,
        response,
    ));
}

impl<W> View for PendingTable<W> {
    type V = Map<Seq<char>, W>;

    closed spec fn view(&self) -> Map<Seq<char>, W> {
        table_of(self.entries@)
    }
}

impl<W> PendingTable<W> {
    #[verifier::type_invariant]
    spec fn well_formed(&self) -> bool {
        distinct_ids(self.entries@)
    }

    /// A table in which nothing is pending.
    pub fn new() -> (table: Self)
        ensures
            table@ == Map::<Seq<char>, W>::empty(),
    {
        let table = PendingTable { entries: Vec::new() };
        proof {
            assert(table_of(table.entries@) =~= Map::<Seq<char>, W>::empty());
        }
        table
    }

    /// The place of the entry with this id, if there is one.
    fn find(&self, id: &str) -> (place: Option<usize>)
        ensures
            place is Some <==> self@.contains_key(id@),
            place matches Some(i) ==> i < self.entries.len() && self.entries[i as int].id@ == id@,
    {
        let key = id.to_owned();
        let mut i: usize = 0;
        while i < self.entries.len()
            invariant
                i <= self.entries.len(),
                key@ == id@,
                forall|k: int| 0 <= k < i ==> self.entries[k].id@ != id@,
            decreases self.entries.len() - i,
        {
            if self.entries[i].id == key {
                assert(has_id(self.entries@, id@));
                return Some(i);
            }
            i += 1;
        }
        assert(!has_id(self.entries@, id@));
        None
    }

    /// Whether a request with this id is pending.
    pub fn contains(&self, id: &str) -> (b: bool)
        ensures
            b == self@.contains_key(id@),
    {
        self.find(id).is_some()
    }

    /// Whether nothing is pending.
    pub fn is_empty(&self) -> (b: bool)
        ensures
            b == (self@ == Map::<Seq<char>, W>::empty()),
    {
        let b = self.entries.len() == 0;
        proof {
            if b {
                assert(table_of(self.entries@) =~= Map::<Seq<char>, W>::empty());
            } else {
                assert(self.entries@[0].id@ == self.entries@[0].id@);
                assert(has_id(self.entries@, self.entries@[0].id@));
                assert(table_of(self.entries@).contains_key(self.entries@[0].id@));
            }
        }
        b
    }

    /// Removes the request with this id and returns its waiter; without such a
    /// request the table stays as it is.
    pub fn remove(&mut self, id: &str) -> (waiter: Option<W>)
        ensures
            old(self)@.contains_key(id@) ==> waiter == Some(old(self)@[id@]) && final(self)@ == old(
                self,
            )@.remove(id@),
            !old(self)@.contains_key(id@) ==> waiter is None && final(self)@ == old(self)@,
    {
        proof {
            use_type_invariant(&*self);
        }
        match self.find(id) {
            None => None,
            Some(i) => {
                let mut entries: Vec<Entry<W>> = Vec::new();
                std::mem::swap(&mut entries, &mut self.entries);
                proof {
                    lemma_table_at(entries@, i as int);
                    lemma_table_remove(entries@, i as int);
                }
                let entry = entries.remove(i);
                self.entries = entries;
                Some(entry.waiter)
            },
        }
    }

    /// Makes the request with this id pending, with this waiter. A waiter that
    /// was registered under the same id leaves the table and is returned.
    pub fn register(&mut self, id: &str, waiter: W) -> (displaced: Option<W>)
        ensures
            final(self)@ == old(self)@.insert(id@, waiter),
            old(self)@.contains_key(id@) ==> displaced == Some(old(self)@[id@]),
            !old(self)@.contains_key(id@) ==> displaced is None,
    {
        let displaced = self.remove(id);
        proof {
            use_type_invariant(&*self);
        }
        let mut entries: Vec<Entry<W>> = Vec::new();
        std::mem::swap(&mut entries, &mut self.entries);
        let entry = Entry { id: id.to_owned(), waiter };
        proof {
            assert(!table_of(entries@).contains_key(id@));
            lemma_table_push(entries@, entry);
            assert(old(self)@.remove(id@).insert(id@, waiter) =~= old(self)@.insert(id@, waiter));
        }
        entries.push(entry);
        self.entries = entries;
        displaced
    }

    /// Routes a response: the waiter of the request that the response answers
    /// leaves the table and is returned together with the response. A response
    /// that answers no pending request is dropped, and the table stays as it is.
    pub fn route(&mut self, response: IpcResponse) -> (delivery: Option<(W, IpcResponse)>)
        ensures
            delivery == delivery_of(old(self)@, response),
            final(self)@ == table_after_route(old(self)@, response),
    {
        match self.remove(response.id.as_str()) {
            Some(waiter) => Some((waiter, response)),
            None => {
                assert(old(self)@.remove(response.id@) =~= old(self)@);
                None
            },
        }
    }
}

} // verus!
