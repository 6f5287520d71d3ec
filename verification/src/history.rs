use vstd::prelude::*;

verus! {

/// How many translations the history keeps; older ones fall off the end.
pub const MAX_ENTRIES: usize = 20;

/// One remembered translation.
#[derive(Debug, Clone)]
pub struct HistoryEntry {
    pub id: u64,
    pub text: String,
    pub timestamp: u64,
}

/// The translations shown in the history panel, newest first.
#[derive(Debug)]
pub struct TranslationHistory {
    entries: Vec<HistoryEntry>,
    next_id: u64,
}

/// The entries after `entry` is put in front and the list is cut to `MAX_ENTRIES`.
pub open spec fn pushed_entries(entries: Seq<HistoryEntry>, entry: HistoryEntry) -> Seq<HistoryEntry> {
    let grown = seq![entry] + entries;
    if grown.len() > MAX_ENTRIES {
        grown.take(MAX_ENTRIES as int)
    } else {
        grown
    }
}

/// The entries whose id differs from `id`, in their order.
pub open spec fn entries_without(entries: Seq<HistoryEntry>, id: u64) -> Seq<HistoryEntry> {
    entries.filter(|e: HistoryEntry| e.id != id)
}

/// Ids strictly decrease from the front of the list, and each is below `next_id`:
/// the newest entry comes first and no id is handed out twice.
pub open spec fn ids_fresh_and_descending(entries: Seq<HistoryEntry>, next_id: u64) -> bool {
    &&& forall|i: int| 0 <= i < entries.len() ==> #[trigger] entries[i].id < next_id
    &&& forall|i: int, j: int|
        #![trigger entries[i], entries[j]]
        0 <= i < j < entries.len() ==> entries[i].id > entries[j].id
}

/// `std::time::SystemTime`, read from the clock for the entries' timestamps.
#[verifier::external_type_specification]
#[verifier::external_body]
pub struct ExSystemTime(std::time::SystemTime);

/// `SystemTime::now`: the current reading of the system clock.
#[verifier::external_body]
fn system_now() -> std::time::SystemTime {
    std::time::SystemTime::now()
}

/// `SystemTime::duration_since(UNIX_EPOCH)`: how long after the Unix epoch `t`
/// lies, `None` when it lies before.
#[verifier::external_body]
fn since_unix_epoch(t: &std::time::SystemTime) -> Option<std::time::Duration> {
    t.duration_since(std::time::UNIX_EPOCH).ok()
}

/// `Duration::as_secs`: the whole seconds of a duration.
#[verifier::external_body]
fn whole_seconds(d: &std::time::Duration) -> u64 {
    d.as_secs()
}

/// Seconds since the Unix epoch, or 0 when the clock reads earlier than the epoch.
fn unix_timestamp() -> u64 {
    let now = system_now();
    match since_unix_epoch(&now) {
        Some(d) => whole_seconds(&d),
        None => 0,
    }
}

impl TranslationHistory {
    /// The remembered entries, newest first.
    pub closed spec fn spec_entries(&self) -> Seq<HistoryEntry> {
        self.entries@
    }

    /// The id that the next pushed entry receives.
    pub closed spec fn spec_next_id(&self) -> u64 {
        self.next_id
    }

    /// The history is well formed: ids fresh and descending, at most `MAX_ENTRIES` entries.
    pub open spec fn well_formed(&self) -> bool {
        &&& ids_fresh_and_descending(self.spec_entries(), self.spec_next_id())
        &&& self.spec_entries().len() <= MAX_ENTRIES
    }

    /// An empty history whose first entry will get id 0.
    pub fn new() -> (h: Self)
        ensures
            h.spec_entries() == Seq::<HistoryEntry>::empty(),
            h.spec_next_id() == 0,
            h.well_formed(),
    {
        TranslationHistory { entries: Vec::new(), next_id: 0 }
    }

    /// A history made of stored entries and the id its next entry will get.
    pub fn restore(entries: Vec<HistoryEntry>, next_id: u64) -> (h: Self)
        ensures
            h.spec_entries() == entries@,
            h.spec_next_id() == next_id,
    {
        TranslationHistory { entries, next_id }
    }

    /// The remembered entries, newest first.
    pub fn entries(&self) -> (res: &Vec<HistoryEntry>)
        ensures
            res@ == self.spec_entries(),
    {
        &self.entries
    }

    /// The id that the next pushed entry receives.
    pub fn next_id(&self) -> (res: u64)
        ensures
            res == self.spec_next_id(),
    {
        self.next_id
    }

    /// Puts `text` in front of the history, stamped with the current time in
    /// seconds since the Unix epoch, under a fresh id, and keeps at most
    /// `MAX_ENTRIES` entries.
    pub fn push(&mut self, text: String)
        requires
            old(self).spec_next_id() < u64::MAX,
        ensures
            final(self).spec_entries() == pushed_entries(
                old(self).spec_entries(),
                HistoryEntry {
                    id: old(self).spec_next_id(),
                    text,
                    timestamp: final(self).spec_entries()[0].timestamp,
                },
            ),
            final(self).spec_next_id() == old(self).spec_next_id() + 1,
            old(self).well_formed() ==> final(self).well_formed(),
    {
        let timestamp: u64 = unix_timestamp();
        self.push_at(text, timestamp);
    }

    /// Puts `text`, stamped with `timestamp`, in front of the history under a
    /// fresh id and keeps at most `MAX_ENTRIES` entries.
    pub fn push_at(&mut self, text: String, timestamp: u64)
        requires
            old(self).spec_next_id() < u64::MAX,
        ensures
            final(self).spec_entries() == pushed_entries(
                old(self).spec_entries(),
                HistoryEntry { id: old(self).spec_next_id(), text, timestamp },
            ),
            final(self).spec_next_id() == old(self).spec_next_id() + 1,
            old(self).well_formed() ==> final(self).well_formed(),
    {
        proof {
            if old(self).well_formed() {
                lemma_push_keeps_ids_fresh(
                    old(self).spec_entries(),
                    old(self).spec_next_id(),
                    HistoryEntry { id: old(self).spec_next_id(), text, timestamp },
                );
            }
        }
        let entry = HistoryEntry { id: self.next_id, text, timestamp };
        self.entries.insert(0, entry);
        self.next_id = self.next_id + 1;
        self.entries.truncate(MAX_ENTRIES);
    }

    /// Drops every entry whose id is `id`; the others keep their order.
    pub fn remove(&mut self, id: u64)
        ensures
            final(self).spec_entries() == entries_without(old(self).spec_entries(), id),
            final(self).spec_next_id() == old(self).spec_next_id(),
            old(self).well_formed() ==> final(self).well_formed(),
    {
        proof {
            if old(self).well_formed() {
                lemma_remove_keeps_ids_fresh(old(self).spec_entries(), old(self).spec_next_id(), id);
            }
        }
        let mut old_entries: Vec<HistoryEntry> = Vec::new();
        std::mem::swap(&mut old_entries, &mut self.entries);
        let ghost before = old_entries@;
        let mut kept: Vec<HistoryEntry> = Vec::new();
        for e in it: old_entries.into_iter()
            invariant
                it.seq() == before,
                kept@ == entries_without(before.take(it.index() as int), id),
        {
            let ghost i = it.index();
            assert(e == before[i as int]);
            if e.id != id {
                kept.push(e);
            }
            proof {
                reveal_with_fuel(Seq::filter, 1);
                assert(before.take(i + 1).drop_last() == before.take(i as int));
            }
        }
        proof {
            assert(before.take(before.len() as int) == before);
        }
        self.entries = kept;
    }

    /// Forgets every entry; ids keep counting from where they were.
    pub fn clear(&mut self)
        ensures
            final(self).spec_entries() == Seq::<HistoryEntry>::empty(),
            final(self).spec_next_id() == old(self).spec_next_id(),
            final(self).well_formed(),
    {
        self.entries.clear();
    }
}

impl Default for TranslationHistory {
    fn default() -> (h: Self)
        ensures
            h.spec_entries() == Seq::<HistoryEntry>::empty(),
            h.spec_next_id() == 0,
    {
        TranslationHistory::new()
    }
}

/// Pushing keeps ids fresh and descending: the new entry takes `next_id`, which
/// exceeds every id already present, and the list never grows past `MAX_ENTRIES`.
pub proof fn lemma_push_keeps_ids_fresh(entries: Seq<HistoryEntry>, next_id: u64, entry: HistoryEntry)
    requires
        ids_fresh_and_descending(entries, next_id),
        entry.id == next_id,
        next_id < u64::MAX,
    ensures
        ids_fresh_and_descending(pushed_entries(entries, entry), (next_id + 1) as u64),
        pushed_entries(entries, entry).len() <= MAX_ENTRIES,
        pushed_entries(entries, entry).len() == if entries.len() < MAX_ENTRIES {
            entries.len() + 1
        } else {
            MAX_ENTRIES as nat
        },
        pushed_entries(entries, entry)[0] == entry,
{
    let grown = seq![entry] + entries;
    assert forall|i: int, j: int| 0 <= i < j < grown.len() implies grown[i].id > grown[j].id by {
        if i > 0 {
            assert(grown[i] == entries[i - 1]);
        }
        assert(grown[j] == entries[j - 1]);
    }
    assert forall|i: int| 0 <= i < grown.len() implies #[trigger] grown[i].id < next_id + 1 by {
        if i > 0 {
            assert(grown[i] == entries[i - 1]);
        }
    }
}

/// Removing entries keeps ids fresh and descending and never lengthens the list.
pub proof fn lemma_remove_keeps_ids_fresh(entries: Seq<HistoryEntry>, next_id: u64, id: u64)
    requires
        ids_fresh_and_descending(entries, next_id),
    ensures
        ids_fresh_and_descending(entries_without(entries, id), next_id),
        entries_without(entries, id).len() <= entries.len(),
    decreases entries.len(),
{
    reveal_with_fuel(Seq::filter, 1);
    if entries.len() > 0 {
        let prefix = entries.drop_last();
        assert(ids_fresh_and_descending(prefix, next_id)) by {
            assert forall|i: int, j: int| 0 <= i < j < prefix.len() implies prefix[i].id > prefix[j].id by {
                assert(prefix[i] == entries[i] && prefix[j] == entries[j]);
            }
            assert forall|i: int| 0 <= i < prefix.len() implies #[trigger] prefix[i].id < next_id by {
                assert(prefix[i] == entries[i]);
            }
        }
        lemma_remove_keeps_ids_fresh(prefix, next_id, id);
        let kept = entries_without(prefix, id);
        let last = entries.last();
        if last.id != id {
            assert(entries_without(entries, id) == kept.push(last));
            assert forall|k: int| 0 <= k < kept.len() implies kept[k].id > last.id by {
                assert(kept.contains(kept[k]));
                prefix.lemma_filter_contains_rev(|e: HistoryEntry| e.id != id, kept[k]);
                let m = choose|m: int| 0 <= m < prefix.len() && prefix[m] == kept[k];
                assert(prefix[m] == entries[m]);
            }
            let r = kept.push(last);
            assert forall|i: int, j: int| 0 <= i < j < r.len() implies r[i].id > r[j].id by {
                assert(r[i] == kept[i]);
                if j < kept.len() {
                    assert(r[j] == kept[j]);
                }
            }
            assert forall|i: int| 0 <= i < r.len() implies #[trigger] r[i].id < next_id by {
                if i < kept.len() {
                    assert(r[i] == kept[i]);
                }
            }
        }
    }
}

/// Removing an id that no entry carries changes nothing.
pub proof fn lemma_remove_absent_id(entries: Seq<HistoryEntry>, id: u64)
    requires
        forall|i: int| 0 <= i < entries.len() ==> #[trigger] entries[i].id != id,
    ensures
        entries_without(entries, id) == entries,
    decreases entries.len(),
{
    reveal_with_fuel(Seq::filter, 1);
    if entries.len() > 0 {
        let prefix = entries.drop_last();
        assert forall|i: int| 0 <= i < prefix.len() implies #[trigger] prefix[i].id != id by {
            assert(prefix[i] == entries[i]);
        }
        lemma_remove_absent_id(prefix, id);
        assert(entries.last().id != id);
        assert(prefix.push(entries.last()) == entries);
    }
}

/// After `remove(id)` no entry carries `id`, and every entry with another id is still there.
pub proof fn lemma_remove_drops_exactly(entries: Seq<HistoryEntry>, id: u64)
    ensures
        forall|i: int|
            0 <= i < entries_without(entries, id).len() ==> #[trigger] entries_without(
                entries,
                id,
            )[i].id != id,
        forall|i: int|
            0 <= i < entries.len() && entries[i].id != id ==> entries_without(entries, id).contains(
                #[trigger] entries[i],
            ),
{
    broadcast use vstd::seq_lib::group_filter_ensures;

    let pred = |e: HistoryEntry| e.id != id;
    assert forall|i: int| 0 <= i < entries.filter(pred).len() implies #[trigger] entries.filter(
        pred,
    )[i].id != id by {
        assert(pred(entries.filter(pred)[i]));
    }
    assert forall|i: int| 0 <= i < entries.len() && entries[i].id != id implies entries.filter(
        pred,
    ).contains(#[trigger] entries[i]) by {
        assert(pred(entries[i]));
    }
}

/// Removing the same id twice is the same as removing it once.
pub proof fn lemma_remove_idempotent(entries: Seq<HistoryEntry>, id: u64)
    ensures
        entries_without(entries_without(entries, id), id) == entries_without(entries, id),
{
    lemma_remove_drops_exactly(entries, id);
    lemma_remove_absent_id(entries_without(entries, id), id);
}

/// Removing the entry that a push just added gives back the entries from before
/// the push, less the oldest one when the history was already full.
pub proof fn lemma_remove_undoes_push(entries: Seq<HistoryEntry>, next_id: u64, entry: HistoryEntry)
    requires
        ids_fresh_and_descending(entries, next_id),
        entry.id == next_id,
    ensures
        entries_without(pushed_entries(entries, entry), next_id) == if entries.len() < MAX_ENTRIES {
            entries
        } else {
            entries.take(MAX_ENTRIES - 1)
        },
{
    let rest = if entries.len() < MAX_ENTRIES {
        entries
    } else {
        entries.take(MAX_ENTRIES - 1)
    };
    assert(pushed_entries(entries, entry) == seq![entry] + rest);
    let pred = |e: HistoryEntry| e.id != next_id;
    Seq::filter_distributes_over_add(seq![entry], rest, pred);
    reveal_with_fuel(Seq::filter, 2);
    assert(seq![entry].drop_last() == Seq::<HistoryEntry>::empty());
    assert(seq![entry].filter(pred) == Seq::<HistoryEntry>::empty());
    assert forall|i: int| 0 <= i < rest.len() implies #[trigger] rest[i].id != next_id by {
        assert(rest[i] == entries[i]);
    }
    lemma_remove_absent_id(rest, next_id);
    assert(Seq::<HistoryEntry>::empty() + rest == rest);
}

} // verus!
