//! The table of event listeners: for each event name, the channels (by id)
//! that receive what is emitted under that name, in registration order.
use vstd::prelude::*;

use crate::keyed::{has_name, lemma_table_lookup, lemma_table_push, lemma_table_update, names_unique, table_of};

verus! {

/// Holds of every channel but `channel_id`.
pub open spec fn other_than(channel_id: u32) -> spec_fn(u32) -> bool {
    |c: u32| c != channel_id
}

/// The channels that stay, in their order, after `channel_id` is taken out of `channels`.
pub open spec fn without_channel(channels: Seq<u32>, channel_id: u32) -> Seq<u32> {
    channels.filter(other_than(channel_id))
}

/// A copy of a list of channel ids.
fn copy_channels(v: &Vec<u32>) -> (r: Vec<u32>)
    ensures
        r@ == v@,
{
    let mut r: Vec<u32> = Vec::new();
    let mut i: usize = 0;
    while i < v.len()
        invariant
            i <= v@.len(),
            r@ == v@.take(i as int),
        decreases v@.len() - i,
    {
        r.push(v[i]);
        i = i + 1;
        assert(r@ =~= v@.take(i as int));
    }
    assert(v@.take(i as int) =~= v@);
    r
}

/// The channels of `v` other than `channel_id`, in their order.
fn retain_others(v: &Vec<u32>, channel_id: u32) -> (r: Vec<u32>)
    ensures
        r@ == without_channel(v@, channel_id),
{
    let mut r: Vec<u32> = Vec::new();
    let mut i: usize = 0;
    while i < v.len()
        invariant
            i <= v@.len(),
            r@ == without_channel(v@.take(i as int), channel_id),
        decreases v@.len() - i,
    {
        proof {
            v@.take(i as int).lemma_filter_push(v@[i as int], other_than(channel_id));
            assert(v@.take(i as int).push(v@[i as int]) =~= v@.take(i + 1));
        }
        if v[i] != channel_id {
            r.push(v[i]);
        }
        i = i + 1;
    }
    assert(v@.take(i as int) =~= v@);
    r
}

/// What an emission under `event` reaches, given the table `table`: the
/// channels registered under that name, none if the name is unknown.
pub open spec fn listeners_of(table: Map<Seq<char>, Seq<u32>>, event: Seq<char>) -> Seq<u32> {
    if table.contains_key(event) {
        table[event]
    } else {
        Seq::empty()
    }
}

/// The table `table` after `channel_id` is registered for `event`: the
/// channel comes after those registered before.
pub open spec fn registered(table: Map<Seq<char>, Seq<u32>>, event: Seq<char>, channel_id: u32) -> Map<Seq<char>, Seq<u32>> {
    table.insert(event, listeners_of(table, event).push(channel_id))
}

/// The table `table` after `channel_id` is removed from the listeners of
/// `event`: every registration of it goes, the entry stays; a table without
/// `event` is unchanged.
pub open spec fn unregistered(table: Map<Seq<char>, Seq<u32>>, event: Seq<char>, channel_id: u32) -> Map<Seq<char>, Seq<u32>> {
    if table.contains_key(event) {
        table.insert(event, without_channel(table[event], channel_id))
    } else {
        table
    }
}

/// The entries of a table as (name, channels) pairs of views.
pub open spec fn pairs_of(entries: Seq<(String, Vec<u32>)>) -> Seq<(Seq<char>, Seq<u32>)> {
    entries.map_values(|e: (String, Vec<u32>)| (e.0@, e.1@))
}

/// Where `event` stands in `entries`, if it does.
fn position(entries: &Vec<(String, Vec<u32>)>, event: &String) -> (r: Option<usize>)
    requires
        names_unique(pairs_of(entries@)),
    ensures
        match r {
            Some(i) => i < entries@.len() && entries@[i as int].0@ == event@
                && table_of(pairs_of(entries@)).contains_key(event@)
                && table_of(pairs_of(entries@))[event@] == entries@[i as int].1@,
            None => !table_of(pairs_of(entries@)).contains_key(event@),
        },
{
    let mut i: usize = 0;
    while i < entries.len()
        invariant
            i <= entries@.len(),
            names_unique(pairs_of(entries@)),
            forall|j: int| 0 <= j < i ==> #[trigger] entries@[j].0@ != event@,
        decreases entries@.len() - i,
    {
        if entries[i].0 == *event {
            proof {
                lemma_table_lookup(pairs_of(entries@), i as int);
            }
            return Some(i);
        }
        i = i + 1;
    }
    proof {
        let p = pairs_of(entries@);
        if has_name(p, event@) {
            let j = choose|j: int| 0 <= j < p.len() && #[trigger] p[j].0 == event@;
            assert(p[j].0 == entries@[j].0@);
        }
    }
    None
}

/// Event listeners keyed by event name.
pub struct ListenerRegistry {
    entries: Vec<(String, Vec<u32>)>,
}

impl ListenerRegistry {
    /// No event name occurs twice in the table.
    #[verifier::type_invariant]
    closed spec fn names_are_unique(&self) -> bool {
        names_unique(pairs_of(self.entries@))
    }

    /// The table as a map from event name to the channels registered under it.
    pub closed spec fn view(&self) -> Map<Seq<char>, Seq<u32>> {
        table_of(pairs_of(self.entries@))
    }

    /// An empty table.
    pub fn new() -> (r: Self)
        ensures
            r.view() == Map::<Seq<char>, Seq<u32>>::empty(),
    {
        let r = ListenerRegistry { entries: Vec::new() };
        assert(r.view() =~= Map::<Seq<char>, Seq<u32>>::empty());
        r
    }

    /// Adds `channel_id` at the end of the channels of `event`, making the
    /// entry for `event` first if there is none.
    pub fn register(&mut self, event: String, channel_id: u32)
        ensures
            final(self).view() == registered(old(self).view(), event@, channel_id),
    {
        proof {
            use_type_invariant(&*self);
        }
        let ghost old_view = self.view();
        let mut entries: Vec<(String, Vec<u32>)> = Vec::new();
        std::mem::swap(&mut entries, &mut self.entries);
        let ghost p = pairs_of(entries@);
        match position(&entries, &event) {
            Some(i) => {
                let (key, mut channels) = entries.remove(i);
                channels.push(channel_id);
                entries.insert(i, (key, channels));
                proof {
                    lemma_table_update(p, i as int, p[i as int].1.push(channel_id));
                    assert(pairs_of(entries@) =~= p.update(
                        i as int,
                        (p[i as int].0, p[i as int].1.push(channel_id)),
                    ));
                }
            },
            None => {
                let mut channels: Vec<u32> = Vec::new();
                channels.push(channel_id);
                let ghost k = event@;
                entries.push((event, channels));
                proof {
                    lemma_table_push(p, k, seq![channel_id]);
                    assert(pairs_of(entries@) =~= p.push((k, seq![channel_id])));
                    assert(listeners_of(old_view, k) =~= Seq::<u32>::empty());
                    assert(seq![channel_id] =~= Seq::<u32>::empty().push(channel_id));
                }
            },
        }
        self.entries = entries;
    }

    /// Takes every registration of `channel_id` out of the channels of
    /// `event`; the entry for `event` stays, even when no channel is left.
    pub fn remove(&mut self, event: &str, channel_id: u32)
        ensures
            final(self).view() == unregistered(old(self).view(), event@, channel_id),
    {
        proof {
            use_type_invariant(&*self);
        }
        let key = event.to_owned();
        let mut entries: Vec<(String, Vec<u32>)> = Vec::new();
        std::mem::swap(&mut entries, &mut self.entries);
        let ghost p = pairs_of(entries@);
        match position(&entries, &key) {
            Some(i) => {
                let (name, channels) = entries.remove(i);
                let kept = retain_others(&channels, channel_id);
                entries.insert(i, (name, kept));
                proof {
                    let v = without_channel(p[i as int].1, channel_id);
                    lemma_table_update(p, i as int, v);
                    assert(pairs_of(entries@) =~= p.update(i as int, (p[i as int].0, v)));
                }
            },
            None => {},
        }
        self.entries = entries;
    }

    /// The channels registered under `event`, in registration order; none
    /// when `event` has no entry.
    pub fn channels_of(&self, event: &str) -> (r: Vec<u32>)
        ensures
            r@ == listeners_of(self.view(), event@),
    {
        proof {
            use_type_invariant(self);
        }
        let key = event.to_owned();
        match position(&self.entries, &key) {
            Some(i) => copy_channels(&self.entries[i].1),
            None => Vec::new(),
        }
    }
}

} // verus!
