//! Shared state types: the gateway's view of internet health and the
//! dashboard's sync event record.

use vstd::prelude::*;

verus! {

/// Internet health as seen by the probe loop.
#[derive(Debug, Clone, PartialEq, Eq, Structural)]
pub enum NetworkStatus {
    /// No probe has completed yet.
    Unknown,
    /// The last probe succeeded.
    Stable,
    /// One or two consecutive probes failed.
    Degraded,
    /// Three or more consecutive probes failed.
    Offline,
}

/// One entry of the dashboard's rolling sync log.
#[derive(Debug, Clone)]
pub struct SyncEvent {
    pub message: String,
    pub timestamp: i64,
}

/// The texts of a list of strings.
pub open spec fn texts(ids: Seq<String>) -> Seq<Seq<char>> {
    ids.map_values(|s: String| s@)
}

proof fn lemma_texts_push(s: Seq<String>, x: String)
    ensures
        texts(s.push(x)) == texts(s).push(x@),
{
    assert(texts(s.push(x)) =~= texts(s).push(x@));
}

/// `ids` with every occurrence of `id` left out, order kept.
pub open spec fn without(ids: Seq<Seq<char>>, id: Seq<char>) -> Seq<Seq<char>>
    decreases ids.len(),
{
    if ids.len() == 0 {
        Seq::empty()
    } else {
        without(ids.drop_last(), id) + if ids.last() == id { Seq::empty() } else { seq![ids.last()] }
    }
}

/// The devices currently streaming over a WebSocket, in order of connection,
/// each listed once even if it reconnects before its old session is cleaned up.
pub struct ConnectedDevices {
    ids: Vec<String>,
}

impl ConnectedDevices {
    /// The device ids, in order of connection.
    pub closed spec fn ids(&self) -> Seq<Seq<char>> {
        texts(self.ids@)
    }

    /// No id is listed twice.
    pub closed spec fn wf(&self) -> bool {
        self.ids().no_duplicates()
    }

    /// No device connected.
    pub fn new() -> (d: Self)
        ensures
            d.wf(),
            d.ids() == Seq::<Seq<char>>::empty(),
    {
        let d = ConnectedDevices { ids: Vec::new() };
        assert(d.ids() =~= Seq::<Seq<char>>::empty());
        d
    }

    fn position(&self, id: &String) -> (r: Option<usize>)
        ensures
            match r {
                Some(i) => i < self.ids().len() && self.ids()[i as int] == id@,
                None => !self.ids().contains(id@),
            },
    {
        let mut i: usize = 0;
        while i < self.ids.len()
            invariant
                i <= self.ids@.len(),
                forall|j: int| 0 <= j < i ==> self.ids()[j] != id@,
            decreases self.ids@.len() - i,
        {
            if self.ids[i] == *id {
                return Some(i);
            }
            i = i + 1;
        }
        None
    }

    /// Whether `id` is connected.
    pub fn contains(&self, id: &str) -> (b: bool)
        ensures
            b == self.ids().contains(id@),
    {
        let target = id.to_owned();
        self.position(&target).is_some()
    }

    /// Records that `id` connected; an id already listed is not added again.
    pub fn connect(&mut self, id: String)
        requires
            old(self).wf(),
        ensures
            final(self).wf(),
            final(self).ids() == (if old(self).ids().contains(id@) {
                old(self).ids()
            } else {
                old(self).ids().push(id@)
            }),
    {
        if self.position(&id).is_none() {
            let ghost before = self.ids();
            self.ids.push(id);
            assert(self.ids() =~= before.push(id@));
        }
    }

    /// Records that `id` disconnected: it is no longer listed.
    pub fn disconnect(&mut self, id: &str)
        ensures
            final(self).ids() == without(old(self).ids(), id@),
            old(self).wf() ==> final(self).wf(),
    {
        let target = id.to_owned();
        let mut kept: Vec<String> = Vec::new();
        let mut i: usize = 0;
        while i < self.ids.len()
            invariant
                i <= self.ids@.len(),
                target@ == id@,
                texts(kept@) == without(texts(self.ids@.subrange(0, i as int)), id@),
            decreases self.ids@.len() - i,
        {
            proof {
                assert(self.ids@.subrange(0, i + 1) =~= self.ids@.subrange(0, i as int).push(self.ids@[i as int]));
                lemma_texts_push(self.ids@.subrange(0, i as int), self.ids@[i as int]);
                let prefix = texts(self.ids@.subrange(0, i as int));
                let a = self.ids@[i as int]@;
                assert(prefix.push(a).drop_last() =~= prefix);
                assert(without(prefix.push(a), id@) == without(prefix, id@) + if a == id@ {
                    Seq::<Seq<char>>::empty()
                } else {
                    seq![a]
                });
                assert(without(prefix, id@) + Seq::<Seq<char>>::empty() =~= without(prefix, id@));
                assert(without(prefix, id@) + seq![a] =~= without(prefix, id@).push(a));
            }
            if !(self.ids[i] == target) {
                let ghost before = kept@;
                let copy = self.ids[i].clone();
                kept.push(copy);
                proof { lemma_texts_push(before, copy); }
            }
            i = i + 1;
        }
        assert(self.ids@.subrange(0, i as int) =~= self.ids@);
        proof { lemma_without_keeps_distinct(self.ids(), id@); }
        self.ids = kept;
    }

    /// The connected device ids, in order of connection.
    pub fn list(&self) -> (v: Vec<String>)
        ensures
            texts(v@) == self.ids(),
    {
        let mut v: Vec<String> = Vec::new();
        let mut i: usize = 0;
        while i < self.ids.len()
            invariant
                i <= self.ids@.len(),
                v@ == self.ids@.subrange(0, i as int),
            decreases self.ids@.len() - i,
        {
            let copy = self.ids[i].clone();
            v.push(copy);
            i = i + 1;
            assert(v@ =~= self.ids@.subrange(0, i as int));
        }
        assert(self.ids@.subrange(0, i as int) =~= self.ids@);
        v
    }

    /// How many devices are connected.
    pub fn len(&self) -> (n: usize)
        ensures
            n == self.ids().len(),
    {
        self.ids.len()
    }
}

proof fn lemma_without_subset(ids: Seq<Seq<char>>, id: Seq<char>, x: Seq<char>)
    ensures
        without(ids, id).contains(x) ==> ids.contains(x) && x != id,
    decreases ids.len(),
{
    if ids.len() > 0 {
        lemma_without_subset(ids.drop_last(), id, x);
        if without(ids, id).contains(x) {
            let k = choose|k: int| 0 <= k < without(ids, id).len() && without(ids, id)[k] == x;
            if k < without(ids.drop_last(), id).len() {
                assert(without(ids.drop_last(), id)[k] == x);
                assert(without(ids.drop_last(), id).contains(x));
                let m = choose|m: int| 0 <= m < ids.drop_last().len() && ids.drop_last()[m] == x;
                assert(ids[m] == x);
            } else {
                assert(ids[ids.len() - 1] == x);
            }
        }
    }
}

proof fn lemma_without_keeps_distinct(ids: Seq<Seq<char>>, id: Seq<char>)
    ensures
        ids.no_duplicates() ==> without(ids, id).no_duplicates(),
    decreases ids.len(),
{
    if ids.len() > 0 && ids.no_duplicates() {
        let prev = ids.drop_last();
        assert(prev.no_duplicates());
        lemma_without_keeps_distinct(prev, id);
        lemma_without_subset(prev, id, ids.last());
        if !prev.contains(ids.last()) {
        } else {
            let m = choose|m: int| 0 <= m < prev.len() && prev[m] == ids.last();
            assert(ids[m] == ids[ids.len() - 1]);
        }
    }
}

/// Disconnecting `id` removes exactly `id`: any other id is listed after the
/// removal if and only if it was listed before, and `id` is listed no more.
pub proof fn lemma_disconnect_removes_exactly(ids: Seq<Seq<char>>, id: Seq<char>, x: Seq<char>)
    ensures
        without(ids, id).contains(x) <==> ids.contains(x) && x != id,
    decreases ids.len(),
{
    lemma_without_subset(ids, id, x);
    if ids.len() > 0 && ids.contains(x) && x != id {
        let prev = ids.drop_last();
        let tail: Seq<Seq<char>> = if ids.last() == id { Seq::empty() } else { seq![ids.last()] };
        assert(without(ids, id) == without(prev, id) + tail);
        let m = choose|m: int| 0 <= m < ids.len() && ids[m] == x;
        if m < prev.len() {
            assert(prev[m] == x);
            lemma_disconnect_removes_exactly(prev, id, x);
            let k = choose|k: int| 0 <= k < without(prev, id).len() && without(prev, id)[k] == x;
            assert((without(prev, id) + tail)[k] == x);
        } else {
            assert(tail[0] == x);
            assert((without(prev, id) + tail)[without(prev, id).len() as int] == x);
        }
    }
}

/// Disconnecting an id that is not listed leaves the list as it was.
pub proof fn lemma_disconnect_absent_is_noop(ids: Seq<Seq<char>>, id: Seq<char>)
    requires
        !ids.contains(id),
    ensures
        without(ids, id) == ids,
    decreases ids.len(),
{
    if ids.len() > 0 {
        let prev = ids.drop_last();
        assert(!prev.contains(id)) by {
            if prev.contains(id) {
                let m = choose|m: int| 0 <= m < prev.len() && prev[m] == id;
                assert(ids[m] == id);
            }
        }
        lemma_disconnect_absent_is_noop(prev, id);
        assert(ids.last() != id) by {
            assert(ids[ids.len() - 1] == ids.last());
        }
        assert(prev + seq![ids.last()] =~= ids);
    }
}

} // verus!
