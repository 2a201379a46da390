//! The table of live tunnels, keyed by host.

use vstd::prelude::*;

verus! {

/// One live tunnel: its host and the handle of the channel that asks its
/// supervisor to kill the child.
#[derive(Debug)]
pub struct Tunnel {
    pub host: String,
    pub kill_handle: u64,
}

/// The live tunnels, at most one per host.
pub struct TunnelRegistry {
    entries: Vec<Tunnel>,
}

impl TunnelRegistry {
    /// No host appears twice.
    pub closed spec fn wf(&self) -> bool {
        forall|i: int, j: int|
            0 <= i < j < self.entries@.len() ==> #[trigger] self.entries@[i].host@
                != #[trigger] self.entries@[j].host@
    }

    /// Exactly one entry is kept for `host`.
    pub closed spec fn has_single_entry(&self, host: Seq<char>) -> bool {
        exists|i: int|
            #![trigger self.has_index(host, i)]
            self.has_index(host, i) && forall|j: int| #[trigger] self.has_index(host, j) ==> j == i
    }

    closed spec fn has_index(&self, host: Seq<char>, i: int) -> bool {
        0 <= i < self.entries@.len() && self.entries@[i].host@ == host
    }

    /// The tunnels, as a map from host to kill handle.
    pub closed spec fn view(&self) -> Map<Seq<char>, u64> {
        Map::new(
            |h: Seq<char>| exists|i: int| self.has_index(h, i),
            |h: Seq<char>| self.entries@[choose|i: int| self.has_index(h, i)].kill_handle,
        )
    }

    proof fn lemma_view_at(&self, i: int)
        requires
            self.wf(),
            0 <= i < self.entries@.len(),
        ensures
            self.view().contains_key(self.entries@[i].host@),
            self.view()[self.entries@[i].host@] == self.entries@[i].kill_handle,
    {
        let h = self.entries@[i].host@;
        assert(self.has_index(h, i));
        let j = choose|j: int| self.has_index(h, j);
        if j < i {
            assert(self.entries@[j].host@ != self.entries@[i].host@);
        } else if i < j {
            assert(self.entries@[i].host@ != self.entries@[j].host@);
        }
    }

    /// In a well-formed registry, a registered host has exactly one entry.
    pub proof fn law_one_entry_per_host(&self, host: Seq<char>)
        requires
            self.wf(),
            self.view().contains_key(host),
        ensures
            self.has_single_entry(host),
    {
        let i = choose|i: int| self.has_index(host, i);
        assert forall|j: int| #[trigger] self.has_index(host, j) implies j == i by {
            if j < i {
                assert(self.entries@[j].host@ != self.entries@[i].host@);
            } else if i < j {
                assert(self.entries@[i].host@ != self.entries@[j].host@);
            }
        }
    }

    /// An empty registry.
    pub fn new() -> (r: Self)
        ensures
            r.wf(),
            r.view() == Map::<Seq<char>, u64>::empty(),
    {
        let r = TunnelRegistry { entries: Vec::new() };
        assert(r.view() =~= Map::<Seq<char>, u64>::empty());
        r
    }

    fn position(&self, host: &String) -> (r: Option<usize>)
        requires
            self.wf(),
        ensures
            r matches Some(i) ==> self.has_index(host@, i as int),
            r is None ==> !self.view().contains_key(host@),
    {
        let mut i: usize = 0;
        while i < self.entries.len()
            invariant
                0 <= i <= self.entries@.len(),
                forall|j: int| 0 <= j < i ==> self.entries@[j].host@ != host@,
            decreases self.entries@.len() - i,
        {
            if self.entries[i].host == *host {
                return Some(i);
            }
            i = i + 1;
        }
        None
    }

    /// The kill handle of the tunnel for `host`, if there is one.
    pub fn lookup(&self, host: &String) -> (r: Option<u64>)
        requires
            self.wf(),
        ensures
            r == (if self.view().contains_key(host@) {
                Some(self.view()[host@])
            } else {
                None::<u64>
            }),
    {
        match self.position(host) {
            Some(i) => {
                proof {
                    self.lemma_view_at(i as int);
                }
                Some(self.entries[i].kill_handle)
            },
            None => None,
        }
    }

    /// Whether a tunnel for `host` is registered.
    pub fn contains(&self, host: &String) -> (r: bool)
        requires
            self.wf(),
        ensures
            r == self.view().contains_key(host@),
    {
        self.lookup(host).is_some()
    }

    /// Registers the tunnel for `host`, replacing any earlier one.
    pub fn insert(&mut self, host: String, kill_handle: u64)
        requires
            old(self).wf(),
        ensures
            final(self).wf(),
            final(self).view() == old(self).view().insert(host@, kill_handle),
    {
        let ghost pre = *self;
        match self.position(&host) {
            Some(i) => {
                self.entries.set(i, Tunnel { host, kill_handle });
                proof {
                    assert forall|h: Seq<char>| #[trigger] self.view().contains_key(h) == pre.view().insert(host@, kill_handle).contains_key(h) by {
                        if pre.view().contains_key(h) {
                            let j = choose|j: int| pre.has_index(h, j);
                            assert(self.has_index(h, j));
                        }
                        if self.view().contains_key(h) {
                            let j = choose|j: int| self.has_index(h, j);
                            if j != i {
                                assert(pre.has_index(h, j));
                            }
                        }
                    }
                    assert forall|h: Seq<char>| #[trigger] self.view().contains_key(h) implies self.view()[h] == pre.view().insert(host@, kill_handle)[h] by {
                        let j = choose|j: int| self.has_index(h, j);
                        self.lemma_view_at(j);
                        if j != i {
                            pre.lemma_view_at(j);
                        }
                    }
                    assert(self.view() =~= pre.view().insert(host@, kill_handle));
                }
            },
            None => {
                self.entries.push(Tunnel { host, kill_handle });
                proof {
                    let n = pre.entries@.len() as int;
                    assert forall|h: Seq<char>| #[trigger] self.view().contains_key(h) == pre.view().insert(host@, kill_handle).contains_key(h) by {
                        if pre.view().contains_key(h) {
                            let j = choose|j: int| pre.has_index(h, j);
                            assert(self.has_index(h, j));
                        }
                        if h == host@ {
                            assert(self.has_index(h, n));
                        }
                        if self.view().contains_key(h) {
                            let j = choose|j: int| self.has_index(h, j);
                            if j != n {
                                assert(pre.has_index(h, j));
                            }
                        }
                    }
                    assert forall|i: int, j: int| 0 <= i < j < self.entries@.len() implies #[trigger] self.entries@[i].host@
                        != #[trigger] self.entries@[j].host@ by {
                        if j == n {
                            assert(pre.has_index(self.entries@[i].host@, i));
                        }
                    }
                    assert forall|h: Seq<char>| #[trigger] self.view().contains_key(h) implies self.view()[h] == pre.view().insert(host@, kill_handle)[h] by {
                        let j = choose|j: int| self.has_index(h, j);
                        self.lemma_view_at(j);
                        if j != n {
                            pre.lemma_view_at(j);
                        }
                    }
                    assert(self.view() =~= pre.view().insert(host@, kill_handle));
                }
            },
        }
    }

    /// Takes the tunnel for `host` out of the registry and returns its kill
    /// handle, if there was one.
    pub fn remove(&mut self, host: &String) -> (r: Option<u64>)
        requires
            old(self).wf(),
        ensures
            final(self).wf(),
            final(self).view() == old(self).view().remove(host@),
            r == (if old(self).view().contains_key(host@) {
                Some(old(self).view()[host@])
            } else {
                None::<u64>
            }),
    {
        let ghost pre = *self;
        match self.position(host) {
            Some(i) => {
                proof {
                    pre.lemma_view_at(i as int);
                }
                let t = self.entries.remove(i);
                proof {
                    assert forall|a: int, b: int| 0 <= a < b < self.entries@.len() implies #[trigger] self.entries@[a].host@
                        != #[trigger] self.entries@[b].host@ by {
                        let a0 = if a < i { a } else { a + 1 };
                        let b0 = if b < i { b } else { b + 1 };
                        assert(self.entries@[a] == pre.entries@[a0]);
                        assert(self.entries@[b] == pre.entries@[b0]);
                    }
                    assert forall|h: Seq<char>| #[trigger] self.view().contains_key(h) == pre.view().remove(host@).contains_key(h) by {
                        if pre.view().contains_key(h) && h != host@ {
                            let j = choose|j: int| pre.has_index(h, j);
                            if j < i {
                                assert(self.has_index(h, j));
                            } else {
                                assert(j != i);
                                assert(self.has_index(h, j - 1));
                            }
                        }
                        if self.view().contains_key(h) {
                            let j = choose|j: int| self.has_index(h, j);
                            let j0 = if j < i { j } else { j + 1 };
                            assert(pre.has_index(h, j0));
                            if h == host@ {
                                assert(pre.entries@[j0].host@ == pre.entries@[i as int].host@);
                            }
                        }
                    }
                    assert forall|h: Seq<char>| #[trigger] self.view().contains_key(h) implies self.view()[h] == pre.view().remove(host@)[h] by {
                        let j = choose|j: int| self.has_index(h, j);
                        let j0 = if j < i { j } else { j + 1 };
                        self.lemma_view_at(j);
                        assert(self.entries@[j] == pre.entries@[j0]);
                        pre.lemma_view_at(j0);
                    }
                    assert(self.view() =~= pre.view().remove(host@));
                }
                Some(t.kill_handle)
            },
            None => {
                assert(self.view() =~= pre.view().remove(host@));
                None
            },
        }
    }
    /// Takes the tunnel for `host` out of the registry only if it is the one
    /// with `kill_handle`; a newer tunnel for the same host stays. Returns
    /// whether it was taken out.
    pub fn remove_tunnel(&mut self, host: &String, kill_handle: u64) -> (r: bool)
        requires
            old(self).wf(),
        ensures
            final(self).wf(),
            r == (old(self).view().contains_key(host@) && old(self).view()[host@] == kill_handle),
            final(self).view() == release(old(self).view(), host@, kill_handle),
    {
        match self.lookup(host) {
            Some(k) => if k == kill_handle {
                self.remove(host);
                true
            } else {
                false
            },
            None => false,
        }
    }
}

/// The registry after the tunnel with `kill_handle` gives up `host`: its
/// entry goes, any other entry stays.
pub open spec fn release(before: Map<Seq<char>, u64>, host: Seq<char>, kill_handle: u64) -> Map<
    Seq<char>,
    u64,
> {
    if before.contains_key(host) && before[host] == kill_handle {
        before.remove(host)
    } else {
        before
    }
}

} // verus!
