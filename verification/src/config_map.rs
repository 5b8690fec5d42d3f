//! Model of the kernel-shared flow-configuration map.
//!
//! The interception programs resolve a flow's fault parameters by its
//! socket key in a shared associative store. This module is the library's
//! verified representation of that store's user-space contents: a bounded
//! associative container keyed by [`SocketKey`], with last-writer-wins
//! semantics per key. Its view is a `Map` from keys to configuration
//! pairs, so callers reason about it with ordinary map operations.

use vstd::prelude::*;

use crate::errors::ClientSocketError;
use crate::flow_config::FlowConfig;
use crate::socket_key::SocketKey;

verus! {

/// The two directional configurations registered for one flow.
#[derive(Clone, Copy, PartialEq, Eq, Structural, Debug)]
pub struct FlowPair {
    /// Configuration applied to traffic towards the server.
    pub outbound: FlowConfig,
    /// Configuration applied to traffic towards the client.
    pub inbound: FlowConfig,
}

/// The association a list of entries denotes: later entries win.
pub open spec fn entries_map(s: Seq<(SocketKey, FlowPair)>) -> Map<SocketKey, FlowPair>
    decreases s.len(),
{
    if s.len() == 0 {
        Map::empty()
    } else {
        entries_map(s.drop_last()).insert(s.last().0, s.last().1)
    }
}

/// Bounded flow-configuration store keyed by socket key.
///
/// Entries are written before the flow's connection is opened and are
/// never deleted by this core; the bound models the fixed capacity of the
/// underlying kernel map.
pub struct FlowConfigMap {
    entries: Vec<(SocketKey, FlowPair)>,
    capacity: usize,
}

impl View for FlowConfigMap {
    type V = Map<SocketKey, FlowPair>;

    closed spec fn view(&self) -> Map<SocketKey, FlowPair> {
        entries_map(self.entries@)
    }
}

impl FlowConfigMap {
    /// Each key is stored at most once, and the store is within capacity.
    pub closed spec fn wf(&self) -> bool {
        &&& forall|i: int, j: int|
            0 <= i < j < self.entries@.len() ==> self.entries@[i].0 != self.entries@[j].0
        &&& self.entries@.len() <= self.capacity
    }

    /// The number of flows the store can hold.
    pub closed spec fn spec_capacity(&self) -> nat {
        self.capacity as nat
    }

    /// Creates an empty store that can hold `capacity` flows.
    pub fn new(capacity: usize) -> (r: FlowConfigMap)
        ensures
            r@ == Map::<SocketKey, FlowPair>::empty(),
            r.wf(),
            r.spec_capacity() == capacity,
    {
        FlowConfigMap { entries: Vec::new(), capacity }
    }

    /// Looks a flow up by its key.
    pub fn get(&self, key: &SocketKey) -> (r: Option<FlowPair>)
        requires
            self.wf(),
        ensures
            self@.contains_key(*key) ==> r == Some(self@[*key]),
            !self@.contains_key(*key) ==> r is None,
    {
        let n = self.entries.len();
        let mut i: usize = 0;
        while i < n
            invariant
                self.wf(),
                n == self.entries@.len(),
                i <= n,
                forall|t: int| 0 <= t < i ==> self.entries@[t].0 != *key,
            decreases n - i,
        {
            if self.entries[i].0 == *key {
                proof {
                    lemma_entries_found(self.entries@, *key, i as int);
                }
                return Some(self.entries[i].1);
            }
            i += 1;
        }
        proof {
            lemma_entries_absent(self.entries@, *key);
        }
        None
    }

    /// Registers (or overwrites) the configuration pair of one flow.
    ///
    /// Succeeds exactly when the key is already present or the store is
    /// not yet full; a full store fails with `ConfigWriteFailed` and is
    /// left unchanged. Concurrent writers of distinct keys never disturb
    /// each other (see [`lemma_map_isolation`]).
    pub fn insert(&mut self, key: SocketKey, pair: FlowPair) -> (r: Result<(), ClientSocketError>)
        requires
            old(self).wf(),
        ensures
            final(self).wf(),
            final(self).spec_capacity() == old(self).spec_capacity(),
            (r matches Ok(u) && u == ()) <==> (old(self)@.contains_key(key) || old(
                self,
            )@.dom().len() < old(self).spec_capacity()),
            r matches Ok(u) ==> final(self)@ == old(self)@.insert(key, pair),
            r matches Err(e) ==> e == ClientSocketError::ConfigWriteFailed && *final(self) == *old(
                self,
            ),
    {
        proof {
            lemma_entries_dom(self.entries@);
        }
        let n = self.entries.len();
        let mut i: usize = 0;
        while i < n
            invariant
                self.wf(),
                *self == *old(self),
                n == self.entries@.len(),
                i <= n,
                forall|t: int| 0 <= t < i ==> self.entries@[t].0 != key,
            decreases n - i,
        {
            if self.entries[i].0 == key {
                proof {
                    lemma_entries_found(self.entries@, key, i as int);
                    lemma_entries_update(self.entries@, i as int, key, pair);
                }
                self.entries.set(i, (key, pair));
                return Ok(());
            }
            i += 1;
        }
        proof {
            lemma_entries_absent(self.entries@, key);
        }
        if self.entries.len() < self.capacity {
            let ghost s0 = self.entries@;
            self.entries.push((key, pair));
            proof {
                assert(self.entries@.drop_last() =~= s0);
            }
            Ok(())
        } else {
            Err(ClientSocketError::ConfigWriteFailed)
        }
    }
}

/// A key held by no entry is not in the denoted map.
proof fn lemma_entries_absent(s: Seq<(SocketKey, FlowPair)>, key: SocketKey)
    requires
        forall|t: int| 0 <= t < s.len() ==> s[t].0 != key,
    ensures
        !entries_map(s).contains_key(key),
    decreases s.len(),
{
    if s.len() > 0 {
        lemma_entries_absent(s.drop_last(), key);
    }
}

/// The last entry holding a key gives that key's value in the denoted map.
proof fn lemma_entries_found(s: Seq<(SocketKey, FlowPair)>, key: SocketKey, j: int)
    requires
        0 <= j < s.len(),
        s[j].0 == key,
        forall|t: int| j < t < s.len() ==> s[t].0 != key,
    ensures
        entries_map(s).contains_key(key),
        entries_map(s)[key] == s[j].1,
    decreases s.len(),
{
    if j == s.len() - 1 {
    } else {
        lemma_entries_found(s.drop_last(), key, j);
    }
}

/// With distinct keys, the denoted map has exactly one entry per element.
proof fn lemma_entries_dom(s: Seq<(SocketKey, FlowPair)>)
    requires
        forall|i: int, j: int| 0 <= i < j < s.len() ==> s[i].0 != s[j].0,
    ensures
        entries_map(s).dom().finite(),
        entries_map(s).dom().len() == s.len(),
    decreases s.len(),
{
    if s.len() > 0 {
        let dl = s.drop_last();
        lemma_entries_dom(dl);
        lemma_entries_absent(dl, s.last().0);
        assert(entries_map(s).dom() =~= entries_map(dl).dom().insert(s.last().0));
        vstd::set::axiom_set_insert_len(entries_map(dl).dom(), s.last().0);
    }
}

/// Overwriting the unique entry of a key denotes a plain map insert.
proof fn lemma_entries_update(
    s: Seq<(SocketKey, FlowPair)>,
    j: int,
    key: SocketKey,
    pair: FlowPair,
)
    requires
        0 <= j < s.len(),
        s[j].0 == key,
        forall|t: int| 0 <= t < s.len() && t != j ==> s[t].0 != key,
    ensures
        entries_map(s.update(j, (key, pair))) == entries_map(s).insert(key, pair),
    decreases s.len(),
{
    let u = s.update(j, (key, pair));
    if j == s.len() - 1 {
        assert(u.drop_last() =~= s.drop_last());
        assert(entries_map(u) =~= entries_map(s).insert(key, pair));
    } else {
        assert(u.drop_last() =~= s.drop_last().update(j, (key, pair)));
        lemma_entries_update(s.drop_last(), j, key, pair);
        assert(u.last() == s.last());
        assert(entries_map(u) == entries_map(s.drop_last()).insert(key, pair).insert(
            s.last().0,
            s.last().1,
        ));
        assert(entries_map(s.drop_last()).insert(key, pair).insert(s.last().0, s.last().1)
            =~= entries_map(s.drop_last()).insert(s.last().0, s.last().1).insert(key, pair));
    }
}

/// Law: writing a configuration under one key is invisible under every
/// distinct key — neither that key's presence nor its value changes.
pub proof fn lemma_map_isolation(
    m: Map<SocketKey, FlowPair>,
    k1: SocketKey,
    k2: SocketKey,
    pair: FlowPair,
)
    requires
        k1 != k2,
    ensures
        m.insert(k1, pair).contains_key(k2) == m.contains_key(k2),
        m.contains_key(k2) ==> m.insert(k1, pair)[k2] == m[k2],
{
}

} // verus!
