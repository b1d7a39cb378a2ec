//! The table of a module's live ports, one per linked peer.

use vstd::prelude::*;
use crate::ids::PortId;

verus! {

/// Tuning of the runtime, from the module's configuration.
#[derive(Debug, Clone, Copy, PartialEq, Eq, Structural)]
pub struct FmlConfig {
    /// Number of inbound call handlers.
    pub server_threads: usize,
    /// Maximum number of outstanding outbound calls.
    pub call_slots: usize,
}

/// One linked peer.
pub struct PortEntry<P> {
    /// This side's port id.
    pub port_id: PortId,
    /// Name of the peer module.
    pub peer_module: String,
    /// The peer's port id.
    pub peer_port_id: PortId,
    /// The live port.
    pub port: P,
}

/// The position of the entry for `port_id` at or after `start`.
pub open spec fn entry_from<P>(map: Seq<PortEntry<P>>, port_id: PortId, start: int) -> Option<nat>
    decreases map.len() - start,
{
    if start < 0 || start >= map.len() {
        None
    } else if map[start].port_id == port_id {
        Some(start as nat)
    } else {
        entry_from(map, port_id, start + 1)
    }
}

/// The position of the entry for `port_id`.
pub open spec fn entry_of<P>(map: Seq<PortEntry<P>>, port_id: PortId) -> Option<nat> {
    entry_from(map, port_id, 0)
}

/// The position of the first entry whose peer is `name`, at or after `start`.
pub open spec fn peer_from<P>(map: Seq<PortEntry<P>>, name: Seq<char>, start: int) -> Option<nat>
    decreases map.len() - start,
{
    if start < 0 || start >= map.len() {
        None
    } else if map[start].peer_module@ == name {
        Some(start as nat)
    } else {
        peer_from(map, name, start + 1)
    }
}

/// The position of the first entry whose peer is `name`.
pub open spec fn peer_of<P>(map: Seq<PortEntry<P>>, name: Seq<char>) -> Option<nat> {
    peer_from(map, name, 0)
}

/// An entry found from `start` on lies in the table and has the searched key.
proof fn lemma_found_entries<P>(map: Seq<PortEntry<P>>, port_id: PortId, name: Seq<char>, start: int)
    requires
        0 <= start,
    ensures
        entry_from(map, port_id, start) matches Some(i) ==> start <= i < map.len() && map[i as int].port_id == port_id,
        entry_from(map, port_id, start) is None ==> forall|j: int| start <= j < map.len() ==> map[j].port_id != port_id,
        peer_from(map, name, start) matches Some(i) ==> start <= i < map.len() && map[i as int].peer_module@ == name,
    decreases map.len() - start,
{
    if start < map.len() {
        lemma_found_entries(map, port_id, name, start + 1);
    }
}

/// The module's ports and runtime settings.
pub struct PortTable<P> {
    pub config_fml: FmlConfig,
    /// The linked peers, in the order they were linked.
    pub map: Vec<PortEntry<P>>,
    /// Set when the host shuts every module down: handles are then no
    /// longer deleted one by one.
    pub no_drop: bool,
}

impl<P> PortTable<P> {
    /// No port id is linked twice.
    pub open spec fn wf(&self) -> bool {
        forall|i: int, j: int| 0 <= i < j < self.map@.len() ==> self.map@[i].port_id != self.map@[j].port_id
    }

    /// A table with no port.
    pub fn new(config_fml: FmlConfig) -> (r: Self)
        ensures
            r.wf(),
            r.config_fml == config_fml,
            r.map@.len() == 0,
            !r.no_drop,
    {
        PortTable { config_fml, map: Vec::new(), no_drop: false }
    }

    /// The position of the entry for `port_id`.
    fn position(&self, port_id: PortId) -> (r: Option<usize>)
        ensures
            r matches Some(i) ==> entry_of(self.map@, port_id) == Some(i as nat),
            r is None ==> entry_of(self.map@, port_id) is None,
    {
        let mut i: usize = 0;
        while i < self.map.len()
            invariant
                i <= self.map@.len(),
                entry_from(self.map@, port_id, i as int) == entry_of(self.map@, port_id),
            decreases self.map@.len() - i,
        {
            if self.map[i].port_id == port_id {
                return Some(i);
            }
            i = i + 1;
        }
        None
    }

    /// Whether `port_id` is linked.
    pub fn is_linked(&self, port_id: PortId) -> (r: bool)
        ensures
            r == entry_of(self.map@, port_id) is Some,
    {
        self.position(port_id).is_some()
    }

    /// Links `port_id` to port `peer_port_id` of module `peer_module` through
    /// `port`. Linking a port id that is linked already, without unlinking
    /// it first, is a usage error and left out: callers test `is_linked`
    /// first.
    pub fn link(&mut self, port_id: PortId, peer_module: String, peer_port_id: PortId, port: P)
        requires
            old(self).wf(),
            entry_of(old(self).map@, port_id) is None,
        ensures
            final(self).wf(),
            final(self).config_fml == old(self).config_fml,
            final(self).no_drop == old(self).no_drop,
            final(self).map@ == old(self).map@.push(PortEntry { port_id, peer_module, peer_port_id, port }),
    {
        proof {
            lemma_found_entries(self.map@, port_id, Seq::empty(), 0);
        }
        self.map.push(PortEntry { port_id, peer_module, peer_port_id, port });
    }

    /// Unlinks `port_id` and hands its port back, for the caller to close.
    /// The other entries keep their order.
    pub fn unlink(&mut self, port_id: PortId) -> (r: Option<P>)
        requires
            old(self).wf(),
        ensures
            final(self).wf(),
            final(self).config_fml == old(self).config_fml,
            final(self).no_drop == old(self).no_drop,
            r is None <==> entry_of(old(self).map@, port_id) is None,
            r is None ==> final(self).map@ == old(self).map@,
            entry_of(old(self).map@, port_id) matches Some(i) ==> {
                &&& r == Some(old(self).map@[i as int].port)
                &&& final(self).map@ == old(self).map@.remove(i as int)
            },
    {
        match self.position(port_id) {
            None => None,
            Some(i) => {
                proof {
                    lemma_found_entries(self.map@, port_id, Seq::empty(), 0);
                }
                let entry = self.map.remove(i);
                assert forall|a: int, b: int| 0 <= a < b < self.map@.len() implies self.map@[a].port_id != self.map@[b].port_id by {
                    let oa = if a < i { a } else { a + 1 };
                    let ob = if b < i { b } else { b + 1 };
                    assert(self.map@[a] == old(self).map@[oa]);
                    assert(self.map@[b] == old(self).map@[ob]);
                }
                Some(entry.port)
            },
        }
    }

    /// The port that `port_id` names, if it is linked.
    pub fn get(&self, port_id: PortId) -> (r: Option<&P>)
        ensures
            r is None <==> entry_of(self.map@, port_id) is None,
            r matches Some(p) ==> entry_of(self.map@, port_id) matches Some(i) && *p == self.map@[i as int].port,
    {
        match self.position(port_id) {
            None => None,
            Some(i) => {
                proof {
                    lemma_found_entries(self.map@, port_id, Seq::empty(), 0);
                }
                Some(&self.map[i].port)
            },
        }
    }
}

/// The id of this side's port linked to module `id`: the first one linked,
/// when there are several.
pub fn find_port_id<P>(table: &PortTable<P>, id: &String) -> (r: Result<PortId, ()>)
    ensures
        r is Err <==> peer_of(table.map@, id@) is None,
        r matches Ok(p) ==> peer_of(table.map@, id@) matches Some(i) && p == table.map@[i as int].port_id,
{
    let mut i: usize = 0;
    while i < table.map.len()
        invariant
            i <= table.map@.len(),
            peer_from(table.map@, id@, i as int) == peer_of(table.map@, id@),
        decreases table.map@.len() - i,
    {
        if table.map[i].peer_module == *id {
            return Ok(table.map[i].port_id);
        }
        i = i + 1;
    }
    Err(())
}

/// Marks the whole module as shutting down: from now on handles are not
/// deleted one by one, which avoids waiting on peers that exit too.
pub fn shutdown<P>(table: &mut PortTable<P>)
    ensures
        final(table).no_drop,
        final(table).map@ == old(table).map@,
        final(table).config_fml == old(table).config_fml,
{
    table.no_drop = true;
}

} // verus!
