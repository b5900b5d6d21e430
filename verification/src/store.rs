//! The server store: the latest known state per address, a logical clock
//! stamping every write, and the shared cursor behind incremental reads.

use vstd::prelude::*;
use crate::address::Address;
use crate::game_server::{GameServer, GameServerView};

verus! {

/// The mathematical value of one store slot.
pub struct StoreEntryView {
    pub addr: Address,
    pub server: GameServerView,
}

/// One store slot: an address and the server state last written for it.
struct StoreEntry {
    addr: Address,
    server: GameServer,
}

/// The mathematical value of a [`ServerStore`].
pub struct StoreView {
    /// The slots, one per distinct address ever written, in first-write
    /// order. The order carries no meaning.
    pub entries: Seq<StoreEntryView>,
    /// The logical clock: it advances by one on every write, and every
    /// slot's `last_updated` is a past value of it.
    pub clock: u64,
    /// The shared read cursor: the clock value at the last incremental
    /// read.
    pub last_read: u64,
}

/// A map from address to the latest server state written for it, plus the
/// read cursor that makes incremental reads possible.
///
/// Writes never remove a slot: an address, once discovered, stays until the
/// process ends, at worst with stale data. Each write stamps its slot with a
/// fresh logical time, so the timestamps under one address only ever grow.
///
/// The store itself is a plain value; callers that share it across tasks
/// wrap it in their own lock and call one operation per critical section,
/// which keeps every read-then-advance atomic. The single cursor is shared
/// by all readers: two readers racing will each see a disjoint slice of the
/// updates. That is a known limitation, acceptable for a single local
/// consumer, not a safe basis for several independent ones.
pub struct ServerStore {
    entries: Vec<StoreEntry>,
    clock: u64,
    last_read: u64,
}

impl View for ServerStore {
    type V = StoreView;

    closed spec fn view(&self) -> StoreView {
        StoreView {
            entries: self.entries@.map_values(
                |e: StoreEntry| StoreEntryView { addr: e.addr, server: e.server@ },
            ),
            clock: self.clock,
            last_read: self.last_read,
        }
    }
}

/// Whether some slot holds address `a`.
pub open spec fn spec_has_addr(entries: Seq<StoreEntryView>, a: Address) -> bool {
    exists|i: int| 0 <= i < entries.len() && entries[i].addr == a
}

/// The index of the slot holding address `a`, where one does.
pub open spec fn spec_addr_index(entries: Seq<StoreEntryView>, a: Address) -> int {
    choose|i: int| 0 <= i < entries.len() && entries[i].addr == a
}

/// The servers of the slots written strictly after `cursor`, in slot order:
/// what an incremental read through `cursor` returns.
pub open spec fn spec_new_servers(entries: Seq<StoreEntryView>, cursor: u64) -> Seq<GameServerView>
    decreases entries.len(),
{
    if entries.len() == 0 {
        Seq::empty()
    } else {
        spec_new_servers(entries.drop_last(), cursor) + (if entries.last().server.last_updated
            > cursor {
            seq![entries.last().server]
        } else {
            Seq::empty()
        })
    }
}

/// The views of a result vector, element by element.
pub open spec fn servers_view(servers: Seq<GameServer>) -> Seq<GameServerView> {
    servers.map_values(|g: GameServer| g@)
}

impl ServerStore {
    /// Well-formedness: addresses are distinct across slots, every stamp is
    /// a past clock value, and the cursor never runs ahead of the clock.
    pub open spec fn wf(self) -> bool {
        &&& (forall|i: int, j: int|
            0 <= i < j < self@.entries.len() ==> self@.entries[i].addr != self@.entries[j].addr)
        &&& (forall|i: int|
            0 <= i < self@.entries.len() ==> self@.entries[i].server.last_updated <= self@.clock)
        &&& self@.last_read <= self@.clock
    }

    /// An empty store at logical time zero.
    pub fn new() -> (r: ServerStore)
        ensures
            r.wf(),
            r@.entries.len() == 0,
            r@.clock == 0,
            r@.last_read == 0,
    {
        let r = ServerStore { entries: Vec::new(), clock: 0, last_read: 0 };
        proof {
            assert(r@.entries =~= Seq::<StoreEntryView>::empty());
        }
        r
    }

    /// The current logical time.
    pub fn clock(&self) -> (r: u64)
        ensures
            r == self@.clock,
    {
        self.clock
    }

    /// Writes `server` as the latest state of `addr`, stamping it with the
    /// next logical time, all in one step: the slot for `addr` — a fresh one
    /// for a first write, the existing one otherwise — afterwards holds
    /// exactly `server` with `last_updated` one past the old clock, and no
    /// other slot changes.
    pub fn upsert(&mut self, addr: Address, server: GameServer)
        requires
            old(self).wf(),
            old(self)@.clock < u64::MAX,
        ensures
            final(self).wf(),
            final(self)@.clock == old(self)@.clock + 1,
            final(self)@.last_read == old(self)@.last_read,
            ({
                let stamped = StoreEntryView {
                    addr,
                    server: GameServerView {
                        last_updated: (old(self)@.clock + 1) as u64,
                        ..server@
                    },
                };
                if spec_has_addr(old(self)@.entries, addr) {
                    final(self)@.entries == old(self)@.entries.update(
                        spec_addr_index(old(self)@.entries, addr),
                        stamped,
                    )
                } else {
                    final(self)@.entries == old(self)@.entries.push(stamped)
                }
            }),
    {
        let now = self.clock + 1;
        self.clock = now;
        let mut server = server;
        server.last_updated = now;
        let ghost stamped = StoreEntryView { addr, server: server@ };
        let ghost entries0 = old(self)@.entries;
        proof {
            assert(self@.entries == entries0);
        }
        match self.find_addr(addr) {
            Some(i) => {
                proof {
                    assert(spec_has_addr(entries0, addr));
                    let k = spec_addr_index(entries0, addr);
                    assert(0 <= k < entries0.len() && entries0[k].addr == addr);
                    assert forall|a: int, b: int| 0 <= a < b < entries0.len() implies entries0[a].addr
                        != entries0[b].addr by {
                        assert(old(self).wf());
                    }
                    assert(k == i as int);
                }
                self.entries[i] = StoreEntry { addr, server };
                proof {
                    assert(self@.entries =~= entries0.update(i as int, stamped));
                    assert forall|a: int, b: int|
                        0 <= a < b < self@.entries.len() implies self@.entries[a].addr
                        != self@.entries[b].addr by {
                        assert(entries0[i as int].addr == addr);
                    }
                }
            },
            None => {
                self.entries.push(StoreEntry { addr, server });
                proof {
                    assert(self@.entries =~= entries0.push(stamped));
                    assert forall|a: int, b: int|
                        0 <= a < b < self@.entries.len() implies self@.entries[a].addr
                        != self@.entries[b].addr by {
                        if b == self@.entries.len() - 1 {
                            assert(!spec_has_addr(entries0, addr));
                            assert(entries0[a].addr != addr);
                        }
                    }
                }
            },
        }
    }

    /// The slot index currently holding `addr`, where one does.
    fn find_addr(&self, addr: Address) -> (r: Option<usize>)
        ensures
            (match r {
                Some(i) => i < self@.entries.len() && self@.entries[i as int].addr == addr,
                None => !spec_has_addr(self@.entries, addr),
            }),
    {
        let n = self.entries.len();
        let mut i: usize = 0;
        while i < n
            invariant
                n == self.entries@.len(),
                i <= n,
                forall|j: int| 0 <= j < i ==> self@.entries[j].addr != addr,
            decreases n - i,
        {
            if self.entries[i].addr == addr {
                return Some(i);
            }
            i = i + 1;
        }
        None
    }

    /// Every slot written strictly after `cursor`, in slot order. This is
    /// the snapshot half of an incremental read; it does not move the
    /// cursor.
    pub fn snapshot_since(&self, cursor: u64) -> (r: Vec<GameServer>)
        ensures
            servers_view(r@) == spec_new_servers(self@.entries, cursor),
    {
        let mut r: Vec<GameServer> = Vec::new();
        let n = self.entries.len();
        let mut i: usize = 0;
        while i < n
            invariant
                n == self.entries@.len(),
                i <= n,
                servers_view(r@) == spec_new_servers(self@.entries.take(i as int), cursor),
            decreases n - i,
        {
            let ghost taken = self@.entries.take(i as int);
            if self.entries[i].server.last_updated > cursor {
                r.push(self.entries[i].server.duplicate());
            }
            proof {
                assert(self@.entries.take(i + 1).drop_last() =~= taken);
                assert(self@.entries.take(i + 1).last() == self@.entries[i as int]);
                assert(servers_view(r@) =~= spec_new_servers(self@.entries.take(i + 1), cursor));
            }
            i = i + 1;
        }
        proof {
            assert(self@.entries.take(n as int) =~= self@.entries);
        }
        r
    }

    /// One incremental read: returns every slot written strictly after the
    /// shared cursor and advances the cursor to the current clock, as one
    /// operation. Under a caller's lock this is a single critical section,
    /// so a write that lands after it is seen by the next read, once, and a
    /// write it returned is never returned again.
    pub fn read_new(&mut self) -> (r: Vec<GameServer>)
        requires
            old(self).wf(),
        ensures
            final(self).wf(),
            servers_view(r@) == spec_new_servers(old(self)@.entries, old(self)@.last_read),
            final(self)@.entries == old(self)@.entries,
            final(self)@.clock == old(self)@.clock,
            final(self)@.last_read == old(self)@.clock,
    {
        let r = self.snapshot_since(self.last_read);
        self.last_read = self.clock;
        r
    }
}

/// Law: an incremental read returns nothing extra — everything it returns
/// is the state of some slot, written strictly after the cursor it read
/// through.
pub proof fn lemma_read_sound(entries: Seq<StoreEntryView>, cursor: u64, j: int)
    requires
        0 <= j < spec_new_servers(entries, cursor).len(),
    ensures
        spec_new_servers(entries, cursor)[j].last_updated > cursor,
        exists|i: int|
            0 <= i < entries.len() && entries[i].server == spec_new_servers(entries, cursor)[j],
    decreases entries.len(),
{
    if entries.len() > 0 {
        let prefix = spec_new_servers(entries.drop_last(), cursor);
        if j < prefix.len() {
            lemma_read_sound(entries.drop_last(), cursor, j);
            let i = choose|i: int|
                0 <= i < entries.drop_last().len() && entries.drop_last()[i].server == prefix[j];
            assert(entries[i].server == spec_new_servers(entries, cursor)[j]);
        } else {
            assert(entries[entries.len() - 1].server == spec_new_servers(entries, cursor)[j]);
        }
    }
}

/// Law: an incremental read omits nothing — every slot written strictly
/// after the cursor appears in the read's result.
pub proof fn lemma_read_complete(entries: Seq<StoreEntryView>, cursor: u64, i: int)
    requires
        0 <= i < entries.len(),
        entries[i].server.last_updated > cursor,
    ensures
        spec_new_servers(entries, cursor).contains(entries[i].server),
    decreases entries.len(),
{
    if i == entries.len() - 1 {
        let r = spec_new_servers(entries, cursor);
        assert(r[r.len() - 1] == entries[i].server);
    } else {
        lemma_read_complete(entries.drop_last(), cursor, i);
        let prefix = spec_new_servers(entries.drop_last(), cursor);
        let j = choose|j: int| 0 <= j < prefix.len() && prefix[j] == entries.drop_last()[i].server;
        assert(spec_new_servers(entries, cursor)[j] == entries[i].server);
    }
}

/// Law: consecutive reads never return the same update twice. If at the
/// time of a read every slot's stamp is at most `clock` — which holds of a
/// well-formed store — then after the read advances the cursor to `clock`,
/// no server the read returned can be returned by a later read, whatever
/// writes land in between.
pub proof fn lemma_consecutive_reads_disjoint(first: Seq<StoreEntryView>, cursor: u64, clock: u64,
    later: Seq<StoreEntryView>, g: GameServerView)
    requires
        forall|i: int| 0 <= i < first.len() ==> first[i].server.last_updated <= clock,
        spec_new_servers(first, cursor).contains(g),
    ensures
        !spec_new_servers(later, clock).contains(g),
{
    let j = choose|j: int|
        0 <= j < spec_new_servers(first, cursor).len() && spec_new_servers(first, cursor)[j] == g;
    lemma_read_sound(first, cursor, j);
    assert(g.last_updated <= clock);
    if spec_new_servers(later, clock).contains(g) {
        let k = choose|k: int|
            0 <= k < spec_new_servers(later, clock).len() && spec_new_servers(later, clock)[k]
                == g;
        lemma_read_sound(later, clock, k);
    }
}

/// Law: the timestamp under one address only ever grows. Every stamp a
/// well-formed store holds lies at or below the clock, and a write stamps
/// its slot with one past the clock — strictly above anything already
/// stored, the slot it replaces included.
pub proof fn lemma_stamps_monotonic(s: ServerStore, i: int)
    requires
        s.wf(),
        0 <= i < s@.entries.len(),
        s@.clock < u64::MAX,
    ensures
        s@.entries[i].server.last_updated < s@.clock + 1,
{
}

/// Law: a read through a cursor that stands at the clock returns nothing:
/// reading twice with no write in between yields an empty second read.
pub proof fn lemma_read_at_clock_empty(s: ServerStore)
    requires
        s.wf(),
        s@.last_read == s@.clock,
    ensures
        spec_new_servers(s@.entries, s@.last_read).len() == 0,
{
    lemma_none_newer(s@.entries, s@.last_read);
}

/// No slot stamped at or before the cursor contributes to a read.
proof fn lemma_none_newer(entries: Seq<StoreEntryView>, cursor: u64)
    requires
        forall|i: int| 0 <= i < entries.len() ==> entries[i].server.last_updated <= cursor,
    ensures
        spec_new_servers(entries, cursor).len() == 0,
    decreases entries.len(),
{
    if entries.len() > 0 {
        lemma_none_newer(entries.drop_last(), cursor);
    }
}

} // verus!
