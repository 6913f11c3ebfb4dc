//! The node directory and the usage counters: what the bridge remembers.

use crate::protobufs::{MeshPacket, User, UserView, BROADCAST};
use crate::snapshot::{all_numerals, numbered, Snapshot};
use crate::report::{report, report_view, write_report};
use crate::stats::{
    bumped, bumped_at, count_of, has_room, lemma_bumps_add_up, listing_of, StatEntry, Stats,
};
use crate::table::{has_key, table};
use crate::text::{decimal, decimal_text, lemma_decimal_injective, parse_decimal};
use std::collections::HashMap;
use vstd::prelude::*;
use vstd::std_specs::iter::IteratorSpec;

verus! {

broadcast use vstd::std_specs::hash::group_hash_axioms;

/// The directory of known nodes together with the usage counters.
pub struct Storage {
    users: HashMap<u32, User>,
    stats: Stats,
}

/// The mathematical value of a [`Storage`]: the record of each known node by
/// its number, and the counter under each key.
pub struct StorageView {
    pub users: Map<u32, UserView>,
    pub stats: Map<Seq<char>, StatEntry>,
}

impl StorageView {
    /// Nothing known and nothing counted.
    pub open spec fn empty() -> StorageView {
        StorageView { users: Map::empty(), stats: Map::empty() }
    }

    /// The name under which a node is known: the long name of its record,
    /// or, for a node never heard of, its number in decimal.
    pub open spec fn long_name_of(self, user_id: u32) -> Seq<char> {
        if self.users.contains_key(user_id) {
            self.users[user_id].long_name
        } else {
            decimal(user_id as nat)
        }
    }

    /// The name shown for an address. The broadcast address is shown as
    /// `BROADCAST` whatever the directory holds, and is never looked up.
    pub open spec fn display_name(self, address: u32) -> Seq<char> {
        if address == BROADCAST {
            "BROADCAST"@
        } else {
            self.long_name_of(address)
        }
    }

    /// The key under which an event of the sort `info` from the node
    /// `sender` is counted: the sender's shown name, a colon, the sort.
    pub open spec fn stat_key(self, sender: u32, info: Seq<char>) -> Seq<char> {
        self.display_name(sender) + seq![':'] + info
    }

    /// The directory with `user` as the whole record of the node `id`.
    pub open spec fn upsert(self, id: u32, user: UserView) -> StorageView {
        StorageView { users: self.users.insert(id, user), stats: self.stats }
    }

    /// The counters after one more event of the sort `info` from `sender`.
    pub open spec fn insert_stat(self, sender: u32, info: Seq<char>, now: u64) -> StorageView {
        StorageView {
            users: self.users,
            stats: bumped(self.stats, self.stat_key(sender, info), now),
        }
    }

    /// The storage after a run of events of the sort `info` from `sender`,
    /// one counted at each of `times` in turn.
    pub open spec fn insert_stats(self, sender: u32, info: Seq<char>, times: Seq<u64>) -> StorageView
        decreases times.len(),
    {
        if times.len() == 0 {
            self
        } else {
            self.insert_stats(sender, info, times.drop_last()).insert_stat(
                sender,
                info,
                times.last(),
            )
        }
    }

    /// The counter for events of the sort `info` from `sender` can count
    /// one more.
    pub open spec fn stat_has_room(self, sender: u32, info: Seq<char>) -> bool {
        has_room(self.stats, self.stat_key(sender, info))
    }
}

/// A node that was never entered is known by its number in decimal. Once a
/// record is entered for it, it is known by the long name of that record,
/// and every other node is known as before.
pub proof fn lemma_lookup_follows_upsert(storage: StorageView, id: u32, user: UserView)
    ensures
        StorageView::empty().long_name_of(id) == decimal(id as nat),
        !storage.users.contains_key(id) ==> storage.long_name_of(id) == decimal(id as nat),
        storage.upsert(id, user).long_name_of(id) == user.long_name,
        forall|other: u32|
            other != id ==> storage.upsert(id, user).long_name_of(other) == storage.long_name_of(
                other,
            ),
{
}

/// Entering the same record for the same node a second time changes
/// nothing: the storage, and so every name looked up in it, is what it was
/// after the first time.
pub proof fn lemma_upsert_idempotent(storage: StorageView, id: u32, user: UserView)
    ensures
        storage.upsert(id, user).upsert(id, user) == storage.upsert(id, user),
        forall|other: u32|
            storage.upsert(id, user).upsert(id, user).long_name_of(other) == storage.upsert(
                id,
                user,
            ).long_name_of(other),
{
    assert(storage.users.insert(id, user).insert(id, user) =~= storage.users.insert(id, user));
}

/// An entry replaces the whole record: of two records entered for one node,
/// only the second is left.
pub proof fn lemma_upsert_replaces(storage: StorageView, id: u32, first: UserView, second: UserView)
    ensures
        storage.upsert(id, first).upsert(id, second) == storage.upsert(id, second),
{
    assert(storage.users.insert(id, first).insert(id, second) =~= storage.users.insert(
        id,
        second,
    ));
}

/// Counting a run of events of one sort from one sender raises one counter
/// by the length of the run and leaves it at the time of the last event of
/// the run, be that time earlier or later than the ones before; so a first
/// run of `k` events stands at `k`. The directory is untouched, the key of
/// the counter stays what it was, and every event of the run finds room in
/// the counter. The sender may be any address: a node is counted under the
/// name it is known by, the broadcast address under `BROADCAST`.
pub proof fn lemma_insert_stats_add_up(
    storage: StorageView,
    sender: u32,
    info: Seq<char>,
    times: Seq<u64>,
)
    requires
        times.len() > 0,
        count_of(storage.stats, storage.stat_key(sender, info)) + times.len() <= u32::MAX,
    ensures
        ({
            let key = storage.stat_key(sender, info);
            let after = storage.insert_stats(sender, info, times);
            &&& after.users == storage.users
            &&& after.stat_key(sender, info) == key
            &&& after.stats == bumped_at(storage.stats, key, times)
            &&& after.stats.contains_key(key)
            &&& after.stats[key].count == count_of(storage.stats, key) + times.len()
            &&& after.stats[key].last_seen == times.last()
            &&& storage.insert_stats(sender, info, times.drop_last()).stat_has_room(sender, info)
            &&& sender != BROADCAST ==> key == storage.long_name_of(sender) + seq![':'] + info
            &&& sender == BROADCAST ==> key == "BROADCAST"@ + seq![':'] + info
        }),
    decreases times.len(),
{
    let key = storage.stat_key(sender, info);
    let front = times.drop_last();
    if times.len() > 1 {
        lemma_insert_stats_add_up(storage, sender, info, front);
        lemma_bumps_add_up(storage.stats, key, front);
    } else {
        assert(front.len() == 0);
        assert(storage.insert_stats(sender, info, front) == storage);
        assert(bumped_at(storage.stats, key, front) == storage.stats);
    }
    lemma_bumps_add_up(storage.stats, key, times);
}

/// The broadcast address is shown as `BROADCAST` whatever the directory
/// holds, even a record entered under that very number.
pub proof fn lemma_broadcast_is_never_looked_up(storage: StorageView, user: UserView)
    ensures
        storage.display_name(BROADCAST) == "BROADCAST"@,
        storage.upsert(BROADCAST, user).display_name(BROADCAST) == "BROADCAST"@,
        forall|address: u32|
            address != BROADCAST ==> storage.display_name(address) == storage.long_name_of(
                address,
            ),
{
}

spec fn numeral_is_some(text: Seq<char>) -> bool {
    crate::text::numeral_value(text) is Some
}

impl View for Storage {
    type V = StorageView;

    closed spec fn view(&self) -> StorageView {
        StorageView {
            users: Map::new(|id: u32| self.users@.contains_key(id), |id: u32| self.users@[id]@),
            stats: self.stats@,
        }
    }
}

impl Storage {
    /// A storage that knows no node and has counted nothing.
    pub fn new() -> (r: Storage)
        ensures
            r@ == StorageView::empty(),
    {
        let r = Storage { stats: Stats::new(), users: HashMap::new() };
        assert(r@.users =~= Map::empty());
        r
    }

    /// The name under which the node `user_id` is known.
    pub fn long_name_of(&self, user_id: u32) -> (r: String)
        ensures
            r@ == self@.long_name_of(user_id),
    {
        if let Some(user) = self.users.get(&user_id) {
            user.long_name.clone()
        } else {
            decimal_text(user_id as u64)
        }
    }

    /// The name shown for `address`, which may be the broadcast address.
    pub fn display_name(&self, address: u32) -> (r: String)
        ensures
            r@ == self@.display_name(address),
            address == BROADCAST ==> r@ == "BROADCAST"@,
    {
        if address == BROADCAST {
            String::from_str("BROADCAST")
        } else {
            self.long_name_of(address)
        }
    }

    /// Makes `user` the record of the node `id`, in place of any record there
    /// was.
    pub fn upsert(&mut self, id: u32, user: User)
        ensures
            final(self)@ == old(self)@.upsert(id, user@),
    {
        self.users.insert(id, user);
        assert(self@.users =~= old(self)@.users.insert(id, user@));
    }

    /// The record of the node `id`, if it is known.
    pub fn user(&self, id: u32) -> (r: Option<&User>)
        ensures
            match r {
                Some(user) => self@.users.contains_key(id) && self@.users[id] == user@,
                None => !self@.users.contains_key(id),
            },
    {
        self.users.get(&id)
    }

    /// The key under which an event of the sort `info` from `sender` is
    /// counted.
    pub fn stat_key(&self, sender: u32, info: &str) -> (r: String)
        ensures
            r@ == self@.stat_key(sender, info@),
    {
        let mut key = self.display_name(sender);
        key.append(":");
        key.append(info);
        proof {
            reveal_strlit(":");
            assert(":"@ =~= seq![':']);
        }
        key
    }

    /// The counter under `key`, if anything was counted there.
    pub fn stat(&self, key: &str) -> (r: Option<StatEntry>)
        ensures
            r == if self@.stats.contains_key(key@) {
                Some(self@.stats[key@])
            } else {
                None
            },
    {
        self.stats.get(key)
    }

    /// Whether the counter under `key` can count one more.
    pub fn key_has_room(&self, key: &str) -> (r: bool)
        ensures
            r == has_room(self@.stats, key@),
    {
        match self.stats.get(key) {
            Some(entry) => entry.count < u32::MAX,
            None => true,
        }
    }

    /// Whether the counter for events of the sort `info` from the sender of
    /// `mesh_packet` can count one more.
    pub fn stat_has_room(&self, mesh_packet: &MeshPacket, info: &str) -> (r: bool)
        ensures
            r == self@.stat_has_room(mesh_packet.from, info@),
    {
        let key = self.stat_key(mesh_packet.from, info);
        self.key_has_room(key.as_str())
    }

    /// Counts one more event of the sort `info` from the sender of
    /// `mesh_packet`, seen at the time `now` (seconds since the epoch).
    pub fn insert_stat(&mut self, mesh_packet: &MeshPacket, info: &str, now: u64)
        requires
            old(self)@.stat_has_room(mesh_packet.from, info@),
        ensures
            final(self)@ == old(self)@.insert_stat(mesh_packet.from, info@, now),
    {
        let key = self.stat_key(mesh_packet.from, info);
        self.stats.bump(key.as_str(), now);
    }

    /// The content of the storage, for the caller to write to the file: a
    /// row for each known node, under its number in decimal, in no order
    /// that could be foretold; and a row for each counter, in the order of
    /// the keys.
    pub fn save(&self) -> (r: Snapshot)
        ensures
            r@.describes(self@),
    {
        let mut users: Vec<(String, User)> = Vec::new();
        let ghost all = self.users.iter().remaining();
        for pair in iter: self.users.iter()
            invariant
                iter.seq() == all,
                all.no_duplicates(),
                users@.len() == iter.index(),
                forall|j: int|
                    0 <= j < users@.len() ==> (#[trigger] users@[j]).0@ == decimal(
                        *all[j].0 as nat,
                    ) && users@[j].1@ == (*all[j].1)@,
        {
            let (id, user) = pair;
            users.push((decimal_text(*id as u64), user.clone()));
        }
        let stats = self.stats.entries();
        let r = Snapshot { users, stats };
        proof {
            let rows = r@.users;
            let map = self.users@;
            assert forall|i: int| 0 <= i < rows.len() implies crate::snapshot::is_record_of(
                #[trigger] rows[i],
                self@,
            ) by {
                let id: u32 = *all[i].0;
                assert(map.contains_key(id) && map[id] == *all[i].1);
                assert(rows[i].0 == decimal(id as nat));
            }
            assert forall|i: int, j: int| 0 <= i < j < rows.len() implies rows[i].0
                != rows[j].0 by {
                if rows[i].0 == rows[j].0 {
                    lemma_decimal_injective(*all[i].0 as nat, *all[j].0 as nat);
                    assert(map[*all[i].0] == *all[i].1);
                    assert(map[*all[j].0] == *all[j].1);
                    assert(all[i] == all[j]);
                }
            }
            assert forall|id: u32| self@.users.contains_key(id) implies has_key(
                rows,
                #[trigger] decimal(id as nat),
            ) by {
                assert(map.contains_key(id));
                assert(all.contains((&id, &map[id])));
                let i = choose|i: int| 0 <= i < all.len() && all[i] == (&id, &map[id]);
                assert(rows[i].0 == decimal(id as nat));
            }
        }
        r
    }

    /// The storage that a snapshot holds. With no snapshot, or with one that
    /// has a record under anything but the numeral of a node number, the
    /// bridge starts with the empty storage.
    pub fn load(snapshot: Option<&Snapshot>) -> (r: Storage)
        ensures
            r@ == match snapshot {
                Some(found) => found@.loaded(),
                None => StorageView::empty(),
            },
    {
        let Some(found) = snapshot else {
            return Storage::new();
        };
        let mut storage = Storage::new();
        let ghost rows = found@.users;
        let ghost ids = numbered(rows);
        let mut i: usize = 0;
        while i < found.users.len()
            invariant
                i <= found.users@.len(),
                snapshot == Some(found),
                rows == found@.users,
                ids == numbered(rows),
                forall|j: int| 0 <= j < i ==> numeral_is_some(#[trigger] rows[j].0),
                storage@.users == table(ids.subrange(0, i as int)),
                storage@.stats == Map::<Seq<char>, StatEntry>::empty(),
            decreases found.users@.len() - i,
        {
            let row = &found.users[i];
            assert(rows[i as int] == (row.0@, row.1@));
            match parse_decimal(row.0.as_str()) {
                Some(id) => {
                    storage.upsert(id, row.1.clone());
                    proof {
                        let next = ids.subrange(0, i + 1);
                        assert(next.drop_last() =~= ids.subrange(0, i as int));
                        assert(next.last() == (id, row.1@));
                    }
                },
                None => {
                    assert(crate::text::numeral_value(rows[i as int].0) is None);
                    assert(!all_numerals(rows));
                    return Storage::new();
                },
            }
            i += 1;
        }
        assert(ids.subrange(0, i as int) =~= ids);
        assert(all_numerals(rows));
        let ghost entries = found@.stats;
        let mut k: usize = 0;
        while k < found.stats.len()
            invariant
                k <= found.stats@.len(),
                entries == found@.stats,
                storage@.users == table(ids),
                storage@.stats == table(entries.subrange(0, k as int)),
            decreases found.stats@.len() - k,
        {
            let row = &found.stats[k];
            assert(entries[k as int] == (row.0@, row.1));
            storage.stats.put(row.0.as_str(), row.1);
            proof {
                let next = entries.subrange(0, k + 1);
                assert(next.drop_last() =~= entries.subrange(0, k as int));
                assert(next.last() == (row.0@, row.1));
            }
            k += 1;
        }
        assert(entries.subrange(0, k as int) =~= entries);
        storage
    }

    /// The report on the counters, line by line, for the caller to print;
    /// `None` where the time of some counter cannot be shown.
    pub fn print_stats(&self) -> (r: Option<Vec<String>>)
        ensures
            report_view(r) == report(listing_of(self@.stats)),
    {
        let rows = self.stats.entries();
        write_report(&rows)
    }
}

} // verus!
