//! The storage as it is written to its file and read back.

use crate::protobufs::{User, UserView};
use crate::stats::{ascending, stat_rows, StatEntry};
use crate::storage::StorageView;
use crate::table::{distinct_keys, has_key, lemma_table_keys, lemma_table_row, table};
use crate::text::{decimal, lemma_decimal_injective, lemma_numeral_value, numeral_value};
use vstd::prelude::*;

verus! {

/// The content of the storage file: the node records, each under the number
/// of its node written in decimal, and the counters, each under its key.
/// The caller turns it into the bytes of the file and back.
#[derive(Debug, PartialEq, Eq)]
pub struct Snapshot {
    pub users: Vec<(String, User)>,
    pub stats: Vec<(String, StatEntry)>,
}

/// The mathematical value of a [`Snapshot`].
pub struct SnapshotView {
    pub users: Seq<(Seq<char>, UserView)>,
    pub stats: Seq<(Seq<char>, StatEntry)>,
}

/// The values of a list of node records.
pub open spec fn user_rows(rows: Seq<(String, User)>) -> Seq<(Seq<char>, UserView)> {
    Seq::new(rows.len(), |i: int| (rows[i].0@, rows[i].1@))
}

impl View for Snapshot {
    type V = SnapshotView;

    open spec fn view(&self) -> SnapshotView {
        SnapshotView { users: user_rows(self.users@), stats: stat_rows(self.stats@) }
    }
}

/// Every record stands under the numeral of a node number.
pub open spec fn all_numerals(rows: Seq<(Seq<char>, UserView)>) -> bool {
    forall|i: int| 0 <= i < rows.len() ==> numeral_value(#[trigger] rows[i].0) is Some
}

/// The records under the numbers that their numerals name.
pub open spec fn numbered(rows: Seq<(Seq<char>, UserView)>) -> Seq<(u32, UserView)> {
    Seq::new(rows.len(), |i: int| (numeral_value(rows[i].0).unwrap(), rows[i].1))
}

/// The row is the record of some known node, under the numeral of its
/// number.
pub open spec fn is_record_of(row: (Seq<char>, UserView), storage: StorageView) -> bool {
    exists|id: u32|
        #![trigger decimal(id as nat)]
        row.0 == decimal(id as nat) && storage.users.contains_key(id) && storage.users[id]
            == row.1
}

impl SnapshotView {
    /// The storage that is read out of a snapshot. Of two rows with one key
    /// the later counts. A snapshot with a record under anything but the
    /// numeral of a node number is damaged, and gives the empty storage.
    pub open spec fn loaded(self) -> StorageView {
        if all_numerals(self.users) {
            StorageView { users: table(numbered(self.users)), stats: table(self.stats) }
        } else {
            StorageView::empty()
        }
    }

    /// The snapshot holds what the storage holds, and nothing twice: one
    /// record for each known node, under the numeral of its number, and
    /// the counters in the order of their keys.
    pub open spec fn describes(self, storage: StorageView) -> bool {
        &&& ascending(self.stats)
        &&& table(self.stats) == storage.stats
        &&& distinct_keys(self.users)
        &&& forall|i: int|
            0 <= i < self.users.len() ==> is_record_of(#[trigger] self.users[i], storage)
        &&& forall|id: u32|
            storage.users.contains_key(id) ==> has_key(self.users, #[trigger] decimal(id as nat))
    }
}

/// What was saved is what is loaded: the storage read out of a snapshot
/// that describes a storage is that storage, with the same nodes and
/// records, the same keys, counts and times.
pub proof fn lemma_save_then_load(snapshot: SnapshotView, storage: StorageView)
    requires
        snapshot.describes(storage),
    ensures
        snapshot.loaded() == storage,
{
    let rows = snapshot.users;
    let ids = numbered(rows);
    assert forall|i: int| 0 <= i < rows.len() implies numeral_value(#[trigger] rows[i].0)
        is Some && storage.users.contains_key(ids[i].0) && storage.users[ids[i].0]
        == rows[i].1 && rows[i].0 == decimal(ids[i].0 as nat) by {
        assert(is_record_of(rows[i], storage));
        let id = choose|id: u32|
            #![trigger decimal(id as nat)]
            rows[i].0 == decimal(id as nat) && storage.users.contains_key(id)
                && storage.users[id] == rows[i].1;
        lemma_numeral_value(id);
    }
    assert(all_numerals(rows));
    assert(distinct_keys(ids)) by {
        assert forall|i: int, j: int| 0 <= i < j < ids.len() implies ids[i].0 != ids[j].0 by {
            assert(rows[i].0 != rows[j].0);
        }
    }
    let users = table(ids);
    assert forall|id: u32| users.contains_key(id) == storage.users.contains_key(id) by {
        lemma_table_keys(ids, id);
        if storage.users.contains_key(id) {
            let i = choose|i: int| 0 <= i < rows.len() && #[trigger] rows[i].0 == decimal(
                id as nat,
            );
            lemma_decimal_injective(ids[i].0 as nat, id as nat);
            assert(ids[i].0 == id);
        }
        if has_key(ids, id) {
            let i = choose|i: int| 0 <= i < ids.len() && #[trigger] ids[i].0 == id;
            assert(storage.users.contains_key(ids[i].0));
        }
    }
    assert forall|id: u32| users.contains_key(id) implies users[id] == storage.users[id] by {
        lemma_table_keys(ids, id);
        let i = choose|i: int| 0 <= i < ids.len() && #[trigger] ids[i].0 == id;
        lemma_table_row(ids, i);
    }
    assert(users =~= storage.users);
}

} // verus!
