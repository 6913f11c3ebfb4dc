//! Usage counters, kept in the order of their keys.

use crate::table::{distinct_keys, has_key, lemma_table_insert, lemma_table_update, table};
use vstd::prelude::*;
use vstd::utf8::*;

verus! {

/// How often something was seen, and when it was seen last (seconds since
/// the epoch).
#[derive(Clone, Copy, Debug, PartialEq, Eq, Structural)]
pub struct StatEntry {
    pub count: u32,
    pub last_seen: u64,
}

/// `a` and `b` agree on their first `i` bytes, and there `a` ends or has the
/// smaller byte.
pub open spec fn parts_at(a: Seq<u8>, b: Seq<u8>, i: int) -> bool {
    &&& 0 <= i <= a.len()
    &&& i < b.len()
    &&& forall|j: int| 0 <= j < i ==> a[j] == b[j]
    &&& i < a.len() ==> a[i] < b[i]
}

/// The dictionary order of byte strings, strict.
pub open spec fn bytes_before(a: Seq<u8>, b: Seq<u8>) -> bool {
    exists|i: int| parts_at(a, b, i)
}

/// The order in which keys are kept: that of their UTF-8 bytes, which is the
/// order of `str`.
pub open spec fn key_before(a: Seq<char>, b: Seq<char>) -> bool {
    bytes_before(encode_utf8(a), encode_utf8(b))
}

/// The rows stand in the order of their keys, each key before the next.
pub open spec fn ascending<V>(rows: Seq<(Seq<char>, V)>) -> bool {
    forall|i: int, j: int| 0 <= i < j < rows.len() ==> key_before(rows[i].0, rows[j].0)
}

/// No byte string comes before itself.
pub proof fn lemma_bytes_before_irreflexive(a: Seq<u8>)
    ensures
        !bytes_before(a, a),
{
}

/// The dictionary order is transitive.
pub proof fn lemma_bytes_before_transitive(a: Seq<u8>, b: Seq<u8>, c: Seq<u8>)
    requires
        bytes_before(a, b),
        bytes_before(b, c),
    ensures
        bytes_before(a, c),
{
    let i = choose|i: int| parts_at(a, b, i);
    let j = choose|j: int| parts_at(b, c, j);
    if i <= j {
        assert(parts_at(a, c, i));
    } else {
        assert(parts_at(a, c, j));
    }
}

/// Of two different byte strings one comes before the other.
pub proof fn lemma_bytes_before_total(a: Seq<u8>, b: Seq<u8>)
    ensures
        a == b || bytes_before(a, b) || bytes_before(b, a),
{
    lemma_first_difference(a, b, 0);
}

proof fn lemma_first_difference(a: Seq<u8>, b: Seq<u8>, i: int)
    requires
        0 <= i <= a.len(),
        i <= b.len(),
        forall|j: int| 0 <= j < i ==> a[j] == b[j],
    ensures
        a == b || bytes_before(a, b) || bytes_before(b, a),
    decreases a.len() - i,
{
    if i == a.len() && i == b.len() {
        assert(a =~= b);
    } else if i == a.len() {
        assert(parts_at(a, b, i));
    } else if i == b.len() {
        assert(parts_at(b, a, i));
    } else if a[i] < b[i] {
        assert(parts_at(a, b, i));
    } else if b[i] < a[i] {
        assert(parts_at(b, a, i));
    } else {
        lemma_first_difference(a, b, i + 1);
    }
}

/// The order of keys is strict and transitive, and any two different keys
/// are ordered.
pub proof fn lemma_key_order(a: Seq<char>, b: Seq<char>, c: Seq<char>)
    ensures
        !key_before(a, a),
        key_before(a, b) && key_before(b, c) ==> key_before(a, c),
        a == b || key_before(a, b) || key_before(b, a),
{
    lemma_bytes_before_irreflexive(encode_utf8(a));
    if key_before(a, b) && key_before(b, c) {
        lemma_bytes_before_transitive(encode_utf8(a), encode_utf8(b), encode_utf8(c));
    }
    lemma_bytes_before_total(encode_utf8(a), encode_utf8(b));
    if encode_utf8(a) == encode_utf8(b) {
        encode_utf8_decode_utf8(a);
        encode_utf8_decode_utf8(b);
    }
}

/// Where one key stands with respect to another.
#[derive(Clone, Copy, Debug, PartialEq, Eq, Structural)]
pub enum Rank {
    Before,
    Same,
    After,
}

/// Compares two keys.
pub fn rank(a: &str, b: &str) -> (r: Rank)
    ensures
        r == Rank::Before <==> key_before(a@, b@),
        r == Rank::Same <==> a@ == b@,
        r == Rank::After <==> key_before(b@, a@),
{
    let x = a.as_bytes();
    let y = b.as_bytes();
    let mut i: usize = 0;
    while i < x.len() && i < y.len() && x[i] == y[i]
        invariant
            i <= x@.len(),
            i <= y@.len(),
            forall|j: int| 0 <= j < i ==> x@[j] == y@[j],
        decreases x@.len() - i,
    {
        i += 1;
    }
    proof {
        lemma_key_order(a@, b@, a@);
        lemma_key_order(b@, a@, b@);
        if key_before(a@, b@) && key_before(b@, a@) {
            lemma_key_order(a@, b@, a@);
        }
    }
    if i == x.len() && i == y.len() {
        proof {
            assert(x@ =~= y@);
            encode_utf8_decode_utf8(a@);
            encode_utf8_decode_utf8(b@);
        }
        Rank::Same
    } else if i == x.len() {
        assert(parts_at(x@, y@, i as int));
        Rank::Before
    } else if i == y.len() {
        assert(parts_at(y@, x@, i as int));
        Rank::After
    } else if x[i] < y[i] {
        assert(parts_at(x@, y@, i as int));
        Rank::Before
    } else {
        assert(parts_at(y@, x@, i as int));
        Rank::After
    }
}

/// Rows in the order of their keys have distinct keys.
pub proof fn lemma_ascending_distinct<V>(rows: Seq<(Seq<char>, V)>)
    requires
        ascending(rows),
    ensures
        distinct_keys(rows),
{
    assert forall|i: int, j: int| 0 <= i < j < rows.len() implies rows[i].0 != rows[j].0 by {
        lemma_key_order(rows[i].0, rows[j].0, rows[i].0);
    }
}

/// Rows in the order of their keys are settled by the map they describe:
/// two such lists with one map are one list.
pub proof fn lemma_listing_unique<V>(a: Seq<(Seq<char>, V)>, b: Seq<(Seq<char>, V)>)
    requires
        ascending(a),
        ascending(b),
        table(a) == table(b),
    ensures
        a == b,
    decreases a.len(),
{
    lemma_ascending_distinct(a);
    lemma_ascending_distinct(b);
    if a.len() == 0 {
        if b.len() > 0 {
            crate::table::lemma_table_row(b, 0);
        }
        assert(a =~= b);
    } else if b.len() == 0 {
        crate::table::lemma_table_row(a, 0);
    } else {
        let x: int = a.len() - 1;
        let y: int = b.len() - 1;
        crate::table::lemma_table_row(a, x);
        crate::table::lemma_table_row(b, y);
        crate::table::lemma_table_keys(a, b[y].0);
        crate::table::lemma_table_keys(b, a[x].0);
        lemma_key_order(a[x].0, b[y].0, a[x].0);
        assert(a[x].0 == b[y].0);
        assert(a.last() == b.last());
        let front_a = a.drop_last();
        let front_b = b.drop_last();
        assert(!has_key(front_a, a[x].0)) by {
            if has_key(front_a, a[x].0) {
                let k = choose|k: int| 0 <= k < front_a.len() && #[trigger] front_a[k].0 == a[x].0;
                assert(a[k].0 != a[x].0);
            }
        }
        assert(!has_key(front_b, b[y].0)) by {
            if has_key(front_b, b[y].0) {
                let k = choose|k: int| 0 <= k < front_b.len() && #[trigger] front_b[k].0 == b[y].0;
                assert(b[k].0 != b[y].0);
            }
        }
        crate::table::lemma_table_keys(front_a, a[x].0);
        crate::table::lemma_table_keys(front_b, b[y].0);
        assert(table(front_a) =~= table(a).remove(a[x].0));
        assert(table(front_b) =~= table(b).remove(b[y].0));
        assert(ascending(front_a)) by {
            assert forall|p: int, q: int| 0 <= p < q < front_a.len() implies key_before(
                front_a[p].0,
                front_a[q].0,
            ) by {
                assert(key_before(a[p].0, a[q].0));
            }
        }
        assert(ascending(front_b)) by {
            assert forall|p: int, q: int| 0 <= p < q < front_b.len() implies key_before(
                front_b[p].0,
                front_b[q].0,
            ) by {
                assert(key_before(b[p].0, b[q].0));
            }
        }
        lemma_listing_unique(front_a, front_b);
        assert(a =~= front_a.push(a.last()));
        assert(b =~= front_b.push(b.last()));
    }
}

/// The rows of a map of counters in the order of their keys.
pub open spec fn listing_of(stats: Map<Seq<char>, StatEntry>) -> Seq<(Seq<char>, StatEntry)> {
    choose|rows: Seq<(Seq<char>, StatEntry)>| ascending(rows) && table(rows) == stats
}

/// The counters after one more sighting under `key` at the time `now`: a
/// key seen before counts one more, a new key counts one, and either way
/// the time of the last sighting is `now`.
pub open spec fn bumped(
    stats: Map<Seq<char>, StatEntry>,
    key: Seq<char>,
    now: u64,
) -> Map<Seq<char>, StatEntry> {
    let count: int = if stats.contains_key(key) {
        stats[key].count + 1
    } else {
        1
    };
    stats.insert(key, StatEntry { count: count as u32, last_seen: now })
}

/// A counter can still count one more sighting under `key`.
pub open spec fn has_room(stats: Map<Seq<char>, StatEntry>, key: Seq<char>) -> bool {
    stats.contains_key(key) ==> stats[key].count < u32::MAX
}

/// The counters after a run of sightings under `key`, one at each of
/// `times` in turn.
pub open spec fn bumped_at(
    stats: Map<Seq<char>, StatEntry>,
    key: Seq<char>,
    times: Seq<u64>,
) -> Map<Seq<char>, StatEntry>
    decreases times.len(),
{
    if times.len() == 0 {
        stats
    } else {
        bumped(bumped_at(stats, key, times.drop_last()), key, times.last())
    }
}

/// The count under `key`, none being zero.
pub open spec fn count_of(stats: Map<Seq<char>, StatEntry>, key: Seq<char>) -> nat {
    if stats.contains_key(key) {
        stats[key].count as nat
    } else {
        0
    }
}

/// After a run of sightings under one key, its count has grown by their
/// number, and its last sighting is the last of the run; so a key counted
/// for the first time, `k` times over, stands at `k`. Nothing changes under
/// any other key.
pub proof fn lemma_bumps_add_up(stats: Map<Seq<char>, StatEntry>, key: Seq<char>, times: Seq<u64>)
    requires
        times.len() > 0,
        count_of(stats, key) + times.len() <= u32::MAX,
    ensures
        bumped_at(stats, key, times).contains_key(key),
        bumped_at(stats, key, times)[key].count == count_of(stats, key) + times.len(),
        bumped_at(stats, key, times)[key].last_seen == times.last(),
        forall|other: Seq<char>|
            other != key ==> bumped_at(stats, key, times).contains_key(other)
                == stats.contains_key(other),
        forall|other: Seq<char>|
            other != key && stats.contains_key(other) ==> bumped_at(stats, key, times)[other]
                == stats[other],
    decreases times.len(),
{
    if times.len() > 1 {
        lemma_bumps_add_up(stats, key, times.drop_last());
    } else {
        assert(times.drop_last().len() == 0);
        assert(bumped_at(stats, key, times.drop_last()) == stats);
    }
}

/// The values of a list of counters.
pub open spec fn stat_rows(rows: Seq<(String, StatEntry)>) -> Seq<(Seq<char>, StatEntry)> {
    Seq::new(rows.len(), |i: int| (rows[i].0@, rows[i].1))
}

struct StatRow {
    key: String,
    entry: StatEntry,
}

spec fn rows_of(rows: Seq<StatRow>) -> Seq<(Seq<char>, StatEntry)> {
    Seq::new(rows.len(), |i: int| (rows[i].key@, rows[i].entry))
}

/// A row that enters between the keys before it and the keys after it
/// leaves the rows in order.
proof fn lemma_ascending_insert<V>(rows: Seq<(Seq<char>, V)>, at: int, key: Seq<char>, value: V)
    requires
        ascending(rows),
        0 <= at <= rows.len(),
        forall|j: int| 0 <= j < at ==> key_before(#[trigger] rows[j].0, key),
        forall|j: int| at <= j < rows.len() ==> key_before(key, #[trigger] rows[j].0),
    ensures
        ascending(rows.insert(at, (key, value))),
{
    let grown = rows.insert(at, (key, value));
    assert forall|i: int, j: int| 0 <= i < j < grown.len() implies key_before(
        grown[i].0,
        grown[j].0,
    ) by {
        if j < at {
            assert(key_before(rows[i].0, rows[j].0));
        } else if j == at {
            assert(key_before(rows[i].0, key));
        } else if i < at {
            assert(key_before(rows[i].0, rows[j - 1].0));
        } else if i == at {
            assert(key_before(key, rows[j - 1].0));
        } else {
            assert(key_before(rows[i - 1].0, rows[j - 1].0));
        }
    }
}

/// Counters by key. The keys are kept in their order, as an ordered map
/// keeps them, so that the counters are listed the same way each time.
pub struct Stats {
    rows: Vec<StatRow>,
}

impl View for Stats {
    type V = Map<Seq<char>, StatEntry>;

    closed spec fn view(&self) -> Map<Seq<char>, StatEntry> {
        table(self.listing())
    }
}

impl Stats {
    spec fn listing(self) -> Seq<(Seq<char>, StatEntry)> {
        rows_of(self.rows@)
    }

    #[verifier::type_invariant]
    spec fn ordered(self) -> bool {
        ascending(self.listing())
    }

    /// No counters.
    pub fn new() -> (r: Stats)
        ensures
            r@ == Map::<Seq<char>, StatEntry>::empty(),
    {
        Stats { rows: Vec::new() }
    }

    /// The place of `key` among the rows, and whether a row has it.
    fn locate(&self, key: &str) -> (r: (usize, bool))
        ensures
            r.0 <= self.listing().len(),
            r.1 ==> r.0 < self.listing().len() && self.listing()[r.0 as int].0 == key@,
            r.1 <==> has_key(self.listing(), key@),
            forall|j: int| 0 <= j < r.0 ==> key_before(#[trigger] self.listing()[j].0, key@),
            forall|j: int|
                r.0 <= j < self.listing().len() && !r.1 ==> key_before(
                    key@,
                    #[trigger] self.listing()[j].0,
                ),
    {
        proof {
            use_type_invariant(self);
        }
        let ghost rows = self.listing();
        let mut i: usize = 0;
        let mut found = false;
        while i < self.rows.len()
            invariant_except_break
                !found,
            invariant
                rows == self.listing(),
                ascending(rows),
                i <= rows.len(),
                forall|j: int| 0 <= j < i ==> key_before(#[trigger] rows[j].0, key@),
            ensures
                found ==> i < rows.len() && rows[i as int].0 == key@,
                !found ==> i == rows.len() || key_before(key@, rows[i as int].0),
            decreases rows.len() - i,
        {
            let r = rank(self.rows[i].key.as_str(), key);
            assert(rows[i as int].0 == self.rows@[i as int].key@);
            if r == Rank::Same {
                found = true;
                break ;
            } else if r == Rank::After {
                break ;
            }
            i += 1;
        }
        proof {
            assert forall|j: int| 0 <= j < i implies rows[j].0 != key@ by {
                lemma_key_order(rows[j].0, key@, rows[j].0);
            }
            assert forall|j: int| i <= j < rows.len() && !found implies key_before(
                key@,
                #[trigger] rows[j].0,
            ) by {
                if j > i {
                    lemma_key_order(key@, rows[i as int].0, rows[j].0);
                }
            }
            assert forall|j: int| i <= j < rows.len() && !found implies rows[j].0 != key@ by {
                lemma_key_order(key@, rows[j].0, key@);
            }
            if found {
                assert(has_key(rows, key@));
            }
        }
        (i, found)
    }

    /// The counter under `key`, if there is one.
    pub fn get(&self, key: &str) -> (r: Option<StatEntry>)
        ensures
            r == if self@.contains_key(key@) {
                Some(self@[key@])
            } else {
                None
            },
    {
        proof {
            use_type_invariant(self);
            lemma_ascending_distinct(self.listing());
            crate::table::lemma_table_keys(self.listing(), key@);
        }
        let (i, found) = self.locate(key);
        if found {
            proof {
                crate::table::lemma_table_row(self.listing(), i as int);
            }
            Some(self.rows[i].entry)
        } else {
            None
        }
    }

    /// Puts `entry` under `key`, in place of the counter there, if any.
    pub fn put(&mut self, key: &str, entry: StatEntry)
        ensures
            final(self)@ == old(self)@.insert(key@, entry),
    {
        proof {
            use_type_invariant(&*self);
            lemma_ascending_distinct(self.listing());
        }
        let ghost before = self.listing();
        let (i, found) = self.locate(key);
        let mut rows: Vec<StatRow> = Vec::new();
        core::mem::swap(&mut self.rows, &mut rows);
        assert(rows_of(rows@) == before);
        if found {
            proof {
                lemma_table_update(before, i as int, entry);
            }
            rows[i].entry = entry;
            assert(rows_of(rows@) =~= before.update(i as int, (before[i as int].0, entry)));
            self.rows = rows;
        } else {
            proof {
                lemma_table_insert(before, i as int, key@, entry);
                lemma_ascending_insert(before, i as int, key@, entry);
            }
            rows.insert(i, StatRow { key: key.to_owned(), entry });
            assert(rows_of(rows@) =~= before.insert(i as int, (key@, entry)));
            self.rows = rows;
        }
    }

    /// Counts one more sighting under `key`, at the time `now`.
    pub fn bump(&mut self, key: &str, now: u64)
        requires
            has_room(old(self)@, key@),
        ensures
            final(self)@ == bumped(old(self)@, key@, now),
    {
        let count: u32 = match self.get(key) {
            Some(entry) => entry.count + 1,
            None => 1,
        };
        self.put(key, StatEntry { count, last_seen: now });
    }

    /// The counters, in the order of their keys.
    pub fn entries(&self) -> (r: Vec<(String, StatEntry)>)
        ensures
            ascending(stat_rows(r@)),
            table(stat_rows(r@)) == self@,
            stat_rows(r@) == listing_of(self@),
    {
        proof {
            use_type_invariant(self);
        }
        let mut list: Vec<(String, StatEntry)> = Vec::new();
        let mut i: usize = 0;
        while i < self.rows.len()
            invariant
                i <= self.rows@.len(),
                list@.len() == i,
                forall|j: int|
                    0 <= j < i ==> (#[trigger] list@[j]).0@ == self.rows@[j].key@ && list@[j].1
                        == self.rows@[j].entry,
            decreases self.rows@.len() - i,
        {
            list.push((self.rows[i].key.clone(), self.rows[i].entry));
            i += 1;
        }
        assert(stat_rows(list@) =~= self.listing());
        proof {
            lemma_listing_unique(self.listing(), listing_of(self@));
        }
        list
    }
}

} // verus!
