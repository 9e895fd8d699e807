//! The layout of the island: a dictionary from building kind to the buildings
//! of that kind, with the bookkeeping the save files need.

use vstd::prelude::*;
use crate::cf_time::CfTime;

verus! {

/// The numbers of the first buildings start above this one.
pub const SEQ_BASE: i32 = 90000;

/// What a building holds beside the common fields, by its class.
#[derive(Clone, Copy, Debug, PartialEq, Eq, Structural)]
pub enum Detail {
    Restaurant {
        begin_upgrade: u32,
        last_cool: u32,
        property: i32,
        level: i32,
        construct_value: i32,
        island_value: i32,
    },
    Shop {
        begin: CfTime,
        shopping: i32,
        upgrading: i32,
        level: i32,
        sale_item: i32,
        property: i32,
    },
    Apartment { waiting: i32, last_finish: u32 },
    Ship {
        begin_discover: CfTime,
        begin_fix: CfTime,
        state: i32,
        sailing: bool,
        search_map: i32,
        on_board: i32,
    },
    CafeShop { is_new: bool },
    SuperShellTree { bought: u32 },
    Building { begin: CfTime, cooling: CfTime, game_cool: CfTime },
    Spacials { cooling: CfTime },
    TransObject { begin: CfTime },
    YellowDuck { purchase: CfTime, last_transform: CfTime, cooling: CfTime },
    Other,
}

impl Detail {
    /// The key a building is filed under when only its class is known.
    pub open spec fn key(self) -> Option<i32> {
        match self {
            Detail::Restaurant { .. } => Some(29),
            Detail::Apartment { .. } => Some(32),
            Detail::CafeShop { .. } => Some(41),
            Detail::Ship { .. } => Some(39),
            Detail::SuperShellTree { .. } => Some(40),
            Detail::Shop { .. } => Some(28),
            _ => None,
        }
    }
}

/// Everything of a building but its list of gifts. `handle` names the game's
/// own object; 0 stands for one that is still to be made.
#[derive(Clone, Copy, Debug, PartialEq, Eq, Structural)]
pub struct Head {
    pub handle: u32,
    pub seq_id: i32,
    pub object_id: i32,
    pub tile_x: i32,
    pub tile_y: i32,
    pub flip: i32,
    pub detail: Detail,
}

/// A building of the island, with the gifts that wait on it.
#[derive(Debug)]
pub struct MapObject {
    pub head: Head,
    pub gifts: Vec<i32>,
}

/// A building as a mathematical value.
#[verifier::ext_equal]
pub struct ObjectV {
    pub head: Head,
    pub gifts: Seq<i32>,
}

impl View for MapObject {
    type V = ObjectV;

    open spec fn view(&self) -> ObjectV {
        ObjectV { head: self.head, gifts: self.gifts@ }
    }
}

impl ObjectV {
    pub open spec fn seq_id(self) -> i32 {
        self.head.seq_id
    }

    pub open spec fn with_seq(self, seq_id: i32) -> ObjectV {
        ObjectV { head: Head { seq_id, ..self.head }, gifts: self.gifts }
    }
}

/// The buildings filed under one key.
#[derive(Debug)]
pub struct MapEntry {
    pub key: i32,
    pub objects: Vec<MapObject>,
}

/// One key with its buildings, as a mathematical value.
#[verifier::ext_equal]
pub struct EntryV {
    pub key: i32,
    pub objects: Seq<ObjectV>,
}

/// The buildings of a list.
pub open spec fn objects_v(objects: Seq<MapObject>) -> Seq<ObjectV> {
    Seq::new(objects.len(), |i: int| objects[i]@)
}

impl View for MapEntry {
    type V = EntryV;

    open spec fn view(&self) -> EntryV {
        EntryV { key: self.key, objects: objects_v(self.objects@) }
    }
}

/// The layout of the island.
#[derive(Debug)]
pub struct MapData {
    pub entries: Vec<MapEntry>,
}

impl View for MapData {
    type V = Seq<EntryV>;

    open spec fn view(&self) -> Seq<EntryV> {
        Seq::new(self.entries@.len(), |k: int| self.entries@[k]@)
    }
}

/// Every key occurs once.
pub open spec fn keys_distinct(md: Seq<EntryV>) -> bool {
    forall|a: int, b: int|
        0 <= a < md.len() && 0 <= b < md.len() && #[trigger] md[a].key == #[trigger] md[b].key
            ==> a == b
}

/// A position in the layout: the entry, and the place in its list.
pub open spec fn is_slot(md: Seq<EntryV>, k: int, i: int) -> bool {
    0 <= k < md.len() && 0 <= i < md[k].objects.len()
}

/// The positions of the first `n` entries, in order.
pub open spec fn slots_upto(md: Seq<EntryV>, n: int) -> Seq<(int, int)>
    decreases n,
{
    if n <= 0 {
        Seq::empty()
    } else {
        slots_upto(md, n - 1) + Seq::new(md[n - 1].objects.len(), |i: int| (n - 1, i))
    }
}

/// All positions of the layout, entry by entry.
pub open spec fn slots(md: Seq<EntryV>) -> Seq<(int, int)> {
    slots_upto(md, md.len() as int)
}

/// The building at a position.
pub open spec fn at(md: Seq<EntryV>, s: (int, int)) -> ObjectV {
    md[s.0].objects[s.1]
}

/// All buildings of the layout, entry by entry.
pub open spec fn flat(md: Seq<EntryV>) -> Seq<ObjectV> {
    Seq::new(slots(md).len(), |p: int| at(md, slots(md)[p]))
}

/// The same keys in the same order, with lists of the same length.
pub open spec fn same_shape(a: Seq<EntryV>, b: Seq<EntryV>) -> bool {
    &&& a.len() == b.len()
    &&& forall|k: int|
        0 <= k < a.len() ==> (#[trigger] a[k]).key == b[k].key && a[k].objects.len()
            == b[k].objects.len()
}

/// The layout with the building at one position replaced.
pub open spec fn replaced(md: Seq<EntryV>, k: int, i: int, o: ObjectV) -> Seq<EntryV> {
    md.update(k, EntryV { key: md[k].key, objects: md[k].objects.update(i, o) })
}

/// The layout with the building at one position taken out.
pub open spec fn removed(md: Seq<EntryV>, k: int, i: int) -> Seq<EntryV> {
    md.update(k, EntryV { key: md[k].key, objects: md[k].objects.remove(i) })
}

/// The first entry from `from` on that is filed under `key`.
pub open spec fn entry_of(md: Seq<EntryV>, key: i32, from: int) -> Option<int>
    decreases md.len() - from,
{
    if from >= md.len() {
        None
    } else if md[from].key == key {
        Some(from)
    } else {
        entry_of(md, key, from + 1)
    }
}

/// The layout with one more building filed under `key`, at the end of that
/// key's list, or in a new entry where the key is new.
pub open spec fn appended(md: Seq<EntryV>, key: i32, o: ObjectV) -> Seq<EntryV> {
    match entry_of(md, key, 0) {
        Some(k) => md.update(k, EntryV { key, objects: md[k].objects.push(o) }),
        None => md.push(EntryV { key, objects: seq![o] }),
    }
}

/// The layout with `key` holding one building and nothing else.
pub open spec fn put_alone(md: Seq<EntryV>, key: i32, o: ObjectV) -> Seq<EntryV> {
    match entry_of(md, key, 0) {
        Some(k) => md.update(k, EntryV { key, objects: seq![o] }),
        None => md.push(EntryV { key, objects: seq![o] }),
    }
}

/// Whether the list holds a building with this number.
pub open spec fn has_seq(objects: Seq<ObjectV>, seq_id: i32) -> bool {
    exists|i: int| 0 <= i < objects.len() && #[trigger] objects[i].seq_id() == seq_id
}

/// Whether the layout holds a building with this number.
pub open spec fn map_has_seq(md: Seq<EntryV>, seq_id: i32) -> bool {
    exists|k: int, i: int| is_slot(md, k, i) && #[trigger] at(md, (k, i)).seq_id() == seq_id
}

/// `(k, i)` is the first position, in the order of the entries, whose
/// building has this number.
pub open spec fn first_with_seq(md: Seq<EntryV>, seq_id: i32, k: int, i: int) -> bool {
    &&& is_slot(md, k, i)
    &&& at(md, (k, i)).seq_id() == seq_id
    &&& forall|k2: int, i2: int|
        is_slot(md, k2, i2) && #[trigger] at(md, (k2, i2)).seq_id() == seq_id ==> k < k2 || (k
            == k2 && i <= i2)
}

/// The layout after a building's new state was written back: in place where
/// its number is known; otherwise filed by its class, if the class has a key.
pub open spec fn written_back(md: Seq<EntryV>, o: ObjectV, after: Seq<EntryV>) -> bool {
    if o.seq_id() == 0 {
        after == md
    } else if map_has_seq(md, o.seq_id()) {
        exists|k: int, i: int|
            first_with_seq(md, o.seq_id(), k, i) && after == #[trigger] replaced(md, k, i, o)
    } else {
        match o.head.detail.key() {
            Some(key) => after == appended(md, key, o),
            None => after == md,
        }
    }
}

/// The layout after a building was torn down.
pub open spec fn deleted(md: Seq<EntryV>, seq_id: i32, after: Seq<EntryV>) -> bool {
    if seq_id != 0 && map_has_seq(md, seq_id) {
        exists|k: int, i: int|
            first_with_seq(md, seq_id, k, i) && after == #[trigger] removed(md, k, i)
    } else {
        after == md
    }
}

// ---- positions ----

pub proof fn lemma_slots_upto(md: Seq<EntryV>, n: int)
    requires
        0 <= n <= md.len(),
    ensures
        forall|p: int|
            0 <= p < slots_upto(md, n).len() ==> {
                let s = #[trigger] slots_upto(md, n)[p];
                is_slot(md, s.0, s.1) && s.0 < n
            },
        forall|p: int, q: int|
            0 <= p < q < slots_upto(md, n).len() ==> {
                let s = #[trigger] slots_upto(md, n)[p];
                let t = #[trigger] slots_upto(md, n)[q];
                s.0 < t.0 || (s.0 == t.0 && s.1 < t.1)
            },
    decreases n,
{
    if n > 0 {
        lemma_slots_upto(md, n - 1);
        let before = slots_upto(md, n - 1);
        let all = slots_upto(md, n);
        assert forall|p: int| 0 <= p < all.len() implies {
            let s = #[trigger] all[p];
            &&& is_slot(md, s.0, s.1) && s.0 < n
            &&& p < before.len() ==> s == before[p]
            &&& p >= before.len() ==> s == (n - 1, p - before.len())
        } by {
            if p < before.len() {
                assert(all[p] == before[p]);
            }
        }
        assert forall|p: int, q: int| 0 <= p < q < all.len() implies {
            let s = #[trigger] all[p];
            let t = #[trigger] all[q];
            s.0 < t.0 || (s.0 == t.0 && s.1 < t.1)
        } by {
            if q < before.len() {
                assert(all[p] == before[p] && all[q] == before[q]);
            } else if p < before.len() {
                assert(all[p] == before[p]);
            }
        }
    }
}

/// Every position of the layout is listed.
pub proof fn lemma_slot_listed(md: Seq<EntryV>, n: int, k: int, i: int) -> (p: int)
    requires
        0 <= n <= md.len(),
        0 <= k < n,
        is_slot(md, k, i),
    ensures
        0 <= p < slots_upto(md, n).len(),
        slots_upto(md, n)[p] == (k, i),
    decreases n,
{
    let before = slots_upto(md, n - 1);
    if k < n - 1 {
        let p = lemma_slot_listed(md, n - 1, k, i);
        assert(slots_upto(md, n)[p] == before[p]);
        p
    } else {
        assert(slots_upto(md, n)[before.len() + i] == (k, i));
        before.len() + i
    }
}

pub proof fn lemma_same_shape_slots(a: Seq<EntryV>, b: Seq<EntryV>, n: int)
    requires
        same_shape(a, b),
        0 <= n <= a.len(),
    ensures
        slots_upto(a, n) == slots_upto(b, n),
    decreases n,
{
    if n > 0 {
        lemma_same_shape_slots(a, b, n - 1);
        assert(a[n - 1].objects.len() == b[n - 1].objects.len());
        assert(Seq::new(a[n - 1].objects.len(), |i: int| (n - 1, i)) =~= Seq::new(
            b[n - 1].objects.len(),
            |i: int| (n - 1, i),
        ));
    }
}

/// Replacing one building changes the flat list at its place only.
pub proof fn lemma_replaced_flat(md: Seq<EntryV>, p: int, o: ObjectV)
    requires
        0 <= p < slots(md).len(),
    ensures
        ({
            let s = slots(md)[p];
            let after = replaced(md, s.0, s.1, o);
            same_shape(md, after) && slots(after) == slots(md) && flat(after) == flat(md).update(
                p,
                o,
            )
        }),
{
    lemma_slots_upto(md, md.len() as int);
    let s = slots(md)[p];
    let after = replaced(md, s.0, s.1, o);
    assert(same_shape(md, after));
    lemma_same_shape_slots(md, after, md.len() as int);
    assert forall|q: int| 0 <= q < slots(md).len() implies #[trigger] flat(after)[q] == flat(
        md,
    ).update(p, o)[q] by {
        let t = slots(md)[q];
        assert(is_slot(md, t.0, t.1));
    }
    assert(flat(after) =~= flat(md).update(p, o));
}

pub proof fn lemma_entry_of(md: Seq<EntryV>, key: i32, from: int)
    requires
        0 <= from <= md.len(),
    ensures
        match entry_of(md, key, from) {
            Some(k) => from <= k < md.len() && md[k].key == key && forall|j: int|
                from <= j < k ==> (#[trigger] md[j]).key != key,
            None => forall|j: int| from <= j < md.len() ==> (#[trigger] md[j]).key != key,
        },
    decreases md.len() - from,
{
    if from < md.len() && md[from].key != key {
        lemma_entry_of(md, key, from + 1);
    }
}

impl MapData {
    /// A layout without any building.
    pub fn empty() -> (md: MapData)
        ensures
            md@ == Seq::<EntryV>::empty(),
    {
        let md = MapData { entries: Vec::new() };
        assert(md@ =~= Seq::<EntryV>::empty());
        md
    }

    /// The number of keys.
    pub fn count(&self) -> (n: usize)
        ensures
            n == self@.len(),
    {
        self.entries.len()
    }

    fn entry_index(&self, key: i32) -> (r: Option<usize>)
        ensures
            match r {
                Some(k) => entry_of(self@, key, 0) == Some(k as int),
                None => entry_of(self@, key, 0) is None,
            },
    {
        let mut k: usize = 0;
        proof {
            lemma_entry_of(self@, key, 0);
        }
        while k < self.entries.len()
            invariant
                k <= self.entries.len(),
                forall|j: int| 0 <= j < k ==> (#[trigger] self@[j]).key != key,
            decreases self.entries.len() - k,
        {
            if self.entries[k].key == key {
                proof {
                    lemma_entry_of(self@, key, 0);
                    assert(self@[k as int].key == key);
                }
                return Some(k);
            }
            assert(self@[k as int].key != key);
            k = k + 1;
        }
        proof {
            lemma_entry_of(self@, key, 0);
        }
        None
    }

    /// Files a building under `key`, replacing whatever the key held.
    pub fn island_put(&mut self, key: i32, obj: MapObject)
        ensures
            final(self)@ == put_alone(old(self)@, key, obj@),
    {
        let ghost before = self@;
        proof {
            lemma_entry_of(before, key, 0);
        }
        let mut objects: Vec<MapObject> = Vec::new();
        let ghost o = obj@;
        objects.push(obj);
        assert(objects_v(objects@) =~= seq![o]);
        match self.entry_index(key) {
            Some(k) => {
                self.entries[k].objects = objects;
                assert(self@ =~= put_alone(before, key, o));
            },
            None => {
                self.entries.push(MapEntry { key, objects });
                assert(self@ =~= put_alone(before, key, o));
            },
        }
    }

    /// Files one more building under `key`.
    pub fn island_put_append(&mut self, key: i32, obj: MapObject)
        ensures
            final(self)@ == appended(old(self)@, key, obj@),
    {
        let ghost before = self@;
        proof {
            lemma_entry_of(before, key, 0);
        }
        let ghost o = obj@;
        match self.entry_index(key) {
            Some(k) => {
                self.entries[k].objects.push(obj);
                assert(self@[k as int].objects =~= before[k as int].objects.push(o));
                assert(self@ =~= appended(before, key, o));
            },
            None => {
                let mut objects: Vec<MapObject> = Vec::new();
                objects.push(obj);
                assert(objects_v(objects@) =~= seq![o]);
                self.entries.push(MapEntry { key, objects });
                assert(self@ =~= appended(before, key, o));
            },
        }
    }

    /// The first position whose building has this number; nothing for 0,
    /// which marks a building without a number.
    pub fn island_find_by_seqid(&self, seq_id: i32) -> (r: Option<(usize, usize)>)
        ensures
            match r {
                Some((k, i)) => seq_id != 0 && first_with_seq(self@, seq_id, k as int, i as int),
                None => seq_id == 0 || !map_has_seq(self@, seq_id),
            },
    {
        if seq_id == 0 {
            return None;
        }
        let mut k: usize = 0;
        while k < self.entries.len()
            invariant
                k <= self.entries.len(),
                seq_id != 0,
                forall|k2: int, i2: int|
                    is_slot(self@, k2, i2) && k2 < k ==> #[trigger] at(self@, (k2, i2)).seq_id()
                        != seq_id,
            decreases self.entries.len() - k,
        {
            let mut i: usize = 0;
            while i < self.entries[k].objects.len()
                invariant
                    k < self.entries.len(),
                    i <= self.entries[k as int].objects.len(),
                    seq_id != 0,
                    forall|k2: int, i2: int|
                        is_slot(self@, k2, i2) && (k2 < k || (k2 == k && i2 < i))
                            ==> #[trigger] at(self@, (k2, i2)).seq_id() != seq_id,
                decreases self.entries[k as int].objects.len() - i,
            {
                if self.entries[k].objects[i].head.seq_id == seq_id {
                    assert(at(self@, (k as int, i as int)).seq_id() == seq_id);
                    return Some((k, i));
                }
                i = i + 1;
            }
            k = k + 1;
        }
        None
    }

    /// Writes a building's new state back into the layout.
    pub fn writeback_island_object(&mut self, snap: MapObject)
        ensures
            written_back(old(self)@, snap@, final(self)@),
    {
        let ghost before = self@;
        let ghost o = snap@;
        let seq_id: i32 = snap.head.seq_id;
        if seq_id == 0 {
            return;
        }
        match self.island_find_by_seqid(seq_id) {
            Some((k, i)) => {
                assert(at(before, (k as int, i as int)).seq_id() == seq_id);
                self.entries[k].objects[i] = snap;
                assert(self@[k as int].objects =~= before[k as int].objects.update(i as int, o));
                assert(self@ =~= replaced(before, k as int, i as int, o));
            },
            None => {
                match island_class_to_key(&snap) {
                    Some(key) => self.island_put_append(key, snap),
                    None => {},
                }
            },
        }
    }

    /// Takes a building that was torn down out of the layout.
    pub fn delete_island_object(&mut self, seq_id: i32)
        ensures
            deleted(old(self)@, seq_id, final(self)@),
    {
        let ghost before = self@;
        match self.island_find_by_seqid(seq_id) {
            Some((k, i)) => {
                assert(at(before, (k as int, i as int)).seq_id() == seq_id);
                let _gone = self.entries[k].objects.remove(i);
                assert(self@[k as int].objects =~= before[k as int].objects.remove(i as int));
                assert(self@ =~= removed(before, k as int, i as int));
            },
            None => {},
        }
    }

    /// All positions of the layout, entry by entry.
    pub fn island_all_objects(&self) -> (r: Vec<(usize, usize)>)
        ensures
            r@.len() == slots(self@).len(),
            forall|p: int|
                0 <= p < r@.len() ==> slots(self@)[p] == ((#[trigger] r@[p]).0 as int, r@[p].1 as int),
    {
        let mut r: Vec<(usize, usize)> = Vec::new();
        let mut k: usize = 0;
        while k < self.entries.len()
            invariant
                k <= self.entries.len(),
                r@.len() == slots_upto(self@, k as int).len(),
                forall|p: int|
                    0 <= p < r@.len() ==> slots_upto(self@, k as int)[p] == ((#[trigger] r@[p]).0 as int, r@[p].1 as int),
            decreases self.entries.len() - k,
        {
            let ghost done = slots_upto(self@, k as int);
            let mut i: usize = 0;
            while i < self.entries[k].objects.len()
                invariant
                    k < self.entries.len(),
                    i <= self.entries[k as int].objects.len(),
                    r@.len() == done.len() + i,
                    done == slots_upto(self@, k as int),
                    forall|p: int|
                        0 <= p < done.len() ==> done[p] == ((#[trigger] r@[p]).0 as int, r@[p].1 as int),
                    forall|p: int|
                        done.len() <= p < r@.len() ==> (#[trigger] r@[p]).0 == k && r@[p].1 == p
                            - done.len(),
                decreases self.entries[k as int].objects.len() - i,
            {
                r.push((k, i));
                i = i + 1;
            }
            k = k + 1;
        }
        r
    }
}

/// The key a building is filed under when only its class is known.
pub fn island_class_to_key(snap: &MapObject) -> (r: Option<i32>)
    ensures
        r == snap.head.detail.key(),
{
    match snap.head.detail {
        Detail::Restaurant { .. } => Some(29),
        Detail::Apartment { .. } => Some(32),
        Detail::CafeShop { .. } => Some(41),
        Detail::Ship { .. } => Some(39),
        Detail::SuperShellTree { .. } => Some(40),
        Detail::Shop { .. } => Some(28),
        _ => None,
    }
}

/// No two positions hold a building with the same number.
pub open spec fn seqs_unique(md: Seq<EntryV>) -> bool {
    forall|k: int, i: int, k2: int, i2: int|
        is_slot(md, k, i) && is_slot(md, k2, i2) && #[trigger] at(md, (k, i)).seq_id()
            == #[trigger] at(md, (k2, i2)).seq_id() ==> k == k2 && i == i2
}

/// A numbered building of a class with a key, or one the layout already
/// knows, is in the layout with its new state after it was written back, and
/// no number is lost.
pub proof fn law_written_back_is_kept(md: Seq<EntryV>, o: ObjectV, after: Seq<EntryV>)
    requires
        written_back(md, o, after),
        o.seq_id() != 0,
        o.head.detail.key() is Some || map_has_seq(md, o.seq_id()),
    ensures
        exists|k: int, i: int| is_slot(after, k, i) && #[trigger] at(after, (k, i)) == o,
        forall|s: i32| map_has_seq(md, s) ==> map_has_seq(after, s),
{
    if map_has_seq(md, o.seq_id()) {
        let (k, i) = choose|k: int, i: int|
            first_with_seq(md, o.seq_id(), k, i) && after == #[trigger] replaced(md, k, i, o);
        assert(at(after, (k, i)) == o);
        assert forall|s: i32| map_has_seq(md, s) implies map_has_seq(after, s) by {
            let (k2, i2) = choose|k2: int, i2: int|
                is_slot(md, k2, i2) && #[trigger] at(md, (k2, i2)).seq_id() == s;
            assert(is_slot(after, k2, i2));
            assert(at(after, (k2, i2)).seq_id() == s);
        }
    } else {
        let key = o.head.detail.key()->0;
        lemma_entry_of(md, key, 0);
        match entry_of(md, key, 0) {
            Some(k) => {
                assert(at(after, (k, md[k].objects.len() as int)) == o);
            },
            None => {
                assert(at(after, (md.len() as int, 0)) == o);
            },
        }
        assert forall|s: i32| map_has_seq(md, s) implies map_has_seq(after, s) by {
            let (k2, i2) = choose|k2: int, i2: int|
                is_slot(md, k2, i2) && #[trigger] at(md, (k2, i2)).seq_id() == s;
            assert(is_slot(after, k2, i2));
            assert(at(after, (k2, i2)).seq_id() == s);
        }
    }
}

/// At most one position holds a building with this number.
pub open spec fn at_most_once(md: Seq<EntryV>, seq_id: i32) -> bool {
    forall|k: int, i: int, k2: int, i2: int|
        is_slot(md, k, i) && is_slot(md, k2, i2) && #[trigger] at(md, (k, i)).seq_id() == seq_id
            && #[trigger] at(md, (k2, i2)).seq_id() == seq_id ==> k == k2 && i == i2
}

/// Where its number is its own, a building that was torn down is gone, and
/// every other number is still there.
pub proof fn law_deleted_is_gone(md: Seq<EntryV>, seq_id: i32, after: Seq<EntryV>)
    requires
        deleted(md, seq_id, after),
        at_most_once(md, seq_id),
        seq_id != 0,
    ensures
        !map_has_seq(after, seq_id),
        forall|s: i32| s != seq_id && map_has_seq(md, s) ==> map_has_seq(after, s),
{
    if map_has_seq(md, seq_id) {
        let (k, i) = choose|k: int, i: int|
            first_with_seq(md, seq_id, k, i) && after == #[trigger] removed(md, k, i);
        assert forall|k2: int, i2: int| is_slot(after, k2, i2) implies #[trigger] at(
            after,
            (k2, i2),
        ).seq_id() != seq_id by {
            let j = if k2 == k && i2 >= i {
                i2 + 1
            } else {
                i2
            };
            assert(at(after, (k2, i2)) == at(md, (k2, j)));
            assert(at(md, (k, i)).seq_id() == seq_id);
        }
        assert forall|s: i32| s != seq_id && map_has_seq(md, s) implies map_has_seq(after, s) by {
            let (k2, i2) = choose|k2: int, i2: int|
                is_slot(md, k2, i2) && #[trigger] at(md, (k2, i2)).seq_id() == s;
            let j = if k2 == k && i2 > i {
                i2 - 1
            } else {
                i2
            };
            assert(at(md, (k, i)).seq_id() == seq_id);
            assert(is_slot(after, k2, j));
            assert(at(after, (k2, j)) == at(md, (k2, i2)));
        }
    }
}

/// The key of each class of building: 28 for shops, 29 for restaurants, 32 for
/// apartment houses, 39 for ships, 40 for shell trees and 41 for cafes. No other
/// class has one.
pub proof fn law_classes_have_keys(d: Detail)
    ensures
        d.key() == Some(28i32) <==> d is Shop,
        d.key() == Some(29i32) <==> d is Restaurant,
        d.key() == Some(32i32) <==> d is Apartment,
        d.key() == Some(39i32) <==> d is Ship,
        d.key() == Some(40i32) <==> d is SuperShellTree,
        d.key() == Some(41i32) <==> d is CafeShop,
        d.key() is None <==> d is Building || d is Spacials || d is TransObject || d is YellowDuck
            || d is Other,
{
}

/// Filing a building: it is at the end of its key's list, or alone in a new
/// entry; putting one alone leaves it as the only one. Every other entry stays
/// as it was.
pub proof fn law_buildings_are_filed(md: Seq<EntryV>, key: i32, o: ObjectV, k: int)
    requires
        0 <= k < md.len(),
    ensures
        ({
            let more = appended(md, key, o);
            let alone = put_alone(md, key, o);
            let known = exists|j: int| 0 <= j < md.len() && (#[trigger] md[j]).key == key;
            &&& md[k].key != key ==> more[k] == md[k] && alone[k] == md[k]
            &&& !known ==> more == md.push(EntryV { key, objects: seq![o] }) && alone == more
            &&& known ==> more.len() == md.len() && alone.len() == md.len()
            &&& md[k].key == key && (forall|j: int|
                0 <= j < k ==> (#[trigger] md[j]).key != key) ==> {
                &&& more[k].key == key && more[k].objects == md[k].objects.push(o)
                &&& alone[k].key == key && alone[k].objects == seq![o]
            }
        }),
{
    lemma_entry_of(md, key, 0);
}

/// A building without a number, or of an unknown number and a class without a
/// key, is not written back; a known one takes the place of the one with its
/// number, and nothing else changes.
pub proof fn law_write_back_is_exact(md: Seq<EntryV>, o: ObjectV, after: Seq<EntryV>)
    requires
        written_back(md, o, after),
    ensures
        o.seq_id() == 0 ==> after == md,
        !map_has_seq(md, o.seq_id()) && o.head.detail.key() is None ==> after == md,
        o.seq_id() != 0 && map_has_seq(md, o.seq_id()) ==> same_shape(md, after) && exists|
            k: int,
            i: int,
        |
            is_slot(md, k, i) && #[trigger] at(md, (k, i)).seq_id() == o.seq_id() && at(
                after,
                (k, i),
            ) == o && forall|k2: int, i2: int|
                is_slot(md, k2, i2) && (k2 != k || i2 != i) ==> #[trigger] at(after, (k2, i2)) == at(
                    md,
                    (k2, i2),
                ),
{
    if o.seq_id() != 0 && map_has_seq(md, o.seq_id()) {
        let (k, i) = choose|k: int, i: int|
            first_with_seq(md, o.seq_id(), k, i) && after == #[trigger] replaced(md, k, i, o);
        assert(is_slot(md, k, i) && at(md, (k, i)).seq_id() == o.seq_id() && at(after, (k, i)) == o);
    }
}

/// Tearing down: where the number is 0 or unknown nothing changes; otherwise
/// exactly one building is taken out, the first with that number.
pub proof fn law_tearing_down_is_exact(md: Seq<EntryV>, seq_id: i32, after: Seq<EntryV>)
    requires
        deleted(md, seq_id, after),
    ensures
        seq_id == 0 || !map_has_seq(md, seq_id) ==> after == md,
        seq_id != 0 && map_has_seq(md, seq_id) ==> after.len() == md.len() && exists|k: int, i: int|
            is_slot(md, k, i) && #[trigger] at(md, (k, i)).seq_id() == seq_id && after[k].key
                == md[k].key && after[k].objects == md[k].objects.remove(i) && forall|k2: int|
                0 <= k2 < md.len() && k2 != k ==> #[trigger] after[k2] == md[k2],
{
    if seq_id != 0 && map_has_seq(md, seq_id) {
        let (k, i) = choose|k: int, i: int|
            first_with_seq(md, seq_id, k, i) && after == #[trigger] removed(md, k, i);
        assert(is_slot(md, k, i) && at(md, (k, i)).seq_id() == seq_id);
    }
}

/// Every building of the layout is listed, and none twice: entry by entry, and
/// within an entry in its order.
pub proof fn law_every_building_is_listed(md: Seq<EntryV>, k: int, i: int)
    requires
        is_slot(md, k, i),
    ensures
        exists|p: int| 0 <= p < flat(md).len() && slots(md)[p] == (k, i) && #[trigger] flat(md)[p]
            == md[k].objects[i],
        forall|p: int, q: int|
            0 <= p < q < slots(md).len() ==> {
                let s = #[trigger] slots(md)[p];
                let t = #[trigger] slots(md)[q];
                s.0 < t.0 || (s.0 == t.0 && s.1 < t.1)
            },
        forall|p: int|
            0 <= p < slots(md).len() ==> is_slot(
                md,
                (#[trigger] slots(md)[p]).0,
                slots(md)[p].1,
            ),
{
    let p = lemma_slot_listed(md, md.len() as int, k, i);
    assert(flat(md)[p] == md[k].objects[i]);
    lemma_slots_upto(md, md.len() as int);
}

} // verus!
