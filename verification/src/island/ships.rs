//! State of ships and cafes that the layout file does not carry: it is kept in
//! a file of its own and laid over the layout after loading.

use vstd::prelude::*;
use crate::lists::copied;
use crate::island::map_data::{
    at, flat, is_slot, lemma_replaced_flat, lemma_slots_upto, replaced, same_shape, slots, Detail,
    Head, MapData, ObjectV,
};

verus! {

/// What the file says of one ship (`kind` 1) or cafe (`kind` 2). The building
/// is named by its kind, its id and its place among those with both.
#[derive(Debug)]
pub struct ShipRecord {
    pub kind: i32,
    pub object_id: i32,
    pub ord: i32,
    pub ship_state: Option<i32>,
    pub gifts: Vec<i32>,
    pub is_new: Option<i32>,
}

/// A record as a mathematical value.
#[verifier::ext_equal]
pub struct RecordV {
    pub kind: i32,
    pub object_id: i32,
    pub ord: i32,
    pub ship_state: Option<i32>,
    pub gifts: Seq<i32>,
    pub is_new: Option<i32>,
}

impl View for ShipRecord {
    type V = RecordV;

    open spec fn view(&self) -> RecordV {
        RecordV {
            kind: self.kind,
            object_id: self.object_id,
            ord: self.ord,
            ship_state: self.ship_state,
            gifts: self.gifts@,
            is_new: self.is_new,
        }
    }
}

/// The records of a list.
pub open spec fn records_v(records: Seq<ShipRecord>) -> Seq<RecordV> {
    Seq::new(records.len(), |i: int| records[i]@)
}

/// 1 for a ship, 2 for a cafe, 0 for anything else.
pub open spec fn kind_of(o: ObjectV) -> i32 {
    match o.head.detail {
        Detail::Ship { .. } => 1,
        Detail::CafeShop { .. } => 2,
        _ => 0,
    }
}

/// Whether a building is the one a record of this kind and id may mean. Any
/// kind but 1 means a cafe.
pub open spec fn answers(o: ObjectV, kind: i32, object_id: i32) -> bool {
    kind_of(o) == (if kind == 1 { 1i32 } else { 2i32 }) && o.head.object_id == object_id
}

/// How many of the first `n` buildings answer to this kind and id.
pub open spec fn rank(objs: Seq<ObjectV>, n: int, kind: i32, object_id: i32) -> int
    decreases n,
{
    if n <= 0 {
        0
    } else {
        rank(objs, n - 1, kind, object_id) + if answers(objs[n - 1], kind, object_id) {
            1int
        } else {
            0
        }
    }
}

/// The state of a ship.
pub open spec fn ship_state(o: ObjectV) -> Option<i32> {
    match o.head.detail {
        Detail::Ship { state, .. } => Some(state),
        _ => None,
    }
}

/// The record of the building at place `p`.
pub open spec fn record_of(objs: Seq<ObjectV>, p: int) -> RecordV {
    let o = objs[p];
    RecordV {
        kind: kind_of(o),
        object_id: o.head.object_id,
        ord: rank(objs, p, kind_of(o), o.head.object_id) as i32,
        ship_state: ship_state(o),
        gifts: if kind_of(o) == 1 {
            o.gifts
        } else {
            Seq::empty()
        },
        is_new: match o.head.detail {
            Detail::CafeShop { is_new } => Some(if is_new { 1i32 } else { 0i32 }),
            _ => None,
        },
    }
}

/// The records of the ships and cafes among the first `n` buildings, in order.
pub open spec fn records_upto(objs: Seq<ObjectV>, n: int) -> Seq<RecordV>
    decreases n,
{
    if n <= 0 {
        Seq::empty()
    } else if kind_of(objs[n - 1]) != 0 {
        records_upto(objs, n - 1).push(record_of(objs, n - 1))
    } else {
        records_upto(objs, n - 1)
    }
}

/// `p` is the building that the record names.
pub open spec fn names(objs: Seq<ObjectV>, rec: RecordV, p: int) -> bool {
    &&& 0 <= p < objs.len()
    &&& answers(objs[p], rec.kind, rec.object_id)
    &&& rank(objs, p, rec.kind, rec.object_id) == rec.ord
}

/// Some building is named by the record.
pub open spec fn names_any(objs: Seq<ObjectV>, rec: RecordV) -> bool {
    exists|p: int| #[trigger] names(objs, rec, p)
}

/// A ship or cafe with the state its record holds. Only a whole or a broken
/// ship (states 2 and 1) is taken over, only a list of gifts that is not
/// empty, and only a cafe's being new.
pub open spec fn restored(o: ObjectV, rec: RecordV) -> ObjectV {
    if rec.kind == 1 {
        ObjectV {
            head: Head {
                detail: match (o.head.detail, rec.ship_state) {
                    (
                        Detail::Ship {
                            begin_discover,
                            begin_fix,
                            state,
                            sailing,
                            search_map,
                            on_board,
                        },
                        Some(s),
                    ) => Detail::Ship {
                        begin_discover,
                        begin_fix,
                        state: if s == 1 || s == 2 { s } else { state },
                        sailing,
                        search_map,
                        on_board,
                    },
                    (d, _) => d,
                },
                ..o.head
            },
            gifts: if rec.gifts.len() > 0 {
                rec.gifts
            } else {
                o.gifts
            },
        }
    } else {
        ObjectV {
            head: Head {
                detail: match (o.head.detail, rec.is_new) {
                    (Detail::CafeShop { is_new }, Some(n)) => Detail::CafeShop {
                        is_new: is_new || n != 0,
                    },
                    (d, _) => d,
                },
                ..o.head
            },
            gifts: o.gifts,
        }
    }
}

/// The buildings after one record was applied to the one it names, if any.
pub open spec fn applied(objs: Seq<ObjectV>, rec: RecordV) -> Seq<ObjectV> {
    Seq::new(
        objs.len(),
        |p: int|
            if names(objs, rec, p) {
                restored(objs[p], rec)
            } else {
                objs[p]
            },
    )
}

/// The buildings after the first `n` records were applied, in order.
pub open spec fn applied_upto(objs: Seq<ObjectV>, recs: Seq<RecordV>, n: int) -> Seq<ObjectV>
    decreases n,
{
    if n <= 0 {
        objs
    } else {
        applied(applied_upto(objs, recs, n - 1), recs[n - 1])
    }
}

/// How many of the first `n` records named a building.
pub open spec fn applied_count(objs: Seq<ObjectV>, recs: Seq<RecordV>, n: int) -> int
    decreases n,
{
    if n <= 0 {
        0
    } else {
        applied_count(objs, recs, n - 1) + if names_any(
            applied_upto(objs, recs, n - 1),
            recs[n - 1],
        ) {
            1int
        } else {
            0
        }
    }
}

/// A ship that is marked as sailing although it cannot be at sea: it has no
/// start of the voyage, and no map or no crew. The game would never end that
/// voyage.
pub open spec fn is_stuck(o: ObjectV) -> bool {
    match o.head.detail {
        Detail::Ship { begin_discover, sailing, search_map, on_board, .. } => sailing
            && begin_discover.ticks() <= 0 && (search_map < 1 || on_board <= 0),
        _ => false,
    }
}

/// The ship, moored if it was stuck.
pub open spec fn unstuck(o: ObjectV) -> ObjectV {
    match o.head.detail {
        Detail::Ship { begin_discover, begin_fix, state, sailing, search_map, on_board } => if is_stuck(
            o,
        ) {
            ObjectV {
                head: Head {
                    detail: Detail::Ship {
                        begin_discover,
                        begin_fix,
                        state,
                        sailing: false,
                        search_map,
                        on_board,
                    },
                    ..o.head
                },
                gifts: o.gifts,
            }
        } else {
            o
        },
        _ => o,
    }
}

pub proof fn lemma_rank_bounds(objs: Seq<ObjectV>, n: int, kind: i32, object_id: i32)
    ensures
        0 <= rank(objs, n, kind, object_id),
        n >= 0 ==> rank(objs, n, kind, object_id) <= n,
    decreases n,
{
    if n > 0 {
        lemma_rank_bounds(objs, n - 1, kind, object_id);
    }
}

proof fn lemma_rank_monotone(objs: Seq<ObjectV>, p: int, q: int, kind: i32, object_id: i32)
    requires
        0 <= p <= q,
    ensures
        rank(objs, p, kind, object_id) <= rank(objs, q, kind, object_id),
        p < q && answers(objs[p], kind, object_id) ==> rank(objs, p, kind, object_id) < rank(
            objs,
            q,
            kind,
            object_id,
        ),
    decreases q,
{
    if p < q {
        lemma_rank_monotone(objs, p, q - 1, kind, object_id);
    }
}

/// A record names at most one building.
pub proof fn lemma_names_unique(objs: Seq<ObjectV>, rec: RecordV, p: int, q: int)
    requires
        names(objs, rec, p),
        names(objs, rec, q),
    ensures
        p == q,
{
    if p < q {
        lemma_rank_monotone(objs, p, q, rec.kind, rec.object_id);
    } else if q < p {
        lemma_rank_monotone(objs, q, p, rec.kind, rec.object_id);
    }
}

/// Buildings that agree in kind and id have the same ranks.
pub open spec fn same_ids(a: Seq<ObjectV>, b: Seq<ObjectV>) -> bool {
    &&& a.len() == b.len()
    &&& forall|p: int|
        0 <= p < a.len() ==> kind_of(#[trigger] a[p]) == kind_of(b[p]) && a[p].head.object_id
            == b[p].head.object_id
}

proof fn lemma_same_ids_rank(a: Seq<ObjectV>, b: Seq<ObjectV>, n: int, kind: i32, object_id: i32)
    requires
        same_ids(a, b),
        n <= a.len(),
    ensures
        rank(a, n, kind, object_id) == rank(b, n, kind, object_id),
    decreases n,
{
    if n > 0 {
        lemma_same_ids_rank(a, b, n - 1, kind, object_id);
        assert(kind_of(a[n - 1]) == kind_of(b[n - 1]));
    }
}

proof fn lemma_applied_same_ids(objs: Seq<ObjectV>, recs: Seq<RecordV>, n: int)
    requires
        0 <= n <= recs.len(),
    ensures
        same_ids(objs, applied_upto(objs, recs, n)),
    decreases n,
{
    if n > 0 {
        lemma_applied_same_ids(objs, recs, n - 1);
        let mid = applied_upto(objs, recs, n - 1);
        assert forall|p: int| 0 <= p < objs.len() implies kind_of(#[trigger] objs[p]) == kind_of(
            applied(mid, recs[n - 1])[p],
        ) && objs[p].head.object_id == applied(mid, recs[n - 1])[p].head.object_id by {
            assert(kind_of(objs[p]) == kind_of(mid[p]));
        }
    }
}

/// The building at place `p` of `saved` and the one at place `q` of `fresh` are
/// the same ship or cafe: they agree in kind and id, and in their place among
/// those with both.
pub open spec fn same_vessel(saved: Seq<ObjectV>, p: int, fresh: Seq<ObjectV>, q: int) -> bool {
    let kind = kind_of(saved[p]);
    let id = saved[p].head.object_id;
    &&& 0 <= p < saved.len() && 0 <= q < fresh.len()
    &&& kind != 0 && kind_of(fresh[q]) == kind && fresh[q].head.object_id == id
    &&& rank(saved, p, kind, id) == rank(fresh, q, kind, id)
}

/// No two buildings are the same ship or cafe as a third.
proof fn lemma_vessel_unique(saved: Seq<ObjectV>, p: int, p2: int, fresh: Seq<ObjectV>, q: int)
    requires
        same_vessel(saved, p, fresh, q),
        same_vessel(saved, p2, fresh, q),
    ensures
        p == p2,
{
    let kind = kind_of(saved[p]);
    let id = saved[p].head.object_id;
    if p < p2 {
        lemma_rank_monotone(saved, p, p2, kind, id);
    } else if p2 < p {
        lemma_rank_monotone(saved, p2, p, kind, id);
    }
}

/// What loading the file written from `saved` makes of buildings fresh from the
/// layout file: each ship and cafe that is the same as a saved one has that
/// one's state laid over it, and nothing else changes. Only the order among
/// those of one kind and id matters, and sequence numbers do not.
pub proof fn law_saved_ships_come_back(saved: Seq<ObjectV>, fresh: Seq<ObjectV>)
    requires
        saved.len() <= i32::MAX,
    ensures
        ({
            let recs = records_upto(saved, saved.len() as int);
            let after = applied_upto(fresh, recs, recs.len() as int);
            &&& after.len() == fresh.len()
            &&& forall|p: int, q: int| #[trigger]
                same_vessel(saved, p, fresh, q) ==> after[q] == restored(
                    fresh[q],
                    record_of(saved, p),
                )
            &&& forall|q: int|
                0 <= q < fresh.len() && (forall|p: int| !#[trigger] same_vessel(saved, p, fresh, q))
                    ==> #[trigger] after[q] == fresh[q]
        }),
{
    let n = saved.len() as int;
    lemma_ships_come_back_upto(saved, fresh, n);
    let recs = records_upto(saved, n);
    let after = applied_upto(fresh, recs, recs.len() as int);
    assert forall|p: int, q: int| #[trigger] same_vessel(saved, p, fresh, q) implies after[q]
        == restored(fresh[q], record_of(saved, p)) by {
        assert(p < n);
    }
}

proof fn lemma_ships_come_back_upto(saved: Seq<ObjectV>, fresh: Seq<ObjectV>, n: int)
    requires
        saved.len() <= i32::MAX,
        0 <= n <= saved.len(),
    ensures
        ({
            let recs = records_upto(saved, n);
            let after = applied_upto(fresh, recs, recs.len() as int);
            &&& after.len() == fresh.len()
            &&& forall|p: int, q: int|
                p < n && #[trigger] same_vessel(saved, p, fresh, q) ==> after[q] == restored(
                    fresh[q],
                    record_of(saved, p),
                )
            &&& forall|q: int|
                0 <= q < fresh.len() && (forall|p: int|
                    p < n ==> !#[trigger] same_vessel(saved, p, fresh, q)) ==> #[trigger] after[q]
                    == fresh[q]
        }),
    decreases n,
{
    if n > 0 {
        lemma_ships_come_back_upto(saved, fresh, n - 1);
        let before = records_upto(saved, n - 1);
        let recs = records_upto(saved, n);
        let mid = applied_upto(fresh, before, before.len() as int);
        let after = applied_upto(fresh, recs, recs.len() as int);
        if kind_of(saved[n - 1]) != 0 {
            let rec = record_of(saved, n - 1);
            lemma_applied_prefix(fresh, before, recs, before.len() as int);
            lemma_applied_same_ids(fresh, before, before.len() as int);
            assert(recs.last() == rec);
            assert(after == applied(mid, rec));
            lemma_rank_bounds(saved, n - 1, rec.kind, rec.object_id);
            assert forall|q: int| 0 <= q < fresh.len() implies #[trigger] names(mid, rec, q)
                == same_vessel(saved, n - 1, fresh, q) by {
                lemma_same_ids_rank(fresh, mid, q, rec.kind, rec.object_id);
                assert(kind_of(fresh[q]) == kind_of(mid[q]));
            }
        }
        assert forall|p: int, q: int|
            p < n && #[trigger] same_vessel(saved, p, fresh, q) implies after[q] == restored(
            fresh[q],
            record_of(saved, p),
        ) by {
            if p == n - 1 {
                assert forall|p2: int| p2 < n - 1 implies !#[trigger] same_vessel(
                    saved,
                    p2,
                    fresh,
                    q,
                ) by {
                    if same_vessel(saved, p2, fresh, q) {
                        lemma_vessel_unique(saved, p, p2, fresh, q);
                    }
                }
                assert(mid[q] == fresh[q]);
                assert(names(mid, record_of(saved, n - 1), q));
            } else {
                if same_vessel(saved, n - 1, fresh, q) {
                    lemma_vessel_unique(saved, p, n - 1, fresh, q);
                }
                if kind_of(saved[n - 1]) != 0 {
                    assert(!names(mid, record_of(saved, n - 1), q));
                }
            }
        }
        assert forall|q: int|
            0 <= q < fresh.len() && (forall|p: int|
                p < n ==> !#[trigger] same_vessel(saved, p, fresh, q)) implies #[trigger] after[q]
            == fresh[q] by {
            assert(!same_vessel(saved, n - 1, fresh, q));
            assert(mid[q] == fresh[q]);
            if kind_of(saved[n - 1]) != 0 {
                assert(!names(mid, record_of(saved, n - 1), q));
            }
        }
    }
}

proof fn lemma_applied_prefix(objs: Seq<ObjectV>, a: Seq<RecordV>, b: Seq<RecordV>, n: int)
    requires
        n <= a.len(),
        a.len() <= b.len(),
        forall|i: int| 0 <= i < a.len() ==> a[i] == b[i],
    ensures
        applied_upto(objs, a, n) == applied_upto(objs, b, n),
    decreases n,
{
    if n > 0 {
        lemma_applied_prefix(objs, a, b, n - 1);
    }
}

/// A broken or whole ship, its gifts, and a cafe's being new survive saving
/// and loading, whatever the layout file gave back for the same building.
pub proof fn law_ship_state_survives(saved: Seq<ObjectV>, fresh: Seq<ObjectV>, p: int, q: int)
    requires
        same_vessel(saved, p, fresh, q),
        saved.len() <= i32::MAX,
    ensures
        ({
            let recs = records_upto(saved, saved.len() as int);
            let after = applied_upto(fresh, recs, recs.len() as int);
            &&& ship_state(saved[p]) == Some(1i32) || ship_state(saved[p]) == Some(2i32)
                ==> ship_state(after[q]) == ship_state(saved[p])
            &&& saved[p].head.detail is Ship && saved[p].gifts.len() > 0 ==> after[q].gifts
                == saved[p].gifts
            &&& saved[p].head.detail == (Detail::CafeShop { is_new: true }) ==> after[q].head.detail
                == (Detail::CafeShop { is_new: true })
        }),
{
    law_saved_ships_come_back(saved, fresh);
}

impl MapData {
    /// The records to save for the ships and cafes of the layout.
    pub fn save_island_ships(&self) -> (r: Vec<ShipRecord>)
        requires
            flat(self@).len() <= i32::MAX,
        ensures
            records_v(r@) == records_upto(flat(self@), flat(self@).len() as int),
    {
        let ghost objs = flat(self@);
        let all = self.island_all_objects();
        let mut r: Vec<ShipRecord> = Vec::new();
        let mut p: usize = 0;
        proof {
            lemma_slots_upto(self@, self@.len() as int);
            assert(records_v(r@) =~= Seq::empty());
        }
        while p < all.len()
            invariant
                p <= all.len(),
                objs == flat(self@),
                objs.len() <= i32::MAX,
                all@.len() == slots(self@).len(),
                forall|q: int|
                    0 <= q < all@.len() ==> slots(self@)[q] == ((#[trigger] all@[q]).0 as int, all@[q].1 as int),
                forall|q: int|
                    0 <= q < slots(self@).len() ==> is_slot(
                        self@,
                        (#[trigger] slots(self@)[q]).0,
                        slots(self@)[q].1,
                    ),
                records_v(r@) == records_upto(objs, p as int),
            decreases all.len() - p,
        {
            let (k, i) = all[p];
            assert(slots(self@)[p as int] == (k as int, i as int));
            assert(objs[p as int] == at(self@, (k as int, i as int)));
            let head = self.entries[k].objects[i].head;
            let ghost so_far = records_v(r@);
            match head.detail {
                Detail::Ship { state, .. } => {
                    let ord: i32 = self.rank_of(&all, p, 1, head.object_id);
                    let gifts = copied(&self.entries[k].objects[i].gifts);
                    r.push(
                        ShipRecord {
                            kind: 1,
                            object_id: head.object_id,
                            ord,
                            ship_state: Some(state),
                            gifts,
                            is_new: None,
                        },
                    );
                    assert(records_v(r@) =~= so_far.push(record_of(objs, p as int)));
                },
                Detail::CafeShop { is_new } => {
                    let ord: i32 = self.rank_of(&all, p, 2, head.object_id);
                    let new: i32 = if is_new { 1 } else { 0 };
                    r.push(
                        ShipRecord {
                            kind: 2,
                            object_id: head.object_id,
                            ord,
                            ship_state: None,
                            gifts: Vec::new(),
                            is_new: Some(new),
                        },
                    );
                    assert(r@.last().gifts@ =~= Seq::<i32>::empty());
                    assert(records_v(r@) =~= so_far.push(record_of(objs, p as int)));
                },
                _ => {},
            }
            p = p + 1;
        }
        r
    }

    fn rank_of(&self, all: &Vec<(usize, usize)>, n: usize, kind: i32, object_id: i32) -> (r: i32)
        requires
            kind == 1 || kind == 2,
            n <= all@.len(),
            all@.len() == slots(self@).len(),
            all@.len() <= i32::MAX,
            forall|q: int|
                0 <= q < all@.len() ==> slots(self@)[q] == ((#[trigger] all@[q]).0 as int, all@[q].1 as int),
        ensures
            r == rank(flat(self@), n as int, kind, object_id),
    {
        let ghost objs = flat(self@);
        let mut r: i32 = 0;
        let mut p: usize = 0;
        proof {
            lemma_slots_upto(self@, self@.len() as int);
        }
        while p < n
            invariant
                p <= n <= all@.len(),
                kind == 1 || kind == 2,
                all@.len() == slots(self@).len(),
                all@.len() <= i32::MAX,
                objs == flat(self@),
                forall|q: int|
                    0 <= q < all@.len() ==> slots(self@)[q] == ((#[trigger] all@[q]).0 as int, all@[q].1 as int),
                forall|q: int|
                    0 <= q < slots(self@).len() ==> is_slot(
                        self@,
                        (#[trigger] slots(self@)[q]).0,
                        slots(self@)[q].1,
                    ),
                r == rank(objs, p as int, kind, object_id),
                0 <= r <= p,
            decreases n - p,
        {
            let (k, i) = all[p];
            assert(slots(self@)[p as int] == (k as int, i as int));
            assert(objs[p as int] == at(self@, (k as int, i as int)));
            if head_answers(&self.entries[k].objects[i].head, kind, object_id) {
                r = r + 1;
            }
            p = p + 1;
        }
        r
    }

    fn find_named(&self, all: &Vec<(usize, usize)>, rec: &ShipRecord) -> (r: Option<usize>)
        requires
            all@.len() == slots(self@).len(),
            forall|q: int|
                0 <= q < all@.len() ==> slots(self@)[q] == ((#[trigger] all@[q]).0 as int, all@[q].1 as int),
        ensures
            match r {
                Some(p) => names(flat(self@), rec@, p as int),
                None => !names_any(flat(self@), rec@),
            },
    {
        let ghost objs = flat(self@);
        let kind: i32 = rec.kind;
        let object_id: i32 = rec.object_id;
        let ord: i32 = rec.ord;
        let mut seen: u64 = 0;
        let mut p: usize = 0;
        proof {
            lemma_slots_upto(self@, self@.len() as int);
        }
        while p < all.len()
            invariant
                p <= all@.len(),
                kind == rec.kind && object_id == rec.object_id && ord == rec.ord,
                all@.len() == slots(self@).len(),
                objs == flat(self@),
                forall|q: int|
                    0 <= q < all@.len() ==> slots(self@)[q] == ((#[trigger] all@[q]).0 as int, all@[q].1 as int),
                forall|q: int|
                    0 <= q < slots(self@).len() ==> is_slot(
                        self@,
                        (#[trigger] slots(self@)[q]).0,
                        slots(self@)[q].1,
                    ),
                seen == rank(objs, p as int, kind, object_id),
                seen <= p,
                forall|q: int|
                    0 <= q < p && #[trigger] answers(objs[q], kind, object_id) ==> rank(
                        objs,
                        q,
                        kind,
                        object_id,
                    ) != ord,
            decreases all.len() - p,
        {
            let (k, i) = all[p];
            assert(slots(self@)[p as int] == (k as int, i as int));
            assert(objs[p as int] == at(self@, (k as int, i as int)));
            if head_answers(&self.entries[k].objects[i].head, kind, object_id) {
                if ord >= 0 && seen == ord as u64 {
                    return Some(p);
                }
                seen = seen + 1;
            }
            p = p + 1;
        }
        None
    }

    /// Lays the saved state of ships and cafes over the layout; says how many
    /// records found their building.
    pub fn load_island_ships(&mut self, records: &Vec<ShipRecord>) -> (count: usize)
        ensures
            same_shape(old(self)@, final(self)@),
            flat(final(self)@) == applied_upto(
                flat(old(self)@),
                records_v(records@),
                records@.len() as int,
            ),
            count == applied_count(
                flat(old(self)@),
                records_v(records@),
                records@.len() as int,
            ),
    {
        let ghost before = self@;
        let ghost objs = flat(before);
        let ghost recs = records_v(records@);
        let all = self.island_all_objects();
        let mut count: usize = 0;
        let mut n: usize = 0;
        while n < records.len()
            invariant
                n <= records@.len(),
                recs == records_v(records@),
                objs == flat(before),
                all@.len() == slots(before).len(),
                forall|q: int|
                    0 <= q < all@.len() ==> slots(before)[q] == ((#[trigger] all@[q]).0 as int, all@[q].1 as int),
                same_shape(before, self@),
                slots(self@) == slots(before),
                flat(self@) == applied_upto(objs, recs, n as int),
                count == applied_count(objs, recs, n as int),
                count <= n,
            decreases records.len() - n,
        {
            let rec = &records[n];
            let ghost rv = rec@;
            let ghost now = self@;
            assert(rv == recs[n as int]);
            let hit = self.find_named(&all, rec);
            match hit {
                Some(p) => {
                    proof {
                        assert(names(flat(now), rv, p as int));
                        lemma_slots_upto(now, now.len() as int);
                    }
                    let (k, i) = all[p];
                    assert(slots(now)[p as int] == (k as int, i as int));
                    assert(is_slot(now, k as int, i as int));
                    let ghost o = at(now, (k as int, i as int));
                    assert(o == flat(now)[p as int]);
                    let detail = self.entries[k].objects[i].head.detail;
                    if rec.kind == 1 {
                        if let Some(s) = rec.ship_state {
                            if s == 1 || s == 2 {
                                if let Detail::Ship {
                                    begin_discover,
                                    begin_fix,
                                    state: _,
                                    sailing,
                                    search_map,
                                    on_board,
                                } = detail {
                                    self.entries[k].objects[i].head.detail =
                                    Detail::Ship {
                                        begin_discover,
                                        begin_fix,
                                        state: s,
                                        sailing,
                                        search_map,
                                        on_board,
                                    };
                                }
                            }
                        }
                        if rec.gifts.len() > 0 {
                            self.entries[k].objects[i].gifts = copied(&rec.gifts);
                        }
                    } else if let Some(new) = rec.is_new {
                        if new != 0 {
                            if let Detail::CafeShop { is_new: _ } = detail {
                                self.entries[k].objects[i].head.detail =
                                Detail::CafeShop { is_new: true };
                            }
                        }
                    }
                    count = count + 1;
                    proof {
                        let o2 = restored(o, rv);
                        assert(self@[k as int].objects[i as int] == o2);
                        assert(self@[k as int].objects =~= now[k as int].objects.update(
                            i as int,
                            o2,
                        ));
                        assert(self@ =~= replaced(now, k as int, i as int, o2));
                        lemma_replaced_flat(now, p as int, o2);
                        assert forall|q: int| 0 <= q < objs.len() implies #[trigger] flat(self@)[q]
                            == applied(flat(now), rv)[q] by {
                            if names(flat(now), rv, q) {
                                lemma_names_unique(flat(now), rv, p as int, q);
                            }
                        }
                        assert(flat(self@) =~= applied(flat(now), rv));
                    }
                },
                None => {
                    assert(flat(self@) =~= applied(flat(now), rv));
                },
            }
            n = n + 1;
        }
        count
    }

    /// Moors every ship that could otherwise never be used again.
    pub fn fix_stuck_ships(&mut self)
        ensures
            same_shape(old(self)@, final(self)@),
            flat(final(self)@) == Seq::new(
                flat(old(self)@).len(),
                |p: int| unstuck(flat(old(self)@)[p]),
            ),
    {
        let ghost before = self@;
        let ghost objs = flat(before);
        let all = self.island_all_objects();
        let mut n: usize = 0;
        while n < all.len()
            invariant
                n <= all@.len(),
                objs == flat(before),
                all@.len() == slots(before).len(),
                forall|q: int|
                    0 <= q < all@.len() ==> slots(before)[q] == ((#[trigger] all@[q]).0 as int, all@[q].1 as int),
                same_shape(before, self@),
                slots(self@) == slots(before),
                forall|q: int|
                    0 <= q < objs.len() ==> #[trigger] flat(self@)[q] == if q < n {
                        unstuck(objs[q])
                    } else {
                        objs[q]
                    },
            decreases all.len() - n,
        {
            let ghost now = self@;
            let (k, i) = all[n];
            proof {
                lemma_slots_upto(now, now.len() as int);
                assert(slots(now)[n as int] == (k as int, i as int));
                assert(is_slot(now, k as int, i as int));
                assert(flat(now)[n as int] == objs[n as int]);
            }
            if let Detail::Ship { begin_discover, begin_fix, state, sailing, search_map, on_board } =
                self.entries[k].objects[i].head.detail {
                if sailing && begin_discover.not_positive() && (search_map < 1 || on_board <= 0) {
                    self.entries[k].objects[i].head.detail =
                    Detail::Ship {
                        begin_discover,
                        begin_fix,
                        state,
                        sailing: false,
                        search_map,
                        on_board,
                    };
                    proof {
                        let o = unstuck(objs[n as int]);
                        assert(self@[k as int].objects =~= now[k as int].objects.update(
                            i as int,
                            o,
                        ));
                        assert(self@ =~= replaced(now, k as int, i as int, o));
                        lemma_replaced_flat(now, n as int, o);
                    }
                }
            }
            n = n + 1;
        }
        assert(flat(self@) =~= Seq::new(objs.len(), |p: int| unstuck(objs[p])));
    }
}

fn head_answers(head: &Head, kind: i32, object_id: i32) -> (r: bool)
    ensures
        forall|o: ObjectV| o.head == *head ==> r == #[trigger] answers(o, kind, object_id),
{
    let right = match head.detail {
        Detail::Ship { .. } => kind == 1,
        Detail::CafeShop { .. } => kind != 1,
        _ => false,
    };
    right && head.object_id == object_id
}

/// What a record keeps of a ship: kind 1, its id, its state and its gifts; of a
/// cafe: kind 2, its id, and whether it is new.
pub proof fn law_records_keep_the_state(objs: Seq<ObjectV>, p: int)
    requires
        0 <= p < objs.len() <= i32::MAX,
    ensures
        ({
            let o = objs[p];
            let r = record_of(objs, p);
            &&& r.object_id == o.head.object_id
            &&& match o.head.detail {
                Detail::Ship { state, .. } => r.kind == 1 && r.ship_state == Some(state) && r.gifts
                    == o.gifts && r.is_new is None,
                Detail::CafeShop { is_new } => r.kind == 2 && r.is_new == Some(
                    if is_new {
                        1i32
                    } else {
                        0i32
                    },
                ) && r.ship_state is None && r.gifts.len() == 0,
                _ => r.kind == 0,
            }
            &&& forall|q: int|
                0 <= q < p && kind_of(#[trigger] objs[q]) == r.kind && r.kind != 0
                    && objs[q].head.object_id == r.object_id ==> record_of(objs, q).ord < r.ord
        }),
{
    let o = objs[p];
    let r = record_of(objs, p);
    lemma_rank_bounds(objs, p, r.kind, r.object_id);
    assert forall|q: int|
        0 <= q < p && kind_of(#[trigger] objs[q]) == r.kind && r.kind != 0 && objs[q].head.object_id
            == r.object_id implies record_of(objs, q).ord < r.ord by {
        lemma_rank_bounds(objs, q, r.kind, r.object_id);
        lemma_rank_monotone(objs, q, p, r.kind, r.object_id);
    }
}

/// What a record lays over a building: a ship gets the record's state where
/// that is 1 or 2, and its gifts where there are any; a cafe becomes new where
/// the record says so, and is never made old. Its times, map, crew and all
/// else stay.
pub proof fn law_records_restore_the_state(o: ObjectV, rec: RecordV)
    ensures
        ({
            let r = restored(o, rec);
            &&& r.head.seq_id == o.head.seq_id && r.head.object_id == o.head.object_id
                && r.head.handle == o.head.handle && r.head.tile_x == o.head.tile_x && r.head.tile_y
                == o.head.tile_y && r.head.flip == o.head.flip
            &&& rec.kind == 1 && rec.gifts.len() > 0 ==> r.gifts == rec.gifts
            &&& !(rec.kind == 1 && rec.gifts.len() > 0) ==> r.gifts == o.gifts
            &&& match (o.head.detail, r.head.detail) {
                (
                    Detail::Ship {
                        begin_discover: a,
                        begin_fix: b,
                        state: c,
                        sailing: d,
                        search_map: e,
                        on_board: f,
                    },
                    Detail::Ship { begin_discover, begin_fix, state, sailing, search_map, on_board },
                ) => {
                    let taken = rec.kind == 1 && (rec.ship_state == Some(1i32) || rec.ship_state
                        == Some(2i32));
                    &&& a == begin_discover && b == begin_fix && d == sailing && e == search_map && f
                        == on_board
                    &&& taken ==> Some(state) == rec.ship_state
                    &&& !taken ==> state == c
                },
                (Detail::CafeShop { is_new: a }, Detail::CafeShop { is_new }) => is_new == (a || (
                rec.kind != 1 && rec.is_new is Some && rec.is_new->0 != 0)),
                (a, b) => a == b,
            }
        }),
{
}

/// A ship that is said to sail, but never began its voyage, and has no map or
/// no crew, is moored; every other building stays as it is.
pub proof fn law_stuck_ships_are_moored(o: ObjectV)
    ensures
        match o.head.detail {
            Detail::Ship { begin_discover, begin_fix, state, sailing, search_map, on_board } => {
                let began = begin_discover.secs > 0 || (begin_discover.secs == 0
                    && begin_discover.frac > 0);
                let stuck = sailing && !began && (search_map <= 0 || on_board <= 0);
                &&& stuck ==> unstuck(o).head.detail == (Detail::Ship {
                    begin_discover,
                    begin_fix,
                    state,
                    sailing: false,
                    search_map,
                    on_board,
                })
                &&& !stuck ==> unstuck(o) == o
                &&& unstuck(o).gifts == o.gifts
                &&& unstuck(o).head.seq_id == o.head.seq_id && unstuck(o).head.object_id
                    == o.head.object_id && unstuck(o).head.handle == o.head.handle
            },
            _ => unstuck(o) == o,
        },
        unstuck(unstuck(o)) == unstuck(o),
{
}

/// Records are written in the order of the buildings, one for each ship and
/// cafe and for nothing else; the count of those that were applied is that of
/// those which name a building.
pub proof fn law_records_keep_their_order(objs: Seq<ObjectV>, recs: Seq<RecordV>, n: int)
    ensures
        records_upto(objs, 0).len() == 0,
        n > 0 && (objs[n - 1].head.detail is Ship || objs[n - 1].head.detail is CafeShop)
            ==> records_upto(objs, n) == records_upto(objs, n - 1).push(record_of(objs, n - 1)),
        n > 0 && !(objs[n - 1].head.detail is Ship || objs[n - 1].head.detail is CafeShop)
            ==> records_upto(objs, n) == records_upto(objs, n - 1),
        applied_count(objs, recs, 0) == 0,
        n > 0 && (exists|p: int| #[trigger]
            names(applied_upto(objs, recs, n - 1), recs[n - 1], p)) ==> applied_count(objs, recs, n)
            == applied_count(objs, recs, n - 1) + 1,
        n > 0 && (forall|p: int| !#[trigger]
            names(applied_upto(objs, recs, n - 1), recs[n - 1], p)) ==> applied_count(objs, recs, n)
            == applied_count(objs, recs, n - 1) && applied_upto(objs, recs, n) == applied_upto(
            objs,
            recs,
            n - 1,
        ),
{
    if n > 0 {
        let before = applied_upto(objs, recs, n - 1);
        if forall|p: int| !#[trigger] names(before, recs[n - 1], p) {
            assert(applied(before, recs[n - 1]) =~= before);
        }
    }
}

/// A record names a building by kind, id and place: a ship for kind 1 and a cafe
/// for any other, with that id, and with as many of the same before it as the
/// record says.
pub proof fn law_whom_a_record_names(objs: Seq<ObjectV>, rec: RecordV, p: int)
    requires
        0 <= p < objs.len(),
    ensures
        names(objs, rec, p) ==> objs[p].head.object_id == rec.object_id,
        names(objs, rec, p) && rec.kind == 1 ==> objs[p].head.detail is Ship,
        names(objs, rec, p) && rec.kind != 1 ==> objs[p].head.detail is CafeShop,
        names(objs, rec, p) ==> rank(objs, p, rec.kind, rec.object_id) == rec.ord,
        rec.kind == 1 && objs[p].head.detail is Ship && objs[p].head.object_id == rec.object_id
            && rank(objs, p, 1, rec.object_id) == rec.ord ==> names(objs, rec, p),
        rec.kind == 2 && objs[p].head.detail is CafeShop && objs[p].head.object_id == rec.object_id
            && rank(objs, p, 2, rec.object_id) == rec.ord ==> names(objs, rec, p),
        rank(objs, 0, rec.kind, rec.object_id) == 0,
        rank(objs, p + 1, 1, rec.object_id) == rank(objs, p, 1, rec.object_id) + (
        if objs[p].head.detail is Ship && objs[p].head.object_id == rec.object_id {
            1int
        } else {
            0
        }),
        rank(objs, p + 1, 2, rec.object_id) == rank(objs, p, 2, rec.object_id) + (
        if objs[p].head.detail is CafeShop && objs[p].head.object_id == rec.object_id {
            1int
        } else {
            0
        }),
{
}

} // verus!
