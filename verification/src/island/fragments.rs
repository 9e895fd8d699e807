//! Pieces of the expedition maps that the player owns.

use vstd::prelude::*;

verus! {

/// The four pieces of the sand map. The second and the fourth are sold in the
/// island's shop; the first and the third are rewards of the quests 81 and 83.
pub open spec fn sand_pieces() -> Seq<i32> {
    seq![31005i32, 31006, 31007, 31008]
}

/// Whether quest `n` is done: a later one is next, and it is not under way.
pub open spec fn quest_done(next: i32, cur: i32, n: i32) -> bool {
    next > n && cur != n
}

/// The pieces with those of the first `n` of `ids` appended that were missing.
pub open spec fn joined(frags: Seq<i32>, ids: Seq<i32>, n: int) -> Seq<i32>
    decreases n,
{
    if n <= 0 {
        frags
    } else {
        let before = joined(frags, ids, n - 1);
        if before.contains(ids[n - 1]) {
            before
        } else {
            before.push(ids[n - 1])
        }
    }
}

/// Whether the save is from before pieces were saved: it has a layout, no file
/// of pieces, and no mark of the newer rule.
pub open spec fn is_legacy(by_quest: bool, fragment_file: bool, map_file: bool) -> bool {
    !by_quest && !fragment_file && map_file
}

/// The pieces the player must own: all four for an old save or where the
/// quests' progress cannot be told; otherwise the rewards of finished quests.
pub open spec fn owed_pieces(legacy: bool, next: i32, cur: i32) -> Seq<i32> {
    if legacy || next <= 0 {
        sand_pieces()
    } else {
        (if quest_done(next, cur, 81) {
            seq![31005i32]
        } else {
            Seq::empty()
        }) + (if quest_done(next, cur, 83) {
            seq![31007i32]
        } else {
            Seq::empty()
        })
    }
}

/// Whether the list holds the piece.
fn holds(frags: &Vec<i32>, id: i32) -> (r: bool)
    ensures
        r == frags@.contains(id),
{
    let mut i: usize = 0;
    while i < frags.len()
        invariant
            i <= frags.len(),
            forall|j: int| 0 <= j < i ==> frags@[j] != id,
        decreases frags.len() - i,
    {
        if frags[i] == id {
            return true;
        }
        i = i + 1;
    }
    false
}

/// Adds the pieces of `ids` that are missing; says how many.
pub fn join_fragments(frags: &mut Vec<i32>, ids: &Vec<i32>) -> (added: usize)
    ensures
        final(frags)@ == joined(old(frags)@, ids@, ids@.len() as int),
        added == final(frags)@.len() - old(frags)@.len(),
{
    let ghost before = frags@;
    let mut added: usize = 0;
    let mut n: usize = 0;
    while n < ids.len()
        invariant
            n <= ids@.len(),
            frags@ == joined(before, ids@, n as int),
            added == frags@.len() - before.len(),
            added <= n,
        decreases ids.len() - n,
    {
        let id: i32 = ids[n];
        if !holds(frags, id) {
            frags.push(id);
            added = added + 1;
        }
        n = n + 1;
    }
    added
}

/// Takes over the pieces of the save file; says how many were missing.
pub fn load_island_fragments(frags: &mut Vec<i32>, saved: &Vec<i32>) -> (restored: usize)
    ensures
        final(frags)@ == joined(old(frags)@, saved@, saved@.len() as int),
        restored == final(frags)@.len() - old(frags)@.len(),
{
    join_fragments(frags, saved)
}

/// Gives the player the pieces of the sand map that would otherwise be lost.
/// `progress` is the next and the current quest, if they are known.
pub fn inject_sandgarden_fragments(
    frags: &mut Vec<i32>,
    by_quest: &mut bool,
    fragment_file: bool,
    map_file: bool,
    progress: Option<(i32, i32)>,
) -> (added: usize)
    ensures
        ({
            let legacy = is_legacy(*old(by_quest), fragment_file, map_file);
            let next = if progress is Some { (progress->0).0 } else { 0 };
            let cur = if progress is Some { (progress->0).1 } else { 0 };
            let owed = owed_pieces(legacy, next, cur);
            &&& final(frags)@ == joined(old(frags)@, owed, owed.len() as int)
            &&& *final(by_quest) == (*old(by_quest) || (!legacy && next > 0))
        }),
        added == final(frags)@.len() - old(frags)@.len(),
{
    let legacy = !*by_quest && !fragment_file && map_file;
    let mut next: i32 = 0;
    let mut cur: i32 = 0;
    if let Some((n, c)) = progress {
        next = n;
        cur = c;
    }
    let mut ids: Vec<i32> = Vec::new();
    if legacy || next <= 0 {
        ids.push(31005);
        ids.push(31006);
        ids.push(31007);
        ids.push(31008);
    } else {
        *by_quest = true;
        if next > 81 && cur != 81 {
            ids.push(31005);
        }
        if next > 83 && cur != 83 {
            ids.push(31007);
        }
    }
    assert(ids@ =~= owed_pieces(legacy, next, cur));
    join_fragments(frags, &ids)
}

proof fn lemma_joined(frags: Seq<i32>, ids: Seq<i32>, n: int)
    requires
        0 <= n <= ids.len(),
    ensures
        frags.is_prefix_of(joined(frags, ids, n)),
        frags.no_duplicates() ==> joined(frags, ids, n).no_duplicates(),
        forall|j: int| 0 <= j < n ==> joined(frags, ids, n).contains(#[trigger] ids[j]),
        forall|x: i32| #[trigger]
            joined(frags, ids, n).contains(x) ==> frags.contains(x) || ids.contains(x),
    decreases n,
{
    if n > 0 {
        lemma_joined(frags, ids, n - 1);
        let before = joined(frags, ids, n - 1);
        let after = joined(frags, ids, n);
        if !before.contains(ids[n - 1]) {
            assert(after[before.len() as int] == ids[n - 1]);
            assert forall|j: int| 0 <= j < n implies after.contains(#[trigger] ids[j]) by {
                if j < n - 1 {
                    assert(before.contains(ids[j]));
                    let i = choose|i: int| 0 <= i < before.len() && before[i] == ids[j];
                    assert(after[i] == ids[j]);
                }
            }
            assert forall|x: i32| #[trigger] after.contains(x) implies frags.contains(x)
                || ids.contains(x) by {
                let i = choose|i: int| 0 <= i < after.len() && after[i] == x;
                if i < before.len() {
                    assert(before[i] == x);
                    assert(before.contains(x));
                } else {
                    assert(ids[n - 1] == x);
                }
            }
        }
    }
}

/// Joining pieces never loses one, never doubles one, and leaves the player
/// with every piece that was to be joined.
pub proof fn law_pieces_are_joined_once(frags: Seq<i32>, ids: Seq<i32>)
    requires
        frags.no_duplicates(),
    ensures
        ({
            let after = joined(frags, ids, ids.len() as int);
            &&& after.no_duplicates()
            &&& frags.is_prefix_of(after)
            &&& forall|x: i32| #[trigger]
                after.contains(x) <==> frags.contains(x) || ids.contains(x)
        }),
{
    lemma_joined(frags, ids, ids.len() as int);
    let after = joined(frags, ids, ids.len() as int);
    assert forall|x: i32| #[trigger] after.contains(x) <==> frags.contains(x) || ids.contains(
        x,
    ) by {
        if frags.contains(x) {
            let i = choose|i: int| 0 <= i < frags.len() && frags[i] == x;
            assert(after[i] == x);
        }
        if ids.contains(x) {
            let j = choose|j: int| 0 <= j < ids.len() && ids[j] == x;
            assert(after.contains(ids[j]));
        }
    }
}

/// A new island is never given the pieces that its shop sells, and a piece
/// that a quest rewards is not given before the quest is done.
pub proof fn law_new_island_earns_its_pieces(next: i32, cur: i32)
    requires
        next > 0,
    ensures
        ({
            let owed = owed_pieces(false, next, cur);
            &&& !owed.contains(31006) && !owed.contains(31008)
            &&& owed.contains(31005) <==> quest_done(next, cur, 81)
            &&& owed.contains(31007) <==> quest_done(next, cur, 83)
        }),
{
    let owed = owed_pieces(false, next, cur);
    if quest_done(next, cur, 81) {
        assert(owed[0] == 31005);
        if quest_done(next, cur, 83) {
            assert(owed[1] == 31007);
        }
    } else if quest_done(next, cur, 83) {
        assert(owed[0] == 31007);
    }
}

/// A save from before pieces were saved, one with a layout but no file of
/// pieces and no mark of the newer rule, is given all four pieces, and so is one
/// whose quests cannot be told; no other save counts as such.
pub proof fn law_old_saves_keep_their_pieces(
    by_quest: bool,
    fragment_file: bool,
    map_file: bool,
    next: i32,
    cur: i32,
)
    ensures
        is_legacy(by_quest, fragment_file, map_file) <==> map_file && !fragment_file && !by_quest,
        owed_pieces(true, next, cur) == seq![31005i32, 31006, 31007, 31008],
        next <= 0 ==> owed_pieces(false, next, cur) == seq![31005i32, 31006, 31007, 31008],
        next > 83 && cur != 83 && cur != 81 ==> owed_pieces(false, next, cur) == seq![
            31005i32,
            31007,
        ],
        81 < next <= 83 && cur != 81 ==> owed_pieces(false, next, cur) == seq![31005i32],
        0 < next <= 81 ==> owed_pieces(false, next, cur) == Seq::<i32>::empty(),
        next > 83 && cur == 81 ==> owed_pieces(false, next, cur) == seq![31007i32],
        next > 83 && cur == 83 ==> owed_pieces(false, next, cur) == seq![31005i32],
{
    assert(0 < next <= 81 ==> owed_pieces(false, next, cur) =~= Seq::<i32>::empty());
    assert(next > 83 && cur != 83 && cur != 81 ==> owed_pieces(false, next, cur) =~= seq![
        31005i32,
        31007,
    ]);
    assert(81 < next <= 83 && cur != 81 ==> owed_pieces(false, next, cur) =~= seq![31005i32]);
    assert(next > 83 && cur == 81 ==> owed_pieces(false, next, cur) =~= seq![31007i32]);
    assert(next > 83 && cur == 83 ==> owed_pieces(false, next, cur) =~= seq![31005i32]);
}

} // verus!
