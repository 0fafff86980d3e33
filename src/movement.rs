use vstd::prelude::*;

use crate::point::{
    catalog_entry,
    catalog_spec,
    entry_score,
    first_min_index,
    is_catalog_point,
    is_first_minimum,
    major_minor,
    move_target,
    Direction,
    HookFamily,
    CATALOG_LEN,
    SCORE_BLOCKED,
    SCORE_STAY,
};

verus! {

/// No two catalog entries share a position.
pub proof fn lemma_catalog_coordinates_distinct()
    ensures
        forall|i: int, j: int|
            0 <= i < CATALOG_LEN && 0 <= j < CATALOG_LEN && i != j ==> (#[trigger] catalog_entry(
                i,
            ).spec_x() != #[trigger] catalog_entry(j).spec_x() || catalog_entry(i).spec_y()
                != catalog_entry(j).spec_y()),
{
}

/// The first-minimum search over a non-empty prefix yields an index inside it,
/// whose score is least over the prefix and strictly less than that of every
/// earlier entry.
pub proof fn lemma_first_min_index_is_first_minimum(s: HookFamily, d: Direction, n: nat)
    requires
        1 <= n,
    ensures
        0 <= first_min_index(s, d, n) < n,
        forall|j: int|
            0 <= j < n ==> entry_score(s, d, first_min_index(s, d, n)) <= #[trigger] entry_score(
                s,
                d,
                j,
            ),
        forall|j: int|
            0 <= j < first_min_index(s, d, n) ==> entry_score(s, d, first_min_index(s, d, n))
                < #[trigger] entry_score(s, d, j),
    decreases n,
{
    if n > 1 {
        lemma_first_min_index_is_first_minimum(s, d, (n - 1) as nat);
    }
}

/// Moving always selects a catalog entry, whatever the start and direction.
pub proof fn lemma_move_stays_in_catalog(s: HookFamily, d: Direction)
    ensures
        is_catalog_point(move_target(s, d)),
        catalog_spec().contains(move_target(s, d)),
{
    lemma_first_min_index_is_first_minimum(s, d, CATALOG_LEN as nat);
    let i = first_min_index(s, d, CATALOG_LEN as nat);
    assert(catalog_spec()[i] == move_target(s, d));
}

/// The selection rule picks exactly one entry: any index whose score is least
/// and strictly below every earlier entry's is the one a move selects, so a
/// move's result depends on nothing but the start point and the direction.
pub proof fn lemma_move_deterministic(s: HookFamily, d: Direction, i: int)
    requires
        is_first_minimum(s, d, i),
    ensures
        i == first_min_index(s, d, CATALOG_LEN as nat),
        move_target(s, d) == catalog_entry(i),
{
    lemma_first_min_index_is_first_minimum(s, d, CATALOG_LEN as nat);
    let k = first_min_index(s, d, CATALOG_LEN as nat);
    if i < k {
        assert(entry_score(s, d, k) < entry_score(s, d, i));
        assert(entry_score(s, d, i) <= entry_score(s, d, k));
    } else if k < i {
        assert(entry_score(s, d, i) < entry_score(s, d, k));
        assert(entry_score(s, d, k) <= entry_score(s, d, i));
    }
}

/// The index a move selects satisfies the selection rule.
pub proof fn lemma_move_is_first_minimum(s: HookFamily, d: Direction)
    ensures
        is_first_minimum(s, d, first_min_index(s, d, CATALOG_LEN as nat)),
{
    lemma_first_min_index_is_first_minimum(s, d, CATALOG_LEN as nat);
}

proof fn lemma_own_index(s: HookFamily) -> (k: int)
    requires
        is_catalog_point(s),
    ensures
        0 <= k < CATALOG_LEN,
        catalog_entry(k) == s,
        entry_score(s, Direction::Up, k) == SCORE_STAY,
        entry_score(s, Direction::Down, k) == SCORE_STAY,
        entry_score(s, Direction::Left, k) == SCORE_STAY,
        entry_score(s, Direction::Right, k) == SCORE_STAY,
{
    choose|k: int| 0 <= k < CATALOG_LEN && catalog_entry(k) == s
}

/// A move never selects a point behind the start, nor one level with it but
/// off the axis: it either stays put or lands strictly ahead.
pub proof fn lemma_move_never_backwards(s: HookFamily, d: Direction)
    requires
        is_catalog_point(s),
    ensures
        move_target(s, d) == s || major_minor(
            move_target(s, d).spec_x() - s.spec_x(),
            move_target(s, d).spec_y() - s.spec_y(),
            d,
        ).0 > 0,
{
    let k = lemma_own_index(s);
    lemma_first_min_index_is_first_minimum(s, d, CATALOG_LEN as nat);
    lemma_catalog_coordinates_distinct();
    let i = first_min_index(s, d, CATALOG_LEN as nat);
    assert(entry_score(s, d, i) <= entry_score(s, d, k));
    if i != k {
        assert(catalog_entry(i).spec_x() != catalog_entry(k).spec_x() || catalog_entry(
            i,
        ).spec_y() != catalog_entry(k).spec_y());
    }
}

/// Where no catalog entry lies strictly ahead of the start in the direction of
/// movement, a move keeps the start point.
pub proof fn lemma_stays_without_candidate_ahead(s: HookFamily, d: Direction)
    requires
        is_catalog_point(s),
        forall|j: int|
            0 <= j < CATALOG_LEN ==> major_minor(
                #[trigger] catalog_entry(j).spec_x() - s.spec_x(),
                catalog_entry(j).spec_y() - s.spec_y(),
                d,
            ).0 <= 0,
    ensures
        move_target(s, d) == s,
{
    let k = lemma_own_index(s);
    lemma_first_min_index_is_first_minimum(s, d, CATALOG_LEN as nat);
    lemma_catalog_coordinates_distinct();
    let i = first_min_index(s, d, CATALOG_LEN as nat);
    if i != k {
        assert(major_minor(
            catalog_entry(i).spec_x() - s.spec_x(),
            catalog_entry(i).spec_y() - s.spec_y(),
            d,
        ).0 <= 0);
        assert(catalog_entry(i).spec_x() != catalog_entry(k).spec_x() || catalog_entry(
            i,
        ).spec_y() != catalog_entry(k).spec_y());
        assert(entry_score(s, d, i) == SCORE_BLOCKED);
        assert(entry_score(s, d, i) <= entry_score(s, d, k));
    }
}

/// At the edges of the catalog a move outwards keeps the point: up from the
/// top row, down from the bottom row, left from the leftmost column and right
/// from the rightmost column.
pub proof fn lemma_edge_saturation(s: HookFamily, d: Direction)
    requires
        is_catalog_point(s),
        (d == Direction::Up && s.spec_y() == 1) || (d == Direction::Down && s.spec_y() == 9) || (d
            == Direction::Left && s.spec_x() == 7) || (d == Direction::Right && s.spec_x() == 15),
    ensures
        move_target(s, d) == s,
{
    assert forall|j: int| 0 <= j < CATALOG_LEN implies major_minor(
        #[trigger] catalog_entry(j).spec_x() - s.spec_x(),
        catalog_entry(j).spec_y() - s.spec_y(),
        d,
    ).0 <= 0 by {}
    lemma_stays_without_candidate_ahead(s, d);
}

} // verus!
