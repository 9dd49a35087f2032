use vstd::prelude::*;

use crate::life::{
    after_generations, alive_count, blank, cleared, glider_shape, live_neighbors, next_cell,
    next_generation, pattern, pulsar_shape, shifted, with_cell_on,
};

verus! {

/// The next generation is a function of the current board alone: two boards
/// that are equal stay equal after any number of generations.
pub proof fn lemma_generations_deterministic(g1: Seq<Seq<bool>>, g2: Seq<Seq<bool>>, n: nat)
    requires
        g1 == g2,
    ensures
        next_generation(g1) == next_generation(g2),
        after_generations(g1, n) == after_generations(g2, n),
{
}

/// A board on which every cell is dead stays so in the next generation.
pub proof fn lemma_blank_step(w: int, h: int)
    requires
        w > 0,
        h > 0,
    ensures
        next_generation(blank(w, h)) == blank(w, h),
{
    let g = blank(w, h);
    assert forall|y: int, x: int| 0 <= y < h && 0 <= x < w implies #[trigger] next_cell(g, x, y)
        == false by {
        assert(live_neighbors(g, x, y) == 0);
    }
    assert(next_generation(g) =~~= g);
}

/// A board on which every cell is dead stays so after any number of
/// generations.
pub proof fn lemma_dead_board_stays_dead(w: int, h: int, n: nat)
    requires
        w > 0,
        h > 0,
    ensures
        after_generations(blank(w, h), n) == blank(w, h),
    decreases n,
{
    if n > 0 {
        lemma_dead_board_stays_dead(w, h, (n - 1) as nat);
        lemma_blank_step(w, h);
    }
}

/// Clearing a board that was just cleared changes nothing.
pub proof fn lemma_clear_idempotent(g: Seq<Seq<bool>>)
    ensures
        cleared(cleared(g)) == cleared(g),
{
    assert(cleared(cleared(g)) =~~= cleared(g));
}

/// Turning a cell on leaves it alive, and turning it on again changes
/// nothing.
pub proof fn lemma_toggle_on_idempotent(g: Seq<Seq<bool>>, x: int, y: int)
    requires
        0 <= y < g.len(),
        0 <= x < g[y].len(),
    ensures
        with_cell_on(g, x, y)[y][x],
        with_cell_on(with_cell_on(g, x, y), x, y) == with_cell_on(g, x, y),
{
    assert(with_cell_on(with_cell_on(g, x, y), x, y) =~~= with_cell_on(g, x, y));
}

/// The three corners of a board of `w` columns and `h` rows other than the
/// top left one.
pub open spec fn other_corners(w: int, h: int) -> Seq<(int, int)> {
    seq![(w - 1, h - 1), (w - 1, 0int), (0int, h - 1)]
}

/// The board has no edges: on a board of at least three columns and three
/// rows whose only live cells are the three other corners, the top left
/// cell has exactly three live neighbours and so comes alive.
pub proof fn lemma_corners_wrap_around(w: int, h: int)
    requires
        w >= 3,
        h >= 3,
    ensures
        live_neighbors(pattern(other_corners(w, h), w, h), 0, 0) == 3,
        next_generation(pattern(other_corners(w, h), w, h))[0][0],
{
    let s = other_corners(w, h);
    let g = pattern(s, w, h);
    assert(s[0] == (w - 1, h - 1));
    assert(s[1] == (w - 1, 0int));
    assert(s[2] == (0int, h - 1));
    assert(g[h - 1][w - 1]);
    assert(g[0][w - 1]);
    assert(g[h - 1][0]);
    assert(!g[0][0]);
    assert(!g[0][1]);
    assert(!g[1][0]);
    assert(!g[1][1]);
    assert(!g[1][w - 1]);
    assert(!g[h - 1][1]);
    assert(alive_count(g, 0, 0) == 0);
}

/// A board whose every cell follows `t` in the next generation becomes the
/// board of `t`.
proof fn lemma_step_from_cells(s: Seq<(int, int)>, t: Seq<(int, int)>, w: int, h: int)
    requires
        w > 0,
        h > 0,
        forall|x: int, y: int|
            0 <= x < w && 0 <= y < h ==> #[trigger] next_cell(pattern(s, w, h), x, y)
                == t.contains((x, y)),
    ensures
        next_generation(pattern(s, w, h)) == pattern(t, w, h),
{
    assert(next_generation(pattern(s, w, h)) =~~= pattern(t, w, h));
}

/// Two shapes with the same points draw the same board.
proof fn lemma_same_points(s: Seq<(int, int)>, t: Seq<(int, int)>, w: int, h: int)
    requires
        forall|p: (int, int)| #[trigger] s.contains(p) == t.contains(p),
    ensures
        pattern(s, w, h) == pattern(t, w, h),
{
    assert(pattern(s, w, h) =~~= pattern(t, w, h));
}

spec fn glider_phase_1() -> Seq<(int, int)> {
    seq![(1int, 0int), (1int, 2int), (2int, 1int), (2int, 2int), (3int, 1int)]
}

spec fn glider_phase_2() -> Seq<(int, int)> {
    seq![(1int, 2int), (2int, 0int), (2int, 2int), (3int, 1int), (3int, 2int)]
}

spec fn glider_phase_3() -> Seq<(int, int)> {
    seq![(1int, 1int), (2int, 2int), (2int, 3int), (3int, 1int), (3int, 2int)]
}

spec fn glider_phase_4() -> Seq<(int, int)> {
    seq![(1int, 2int), (2int, 3int), (3int, 1int), (3int, 2int), (3int, 3int)]
}

/// What the pattern holds.
proof fn lemma_glider_members_0()
    ensures
        forall|p: (int, int)| #[trigger] glider_shape().contains(p) <==> (
            p == (0int, 1int) || p == (2int, 1int) || p == (2int, 0int) || p == (2int, 2int) ||
            p == (1int, 2int)
        ),
{
    let s = glider_shape();
    assert(s =~= seq![(0int, 1int), (2int, 1int), (2int, 0int), (2int, 2int), (1int, 2int)]);
    assert forall|p: (int, int)| #[trigger] s.contains(p) <==> (
        p == (0int, 1int) || p == (2int, 1int) || p == (2int, 0int) || p == (2int, 2int) ||
        p == (1int, 2int)
    ) by {
        if s.contains(p) {
            let i = choose|i: int| 0 <= i < s.len() && s[i] == p;
            assert(i == 0 || i == 1 || i == 2 || i == 3 || i == 4);
        }
        assert(s[0] == (0int, 1int));
        assert(s[1] == (2int, 1int));
        assert(s[2] == (2int, 0int));
        assert(s[3] == (2int, 2int));
        assert(s[4] == (1int, 2int));
    }
}

/// What phase 1 of the pattern holds.
proof fn lemma_glider_members_1()
    ensures
        forall|p: (int, int)| #[trigger] glider_phase_1().contains(p) <==> (
            p == (1int, 0int) || p == (1int, 2int) || p == (2int, 1int) || p == (2int, 2int) ||
            p == (3int, 1int)
        ),
{
    let s = glider_phase_1();
    assert(s =~= seq![(1int, 0int), (1int, 2int), (2int, 1int), (2int, 2int), (3int, 1int)]);
    assert forall|p: (int, int)| #[trigger] s.contains(p) <==> (
        p == (1int, 0int) || p == (1int, 2int) || p == (2int, 1int) || p == (2int, 2int) ||
        p == (3int, 1int)
    ) by {
        if s.contains(p) {
            let i = choose|i: int| 0 <= i < s.len() && s[i] == p;
            assert(i == 0 || i == 1 || i == 2 || i == 3 || i == 4);
        }
        assert(s[0] == (1int, 0int));
        assert(s[1] == (1int, 2int));
        assert(s[2] == (2int, 1int));
        assert(s[3] == (2int, 2int));
        assert(s[4] == (3int, 1int));
    }
}

/// What phase 2 of the pattern holds.
proof fn lemma_glider_members_2()
    ensures
        forall|p: (int, int)| #[trigger] glider_phase_2().contains(p) <==> (
            p == (1int, 2int) || p == (2int, 0int) || p == (2int, 2int) || p == (3int, 1int) ||
            p == (3int, 2int)
        ),
{
    let s = glider_phase_2();
    assert(s =~= seq![(1int, 2int), (2int, 0int), (2int, 2int), (3int, 1int), (3int, 2int)]);
    assert forall|p: (int, int)| #[trigger] s.contains(p) <==> (
        p == (1int, 2int) || p == (2int, 0int) || p == (2int, 2int) || p == (3int, 1int) ||
        p == (3int, 2int)
    ) by {
        if s.contains(p) {
            let i = choose|i: int| 0 <= i < s.len() && s[i] == p;
            assert(i == 0 || i == 1 || i == 2 || i == 3 || i == 4);
        }
        assert(s[0] == (1int, 2int));
        assert(s[1] == (2int, 0int));
        assert(s[2] == (2int, 2int));
        assert(s[3] == (3int, 1int));
        assert(s[4] == (3int, 2int));
    }
}

/// What phase 3 of the pattern holds.
proof fn lemma_glider_members_3()
    ensures
        forall|p: (int, int)| #[trigger] glider_phase_3().contains(p) <==> (
            p == (1int, 1int) || p == (2int, 2int) || p == (2int, 3int) || p == (3int, 1int) ||
            p == (3int, 2int)
        ),
{
    let s = glider_phase_3();
    assert(s =~= seq![(1int, 1int), (2int, 2int), (2int, 3int), (3int, 1int), (3int, 2int)]);
    assert forall|p: (int, int)| #[trigger] s.contains(p) <==> (
        p == (1int, 1int) || p == (2int, 2int) || p == (2int, 3int) || p == (3int, 1int) ||
        p == (3int, 2int)
    ) by {
        if s.contains(p) {
            let i = choose|i: int| 0 <= i < s.len() && s[i] == p;
            assert(i == 0 || i == 1 || i == 2 || i == 3 || i == 4);
        }
        assert(s[0] == (1int, 1int));
        assert(s[1] == (2int, 2int));
        assert(s[2] == (2int, 3int));
        assert(s[3] == (3int, 1int));
        assert(s[4] == (3int, 2int));
    }
}

/// What phase 4 of the pattern holds.
proof fn lemma_glider_members_4()
    ensures
        forall|p: (int, int)| #[trigger] glider_phase_4().contains(p) <==> (
            p == (1int, 2int) || p == (2int, 3int) || p == (3int, 1int) || p == (3int, 2int) ||
            p == (3int, 3int)
        ),
{
    let s = glider_phase_4();
    assert(s =~= seq![(1int, 2int), (2int, 3int), (3int, 1int), (3int, 2int), (3int, 3int)]);
    assert forall|p: (int, int)| #[trigger] s.contains(p) <==> (
        p == (1int, 2int) || p == (2int, 3int) || p == (3int, 1int) || p == (3int, 2int) ||
        p == (3int, 3int)
    ) by {
        if s.contains(p) {
            let i = choose|i: int| 0 <= i < s.len() && s[i] == p;
            assert(i == 0 || i == 1 || i == 2 || i == 3 || i == 4);
        }
        assert(s[0] == (1int, 2int));
        assert(s[1] == (2int, 3int));
        assert(s[2] == (3int, 1int));
        assert(s[3] == (3int, 2int));
        assert(s[4] == (3int, 3int));
    }
}

/// What the pattern holds once it has come round.
proof fn lemma_glider_members_final()
    ensures
        forall|p: (int, int)| #[trigger] shifted(glider_shape(), 1, 1).contains(p) <==> (
            p == (1int, 2int) || p == (3int, 2int) || p == (3int, 1int) || p == (3int, 3int) ||
            p == (2int, 3int)
        ),
{
    let s = shifted(glider_shape(), 1, 1);
    assert(s =~= seq![(1int, 2int), (3int, 2int), (3int, 1int), (3int, 3int), (2int, 3int)]);
    assert forall|p: (int, int)| #[trigger] s.contains(p) <==> (
        p == (1int, 2int) || p == (3int, 2int) || p == (3int, 1int) || p == (3int, 3int) ||
        p == (2int, 3int)
    ) by {
        if s.contains(p) {
            let i = choose|i: int| 0 <= i < s.len() && s[i] == p;
            assert(i == 0 || i == 1 || i == 2 || i == 3 || i == 4);
        }
        assert(s[0] == (1int, 2int));
        assert(s[1] == (3int, 2int));
        assert(s[2] == (3int, 1int));
        assert(s[3] == (3int, 3int));
        assert(s[4] == (2int, 3int));
    }
}

/// One generation takes phase 0 of the glider to phase 1.
proof fn lemma_glider_step_0(w: int, h: int)
    requires
        w >= 5,
        h >= 5,
    ensures
        next_generation(pattern(glider_shape(), w, h)) == pattern(glider_phase_1(), w, h),
{
    lemma_glider_members_0();
    lemma_glider_members_1();
    let g = pattern(glider_shape(), w, h);
    assert forall|x: int, y: int| 0 <= x < w && 0 <= y < h implies #[trigger] next_cell(g, x, y)
        == glider_phase_1().contains((x, y)) by {}
    lemma_step_from_cells(glider_shape(), glider_phase_1(), w, h);
}

/// One generation takes phase 1 of the glider to phase 2.
proof fn lemma_glider_step_1(w: int, h: int)
    requires
        w >= 5,
        h >= 5,
    ensures
        next_generation(pattern(glider_phase_1(), w, h)) == pattern(glider_phase_2(), w, h),
{
    lemma_glider_members_1();
    lemma_glider_members_2();
    let g = pattern(glider_phase_1(), w, h);
    assert forall|x: int, y: int| 0 <= x < w && 0 <= y < h implies #[trigger] next_cell(g, x, y)
        == glider_phase_2().contains((x, y)) by {}
    lemma_step_from_cells(glider_phase_1(), glider_phase_2(), w, h);
}

/// One generation takes phase 2 of the glider to phase 3.
proof fn lemma_glider_step_2(w: int, h: int)
    requires
        w >= 5,
        h >= 5,
    ensures
        next_generation(pattern(glider_phase_2(), w, h)) == pattern(glider_phase_3(), w, h),
{
    lemma_glider_members_2();
    lemma_glider_members_3();
    let g = pattern(glider_phase_2(), w, h);
    assert forall|x: int, y: int| 0 <= x < w && 0 <= y < h implies #[trigger] next_cell(g, x, y)
        == glider_phase_3().contains((x, y)) by {}
    lemma_step_from_cells(glider_phase_2(), glider_phase_3(), w, h);
}

/// One generation takes phase 3 of the glider to phase 4.
proof fn lemma_glider_step_3(w: int, h: int)
    requires
        w >= 5,
        h >= 5,
    ensures
        next_generation(pattern(glider_phase_3(), w, h)) == pattern(glider_phase_4(), w, h),
{
    lemma_glider_members_3();
    lemma_glider_members_4();
    let g = pattern(glider_phase_3(), w, h);
    assert forall|x: int, y: int| 0 <= x < w && 0 <= y < h implies #[trigger] next_cell(g, x, y)
        == glider_phase_4().contains((x, y)) by {}
    lemma_step_from_cells(glider_phase_3(), glider_phase_4(), w, h);
}

/// A glider travels: on a board of at least five columns and five rows,
/// four generations after it was placed it has its first shape again, one
/// cell further right and one cell further down.
pub proof fn lemma_glider_travels(w: int, h: int)
    requires
        w >= 5,
        h >= 5,
    ensures
        after_generations(pattern(glider_shape(), w, h), 4)
            == pattern(shifted(glider_shape(), 1, 1), w, h),
{
    let g = pattern(glider_shape(), w, h);
    reveal_with_fuel(after_generations, 5);
    lemma_glider_step_0(w, h);
    lemma_glider_step_1(w, h);
    lemma_glider_step_2(w, h);
    lemma_glider_step_3(w, h);
    lemma_glider_members_4();
    lemma_glider_members_final();
    lemma_same_points(glider_phase_4(), shifted(glider_shape(), 1, 1), w, h);
}

spec fn pulsar_phase_1() -> Seq<(int, int)> {
    seq![
        (37int, 6int), (37int, 12int), (38int, 6int), (38int, 12int), (39int, 6int),
        (39int, 7int), (39int, 11int), (39int, 12int), (41int, 2int), (41int, 3int),
        (41int, 4int), (41int, 7int), (41int, 8int), (41int, 10int), (41int, 11int),
        (41int, 14int), (41int, 15int), (41int, 16int), (42int, 4int), (42int, 6int),
        (42int, 8int), (42int, 10int), (42int, 12int), (42int, 14int), (43int, 6int),
        (43int, 7int), (43int, 11int), (43int, 12int), (45int, 6int), (45int, 7int),
        (45int, 11int), (45int, 12int), (46int, 4int), (46int, 6int), (46int, 8int),
        (46int, 10int), (46int, 12int), (46int, 14int), (47int, 2int), (47int, 3int),
        (47int, 4int), (47int, 7int), (47int, 8int), (47int, 10int), (47int, 11int),
        (47int, 14int), (47int, 15int), (47int, 16int), (49int, 6int), (49int, 7int),
        (49int, 11int), (49int, 12int), (50int, 6int), (50int, 12int), (51int, 6int),
        (51int, 12int),
    ]
}

spec fn pulsar_phase_2() -> Seq<(int, int)> {
    seq![
        (38int, 5int), (38int, 6int), (38int, 12int), (38int, 13int), (39int, 6int),
        (39int, 7int), (39int, 11int), (39int, 12int), (40int, 3int), (40int, 6int),
        (40int, 8int), (40int, 10int), (40int, 12int), (40int, 15int), (41int, 3int),
        (41int, 4int), (41int, 5int), (41int, 7int), (41int, 8int), (41int, 10int),
        (41int, 11int), (41int, 13int), (41int, 14int), (41int, 15int), (42int, 4int),
        (42int, 6int), (42int, 8int), (42int, 10int), (42int, 12int), (42int, 14int),
        (43int, 5int), (43int, 6int), (43int, 7int), (43int, 11int), (43int, 12int),
        (43int, 13int), (45int, 5int), (45int, 6int), (45int, 7int), (45int, 11int),
        (45int, 12int), (45int, 13int), (46int, 4int), (46int, 6int), (46int, 8int),
        (46int, 10int), (46int, 12int), (46int, 14int), (47int, 3int), (47int, 4int),
        (47int, 5int), (47int, 7int), (47int, 8int), (47int, 10int), (47int, 11int),
        (47int, 13int), (47int, 14int), (47int, 15int), (48int, 3int), (48int, 6int),
        (48int, 8int), (48int, 10int), (48int, 12int), (48int, 15int), (49int, 6int),
        (49int, 7int), (49int, 11int), (49int, 12int), (50int, 5int), (50int, 6int),
        (50int, 12int), (50int, 13int),
    ]
}

spec fn pulsar_phase_3() -> Seq<(int, int)> {
    seq![
        (38int, 5int), (38int, 6int), (38int, 7int), (38int, 11int), (38int, 12int),
        (38int, 13int), (40int, 3int), (40int, 8int), (40int, 10int), (40int, 15int),
        (41int, 3int), (41int, 8int), (41int, 10int), (41int, 15int), (42int, 3int),
        (42int, 8int), (42int, 10int), (42int, 15int), (43int, 5int), (43int, 6int),
        (43int, 7int), (43int, 11int), (43int, 12int), (43int, 13int), (45int, 5int),
        (45int, 6int), (45int, 7int), (45int, 11int), (45int, 12int), (45int, 13int),
        (46int, 3int), (46int, 8int), (46int, 10int), (46int, 15int), (47int, 3int),
        (47int, 8int), (47int, 10int), (47int, 15int), (48int, 3int), (48int, 8int),
        (48int, 10int), (48int, 15int), (50int, 5int), (50int, 6int), (50int, 7int),
        (50int, 11int), (50int, 12int), (50int, 13int),
    ]
}

/// What the pattern holds.
proof fn lemma_pulsar_members_0()
    ensures
        forall|p: (int, int)| #[trigger] pulsar_shape().contains(p) <==> (
            p == (40int, 3int) || p == (41int, 3int) || p == (42int, 3int) ||
            p == (46int, 3int) || p == (47int, 3int) || p == (48int, 3int) ||
            p == (38int, 5int) || p == (43int, 5int) || p == (45int, 5int) ||
            p == (50int, 5int) || p == (38int, 6int) || p == (43int, 6int) ||
            p == (45int, 6int) || p == (50int, 6int) || p == (38int, 7int) ||
            p == (43int, 7int) || p == (45int, 7int) || p == (50int, 7int) ||
            p == (40int, 8int) || p == (41int, 8int) || p == (42int, 8int) ||
            p == (46int, 8int) || p == (47int, 8int) || p == (48int, 8int) ||
            p == (40int, 10int) || p == (41int, 10int) || p == (42int, 10int) ||
            p == (46int, 10int) || p == (47int, 10int) || p == (48int, 10int) ||
            p == (38int, 11int) || p == (43int, 11int) || p == (45int, 11int) ||
            p == (50int, 11int) || p == (38int, 12int) || p == (43int, 12int) ||
            p == (45int, 12int) || p == (50int, 12int) || p == (38int, 13int) ||
            p == (43int, 13int) || p == (45int, 13int) || p == (50int, 13int) ||
            p == (40int, 15int) || p == (41int, 15int) || p == (42int, 15int) ||
            p == (46int, 15int) || p == (47int, 15int) || p == (48int, 15int)
        ),
{
    let s = pulsar_shape();
    assert forall|p: (int, int)| #[trigger] s.contains(p) <==> (
        p == (40int, 3int) || p == (41int, 3int) || p == (42int, 3int) || p == (46int, 3int) ||
        p == (47int, 3int) || p == (48int, 3int) || p == (38int, 5int) || p == (43int, 5int) ||
        p == (45int, 5int) || p == (50int, 5int) || p == (38int, 6int) || p == (43int, 6int) ||
        p == (45int, 6int) || p == (50int, 6int) || p == (38int, 7int) || p == (43int, 7int) ||
        p == (45int, 7int) || p == (50int, 7int) || p == (40int, 8int) || p == (41int, 8int) ||
        p == (42int, 8int) || p == (46int, 8int) || p == (47int, 8int) || p == (48int, 8int) ||
        p == (40int, 10int) || p == (41int, 10int) || p == (42int, 10int) ||
        p == (46int, 10int) || p == (47int, 10int) || p == (48int, 10int) ||
        p == (38int, 11int) || p == (43int, 11int) || p == (45int, 11int) ||
        p == (50int, 11int) || p == (38int, 12int) || p == (43int, 12int) ||
        p == (45int, 12int) || p == (50int, 12int) || p == (38int, 13int) ||
        p == (43int, 13int) || p == (45int, 13int) || p == (50int, 13int) ||
        p == (40int, 15int) || p == (41int, 15int) || p == (42int, 15int) ||
        p == (46int, 15int) || p == (47int, 15int) || p == (48int, 15int)
    ) by {
        if s.contains(p) {
            let i = choose|i: int| 0 <= i < s.len() && s[i] == p;
            assert(
                i == 0 || i == 1 || i == 2 || i == 3 || i == 4 || i == 5 || i == 6 || i == 7 ||
                i == 8 || i == 9 || i == 10 || i == 11 || i == 12 || i == 13 || i == 14 ||
                i == 15 || i == 16 || i == 17 || i == 18 || i == 19 || i == 20 || i == 21 ||
                i == 22 || i == 23 || i == 24 || i == 25 || i == 26 || i == 27 || i == 28 ||
                i == 29 || i == 30 || i == 31 || i == 32 || i == 33 || i == 34 || i == 35 ||
                i == 36 || i == 37 || i == 38 || i == 39 || i == 40 || i == 41 || i == 42 ||
                i == 43 || i == 44 || i == 45 || i == 46 || i == 47
            );
        }
        assert(s[0] == (40int, 3int));
        assert(s[1] == (41int, 3int));
        assert(s[2] == (42int, 3int));
        assert(s[3] == (46int, 3int));
        assert(s[4] == (47int, 3int));
        assert(s[5] == (48int, 3int));
        assert(s[6] == (38int, 5int));
        assert(s[7] == (43int, 5int));
        assert(s[8] == (45int, 5int));
        assert(s[9] == (50int, 5int));
        assert(s[10] == (38int, 6int));
        assert(s[11] == (43int, 6int));
        assert(s[12] == (45int, 6int));
        assert(s[13] == (50int, 6int));
        assert(s[14] == (38int, 7int));
        assert(s[15] == (43int, 7int));
        assert(s[16] == (45int, 7int));
        assert(s[17] == (50int, 7int));
        assert(s[18] == (40int, 8int));
        assert(s[19] == (41int, 8int));
        assert(s[20] == (42int, 8int));
        assert(s[21] == (46int, 8int));
        assert(s[22] == (47int, 8int));
        assert(s[23] == (48int, 8int));
        assert(s[24] == (40int, 10int));
        assert(s[25] == (41int, 10int));
        assert(s[26] == (42int, 10int));
        assert(s[27] == (46int, 10int));
        assert(s[28] == (47int, 10int));
        assert(s[29] == (48int, 10int));
        assert(s[30] == (38int, 11int));
        assert(s[31] == (43int, 11int));
        assert(s[32] == (45int, 11int));
        assert(s[33] == (50int, 11int));
        assert(s[34] == (38int, 12int));
        assert(s[35] == (43int, 12int));
        assert(s[36] == (45int, 12int));
        assert(s[37] == (50int, 12int));
        assert(s[38] == (38int, 13int));
        assert(s[39] == (43int, 13int));
        assert(s[40] == (45int, 13int));
        assert(s[41] == (50int, 13int));
        assert(s[42] == (40int, 15int));
        assert(s[43] == (41int, 15int));
        assert(s[44] == (42int, 15int));
        assert(s[45] == (46int, 15int));
        assert(s[46] == (47int, 15int));
        assert(s[47] == (48int, 15int));
    }
}

/// What phase 1 of the pattern holds.
proof fn lemma_pulsar_members_1()
    ensures
        forall|p: (int, int)| #[trigger] pulsar_phase_1().contains(p) <==> (
            p == (37int, 6int) || p == (37int, 12int) || p == (38int, 6int) ||
            p == (38int, 12int) || p == (39int, 6int) || p == (39int, 7int) ||
            p == (39int, 11int) || p == (39int, 12int) || p == (41int, 2int) ||
            p == (41int, 3int) || p == (41int, 4int) || p == (41int, 7int) ||
            p == (41int, 8int) || p == (41int, 10int) || p == (41int, 11int) ||
            p == (41int, 14int) || p == (41int, 15int) || p == (41int, 16int) ||
            p == (42int, 4int) || p == (42int, 6int) || p == (42int, 8int) ||
            p == (42int, 10int) || p == (42int, 12int) || p == (42int, 14int) ||
            p == (43int, 6int) || p == (43int, 7int) || p == (43int, 11int) ||
            p == (43int, 12int) || p == (45int, 6int) || p == (45int, 7int) ||
            p == (45int, 11int) || p == (45int, 12int) || p == (46int, 4int) ||
            p == (46int, 6int) || p == (46int, 8int) || p == (46int, 10int) ||
            p == (46int, 12int) || p == (46int, 14int) || p == (47int, 2int) ||
            p == (47int, 3int) || p == (47int, 4int) || p == (47int, 7int) ||
            p == (47int, 8int) || p == (47int, 10int) || p == (47int, 11int) ||
            p == (47int, 14int) || p == (47int, 15int) || p == (47int, 16int) ||
            p == (49int, 6int) || p == (49int, 7int) || p == (49int, 11int) ||
            p == (49int, 12int) || p == (50int, 6int) || p == (50int, 12int) ||
            p == (51int, 6int) || p == (51int, 12int)
        ),
{
    let s = pulsar_phase_1();
    assert forall|p: (int, int)| #[trigger] s.contains(p) <==> (
        p == (37int, 6int) || p == (37int, 12int) || p == (38int, 6int) ||
        p == (38int, 12int) || p == (39int, 6int) || p == (39int, 7int) ||
        p == (39int, 11int) || p == (39int, 12int) || p == (41int, 2int) ||
        p == (41int, 3int) || p == (41int, 4int) || p == (41int, 7int) || p == (41int, 8int) ||
        p == (41int, 10int) || p == (41int, 11int) || p == (41int, 14int) ||
        p == (41int, 15int) || p == (41int, 16int) || p == (42int, 4int) ||
        p == (42int, 6int) || p == (42int, 8int) || p == (42int, 10int) ||
        p == (42int, 12int) || p == (42int, 14int) || p == (43int, 6int) ||
        p == (43int, 7int) || p == (43int, 11int) || p == (43int, 12int) ||
        p == (45int, 6int) || p == (45int, 7int) || p == (45int, 11int) ||
        p == (45int, 12int) || p == (46int, 4int) || p == (46int, 6int) ||
        p == (46int, 8int) || p == (46int, 10int) || p == (46int, 12int) ||
        p == (46int, 14int) || p == (47int, 2int) || p == (47int, 3int) ||
        p == (47int, 4int) || p == (47int, 7int) || p == (47int, 8int) ||
        p == (47int, 10int) || p == (47int, 11int) || p == (47int, 14int) ||
        p == (47int, 15int) || p == (47int, 16int) || p == (49int, 6int) ||
        p == (49int, 7int) || p == (49int, 11int) || p == (49int, 12int) ||
        p == (50int, 6int) || p == (50int, 12int) || p == (51int, 6int) || p == (51int, 12int)
    ) by {
        if s.contains(p) {
            let i = choose|i: int| 0 <= i < s.len() && s[i] == p;
            assert(
                i == 0 || i == 1 || i == 2 || i == 3 || i == 4 || i == 5 || i == 6 || i == 7 ||
                i == 8 || i == 9 || i == 10 || i == 11 || i == 12 || i == 13 || i == 14 ||
                i == 15 || i == 16 || i == 17 || i == 18 || i == 19 || i == 20 || i == 21 ||
                i == 22 || i == 23 || i == 24 || i == 25 || i == 26 || i == 27 || i == 28 ||
                i == 29 || i == 30 || i == 31 || i == 32 || i == 33 || i == 34 || i == 35 ||
                i == 36 || i == 37 || i == 38 || i == 39 || i == 40 || i == 41 || i == 42 ||
                i == 43 || i == 44 || i == 45 || i == 46 || i == 47 || i == 48 || i == 49 ||
                i == 50 || i == 51 || i == 52 || i == 53 || i == 54 || i == 55
            );
        }
        assert(s[0] == (37int, 6int));
        assert(s[1] == (37int, 12int));
        assert(s[2] == (38int, 6int));
        assert(s[3] == (38int, 12int));
        assert(s[4] == (39int, 6int));
        assert(s[5] == (39int, 7int));
        assert(s[6] == (39int, 11int));
        assert(s[7] == (39int, 12int));
        assert(s[8] == (41int, 2int));
        assert(s[9] == (41int, 3int));
        assert(s[10] == (41int, 4int));
        assert(s[11] == (41int, 7int));
        assert(s[12] == (41int, 8int));
        assert(s[13] == (41int, 10int));
        assert(s[14] == (41int, 11int));
        assert(s[15] == (41int, 14int));
        assert(s[16] == (41int, 15int));
        assert(s[17] == (41int, 16int));
        assert(s[18] == (42int, 4int));
        assert(s[19] == (42int, 6int));
        assert(s[20] == (42int, 8int));
        assert(s[21] == (42int, 10int));
        assert(s[22] == (42int, 12int));
        assert(s[23] == (42int, 14int));
        assert(s[24] == (43int, 6int));
        assert(s[25] == (43int, 7int));
        assert(s[26] == (43int, 11int));
        assert(s[27] == (43int, 12int));
        assert(s[28] == (45int, 6int));
        assert(s[29] == (45int, 7int));
        assert(s[30] == (45int, 11int));
        assert(s[31] == (45int, 12int));
        assert(s[32] == (46int, 4int));
        assert(s[33] == (46int, 6int));
        assert(s[34] == (46int, 8int));
        assert(s[35] == (46int, 10int));
        assert(s[36] == (46int, 12int));
        assert(s[37] == (46int, 14int));
        assert(s[38] == (47int, 2int));
        assert(s[39] == (47int, 3int));
        assert(s[40] == (47int, 4int));
        assert(s[41] == (47int, 7int));
        assert(s[42] == (47int, 8int));
        assert(s[43] == (47int, 10int));
        assert(s[44] == (47int, 11int));
        assert(s[45] == (47int, 14int));
        assert(s[46] == (47int, 15int));
        assert(s[47] == (47int, 16int));
        assert(s[48] == (49int, 6int));
        assert(s[49] == (49int, 7int));
        assert(s[50] == (49int, 11int));
        assert(s[51] == (49int, 12int));
        assert(s[52] == (50int, 6int));
        assert(s[53] == (50int, 12int));
        assert(s[54] == (51int, 6int));
        assert(s[55] == (51int, 12int));
    }
}

/// What phase 2 of the pattern holds.
proof fn lemma_pulsar_members_2()
    ensures
        forall|p: (int, int)| #[trigger] pulsar_phase_2().contains(p) <==> (
            p == (38int, 5int) || p == (38int, 6int) || p == (38int, 12int) ||
            p == (38int, 13int) || p == (39int, 6int) || p == (39int, 7int) ||
            p == (39int, 11int) || p == (39int, 12int) || p == (40int, 3int) ||
            p == (40int, 6int) || p == (40int, 8int) || p == (40int, 10int) ||
            p == (40int, 12int) || p == (40int, 15int) || p == (41int, 3int) ||
            p == (41int, 4int) || p == (41int, 5int) || p == (41int, 7int) ||
            p == (41int, 8int) || p == (41int, 10int) || p == (41int, 11int) ||
            p == (41int, 13int) || p == (41int, 14int) || p == (41int, 15int) ||
            p == (42int, 4int) || p == (42int, 6int) || p == (42int, 8int) ||
            p == (42int, 10int) || p == (42int, 12int) || p == (42int, 14int) ||
            p == (43int, 5int) || p == (43int, 6int) || p == (43int, 7int) ||
            p == (43int, 11int) || p == (43int, 12int) || p == (43int, 13int) ||
            p == (45int, 5int) || p == (45int, 6int) || p == (45int, 7int) ||
            p == (45int, 11int) || p == (45int, 12int) || p == (45int, 13int) ||
            p == (46int, 4int) || p == (46int, 6int) || p == (46int, 8int) ||
            p == (46int, 10int) || p == (46int, 12int) || p == (46int, 14int) ||
            p == (47int, 3int) || p == (47int, 4int) || p == (47int, 5int) ||
            p == (47int, 7int) || p == (47int, 8int) || p == (47int, 10int) ||
            p == (47int, 11int) || p == (47int, 13int) || p == (47int, 14int) ||
            p == (47int, 15int) || p == (48int, 3int) || p == (48int, 6int) ||
            p == (48int, 8int) || p == (48int, 10int) || p == (48int, 12int) ||
            p == (48int, 15int) || p == (49int, 6int) || p == (49int, 7int) ||
            p == (49int, 11int) || p == (49int, 12int) || p == (50int, 5int) ||
            p == (50int, 6int) || p == (50int, 12int) || p == (50int, 13int)
        ),
{
    let s = pulsar_phase_2();
    assert forall|p: (int, int)| #[trigger] s.contains(p) <==> (
        p == (38int, 5int) || p == (38int, 6int) || p == (38int, 12int) ||
        p == (38int, 13int) || p == (39int, 6int) || p == (39int, 7int) ||
        p == (39int, 11int) || p == (39int, 12int) || p == (40int, 3int) ||
        p == (40int, 6int) || p == (40int, 8int) || p == (40int, 10int) ||
        p == (40int, 12int) || p == (40int, 15int) || p == (41int, 3int) ||
        p == (41int, 4int) || p == (41int, 5int) || p == (41int, 7int) || p == (41int, 8int) ||
        p == (41int, 10int) || p == (41int, 11int) || p == (41int, 13int) ||
        p == (41int, 14int) || p == (41int, 15int) || p == (42int, 4int) ||
        p == (42int, 6int) || p == (42int, 8int) || p == (42int, 10int) ||
        p == (42int, 12int) || p == (42int, 14int) || p == (43int, 5int) ||
        p == (43int, 6int) || p == (43int, 7int) || p == (43int, 11int) ||
        p == (43int, 12int) || p == (43int, 13int) || p == (45int, 5int) ||
        p == (45int, 6int) || p == (45int, 7int) || p == (45int, 11int) ||
        p == (45int, 12int) || p == (45int, 13int) || p == (46int, 4int) ||
        p == (46int, 6int) || p == (46int, 8int) || p == (46int, 10int) ||
        p == (46int, 12int) || p == (46int, 14int) || p == (47int, 3int) ||
        p == (47int, 4int) || p == (47int, 5int) || p == (47int, 7int) || p == (47int, 8int) ||
        p == (47int, 10int) || p == (47int, 11int) || p == (47int, 13int) ||
        p == (47int, 14int) || p == (47int, 15int) || p == (48int, 3int) ||
        p == (48int, 6int) || p == (48int, 8int) || p == (48int, 10int) ||
        p == (48int, 12int) || p == (48int, 15int) || p == (49int, 6int) ||
        p == (49int, 7int) || p == (49int, 11int) || p == (49int, 12int) ||
        p == (50int, 5int) || p == (50int, 6int) || p == (50int, 12int) || p == (50int, 13int)
    ) by {
        if s.contains(p) {
            let i = choose|i: int| 0 <= i < s.len() && s[i] == p;
            assert(
                i == 0 || i == 1 || i == 2 || i == 3 || i == 4 || i == 5 || i == 6 || i == 7 ||
                i == 8 || i == 9 || i == 10 || i == 11 || i == 12 || i == 13 || i == 14 ||
                i == 15 || i == 16 || i == 17 || i == 18 || i == 19 || i == 20 || i == 21 ||
                i == 22 || i == 23 || i == 24 || i == 25 || i == 26 || i == 27 || i == 28 ||
                i == 29 || i == 30 || i == 31 || i == 32 || i == 33 || i == 34 || i == 35 ||
                i == 36 || i == 37 || i == 38 || i == 39 || i == 40 || i == 41 || i == 42 ||
                i == 43 || i == 44 || i == 45 || i == 46 || i == 47 || i == 48 || i == 49 ||
                i == 50 || i == 51 || i == 52 || i == 53 || i == 54 || i == 55 || i == 56 ||
                i == 57 || i == 58 || i == 59 || i == 60 || i == 61 || i == 62 || i == 63 ||
                i == 64 || i == 65 || i == 66 || i == 67 || i == 68 || i == 69 || i == 70 ||
                i == 71
            );
        }
        assert(s[0] == (38int, 5int));
        assert(s[1] == (38int, 6int));
        assert(s[2] == (38int, 12int));
        assert(s[3] == (38int, 13int));
        assert(s[4] == (39int, 6int));
        assert(s[5] == (39int, 7int));
        assert(s[6] == (39int, 11int));
        assert(s[7] == (39int, 12int));
        assert(s[8] == (40int, 3int));
        assert(s[9] == (40int, 6int));
        assert(s[10] == (40int, 8int));
        assert(s[11] == (40int, 10int));
        assert(s[12] == (40int, 12int));
        assert(s[13] == (40int, 15int));
        assert(s[14] == (41int, 3int));
        assert(s[15] == (41int, 4int));
        assert(s[16] == (41int, 5int));
        assert(s[17] == (41int, 7int));
        assert(s[18] == (41int, 8int));
        assert(s[19] == (41int, 10int));
        assert(s[20] == (41int, 11int));
        assert(s[21] == (41int, 13int));
        assert(s[22] == (41int, 14int));
        assert(s[23] == (41int, 15int));
        assert(s[24] == (42int, 4int));
        assert(s[25] == (42int, 6int));
        assert(s[26] == (42int, 8int));
        assert(s[27] == (42int, 10int));
        assert(s[28] == (42int, 12int));
        assert(s[29] == (42int, 14int));
        assert(s[30] == (43int, 5int));
        assert(s[31] == (43int, 6int));
        assert(s[32] == (43int, 7int));
        assert(s[33] == (43int, 11int));
        assert(s[34] == (43int, 12int));
        assert(s[35] == (43int, 13int));
        assert(s[36] == (45int, 5int));
        assert(s[37] == (45int, 6int));
        assert(s[38] == (45int, 7int));
        assert(s[39] == (45int, 11int));
        assert(s[40] == (45int, 12int));
        assert(s[41] == (45int, 13int));
        assert(s[42] == (46int, 4int));
        assert(s[43] == (46int, 6int));
        assert(s[44] == (46int, 8int));
        assert(s[45] == (46int, 10int));
        assert(s[46] == (46int, 12int));
        assert(s[47] == (46int, 14int));
        assert(s[48] == (47int, 3int));
        assert(s[49] == (47int, 4int));
        assert(s[50] == (47int, 5int));
        assert(s[51] == (47int, 7int));
        assert(s[52] == (47int, 8int));
        assert(s[53] == (47int, 10int));
        assert(s[54] == (47int, 11int));
        assert(s[55] == (47int, 13int));
        assert(s[56] == (47int, 14int));
        assert(s[57] == (47int, 15int));
        assert(s[58] == (48int, 3int));
        assert(s[59] == (48int, 6int));
        assert(s[60] == (48int, 8int));
        assert(s[61] == (48int, 10int));
        assert(s[62] == (48int, 12int));
        assert(s[63] == (48int, 15int));
        assert(s[64] == (49int, 6int));
        assert(s[65] == (49int, 7int));
        assert(s[66] == (49int, 11int));
        assert(s[67] == (49int, 12int));
        assert(s[68] == (50int, 5int));
        assert(s[69] == (50int, 6int));
        assert(s[70] == (50int, 12int));
        assert(s[71] == (50int, 13int));
    }
}

/// What phase 3 of the pattern holds.
proof fn lemma_pulsar_members_3()
    ensures
        forall|p: (int, int)| #[trigger] pulsar_phase_3().contains(p) <==> (
            p == (38int, 5int) || p == (38int, 6int) || p == (38int, 7int) ||
            p == (38int, 11int) || p == (38int, 12int) || p == (38int, 13int) ||
            p == (40int, 3int) || p == (40int, 8int) || p == (40int, 10int) ||
            p == (40int, 15int) || p == (41int, 3int) || p == (41int, 8int) ||
            p == (41int, 10int) || p == (41int, 15int) || p == (42int, 3int) ||
            p == (42int, 8int) || p == (42int, 10int) || p == (42int, 15int) ||
            p == (43int, 5int) || p == (43int, 6int) || p == (43int, 7int) ||
            p == (43int, 11int) || p == (43int, 12int) || p == (43int, 13int) ||
            p == (45int, 5int) || p == (45int, 6int) || p == (45int, 7int) ||
            p == (45int, 11int) || p == (45int, 12int) || p == (45int, 13int) ||
            p == (46int, 3int) || p == (46int, 8int) || p == (46int, 10int) ||
            p == (46int, 15int) || p == (47int, 3int) || p == (47int, 8int) ||
            p == (47int, 10int) || p == (47int, 15int) || p == (48int, 3int) ||
            p == (48int, 8int) || p == (48int, 10int) || p == (48int, 15int) ||
            p == (50int, 5int) || p == (50int, 6int) || p == (50int, 7int) ||
            p == (50int, 11int) || p == (50int, 12int) || p == (50int, 13int)
        ),
{
    let s = pulsar_phase_3();
    assert forall|p: (int, int)| #[trigger] s.contains(p) <==> (
        p == (38int, 5int) || p == (38int, 6int) || p == (38int, 7int) ||
        p == (38int, 11int) || p == (38int, 12int) || p == (38int, 13int) ||
        p == (40int, 3int) || p == (40int, 8int) || p == (40int, 10int) ||
        p == (40int, 15int) || p == (41int, 3int) || p == (41int, 8int) ||
        p == (41int, 10int) || p == (41int, 15int) || p == (42int, 3int) ||
        p == (42int, 8int) || p == (42int, 10int) || p == (42int, 15int) ||
        p == (43int, 5int) || p == (43int, 6int) || p == (43int, 7int) ||
        p == (43int, 11int) || p == (43int, 12int) || p == (43int, 13int) ||
        p == (45int, 5int) || p == (45int, 6int) || p == (45int, 7int) ||
        p == (45int, 11int) || p == (45int, 12int) || p == (45int, 13int) ||
        p == (46int, 3int) || p == (46int, 8int) || p == (46int, 10int) ||
        p == (46int, 15int) || p == (47int, 3int) || p == (47int, 8int) ||
        p == (47int, 10int) || p == (47int, 15int) || p == (48int, 3int) ||
        p == (48int, 8int) || p == (48int, 10int) || p == (48int, 15int) ||
        p == (50int, 5int) || p == (50int, 6int) || p == (50int, 7int) ||
        p == (50int, 11int) || p == (50int, 12int) || p == (50int, 13int)
    ) by {
        if s.contains(p) {
            let i = choose|i: int| 0 <= i < s.len() && s[i] == p;
            assert(
                i == 0 || i == 1 || i == 2 || i == 3 || i == 4 || i == 5 || i == 6 || i == 7 ||
                i == 8 || i == 9 || i == 10 || i == 11 || i == 12 || i == 13 || i == 14 ||
                i == 15 || i == 16 || i == 17 || i == 18 || i == 19 || i == 20 || i == 21 ||
                i == 22 || i == 23 || i == 24 || i == 25 || i == 26 || i == 27 || i == 28 ||
                i == 29 || i == 30 || i == 31 || i == 32 || i == 33 || i == 34 || i == 35 ||
                i == 36 || i == 37 || i == 38 || i == 39 || i == 40 || i == 41 || i == 42 ||
                i == 43 || i == 44 || i == 45 || i == 46 || i == 47
            );
        }
        assert(s[0] == (38int, 5int));
        assert(s[1] == (38int, 6int));
        assert(s[2] == (38int, 7int));
        assert(s[3] == (38int, 11int));
        assert(s[4] == (38int, 12int));
        assert(s[5] == (38int, 13int));
        assert(s[6] == (40int, 3int));
        assert(s[7] == (40int, 8int));
        assert(s[8] == (40int, 10int));
        assert(s[9] == (40int, 15int));
        assert(s[10] == (41int, 3int));
        assert(s[11] == (41int, 8int));
        assert(s[12] == (41int, 10int));
        assert(s[13] == (41int, 15int));
        assert(s[14] == (42int, 3int));
        assert(s[15] == (42int, 8int));
        assert(s[16] == (42int, 10int));
        assert(s[17] == (42int, 15int));
        assert(s[18] == (43int, 5int));
        assert(s[19] == (43int, 6int));
        assert(s[20] == (43int, 7int));
        assert(s[21] == (43int, 11int));
        assert(s[22] == (43int, 12int));
        assert(s[23] == (43int, 13int));
        assert(s[24] == (45int, 5int));
        assert(s[25] == (45int, 6int));
        assert(s[26] == (45int, 7int));
        assert(s[27] == (45int, 11int));
        assert(s[28] == (45int, 12int));
        assert(s[29] == (45int, 13int));
        assert(s[30] == (46int, 3int));
        assert(s[31] == (46int, 8int));
        assert(s[32] == (46int, 10int));
        assert(s[33] == (46int, 15int));
        assert(s[34] == (47int, 3int));
        assert(s[35] == (47int, 8int));
        assert(s[36] == (47int, 10int));
        assert(s[37] == (47int, 15int));
        assert(s[38] == (48int, 3int));
        assert(s[39] == (48int, 8int));
        assert(s[40] == (48int, 10int));
        assert(s[41] == (48int, 15int));
        assert(s[42] == (50int, 5int));
        assert(s[43] == (50int, 6int));
        assert(s[44] == (50int, 7int));
        assert(s[45] == (50int, 11int));
        assert(s[46] == (50int, 12int));
        assert(s[47] == (50int, 13int));
    }
}

/// What the pattern holds once it has come round.
proof fn lemma_pulsar_members_final()
    ensures
        forall|p: (int, int)| #[trigger] pulsar_shape().contains(p) <==> (
            p == (40int, 3int) || p == (41int, 3int) || p == (42int, 3int) ||
            p == (46int, 3int) || p == (47int, 3int) || p == (48int, 3int) ||
            p == (38int, 5int) || p == (43int, 5int) || p == (45int, 5int) ||
            p == (50int, 5int) || p == (38int, 6int) || p == (43int, 6int) ||
            p == (45int, 6int) || p == (50int, 6int) || p == (38int, 7int) ||
            p == (43int, 7int) || p == (45int, 7int) || p == (50int, 7int) ||
            p == (40int, 8int) || p == (41int, 8int) || p == (42int, 8int) ||
            p == (46int, 8int) || p == (47int, 8int) || p == (48int, 8int) ||
            p == (40int, 10int) || p == (41int, 10int) || p == (42int, 10int) ||
            p == (46int, 10int) || p == (47int, 10int) || p == (48int, 10int) ||
            p == (38int, 11int) || p == (43int, 11int) || p == (45int, 11int) ||
            p == (50int, 11int) || p == (38int, 12int) || p == (43int, 12int) ||
            p == (45int, 12int) || p == (50int, 12int) || p == (38int, 13int) ||
            p == (43int, 13int) || p == (45int, 13int) || p == (50int, 13int) ||
            p == (40int, 15int) || p == (41int, 15int) || p == (42int, 15int) ||
            p == (46int, 15int) || p == (47int, 15int) || p == (48int, 15int)
        ),
{
    let s = pulsar_shape();
    assert forall|p: (int, int)| #[trigger] s.contains(p) <==> (
        p == (40int, 3int) || p == (41int, 3int) || p == (42int, 3int) || p == (46int, 3int) ||
        p == (47int, 3int) || p == (48int, 3int) || p == (38int, 5int) || p == (43int, 5int) ||
        p == (45int, 5int) || p == (50int, 5int) || p == (38int, 6int) || p == (43int, 6int) ||
        p == (45int, 6int) || p == (50int, 6int) || p == (38int, 7int) || p == (43int, 7int) ||
        p == (45int, 7int) || p == (50int, 7int) || p == (40int, 8int) || p == (41int, 8int) ||
        p == (42int, 8int) || p == (46int, 8int) || p == (47int, 8int) || p == (48int, 8int) ||
        p == (40int, 10int) || p == (41int, 10int) || p == (42int, 10int) ||
        p == (46int, 10int) || p == (47int, 10int) || p == (48int, 10int) ||
        p == (38int, 11int) || p == (43int, 11int) || p == (45int, 11int) ||
        p == (50int, 11int) || p == (38int, 12int) || p == (43int, 12int) ||
        p == (45int, 12int) || p == (50int, 12int) || p == (38int, 13int) ||
        p == (43int, 13int) || p == (45int, 13int) || p == (50int, 13int) ||
        p == (40int, 15int) || p == (41int, 15int) || p == (42int, 15int) ||
        p == (46int, 15int) || p == (47int, 15int) || p == (48int, 15int)
    ) by {
        if s.contains(p) {
            let i = choose|i: int| 0 <= i < s.len() && s[i] == p;
            assert(
                i == 0 || i == 1 || i == 2 || i == 3 || i == 4 || i == 5 || i == 6 || i == 7 ||
                i == 8 || i == 9 || i == 10 || i == 11 || i == 12 || i == 13 || i == 14 ||
                i == 15 || i == 16 || i == 17 || i == 18 || i == 19 || i == 20 || i == 21 ||
                i == 22 || i == 23 || i == 24 || i == 25 || i == 26 || i == 27 || i == 28 ||
                i == 29 || i == 30 || i == 31 || i == 32 || i == 33 || i == 34 || i == 35 ||
                i == 36 || i == 37 || i == 38 || i == 39 || i == 40 || i == 41 || i == 42 ||
                i == 43 || i == 44 || i == 45 || i == 46 || i == 47
            );
        }
        assert(s[0] == (40int, 3int));
        assert(s[1] == (41int, 3int));
        assert(s[2] == (42int, 3int));
        assert(s[3] == (46int, 3int));
        assert(s[4] == (47int, 3int));
        assert(s[5] == (48int, 3int));
        assert(s[6] == (38int, 5int));
        assert(s[7] == (43int, 5int));
        assert(s[8] == (45int, 5int));
        assert(s[9] == (50int, 5int));
        assert(s[10] == (38int, 6int));
        assert(s[11] == (43int, 6int));
        assert(s[12] == (45int, 6int));
        assert(s[13] == (50int, 6int));
        assert(s[14] == (38int, 7int));
        assert(s[15] == (43int, 7int));
        assert(s[16] == (45int, 7int));
        assert(s[17] == (50int, 7int));
        assert(s[18] == (40int, 8int));
        assert(s[19] == (41int, 8int));
        assert(s[20] == (42int, 8int));
        assert(s[21] == (46int, 8int));
        assert(s[22] == (47int, 8int));
        assert(s[23] == (48int, 8int));
        assert(s[24] == (40int, 10int));
        assert(s[25] == (41int, 10int));
        assert(s[26] == (42int, 10int));
        assert(s[27] == (46int, 10int));
        assert(s[28] == (47int, 10int));
        assert(s[29] == (48int, 10int));
        assert(s[30] == (38int, 11int));
        assert(s[31] == (43int, 11int));
        assert(s[32] == (45int, 11int));
        assert(s[33] == (50int, 11int));
        assert(s[34] == (38int, 12int));
        assert(s[35] == (43int, 12int));
        assert(s[36] == (45int, 12int));
        assert(s[37] == (50int, 12int));
        assert(s[38] == (38int, 13int));
        assert(s[39] == (43int, 13int));
        assert(s[40] == (45int, 13int));
        assert(s[41] == (50int, 13int));
        assert(s[42] == (40int, 15int));
        assert(s[43] == (41int, 15int));
        assert(s[44] == (42int, 15int));
        assert(s[45] == (46int, 15int));
        assert(s[46] == (47int, 15int));
        assert(s[47] == (48int, 15int));
    }
}

/// One generation takes phase 0 of the pulsar to phase 1.
proof fn lemma_pulsar_step_0(w: int, h: int)
    requires
        w >= 53,
        h >= 18,
    ensures
        next_generation(pattern(pulsar_shape(), w, h)) == pattern(pulsar_phase_1(), w, h),
{
    lemma_pulsar_members_0();
    lemma_pulsar_members_1();
    let g = pattern(pulsar_shape(), w, h);
    assert forall|x: int, y: int| 0 <= x < w && 0 <= y < h implies #[trigger] next_cell(g, x, y)
        == pulsar_phase_1().contains((x, y)) by {}
    lemma_step_from_cells(pulsar_shape(), pulsar_phase_1(), w, h);
}

/// One generation takes phase 1 of the pulsar to phase 2.
proof fn lemma_pulsar_step_1(w: int, h: int)
    requires
        w >= 53,
        h >= 18,
    ensures
        next_generation(pattern(pulsar_phase_1(), w, h)) == pattern(pulsar_phase_2(), w, h),
{
    lemma_pulsar_members_1();
    lemma_pulsar_members_2();
    let g = pattern(pulsar_phase_1(), w, h);
    assert forall|x: int, y: int| 0 <= x < w && 0 <= y < h implies #[trigger] next_cell(g, x, y)
        == pulsar_phase_2().contains((x, y)) by {}
    lemma_step_from_cells(pulsar_phase_1(), pulsar_phase_2(), w, h);
}

/// One generation takes phase 2 of the pulsar to phase 3.
proof fn lemma_pulsar_step_2(w: int, h: int)
    requires
        w >= 53,
        h >= 18,
    ensures
        next_generation(pattern(pulsar_phase_2(), w, h)) == pattern(pulsar_phase_3(), w, h),
{
    lemma_pulsar_members_2();
    lemma_pulsar_members_3();
    let g = pattern(pulsar_phase_2(), w, h);
    assert forall|x: int, y: int| 0 <= x < w && 0 <= y < h implies #[trigger] next_cell(g, x, y)
        == pulsar_phase_3().contains((x, y)) by {}
    lemma_step_from_cells(pulsar_phase_2(), pulsar_phase_3(), w, h);
}

/// A pulsar has period three: on a board of at least 53 columns and 18 rows,
/// three generations after it was placed the board is as it was.
pub proof fn lemma_pulsar_period_three(w: int, h: int)
    requires
        w >= 53,
        h >= 18,
    ensures
        after_generations(pattern(pulsar_shape(), w, h), 3) == pattern(pulsar_shape(), w, h),
{
    reveal_with_fuel(after_generations, 4);
    lemma_pulsar_step_0(w, h);
    lemma_pulsar_step_1(w, h);
    lemma_pulsar_step_2(w, h);
    lemma_pulsar_members_3();
    lemma_pulsar_members_final();
    lemma_same_points(pulsar_phase_3(), pulsar_shape(), w, h);
}

} // verus!
