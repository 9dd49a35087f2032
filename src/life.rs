use vstd::prelude::*;

use crate::pixel::{Pixel, PixelView};

verus! {

/// Why an operation on a [`Life`] board was refused.
#[derive(Debug, PartialEq, Eq)]
pub enum LifeError {
    /// The requested area cannot be cut into whole cells of the requested
    /// scale; the message says so in words.
    ConfigurationError(String),
    /// A coordinate lies outside the board.
    OutOfBounds,
    /// No preset pattern has the requested name.
    UnknownPreset,
}

/// The text carried by the error of a refused construction.
pub open spec fn scale_message() -> Seq<char> {
    "scale is not compatible with window width or window height"@
}

// ---------------------------------------------------------------------------
// The mathematical model: a board is a sequence of rows of alive flags.
// ---------------------------------------------------------------------------

/// Whether a board of pixels is a proper rectangle: at least one row, at
/// least one column, every row equally long, and every pixel knowing its own
/// column and row.
pub open spec fn well_formed(board: Seq<Vec<Pixel>>) -> bool {
    &&& board.len() > 0
    &&& board[0]@.len() > 0
    &&& forall|y: int| 0 <= y < board.len() ==> (#[trigger] board[y])@.len() == board[0]@.len()
    &&& forall|y: int, x: int|
        0 <= y < board.len() && 0 <= x < board[y]@.len() ==> (#[trigger] board[y]@[x])@.x == x
            && board[y]@[x]@.y == y
}

/// The alive flags of a board of pixels, row by row.
pub open spec fn alive_grid(board: Seq<Vec<Pixel>>) -> Seq<Seq<bool>> {
    Seq::new(board.len(), |y: int| Seq::new(board[y]@.len(), |x: int| board[y]@[x]@.on))
}

/// A board of `h` rows of `w` dead cells.
pub open spec fn blank(w: int, h: int) -> Seq<Seq<bool>> {
    Seq::new(h as nat, |y: int| Seq::new(w as nat, |x: int| false))
}

/// The same board with every cell dead.
pub open spec fn cleared(g: Seq<Seq<bool>>) -> Seq<Seq<bool>> {
    Seq::new(g.len(), |y: int| Seq::new(g[y].len(), |x: int| false))
}

/// The same board with the cell at column `x`, row `y` alive.
pub open spec fn with_cell_on(g: Seq<Seq<bool>>, x: int, y: int) -> Seq<Seq<bool>> {
    g.update(y, g[y].update(x, true))
}


/// The index before `i` on a ring of `n` places: the last one comes before
/// the first.
pub open spec fn before(i: int, n: int) -> int {
    if i == 0 {
        n - 1
    } else {
        i - 1
    }
}

/// The index after `i` on a ring of `n` places: the first one comes after
/// the last.
pub open spec fn after(i: int, n: int) -> int {
    if i + 1 >= n {
        0
    } else {
        i + 1
    }
}

/// One if the cell at column `x`, row `y` is alive, else zero.
pub open spec fn alive_count(g: Seq<Seq<bool>>, x: int, y: int) -> int {
    if g[y][x] {
        1
    } else {
        0
    }
}

/// How many of the eight cells around column `x`, row `y` are alive, the
/// board wrapping around at both edges on both axes.
pub open spec fn live_neighbors(g: Seq<Seq<bool>>, x: int, y: int) -> int {
    let l = before(x, g[y].len() as int);
    let r = after(x, g[y].len() as int);
    let t = before(y, g.len() as int);
    let b = after(y, g.len() as int);
    alive_count(g, l, t) + alive_count(g, x, t) + alive_count(g, r, t) + alive_count(g, l, y)
        + alive_count(g, r, y) + alive_count(g, l, b) + alive_count(g, x, b) + alive_count(g, r, b)
}

/// The rule of Life: a live cell stays alive with two or three live
/// neighbours, a dead one comes alive with exactly three.
pub open spec fn survives(alive: bool, neighbors: int) -> bool {
    if alive {
        neighbors == 2 || neighbors == 3
    } else {
        neighbors == 3
    }
}

/// Whether the cell at column `x`, row `y` is alive in the next generation.
pub open spec fn next_cell(g: Seq<Seq<bool>>, x: int, y: int) -> bool {
    survives(g[y][x], live_neighbors(g, x, y))
}

/// The next generation of the whole board, every cell computed from the
/// current one at once.
pub open spec fn next_generation(g: Seq<Seq<bool>>) -> Seq<Seq<bool>> {
    Seq::new(g.len(), |y: int| Seq::new(g[y].len(), |x: int| next_cell(g, x, y)))
}

/// The board after `n` generations.
pub open spec fn after_generations(g: Seq<Seq<bool>>, n: nat) -> Seq<Seq<bool>>
    decreases n,
{
    if n == 0 {
        g
    } else {
        next_generation(after_generations(g, (n - 1) as nat))
    }
}

/// The cells, as (column, row), of a glider in the top left corner.
pub open spec fn glider_shape() -> Seq<(int, int)> {
    seq![(0, 1), (2, 1), (2, 0), (2, 2), (1, 2)]
}

/// The cells, as (column, row), of a pulsar, a pattern of period three.
pub open spec fn pulsar_shape() -> Seq<(int, int)> {
    seq![
        (40, 3), (41, 3), (42, 3), (46, 3), (47, 3), (48, 3), (38, 5), (43, 5), (45, 5),
        (50, 5), (38, 6), (43, 6), (45, 6), (50, 6), (38, 7), (43, 7), (45, 7), (50, 7),
        (40, 8), (41, 8), (42, 8), (46, 8), (47, 8), (48, 8), (40, 10), (41, 10), (42, 10),
        (46, 10), (47, 10), (48, 10), (38, 11), (43, 11), (45, 11), (50, 11), (38, 12),
        (43, 12), (45, 12), (50, 12), (38, 13), (43, 13), (45, 13), (50, 13), (40, 15),
        (41, 15), (42, 15), (46, 15), (47, 15), (48, 15),
    ]
}

/// The preset pattern that goes by `name`, if any.
pub open spec fn preset_shape(name: Seq<char>) -> Option<Seq<(int, int)>> {
    if name == "glider"@ {
        Some(glider_shape())
    } else if name == "pulsar"@ {
        Some(pulsar_shape())
    } else {
        None
    }
}

/// The points of `shape` moved `dx` columns right and `dy` rows down.
pub open spec fn shifted(shape: Seq<(int, int)>, dx: int, dy: int) -> Seq<(int, int)> {
    shape.map_values(|p: (int, int)| (p.0 + dx, p.1 + dy))
}

/// Points with machine coordinates, as mathematical ones.
pub open spec fn points(t: Seq<(usize, usize)>) -> Seq<(int, int)> {
    t.map_values(|p: (usize, usize)| (p.0 as int, p.1 as int))
}

/// Every point of `shape` lies on a board of `w` columns and `h` rows.
pub open spec fn fits(shape: Seq<(int, int)>, w: int, h: int) -> bool {
    forall|i: int| 0 <= i < shape.len() ==> 0 <= (#[trigger] shape[i]).0 < w && 0 <= shape[i].1 < h
}

/// A board of `w` columns and `h` rows on which exactly the points of
/// `shape` are alive.
pub open spec fn pattern(shape: Seq<(int, int)>, w: int, h: int) -> Seq<Seq<bool>> {
    Seq::new(h as nat, |y: int| Seq::new(w as nat, |x: int| shape.contains((x, y))))
}

/// How many of the first `n` cells listed in `at`, as (column, row), are
/// alive on `g`.
pub open spec fn alive_among(g: Seq<Seq<bool>>, at: Seq<(usize, usize)>, n: int) -> int
    decreases n,
{
    if n <= 0 {
        0
    } else {
        alive_among(g, at, n - 1) + alive_count(g, at[n - 1].0 as int, at[n - 1].1 as int)
    }
}

/// The table of the glider's cells.
fn glider_cells() -> (r: Vec<(usize, usize)>)
    ensures
        points(r@) == glider_shape(),
{
    let r = vec![(0, 1), (2, 1), (2, 0), (2, 2), (1, 2)];
    assert(points(r@) =~= glider_shape());
    r
}

/// The table of the pulsar's cells.
fn pulsar_cells() -> (r: Vec<(usize, usize)>)
    ensures
        points(r@) == pulsar_shape(),
{
    let r = vec![
        (40, 3), (41, 3), (42, 3), (46, 3), (47, 3), (48, 3), (38, 5), (43, 5), (45, 5),
        (50, 5), (38, 6), (43, 6), (45, 6), (50, 6), (38, 7), (43, 7), (45, 7), (50, 7),
        (40, 8), (41, 8), (42, 8), (46, 8), (47, 8), (48, 8), (40, 10), (41, 10), (42, 10),
        (46, 10), (47, 10), (48, 10), (38, 11), (43, 11), (45, 11), (50, 11), (38, 12),
        (43, 12), (45, 12), (50, 12), (38, 13), (43, 13), (45, 13), (50, 13), (40, 15),
        (41, 15), (42, 15), (46, 15), (47, 15), (48, 15),
    ];
    assert(points(r@) =~= pulsar_shape());
    r
}

/// A Game of Life board together with the size, in screen units, that one
/// cell is drawn at.
#[derive(Debug)]
pub struct Life {
    pub board: Vec<Vec<Pixel>>,
    pub scale: usize,
}

impl Life {
    /// The board is a proper rectangle whose pixels know their places.
    pub open spec fn wf(&self) -> bool {
        well_formed(self.board@)
    }

    /// Number of cells in a row.
    pub open spec fn width(&self) -> int {
        self.board@[0]@.len() as int
    }

    /// Number of rows.
    pub open spec fn height(&self) -> int {
        self.board@.len() as int
    }

    /// The alive flags of the board.
    pub open spec fn cells(&self) -> Seq<Seq<bool>> {
        alive_grid(self.board@)
    }

    /// Cuts an area of `window_width` by `window_height` units into square
    /// cells of `scale` units, all dead. Fails when `scale` does not divide
    /// both sides.
    pub fn build(window_width: usize, window_height: usize, scale: usize)
        -> (r: Result<Life, LifeError>)
        requires
            window_width > 0,
            window_height > 0,
            scale > 0,
        ensures
            window_width % scale != 0 || window_height % scale != 0 <==> r is Err,
            r matches Err(e) ==> e matches LifeError::ConfigurationError(m)
                && m@ == scale_message(),
            r matches Ok(life) ==> {
                &&& life.wf()
                &&& life.width() == window_width / scale
                &&& life.height() == window_height / scale
                &&& life.scale == scale
                &&& life.cells() == blank(life.width(), life.height())
                &&& forall|y: int, x: int|
                    0 <= y < life.height() && 0 <= x < life.width()
                        ==> !(#[trigger] life.board@[y]@[x])@.next
            },
    {
        if window_width % scale != 0 || window_height % scale != 0 {
            let m = "scale is not compatible with window width or window height".to_owned();
            proof {
                reveal_strlit("scale is not compatible with window width or window height");
            }
            return Err(LifeError::ConfigurationError(m));
        }
        let x_squares_per_row = window_width / scale;
        let y_squares_per_row = window_height / scale;
        proof {
            vstd::arithmetic::div_mod::lemma_fundamental_div_mod(window_width as int, scale as int);
            vstd::arithmetic::div_mod::lemma_fundamental_div_mod(window_height as int, scale as int);
            assert(x_squares_per_row > 0) by (nonlinear_arith)
                requires
                    window_width == scale * x_squares_per_row + 0,
                    window_width > 0,
                    scale > 0,
            ;
            assert(y_squares_per_row > 0) by (nonlinear_arith)
                requires
                    window_height == scale * y_squares_per_row + 0,
                    window_height > 0,
                    scale > 0,
            ;
        }
        let mut board: Vec<Vec<Pixel>> = Vec::new();
        let mut y: usize = 0;
        while y < y_squares_per_row
            invariant
                y <= y_squares_per_row,
                board@.len() == y,
                forall|j: int| 0 <= j < y ==> (#[trigger] board@[j])@.len() == x_squares_per_row,
                forall|j: int, i: int|
                    0 <= j < y && 0 <= i < x_squares_per_row ==> (#[trigger] board@[j]@[i])@
                        == (PixelView { x: i as usize, y: j as usize, on: false, next: false }),
            decreases y_squares_per_row - y,
        {
            let mut row: Vec<Pixel> = Vec::new();
            let mut x: usize = 0;
            while x < x_squares_per_row
                invariant
                    x <= x_squares_per_row,
                    row@.len() == x,
                    forall|i: int|
                        0 <= i < x ==> (#[trigger] row@[i])@ == (PixelView {
                            x: i as usize,
                            y,
                            on: false,
                            next: false,
                        }),
                decreases x_squares_per_row - x,
            {
                let pixel = Pixel::new(x, y, false);
                row.push(pixel);
                x = x + 1;
            }
            board.push(row);
            y = y + 1;
        }
        let life = Life { board, scale };
        assert(life.cells() =~~= blank(life.width(), life.height()));
        Ok(life)
    }

    /// Makes every cell dead.
    pub fn clear_board(&mut self)
        requires
            old(self).wf(),
        ensures
            final(self).wf(),
            final(self).scale == old(self).scale,
            final(self).width() == old(self).width(),
            final(self).height() == old(self).height(),
            final(self).cells() == cleared(old(self).cells()),
    {
        let ghost start = self.board@;
        let height = self.board.len();
        let mut y: usize = 0;
        while y < height
            invariant
                y <= height,
                height == start.len(),
                well_formed(start),
                self.scale == old(self).scale,
                self.board@.len() == height,
                forall|j: int| 0 <= j < height ==> (#[trigger] self.board@[j])@.len()
                    == start[j]@.len(),
                forall|j: int, i: int|
                    0 <= j < height && 0 <= i < start[j]@.len() ==> (#[trigger] self.board@[j]@[i])@
                        == (if j < y {
                        PixelView { on: false, ..start[j]@[i]@ }
                    } else {
                        start[j]@[i]@
                    }),
            decreases height - y,
        {
            let width = self.board[y].len();
            let mut x: usize = 0;
            while x < width
                invariant
                    x <= width,
                    y < height,
                    height == start.len(),
                    width == start[y as int]@.len(),
                    self.scale == old(self).scale,
                    self.board@.len() == height,
                    forall|j: int| 0 <= j < height ==> (#[trigger] self.board@[j])@.len()
                        == start[j]@.len(),
                    forall|j: int, i: int|
                        0 <= j < height && 0 <= i < start[j]@.len()
                            ==> (#[trigger] self.board@[j]@[i])@
                            == (if j < y || (j == y && i < x) {
                            PixelView { on: false, ..start[j]@[i]@ }
                        } else {
                            start[j]@[i]@
                        }),
                decreases width - x,
            {
                self.board[y][x].turn_off();
                x = x + 1;
            }
            y = y + 1;
        }
        assert(self.cells() =~~= cleared(alive_grid(start)));
    }

    /// Makes the cell at column `x`, row `y` alive; fails when that cell is
    /// not on the board, which is then left as it was.
    pub fn toggle_on(&mut self, x: usize, y: usize) -> (r: Result<(), LifeError>)
        requires
            old(self).wf(),
        ensures
            final(self).wf(),
            final(self).scale == old(self).scale,
            final(self).width() == old(self).width(),
            final(self).height() == old(self).height(),
            x < old(self).width() && y < old(self).height() <==> r is Ok,
            r is Ok ==> final(self).cells() == with_cell_on(old(self).cells(), x as int, y as int),
            r matches Err(e) ==> e == LifeError::OutOfBounds
                && final(self).board@ == old(self).board@,
    {
        if y < self.board.len() && x < self.board[0].len() {
            let ghost start = self.board@;
            self.board[y][x].turn_on();
            assert(self.cells() =~~= with_cell_on(alive_grid(start), x as int, y as int));
            Ok(())
        } else {
            Err(LifeError::OutOfBounds)
        }
    }

    /// Clears the board and brings to life exactly the cells listed in
    /// `cells`; fails, leaving the board as it was, when one of them is not
    /// on the board.
    fn load_pattern(&mut self, cells: &Vec<(usize, usize)>) -> (r: Result<(), LifeError>)
        requires
            old(self).wf(),
        ensures
            final(self).wf(),
            final(self).scale == old(self).scale,
            final(self).width() == old(self).width(),
            final(self).height() == old(self).height(),
            fits(points(cells@), old(self).width(), old(self).height()) <==> r is Ok,
            r is Ok ==> final(self).cells()
                == pattern(points(cells@), old(self).width(), old(self).height()),
            r matches Err(e) ==> e == LifeError::OutOfBounds
                && final(self).board@ == old(self).board@,
    {
        let width = self.board[0].len();
        let height = self.board.len();
        let ghost shape = points(cells@);
        let mut i: usize = 0;
        while i < cells.len()
            invariant
                i <= cells@.len(),
                shape == points(cells@),
                width == old(self).width(),
                height == old(self).height(),
                *self == *old(self),
                self.wf(),
                forall|k: int| 0 <= k < i ==> 0 <= (#[trigger] shape[k]).0 < width
                    && 0 <= shape[k].1 < height,
            decreases cells@.len() - i,
        {
            let (x, y) = cells[i];
            if x >= width || y >= height {
                assert(!(0 <= shape[i as int].0 < width && 0 <= shape[i as int].1 < height));
                return Err(LifeError::OutOfBounds);
            }
            i = i + 1;
        }
        self.clear_board();
        assert(self.cells() =~~= pattern(shape.take(0), width as int, height as int));
        let mut i: usize = 0;
        while i < cells.len()
            invariant
                i <= cells@.len(),
                shape == points(cells@),
                fits(shape, width as int, height as int),
                self.wf(),
                self.scale == old(self).scale,
                width == self.width(),
                height == self.height(),
                self.cells() == pattern(shape.take(i as int), width as int, height as int),
            decreases cells@.len() - i,
        {
            let (x, y) = cells[i];
            let _ = self.toggle_on(x, y);
            proof {
                let next = shape.take(i + 1);
                assert(next =~= shape.take(i as int).push((x as int, y as int)));
                assert forall|a: int, b: int| 0 <= a < width && 0 <= b < height implies
                    #[trigger] next.contains((a, b)) == (shape.take(i as int).contains((a, b))
                        || (a, b) == (x as int, y as int)) by {
                    if (a, b) == (x as int, y as int) {
                        assert(next[i as int] == (a, b));
                    }
                    if shape.take(i as int).contains((a, b)) {
                        let k = choose|k: int| 0 <= k < i && shape.take(i as int)[k] == (a, b);
                        assert(next[k] == (a, b));
                    }
                }
                assert(self.cells() =~~= pattern(next, width as int, height as int));
            }
            i = i + 1;
        }
        assert(shape.take(cells@.len() as int) =~= shape);
        Ok(())
    }

    /// Clears the board and places a glider in its top left corner; fails,
    /// leaving the board as it was, when the board is too small for it.
    pub fn glider(&mut self) -> (r: Result<(), LifeError>)
        requires
            old(self).wf(),
        ensures
            final(self).wf(),
            final(self).scale == old(self).scale,
            fits(glider_shape(), old(self).width(), old(self).height()) <==> r is Ok,
            r is Ok ==> final(self).cells()
                == pattern(glider_shape(), old(self).width(), old(self).height()),
            r matches Err(e) ==> e == LifeError::OutOfBounds
                && final(self).board@ == old(self).board@,
    {
        let cells = glider_cells();
        self.load_pattern(&cells)
    }

    /// Clears the board and places a pulsar on it; fails, leaving the board
    /// as it was, when the board is too small for it.
    pub fn pulsar(&mut self) -> (r: Result<(), LifeError>)
        requires
            old(self).wf(),
        ensures
            final(self).wf(),
            final(self).scale == old(self).scale,
            fits(pulsar_shape(), old(self).width(), old(self).height()) <==> r is Ok,
            r is Ok ==> final(self).cells()
                == pattern(pulsar_shape(), old(self).width(), old(self).height()),
            r matches Err(e) ==> e == LifeError::OutOfBounds
                && final(self).board@ == old(self).board@,
    {
        let cells = pulsar_cells();
        self.load_pattern(&cells)
    }

    /// Loads the preset pattern called `name` ("glider" or "pulsar"); fails
    /// with `UnknownPreset` on any other name and with `OutOfBounds` when the
    /// pattern does not fit, leaving the board as it was either way.
    pub fn load_preset(&mut self, name: &str) -> (r: Result<(), LifeError>)
        requires
            old(self).wf(),
        ensures
            final(self).wf(),
            final(self).scale == old(self).scale,
            preset_shape(name@) is None ==> r == Err::<(), LifeError>(LifeError::UnknownPreset),
            preset_shape(name@) matches Some(shape) ==> {
                &&& fits(shape, old(self).width(), old(self).height()) <==> r is Ok
                &&& r is Ok ==> final(self).cells()
                    == pattern(shape, old(self).width(), old(self).height())
                &&& r matches Err(e) ==> e == LifeError::OutOfBounds
            },
            r is Err ==> final(self).board@ == old(self).board@,
    {
        proof {
            reveal_strlit("glider");
            reveal_strlit("pulsar");
        }
        let requested = name.to_owned();
        if requested == "glider".to_owned() {
            self.glider()
        } else if requested == "pulsar".to_owned() {
            self.pulsar()
        } else {
            Err(LifeError::UnknownPreset)
        }
    }

    /// The board itself, for a renderer to read.
    pub fn get_board(&mut self) -> (r: &mut Vec<Vec<Pixel>>)
        ensures
            *r == old(self).board,
            final(self).board == *final(r),
            final(self).scale == old(self).scale,
    {
        &mut self.board
    }

    /// Writes into `pixel`'s scratch flag whether it is alive in the next
    /// generation, counting its live neighbours on `cloned_board`.
    fn determine_next_generation(cloned_board: &Vec<Vec<Pixel>>, pixel: &mut Pixel)
        requires
            well_formed(cloned_board@),
            old(pixel)@.x < cloned_board@[0]@.len(),
            old(pixel)@.y < cloned_board@.len(),
        ensures
            final(pixel)@ == (PixelView {
                next: survives(
                    old(pixel)@.on,
                    live_neighbors(alive_grid(cloned_board@), old(pixel)@.x as int,
                        old(pixel)@.y as int),
                ),
                ..old(pixel)@
            }),
    {
        let height = cloned_board.len();
        let width = cloned_board[0].len();
        let (x, y) = pixel.get_coords();

        let left_neighbor_x = if x == 0 { width - 1 } else { x - 1 };
        let right_neighbor_x = if x + 1 >= width { 0 } else { x + 1 };
        let top_neighbor_y = if y == 0 { height - 1 } else { y - 1 };
        let bottom_neighbor_y = if y + 1 >= height { 0 } else { y + 1 };

        let neighbors = [
            (left_neighbor_x, top_neighbor_y),
            (x, top_neighbor_y),
            (right_neighbor_x, top_neighbor_y),
            (left_neighbor_x, y),
            (right_neighbor_x, y),
            (left_neighbor_x, bottom_neighbor_y),
            (x, bottom_neighbor_y),
            (right_neighbor_x, bottom_neighbor_y),
        ];
        let ghost g = alive_grid(cloned_board@);
        let mut alive_neighbors: usize = 0;
        let mut i: usize = 0;
        while i < 8
            invariant
                i <= 8,
                alive_neighbors <= i,
                well_formed(cloned_board@),
                neighbors@ == seq![
                    (left_neighbor_x, top_neighbor_y),
                    (x, top_neighbor_y),
                    (right_neighbor_x, top_neighbor_y),
                    (left_neighbor_x, y),
                    (right_neighbor_x, y),
                    (left_neighbor_x, bottom_neighbor_y),
                    (x, bottom_neighbor_y),
                    (right_neighbor_x, bottom_neighbor_y),
                ],
                forall|k: int| 0 <= k < 8 ==> (#[trigger] neighbors@[k]).0 < width
                    && neighbors@[k].1 < height,
                height == cloned_board@.len(),
                width == cloned_board@[0]@.len(),
                g == alive_grid(cloned_board@),
                alive_neighbors == alive_among(g, neighbors@, i as int),
            decreases 8 - i,
        {
            let (nx, ny) = neighbors[i];
            if cloned_board[ny][nx].is_on() {
                alive_neighbors = alive_neighbors + 1;
            }
            i = i + 1;
        }
        assert(alive_among(g, neighbors@, 8) == live_neighbors(g, x as int, y as int)) by {
            reveal_with_fuel(alive_among, 9);
        }
        if pixel.is_on() {
            if alive_neighbors < 2 || alive_neighbors > 3 {
                pixel.kill();
            } else {
                pixel.survive();
            }
        } else {
            if alive_neighbors == 3 {
                pixel.survive();
            } else {
                pixel.kill();
            }
        }
    }

    /// Advances the board by one generation: first every cell's scratch flag
    /// is computed from the current alive flags, which stay untouched while
    /// that happens; then every cell takes its scratch flag as its state.
    pub fn apply_rules(&mut self)
        requires
            old(self).wf(),
        ensures
            final(self).wf(),
            final(self).scale == old(self).scale,
            final(self).width() == old(self).width(),
            final(self).height() == old(self).height(),
            final(self).cells() == next_generation(old(self).cells()),
            forall|y: int, x: int|
                0 <= y < final(self).height() && 0 <= x < final(self).width()
                    ==> (#[trigger] final(self).board@[y]@[x])@.next
                        == final(self).board@[y]@[x]@.on,
    {
        let ghost start = self.board@;
        self.mark_next_generation();
        self.commit_next_generation();
        assert(self.cells() =~~= next_generation(alive_grid(start)));
    }

    /// Sets every cell's scratch flag to its state in the next generation,
    /// leaving everything else as it was.
    #[verifier::rlimit(60)]
    fn mark_next_generation(&mut self)
        requires
            old(self).wf(),
        ensures
            final(self).scale == old(self).scale,
            final(self).board@.len() == old(self).board@.len(),
            forall|j: int| 0 <= j < old(self).height()
                ==> (#[trigger] final(self).board@[j])@.len() == old(self).width(),
            forall|j: int, i: int|
                0 <= j < old(self).height() && 0 <= i < old(self).width()
                    ==> (#[trigger] final(self).board@[j]@[i])@
                    == (PixelView { next: next_cell(old(self).cells(), i, j),
                        ..old(self).board@[j]@[i]@ }),
    {
        let ghost start = self.board@;
        let ghost g = alive_grid(start);
        let height = self.board.len();
        let width = self.board[0].len();
        let mut y: usize = 0;
        while y < height
            invariant
                y <= height,
                height == start.len(),
                width == start[0]@.len(),
                well_formed(start),
                start == old(self).board@,
                self.scale == old(self).scale,
                g == alive_grid(start),
                self.board@.len() == height,
                forall|j: int| 0 <= j < height ==> (#[trigger] self.board@[j])@.len() == width,
                forall|j: int, i: int|
                    0 <= j < height && 0 <= i < width ==> (#[trigger] self.board@[j]@[i])@
                        == (if j < y {
                        PixelView { next: next_cell(g, i, j), ..start[j]@[i]@ }
                    } else {
                        start[j]@[i]@
                    }),
            decreases height - y,
        {
            let mut x: usize = 0;
            while x < width
                invariant
                    x <= width,
                    y < height,
                    height == start.len(),
                    width == start[0]@.len(),
                    well_formed(start),
                    self.scale == old(self).scale,
                    g == alive_grid(start),
                    self.board@.len() == height,
                    forall|j: int| 0 <= j < height ==> (#[trigger] self.board@[j])@.len() == width,
                    forall|j: int, i: int|
                        0 <= j < height && 0 <= i < width ==> (#[trigger] self.board@[j]@[i])@
                            == (if j < y || (j == y && i < x) {
                            PixelView { next: next_cell(g, i, j), ..start[j]@[i]@ }
                        } else {
                            start[j]@[i]@
                        }),
                decreases width - x,
            {
                assert(alive_grid(self.board@) =~~= g);
                let mut pixel = self.board[y][x];
                Life::determine_next_generation(&self.board, &mut pixel);
                self.board[y][x] = pixel;
                x = x + 1;
            }
            y = y + 1;
        }
    }

    /// Makes every cell take its scratch flag as its state.
    fn commit_next_generation(&mut self)
        requires
            old(self).board@.len() > 0,
        ensures
            final(self).scale == old(self).scale,
            final(self).board@.len() == old(self).board@.len(),
            forall|j: int| 0 <= j < old(self).board@.len()
                ==> (#[trigger] final(self).board@[j])@.len() == old(self).board@[j]@.len(),
            forall|j: int, i: int|
                0 <= j < old(self).board@.len() && 0 <= i < old(self).board@[j]@.len()
                    ==> (#[trigger] final(self).board@[j]@[i])@
                    == (PixelView { on: old(self).board@[j]@[i]@.next,
                        ..old(self).board@[j]@[i]@ }),
    {
        let ghost start = self.board@;
        let height = self.board.len();
        let mut y: usize = 0;
        while y < height
            invariant
                y <= height,
                height == start.len(),
                start == old(self).board@,
                self.scale == old(self).scale,
                self.board@.len() == height,
                forall|j: int| 0 <= j < height ==> (#[trigger] self.board@[j])@.len()
                    == start[j]@.len(),
                forall|j: int, i: int|
                    0 <= j < height && 0 <= i < start[j]@.len()
                        ==> (#[trigger] self.board@[j]@[i])@ == (if j < y {
                        PixelView { on: start[j]@[i]@.next, ..start[j]@[i]@ }
                    } else {
                        start[j]@[i]@
                    }),
            decreases height - y,
        {
            let width = self.board[y].len();
            let mut x: usize = 0;
            while x < width
                invariant
                    x <= width,
                    y < height,
                    height == start.len(),
                    width == start[y as int]@.len(),
                    self.scale == old(self).scale,
                    self.board@.len() == height,
                    forall|j: int| 0 <= j < height ==> (#[trigger] self.board@[j])@.len()
                        == start[j]@.len(),
                    forall|j: int, i: int|
                        0 <= j < height && 0 <= i < start[j]@.len()
                            ==> (#[trigger] self.board@[j]@[i])@
                            == (if j < y || (j == y && i < x) {
                            PixelView { on: start[j]@[i]@.next, ..start[j]@[i]@ }
                        } else {
                            start[j]@[i]@
                        }),
                decreases width - x,
            {
                if self.board[y][x].is_alive_next_generation() {
                    self.board[y][x].turn_on();
                } else {
                    self.board[y][x].turn_off();
                }
                x = x + 1;
            }
            y = y + 1;
        }
    }
}

} // verus!
