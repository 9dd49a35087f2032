use vstd::prelude::*;

verus! {

/// What a [`Pixel`] holds, as seen by contracts.
pub struct PixelView {
    pub x: usize,
    pub y: usize,
    pub on: bool,
    pub next: bool,
}

/// One cell of the board: its fixed position, whether it is alive now, and
/// the scratch flag that holds its state in the generation being computed.
#[derive(Debug, Clone, Copy, PartialEq, Eq, Structural)]
pub struct Pixel {
    x: usize,
    y: usize,
    on: bool,
    alive_next_generation: bool,
}

impl View for Pixel {
    type V = PixelView;

    closed spec fn view(&self) -> PixelView {
        PixelView { x: self.x, y: self.y, on: self.on, next: self.alive_next_generation }
    }
}

impl Pixel {
    /// A cell at column `x`, row `y`, alive when `on`; its scratch flag is
    /// cleared.
    pub fn new(x: usize, y: usize, on: bool) -> (p: Pixel)
        ensures
            p@ == (PixelView { x, y, on, next: false }),
    {
        Pixel { x, y, on, alive_next_generation: false }
    }

    /// Makes the cell alive now.
    pub fn turn_on(&mut self)
        ensures
            final(self)@ == (PixelView { on: true, ..old(self)@ }),
    {
        self.on = true;
    }

    /// Makes the cell dead now.
    pub fn turn_off(&mut self)
        ensures
            final(self)@ == (PixelView { on: false, ..old(self)@ }),
    {
        self.on = false;
    }

    /// Marks the cell alive in the generation being computed.
    pub fn survive(&mut self)
        ensures
            final(self)@ == (PixelView { next: true, ..old(self)@ }),
    {
        self.alive_next_generation = true;
    }

    /// Marks the cell dead in the generation being computed.
    pub fn kill(&mut self)
        ensures
            final(self)@ == (PixelView { next: false, ..old(self)@ }),
    {
        self.alive_next_generation = false;
    }

    /// Whether the cell is alive in the generation being computed.
    pub fn is_alive_next_generation(&self) -> (r: bool)
        ensures
            r == self@.next,
    {
        self.alive_next_generation
    }

    /// Whether the cell is alive now.
    pub fn is_on(&self) -> (r: bool)
        ensures
            r == self@.on,
    {
        self.on
    }

    /// The cell's column and row.
    pub fn get_coords(&self) -> (r: (usize, usize))
        ensures
            r == (self@.x, self@.y),
    {
        (self.x, self.y)
    }
}

} // verus!
