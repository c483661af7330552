//! What the picture path reads of a Super Game Boy.

use vstd::prelude::*;

verus! {

/// What the Super Game Boy shows in place of the screen.
#[derive(Clone, Copy, Debug, PartialEq, Eq, Structural)]
pub enum MaskMode {
    /// The live screen.
    Cancel,
    /// The last picture before the freeze.
    Freeze,
    /// Black.
    Black,
    /// Colour 0 everywhere.
    Color0,
}

/// A border: 256 tiles of 32 bytes, a map of 32 by 28 two-byte entries, and
/// palettes of 16 colours each.
#[derive(Debug, Clone)]
pub struct SgbBorder {
    pub tiles: Vec<u8>,
    pub map: Vec<u8>,
    pub pals: Vec<u16>,
}

impl SgbBorder {
    /// The palette bits of a map entry that are looked at: three when there
    /// are eight palettes, otherwise two.
    pub open spec fn pal_count(&self) -> int {
        if self.pals@.len() >= 128 { 8 } else { 4 }
    }

    pub open spec fn wf(&self) -> bool {
        &&& self.tiles@.len() >= 256 * 32
        &&& self.map@.len() >= 28 * 32 * 2
        &&& self.pals@.len() >= 64
    }
}

/// The Super Game Boy's picture state.
#[derive(Debug, Clone)]
pub struct Sgb {
    pub mask: MaskMode,
    /// A palette command has been received.
    pub colorized: bool,
    /// The border, once one has been transferred.
    pub border: Option<SgbBorder>,
    /// The colour behind everything.
    pub backdrop: u16,
    /// The four colours of each attribute cell, 20 cells to a row, 18 rows.
    pub cells: Vec<[u16; 4]>,
}

impl Sgb {
    pub open spec fn wf(&self) -> bool {
        &&& self.cells@.len() == 20 * 18
        &&& self.border matches Some(b) ==> b.wf()
    }

    /// The colour of shade `shade` in cell (`cx`, `cy`), once colourised.
    pub open spec fn spec_color_for(&self, cx: int, cy: int, shade: u8) -> Option<u16> {
        if self.colorized {
            Some(self.cells@[cy * 20 + cx][(if shade > 3 { 3 } else { shade as int })])
        } else {
            None
        }
    }

    pub fn color_for(&self, cx: usize, cy: usize, shade: u8) -> (r: Option<u16>)
        requires
            self.wf(),
            cx < 20,
            cy < 18,
        ensures
            r == self.spec_color_for(cx as int, cy as int, shade),
    {
        if self.colorized {
            let s: usize = if shade > 3 { 3 } else { shade as usize };
            let cell: [u16; 4] = self.cells[cy * 20 + cx];
            Some(cell[s])
        } else {
            None
        }
    }
}

} // verus!
