//! The line counter: when LY next changes, and what the LYC comparator sees.

use vstd::prelude::*;

use crate::regs::{dots_to_cycles, LCD_LINES_PER_FRAME};

verus! {

/// The current line and the clock reading at which the next one starts.
#[derive(Clone, Copy, Debug, PartialEq, Eq, Structural)]
pub struct LyCounter {
    pub ly: u32,
    pub time: u64,
    pub ds: bool,
}

/// The line the LYC comparator works with, and the clock cycles until it
/// moves on to the next.
#[derive(Clone, Copy, Debug, PartialEq, Eq, Structural)]
pub struct LycCompare {
    pub ly: u32,
    pub time_to_next_ly: i64,
}

/// The line after `ly`; the last line of a frame is followed by line 0.
#[verifier::allow_in_spec]
pub fn inc_ly(ly: u32) -> u32
    returns
        (if ly >= LCD_LINES_PER_FRAME - 1 { 0u32 } else { (ly + 1) as u32 }),
{
    if ly >= LCD_LINES_PER_FRAME - 1 { 0 } else { ly + 1 }
}

impl LyCounter {
    /// Clock cycles in a line.
    #[verifier::allow_in_spec]
    pub fn line_time(&self) -> u64
        returns
            (if self.ds { 912u64 } else { 456 }),
    {
        if self.ds { 912 } else { 456 }
    }

    /// The comparator moves on to the next line two dots early, and leaves the
    /// last line of a frame for line 0 after its first six dots.
    pub open spec fn lyc_lead(self) -> int {
        if self.ly == LCD_LINES_PER_FRAME - 1 {
            self.line_time() - dots_to_cycles(6, self.ds)
        } else {
            dots_to_cycles(2, self.ds)
        }
    }

    pub open spec fn lyc_compare(self, cc: u64) -> LycCompare {
        let t = self.time - cc - self.lyc_lead();
        if t <= 0 {
            LycCompare { ly: inc_ly(self.ly), time_to_next_ly: (t + self.line_time()) as i64 }
        } else {
            LycCompare { ly: self.ly, time_to_next_ly: t as i64 }
        }
    }
}

pub fn get_lyc_compare_ly(lc: &LyCounter, cc: u64) -> (r: LycCompare)
    requires
        lc.time < 0x4000_0000_0000_0000,
        cc < 0x4000_0000_0000_0000,
    ensures
        r == lc.lyc_compare(cc),
{
    let lead: i64 = if lc.ly == LCD_LINES_PER_FRAME - 1 {
        if lc.ds { 912 - 12 } else { 456 - 6 }
    } else if lc.ds {
        4
    } else {
        2
    };
    let t: i64 = lc.time as i64 - cc as i64 - lead;
    if t <= 0 {
        LycCompare { ly: inc_ly(lc.ly), time_to_next_ly: t + lc.line_time() as i64 }
    } else {
        LycCompare { ly: lc.ly, time_to_next_ly: t }
    }
}

/// The comparator never sees a line outside the frame.
pub proof fn law_lyc_compare_line_in_frame(lc: LyCounter, cc: u64)
    requires
        lc.ly < LCD_LINES_PER_FRAME,
    ensures
        lc.lyc_compare(cc).ly < LCD_LINES_PER_FRAME,
{
}

} // verus!
