//! Picture memory, debug records and other buffers of the picture unit.

use vstd::prelude::*;

use crate::regs::FRAMEBUFFER_SIZE;

verus! {

/// `n` equal bytes.
pub open spec fn filled(n: nat, v: u8) -> Seq<u8> {
    Seq::new(n, |i: int| v)
}

/// `n` equal bytes in a new buffer.
pub fn filled_vec(n: usize, v: u8) -> (r: Vec<u8>)
    ensures
        r@ == filled(n as nat, v),
{
    let r = vec![v; n];
    assert(r@ =~= filled(n as nat, v));
    r
}

/// A copy of a buffer.
pub fn copied(src: &Vec<u8>) -> (r: Vec<u8>)
    ensures
        r@ == src@,
{
    let mut out: Vec<u8> = Vec::with_capacity(src.len());
    let mut i: usize = 0;
    while i < src.len()
        invariant
            i <= src@.len(),
            out@ == src@.take(i as int),
        decreases src@.len() - i,
    {
        out.push(src[i]);
        i += 1;
        assert(out@ =~= src@.take(i as int));
    }
    assert(out@ =~= src@);
    out
}

/// The picture being drawn and the last finished one, in shades and in RGB,
/// and the picture that a Super Game Boy holds frozen.
#[derive(Clone)]
pub struct Frames {
    fb_a: Vec<u8>,
    fb_b: Vec<u8>,
    color_fb_a: Vec<u8>,
    color_fb_b: Vec<u8>,
    sgb_freeze_fb: Option<Vec<u8>>,
}

/// What a `Frames` holds.
#[verifier::ext_equal]
pub struct FramesView {
    pub fb_a: Seq<u8>,
    pub fb_b: Seq<u8>,
    pub color_fb_a: Seq<u8>,
    pub color_fb_b: Seq<u8>,
    pub sgb_freeze_fb: Option<Seq<u8>>,
}

impl FramesView {
    pub open spec fn blank() -> FramesView {
        FramesView {
            fb_a: filled(FRAMEBUFFER_SIZE as nat, 0),
            fb_b: filled(FRAMEBUFFER_SIZE as nat, 0),
            color_fb_a: filled((FRAMEBUFFER_SIZE * 3) as nat, 0),
            color_fb_b: filled((FRAMEBUFFER_SIZE * 3) as nat, 0),
            sgb_freeze_fb: None,
        }
    }

    pub open spec fn wf(self) -> bool {
        &&& self.fb_a.len() == FRAMEBUFFER_SIZE
        &&& self.fb_b.len() == FRAMEBUFFER_SIZE
        &&& self.color_fb_a.len() == FRAMEBUFFER_SIZE * 3
        &&& self.color_fb_b.len() == FRAMEBUFFER_SIZE * 3
    }

    pub open spec fn with_shade(self, at: int, shade: u8) -> FramesView {
        FramesView { fb_a: self.fb_a.update(at, shade), ..self }
    }

    pub open spec fn with_rgb(self, at: int, rgb: (u8, u8, u8)) -> FramesView {
        FramesView {
            color_fb_a: self.color_fb_a.update(at * 3, rgb.0).update(at * 3 + 1, rgb.1).update(
                at * 3 + 2,
                rgb.2,
            ),
            ..self
        }
    }

    /// The finished picture changes places with the one being drawn, which
    /// starts out blank.
    pub open spec fn finish_color(self) -> FramesView {
        FramesView {
            color_fb_b: self.color_fb_a,
            color_fb_a: filled(self.color_fb_b.len(), 0),
            ..self
        }
    }

    pub open spec fn finish_mono(self) -> FramesView {
        FramesView { fb_b: self.fb_a, fb_a: filled(self.fb_b.len(), 0), ..self }
    }

    /// What a Super Game Boy shows: the frozen picture while there is one of
    /// the right size.
    pub open spec fn sgb_source(self) -> Seq<u8> {
        match self.sgb_freeze_fb {
            Some(f) if f.len() == FRAMEBUFFER_SIZE => f,
            _ => self.fb_b,
        }
    }
}

impl View for Frames {
    type V = FramesView;

    closed spec fn view(&self) -> FramesView {
        FramesView {
            fb_a: self.fb_a@,
            fb_b: self.fb_b@,
            color_fb_a: self.color_fb_a@,
            color_fb_b: self.color_fb_b@,
            sgb_freeze_fb: match self.sgb_freeze_fb {
                Some(v) => Some(v@),
                None => None,
            },
        }
    }
}

impl Frames {
    pub fn new() -> (r: Self)
        ensures
            r@ == FramesView::blank(),
    {
        Frames {
            fb_a: filled_vec(FRAMEBUFFER_SIZE, 0),
            fb_b: filled_vec(FRAMEBUFFER_SIZE, 0),
            color_fb_a: filled_vec(FRAMEBUFFER_SIZE * 3, 0),
            color_fb_b: filled_vec(FRAMEBUFFER_SIZE * 3, 0),
            sgb_freeze_fb: None,
        }
    }

    pub fn put_shade(&mut self, at: usize, shade: u8)
        requires
            at < old(self)@.fb_a.len(),
        ensures
            final(self)@ == old(self)@.with_shade(at as int, shade),
    {
        self.fb_a.set(at, shade);
    }

    pub fn put_rgb(&mut self, at: usize, rgb: (u8, u8, u8))
        requires
            old(self)@.wf(),
            at < FRAMEBUFFER_SIZE,
        ensures
            final(self)@ == old(self)@.with_rgb(at as int, rgb),
    {
        self.color_fb_a.set(at * 3, rgb.0);
        self.color_fb_a.set(at * 3 + 1, rgb.1);
        self.color_fb_a.set(at * 3 + 2, rgb.2);
    }

    pub fn finish_color(&mut self)
        ensures
            final(self)@ == old(self)@.finish_color(),
    {
        std::mem::swap(&mut self.color_fb_b, &mut self.color_fb_a);
        self.color_fb_a = filled_vec(self.color_fb_a.len(), 0);
    }

    pub fn finish_mono(&mut self)
        ensures
            final(self)@ == old(self)@.finish_mono(),
    {
        std::mem::swap(&mut self.fb_b, &mut self.fb_a);
        self.fb_a = filled_vec(self.fb_a.len(), 0);
    }

    /// Blanks the picture being drawn.
    pub fn clear_color_a(&mut self)
        ensures
            final(self)@ == (FramesView {
                color_fb_a: filled(old(self)@.color_fb_a.len(), 0),
                ..old(self)@
            }),
    {
        self.color_fb_a = filled_vec(self.color_fb_a.len(), 0);
    }

    /// Fills the finished RGB picture.
    pub fn fill_color_b(&mut self, v: u8)
        ensures
            final(self)@ == (FramesView {
                color_fb_b: filled(old(self)@.color_fb_b.len(), v),
                ..old(self)@
            }),
    {
        self.color_fb_b = filled_vec(self.color_fb_b.len(), v);
    }

    /// Fills the finished shade picture.
    pub fn fill_fb_b(&mut self, v: u8)
        ensures
            final(self)@ == (FramesView {
                fb_b: filled(old(self)@.fb_b.len(), v),
                ..old(self)@
            }),
    {
        self.fb_b = filled_vec(self.fb_b.len(), v);
    }

    /// Keeps the finished picture frozen, unless one is already.
    pub fn freeze(&mut self)
        ensures
            final(self)@ == (FramesView {
                sgb_freeze_fb: match old(self)@.sgb_freeze_fb {
                    Some(f) => Some(f),
                    None => Some(old(self)@.fb_b),
                },
                ..old(self)@
            }),
    {
        if self.sgb_freeze_fb.is_none() {
            self.sgb_freeze_fb = Some(copied(&self.fb_b));
        }
    }

    pub fn unfreeze(&mut self)
        ensures
            final(self)@ == (FramesView { sgb_freeze_fb: None, ..old(self)@ }),
    {
        self.sgb_freeze_fb = None;
    }

    /// The finished shades.
    pub fn fb_b(&self) -> (r: &Vec<u8>)
        ensures
            r@ == self@.fb_b,
    {
        &self.fb_b
    }

    /// The finished RGB picture.
    pub fn color_fb_b(&self) -> (r: &Vec<u8>)
        ensures
            r@ == self@.color_fb_b,
    {
        &self.color_fb_b
    }

    /// The shades of the picture being drawn.
    pub fn fb_a(&self) -> (r: &Vec<u8>)
        ensures
            r@ == self@.fb_a,
    {
        &self.fb_a
    }

    /// The RGB picture being drawn.
    pub fn color_fb_a(&self) -> (r: &Vec<u8>)
        ensures
            r@ == self@.color_fb_a,
    {
        &self.color_fb_a
    }

    pub fn sgb_source(&self) -> (r: &Vec<u8>)
        ensures
            r@ == self@.sgb_source(),
    {
        match &self.sgb_freeze_fb {
            Some(f) if f.len() == FRAMEBUFFER_SIZE => f,
            _ => &self.fb_b,
        }
    }
}

/// The picture last finished is what had been drawn, and drawing starts over on
/// a blank one.
pub proof fn law_finished_picture_is_what_was_drawn(f: FramesView)
    requires
        f.wf(),
    ensures
        f.finish_mono().fb_b == f.fb_a,
        f.finish_mono().fb_a == filled(FRAMEBUFFER_SIZE as nat, 0),
        f.finish_mono().wf(),
        f.finish_color().color_fb_b == f.color_fb_a,
        f.finish_color().color_fb_a == filled((FRAMEBUFFER_SIZE * 3) as nat, 0),
        f.finish_color().wf(),
{
}


/// The pictures in their parts.
pub struct FramesParts {
    pub fb_a: Vec<u8>,
    pub fb_b: Vec<u8>,
    pub color_fb_a: Vec<u8>,
    pub color_fb_b: Vec<u8>,
    pub sgb_freeze_fb: Option<Vec<u8>>,
}

impl View for FramesParts {
    type V = FramesView;

    open spec fn view(&self) -> FramesView {
        FramesView {
            fb_a: self.fb_a@,
            fb_b: self.fb_b@,
            color_fb_a: self.color_fb_a@,
            color_fb_b: self.color_fb_b@,
            sgb_freeze_fb: match self.sgb_freeze_fb {
                Some(v) => Some(v@),
                None => None,
            },
        }
    }
}

impl Frames {
    /// Takes the value apart.
    pub fn into_parts(self) -> (r: FramesParts)
        ensures
            r@ == self@,
    {
        FramesParts {
            fb_a: self.fb_a,
            fb_b: self.fb_b,
            color_fb_a: self.color_fb_a,
            color_fb_b: self.color_fb_b,
            sgb_freeze_fb: self.sgb_freeze_fb,
        }
    }

    /// Puts the value together again.
    pub fn from_parts(parts: FramesParts) -> (r: Self)
        ensures
            r@ == parts@,
    {
        Frames {
            fb_a: parts.fb_a,
            fb_b: parts.fb_b,
            color_fb_a: parts.color_fb_a,
            color_fb_b: parts.color_fb_b,
            sgb_freeze_fb: parts.sgb_freeze_fb,
        }
    }

    pub fn is_well_formed(&self) -> (r: bool)
        ensures
            r == self@.wf(),
    {
        self.fb_a.len() == FRAMEBUFFER_SIZE && self.fb_b.len() == FRAMEBUFFER_SIZE
            && self.color_fb_a.len() == FRAMEBUFFER_SIZE * 3 && self.color_fb_b.len()
            == FRAMEBUFFER_SIZE * 3
    }
}

} // verus!
