//! Short flip-book hit effects. An animation is purely decorative: gameplay
//! never reads it, it just counts frames and expires.

use vstd::prelude::*;

verus! {

/// Which of the two hit-effect palettes an animation uses; the palette is
/// keyed by the owner of the projectile that died.
#[derive(Clone, Copy, PartialEq, Eq, Structural, Debug)]
pub enum AnimVariant {
    RED,
    GREEN,
}

/// A finite, non-owned visual effect: a frame counter driving a sprite-index
/// lookup, dead once the counter has covered every display frame.
#[derive(Clone, Copy, PartialEq, Eq, Structural, Debug)]
pub struct Anim {
    pub pos_x: i32,
    pub pos_y: i32,
    pub frame: u32,
    pub end: u32,
    pub wait: u32,
    pub is_dead: bool,
    pub variant: AnimVariant,
}

impl Anim {
    /// At least one display frame shown for at least one tick each, the
    /// counter within the clip, and the clip length short of `u32::MAX` so
    /// the counter and the display index never wrap.
    pub open spec fn wf(self) -> bool {
        &&& 1 <= self.end
        &&& 1 <= self.wait
        &&& self.end * self.wait < u32::MAX
        &&& 1 <= self.frame <= self.end * self.wait
    }

    pub fn new(pos_x: i32, pos_y: i32, variant: AnimVariant, end: u32, wait: u32) -> (r: Anim)
        requires
            1 <= end,
            1 <= wait,
            end * wait < u32::MAX,
        ensures
            r == (Anim { pos_x, pos_y, frame: 1, end, wait, is_dead: false, variant }),
            r.wf(),
    {
        proof {
            assert(1 <= end * wait) by (nonlinear_arith)
                requires
                    1 <= end,
                    1 <= wait,
            ;
        }
        Anim { pos_x, pos_y, frame: 1, end, wait, is_dead: false, variant }
    }

    /// The animation after one tick: the counter advances by one until it
    /// reaches the clip's length, at which point the effect is marked dead
    /// instead.
    pub open spec fn spec_stepped(self) -> Anim {
        if self.frame >= self.end * self.wait {
            Anim { is_dead: true, ..self }
        } else {
            Anim { frame: (self.frame + 1) as u32, ..self }
        }
    }

    /// One tick, exactly as [`Anim::spec_stepped`] describes it.
    pub fn update(&mut self)
        requires
            old(self).wf(),
        ensures
            final(self).wf(),
            *final(self) == old(self).spec_stepped(),
    {
        if self.frame >= self.end * self.wait {
            self.is_dead = true;
            return ;
        }
        self.frame = self.frame + 1;
    }

    /// The sprite index the draw pass shows for the current counter:
    /// `frame / wait + 1`, capped at the last display frame.
    pub open spec fn spec_display_frame(self) -> int {
        let f = self.frame as int / self.wait as int + 1;
        if f > self.end {
            self.end as int
        } else {
            f
        }
    }

    pub fn display_frame(&self) -> (r: u32)
        requires
            self.wf(),
        ensures
            r == self.spec_display_frame(),
            1 <= r <= self.end,
    {
        proof {
            vstd::arithmetic::div_mod::lemma_div_is_ordered(
                self.frame as int,
                self.end * self.wait,
                self.wait as int,
            );
            vstd::arithmetic::div_mod::lemma_div_multiples_vanish(
                self.end as int,
                self.wait as int,
            );
            vstd::arithmetic::div_mod::lemma_div_pos_is_pos(self.frame as int, self.wait as int);
        }
        let mut f: u32 = self.frame / self.wait + 1;
        if f > self.end {
            f = self.end;
        }
        f
    }

    pub fn is_dead(&self) -> (r: bool)
        ensures
            r == self.is_dead,
    {
        self.is_dead
    }
}

} // verus!
