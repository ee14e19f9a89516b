//! The behavior slots of the host: one trait for a tick callback and one
//! for a draw callback. A plugin or the primary callback implements these;
//! the host stores them boxed and invokes them in priority order. Each
//! implementor declares, as a spec function, the transition its callback
//! performs; the host's contracts then give the final store and buffer as
//! the fold of the installed transitions.

use vstd::prelude::*;

use crate::framebuffer::FrameBuffer;
use crate::store::StateStore;
use crate::value::Value;

verus! {

/// A tick callback: advances state once per frame. It must leave the store
/// well-formed, and it must take the store to exactly the transition it
/// declares.
pub trait TickHandler {
    /// The store this callback leaves behind, as a function of the store
    /// it was handed. A callback that leaves the store unchanged may keep
    /// this default; one that writes must override it.
    open spec fn spec_next(&self, m: Map<Seq<char>, Value>) -> Map<Seq<char>, Value> {
        m
    }

    fn on_tick(&self, state: &mut StateStore)
        requires
            old(state).wf(),
        ensures
            final(state).wf(),
            final(state)@ == self.spec_next(old(state)@),
    ;
}

/// A draw callback: blends its visuals into the live pixel buffer and may
/// read and write the store. It must leave the store well-formed, must not
/// change the buffer's resolution, and must take buffer and store to
/// exactly the transitions it declares.
pub trait DrawHandler {
    /// The pixels this callback leaves behind, as a function of the
    /// pixels and store it was handed. A callback that paints nothing may
    /// keep this default; one that paints must override it.
    open spec fn spec_next_fb(&self, fb: Seq<u32>, m: Map<Seq<char>, Value>) -> Seq<u32> {
        fb
    }

    /// The store this callback leaves behind, as a function of the pixels
    /// and store it was handed. A callback that leaves the store unchanged
    /// may keep this default; one that writes must override it.
    open spec fn spec_next_store(&self, fb: Seq<u32>, m: Map<Seq<char>, Value>) -> Map<
        Seq<char>,
        Value,
    > {
        m
    }

    fn on_draw(&self, fb: &mut FrameBuffer, state: &mut StateStore)
        requires
            old(state).wf(),
            old(fb).wf(),
        ensures
            final(state).wf(),
            final(fb).wf(),
            final(fb).spec_width() == old(fb).spec_width(),
            final(fb).spec_height() == old(fb).spec_height(),
            final(fb)@ == self.spec_next_fb(old(fb)@, old(state)@),
            final(state)@ == self.spec_next_store(old(fb)@, old(state)@),
    ;
}

/// The default tick callback: does nothing.
pub struct NoOpTick;

impl TickHandler for NoOpTick {
    fn on_tick(&self, state: &mut StateStore) {
    }
}

/// The default draw callback: leaves buffer and store as they are.
pub struct NoOpDraw;

impl DrawHandler for NoOpDraw {
    fn on_draw(&self, fb: &mut FrameBuffer, state: &mut StateStore) {
    }
}

/// A draw callback that fills the whole buffer with one constant color and
/// leaves the store alone.
pub struct FillDraw {
    pub color: u32,
}

impl DrawHandler for FillDraw {
    open spec fn spec_next_fb(&self, fb: Seq<u32>, m: Map<Seq<char>, Value>) -> Seq<u32> {
        Seq::new(fb.len(), |i: int| self.color)
    }

    fn on_draw(&self, fb: &mut FrameBuffer, state: &mut StateStore) {
        fb.fill(self.color);
        proof {
            assert(fb@ =~= Seq::new(old(fb)@.len(), |i: int| self.color));
        }
    }
}

} // verus!
