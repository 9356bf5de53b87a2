//! The double-buffer discipline for stochastic point plotting (the "chaos
//! game").
//!
//! Unlike a turtle curve, a chaos game is an unbounded stream of points with
//! no notion of resuming geometry: each point is an atomic drawable unit.
//! Catching a buffer up therefore replays the points most recently drawn on
//! the other buffer — held here in a per-slot buffer of the last batch —
//! rather than resuming at a cursor. The random point stream itself lives
//! with the renderer, which owns the point generator, pulls at most
//! `dots_per_frame` fresh points before each render call, and restarts the
//! generator after a resize; this machine decides what must be cleared and
//! replayed, and remembers the batch to replay next time.

use vstd::prelude::*;

use crate::rendering::{next_phase, WhichFrame};

verus! {

/// What one render call asks of the renderer: whether to clear the selected
/// buffer, and which previously drawn points to replay onto it before
/// drawing the fresh batch.
pub struct ChaosFramePlan<P> {
    /// Clear the buffer before drawing.
    pub clear: bool,
    /// Previously drawn points to replay, in the order they were first
    /// drawn, before the fresh batch is drawn after them.
    pub replay: Vec<P>,
}

/// The window handler that drives chaos-game point plotting over the two
/// alternating buffers.
pub struct ChaosGameWindowHandler<P> {
    which_frame: WhichFrame,
    dots_per_frame: usize,
    last_moves: Vec<P>,
}

impl<P> ChaosGameWindowHandler<P> {
    /// The warm-up phase the handler is in.
    pub closed spec fn phase(&self) -> WhichFrame {
        self.which_frame
    }

    /// How many fresh points the renderer draws per frame, at most.
    pub closed spec fn dots_per_frame(&self) -> usize {
        self.dots_per_frame
    }

    /// The points drawn by the most recent render call, kept to catch the
    /// other buffer up.
    pub closed spec fn last_moves_view(&self) -> Seq<P> {
        self.last_moves@
    }

    /// The state the handler has before anything has been rendered: the
    /// state a fresh handler for the same pace starts in, and the state a
    /// resize returns it to.
    pub open spec fn is_pristine_for(&self, dots_per_frame: usize) -> bool {
        &&& self.phase() is FirstFrame
        &&& self.dots_per_frame() == dots_per_frame
        &&& self.last_moves_view().len() == 0
    }

    /// A handler that expects up to `dots_per_frame` fresh points per render
    /// call.
    pub fn new(dots_per_frame: usize) -> (r: ChaosGameWindowHandler<P>)
        ensures
            r.is_pristine_for(dots_per_frame),
    {
        ChaosGameWindowHandler {
            which_frame: WhichFrame::FirstFrame,
            dots_per_frame,
            last_moves: Vec::new(),
        }
    }

    /// A resize discards the replay buffer and restarts the warm-up:
    /// afterwards the handler is in exactly the state a fresh handler for
    /// the same pace would be in, so the next render call behaves
    /// identically to a fresh first-frame call. The renderer restarts its
    /// point generator alongside.
    pub fn window_resized(&mut self)
        ensures
            final(self).is_pristine_for(old(self).dots_per_frame()),
    {
        self.which_frame = WhichFrame::FirstFrame;
        self.last_moves = Vec::new();
    }

    /// One render call, given the fresh points the renderer pulled from its
    /// generator for this frame (an exhausted generator simply hands fewer,
    /// or none — that is a steady no-op, not an error).
    ///
    /// The first call clears its buffer and draws only fresh points; the
    /// second call clears the other buffer and first replays what the first
    /// call drew; every later call replays the previous call's batch and
    /// carries on. The fresh batch always becomes the next replay batch.
    pub fn render_frame(&mut self, fresh: Vec<P>) -> (plan: ChaosFramePlan<P>)
        ensures
            final(self).phase() == next_phase(old(self).phase()),
            final(self).dots_per_frame() == old(self).dots_per_frame(),
            final(self).last_moves_view() == fresh@,
            plan.clear == !(old(self).phase() is AllOtherFrames),
            old(self).phase() is FirstFrame ==> plan.replay@.len() == 0 && final(self).phase()
                is SecondFrame,
            old(self).phase() is SecondFrame ==> plan.replay@ == old(self).last_moves_view()
                && final(self).phase() is AllOtherFrames,
            old(self).phase() is AllOtherFrames ==> plan.replay@ == old(self).last_moves_view()
                && final(self).phase() is AllOtherFrames,
    {
        match self.which_frame {
            WhichFrame::FirstFrame => {
                self.last_moves = fresh;
                self.which_frame = WhichFrame::SecondFrame;
                ChaosFramePlan { clear: true, replay: Vec::new() }
            },
            WhichFrame::SecondFrame => {
                let mut replay = fresh;
                core::mem::swap(&mut replay, &mut self.last_moves);
                self.which_frame = WhichFrame::AllOtherFrames;
                ChaosFramePlan { clear: true, replay }
            },
            WhichFrame::AllOtherFrames => {
                let mut replay = fresh;
                core::mem::swap(&mut replay, &mut self.last_moves);
                ChaosFramePlan { clear: false, replay }
            },
        }
    }
}

} // verus!
