//! The double-buffered frame-advance state machines for turtle programs.
//!
//! The display has exactly two back buffers, selected by frame-number
//! parity. Each buffer is cleared on its own turn, so content drawn on one
//! must be independently drawn onto the other before new content is added.
//! The machines here own the per-slot cursors into the chunk sequence and
//! decide, per render call, exactly which actions the renderer must perform
//! on the selected buffer; the renderer owns one turtle state per slot,
//! performs the plan's actions through its [`crate::turtle::Turtle`]
//! capability, and resets the slot's turtle state whenever a plan asks for a
//! clear.

use vstd::prelude::*;

use crate::turtle::{
    chunk_end, pos_after, taken, TurtleAction, TurtleCollectToNextForwardIterator, TurtleProgram,
    TurtleProgramIterator,
};

verus! {

/// Which warm-up step a double-buffer pair is in. The phase advances
/// `FirstFrame` to `SecondFrame` to `AllOtherFrames` and never regresses,
/// except that a window resize returns it to `FirstFrame`.
#[derive(Clone, Copy, Debug, PartialEq)]
pub enum WhichFrame {
    /// No buffer has been drawn yet.
    FirstFrame,
    /// The first buffer has been drawn once; the second has not.
    SecondFrame,
    /// Both buffers are warmed up and advance at a steady pace.
    AllOtherFrames,
}

/// The warm-up phase that follows `p`: phases advance in the declared
/// order, `FirstFrame` then `SecondFrame` then `AllOtherFrames`, where they
/// stay; no phase is ever skipped and none is revisited except through a
/// resize.
pub open spec fn next_phase(p: WhichFrame) -> WhichFrame {
    match p {
        WhichFrame::FirstFrame => WhichFrame::SecondFrame,
        WhichFrame::SecondFrame => WhichFrame::AllOtherFrames,
        WhichFrame::AllOtherFrames => WhichFrame::AllOtherFrames,
    }
}

/// What one render call asks of the renderer: whether to clear the selected
/// buffer first (resetting that slot's turtle state), and which actions to
/// perform on it, in order.
pub struct FramePlan<S> {
    /// Clear the buffer and reset the slot's turtle state before performing
    /// the actions.
    pub clear: bool,
    /// The actions to perform on the selected buffer, in order.
    pub actions: Vec<TurtleAction<S>>,
}

/// The buffer slot (0 or 1) a frame number selects.
pub open spec fn slot_of(frame_num: u32) -> int {
    (frame_num % 2) as int
}

/// A fresh, element-wise copy of an action vector.
fn copy_actions<S: Copy>(v: &Vec<TurtleAction<S>>) -> (r: Vec<TurtleAction<S>>)
    ensures
        r@ == v@,
{
    let mut r: Vec<TurtleAction<S>> = Vec::new();
    let mut i: usize = 0;
    while i < v.len()
        invariant
            i <= v.len(),
            r@ == v@.subrange(0, i as int),
        decreases v.len() - i,
    {
        r.push(v[i]);
        proof {
            assert(r@ =~= v@.subrange(0, i + 1));
        }
        i = i + 1;
    }
    proof {
        assert(v@.subrange(0, v@.len() as int) =~= v@);
    }
    r
}

/// Every action of the program, materialized in order.
fn collect_actions<S: Copy, P: TurtleProgram<S>>(program: &P) -> (r: Vec<TurtleAction<S>>)
    ensures
        r@ == program.actions_spec(),
{
    let mut it = program.turtle_program_iter();
    let mut r: Vec<TurtleAction<S>> = Vec::new();
    loop
        invariant
            it.wf(),
            it.all_actions() == program.actions_spec(),
            r@ == it.all_actions().subrange(0, it.cursor()),
        ensures
            it.cursor() == it.all_actions().len(),
            r@ == it.all_actions().subrange(0, it.cursor()),
        decreases it.all_actions().len() - it.cursor(),
    {
        let ghost c0 = it.cursor();
        match it.next() {
            Some(a) => {
                r.push(a);
                proof {
                    assert(r@ =~= it.all_actions().subrange(0, c0 + 1));
                }
            },
            None => {
                break;
            },
        }
    }
    proof {
        assert(program.actions_spec().subrange(0, program.actions_spec().len() as int)
            =~= program.actions_spec());
    }
    r
}

/// Pull one chunk from the iterator and append its actions to `out`; once
/// the iterator is exhausted this is a no-op, not an error.
fn draw_one_move<S: Copy>(
    program_iter: &mut TurtleCollectToNextForwardIterator<S>,
    out: &mut Vec<TurtleAction<S>>,
)
    requires
        old(program_iter).wf(),
    ensures
        final(program_iter).wf(),
        final(program_iter).all_actions() == old(program_iter).all_actions(),
        final(program_iter).cursor() == chunk_end(
            old(program_iter).all_actions(),
            old(program_iter).cursor(),
        ),
        final(out)@ == old(out)@ + old(program_iter).all_actions().subrange(
            old(program_iter).cursor(),
            final(program_iter).cursor(),
        ),
{
    let one_move = program_iter.next();
    match one_move {
        Some(mut chunk) => {
            out.append(&mut chunk);
        },
        None => {
            proof {
                assert(out@ =~= old(out)@ + old(program_iter).all_actions().subrange(
                    old(program_iter).cursor(),
                    old(program_iter).cursor(),
                ));
            }
        },
    }
}

/// Pull `n` chunks from the iterator, appending their actions to `out` in
/// order; chunks past the end of the sequence are no-ops.
fn draw_moves<S: Copy>(
    program_iter: &mut TurtleCollectToNextForwardIterator<S>,
    n: u64,
    out: &mut Vec<TurtleAction<S>>,
)
    requires
        old(program_iter).wf(),
    ensures
        final(program_iter).wf(),
        final(program_iter).all_actions() == old(program_iter).all_actions(),
        final(program_iter).cursor() == pos_after(
            old(program_iter).all_actions(),
            old(program_iter).cursor(),
            n as nat,
        ),
        final(out)@ == old(out)@ + taken(
            old(program_iter).all_actions(),
            old(program_iter).cursor(),
            n as nat,
        ),
{
    let ghost s = program_iter.all_actions();
    let ghost c0 = program_iter.cursor();
    let ghost out0 = out@;
    proof {
        assert(out@ =~= out0 + taken(s, c0, 0nat));
    }
    let mut i: u64 = 0;
    while i < n
        invariant
            i <= n,
            program_iter.wf(),
            program_iter.all_actions() == s,
            program_iter.cursor() == pos_after(s, c0, i as nat),
            out@ == out0 + taken(s, c0, i as nat),
        decreases n - i,
    {
        draw_one_move(program_iter, out);
        proof {
            crate::turtle::lemma_pos_after_snoc(s, c0, i as nat);
            crate::turtle::lemma_taken_snoc(s, c0, i as nat);
            assert(out@ =~= out0 + taken(s, c0, (i + 1) as nat));
        }
        i = i + 1;
    }
}

/// The window handler that renders the entire turtle program in one go and
/// re-renders only when a buffer's content has been lost: once for each of
/// the two buffers, and again on each after a resize.
pub struct DoubleBufferedWindowHandler<S> {
    drawing: Vec<TurtleAction<S>>,
    redraw0: bool,
    redraw1: bool,
}

impl<S> DoubleBufferedWindowHandler<S> {
    /// The complete drawing: pose setup, every program action, then raising
    /// the pen.
    pub closed spec fn drawing_view(&self) -> Seq<TurtleAction<S>> {
        self.drawing@
    }

    /// Whether the given buffer slot still has to be redrawn.
    pub closed spec fn needs_redraw(&self, slot: int) -> bool {
        if slot == 0 {
            self.redraw0
        } else {
            self.redraw1
        }
    }
}

impl<S: Copy> DoubleBufferedWindowHandler<S> {
    /// The full action sequence that draws `program` once: its pose setup,
    /// all of its actions, and a final pen-up.
    pub fn turtledraw<P: TurtleProgram<S>>(program: &P) -> (r: Vec<TurtleAction<S>>)
        ensures
            r@ == program.init_spec() + program.actions_spec() + seq![TurtleAction::PenUp],
    {
        let mut r = program.init_turtle();
        let mut rest = collect_actions(program);
        r.append(&mut rest);
        r.push(TurtleAction::PenUp);
        proof {
            assert(r@ =~= program.init_spec() + program.actions_spec() + seq![
                TurtleAction::<S>::PenUp,
            ]);
        }
        r
    }

    /// A handler that will draw `program` once onto each buffer.
    pub fn new<P: TurtleProgram<S>>(program: &P) -> (r: DoubleBufferedWindowHandler<S>)
        ensures
            r.drawing_view() == program.init_spec() + program.actions_spec() + seq![
                TurtleAction::<S>::PenUp,
            ],
            r.needs_redraw(0),
            r.needs_redraw(1),
    {
        DoubleBufferedWindowHandler {
            drawing: Self::turtledraw(program),
            redraw0: true,
            redraw1: true,
        }
    }

    /// A resize invalidates both buffers: each is redrawn on its next turn.
    pub fn window_resized(&mut self)
        ensures
            final(self).drawing_view() == old(self).drawing_view(),
            final(self).needs_redraw(0),
            final(self).needs_redraw(1),
    {
        self.redraw0 = true;
        self.redraw1 = true;
    }

    /// One render call: if the selected buffer is stale, clear it and replay
    /// the whole drawing, else do nothing.
    pub fn render_frame(&mut self, frame_num: u32) -> (plan: FramePlan<S>)
        ensures
            final(self).drawing_view() == old(self).drawing_view(),
            final(self).needs_redraw(1 - slot_of(frame_num)) == old(self).needs_redraw(
                1 - slot_of(frame_num),
            ),
            !final(self).needs_redraw(slot_of(frame_num)),
            old(self).needs_redraw(slot_of(frame_num)) ==> plan.clear && plan.actions@ == old(
                self,
            ).drawing_view(),
            !old(self).needs_redraw(slot_of(frame_num)) ==> !plan.clear && plan.actions@.len()
                == 0,
    {
        let bufnum = frame_num % 2;
        let redraw = if bufnum == 0 {
            self.redraw0
        } else {
            self.redraw1
        };
        if redraw {
            let actions = copy_actions(&self.drawing);
            if bufnum == 0 {
                self.redraw0 = false;
            } else {
                self.redraw1 = false;
            }
            FramePlan { clear: true, actions }
        } else {
            FramePlan { clear: false, actions: Vec::new() }
        }
    }
}

/// The window handler that animates the drawing: per render call it advances
/// the selected buffer by a fixed number of chunks, staggering the two
/// buffers by one chunk so their visible progress interleaves smoothly.
pub struct DoubleBufferedAnimatedWindowHandler<S> {
    init_actions: Vec<TurtleAction<S>>,
    program_actions: Vec<TurtleAction<S>>,
    iter0: TurtleCollectToNextForwardIterator<S>,
    iter1: TurtleCollectToNextForwardIterator<S>,
    lines_per_frame: u64,
    which_frame: WhichFrame,
}

impl<S> DoubleBufferedAnimatedWindowHandler<S> {
    /// The pose-setup actions the machine replays on each warm-up frame.
    pub closed spec fn init_view(&self) -> Seq<TurtleAction<S>> {
        self.init_actions@
    }

    /// The program's whole action sequence.
    pub closed spec fn prog_view(&self) -> Seq<TurtleAction<S>> {
        self.program_actions@
    }

    /// How many chunks each buffer visibly advances per displayed frame.
    pub closed spec fn pace(&self) -> u64 {
        self.lines_per_frame
    }

    /// The warm-up phase the machine is in.
    pub closed spec fn phase(&self) -> WhichFrame {
        self.which_frame
    }

    /// The chunk iterator owned by the given buffer slot.
    pub closed spec fn slot_iter(&self, slot: int) -> TurtleCollectToNextForwardIterator<S> {
        if slot == 0 {
            self.iter0
        } else {
            self.iter1
        }
    }

    #[verifier::type_invariant]
    spec fn type_inv(self) -> bool {
        &&& self.iter0.wf()
        &&& self.iter1.wf()
    }

    /// The state a machine has when nothing has been rendered yet: the very
    /// state a fresh machine for the same program and pace starts in, and
    /// the state a resize returns the machine to.
    pub open spec fn is_pristine_for(
        &self,
        init: Seq<TurtleAction<S>>,
        prog: Seq<TurtleAction<S>>,
        pace: u64,
    ) -> bool {
        &&& self.init_view() == init
        &&& self.prog_view() == prog
        &&& self.pace() == pace
        &&& self.phase() is FirstFrame
        &&& self.slot_iter(0).all_actions().len() == 0
        &&& self.slot_iter(0).cursor() == 0
        &&& self.slot_iter(1).all_actions().len() == 0
        &&& self.slot_iter(1).cursor() == 0
    }
}

impl<S: Copy> DoubleBufferedAnimatedWindowHandler<S> {
    /// A machine that will animate `program`, advancing each buffer by
    /// `lines_per_frame` chunks per displayed frame.
    pub fn new<P: TurtleProgram<S>>(
        program: &P,
        lines_per_frame: u64,
    ) -> (r: DoubleBufferedAnimatedWindowHandler<S>)
        ensures
            r.is_pristine_for(program.init_spec(), program.actions_spec(), lines_per_frame),
    {
        DoubleBufferedAnimatedWindowHandler {
            init_actions: program.init_turtle(),
            program_actions: collect_actions(program),
            iter0: TurtleCollectToNextForwardIterator::new_null_iter(),
            iter1: TurtleCollectToNextForwardIterator::new_null_iter(),
            lines_per_frame,
            which_frame: WhichFrame::FirstFrame,
        }
    }

    /// A resize discards both slots' progress unconditionally and restarts
    /// the warm-up: afterwards the machine is in exactly the state a fresh
    /// machine for the same program and pace would be in, so the next render
    /// call behaves identically to a fresh first-frame call.
    pub fn window_resized(&mut self)
        ensures
            final(self).is_pristine_for(
                old(self).init_view(),
                old(self).prog_view(),
                old(self).pace(),
            ),
    {
        proof {
            use_type_invariant(&*self);
        }
        self.which_frame = WhichFrame::FirstFrame;
        self.iter0 = TurtleCollectToNextForwardIterator::new_null_iter();
        self.iter1 = TurtleCollectToNextForwardIterator::new_null_iter();
    }

    /// One render call for the buffer slot `frame_num` selects.
    ///
    /// The first call clears the slot, replays the pose setup and draws the
    /// first `pace` chunks; the second call does the same on the other slot
    /// but draws one extra chunk, staggering the buffers; every later call
    /// draws the next `2 * pace` chunks of the selected slot — the `pace`
    /// chunks its sibling drew while this slot was off screen, then `pace`
    /// new ones. A slot whose iterator is exhausted simply draws nothing.
    pub fn render_frame(&mut self, frame_num: u32) -> (plan: FramePlan<S>)
        ensures
            final(self).phase() == next_phase(old(self).phase()),
            final(self).init_view() == old(self).init_view(),
            final(self).prog_view() == old(self).prog_view(),
            final(self).pace() == old(self).pace(),
            final(self).slot_iter(1 - slot_of(frame_num)) == old(self).slot_iter(
                1 - slot_of(frame_num),
            ),
            old(self).phase() is FirstFrame ==> {
                &&& plan.clear
                &&& plan.actions@ == old(self).init_view() + taken(
                    old(self).prog_view(),
                    0,
                    old(self).pace() as nat,
                )
                &&& final(self).phase() is SecondFrame
                &&& final(self).slot_iter(slot_of(frame_num)).all_actions() == old(
                    self,
                ).prog_view()
                &&& final(self).slot_iter(slot_of(frame_num)).cursor() == pos_after(
                    old(self).prog_view(),
                    0,
                    old(self).pace() as nat,
                )
            },
            old(self).phase() is SecondFrame ==> {
                &&& plan.clear
                &&& plan.actions@ == old(self).init_view() + taken(
                    old(self).prog_view(),
                    0,
                    (old(self).pace() + 1) as nat,
                )
                &&& final(self).phase() is AllOtherFrames
                &&& final(self).slot_iter(slot_of(frame_num)).all_actions() == old(
                    self,
                ).prog_view()
                &&& final(self).slot_iter(slot_of(frame_num)).cursor() == pos_after(
                    old(self).prog_view(),
                    0,
                    (old(self).pace() + 1) as nat,
                )
            },
            old(self).phase() is AllOtherFrames ==> {
                &&& !plan.clear
                &&& plan.actions@ == taken(
                    old(self).slot_iter(slot_of(frame_num)).all_actions(),
                    old(self).slot_iter(slot_of(frame_num)).cursor(),
                    (2 * old(self).pace()) as nat,
                )
                &&& final(self).phase() is AllOtherFrames
                &&& final(self).slot_iter(slot_of(frame_num)).all_actions() == old(
                    self,
                ).slot_iter(slot_of(frame_num)).all_actions()
                &&& final(self).slot_iter(slot_of(frame_num)).cursor() == pos_after(
                    old(self).slot_iter(slot_of(frame_num)).all_actions(),
                    old(self).slot_iter(slot_of(frame_num)).cursor(),
                    (2 * old(self).pace()) as nat,
                )
            },
    {
        proof {
            use_type_invariant(&*self);
        }
        let bufnum = frame_num % 2;
        match self.which_frame {
            WhichFrame::FirstFrame => {
                let mut actions = copy_actions(&self.init_actions);
                let mut it = TurtleProgramIterator::new(copy_actions(&self.program_actions))
                    .collect_to_next_forward();
                draw_moves(&mut it, self.lines_per_frame, &mut actions);
                if bufnum == 0 {
                    self.iter0 = it;
                } else {
                    self.iter1 = it;
                }
                self.which_frame = WhichFrame::SecondFrame;
                FramePlan { clear: true, actions }
            },
            WhichFrame::SecondFrame => {
                let mut actions = copy_actions(&self.init_actions);
                let mut it = TurtleProgramIterator::new(copy_actions(&self.program_actions))
                    .collect_to_next_forward();
                let ghost prog = self.program_actions@;
                let ghost pace = self.lines_per_frame;
                draw_moves(&mut it, self.lines_per_frame, &mut actions);
                // one extra chunk: the second buffer is one physical frame
                // behind the first and has to catch up by exactly one unit.
                draw_one_move(&mut it, &mut actions);
                proof {
                    crate::turtle::lemma_pos_after_snoc(prog, 0, pace as nat);
                    crate::turtle::lemma_taken_snoc(prog, 0, pace as nat);
                    assert(actions@ =~= self.init_actions@ + taken(
                        prog,
                        0,
                        (pace + 1) as nat,
                    ));
                }
                if bufnum == 0 {
                    self.iter0 = it;
                } else {
                    self.iter1 = it;
                }
                self.which_frame = WhichFrame::AllOtherFrames;
                FramePlan { clear: true, actions }
            },
            WhichFrame::AllOtherFrames => {
                let mut actions: Vec<TurtleAction<S>> = Vec::new();
                let ghost pace = self.lines_per_frame;
                let mut it = TurtleCollectToNextForwardIterator::new_null_iter();
                if bufnum == 0 {
                    core::mem::swap(&mut it, &mut self.iter0);
                } else {
                    core::mem::swap(&mut it, &mut self.iter1);
                }
                let ghost s = it.all_actions();
                let ghost c0 = it.cursor();
                draw_moves(&mut it, self.lines_per_frame, &mut actions);
                draw_moves(&mut it, self.lines_per_frame, &mut actions);
                proof {
                    crate::turtle::lemma_chunks_compose(s, c0, pace as nat, pace as nat);
                    assert(actions@ =~= taken(s, c0, (2 * pace) as nat));
                }
                if bufnum == 0 {
                    core::mem::swap(&mut it, &mut self.iter0);
                } else {
                    core::mem::swap(&mut it, &mut self.iter1);
                }
                FramePlan { clear: false, actions }
            },
        }
    }
}

/// Either turtle window handler, chosen by the animation setting.
pub enum TurtleWindowHandler<S> {
    /// Draw the whole curve onto each buffer in one shot.
    Static(DoubleBufferedWindowHandler<S>),
    /// Advance the drawing a few chunks per frame.
    Animated(DoubleBufferedAnimatedWindowHandler<S>),
}

/// Pick the window handler for a program: `animate == 0` draws the whole
/// curve per buffer at once; a positive value animates that many chunks per
/// frame.
pub fn construct_turtle_window_handler<S: Copy, P: TurtleProgram<S>>(
    program: &P,
    animate: u64,
) -> (r: TurtleWindowHandler<S>)
    ensures
        animate == 0 ==> (r matches TurtleWindowHandler::Static(h) && h.drawing_view()
            == program.init_spec() + program.actions_spec() + seq![TurtleAction::<S>::PenUp]
            && h.needs_redraw(0) && h.needs_redraw(1)),
        animate != 0 ==> (r matches TurtleWindowHandler::Animated(h) && h.is_pristine_for(
            program.init_spec(),
            program.actions_spec(),
            animate,
        )),
{
    match animate {
        0 => TurtleWindowHandler::Static(DoubleBufferedWindowHandler::new(program)),
        _ => TurtleWindowHandler::Animated(
            DoubleBufferedAnimatedWindowHandler::new(program, animate),
        ),
    }
}

} // verus!
