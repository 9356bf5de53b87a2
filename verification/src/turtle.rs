//! The turtle action vocabulary, the capability interface a renderer
//! implements, and the chunked, resumable iteration protocol over actions.
//!
//! A *chunk* is a run of zero or more non-`Forward` actions followed by one
//! `Forward` action (the terminal chunk of a finite program may end without
//! one). Chunks are the unit of animation progress: an animated renderer
//! advances a fixed number of chunks per frame instead of replaying the whole
//! program.

use vstd::prelude::*;

use crate::geometry::Point;

verus! {

/// One inert turtle instruction. Actions are immutable data until a renderer
/// applies them to its turtle state through the [`Turtle`] capability.
#[derive(Clone, Copy, Debug, PartialEq)]
pub enum TurtleAction<S> {
    /// Move by the given distance in the current heading, drawing a line if
    /// the pen is down. The turtle moves even when the pen is up.
    Forward(S),
    /// Jump to the given position without drawing.
    SetPosition(Point<S>),
    /// Face the given absolute heading, in radians.
    SetHeading(S),
    /// Rotate the heading by the given delta, in radians.
    Turn(S),
    /// Lower the pen: subsequent `Forward` actions draw.
    PenDown,
    /// Raise the pen: subsequent `Forward` actions only move.
    PenUp,
}

/// The capability interface a drawing collaborator implements. An
/// implementation owns a turtle state and a rendering sink; `forward` must
/// read the pre-move position, compute the post-move position, draw only if
/// the pen is down, and commit the new position either way.
pub trait Turtle<S> {
    /// Move by `distance` along the current heading.
    fn forward(&mut self, distance: S);

    /// Jump to `new_pos` without drawing.
    fn set_pos(&mut self, new_pos: Point<S>);

    /// Face the absolute heading `new_rad`.
    fn set_rad(&mut self, new_rad: S);

    /// Rotate the heading by `radians`.
    fn turn_rad(&mut self, radians: S);

    /// Lower the pen.
    fn down(&mut self);

    /// Raise the pen.
    fn up(&mut self);

    /// Dispatch one action to the matching capability method.
    fn perform(&mut self, action: TurtleAction<S>) {
        match action {
            TurtleAction::Forward(distance) => self.forward(distance),
            TurtleAction::SetPosition(p) => self.set_pos(p),
            TurtleAction::SetHeading(rad) => self.set_rad(rad),
            TurtleAction::Turn(rad) => self.turn_rad(rad),
            TurtleAction::PenDown => self.down(),
            TurtleAction::PenUp => self.up(),
        }
    }
}

/// Internal state of a turtle: position, heading and pen flag. Owned
/// exclusively by one rendering buffer; the sole carrier of drawing context
/// across actions.
#[derive(Clone, Copy, Debug, PartialEq)]
pub struct TurtleState<S> {
    /// Where the turtle sits.
    pub position: Point<S>,
    /// The heading, in radians.
    pub angle: S,
    /// Whether `Forward` actions draw.
    pub down: bool,
}

impl<S> TurtleState<S> {
    /// A fresh turtle at `position` facing `angle`, with the pen down.
    pub fn new(position: Point<S>, angle: S) -> (r: TurtleState<S>)
        ensures
            r.position == position,
            r.angle == angle,
            r.down,
    {
        TurtleState { position, angle, down: true }
    }
}

/// A turtle program: a starting pose plus a restartable action sequence.
/// Curves implement this either by interpreting a grammar's output or by
/// generating actions directly.
pub trait TurtleProgram<S> {
    /// The pose-setup actions, as a mathematical sequence. Left at its
    /// default, it says nothing: a verified implementation overrides it with
    /// its actual pose setup.
    open spec fn init_spec(&self) -> Seq<TurtleAction<S>> {
        vstd::pervasive::arbitrary()
    }

    /// The program's whole action sequence, as a mathematical sequence.
    /// Left at its default, it says nothing: a verified implementation
    /// overrides it with its actual sequence.
    open spec fn actions_spec(&self) -> Seq<TurtleAction<S>> {
        vstd::pervasive::arbitrary()
    }

    /// The actions that set up the turtle's starting pose, executed once per
    /// buffer before any chunk.
    fn init_turtle(&self) -> (r: Vec<TurtleAction<S>>)
        ensures
            r@ == self.init_spec(),
    ;

    /// A fresh iterator over the program's actions, starting from the
    /// beginning. Each call yields an independent restart.
    fn turtle_program_iter(&self) -> (r: TurtleProgramIterator<S>)
        ensures
            r.all_actions() == self.actions_spec(),
            r.cursor() == 0,
    ;
}

/// A cursor over a program's action sequence, one action at a time.
pub struct TurtleProgramIterator<S> {
    actions: Vec<TurtleAction<S>>,
    pos: usize,
}

impl<S> TurtleProgramIterator<S> {
    #[verifier::type_invariant]
    spec fn type_inv(self) -> bool {
        self.pos <= self.actions@.len()
    }

    /// The whole underlying action sequence.
    pub closed spec fn all_actions(&self) -> Seq<TurtleAction<S>> {
        self.actions@
    }

    /// How many actions have been handed out already.
    pub closed spec fn cursor(&self) -> int {
        self.pos as int
    }

    /// The cursor never leaves the sequence.
    pub open spec fn wf(&self) -> bool {
        0 <= self.cursor() <= self.all_actions().len()
    }
}

impl<S> TurtleProgramIterator<S> {
    /// An iterator positioned at the start of `actions`.
    pub fn new(actions: Vec<TurtleAction<S>>) -> (r: Self)
        ensures
            r.all_actions() == actions@,
            r.cursor() == 0,
    {
        TurtleProgramIterator { actions, pos: 0 }
    }

    /// Wrap the rest of this iterator into the chunked protocol.
    pub fn collect_to_next_forward(self) -> (r: TurtleCollectToNextForwardIterator<S>)
        ensures
            r.all_actions() == self.all_actions(),
            r.cursor() == self.cursor(),
    {
        proof {
            use_type_invariant(&self);
        }
        TurtleCollectToNextForwardIterator { actions: self.actions, pos: self.pos }
    }
}

impl<S: Copy> TurtleProgramIterator<S> {
    /// The next action, or `None` once the sequence is exhausted.
    pub fn next(&mut self) -> (r: Option<TurtleAction<S>>)
        ensures
            final(self).wf(),
            final(self).all_actions() == old(self).all_actions(),
            old(self).cursor() < old(self).all_actions().len() ==> {
                &&& final(self).cursor() == old(self).cursor() + 1
                &&& r == Some(old(self).all_actions()[old(self).cursor()])
            },
            old(self).cursor() == old(self).all_actions().len() ==> {
                &&& final(self).cursor() == old(self).cursor()
                &&& r is None
            },
    {
        proof {
            use_type_invariant(&*self);
        }
        if self.pos < self.actions.len() {
            let a = self.actions[self.pos];
            self.pos = self.pos + 1;
            Some(a)
        } else {
            None
        }
    }
}

/// Where the chunk beginning at `pos` ends: the index just past the first
/// `Forward` action at or after `pos`, or the end of the sequence if no
/// `Forward` remains.
pub open spec fn chunk_end<S>(s: Seq<TurtleAction<S>>, pos: int) -> int
    decreases s.len() - pos,
{
    if pos < 0 || pos >= s.len() {
        pos
    } else if s[pos] is Forward {
        pos + 1
    } else {
        chunk_end(s, pos + 1)
    }
}

/// The cursor after taking `n` chunks starting from `pos`.
pub open spec fn pos_after<S>(s: Seq<TurtleAction<S>>, pos: int, n: nat) -> int
    decreases n,
{
    if n == 0 {
        pos
    } else {
        pos_after(s, chunk_end(s, pos), (n - 1) as nat)
    }
}

/// The actions of the first `n` chunks starting from `pos`, concatenated in
/// order.
pub open spec fn taken<S>(s: Seq<TurtleAction<S>>, pos: int, n: nat) -> Seq<TurtleAction<S>>
    decreases n,
{
    if n == 0 {
        Seq::empty()
    } else {
        s.subrange(pos, chunk_end(s, pos)) + taken(s, chunk_end(s, pos), (n - 1) as nat)
    }
}

/// A chunk boundary never moves backwards, never runs past the end, and a
/// non-empty rest always yields a non-empty chunk.
pub proof fn lemma_chunk_end_bounds<S>(s: Seq<TurtleAction<S>>, pos: int)
    requires
        0 <= pos <= s.len(),
    ensures
        pos <= chunk_end(s, pos) <= s.len(),
        pos < s.len() ==> pos + 1 <= chunk_end(s, pos),
    decreases s.len() - pos,
{
    if pos < s.len() && !(s[pos] is Forward) {
        lemma_chunk_end_bounds(s, pos + 1);
    }
}

/// Taking chunks keeps the cursor within the sequence.
pub proof fn lemma_pos_after_bounds<S>(s: Seq<TurtleAction<S>>, pos: int, n: nat)
    requires
        0 <= pos <= s.len(),
    ensures
        pos <= pos_after(s, pos, n) <= s.len(),
    decreases n,
{
    if n > 0 {
        lemma_chunk_end_bounds(s, pos);
        lemma_pos_after_bounds(s, chunk_end(s, pos), (n - 1) as nat);
    }
}

/// Taking one more chunk moves the cursor to the next chunk boundary.
pub proof fn lemma_pos_after_snoc<S>(s: Seq<TurtleAction<S>>, pos: int, n: nat)
    ensures
        pos_after(s, pos, n + 1) == chunk_end(s, pos_after(s, pos, n)),
    decreases n,
{
    reveal_with_fuel(pos_after, 2);
    if n > 0 {
        lemma_pos_after_snoc(s, chunk_end(s, pos), (n - 1) as nat);
    }
}

/// Taking one more chunk appends exactly that chunk's actions.
pub proof fn lemma_taken_snoc<S>(s: Seq<TurtleAction<S>>, pos: int, n: nat)
    ensures
        taken(s, pos, n + 1) == taken(s, pos, n) + s.subrange(
            pos_after(s, pos, n),
            chunk_end(s, pos_after(s, pos, n)),
        ),
    decreases n,
{
    reveal_with_fuel(taken, 2);
    reveal_with_fuel(pos_after, 2);
    if n > 0 {
        lemma_taken_snoc(s, chunk_end(s, pos), (n - 1) as nat);
    }
}

/// Taking `m + n` chunks is taking `m`, then `n` more from where they left
/// off.
pub proof fn lemma_chunks_compose<S>(s: Seq<TurtleAction<S>>, pos: int, m: nat, n: nat)
    ensures
        pos_after(s, pos, m + n) == pos_after(s, pos_after(s, pos, m), n),
        taken(s, pos, m + n) == taken(s, pos, m) + taken(s, pos_after(s, pos, m), n),
    decreases m,
{
    if m == 0 {
        assert(taken(s, pos, n) =~= taken(s, pos, 0) + taken(s, pos, n));
    } else {
        lemma_chunks_compose(s, chunk_end(s, pos), (m - 1) as nat, n);
        assert(taken(s, pos, m + n) =~= taken(s, pos, m) + taken(s, pos_after(s, pos, m), n));
    }
}

/// Since every chunk but a trailing empty one is non-empty, enough chunks
/// always reach the end of the sequence.
pub proof fn lemma_pos_after_saturates<S>(s: Seq<TurtleAction<S>>, pos: int, n: nat)
    requires
        0 <= pos <= s.len(),
        n >= s.len() - pos,
    ensures
        pos_after(s, pos, n) == s.len(),
    decreases n,
{
    if pos == s.len() {
        if n > 0 {
            lemma_pos_after_saturates(s, pos, (n - 1) as nat);
        }
    } else {
        lemma_chunk_end_bounds(s, pos);
        lemma_pos_after_saturates(s, chunk_end(s, pos), (n - 1) as nat);
    }
}

/// The actions of the first `n` chunks are exactly the slice of the sequence
/// up to the cursor those chunks reach: chunking neither reorders, drops nor
/// duplicates actions.
pub proof fn lemma_taken_is_subrange<S>(s: Seq<TurtleAction<S>>, pos: int, n: nat)
    requires
        0 <= pos <= s.len(),
    ensures
        taken(s, pos, n) == s.subrange(pos, pos_after(s, pos, n)),
    decreases n,
{
    if n == 0 {
        assert(taken(s, pos, n) =~= s.subrange(pos, pos));
    } else {
        lemma_chunk_end_bounds(s, pos);
        lemma_taken_is_subrange(s, chunk_end(s, pos), (n - 1) as nat);
        lemma_pos_after_bounds(s, chunk_end(s, pos), (n - 1) as nat);
        assert(taken(s, pos, n) =~= s.subrange(pos, pos_after(s, pos, n)));
    }
}

/// Chunk decomposition is order-preserving and total: concatenating the
/// actions of all chunks of a finite action sequence, in order, reproduces
/// exactly that sequence. Any chunk count at least the sequence's length is
/// enough to exhaust it.
pub proof fn lemma_chunks_reassemble<S>(s: Seq<TurtleAction<S>>, n: nat)
    requires
        n >= s.len(),
    ensures
        pos_after(s, 0, n) == s.len(),
        taken(s, 0, n) == s,
    decreases n,
{
    lemma_pos_after_saturates(s, 0, n);
    lemma_taken_is_subrange(s, 0, n);
    assert(s.subrange(0, s.len() as int) =~= s);
}

/// The chunked view of an action sequence: hands out one chunk per call,
/// each ending just after a `Forward` action, and `None` once the sequence
/// is exhausted.
pub struct TurtleCollectToNextForwardIterator<S> {
    actions: Vec<TurtleAction<S>>,
    pos: usize,
}

impl<S> TurtleCollectToNextForwardIterator<S> {
    #[verifier::type_invariant]
    spec fn type_inv(self) -> bool {
        self.pos <= self.actions@.len()
    }

    /// The whole underlying action sequence.
    pub closed spec fn all_actions(&self) -> Seq<TurtleAction<S>> {
        self.actions@
    }

    /// How far into the sequence the iterator has advanced.
    pub closed spec fn cursor(&self) -> int {
        self.pos as int
    }

    /// Whether no chunk remains.
    pub open spec fn is_exhausted(&self) -> bool {
        self.cursor() == self.all_actions().len()
    }

    /// The cursor never leaves the sequence.
    pub open spec fn wf(&self) -> bool {
        0 <= self.cursor() <= self.all_actions().len()
    }

    /// An iterator over no actions at all: it yields no chunks from its very
    /// first call. Used to seed a buffer slot before any program has started.
    pub fn new_null_iter() -> (r: Self)
        ensures
            r.all_actions().len() == 0,
            r.cursor() == 0,
            r.is_exhausted(),
    {
        TurtleCollectToNextForwardIterator { actions: Vec::new(), pos: 0 }
    }
}

impl<S: Copy> TurtleCollectToNextForwardIterator<S> {
    /// The next chunk: all actions up to and including the next `Forward`
    /// (the last chunk may end without one), or `None` once exhausted.
    pub fn next(&mut self) -> (r: Option<Vec<TurtleAction<S>>>)
        ensures
            final(self).wf(),
            final(self).all_actions() == old(self).all_actions(),
            final(self).cursor() == chunk_end(old(self).all_actions(), old(self).cursor()),
            old(self).is_exhausted() ==> r is None && final(self).cursor() == old(self).cursor(),
            !old(self).is_exhausted() ==> (r matches Some(c) && c@ == old(self).all_actions()
                .subrange(old(self).cursor(), final(self).cursor())),
    {
        proof {
            use_type_invariant(&*self);
        }
        if self.pos == self.actions.len() {
            return None;
        }
        let ghost s = self.actions@;
        let ghost start: int = self.pos as int;
        let mut chunk: Vec<TurtleAction<S>> = Vec::new();
        while self.pos < self.actions.len()
            invariant_except_break
                chunk_end(s, start) == chunk_end(s, self.pos as int),
            invariant
                self.actions@ == s,
                0 <= start <= self.pos <= s.len(),
                chunk@ == s.subrange(start, self.pos as int),
            ensures
                self.pos == chunk_end(s, start),
                chunk@ == s.subrange(start, self.pos as int),
            decreases s.len() - self.pos,
        {
            let a = self.actions[self.pos];
            chunk.push(a);
            self.pos = self.pos + 1;
            proof {
                assert(chunk@ =~= s.subrange(start, self.pos as int));
            }
            if let TurtleAction::Forward(_) = a {
                break;
            }
        }
        Some(chunk)
    }
}

} // verus!
