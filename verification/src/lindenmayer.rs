//! The grammar rewriting generator (Lindenmayer system) and the glue that
//! turns a grammar's output into a turtle program.
//!
//! A Lindenmayer system is given by a finite alphabet (an enumerated type),
//! an initial symbol sequence, and a total rewrite rule from symbols to
//! symbol sequences. Generation zero is the initial sequence; generation
//! `k + 1` rewrites every symbol of generation `k` in order and concatenates
//! the results.

use vstd::prelude::*;

use core::marker::PhantomData;

use crate::turtle::{TurtleAction, TurtleProgram, TurtleProgramIterator};

verus! {

/// A Lindenmayer system over the alphabet `A`. The rewrite rule is total:
/// every symbol maps to some sequence (if only to itself), so rewriting one
/// generation always terminates.
pub trait LindenmayerSystem<A: Copy>: Sized {
    /// The initial sequence (generation zero), as a mathematical sequence.
    /// Left at its default, it says nothing: a verified implementation
    /// overrides it with its actual initial sequence.
    open spec fn initial_spec() -> Seq<A> {
        vstd::pervasive::arbitrary()
    }

    /// The rewrite of one symbol, as a mathematical sequence. Left at its
    /// default, it says nothing: a verified implementation overrides it with
    /// its actual rule.
    open spec fn rule_spec(symbol: A) -> Seq<A> {
        vstd::pervasive::arbitrary()
    }

    /// The initial Lindenmayer system string (iteration 0).
    fn initial() -> (r: Vec<A>)
        ensures
            r@ == Self::initial_spec(),
    ;

    /// Apply the system's rewrite rule to one symbol.
    fn apply_rule(symbol: A) -> (r: Vec<A>)
        ensures
            r@ == Self::rule_spec(symbol),
    ;
}

/// The generation step shared by every Lindenmayer system; implemented once,
/// below, for all of them.
pub trait LindenmayerGenerate<A: Copy>: LindenmayerSystem<A> {
    /// Generate the system's string for `iteration`: start from the initial
    /// sequence and rewrite it `iteration` times. The result is a fresh
    /// vector holding exactly the sequence of that generation.
    fn generate(iteration: u64) -> (r: Vec<A>)
        ensures
            r@ == generate_spec::<Self, A>(iteration as nat),
    ;
}

impl<L: LindenmayerSystem<A>, A: Copy> LindenmayerGenerate<A> for L {
    fn generate(iteration: u64) -> (r: Vec<A>) {
        let mut lstr: Vec<A> = Self::initial();
        let mut i: u64 = 0;
        while i < iteration
            invariant
                i <= iteration,
                lstr@ == generate_spec::<L, A>(i as nat),
            decreases iteration - i,
        {
            i = i + 1;
            let mut newlstr: Vec<A> = Vec::new();
            let mut j: usize = 0;
            while j < lstr.len()
                invariant
                    j <= lstr.len(),
                    newlstr@ == rewrite_seq::<L, A>(lstr@.subrange(0, j as int)),
                decreases lstr.len() - j,
            {
                let mut production = Self::apply_rule(lstr[j]);
                let ghost prefix: Seq<A> = lstr@.subrange(0, j as int);
                newlstr.append(&mut production);
                proof {
                    lemma_rewrite_seq_snoc::<L, A>(prefix, lstr@[j as int]);
                    assert(prefix.push(lstr@[j as int]) =~= lstr@.subrange(0, j + 1));
                }
                j = j + 1;
            }
            proof {
                assert(lstr@.subrange(0, lstr@.len() as int) =~= lstr@);
                reveal_with_fuel(generate_spec, 2);
            }
            lstr = newlstr;
        }
        lstr
    }
}

/// The rewrite of a whole sequence: each symbol's rewrite, concatenated in
/// order.
pub open spec fn rewrite_seq<L: LindenmayerSystem<A>, A: Copy>(s: Seq<A>) -> Seq<A>
    decreases s.len(),
{
    if s.len() == 0 {
        Seq::empty()
    } else {
        L::rule_spec(s[0]) + rewrite_seq::<L, A>(s.subrange(1, s.len() as int))
    }
}

/// The sequence of generation `k`: the initial sequence rewritten `k` times.
pub open spec fn generate_spec<L: LindenmayerSystem<A>, A: Copy>(k: nat) -> Seq<A>
    decreases k,
{
    if k == 0 {
        L::initial_spec()
    } else {
        rewrite_seq::<L, A>(generate_spec::<L, A>((k - 1) as nat))
    }
}

/// The sum, over the symbols of `s`, of the length of each symbol's rewrite.
pub open spec fn rewrite_len_sum<L: LindenmayerSystem<A>, A: Copy>(s: Seq<A>) -> nat
    decreases s.len(),
{
    if s.len() == 0 {
        0
    } else {
        L::rule_spec(s[0]).len() + rewrite_len_sum::<L, A>(s.subrange(1, s.len() as int))
    }
}

/// Rewriting a sequence extended by one symbol appends that symbol's rewrite.
pub proof fn lemma_rewrite_seq_snoc<L: LindenmayerSystem<A>, A: Copy>(s: Seq<A>, x: A)
    ensures
        rewrite_seq::<L, A>(s.push(x)) == rewrite_seq::<L, A>(s) + L::rule_spec(x),
    decreases s.len(),
{
    reveal_with_fuel(rewrite_seq, 2);
    let t = s.push(x);
    if s.len() == 0 {
        assert(t.subrange(1, t.len() as int) =~= Seq::<A>::empty());
        assert(rewrite_seq::<L, A>(s.push(x)) =~= rewrite_seq::<L, A>(s) + L::rule_spec(x));
    } else {
        assert(t.subrange(1, t.len() as int) =~= s.subrange(1, s.len() as int).push(x));
        lemma_rewrite_seq_snoc::<L, A>(s.subrange(1, s.len() as int), x);
        assert(rewrite_seq::<L, A>(s.push(x)) =~= rewrite_seq::<L, A>(s) + L::rule_spec(x));
    }
}

/// The length of a rewritten sequence is the sum of its symbols' rewrite
/// lengths.
pub proof fn lemma_rewrite_seq_len<L: LindenmayerSystem<A>, A: Copy>(s: Seq<A>)
    ensures
        rewrite_seq::<L, A>(s).len() == rewrite_len_sum::<L, A>(s),
    decreases s.len(),
{
    if s.len() > 0 {
        lemma_rewrite_seq_len::<L, A>(s.subrange(1, s.len() as int));
    }
}

/// For every grammar and every iteration `k`, the length of generation
/// `k + 1` equals the sum, over the symbols of generation `k`, of the length
/// of each symbol's rewrite.
pub proof fn lemma_generation_length<L: LindenmayerSystem<A>, A: Copy>(k: nat)
    ensures
        generate_spec::<L, A>(k + 1).len() == rewrite_len_sum::<L, A>(generate_spec::<L, A>(k)),
{
    reveal_with_fuel(generate_spec, 2);
    lemma_rewrite_seq_len::<L, A>(generate_spec::<L, A>(k));
}

/// Generation zero is the declared initial sequence, unmodified.
pub proof fn lemma_generation_zero<L: LindenmayerSystem<A>, A: Copy>()
    ensures
        generate_spec::<L, A>(0) == L::initial_spec(),
{
}

/// What a drawing needs beyond the grammar itself: which iteration to draw,
/// how to pose the turtle before drawing, and how to turn each symbol into
/// turtle actions. Each curve supplies its own formulas through this
/// interface.
pub trait LindenmayerSystemDrawingParameters<A: Copy, S>: Sized {
    /// The iteration to draw, as a mathematical value. Left at its default,
    /// it says nothing: a verified implementation overrides it.
    open spec fn iteration_spec(&self) -> u64 {
        vstd::pervasive::arbitrary()
    }

    /// The pose-setup actions, as a mathematical sequence. Left at its
    /// default, it says nothing: a verified implementation overrides it.
    open spec fn initialize_spec(&self) -> Seq<TurtleAction<S>> {
        vstd::pervasive::arbitrary()
    }

    /// The interpretation of one symbol, as a mathematical sequence. Left
    /// at its default, it says nothing: a verified implementation overrides
    /// it.
    open spec fn interpret_spec(&self, symbol: A) -> Seq<TurtleAction<S>> {
        vstd::pervasive::arbitrary()
    }

    /// The iteration that should be drawn.
    fn iteration(&self) -> (r: u64)
        ensures
            r == self.iteration_spec(),
    ;

    /// Set up the turtle's initial position and direction. Most curves have
    /// a formula for the starting pose that keeps the whole curve within the
    /// viewing space.
    fn initialize_turtle(&self) -> (r: Vec<TurtleAction<S>>)
        ensures
            r@ == self.initialize_spec(),
    ;

    /// Convert one symbol into turtle actions (possibly none).
    fn interpret_symbol(&self, symbol: A) -> (r: Vec<TurtleAction<S>>)
        ensures
            r@ == self.interpret_spec(symbol),
    ;
}

/// The interpretation of a whole symbol sequence: each symbol's actions,
/// concatenated in order.
pub open spec fn interpret_all<
    L: LindenmayerSystemDrawingParameters<A, S>,
    A: Copy,
    S,
>(sys: L, s: Seq<A>) -> Seq<TurtleAction<S>>
    decreases s.len(),
{
    if s.len() == 0 {
        Seq::empty()
    } else {
        sys.interpret_spec(s[0]) + interpret_all(sys, s.subrange(1, s.len() as int))
    }
}

/// Interpreting a sequence extended by one symbol appends that symbol's
/// actions.
pub proof fn lemma_interpret_all_snoc<
    L: LindenmayerSystemDrawingParameters<A, S>,
    A: Copy,
    S,
>(sys: L, s: Seq<A>, x: A)
    ensures
        interpret_all(sys, s.push(x)) == interpret_all(sys, s) + sys.interpret_spec(x),
    decreases s.len(),
{
    reveal_with_fuel(interpret_all, 2);
    let t = s.push(x);
    if s.len() == 0 {
        assert(t.subrange(1, t.len() as int) =~= Seq::<A>::empty());
        assert(interpret_all(sys, s.push(x)) =~= interpret_all(sys, s) + sys.interpret_spec(x));
    } else {
        assert(t.subrange(1, t.len() as int) =~= s.subrange(1, s.len() as int).push(x));
        lemma_interpret_all_snoc(sys, s.subrange(1, s.len() as int), x);
        assert(interpret_all(sys, s.push(x)) =~= interpret_all(sys, s) + sys.interpret_spec(x));
    }
}

/// The glue that makes a turtle program out of a Lindenmayer system: it
/// generates the grammar's sequence for the configured iteration and maps
/// each symbol to turtle actions through the system's drawing parameters.
pub struct LindenmayerSystemTurtleApp<L, A, S> where
    L: LindenmayerSystem<A> + LindenmayerSystemDrawingParameters<A, S>,
    A: Copy,
{
    /// The grammar together with its drawing parameters.
    pub system: L,
    /// The alphabet and scalar types appear only through `system`'s trait
    /// impls, never as data.
    pub marker: PhantomData<(A, S)>,
}

impl<L, A, S> LindenmayerSystemTurtleApp<L, A, S> where
    L: LindenmayerSystem<A> + LindenmayerSystemDrawingParameters<A, S>,
    A: Copy,
{
    /// Wrap a system (with its drawing parameters) as a turtle program.
    pub fn new(system: L) -> (r: LindenmayerSystemTurtleApp<L, A, S>)
        ensures
            r.system == system,
    {
        LindenmayerSystemTurtleApp { system, marker: PhantomData }
    }
}

impl<L, A, S> TurtleProgram<S> for LindenmayerSystemTurtleApp<L, A, S> where
    L: LindenmayerSystem<A> + LindenmayerSystemDrawingParameters<A, S>,
    A: Copy,
{
    /// The curve's own pose setup, followed by lowering the pen.
    open spec fn init_spec(&self) -> Seq<TurtleAction<S>> {
        self.system.initialize_spec().push(TurtleAction::PenDown)
    }

    /// The interpretation of the generated sequence at the configured
    /// iteration.
    open spec fn actions_spec(&self) -> Seq<TurtleAction<S>> {
        interpret_all(
            self.system,
            generate_spec::<L, A>(self.system.iteration_spec() as nat),
        )
    }

    fn init_turtle(&self) -> (r: Vec<TurtleAction<S>>) {
        let mut r = self.system.initialize_turtle();
        r.push(TurtleAction::PenDown);
        r
    }

    fn turtle_program_iter(&self) -> (r: TurtleProgramIterator<S>) {
        let sequence = L::generate(self.system.iteration());
        let mut actions: Vec<TurtleAction<S>> = Vec::new();
        let mut j: usize = 0;
        while j < sequence.len()
            invariant
                j <= sequence.len(),
                sequence@ == generate_spec::<L, A>(self.system.iteration_spec() as nat),
                actions@ == interpret_all(self.system, sequence@.subrange(0, j as int)),
            decreases sequence.len() - j,
        {
            let mut symbol_actions = self.system.interpret_symbol(sequence[j]);
            let ghost prefix: Seq<A> = sequence@.subrange(0, j as int);
            actions.append(&mut symbol_actions);
            proof {
                lemma_interpret_all_snoc(self.system, prefix, sequence@[j as int]);
                assert(prefix.push(sequence@[j as int]) =~= sequence@.subrange(0, j + 1));
            }
            j = j + 1;
        }
        proof {
            assert(sequence@.subrange(0, sequence@.len() as int) =~= sequence@);
        }
        TurtleProgramIterator::new(actions)
    }
}

} // verus!
