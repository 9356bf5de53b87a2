//! The program registry and the native (grammar-free) dragon curve
//! generator.
//!
//! The registry resolves a curve name to the curve it names and validates
//! the requested iteration against that curve's domain; the caller then
//! builds the concrete turtle program, supplying the curve's geometric
//! formulas (starting pose, segment length, turn angles), which are the
//! renderer's business.

use vstd::prelude::*;

use vstd::string::StrSliceExecFns;

use crate::turtle::TurtleAction;

verus! {

/// Why constructing a program failed. Construction errors surface once, at
/// setup, and never occur mid-render.
#[derive(Clone, Copy, Debug, PartialEq, Eq, Structural)]
pub enum ConstructionError {
    /// The requested curve name is not in the registry.
    UnknownCurve,
    /// The iteration count is outside the requested curve's valid domain.
    IterationOutOfRange,
}

/// Every curve the registry knows.
#[derive(Clone, Copy, Debug, PartialEq, Eq, Structural)]
pub enum CurveKind {
    /// The Cesàro fractal, grammar-backed.
    Cesaro,
    /// The triangle Cesàro variant, grammar-backed.
    CesaroTri,
    /// The dragon curve, generated natively (no grammar).
    Dragon,
    /// The Koch curve, grammar-backed.
    KochCurve,
    /// The Lévy C curve, grammar-backed.
    LevyCCurve,
    /// The terdragon, grammar-backed.
    Terdragon,
}

/// A validated program request: which curve to draw and at which iteration.
#[derive(Clone, Copy, Debug, PartialEq, Eq, Structural)]
pub struct ProgramSelection {
    /// The curve to draw.
    pub kind: CurveKind,
    /// The iteration to draw it at.
    pub iterations: u64,
}

/// The curve a name denotes, if any.
pub open spec fn curve_for_name(name: Seq<char>) -> Option<CurveKind> {
    if name == "cesaro"@ {
        Some(CurveKind::Cesaro)
    } else if name == "cesarotri"@ {
        Some(CurveKind::CesaroTri)
    } else if name == "dragon"@ {
        Some(CurveKind::Dragon)
    } else if name == "kochcurve"@ {
        Some(CurveKind::KochCurve)
    } else if name == "levyccurve"@ {
        Some(CurveKind::LevyCCurve)
    } else if name == "terdragon"@ {
        Some(CurveKind::Terdragon)
    } else {
        None
    }
}

/// Whether two strings hold exactly the same characters.
fn str_eq(a: &str, b: &str) -> (r: bool)
    ensures
        r == (a@ == b@),
{
    let alen = a.unicode_len();
    let blen = b.unicode_len();
    if alen != blen {
        return false;
    }
    let mut i: usize = 0;
    while i < alen
        invariant
            i <= alen,
            alen == a@.len(),
            alen == b@.len(),
            forall|t: int| 0 <= t < i ==> a@[t] == b@[t],
        decreases alen - i,
    {
        if a.get_char(i) != b.get_char(i) {
            return false;
        }
        i = i + 1;
    }
    proof {
        assert(a@ =~= b@);
    }
    true
}

/// Resolve a curve name and iteration to a validated program request.
/// Returns the matching curve for each of the six registered names, the
/// domain error when the dragon curve's iteration bound is exceeded, and
/// the unknown-curve error for every other name.
pub fn construct_program(program_name: &str, iterations: u64) -> (r: Result<
    ProgramSelection,
    ConstructionError,
>)
    ensures
        match curve_for_name(program_name@) {
            Some(kind) => {
                if kind is Dragon && iterations > MAX_DRAGON_ITERATIONS {
                    r == Err::<ProgramSelection, ConstructionError>(
                        ConstructionError::IterationOutOfRange,
                    )
                } else {
                    r == Ok::<ProgramSelection, ConstructionError>(
                        ProgramSelection { kind, iterations },
                    )
                }
            },
            None => r == Err::<ProgramSelection, ConstructionError>(
                ConstructionError::UnknownCurve,
            ),
        },
{
    let kind = if str_eq(program_name, "cesaro") {
        CurveKind::Cesaro
    } else if str_eq(program_name, "cesarotri") {
        CurveKind::CesaroTri
    } else if str_eq(program_name, "dragon") {
        CurveKind::Dragon
    } else if str_eq(program_name, "kochcurve") {
        CurveKind::KochCurve
    } else if str_eq(program_name, "levyccurve") {
        CurveKind::LevyCCurve
    } else if str_eq(program_name, "terdragon") {
        CurveKind::Terdragon
    } else {
        return Err(ConstructionError::UnknownCurve);
    };
    if let CurveKind::Dragon = kind {
        if iterations > MAX_DRAGON_ITERATIONS {
            return Err(ConstructionError::IterationOutOfRange);
        }
    }
    Ok(ProgramSelection { kind, iterations })
}

/// The dragon curve's largest accepted iteration: the curve of iteration
/// `k` has `pow2(k)` segments, and that count must fit the 64-bit counters
/// the generator works with.
pub const MAX_DRAGON_ITERATIONS: u64 = 63;

/// The reversal of `s` with every turn flipped: what unfolding a paper strip
/// appends to the crease sequence.
pub open spec fn flip_reverse(s: Seq<bool>) -> Seq<bool> {
    Seq::new(s.len(), |i: int| !s[s.len() - 1 - i])
}

/// The dragon curve's turn sequence after `k` folds: empty at first, and
/// each fold appends one left turn followed by the flipped reversal of what
/// came before.
pub open spec fn dragon_turns_spec(k: nat) -> Seq<bool>
    decreases k,
{
    if k == 0 {
        Seq::empty()
    } else {
        let prev = dragon_turns_spec((k - 1) as nat);
        prev + seq![true] + flip_reverse(prev)
    }
}

/// The drawing of a dragon curve as actions: one first segment, then for
/// every turn a left or right rotation followed by the next segment.
pub open spec fn dragon_actions_spec<S>(
    turns: Seq<bool>,
    step: S,
    left: S,
    right: S,
) -> Seq<TurtleAction<S>>
    decreases turns.len(),
{
    if turns.len() == 0 {
        seq![TurtleAction::Forward(step)]
    } else {
        dragon_actions_spec(turns.drop_last(), step, left, right) + seq![
            TurtleAction::Turn(if turns.last() { left } else { right }),
            TurtleAction::Forward(step),
        ]
    }
}

/// The dragon curve, generated directly by its paper-folding pattern rather
/// than through a symbol alphabet.
#[derive(Clone, Copy, Debug, PartialEq, Eq, Structural)]
pub struct DragonFractal {
    iterations: u64,
}

impl DragonFractal {
    /// The iteration this curve draws.
    pub closed spec fn iterations(&self) -> u64 {
        self.iterations
    }

    /// A dragon curve at the given iteration; rejected beyond the
    /// generator's iteration bound.
    pub fn new(iterations: u64) -> (r: Result<DragonFractal, ConstructionError>)
        ensures
            iterations <= MAX_DRAGON_ITERATIONS ==> (r matches Ok(d) && d.iterations()
                == iterations),
            iterations > MAX_DRAGON_ITERATIONS ==> r == Err::<DragonFractal, ConstructionError>(
                ConstructionError::IterationOutOfRange,
            ),
    {
        if iterations > MAX_DRAGON_ITERATIONS {
            Err(ConstructionError::IterationOutOfRange)
        } else {
            Ok(DragonFractal { iterations })
        }
    }

    /// The curve's turn sequence: one entry per crease, `true` for a left
    /// turn and `false` for a right turn.
    pub fn turn_sequence(&self) -> (r: Vec<bool>)
        ensures
            r@ == dragon_turns_spec(self.iterations() as nat),
    {
        let mut turns: Vec<bool> = Vec::new();
        let mut i: u64 = 0;
        while i < self.iterations
            invariant
                i <= self.iterations,
                turns@ == dragon_turns_spec(i as nat),
            decreases self.iterations - i,
        {
            let ghost prev = turns@;
            let n = turns.len();
            let mut next: Vec<bool> = Vec::new();
            let mut j: usize = 0;
            while j < n
                invariant
                    j <= n,
                    n == turns.len(),
                    next@ == turns@.subrange(0, j as int),
                decreases n - j,
            {
                next.push(turns[j]);
                proof {
                    assert(next@ =~= turns@.subrange(0, j + 1));
                }
                j = j + 1;
            }
            proof {
                assert(turns@.subrange(0, n as int) =~= turns@);
            }
            next.push(true);
            let mut m: usize = n;
            while m > 0
                invariant
                    m <= n,
                    n == turns.len(),
                    turns@ == prev,
                    next@ == prev + seq![true] + Seq::new(
                        (n - m) as nat,
                        |t: int| !prev[n - 1 - t],
                    ),
                decreases m,
            {
                m = m - 1;
                next.push(!turns[m]);
                proof {
                    assert(next@ =~= prev + seq![true] + Seq::new(
                        (n - m) as nat,
                        |t: int| !prev[n - 1 - t],
                    ));
                }
            }
            proof {
                assert(Seq::new(n as nat, |t: int| !prev[n - 1 - t]) =~= flip_reverse(prev));
                assert(next@ =~= dragon_turns_spec((i + 1) as nat));
            }
            turns = next;
            i = i + 1;
        }
        turns
    }

    /// The actions that draw the curve, given the renderer's scalar values:
    /// the segment length and the two turn angles (a quarter turn each way).
    pub fn actions<S: Copy>(&self, step: S, left: S, right: S) -> (r: Vec<TurtleAction<S>>)
        ensures
            r@ == dragon_actions_spec(
                dragon_turns_spec(self.iterations() as nat),
                step,
                left,
                right,
            ),
    {
        let turns = self.turn_sequence();
        let mut r: Vec<TurtleAction<S>> = Vec::new();
        r.push(TurtleAction::Forward(step));
        let mut i: usize = 0;
        while i < turns.len()
            invariant
                i <= turns.len(),
                turns@ == dragon_turns_spec(self.iterations() as nat),
                r@ == dragon_actions_spec(turns@.subrange(0, i as int), step, left, right),
            decreases turns.len() - i,
        {
            let t = turns[i];
            if t {
                r.push(TurtleAction::Turn(left));
            } else {
                r.push(TurtleAction::Turn(right));
            }
            r.push(TurtleAction::Forward(step));
            proof {
                let pre = turns@.subrange(0, i as int);
                let cur = turns@.subrange(0, i + 1);
                assert(cur.drop_last() =~= pre);
                assert(r@ =~= dragon_actions_spec(cur, step, left, right));
            }
            i = i + 1;
        }
        proof {
            assert(turns@.subrange(0, turns@.len() as int) =~= turns@);
        }
        r
    }
}

} // verus!
