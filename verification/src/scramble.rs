//! Scrambles: random move sequences that are applied to a puzzle before an
//! attempt.
//!
//! A scramble of the cube is twenty moves, no two neighbours on the same
//! face, written in the usual notation and joined by single spaces.

use rand::rngs::ThreadRng;
use vstd::prelude::*;

verus! {

/// The puzzles that scrambles can be made for.
#[derive(Debug, Clone, Copy, PartialEq, Eq, Structural)]
pub enum Puzzle {
    /// The cube with three layers.
    Cube3x3,
}

/// A face of the cube.
#[derive(Debug, Clone, Copy, PartialEq, Eq, Structural)]
pub enum Face {
    R,
    L,
    U,
    D,
    F,
    B,
}

/// How a face is turned.
#[derive(Debug, Clone, Copy, PartialEq, Eq, Structural)]
pub enum Modifier {
    /// A quarter turn clockwise.
    Plain,
    /// A quarter turn counter-clockwise.
    Prime,
    /// A half turn.
    Double,
}

/// One move: a face and how it is turned.
#[derive(Debug, Clone, Copy, PartialEq, Eq, Structural)]
pub struct Move {
    pub face: Face,
    pub modifier: Modifier,
}

/// The moves of a cube scramble.
pub const CUBE3X3_MOVES: usize = 20;

/// The faces of the cube.
pub const FACES: usize = 6;

/// The ways to turn a face.
pub const MODIFIERS: usize = 3;

/// How often a face is drawn again, because it is the face of the move
/// before, until a face is drawn among the other five directly.
pub const REDRAWS: u32 = 1_000_000;

impl Face {
    /// The place of the face in the order R, L, U, D, F, B.
    pub open spec fn index(self) -> int {
        match self {
            Face::R => 0,
            Face::L => 1,
            Face::U => 2,
            Face::D => 3,
            Face::F => 4,
            Face::B => 5,
        }
    }

    /// The letter that stands for the face.
    pub open spec fn letter(self) -> char {
        match self {
            Face::R => 'R',
            Face::L => 'L',
            Face::U => 'U',
            Face::D => 'D',
            Face::F => 'F',
            Face::B => 'B',
        }
    }

    /// The face at place `index`.
    pub fn at(index: usize) -> (face: Face)
        requires
            index < FACES,
        ensures
            face.index() == index,
    {
        if index == 0 {
            Face::R
        } else if index == 1 {
            Face::L
        } else if index == 2 {
            Face::U
        } else if index == 3 {
            Face::D
        } else if index == 4 {
            Face::F
        } else {
            Face::B
        }
    }

    /// The place of the face.
    pub fn place(&self) -> (index: usize)
        ensures
            index == self.index(),
            index < FACES,
    {
        match *self {
            Face::R => 0,
            Face::L => 1,
            Face::U => 2,
            Face::D => 3,
            Face::F => 4,
            Face::B => 5,
        }
    }

    /// The face that stands `step` places behind this one, counting on
    /// from the first face after the last. With a step of one to five that
    /// is each of the other faces once.
    pub fn other(&self, step: usize) -> (face: Face)
        requires
            1 <= step < FACES,
        ensures
            face.index() == (self.index() + step) % (FACES as int),
            face != *self,
    {
        Face::at((self.place() + step) % FACES)
    }

    /// The letter of the face, as text.
    pub fn text(&self) -> (text: &'static str)
        ensures
            text@ == seq![self.letter()],
    {
        proof {
            reveal_strlit("R");
            reveal_strlit("L");
            reveal_strlit("U");
            reveal_strlit("D");
            reveal_strlit("F");
            reveal_strlit("B");
        }
        match *self {
            Face::R => "R",
            Face::L => "L",
            Face::U => "U",
            Face::D => "D",
            Face::F => "F",
            Face::B => "B",
        }
    }
}

impl Modifier {
    /// The place of the modifier in the order plain, prime, double.
    pub open spec fn index(self) -> int {
        match self {
            Modifier::Plain => 0,
            Modifier::Prime => 1,
            Modifier::Double => 2,
        }
    }

    /// What is written behind the face's letter.
    pub open spec fn suffix(self) -> Seq<char> {
        match self {
            Modifier::Plain => Seq::empty(),
            Modifier::Prime => seq!['\''],
            Modifier::Double => seq!['2'],
        }
    }

    /// The modifier at place `index`.
    pub fn at(index: usize) -> (modifier: Modifier)
        requires
            index < MODIFIERS,
        ensures
            modifier.index() == index,
    {
        if index == 0 {
            Modifier::Plain
        } else if index == 1 {
            Modifier::Prime
        } else {
            Modifier::Double
        }
    }

    /// The suffix of the modifier, as text.
    pub fn text(&self) -> (text: &'static str)
        ensures
            text@ == self.suffix(),
    {
        proof {
            reveal_strlit("");
            reveal_strlit("'");
            reveal_strlit("2");
        }
        match *self {
            Modifier::Plain => "",
            Modifier::Prime => "'",
            Modifier::Double => "2",
        }
    }
}

impl Move {
    /// The move in notation: the face's letter and the modifier's suffix.
    pub open spec fn token(self) -> Seq<char> {
        seq![self.face.letter()] + self.modifier.suffix()
    }
}

/// The notation of `moves`: their tokens, joined by single spaces.
pub open spec fn joined(moves: Seq<Move>) -> Seq<char>
    decreases moves.len(),
{
    if moves.len() == 0 {
        Seq::empty()
    } else if moves.len() == 1 {
        moves[0].token()
    } else {
        joined(moves.drop_last()) + seq![' '] + moves.last().token()
    }
}

/// Whether no move of `moves` turns the face of the move before it.
pub open spec fn no_face_repeats(moves: Seq<Move>) -> bool {
    forall|i: int| 0 < i < moves.len() ==> (#[trigger] moves[i]).face != moves[i - 1].face
}

/// Whether `text` is the notation of a cube scramble: of twenty moves, none
/// on the face of the move before it.
pub open spec fn is_cube3x3_scramble(text: Seq<char>) -> bool {
    exists|moves: Seq<Move>|
        moves.len() == CUBE3X3_MOVES && no_face_repeats(moves) && text == #[trigger] joined(moves)
}

/// A token is one of the six letters, alone or followed by one mark, and
/// holds no space: the tokens of a notation are what stands between its
/// spaces.
pub proof fn lemma_token_shape(m: Move)
    ensures
        m.token().len() == 1 || m.token().len() == 2,
        m.token()[0] == m.face.letter(),
        m.token().len() == 2 ==> m.token()[1] == '\'' || m.token()[1] == '2',
        forall|i: int| 0 <= i < m.token().len() ==> m.token()[i] != ' ',
{
}

/// The number of spaces in `text`.
pub open spec fn spaces(text: Seq<char>) -> nat
    decreases text.len(),
{
    if text.len() == 0 {
        0
    } else if text.last() == ' ' {
        spaces(text.drop_last()) + 1
    } else {
        spaces(text.drop_last())
    }
}

/// The spaces of two texts add up when one is written behind the other.
proof fn lemma_spaces_add_up(a: Seq<char>, b: Seq<char>)
    ensures
        spaces(a + b) == spaces(a) + spaces(b),
    decreases b.len(),
{
    if b.len() == 0 {
    } else {
        assert((a + b).drop_last() =~= a + b.drop_last());
        lemma_spaces_add_up(a, b.drop_last());
    }
}

/// A token holds no space.
proof fn lemma_token_has_no_space(m: Move)
    ensures
        spaces(m.token()) == 0,
{
    lemma_token_shape(m);
    reveal_with_fuel(spaces, 3);
}

/// The notation of moves holds one space less than there are moves: the
/// tokens are what stands between the spaces.
pub proof fn lemma_one_space_between_tokens(moves: Seq<Move>)
    requires
        moves.len() > 0,
    ensures
        spaces(joined(moves)) == moves.len() - 1,
    decreases moves.len(),
{
    if moves.len() == 1 {
        lemma_token_has_no_space(moves[0]);
    } else {
        lemma_one_space_between_tokens(moves.drop_last());
        lemma_token_has_no_space(moves.last());
        lemma_spaces_add_up(joined(moves.drop_last()) + seq![' '], moves.last().token());
        lemma_spaces_add_up(joined(moves.drop_last()), seq![' ']);
        reveal_with_fuel(spaces, 2);
    }
}

/// A cube scramble holds nineteen spaces: it is twenty tokens long.
pub proof fn lemma_scramble_has_twenty_tokens(text: Seq<char>)
    requires
        is_cube3x3_scramble(text),
    ensures
        spaces(text) == CUBE3X3_MOVES - 1,
{
    let moves = choose|moves: Seq<Move>|
        moves.len() == CUBE3X3_MOVES && no_face_repeats(moves) && text == #[trigger] joined(moves);
    lemma_one_space_between_tokens(moves);
}

/// The random number generator of the thread, carried through as an opaque
/// value.
#[verifier::external_type_specification]
#[verifier::external_body]
pub struct ExThreadRng(ThreadRng);

/// `rand::thread_rng` hands out the generator of the current thread, which
/// the system seeds when the thread first asks for it. Nothing is claimed of
/// the generator. The call panics where the system cannot seed it.
pub assume_specification[ rand::thread_rng ]() -> (rng: ThreadRng)
;

/// Draws a number below `bound` with `Rng::gen_range` on the range from zero
/// to `bound`. The range is not empty, as the call asks, and what is drawn
/// lies in it. Which number comes is left open. The call can still panic
/// where the generator is due to be seeded anew and the system fails to.
#[verifier::external_body]
fn draw_below(rng: &mut ThreadRng, bound: usize) -> (drawn: usize)
    requires
        bound > 0,
    ensures
        drawn < bound,
{
    rand::Rng::gen_range(rng, 0..bound)
}

/// The notation of `moves`.
pub fn notation(moves: &[Move]) -> (text: String)
    ensures
        text@ == joined(moves@),
{
    let mut text: String = String::new();
    let n: usize = moves.len();
    let mut i: usize = 0;
    while i < n
        invariant
            n == moves@.len(),
            i <= n,
            text@ == joined(moves@.take(i as int)),
        decreases n - i,
    {
        proof {
            reveal_strlit(" ");
            assert(moves@.take(i + 1).drop_last() =~= moves@.take(i as int));
        }
        if i > 0 {
            text.append(" ");
        }
        text.append(moves[i].face.text());
        text.append(moves[i].modifier.text());
        i = i + 1;
    }
    proof {
        assert(moves@.take(n as int) =~= moves@);
    }
    text
}

/// Takes or rejects the face drawn for a move that follows a move on the
/// face `last`, or no move: the face at place `drawn` is taken unless it is
/// `last`. Faces alone are compared, never how they are turned.
pub fn accept(last: Option<Face>, drawn: usize) -> (face: Option<Face>)
    requires
        drawn < FACES,
    ensures
        face is None <==> (last matches Some(before) && before.index() == drawn),
        face matches Some(taken) ==> taken.index() == drawn,
{
    let face: Face = Face::at(drawn);
    match last {
        Some(before) => if face == before {
            None
        } else {
            Some(face)
        },
        None => Some(face),
    }
}

/// Draws the face of the next move: any face where there is no move before,
/// else a face other than `last`.
///
/// A face is drawn among all six until one is accepted. Should `REDRAWS`
/// draws in a row be rejected, the face is drawn among the other five
/// instead.
fn next_face(rng: &mut ThreadRng, last: Option<Face>) -> (face: Face)
    ensures
        Some(face) != last,
{
    let mut left: u32 = REDRAWS;
    while left > 0
        decreases left,
    {
        match accept(last, draw_below(rng, FACES)) {
            Some(face) => {
                return face;
            },
            None => {},
        }
        left = left - 1;
    }
    match last {
        Some(before) => before.other(draw_below(rng, FACES - 1) + 1),
        None => Face::at(draw_below(rng, FACES)),
    }
}

/// The scrambler.
pub struct Scrambler {}

impl Scrambler {
    /// A new scramble for the puzzle `p`, in notation.
    pub fn new_scramble(p: Puzzle) -> (text: String)
        ensures
            match p {
                Puzzle::Cube3x3 => is_cube3x3_scramble(text@),
            },
    {
        match p {
            Puzzle::Cube3x3 => Self::scramble_3x3(),
        }
    }

    /// A new scramble for the cube.
    pub fn scramble_3x3() -> (text: String)
        ensures
            is_cube3x3_scramble(text@),
    {
        let mut rng: ThreadRng = rand::thread_rng();
        let mut moves: Vec<Move> = Vec::with_capacity(CUBE3X3_MOVES);
        let mut last: Option<Face> = None;
        let mut i: usize = 0;
        while i < CUBE3X3_MOVES
            invariant
                i <= CUBE3X3_MOVES,
                moves@.len() == i,
                no_face_repeats(moves@),
                last == if i == 0 {
                    None
                } else {
                    Some(moves@[i - 1].face)
                },
            decreases CUBE3X3_MOVES - i,
        {
            let face: Face = next_face(&mut rng, last);
            let modifier: Modifier = Modifier::at(draw_below(&mut rng, MODIFIERS));
            moves.push(Move { face, modifier });
            last = Some(face);
            i = i + 1;
        }
        let text: String = notation(moves.as_slice());
        assert(moves@.len() == CUBE3X3_MOVES && no_face_repeats(moves@) && text@ == joined(
            moves@,
        ));
        text
    }
}

} // verus!
