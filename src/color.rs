use vstd::prelude::*;

verus! {

/// The token byte naming the first player.
pub const BLACK_LETTER: u8 = 66;

/// The token byte naming the second player.
pub const WHITE_LETTER: u8 = 87;

/// The two sides of the game.
#[derive(Clone, Copy, Debug, PartialEq, Eq, Structural)]
pub enum Color {
    Black,
    White,
}

/// The side not named by `c`.
pub open spec fn opposite_of(c: Color) -> Color {
    match c {
        Color::Black => Color::White,
        Color::White => Color::Black,
    }
}

/// The one-letter token that names `c` on the wire.
pub open spec fn letter_of(c: Color) -> u8 {
    match c {
        Color::Black => BLACK_LETTER,
        Color::White => WHITE_LETTER,
    }
}

/// The color a token names, if it names one.
pub open spec fn color_named(t: Seq<u8>) -> Option<Color> {
    if t == seq![BLACK_LETTER] {
        Some(Color::Black)
    } else if t == seq![WHITE_LETTER] {
        Some(Color::White)
    } else {
        None
    }
}

/// Gives the side not named by `c`.
pub fn opposite(c: Color) -> (r: Color)
    ensures
        r == opposite_of(c),
{
    match c {
        Color::Black => Color::White,
        Color::White => Color::Black,
    }
}

/// Gives the token that names `c`.
pub fn letter(c: Color) -> (r: u8)
    ensures
        r == letter_of(c),
{
    match c {
        Color::Black => BLACK_LETTER,
        Color::White => WHITE_LETTER,
    }
}

/// Reads a color token.
pub fn parse_color(t: &[u8]) -> (r: Option<Color>)
    ensures
        r == color_named(t@),
{
    if t.len() == 1 && t[0] == BLACK_LETTER {
        assert(t@ =~= seq![BLACK_LETTER]);
        Some(Color::Black)
    } else if t.len() == 1 && t[0] == WHITE_LETTER {
        assert(t@ =~= seq![WHITE_LETTER]);
        Some(Color::White)
    } else {
        None
    }
}

/// Taking the opposite side twice gives back the side one started from.
pub proof fn lemma_opposite_involution(c: Color)
    ensures
        opposite_of(opposite_of(c)) == c,
{
}

} // verus!
