//! The position as the codec reads it: piece placement as bitboards, the
//! side to move, castling rights and the en-passant target square.
//!
//! Squares are numbered `rank * 8 + file`, with rank 1 and file a at 0, so
//! that a1 is 0, h1 is 7, a8 is 56 and h8 is 63; bit `sq` of a bitboard is
//! set when square `sq` belongs to it.
use vstd::prelude::*;

verus! {

/// A side of the board.
#[derive(Clone, Copy, Debug, PartialEq, Eq, Structural)]
pub enum Color {
    White,
    Black,
}

impl Color {
    pub open spec fn spec_other(self) -> Color {
        match self {
            Color::White => Color::Black,
            Color::Black => Color::White,
        }
    }

    /// The opposite side.
    pub fn other(&self) -> (r: Color)
        ensures
            r == self.spec_other(),
    {
        match self {
            Color::White => Color::Black,
            Color::Black => Color::White,
        }
    }
}

/// Whether square `sq` belongs to bitboard `b`.
pub open spec fn has_square(b: u64, sq: u64) -> bool {
    (b >> sq) & 1u64 == 1u64
}

/// The square at the same file on the opposite rank (a1 <-> a8).
pub open spec fn flip_square(sq: u8) -> u8 {
    sq ^ 56u8
}

/// A bitboard reflected top to bottom: the bytes (one per rank) in reverse
/// order.
pub open spec fn flip_vertical(b: u64) -> u64 {
    ((b & 0xffu64) << 56u64) | (((b >> 8u64) & 0xffu64) << 48u64) | (((b >> 16u64) & 0xffu64)
        << 40u64) | (((b >> 24u64) & 0xffu64) << 32u64) | (((b >> 32u64) & 0xffu64) << 24u64) | (((b
        >> 40u64) & 0xffu64) << 16u64) | (((b >> 48u64) & 0xffu64) << 8u64) | ((b >> 56u64)
        & 0xffu64)
}

/// Square `sq` of a reflected bitboard is square `sq ^ 56` of the bitboard.
pub proof fn lemma_flip_vertical_square(b: u64, sq: u64)
    requires
        sq < 64,
    ensures
        has_square(flip_vertical(b), sq) == has_square(b, sq ^ 56u64),
{
    assert(((((b & 0xffu64) << 56u64) | (((b >> 8u64) & 0xffu64) << 48u64) | (((b >> 16u64)
        & 0xffu64) << 40u64) | (((b >> 24u64) & 0xffu64) << 32u64) | (((b >> 32u64) & 0xffu64)
        << 24u64) | (((b >> 40u64) & 0xffu64) << 16u64) | (((b >> 48u64) & 0xffu64) << 8u64) | ((b
        >> 56u64) & 0xffu64)) >> sq) & 1u64 == 1u64 <==> (b >> (sq ^ 56u64)) & 1u64 == 1u64)
        by (bit_vector)
        requires
            sq < 64,
    ;
}

/// Reflects a bitboard top to bottom.
pub fn flip_bitboard(b: u64) -> (r: u64)
    ensures
        r == flip_vertical(b),
{
    ((b & 0xffu64) << 56u64) | (((b >> 8u64) & 0xffu64) << 48u64) | (((b >> 16u64) & 0xffu64)
        << 40u64) | (((b >> 24u64) & 0xffu64) << 32u64) | (((b >> 32u64) & 0xffu64) << 24u64) | (((b
        >> 40u64) & 0xffu64) << 16u64) | (((b >> 48u64) & 0xffu64) << 8u64) | ((b >> 56u64)
        & 0xffu64)
}

/// A not necessarily legal position: what the encoder reads of a position.
///
/// The piece bitboards follow the rules engine's board: one bitboard per
/// color and one per role.
#[derive(Clone, Copy, Debug, PartialEq, Eq, Structural)]
pub struct BoardSetup {
    pub white: u64,
    pub black: u64,
    pub pawns: u64,
    pub knights: u64,
    pub bishops: u64,
    pub rooks: u64,
    pub queens: u64,
    pub kings: u64,
    /// Side to move.
    pub turn: Color,
    /// Castling rights, as the set of the rooks' home squares that still
    /// allow castling.
    pub castling_rights: u64,
    /// En-passant target square.
    pub ep_square: Option<u8>,
}

impl BoardSetup {
    /// The bitboard of a role, in the order pawn, knight, bishop, rook, queen,
    /// king.
    pub open spec fn role_board(self, role: int) -> u64 {
        if role == 0 {
            self.pawns
        } else if role == 1 {
            self.knights
        } else if role == 2 {
            self.bishops
        } else if role == 3 {
            self.rooks
        } else if role == 4 {
            self.queens
        } else {
            self.kings
        }
    }

    /// The bitboard of a color: 0 for White, 1 for Black.
    pub open spec fn color_board(self, color: int) -> u64 {
        if color == 0 {
            self.white
        } else {
            self.black
        }
    }

    /// Consistent placement (every occupied square has one color and one
    /// role) and an en-passant square on the board.
    pub open spec fn wf(self) -> bool {
        &&& self.white & self.black == 0
        &&& self.pawns & self.knights == 0
        &&& (self.pawns | self.knights) & self.bishops == 0
        &&& (self.pawns | self.knights | self.bishops) & self.rooks == 0
        &&& (self.pawns | self.knights | self.bishops | self.rooks) & self.queens == 0
        &&& (self.pawns | self.knights | self.bishops | self.rooks | self.queens) & self.kings == 0
        &&& self.pawns | self.knights | self.bishops | self.rooks | self.queens | self.kings
            == self.white | self.black
        &&& match self.ep_square {
            Some(sq) => sq < 64,
            None => true,
        }
    }

    /// The same position seen from the other side: the board reflected top
    /// to bottom with the colors swapped, the turn passed, and the castling
    /// rights and en-passant square reflected with it.
    pub open spec fn spec_mirror(self) -> BoardSetup {
        BoardSetup {
            white: flip_vertical(self.black),
            black: flip_vertical(self.white),
            pawns: flip_vertical(self.pawns),
            knights: flip_vertical(self.knights),
            bishops: flip_vertical(self.bishops),
            rooks: flip_vertical(self.rooks),
            queens: flip_vertical(self.queens),
            kings: flip_vertical(self.kings),
            turn: self.turn.spec_other(),
            castling_rights: flip_vertical(self.castling_rights),
            ep_square: match self.ep_square {
                Some(sq) => Some(flip_square(sq)),
                None => None,
            },
        }
    }

    /// The position as the network is shown it: mirrored when Black is to
    /// move, so that it is always White's turn.
    pub open spec fn spec_canonical(self) -> BoardSetup {
        if self.turn == Color::Black {
            self.spec_mirror()
        } else {
            self
        }
    }

    /// The bitboard of a role numbered as the rules engine numbers roles,
    /// 1 (pawn) to 6 (king).
    pub fn role_bits(&self, role: u8) -> (r: u64)
        ensures
            1 <= role <= 6 ==> r == self.role_board(role - 1),
    {
        if role <= 1 {
            self.pawns
        } else if role == 2 {
            self.knights
        } else if role == 3 {
            self.bishops
        } else if role == 4 {
            self.rooks
        } else if role == 5 {
            self.queens
        } else {
            self.kings
        }
    }

    /// The bitboard of a color numbered as the rules engine numbers colors,
    /// 1 for White and 0 for Black.
    pub fn color_bits(&self, color: u8) -> (r: u64)
        ensures
            r == (if color == 1 {
                self.white
            } else {
                self.black
            }),
    {
        if color == 1 {
            self.white
        } else {
            self.black
        }
    }

    /// Mirrors the position (see `spec_mirror`).
    pub fn mirror(&self) -> (r: BoardSetup)
        ensures
            r == self.spec_mirror(),
    {
        BoardSetup {
            white: flip_bitboard(self.black),
            black: flip_bitboard(self.white),
            pawns: flip_bitboard(self.pawns),
            knights: flip_bitboard(self.knights),
            bishops: flip_bitboard(self.bishops),
            rooks: flip_bitboard(self.rooks),
            queens: flip_bitboard(self.queens),
            kings: flip_bitboard(self.kings),
            turn: self.turn.other(),
            castling_rights: flip_bitboard(self.castling_rights),
            ep_square: match self.ep_square {
                Some(sq) => Some(sq ^ 56u8),
                None => None,
            },
        }
    }
}

proof fn lemma_flip_distributes(a: u64, b: u64)
    ensures
        flip_vertical(a) | flip_vertical(b) == flip_vertical(a | b),
        flip_vertical(a) & flip_vertical(b) == flip_vertical(a & b),
        flip_vertical(0) == 0,
{
    assert(flip_vertical(a) | flip_vertical(b) == flip_vertical(a | b)) by (bit_vector);
    assert(flip_vertical(a) & flip_vertical(b) == flip_vertical(a & b)) by (bit_vector);
    assert(flip_vertical(0) == 0) by (bit_vector);
}

proof fn lemma_commute(a: u64, b: u64)
    ensures
        a & b == b & a,
        a | b == b | a,
{
    assert(a & b == b & a) by (bit_vector);
    assert(a | b == b | a) by (bit_vector);
}

/// Mirroring keeps a setup well formed.
pub proof fn lemma_mirror_wf(s: BoardSetup)
    requires
        s.wf(),
    ensures
        s.spec_mirror().wf(),
{
    let m = s.spec_mirror();
    lemma_flip_distributes(s.black, s.white);
    lemma_flip_distributes(s.pawns, s.knights);
    lemma_flip_distributes(s.pawns | s.knights, s.bishops);
    lemma_flip_distributes(s.pawns | s.knights | s.bishops, s.rooks);
    lemma_flip_distributes(s.pawns | s.knights | s.bishops | s.rooks, s.queens);
    lemma_flip_distributes(s.pawns | s.knights | s.bishops | s.rooks | s.queens, s.kings);
    lemma_commute(s.white, s.black);
    if let Some(sq) = s.ep_square {
        assert(sq < 64 ==> sq ^ 56u8 < 64) by (bit_vector);
    }
}

/// Mirroring twice gives the setup back.
pub proof fn lemma_mirror_twice(s: BoardSetup)
    ensures
        s.spec_mirror().spec_mirror() == s,
{
    assert forall|b: u64| #[trigger] flip_vertical(flip_vertical(b)) == b by {
        assert(flip_vertical(flip_vertical(b)) == b) by (bit_vector);
    }
    if let Some(sq) = s.ep_square {
        assert((sq ^ 56u8) ^ 56u8 == sq) by (bit_vector);
    }
}

/// Square by square, the mirrored setup holds on `sq` what the setup holds on
/// the square of the same file on the opposite rank, with the colors swapped;
/// the same holds of the castling rights.
pub proof fn lemma_mirror_squares(s: BoardSetup, sq: u64)
    requires
        sq < 64,
    ensures
        has_square(s.spec_mirror().white, sq) == has_square(s.black, sq ^ 56u64),
        has_square(s.spec_mirror().black, sq) == has_square(s.white, sq ^ 56u64),
        forall|role: int|
            0 <= role < 6 ==> has_square(#[trigger] s.spec_mirror().role_board(role), sq)
                == has_square(s.role_board(role), sq ^ 56u64),
        has_square(s.spec_mirror().castling_rights, sq) == has_square(
            s.castling_rights,
            sq ^ 56u64,
        ),
{
    lemma_flip_vertical_square(s.white, sq);
    lemma_flip_vertical_square(s.black, sq);
    lemma_flip_vertical_square(s.pawns, sq);
    lemma_flip_vertical_square(s.knights, sq);
    lemma_flip_vertical_square(s.bishops, sq);
    lemma_flip_vertical_square(s.rooks, sq);
    lemma_flip_vertical_square(s.queens, sq);
    lemma_flip_vertical_square(s.kings, sq);
    lemma_flip_vertical_square(s.castling_rights, sq);
}

/// The canonical position always has White to move.
pub proof fn lemma_canonical_white_to_move(s: BoardSetup)
    ensures
        s.spec_canonical().turn == Color::White,
{
}

} // verus!
