//! The network's board input: 18 planes of 8 x 8 cells for each position.
//!
//! One position takes `PLANE_CELLS` values; the value of plane `c` at square
//! `sq` (`rank * 8 + file`) stands at `c * 64 + sq`. Planes 0 to 5 hold the
//! White pawns, knights, bishops, rooks, queens and king, planes 6 to 11 the
//! Black ones in the same order; plane 12 is filled with 1 when White is to
//! move; planes 13 to 16 are filled with 1 when White may castle king-side,
//! White queen-side, Black king-side and Black queen-side; plane 17 marks the
//! en-passant target square.
use vstd::prelude::*;
use crate::board::{has_square, BoardSetup, Color};
use crate::error::MaiaError;
use crate::moves::UciMove;
use crate::rules::{legal_moves_of, legal_uci_moves, position_accepted};

verus! {

/// Number of planes per position.
pub const PLANES: usize = 18;

/// Number of cells per position: 18 planes of 64 squares.
pub const PLANE_CELLS: usize = 1152;

/// Whether the castling right whose rook starts on `rook_sq` is kept.
pub open spec fn castle_flag(s: BoardSetup, rook_sq: u64) -> u8 {
    if has_square(s.castling_rights, rook_sq) {
        1
    } else {
        0
    }
}

/// The value of plane `c` at square `sq` for the position `s`.
pub open spec fn cell_value(s: BoardSetup, c: int, sq: int) -> u8 {
    if c < 12 {
        if has_square(s.color_board(c / 6) & s.role_board(c % 6), sq as u64) {
            1
        } else {
            0
        }
    } else if c == 12 {
        if s.turn == Color::White {
            1
        } else {
            0
        }
    } else if c == 13 {
        castle_flag(s, 7)
    } else if c == 14 {
        castle_flag(s, 0)
    } else if c == 15 {
        castle_flag(s, 63)
    } else if c == 16 {
        castle_flag(s, 56)
    } else if s.ep_square == Some(sq as u8) {
        1
    } else {
        0
    }
}

fn bit_at(b: u64, sq: u64) -> (r: u8)
    requires
        sq < 64,
    ensures
        r == (if has_square(b, sq) {
            1u8
        } else {
            0u8
        }),
{
    if (b >> sq) & 1u64 == 1u64 {
        1
    } else {
        0
    }
}

fn role_bitboard(s: &BoardSetup, role: usize) -> (r: u64)
    requires
        role < 6,
    ensures
        r == s.role_board(role as int),
{
    if role == 0 {
        s.pawns
    } else if role == 1 {
        s.knights
    } else if role == 2 {
        s.bishops
    } else if role == 3 {
        s.rooks
    } else if role == 4 {
        s.queens
    } else {
        s.kings
    }
}

/// The value of one cell of the encoding of `s`.
pub fn cell(s: &BoardSetup, c: usize, sq: usize) -> (r: u8)
    requires
        c < PLANES,
        sq < 64,
    ensures
        r == cell_value(*s, c as int, sq as int),
{
    if c < 12 {
        let color_board = if c / 6 == 0 {
            s.white
        } else {
            s.black
        };
        bit_at(color_board & role_bitboard(s, c % 6), sq as u64)
    } else if c == 12 {
        match s.turn {
            Color::White => 1,
            Color::Black => 0,
        }
    } else if c == 13 {
        bit_at(s.castling_rights, 7)
    } else if c == 14 {
        bit_at(s.castling_rights, 0)
    } else if c == 15 {
        bit_at(s.castling_rights, 63)
    } else if c == 16 {
        bit_at(s.castling_rights, 56)
    } else {
        match s.ep_square {
            Some(ep) => if ep as usize == sq {
                1
            } else {
                0
            },
            None => 0,
        }
    }
}

/// Encodes one position into its 18 planes.
pub fn board_to_tensor(s: &BoardSetup) -> (r: Vec<u8>)
    ensures
        r@.len() == PLANE_CELLS,
        forall|k: int| 0 <= k < PLANE_CELLS ==> #[trigger] r@[k] <= 1,
        forall|c: int, sq: int|
            0 <= c < PLANES && 0 <= sq < 64 ==> #[trigger] r@[c * 64 + sq] == cell_value(
                *s,
                c,
                sq,
            ),
{
    let mut out: Vec<u8> = Vec::with_capacity(PLANE_CELLS);
    let mut c: usize = 0;
    while c < PLANES
        invariant
            c <= PLANES,
            out@.len() == c * 64,
            forall|c2: int, sq: int|
                0 <= c2 < c && 0 <= sq < 64 ==> #[trigger] out@[c2 * 64 + sq] == cell_value(
                    *s,
                    c2,
                    sq,
                ),
            forall|k: int| 0 <= k < out@.len() ==> #[trigger] out@[k] <= 1,
        decreases PLANES - c,
    {
        let mut sq: usize = 0;
        while sq < 64
            invariant
                c < PLANES,
                sq <= 64,
                out@.len() == c * 64 + sq,
                forall|c2: int, sq2: int|
                    0 <= c2 < c && 0 <= sq2 < 64 ==> #[trigger] out@[c2 * 64 + sq2] == cell_value(
                        *s,
                        c2,
                        sq2,
                    ),
                forall|sq2: int|
                    0 <= sq2 < sq ==> #[trigger] out@[c * 64 + sq2] == cell_value(*s, c as int, sq2),
                forall|k: int| 0 <= k < out@.len() ==> #[trigger] out@[k] <= 1,
            decreases 64 - sq,
        {
            let v = cell(s, c, sq);
            out.push(v);
            sq += 1;
        }
        assert forall|c2: int, sq2: int|
            0 <= c2 < c + 1 && 0 <= sq2 < 64 implies #[trigger] out@[c2 * 64 + sq2] == cell_value(
            *s,
            c2,
            sq2,
        ) by {
            if c2 == c {
                assert(out@[c * 64 + sq2] == cell_value(*s, c as int, sq2));
            }
        }
        c += 1;
    }
    out
}

/// The network's input for a batch of positions, with what decoding needs
/// of each one.
pub struct PreprocessedData {
    /// The planes of every position, one block of `PLANE_CELLS` values after
    /// the other.
    pub board_tensor: Vec<u8>,
    /// Whether each position was mirrored because Black was to move.
    pub mirrored: Vec<bool>,
    /// The positions as the network saw them.
    pub canonical_setups: Vec<BoardSetup>,
    /// The legal moves of each of those positions, in the rules engine's
    /// order.
    pub legal_moves: Vec<Vec<UciMove>>,
}

/// Encodes a batch of positions. Each is shown to the network with White to
/// move, mirrored where Black was to move, and must then be a legal position;
/// otherwise the batch fails with `InvalidPosition`.
#[verifier::rlimit(40)]
pub fn preprocess(setups: Vec<BoardSetup>, batch_size: usize) -> (r: Result<
    PreprocessedData,
    MaiaError,
>)
    requires
        setups@.len() == batch_size,
        batch_size * PLANE_CELLS <= usize::MAX,
        forall|i: int| 0 <= i < setups@.len() ==> (#[trigger] setups@[i]).wf(),
    ensures
        (forall|i: int|
            0 <= i < batch_size ==> position_accepted(#[trigger] setups@[i].spec_canonical()))
            ==> r is Ok,
        match r {
            Ok(d) => {
                &&& d.board_tensor@.len() == batch_size * PLANE_CELLS
                &&& d.mirrored@.len() == batch_size
                &&& d.legal_moves@.len() == batch_size
                &&& d.canonical_setups@.len() == batch_size
                &&& forall|i: int|
                    0 <= i < batch_size ==> #[trigger] d.mirrored@[i] == (setups@[i].turn
                        == Color::Black)
                &&& forall|i: int|
                    0 <= i < batch_size ==> #[trigger] d.canonical_setups@[i]
                        == setups@[i].spec_canonical()
                &&& forall|i: int|
                    0 <= i < batch_size ==> position_accepted(
                        #[trigger] setups@[i].spec_canonical(),
                    )
                &&& forall|i: int|
                    0 <= i < batch_size ==> #[trigger] d.legal_moves@[i]@ == legal_moves_of(
                        setups@[i].spec_canonical(),
                    )
                &&& forall|i: int, k: int|
                    0 <= i < batch_size && 0 <= k < d.legal_moves@[i]@.len()
                        ==> (#[trigger] d.legal_moves@[i]@[k]).wf()
                &&& forall|i: int, c: int, sq: int|
                    0 <= i < batch_size && 0 <= c < PLANES && 0 <= sq < 64
                        ==> #[trigger] d.board_tensor@[i * 1152 + c * 64 + sq] == cell_value(
                        setups@[i].spec_canonical(),
                        c,
                        sq,
                    )
            },
            Err(e) => e == MaiaError::InvalidPosition && exists|i: int|
                0 <= i < batch_size && !position_accepted(#[trigger] setups@[i].spec_canonical()),
        },
{
    let mut board_tensor: Vec<u8> = Vec::new();
    let mut mirrored: Vec<bool> = Vec::with_capacity(batch_size);
    let mut legal_moves: Vec<Vec<UciMove>> = Vec::with_capacity(batch_size);
    let mut canonical_setups: Vec<BoardSetup> = Vec::with_capacity(batch_size);
    let mut i: usize = 0;
    while i < batch_size
        invariant
            i <= batch_size,
            setups@.len() == batch_size,
            batch_size * PLANE_CELLS <= usize::MAX,
            forall|j: int| 0 <= j < setups@.len() ==> (#[trigger] setups@[j]).wf(),
            board_tensor@.len() == i * PLANE_CELLS,
            mirrored@.len() == i,
            legal_moves@.len() == i,
            forall|j: int|
                0 <= j < i ==> #[trigger] legal_moves@[j]@ == legal_moves_of(
                    setups@[j].spec_canonical(),
                ),
            forall|j: int, k: int|
                0 <= j < i && 0 <= k < legal_moves@[j]@.len() ==> (#[trigger] legal_moves@[j]@[k]).wf(),
            canonical_setups@.len() == i,
            forall|j: int|
                0 <= j < i ==> #[trigger] mirrored@[j] == (setups@[j].turn == Color::Black),
            forall|j: int| 0 <= j < i ==> #[trigger] canonical_setups@[j] == setups@[j].spec_canonical(),
            forall|j: int| 0 <= j < i ==> position_accepted(#[trigger] setups@[j].spec_canonical()),
            forall|j: int, c: int, sq: int|
                0 <= j < i && 0 <= c < PLANES && 0 <= sq < 64
                    ==> #[trigger] board_tensor@[j * 1152 + c * 64 + sq] == cell_value(
                    setups@[j].spec_canonical(),
                    c,
                    sq,
                ),
        decreases batch_size - i,
    {
        let setup = &setups[i];
        let is_black = match setup.turn {
            Color::Black => true,
            Color::White => false,
        };
        let canonical = if is_black {
            setup.mirror()
        } else {
            *setup
        };
        assert(canonical == setups@[i as int].spec_canonical());
        assert(canonical.wf()) by {
            crate::board::lemma_mirror_wf(setups@[i as int]);
        }
        let moves = match legal_uci_moves(&canonical) {
            Some(v) => v,
            None => {
                return Err(MaiaError::InvalidPosition);
            },
        };
        let mut item = board_to_tensor(&canonical);
        let ghost before = board_tensor@;
        let ghost item_cells = item@;
        board_tensor.append(&mut item);
        assert forall|j: int, c: int, sq: int|
            0 <= j < i + 1 && 0 <= c < PLANES && 0 <= sq < 64 implies #[trigger] board_tensor@[j
            * 1152 + c * 64 + sq] == cell_value(setups@[j].spec_canonical(), c, sq) by {
            if j < i {
                assert(board_tensor@[j * 1152 + c * 64 + sq] == before[j * 1152 + c * 64 + sq]);
            } else {
                assert(board_tensor@[j * 1152 + c * 64 + sq] == item_cells[c * 64 + sq]);
            }
        }
        mirrored.push(is_black);
        legal_moves.push(moves);
        canonical_setups.push(canonical);
        i += 1;
    }
    Ok(PreprocessedData { board_tensor, mirrored, canonical_setups, legal_moves })
}

} // verus!
