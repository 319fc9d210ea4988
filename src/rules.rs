//! The calls into the chess rules engine (shakmaty): reading a position
//! text, checking that a position is legal, and listing its legal moves.
use vstd::prelude::*;
use shakmaty::fen::Fen;
use shakmaty::uci::UciMove as Uci;
use shakmaty::{Bitboard, Board, ByColor, ByRole, CastlingMode, Chess, Position, Setup, Square};
use crate::board::{BoardSetup, Color};
use crate::error::MaiaError;
use crate::moves::UciMove;

verus! {

/// Whether shakmaty accepts the setup as a legal standard-chess position.
pub uninterp spec fn position_accepted(s: BoardSetup) -> bool;

/// The legal moves that shakmaty lists for the setup, in long algebraic
/// notation and in its order of generation.
pub uninterp spec fn legal_moves_of(s: BoardSetup) -> Seq<UciMove>;

/// What shakmaty's FEN reader makes of a text.
pub uninterp spec fn fen_setup_of(text: Seq<char>) -> Option<BoardSetup>;

#[verifier::external_type_specification]
#[verifier::external_body]
pub struct ExChess(shakmaty::Chess);

/// A setup that the rules engine accepted, with the position it built from it.
/// Only `rules_position` makes one, so `chess` is always shakmaty's position
/// of `setup`.
pub struct RulesPosition {
    setup: BoardSetup,
    chess: Chess,
}

impl RulesPosition {
    /// The setup the position was built from.
    pub closed spec fn spec_setup(&self) -> BoardSetup {
        self.setup
    }
}

/// Relies on shakmaty's `Setup::position` (standard castling mode) to accept
/// the setup; bitboards that `Board::try_from_bitboards` refuses give no
/// position either.
#[verifier::external_body]
fn rules_position(s: &BoardSetup) -> (r: Option<RulesPosition>)
    requires
        s.wf(),
    ensures
        r is Some == position_accepted(*s),
        r matches Some(p) ==> p.spec_setup() == *s,
{
    let board = Board::try_from_bitboards(ByRole::new_with(|r| Bitboard(s.role_bits(r as u8))),
        ByColor::new_with(|c| Bitboard(s.color_bits(c as u8)))).ok()?;
    let turn = shakmaty::Color::from_white(matches!(s.turn, Color::White));
    let ep_square = s.ep_square.map(|sq| Square::new(sq as u32));
    let setup = Setup { board, turn, castling_rights: Bitboard(s.castling_rights), ep_square, ..Setup::empty() };
    Some(RulesPosition { setup: *s, chess: setup.position(CastlingMode::Standard).ok()? })
}

/// Relies on shakmaty's `Position::legal_moves`, in its order of generation,
/// and on `Move::to_uci` in standard mode (castling as the king's move).
/// Squares and roles of the moves are in range.
#[verifier::external_body]
fn rules_legal_moves(p: &RulesPosition) -> (r: Vec<UciMove>)
    ensures
        r@ == legal_moves_of(p.spec_setup()),
        forall|i: int| 0 <= i < r@.len() ==> (#[trigger] r@[i]).wf(),
{
    p.chess.legal_moves().into_iter().map(|m| match m.to_uci(CastlingMode::Standard) {
        Uci::Normal { from, to, promotion } => UciMove::Normal { from: from as u8, to: to as u8, promotion: promotion.map(|p| p as u8) },
        Uci::Put { role, to } => UciMove::Put { role: role as u8, to: to as u8 },
        Uci::Null => UciMove::Null,
    }).collect()
}

/// Relies on shakmaty's `Fen::from_ascii` to read a position text; the board
/// that shakmaty builds is consistent, so the result is well formed.
#[verifier::external_body]
fn read_fen(text: &str) -> (r: Option<BoardSetup>)
    ensures
        r == fen_setup_of(text@),
        r matches Some(s) ==> s.wf(),
{
    let setup = Fen::from_ascii(text.as_bytes()).ok()?.into_setup();
    let (r, c) = setup.board.into_bitboards();
    let turn = match setup.turn { shakmaty::Color::White => Color::White, shakmaty::Color::Black => Color::Black };
    Some(BoardSetup { white: c.white.0, black: c.black.0, pawns: r.pawn.0, knights: r.knight.0,
        bishops: r.bishop.0, rooks: r.rook.0, queens: r.queen.0, kings: r.king.0, turn,
        castling_rights: setup.castling_rights.0, ep_square: setup.ep_square.map(|sq| sq as u8) })
}

/// Reads a position text (FEN); text that shakmaty cannot read is an
/// `InvalidFen` error.
pub fn parse_fen(fen: &str) -> (r: Result<BoardSetup, MaiaError>)
    ensures
        match fen_setup_of(fen@) {
            Some(s) => r == Ok::<BoardSetup, MaiaError>(s),
            None => r == Err::<BoardSetup, MaiaError>(MaiaError::InvalidFen),
        },
        r matches Ok(s) ==> s.wf(),
{
    match read_fen(fen) {
        Some(s) => Ok(s),
        None => Err(MaiaError::InvalidFen),
    }
}

/// The legal moves of a setup in long algebraic notation, in the rules
/// engine's order; `None` where the rules engine does not accept the setup.
pub fn legal_uci_moves(s: &BoardSetup) -> (r: Option<Vec<UciMove>>)
    requires
        s.wf(),
    ensures
        r is Some == position_accepted(*s),
        r matches Some(v) ==> v@ == legal_moves_of(*s),
        r matches Some(v) ==> forall|i: int| 0 <= i < v@.len() ==> (#[trigger] v@[i]).wf(),
{
    match rules_position(s) {
        Some(p) => Some(rules_legal_moves(&p)),
        None => None,
    }
}

} // verus!
