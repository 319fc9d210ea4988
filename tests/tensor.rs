use maia_codec::{
    board_to_tensor, legal_uci_moves, parse_fen, policy_moves, prepare_batch, preprocess, BoardSetup,
    Color, MaiaError, MoveVocabulary, UciMove, PLANE_CELLS,
};

const OPEN_GAME: &str = "rnbqkbnr/pppp1ppp/8/4p3/4P3/8/PPPP1PPP/RNBQKBNR w KQkq - 0 2";

fn non_zero_cells(tensor: &[u8]) -> Vec<(usize, usize, usize)> {
    let mut cells = Vec::new();
    for c in 0..18 {
        for h in 0..8 {
            for w in 0..8 {
                if tensor[c * 64 + h * 8 + w] != 0 {
                    cells.push((c, h, w));
                }
            }
        }
    }
    cells
}

fn expected_open_game_cells() -> Vec<(usize, usize, usize)> {
    let mut cells = Vec::new();
    // White pawns on a2..h2 but e2, and on e4.
    for w in [0, 1, 2, 3, 5, 6, 7] {
        cells.push((0, 1, w));
    }
    cells.push((0, 3, 4));
    let back_rank = [(1, 1), (1, 6), (2, 2), (2, 5), (3, 0), (3, 7), (4, 3), (5, 4)];
    for (c, w) in back_rank {
        cells.push((c, 0, w));
    }
    // Black pawns on a7..h7 but e7, and on e5.
    for w in [0, 1, 2, 3, 5, 6, 7] {
        cells.push((6, 6, w));
    }
    cells.push((6, 4, 4));
    for (c, w) in back_rank {
        cells.push((c + 6, 7, w));
    }
    // Turn and the four castling rights fill their planes.
    for c in 12..17 {
        for h in 0..8 {
            for w in 0..8 {
                cells.push((c, h, w));
            }
        }
    }
    cells.sort();
    cells
}

#[test]
fn verify_tensor_output() {
    let setup = parse_fen(OPEN_GAME).unwrap();
    let data = preprocess(vec![setup], 1).unwrap();
    assert_eq!(data.board_tensor.len(), PLANE_CELLS);
    assert_eq!(data.mirrored, vec![false]);
    let mut cells = non_zero_cells(&data.board_tensor);
    cells.sort();
    assert_eq!(cells, expected_open_game_cells());
    assert!(data.board_tensor.iter().all(|&v| v == 0 || v == 1));
}

#[test]
fn tensor_of_one_board_matches_batch() {
    let setup = parse_fen(OPEN_GAME).unwrap();
    let data = preprocess(vec![setup, setup], 2).unwrap();
    let single = board_to_tensor(&setup);
    assert_eq!(data.board_tensor[..PLANE_CELLS], single[..]);
    assert_eq!(data.board_tensor[PLANE_CELLS..], single[..]);
}

#[test]
fn en_passant_square_is_marked() {
    // After 1. e4 the en-passant target is e3 (rank index 2, file 4).
    let setup = parse_fen("rnbqkbnr/pppppppp/8/8/4P3/8/PPPP1PPP/RNBQKBNR b KQkq e3 0 1").unwrap();
    assert_eq!(setup.ep_square, Some(20));
    let data = preprocess(vec![setup], 1).unwrap();
    assert_eq!(data.mirrored, vec![true]);
    let canonical = data.canonical_setups[0];
    assert_eq!(canonical.turn, Color::White);
    // Mirrored, e3 becomes e6 (rank index 5).
    assert_eq!(canonical.ep_square, Some(44));
    let plane17: Vec<usize> = (0..64).filter(|sq| data.board_tensor[17 * 64 + sq] == 1).collect();
    assert_eq!(plane17, vec![44]);
    assert!((0..64).all(|sq| data.board_tensor[12 * 64 + sq] == 1));
}

#[test]
fn black_to_move_is_mirrored() {
    let black = parse_fen("rnbqkbnr/pppp1ppp/8/4p3/4P3/5N2/PPPP1PPP/RNBQKB1R b KQkq - 1 2").unwrap();
    let mirrored = black.mirror();
    assert_eq!(mirrored.turn, Color::White);
    assert_eq!(mirrored.white, black.black.swap_bytes());
    assert_eq!(mirrored.black, black.white.swap_bytes());
    assert_eq!(mirrored.knights, black.knights.swap_bytes());
    assert_eq!(mirrored.mirror(), black);
    let data = preprocess(vec![black], 1).unwrap();
    assert_eq!(data.canonical_setups[0], mirrored);
    // The knight on f3 shows up as a Black knight on f6 (rank index 5, file 5).
    assert_eq!(data.board_tensor[7 * 64 + 5 * 8 + 5], 1);
    assert_eq!(data.board_tensor[1 * 64 + 2 * 8 + 5], 0);
}

#[test]
fn castling_planes_follow_rights() {
    let setup = parse_fen("r3k2r/8/8/8/8/8/8/R3K2R w Kq - 0 1").unwrap();
    let tensor = board_to_tensor(&setup);
    let filled = |c: usize| (0..64).all(|sq| tensor[c * 64 + sq] == 1);
    let empty = |c: usize| (0..64).all(|sq| tensor[c * 64 + sq] == 0);
    assert!(filled(13));
    assert!(empty(14));
    assert!(empty(15));
    assert!(filled(16));
    assert!(empty(17));
}

#[test]
fn unreadable_fen_is_rejected() {
    assert_eq!(parse_fen("not a position"), Err(MaiaError::InvalidFen));
}

#[test]
fn illegal_position_is_rejected() {
    // No kings on the board.
    let setup = parse_fen("8/8/8/8/8/8/8/8 w - - 0 1").unwrap();
    assert!(matches!(preprocess(vec![setup], 1), Err(MaiaError::InvalidPosition)));
    assert_eq!(legal_uci_moves(&setup), None);
    assert_eq!(policy_moves(&setup, &MoveVocabulary::from_json("{}").unwrap(), false), None);
    assert!(matches!(prepare_batch(vec![setup], &[1500], &[1500]), Err(MaiaError::InvalidPosition)));
}

#[test]
fn one_rejected_position_fails_the_batch() {
    let good = parse_fen(OPEN_GAME).unwrap();
    let kingless = parse_fen("8/8/8/8/8/8/8/8 w - - 0 1").unwrap();
    assert!(matches!(
        prepare_batch(vec![good, kingless, good], &[1500, 1500, 1500], &[1500, 1500, 1500]),
        Err(MaiaError::InvalidPosition)
    ));
}

#[test]
fn batch_arity_is_checked() {
    let setup = parse_fen(OPEN_GAME).unwrap();
    assert!(matches!(prepare_batch(vec![setup], &[1500, 1600], &[1500]), Err(MaiaError::ShapeError)));
    assert!(matches!(prepare_batch(vec![setup], &[1500], &[]), Err(MaiaError::ShapeError)));
    assert!(matches!(prepare_batch(vec![setup, setup], &[1500], &[1500]), Err(MaiaError::ShapeError)));
}

#[test]
fn batch_carries_categories() {
    let setup = parse_fen(OPEN_GAME).unwrap();
    let batch = match prepare_batch(vec![setup, setup], &[900, 1550], &[2100, 1100]) {
        Ok(b) => b,
        Err(e) => panic!("unexpected error {:?}", e),
    };
    assert_eq!(batch.elo_self, vec![0, 5]);
    assert_eq!(batch.elo_oppo, vec![10, 1]);
    assert_eq!(batch.data.board_tensor.len(), 2 * PLANE_CELLS);
}

#[test]
fn start_position_has_twenty_moves() {
    let setup = parse_fen("rnbqkbnr/pppppppp/8/8/8/8/PPPPPPPP/RNBQKBNR w KQkq - 0 1").unwrap();
    let moves = legal_uci_moves(&setup).unwrap();
    assert_eq!(moves.len(), 20);
    let data = preprocess(vec![setup], 1).unwrap();
    assert_eq!(data.legal_moves[0], moves);
    assert!(moves.contains(&UciMove::Normal { from: 12, to: 28, promotion: None }));
}

#[test]
fn stalemate_has_empty_policy() {
    let vocab = MoveVocabulary::from_json(r#"{"h8g8": 0, "h8h7": 1, "h8g7": 2}"#).unwrap();
    let setup = parse_fen("7k/5Q2/6K1/8/8/8/8/8 b - - 0 1").unwrap();
    let data = preprocess(vec![setup], 1).unwrap();
    assert!(data.legal_moves[0].is_empty());
    let canonical = data.canonical_setups[0];
    assert_eq!(legal_uci_moves(&canonical), Some(Vec::new()));
    assert_eq!(policy_moves(&canonical, &vocab, data.mirrored[0]), Some(Vec::new()));
}

#[test]
fn policy_of_black_position_is_in_given_frame() {
    let vocab = MoveVocabulary::from_json(r#"{"e2e4": 7, "g1f3": 9}"#).unwrap();
    // Black to move in the start position with colors swapped: the mirrored
    // position is the start position, where e2e4 and g1f3 are legal.
    let setup = parse_fen("rnbqkbnr/pppppppp/8/8/8/8/PPPPPPPP/RNBQKBNR b KQkq - 0 1").unwrap();
    let data = preprocess(vec![setup], 1).unwrap();
    let entries = policy_moves(&data.canonical_setups[0], &vocab, data.mirrored[0]).unwrap();
    assert_eq!(entries.len(), 2);
    // Reported as e7e5 and g8f6.
    assert!(entries.contains(&(UciMove::Normal { from: 52, to: 36, promotion: None }, 7)));
    assert!(entries.contains(&(UciMove::Normal { from: 62, to: 45, promotion: None }, 9)));
}

#[test]
fn board_setup_fields_of_start_position() {
    let setup: BoardSetup = parse_fen("rnbqkbnr/pppppppp/8/8/8/8/PPPPPPPP/RNBQKBNR w KQkq - 0 1").unwrap();
    assert_eq!(setup.white, 0xffff);
    assert_eq!(setup.black, 0xffff_0000_0000_0000);
    assert_eq!(setup.pawns, 0x00ff_0000_0000_ff00);
    assert_eq!(setup.castling_rights, 0x8100_0000_0000_0081);
    assert_eq!(setup.ep_square, None);
}
