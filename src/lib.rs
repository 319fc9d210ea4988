//! A verified codec between chess positions and the tensor interface of the
//! Maia2 policy/value network.
//!
//! The library encodes positions (always presented from the side to move),
//! buckets player ratings into the network's categories, keeps the fixed move
//! vocabulary, and turns legal moves of a canonical position back into the
//! vocabulary entries that the network's policy head scores.
mod board;
mod elo;
mod error;
mod maia;
mod moves;
mod policy;
mod rules;
mod tensor;

pub use board::{
    flip_bitboard, flip_square, flip_vertical, has_square, lemma_canonical_white_to_move,
    lemma_flip_vertical_square, lemma_mirror_squares, lemma_mirror_twice, lemma_mirror_wf, BoardSetup,
    Color,
};
pub use elo::{elo_category, elo_to_category, map_elos_to_categories, MaiaElo, MAIA_ELOS};
pub use error::MaiaError;
pub use maia::{prepare_batch, BatchInput};
pub use moves::{
    all_keys_parse, index_map, json_index_entries, lemma_lookup_mirror_twice, lemma_mirror_involution,
    lemma_uci_move_of_wf, parsed_entries, role_of_char, square_of_chars, uci_move_of, valid_role,
    MoveVocabulary, UciMove,
};
pub use policy::{
    lemma_no_legal_moves_empty_policy, lemma_policy_entries_len, policy_entries, policy_moves,
    reported_move, select_policy_moves,
};
pub use rules::{fen_setup_of, legal_moves_of, legal_uci_moves, parse_fen, position_accepted};
pub use tensor::{
    board_to_tensor, castle_flag, cell, cell_value, preprocess, PreprocessedData, PLANES, PLANE_CELLS,
};


/// The rules engine, for building positions.
pub use shakmaty;
