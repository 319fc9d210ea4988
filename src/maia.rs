//! A batch of evaluations up to the network call: the arity check, the rating
//! categories and the encoded positions.
use vstd::prelude::*;
use crate::board::{BoardSetup, Color};
use crate::elo::{elo_category, map_elos_to_categories};
use crate::error::MaiaError;
use crate::rules::{legal_moves_of, position_accepted};
use crate::tensor::{cell_value, preprocess, PreprocessedData, PLANES, PLANE_CELLS};

verus! {

/// Everything the network is given for a batch.
pub struct BatchInput {
    /// The encoded positions, their mirror flags and canonical positions.
    pub data: PreprocessedData,
    /// The rating category of the side to move, per position.
    pub elo_self: Vec<i64>,
    /// The rating category of the opponent, per position.
    pub elo_oppo: Vec<i64>,
}

/// Prepares a batch: one rating of each player per position, else
/// `ShapeError` before any encoding; then the categories of the ratings and
/// the encoding of the positions (which fails with `InvalidPosition` as
/// `preprocess` says).
pub fn prepare_batch(setups: Vec<BoardSetup>, elo_selfs: &[u32], elo_oppos: &[u32]) -> (r: Result<
    BatchInput,
    MaiaError,
>)
    requires
        setups@.len() * PLANE_CELLS <= usize::MAX,
        forall|i: int| 0 <= i < setups@.len() ==> (#[trigger] setups@[i]).wf(),
    ensures
        (elo_selfs@.len() == setups@.len() && elo_oppos@.len() == setups@.len() && forall|i: int|
            0 <= i < setups@.len() ==> position_accepted(#[trigger] setups@[i].spec_canonical()))
            ==> r is Ok,
        (elo_selfs@.len() != setups@.len() || elo_oppos@.len() != setups@.len()) ==> r
            == Err::<BatchInput, MaiaError>(MaiaError::ShapeError),
        (elo_selfs@.len() == setups@.len() && elo_oppos@.len() == setups@.len()) ==> match r {
            Ok(b) => {
                &&& b.elo_self@.len() == setups@.len()
                &&& b.elo_oppo@.len() == setups@.len()
                &&& forall|i: int|
                    0 <= i < setups@.len() ==> #[trigger] b.elo_self@[i] == elo_category(
                        elo_selfs@[i],
                    )
                &&& forall|i: int|
                    0 <= i < setups@.len() ==> #[trigger] b.elo_oppo@[i] == elo_category(
                        elo_oppos@[i],
                    )
                &&& b.data.board_tensor@.len() == setups@.len() * PLANE_CELLS
                &&& b.data.mirrored@.len() == setups@.len()
                &&& b.data.legal_moves@.len() == setups@.len()
                &&& b.data.canonical_setups@.len() == setups@.len()
                &&& forall|i: int|
                    0 <= i < setups@.len() ==> #[trigger] b.data.mirrored@[i] == (setups@[i].turn
                        == Color::Black)
                &&& forall|i: int|
                    0 <= i < setups@.len() ==> #[trigger] b.data.canonical_setups@[i]
                        == setups@[i].spec_canonical()
                &&& forall|i: int|
                    0 <= i < setups@.len() ==> position_accepted(
                        #[trigger] setups@[i].spec_canonical(),
                    )
                &&& forall|i: int|
                    0 <= i < setups@.len() ==> #[trigger] b.data.legal_moves@[i]@ == legal_moves_of(
                        setups@[i].spec_canonical(),
                    )
                &&& forall|i: int, k: int|
                    0 <= i < setups@.len() && 0 <= k < b.data.legal_moves@[i]@.len()
                        ==> (#[trigger] b.data.legal_moves@[i]@[k]).wf()
                &&& forall|i: int, c: int, sq: int|
                    0 <= i < setups@.len() && 0 <= c < PLANES && 0 <= sq < 64
                        ==> #[trigger] b.data.board_tensor@[i * 1152 + c * 64 + sq] == cell_value(
                        setups@[i].spec_canonical(),
                        c,
                        sq,
                    )
            },
            Err(e) => e == MaiaError::InvalidPosition && exists|i: int|
                0 <= i < setups@.len() && !position_accepted(
                    #[trigger] setups@[i].spec_canonical(),
                ),
        },
{
    let batch_size = setups.len();
    if elo_selfs.len() != batch_size || elo_oppos.len() != batch_size {
        return Err(MaiaError::ShapeError);
    }
    let data = match preprocess(setups, batch_size) {
        Ok(d) => d,
        Err(e) => {
            return Err(e);
        },
    };
    let elo_self = map_elos_to_categories(elo_selfs);
    let elo_oppo = map_elos_to_categories(elo_oppos);
    Ok(BatchInput { data, elo_self, elo_oppo })
}

} // verus!
