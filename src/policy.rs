//! The move side of decoding: which legal moves the policy head scores, at
//! which index of its output, and in which frame they are reported.
use vstd::prelude::*;
use crate::moves::{MoveVocabulary, UciMove};
use crate::board::BoardSetup;
use crate::rules::{legal_moves_of, legal_uci_moves, position_accepted};

verus! {

/// The move as reported: mirrored back when the position was mirrored.
pub open spec fn reported_move(m: UciMove, mirrored: bool) -> UciMove {
    if mirrored {
        m.spec_mirrored()
    } else {
        m
    }
}

/// For each legal move (of the position the network saw) that the vocabulary
/// holds, in order: the move as played in the given position and its index
/// in the policy output. Moves outside the vocabulary are left out.
pub open spec fn policy_entries(legal: Seq<UciMove>, v: MoveVocabulary, mirrored: bool) -> Seq<
    (UciMove, usize),
>
    decreases legal.len(),
{
    if legal.len() == 0 {
        Seq::empty()
    } else {
        let rest = policy_entries(legal.drop_last(), v, mirrored);
        match v.spec_lookup(legal.last()) {
            Some(idx) => rest.push((reported_move(legal.last(), mirrored), idx)),
            None => rest,
        }
    }
}

/// There are never more entries than legal moves.
pub proof fn lemma_policy_entries_len(legal: Seq<UciMove>, v: MoveVocabulary, mirrored: bool)
    ensures
        policy_entries(legal, v, mirrored).len() <= legal.len(),
    decreases legal.len(),
{
    if legal.len() > 0 {
        lemma_policy_entries_len(legal.drop_last(), v, mirrored);
    }
}

/// A position without legal moves has an empty policy.
pub proof fn lemma_no_legal_moves_empty_policy(v: MoveVocabulary, mirrored: bool)
    ensures
        policy_entries(Seq::<UciMove>::empty(), v, mirrored).len() == 0,
{
}

/// Picks the legal moves that the vocabulary holds, with their indices (see
/// `policy_entries`).
pub fn select_policy_moves(legal: &Vec<UciMove>, vocab: &MoveVocabulary, mirrored: bool) -> (r: Vec<
    (UciMove, usize),
>)
    requires
        forall|i: int| 0 <= i < legal@.len() ==> (#[trigger] legal@[i]).wf(),
    ensures
        r@ == policy_entries(legal@, *vocab, mirrored),
        r@.len() <= legal@.len(),
{
    let mut out: Vec<(UciMove, usize)> = Vec::new();
    let mut i: usize = 0;
    while i < legal.len()
        invariant
            i <= legal@.len(),
            forall|j: int| 0 <= j < legal@.len() ==> (#[trigger] legal@[j]).wf(),
            out@ == policy_entries(legal@.take(i as int), *vocab, mirrored),
        decreases legal@.len() - i,
    {
        let m = legal[i];
        proof {
            assert(legal@.take(i as int + 1).drop_last() =~= legal@.take(i as int));
            assert(legal@.take(i as int + 1).last() == m);
        }
        match vocab.lookup(&m) {
            Some(idx) => {
                let shown = if mirrored {
                    m.mirrored()
                } else {
                    m
                };
                out.push((shown, idx));
            },
            None => {},
        }
        i += 1;
    }
    proof {
        assert(legal@.take(i as int) =~= legal@);
        lemma_policy_entries_len(legal@, *vocab, mirrored);
    }
    out
}

/// The policy entries of the position the network saw: its legal moves,
/// filtered and mirrored back as `policy_entries` says; `None` where the rules
/// engine does not accept the position.
pub fn policy_moves(s: &BoardSetup, vocab: &MoveVocabulary, mirrored: bool) -> (r: Option<
    Vec<(UciMove, usize)>,
>)
    requires
        s.wf(),
    ensures
        r is Some == position_accepted(*s),
        r matches Some(v) ==> v@ == policy_entries(legal_moves_of(*s), *vocab, mirrored),
{
    match legal_uci_moves(s) {
        Some(legal) => Some(select_policy_moves(&legal, vocab, mirrored)),
        None => None,
    }
}

} // verus!
