//! Moves in long algebraic notation and the network's move vocabulary, which
//! gives every move the network can score its index in the policy output.
use vstd::prelude::*;
use std::collections::HashMap;
use crate::error::MaiaError;

verus! {

broadcast use vstd::std_specs::hash::group_hash_axioms;

/// A move in long algebraic (UCI) notation, with squares numbered
/// `rank * 8 + file` and roles numbered 1 (pawn) to 6 (king).
#[derive(Clone, Copy, Debug, PartialEq, Eq, Structural)]
pub enum UciMove {
    /// A move from one square to another, e.g. `e2e4` or `h2h1q`.
    Normal { from: u8, to: u8, promotion: Option<u8> },
    /// A piece drop, e.g. `Q@f7`.
    Put { role: u8, to: u8 },
    /// The null move `0000`.
    Null,
}

/// Roles are numbered 1 (pawn) to 6 (king).
pub open spec fn valid_role(r: u8) -> bool {
    1 <= r <= 6
}

impl UciMove {
    /// Squares on the board and roles in range.
    pub open spec fn wf(self) -> bool {
        match self {
            UciMove::Normal { from, to, promotion } => from < 64 && to < 64 && match promotion {
                Some(r) => valid_role(r),
                None => true,
            },
            UciMove::Put { role, to } => valid_role(role) && to < 64,
            UciMove::Null => true,
        }
    }

    /// The same move on the board reflected top to bottom.
    pub open spec fn spec_mirrored(self) -> UciMove {
        match self {
            UciMove::Normal { from, to, promotion } => UciMove::Normal {
                from: from ^ 56u8,
                to: to ^ 56u8,
                promotion,
            },
            UciMove::Put { role, to } => UciMove::Put { role, to: to ^ 56u8 },
            UciMove::Null => UciMove::Null,
        }
    }

    /// Mirrors the move (see `spec_mirrored`).
    pub fn mirrored(&self) -> (r: UciMove)
        ensures
            r == self.spec_mirrored(),
    {
        match *self {
            UciMove::Normal { from, to, promotion } => UciMove::Normal {
                from: from ^ 56u8,
                to: to ^ 56u8,
                promotion,
            },
            UciMove::Put { role, to } => UciMove::Put { role, to: to ^ 56u8 },
            UciMove::Null => UciMove::Null,
        }
    }

    /// A number that tells well-formed moves apart.
    pub open spec fn spec_key(self) -> u64 {
        match self {
            UciMove::Normal { from, to, promotion } => (from * 512 + to * 8 + match promotion {
                Some(r) => r as int,
                None => 0,
            }) as u64,
            UciMove::Put { role, to } => (32768 + role * 64 + to) as u64,
            UciMove::Null => 40000,
        }
    }

    /// The key of the move (see `spec_key`).
    pub fn key(&self) -> (r: u64)
        requires
            self.wf(),
        ensures
            r == self.spec_key(),
    {
        match *self {
            UciMove::Normal { from, to, promotion } => {
                let p: u64 = match promotion {
                    Some(r) => r as u64,
                    None => 0,
                };
                from as u64 * 512 + to as u64 * 8 + p
            },
            UciMove::Put { role, to } => 32768 + role as u64 * 64 + to as u64,
            UciMove::Null => 40000,
        }
    }
}

/// Mirroring a well-formed move twice gives the move back.
pub proof fn lemma_mirror_involution(m: UciMove)
    requires
        m.wf(),
    ensures
        m.spec_mirrored().spec_mirrored() == m,
        m.spec_mirrored().wf(),
{
    match m {
        UciMove::Normal { from, to, promotion } => {
            assert((from ^ 56u8) ^ 56u8 == from) by (bit_vector);
            assert((to ^ 56u8) ^ 56u8 == to) by (bit_vector);
            assert(from < 64 ==> (from ^ 56u8) < 64) by (bit_vector);
            assert(to < 64 ==> (to ^ 56u8) < 64) by (bit_vector);
        },
        UciMove::Put { role, to } => {
            assert((to ^ 56u8) ^ 56u8 == to) by (bit_vector);
            assert(to < 64 ==> (to ^ 56u8) < 64) by (bit_vector);
        },
        UciMove::Null => {},
    }
}

/// The square written as a file letter `a`-`h` and a rank digit `1`-`8`.
pub open spec fn square_of_chars(file: char, rank: char) -> Option<u8> {
    let f = file as u32;
    let r = rank as u32;
    if 97 <= f <= 104 && 49 <= r <= 56 {
        Some(((r - 49) * 8 + (f - 97)) as u8)
    } else {
        None
    }
}

/// The role written as a letter of `pnbrqk`, in either case.
pub open spec fn role_of_char(c: char) -> Option<u8> {
    if c == 'p' || c == 'P' {
        Some(1u8)
    } else if c == 'n' || c == 'N' {
        Some(2u8)
    } else if c == 'b' || c == 'B' {
        Some(3u8)
    } else if c == 'r' || c == 'R' {
        Some(4u8)
    } else if c == 'q' || c == 'Q' {
        Some(5u8)
    } else if c == 'k' || c == 'K' {
        Some(6u8)
    } else {
        None
    }
}

/// The move written in long algebraic notation: `0000` for the null move,
/// a role letter, `@` and a square for a drop, or two squares and an optional
/// promotion letter.
pub open spec fn uci_move_of(t: Seq<char>) -> Option<UciMove> {
    if t.len() == 4 {
        if t[0] == '0' && t[1] == '0' && t[2] == '0' && t[3] == '0' {
            Some(UciMove::Null)
        } else if t[1] == '@' {
            match (role_of_char(t[0]), square_of_chars(t[2], t[3])) {
                (Some(role), Some(to)) => Some(UciMove::Put { role, to }),
                _ => None,
            }
        } else {
            match (square_of_chars(t[0], t[1]), square_of_chars(t[2], t[3])) {
                (Some(from), Some(to)) => Some(UciMove::Normal { from, to, promotion: None }),
                _ => None,
            }
        }
    } else if t.len() == 5 {
        match (square_of_chars(t[0], t[1]), square_of_chars(t[2], t[3]), role_of_char(t[4])) {
            (Some(from), Some(to), Some(p)) => Some(UciMove::Normal { from, to, promotion: Some(p) }),
            _ => None,
        }
    } else {
        None
    }
}

/// Every move that reads from a text is well formed.
pub proof fn lemma_uci_move_of_wf(t: Seq<char>)
    ensures
        uci_move_of(t) matches Some(m) ==> m.wf(),
{
}

/// The entries of a JSON object that maps texts to indices, in key order, as
/// serde_json reads it; `None` where the text is no such object.
pub uninterp spec fn json_index_entries(text: Seq<char>) -> Option<Seq<(Seq<char>, usize)>>;

/// Relies on shakmaty's `UciMove::from_ascii` to read long algebraic
/// notation. It reads the text's bytes; a byte outside ASCII never matches, so
/// reading the characters gives the same moves.
#[verifier::external_body]
fn parse_uci(text: &str) -> (r: Option<UciMove>)
    ensures
        r == uci_move_of(text@),
{
    match shakmaty::uci::UciMove::from_ascii(text.as_bytes()) {
        Ok(shakmaty::uci::UciMove::Normal { from, to, promotion }) => Some(
            UciMove::Normal { from: from as u8, to: to as u8, promotion: promotion.map(|r| r as u8) },
        ),
        Ok(shakmaty::uci::UciMove::Put { role, to }) => Some(
            UciMove::Put { role: role as u8, to: to as u8 },
        ),
        Ok(shakmaty::uci::UciMove::Null) => Some(UciMove::Null),
        Err(_) => None,
    }
}

/// Relies on serde_json's `from_str` reading a JSON object into a
/// `BTreeMap<String, usize>`, whose entries come out in key order.
#[verifier::external_body]
fn parse_json_index(text: &str) -> (r: Option<Vec<(String, usize)>>)
    ensures
        match r {
            Some(v) => json_index_entries(text@) == Some(entries_view(v@)),
            None => json_index_entries(text@) is None,
        },
{
    serde_json::from_str::<std::collections::BTreeMap<String, usize>>(text).ok().map(
        |m| m.into_iter().collect(),
    )
}

/// The entries with their texts as character sequences.
pub open spec fn entries_view(v: Seq<(String, usize)>) -> Seq<(Seq<char>, usize)> {
    Seq::new(v.len(), |i: int| (v[i].0@, v[i].1))
}

/// Every key of the entries reads as a move.
pub open spec fn all_keys_parse(es: Seq<(Seq<char>, usize)>) -> bool {
    forall|i: int| 0 <= i < es.len() ==> (#[trigger] uci_move_of(es[i].0)) is Some
}

/// The entries with their keys read as moves.
pub open spec fn parsed_entries(es: Seq<(Seq<char>, usize)>) -> Seq<(UciMove, usize)> {
    Seq::new(es.len(), |i: int| (uci_move_of(es[i].0)->0, es[i].1))
}

/// The table that inserting the entries one after another gives.
pub open spec fn index_map(ms: Seq<(UciMove, usize)>) -> Map<u64, usize>
    decreases ms.len(),
{
    if ms.len() == 0 {
        Map::empty()
    } else {
        index_map(ms.drop_last()).insert(ms.last().0.spec_key(), ms.last().1)
    }
}

/// The fixed table from moves to indices of the network's policy output.
pub struct MoveVocabulary {
    index: HashMap<u64, usize>,
}

impl View for MoveVocabulary {
    type V = Map<u64, usize>;

    closed spec fn view(&self) -> Map<u64, usize> {
        self.index@
    }
}

impl MoveVocabulary {
    /// The index of a move, if the vocabulary holds it.
    pub open spec fn spec_lookup(&self, m: UciMove) -> Option<usize> {
        if self@.contains_key(m.spec_key()) {
            Some(self@[m.spec_key()])
        } else {
            None
        }
    }

    /// Looks a move up; moves that the vocabulary omits give `None`.
    pub fn lookup(&self, m: &UciMove) -> (r: Option<usize>)
        requires
            m.wf(),
        ensures
            r == self.spec_lookup(*m),
    {
        let k = m.key();
        match self.index.get(&k) {
            Some(i) => Some(*i),
            None => None,
        }
    }

    /// Number of entries.
    pub fn len(&self) -> (r: usize)
        ensures
            r == self@.len(),
    {
        self.index.len()
    }

    /// Whether the vocabulary has no entry.
    pub fn is_empty(&self) -> (r: bool)
        ensures
            r == (self@.len() == 0),
    {
        self.index.len() == 0
    }

    /// Builds the vocabulary from a JSON object that maps move texts to
    /// indices. It fails when the text is not such an object or one of its
    /// keys is not a move.
    pub fn from_json(text: &str) -> (r: Result<MoveVocabulary, MaiaError>)
        ensures
            match r {
                Ok(v) => match json_index_entries(text@) {
                    Some(es) => all_keys_parse(es) && v@ == index_map(parsed_entries(es)),
                    None => false,
                },
                Err(e) => e == MaiaError::VocabularyError && match json_index_entries(text@) {
                    Some(es) => !all_keys_parse(es),
                    None => true,
                },
            },
    {
        let entries = match parse_json_index(text) {
            Some(v) => v,
            None => {
                return Err(MaiaError::VocabularyError);
            },
        };
        let ghost es = entries_view(entries@);
        let mut index: HashMap<u64, usize> = HashMap::new();
        let mut i: usize = 0;
        while i < entries.len()
            invariant
                i <= entries@.len(),
                es == entries_view(entries@),
                json_index_entries(text@) == Some(es),
                forall|j: int| 0 <= j < i ==> (#[trigger] uci_move_of(es[j].0)) is Some,
                index@ == index_map(parsed_entries(es).take(i as int)),
            decreases entries@.len() - i,
        {
            let key_text = entries[i].0.as_str();
            assert(key_text@ == es[i as int].0);
            proof {
                lemma_uci_move_of_wf(key_text@);
            }
            let m = match parse_uci(key_text) {
                Some(m) => m,
                None => {
                    assert(uci_move_of(es[i as int].0) is None);
                    return Err(MaiaError::VocabularyError);
                },
            };
            let k = m.key();
            index.insert(k, entries[i].1);
            proof {
                let ps = parsed_entries(es);
                assert(ps.take(i as int + 1).drop_last() =~= ps.take(i as int));
            }
            i += 1;
        }
        proof {
            assert(parsed_entries(es).take(i as int) =~= parsed_entries(es));
        }
        Ok(MoveVocabulary { index })
    }
}

/// Looking up a move mirrored twice is looking up the move.
pub proof fn lemma_lookup_mirror_twice(v: &MoveVocabulary, m: UciMove)
    requires
        m.wf(),
    ensures
        v.spec_lookup(m.spec_mirrored().spec_mirrored()) == v.spec_lookup(m),
{
    lemma_mirror_involution(m);
}

} // verus!
