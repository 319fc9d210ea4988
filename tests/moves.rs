use maia_codec::{select_policy_moves, MaiaError, MoveVocabulary, UciMove};

const SMALL_VOCABULARY: &str = r#"{"e2e4": 0, "d2d4": 1, "g1f3": 2, "e7e5": 3, "e1g1": 4, "a7a8q": 5}"#;

fn normal(from: u8, to: u8) -> UciMove {
    UciMove::Normal { from, to, promotion: None }
}

#[test]
fn test_all_moves_loaded() {
    let vocab = MoveVocabulary::from_json(SMALL_VOCABULARY).unwrap();
    assert!(!vocab.is_empty());
    assert_eq!(vocab.len(), 6);
}

#[test]
fn vocabulary_reads_moves_and_indices() {
    let vocab = MoveVocabulary::from_json(SMALL_VOCABULARY).unwrap();
    // e2 is 12, e4 is 28.
    assert_eq!(vocab.lookup(&normal(12, 28)), Some(0));
    assert_eq!(vocab.lookup(&normal(11, 27)), Some(1));
    assert_eq!(vocab.lookup(&normal(4, 6)), Some(4));
    // a7a8q: a7 is 48, a8 is 56, queen is role 5.
    assert_eq!(vocab.lookup(&UciMove::Normal { from: 48, to: 56, promotion: Some(5) }), Some(5));
    assert_eq!(vocab.lookup(&normal(48, 56)), None);
    assert_eq!(vocab.lookup(&normal(0, 1)), None);
}

#[test]
fn vocabulary_rejects_malformed_text() {
    assert!(matches!(MoveVocabulary::from_json("not json"), Err(MaiaError::VocabularyError)));
    assert!(matches!(MoveVocabulary::from_json(r#"{"e2e4": 0, "zz": 1}"#), Err(MaiaError::VocabularyError)));
    assert!(matches!(MoveVocabulary::from_json(r#"["e2e4"]"#), Err(MaiaError::VocabularyError)));
}

#[test]
fn mirrored_move_flips_ranks() {
    // e7e5 (52 -> 36) becomes e2e4 (12 -> 28).
    assert_eq!(normal(52, 36).mirrored(), normal(12, 28));
    assert_eq!(UciMove::Put { role: 5, to: 61 }.mirrored(), UciMove::Put { role: 5, to: 5 });
    assert_eq!(UciMove::Null.mirrored(), UciMove::Null);
}

#[test]
fn lookup_of_move_mirrored_twice() {
    let vocab = MoveVocabulary::from_json(SMALL_VOCABULARY).unwrap();
    for m in [normal(12, 28), normal(52, 36), normal(0, 1), UciMove::Normal { from: 48, to: 56, promotion: Some(5) }] {
        assert_eq!(vocab.lookup(&m.mirrored().mirrored()), vocab.lookup(&m));
    }
}

#[test]
fn policy_keeps_vocabulary_moves_in_order() {
    let vocab = MoveVocabulary::from_json(SMALL_VOCABULARY).unwrap();
    // g1f3, a2a3 (not in the vocabulary), e2e4.
    let legal = vec![normal(6, 21), normal(8, 16), normal(12, 28)];
    let entries = select_policy_moves(&legal, &vocab, false);
    assert_eq!(entries, vec![(normal(6, 21), 2), (normal(12, 28), 0)]);
}

#[test]
fn policy_mirrors_moves_back() {
    let vocab = MoveVocabulary::from_json(SMALL_VOCABULARY).unwrap();
    // Seen as e2e4 in the mirrored position, played as e7e5.
    let entries = select_policy_moves(&vec![normal(12, 28)], &vocab, true);
    assert_eq!(entries, vec![(normal(52, 36), 0)]);
}

#[test]
fn policy_of_no_legal_moves_is_empty() {
    let vocab = MoveVocabulary::from_json(SMALL_VOCABULARY).unwrap();
    assert!(select_policy_moves(&Vec::new(), &vocab, false).is_empty());
    assert!(select_policy_moves(&Vec::new(), &vocab, true).is_empty());
}

#[test]
fn vocabulary_reads_drops_null_and_upper_case_promotion() {
    let vocab = MoveVocabulary::from_json(r#"{"Q@f7": 0, "0000": 1, "a7a8Q": 2, "h2h1n": 3}"#).unwrap();
    assert_eq!(vocab.len(), 4);
    // f7 is 53.
    assert_eq!(vocab.lookup(&UciMove::Put { role: 5, to: 53 }), Some(0));
    assert_eq!(vocab.lookup(&UciMove::Null), Some(1));
    assert_eq!(vocab.lookup(&UciMove::Normal { from: 48, to: 56, promotion: Some(5) }), Some(2));
    assert_eq!(vocab.lookup(&UciMove::Normal { from: 15, to: 7, promotion: Some(2) }), Some(3));
    assert!(matches!(MoveVocabulary::from_json(r#"{"e2e9": 0}"#), Err(MaiaError::VocabularyError)));
    assert!(matches!(MoveVocabulary::from_json(r#"{"e2e4x": 0}"#), Err(MaiaError::VocabularyError)));
}
