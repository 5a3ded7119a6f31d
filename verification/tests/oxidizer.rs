use oxidizer::OxidationAlgorithm;
use oxidizer::OxidationLevel;
use oxidizer::Oxidizer;
use oxidizer::OxidizerError;
use oxidizer::eq_ignore_case;

#[test]
fn test_consume_and_collect() {
    let mut oxidizer: Oxidizer<f32> = Oxidizer::new();
    let data = vec![0.5, -0.5, 0.2];
    oxidizer.consume(data.clone());
    let output = oxidizer.collect_samples();
    assert_eq!(data, output);
}

#[test]
fn test_consume_and_collect_empty() {
    let mut oxidizer: Oxidizer<f32> = Oxidizer::new();
    oxidizer.consume(vec![]);
    let output = oxidizer.collect_samples();
    assert!(output.is_empty());
}

#[test]
fn test_collect_leaves_engine_empty_for_reuse() {
    let mut oxidizer: Oxidizer<i32> = Oxidizer::new();
    oxidizer.consume(vec![1, 2, 3, 4]);
    let first = oxidizer.collect_samples();
    assert_eq!(first, vec![1, 2, 3, 4]);

    // A second collect without a consume hands back an empty buffer.
    let empty = oxidizer.collect_samples();
    assert!(empty.is_empty());

    // The engine is ready for a fresh buffer.
    oxidizer.consume(vec![9, 8]);
    assert_eq!(oxidizer.collect_samples(), vec![9, 8]);
}

#[test]
fn test_consume_replaces_previous_buffer() {
    let mut oxidizer: Oxidizer<u8> = Oxidizer::new();
    oxidizer.consume(vec![1, 2, 3]);
    oxidizer.consume(vec![4, 5]);
    assert_eq!(oxidizer.collect_samples(), vec![4, 5]);
}

#[test]
fn test_default_engine_is_empty() {
    let mut oxidizer: Oxidizer<f32> = Oxidizer::default();
    assert!(oxidizer.collect_samples().is_empty());
}

#[test]
fn test_level_parsing_case_insensitive() {
    assert_eq!(
        OxidationLevel::try_from_str("Clear").unwrap(),
        OxidationLevel::Clear
    );
    assert_eq!(
        OxidationLevel::try_from_str("CLEAR").unwrap(),
        OxidationLevel::Clear
    );
    assert_eq!(
        OxidationLevel::try_from_str("clear").unwrap(),
        OxidationLevel::Clear
    );
    assert_eq!(
        OxidationLevel::try_from_str("deep").unwrap(),
        OxidationLevel::Deep
    );
    assert_eq!(
        OxidationLevel::try_from_str("DeEp").unwrap(),
        OxidationLevel::Deep
    );
    assert_eq!(
        OxidationLevel::try_from_str("muffled").unwrap(),
        OxidationLevel::Muffled
    );
    assert_eq!(
        OxidationLevel::try_from_str("MUFFLED").unwrap(),
        OxidationLevel::Muffled
    );
}

#[test]
fn test_level_parsing_rejects_unknown() {
    match OxidationLevel::try_from_str("loud") {
        Err(OxidizerError::InvalidValue(s)) => assert_eq!(s, "loud"),
        other => panic!("expected InvalidValue(\"loud\"), got {:?}", other),
    }
    match OxidationLevel::try_from_str("") {
        Err(OxidizerError::InvalidValue(s)) => assert_eq!(s, ""),
        other => panic!("expected InvalidValue(\"\"), got {:?}", other),
    }
    // A keyword with trailing text does not match.
    assert!(OxidationLevel::try_from_str("clearer").is_err());
    assert!(OxidationLevel::try_from_str(" clear").is_err());
}

#[test]
fn test_algorithm_selector() {
    assert_eq!(
        OxidationAlgorithm::from_selector("light"),
        OxidationAlgorithm::Light
    );
    assert_eq!(
        OxidationAlgorithm::from_selector("LIGHT"),
        OxidationAlgorithm::Light
    );
    assert_eq!(
        OxidationAlgorithm::from_selector("HeAvY"),
        OxidationAlgorithm::Heavy
    );
    assert_eq!(
        OxidationAlgorithm::from_selector("brown"),
        OxidationAlgorithm::Brown
    );
    // Anything unrecognized falls back to Brown.
    assert_eq!(
        OxidationAlgorithm::from_selector("sepia"),
        OxidationAlgorithm::Brown
    );
    assert_eq!(
        OxidationAlgorithm::from_selector(""),
        OxidationAlgorithm::Brown
    );
}

#[test]
fn test_eq_ignore_case_ascii() {
    assert!(eq_ignore_case("AbC", "aBc"));
    assert!(eq_ignore_case("", ""));
    assert!(!eq_ignore_case("ab", "abc"));
    assert!(!eq_ignore_case("abd", "abc"));
    // Case folding is ASCII-only: accented letters must match exactly.
    assert!(eq_ignore_case("caf\u{e9}", "CAF\u{e9}"));
    assert!(!eq_ignore_case("caf\u{e9}", "CAF\u{c9}"));
}
