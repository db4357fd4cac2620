use tendermint_node::error::{Error, RollbackError};
use tendermint_node::rollback::parse_rollback_output;
use tendermint_node::supervisor::rollback_height;

#[test]
fn parses_height_from_report() {
    let out = "I[2023] some log\nRolled back state to height 42 and hash 0ABC\n";
    assert_eq!(parse_rollback_output(out), Ok(42));
}

#[test]
fn parses_height_after_extra_whitespace() {
    let out = "Rolled back state to height \t\n  18446744073709551615 and hash X";
    assert_eq!(parse_rollback_output(out), Ok(u64::MAX));
}

#[test]
fn accepts_plus_sign() {
    assert_eq!(parse_rollback_output("Rolled back state to height +7 and hash H"), Ok(7));
}

#[test]
fn first_occurrence_counts() {
    let out = "Rolled back state to height 3 and hash A Rolled back state to height 9";
    assert_eq!(parse_rollback_output(out), Ok(3));
}

#[test]
fn missing_phrase_is_reported() {
    assert_eq!(parse_rollback_output("nothing happened"), Err(RollbackError::PhraseNotFound));
    assert_eq!(parse_rollback_output(""), Err(RollbackError::PhraseNotFound));
    assert_eq!(parse_rollback_output("rolled back state to height 5"), Err(RollbackError::PhraseNotFound));
}

#[test]
fn missing_token_is_reported() {
    assert_eq!(parse_rollback_output("Rolled back state to height"), Err(RollbackError::MissingHeight));
    assert_eq!(parse_rollback_output("Rolled back state to height   \n"), Err(RollbackError::MissingHeight));
}

#[test]
fn unparseable_token_is_reported() {
    assert_eq!(parse_rollback_output("Rolled back state to height abc and hash H"), Err(RollbackError::InvalidHeight));
    assert_eq!(parse_rollback_output("Rolled back state to height -1"), Err(RollbackError::InvalidHeight));
    assert_eq!(parse_rollback_output("Rolled back state to height +"), Err(RollbackError::InvalidHeight));
    assert_eq!(parse_rollback_output("Rolled back state to height 12x"), Err(RollbackError::InvalidHeight));
    assert_eq!(
        parse_rollback_output("Rolled back state to height 18446744073709551616 and hash H"),
        Err(RollbackError::InvalidHeight)
    );
}

#[test]
fn token_glued_to_phrase() {
    assert_eq!(parse_rollback_output("Rolled back state to height5 x"), Ok(5));
}

#[test]
fn rollback_height_maps_errors() {
    assert!(matches!(rollback_height("Rolled back state to height 10 and hash H"), Ok(10)));
    assert!(matches!(
        rollback_height("no report"),
        Err(Error::RollBackOutput(RollbackError::PhraseNotFound))
    ));
}
