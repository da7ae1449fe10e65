use funding_arb::names::market_names_match;

#[test]
fn a_spot_name_matches_the_perp_base_name() {
    assert!(market_names_match(b"SOL", b"SOL-PERP"));
    assert!(market_names_match(b"SOL", b"SOL"));
}

#[test]
fn names_are_trimmed_before_comparison() {
    assert!(market_names_match(b" SOL \t", b"  SOL-PERP\n"));
    assert!(market_names_match(b"SOL", b"SOL-PERP   "));
}

#[test]
fn different_underlyings_do_not_match() {
    assert!(!market_names_match(b"BTC", b"SOL-PERP"));
    assert!(!market_names_match(b"SOL-X", b"SOL-PERP"));
    assert!(!market_names_match(b"SOLL", b"SOL-PERP"));
    assert!(!market_names_match(b"SO", b"SOL-PERP"));
}

#[test]
fn empty_names_match_trivially() {
    assert!(market_names_match(b"", b""));
    assert!(market_names_match(b"   ", b" - "));
}
