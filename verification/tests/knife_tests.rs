use antenna_deploy::knife::{fallback, initial_selection, KnifeSelection};

#[test]
fn initial_selection_true_is_primary() {
    assert_eq!(initial_selection(true), KnifeSelection::Primary);
}

#[test]
fn initial_selection_false_is_secondary() {
    assert_eq!(initial_selection(false), KnifeSelection::Secondary);
}

#[test]
fn fallback_gives_the_other_knife() {
    assert_eq!(fallback(KnifeSelection::Primary), KnifeSelection::Secondary);
    assert_eq!(fallback(KnifeSelection::Secondary), KnifeSelection::Primary);
}

#[test]
fn fallback_twice_is_identity() {
    for x in [KnifeSelection::Primary, KnifeSelection::Secondary] {
        assert_eq!(fallback(fallback(x)), x);
        assert_ne!(fallback(x), x);
    }
}
