use stellar_structure::shell::{check_composition, CompositionFault, Element};

#[test]
fn valid_composition_is_accepted() {
    assert_eq!(check_composition(false, false, false, false), Ok(()));
}

#[test]
fn negative_hydrogen_is_reported() {
    assert_eq!(
        check_composition(true, false, false, false),
        Err(CompositionFault::NegativeFraction(Element::Hydrogen))
    );
}

#[test]
fn first_negative_fraction_wins() {
    assert_eq!(
        check_composition(false, true, true, true),
        Err(CompositionFault::NegativeFraction(Element::Helium))
    );
    assert_eq!(
        check_composition(true, true, true, true),
        Err(CompositionFault::NegativeFraction(Element::Hydrogen))
    );
    assert_eq!(
        check_composition(false, false, true, false),
        Err(CompositionFault::NegativeFraction(Element::Metals))
    );
}

#[test]
fn bad_sum_is_reported_when_no_fraction_is_negative() {
    assert_eq!(
        check_composition(false, false, false, true),
        Err(CompositionFault::InvalidSum)
    );
}

#[test]
fn negative_fraction_beats_bad_sum() {
    assert_eq!(
        check_composition(false, false, true, true),
        Err(CompositionFault::NegativeFraction(Element::Metals))
    );
}

#[test]
fn composition_from_measured_fractions() {
    // X = 0.7, Y = 0.28, Z = 0.02 sums to one; Y = -0.1 is negative.
    let eps = 1e-6;
    let (x, y, z) = (0.7f64, 0.28f64, 0.02f64);
    assert_eq!(
        check_composition(x < 0.0, y < 0.0, z < 0.0, (x + y + z - 1.0).abs() > eps),
        Ok(())
    );
    let (x, y, z) = (0.9f64, -0.1f64, 0.2f64);
    assert_eq!(
        check_composition(x < 0.0, y < 0.0, z < 0.0, (x + y + z - 1.0).abs() > eps),
        Err(CompositionFault::NegativeFraction(Element::Helium))
    );
    let (x, y, z) = (0.5f64, 0.2f64, 0.1f64);
    assert_eq!(
        check_composition(x < 0.0, y < 0.0, z < 0.0, (x + y + z - 1.0).abs() > eps),
        Err(CompositionFault::InvalidSum)
    );
}

#[test]
fn element_symbols() {
    assert_eq!(Element::Hydrogen.symbol(), "x");
    assert_eq!(Element::Helium.symbol(), "y");
    assert_eq!(Element::Metals.symbol(), "z");
}
