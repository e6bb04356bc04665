//! Tests of the bearing-to-compass conversion.

use rannikkoasemat::compass::bearing_to_compass;

fn label(text: &str) -> Option<String> {
    bearing_to_compass(text)
}

#[test]
fn cardinal_points() {
    assert_eq!(label("0").as_deref(), Some("N"));
    assert_eq!(label("90").as_deref(), Some("E"));
    assert_eq!(label("180").as_deref(), Some("S"));
    assert_eq!(label("270").as_deref(), Some("W"));
}

#[test]
fn intercardinal_points() {
    assert_eq!(label("45").as_deref(), Some("NE"));
    assert_eq!(label("135").as_deref(), Some("SE"));
    assert_eq!(label("225").as_deref(), Some("SW"));
    assert_eq!(label("315").as_deref(), Some("NW"));
    assert_eq!(label("22.5").as_deref(), Some("NNE"));
    assert_eq!(label("67.5").as_deref(), Some("ENE"));
}

#[test]
fn boundary_resolves_to_the_higher_sector() {
    // Exactly between north and north-northeast: rounds half up.
    assert_eq!(label("11.25").as_deref(), Some("NNE"));
    // Just below the boundary stays north.
    assert_eq!(label("11.24").as_deref(), Some("N"));
    // Exactly between north-northwest and north wraps to north.
    assert_eq!(label("348.75").as_deref(), Some("N"));
    assert_eq!(label("348.74").as_deref(), Some("NNW"));
}

#[test]
fn fraction_digits_beyond_the_second_cannot_change_the_sector() {
    assert_eq!(label("11.249999").as_deref(), Some("N"));
    assert_eq!(label("348.749").as_deref(), Some("NNW"));
}

#[test]
fn out_of_range_bearings_are_normalized() {
    assert_eq!(label("360").as_deref(), Some("N"));
    assert_eq!(label("450").as_deref(), Some("E"));
    assert_eq!(label("720").as_deref(), Some("N"));
    assert_eq!(label("-90").as_deref(), Some("W"));
    assert_eq!(label("-0.0").as_deref(), Some("N"));
}

#[test]
fn decimal_forms() {
    assert_eq!(label("270.0").as_deref(), Some("W"));
    assert_eq!(label("5.").as_deref(), Some("N"));
    assert_eq!(label("+45").as_deref(), Some("NE"));
    assert_eq!(label("000090").as_deref(), Some("E"));
}

#[test]
fn unparseable_bearings_are_rejected() {
    assert_eq!(label("NaN"), None);
    assert_eq!(label(""), None);
    assert_eq!(label("-"), None);
    assert_eq!(label(".5"), None);
    assert_eq!(label("1e5"), None);
    assert_eq!(label("4 5"), None);
    assert_eq!(label("12,5"), None);
    assert_eq!(label("12.5.5"), None);
    assert_eq!(label("north"), None);
}
