use renert::morph::models::Grams;

#[test]
fn test_grams_new_contains() {
    let grams = Grams::new(&["NOUN", "nomn", "sing"]);
    assert!(grams.contains("NOUN"));
    assert!(grams.contains("nomn"));
    assert!(grams.contains("sing"));
    assert!(!grams.contains("plur"));
}

#[test]
fn test_gender_from_grams() {
    let grams = Grams::new(&["masc", "femn", "neut", "ms-f", "GNdr"]);
    let g = grams.gender();
    assert!(g.male);
    assert!(g.female);
    assert!(g.neutral);
    assert!(g.bi);
    assert!(g.general);
}

#[test]
fn test_number_from_grams() {
    let grams = Grams::new(&["sing", "plur", "Sgtm", "Pltm"]);
    let n = grams.number();
    assert!(n.single);
    assert!(n.plural);
    assert!(n.only_single);
    assert!(n.only_plural);
}

#[test]
fn test_case_from_grams() {
    let grams = Grams::new(&["nomn", "gent", "Fixd"]);
    let c = grams.case();
    assert!(c.mask[0]);
    assert!(c.mask[1]);
    assert!(!c.mask[2]);
    assert!(!c.mask[3]);
    assert!(!c.mask[4]);
    assert!(!c.mask[5]);
    assert!(!c.mask[6]);
    assert!(c.fixed);
}

#[test]
fn empty_grams_have_no_gender_number_or_case() {
    let grams = Grams::empty();
    let g = grams.gender();
    assert!(!g.male && !g.female && !g.neutral && !g.bi && !g.general);
    assert_eq!(grams.case().mask, [false; 7]);
    assert_eq!(Grams::new(&["sing", "sing"]).values, vec!["sing".to_string()]);
}
