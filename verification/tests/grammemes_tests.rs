use renert::morph::grammemes::{
    grammem_to_opencorpora, opencorpora_to_grammem, parse_opencorpora_grammemes, Case, Gender,
    Grammeme, Number, Other, ParteSpeech,
};

const ALL_CODES: &[&str] = &["NOUN", "ADJF", "ADJS", "COMP", "VERB", "INFN", "PRTF", "PRTS", "GRND", "NUMR", "ADVB", "NPRO", "PRED", "PREP", "CONJ", "PRCL", "INTJ", "anim", "inan", "Inmx", "perf", "impf", "Fixd", "nomn", "gent", "datv", "accs", "ablt", "loct", "voct", "gen2", "acc2", "loc2", "masc", "femn", "neut", "ms-f", "Ms-f", "GNdr", "incl", "excl", "indc", "impr", "sing", "plur", "Sgtm", "Pltm", "tran", "intr", "past", "pres", "futr", "actv", "pssv", "1per", "2per", "3per", "Impe", "Impx", "Abbr", "Name", "Surn", "Patr", "Geox", "Orgn", "Trad", "Subx", "Supr", "Qual", "Apro", "Anum", "Poss", "Ques", "Dmns", "Anph", "Cmp2", "V-ey", "V-oy", "V-ej", "V-be", "V-en", "V-ie", "V-bi", "V-sh", "Mult", "Refl", "Infr", "Slng", "Arch", "Litr", "Erro", "Dist", "Prnt", "Fimp", "Prdx", "Coun", "Coll", "Af-p", "Vpre", "Init", "Adjx", "Hypo"];

#[test]
fn test_parse_opencorpora_grammemes_filters_invalid_values() {
    let grams = Some(
        &[
            "nomn".to_string(),
            "invalid".to_string(),
            "sing".to_string(),
        ][..],
    );
    let parsed = parse_opencorpora_grammemes(grams).expect("must keep valid grammemes");
    assert_eq!(parsed.len(), 2);
}

#[test]
fn test_parse_opencorpora_grammemes_none_on_empty_or_invalid_input() {
    assert!(parse_opencorpora_grammemes(None).is_none());
    assert!(parse_opencorpora_grammemes(Some(&["bad".to_string()][..])).is_none());
}

#[test]
fn parsed_grammemes_keep_the_order_of_the_codes() {
    let codes = ["plur".to_string(), "x".to_string(), "gent".to_string(), "femn".to_string()];
    let parsed = parse_opencorpora_grammemes(Some(&codes[..])).unwrap();
    assert_eq!(
        parsed,
        vec![
            Grammeme::Number(Number::Plural),
            Grammeme::Case(Case::Genetivus),
            Grammeme::Gender(Gender::Feminine),
        ]
    );
    assert!(parse_opencorpora_grammemes(Some(&[][..])).is_none());
}

#[test]
fn codes_and_grammemes_correspond() {
    assert_eq!(opencorpora_to_grammem("nomn"), Some(Grammeme::Case(Case::Nominativus)));
    assert_eq!(opencorpora_to_grammem("NOUN"), Some(Grammeme::ParteSpeech(ParteSpeech::Noun)));
    assert_eq!(opencorpora_to_grammem("ms-f"), Some(Grammeme::Gender(Gender::Common)));
    assert_eq!(opencorpora_to_grammem("Cmp2"), Some(Grammeme::Other(Other::Comparative)));
    assert_eq!(grammem_to_opencorpora(&Grammeme::ParteSpeech(ParteSpeech::Comparative)), "COMP");
    assert_eq!(grammem_to_opencorpora(&Grammeme::Gender(Gender::CommonWavering)), "Ms-f");
    assert_eq!(opencorpora_to_grammem("noun"), None);
    assert_eq!(opencorpora_to_grammem(""), None);
}

#[test]
fn every_code_reads_back_to_itself() {
    assert_eq!(ALL_CODES.len(), 102);
    for code in ALL_CODES {
        let g = opencorpora_to_grammem(code).expect("known code");
        assert_eq!(grammem_to_opencorpora(&g), *code);
    }
}

#[test]
fn the_catch_all_grammeme_has_a_code_that_reads_as_nothing() {
    let code = grammem_to_opencorpora(&Grammeme::Other(Other::Other));
    assert_eq!(code, "Other");
    assert_eq!(opencorpora_to_grammem(code), None);
}
