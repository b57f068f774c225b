use idna_adapter::adapter::VIRAMA;
use idna_adapter::{first_bc_mask, last_ltr_mask, rtl_mask, Adapter, BidiClassValue, JoiningTypeValue};

fn chars(s: &str) -> Vec<char> {
    s.chars().collect()
}

#[test]
fn virama_is_combining_class_nine() {
    let adapter = Adapter::new();
    assert_eq!(VIRAMA, 9);
    // DEVANAGARI SIGN VIRAMA, BENGALI SIGN VIRAMA, TAMIL SIGN VIRAMA
    assert!(adapter.is_virama('\u{094D}'));
    assert!(adapter.is_virama('\u{09CD}'));
    assert!(adapter.is_virama('\u{0BCD}'));
    // COMBINING ACUTE ACCENT has class 230, DEVANAGARI SIGN NUKTA class 7.
    assert!(!adapter.is_virama('\u{0301}'));
    assert!(!adapter.is_virama('\u{093C}'));
    assert!(!adapter.is_virama('a'));
    assert!(!adapter.is_virama('\u{0915}'));
}

#[test]
fn marks_of_each_subcategory() {
    let adapter = Adapter::new();
    // Nonspacing: COMBINING ACUTE ACCENT
    assert!(adapter.is_mark('\u{0301}'));
    // Spacing: DEVANAGARI SIGN VISARGA
    assert!(adapter.is_mark('\u{0903}'));
    // Enclosing: COMBINING ENCLOSING CIRCLE
    assert!(adapter.is_mark('\u{20DD}'));
    assert!(!adapter.is_mark('a'));
    assert!(!adapter.is_mark('1'));
    assert!(!adapter.is_mark(' '));
}

#[test]
fn bidi_class_of_each_value() {
    let adapter = Adapter::new();
    let samples = [
        ('\u{0627}', BidiClassValue::AL),
        ('\u{0660}', BidiClassValue::AN),
        ('\u{000A}', BidiClassValue::B),
        ('\u{0000}', BidiClassValue::BN),
        (',', BidiClassValue::CS),
        ('0', BidiClassValue::EN),
        ('+', BidiClassValue::ES),
        ('#', BidiClassValue::ET),
        ('\u{2068}', BidiClassValue::FSI),
        ('a', BidiClassValue::L),
        ('\u{202A}', BidiClassValue::LRE),
        ('\u{2066}', BidiClassValue::LRI),
        ('\u{202D}', BidiClassValue::LRO),
        ('\u{0300}', BidiClassValue::NSM),
        ('!', BidiClassValue::ON),
        ('\u{202C}', BidiClassValue::PDF),
        ('\u{2069}', BidiClassValue::PDI),
        ('\u{05D0}', BidiClassValue::R),
        ('\u{202B}', BidiClassValue::RLE),
        ('\u{2067}', BidiClassValue::RLI),
        ('\u{202E}', BidiClassValue::RLO),
        ('\u{0009}', BidiClassValue::S),
        (' ', BidiClassValue::WS),
    ];
    for (c, expected) in samples {
        assert_eq!(adapter.bidi_class(c).value(), expected, "U+{:04X}", c as u32);
    }
}

#[test]
fn bidi_class_of_unlisted_code_point_is_left_to_right() {
    let adapter = Adapter::new();
    assert_eq!(adapter.bidi_class('\u{30000}').value(), BidiClassValue::L);
    assert_eq!(adapter.bidi_class('\u{FFFF}').value(), BidiClassValue::L);
    assert!(adapter.bidi_class('\u{10FFFF}').is_ltr());
}

#[test]
fn bidi_predicates_on_code_points() {
    let adapter = Adapter::new();
    assert!(adapter.bidi_class('a').is_ltr());
    assert!(!adapter.bidi_class('\u{05D0}').is_ltr());
    assert!(adapter.bidi_class('\u{0300}').is_nonspacing_mark());
    assert!(!adapter.bidi_class('a').is_nonspacing_mark());
    assert!(adapter.bidi_class('7').is_european_number());
    assert!(!adapter.bidi_class('\u{0667}').is_european_number());
    assert!(adapter.bidi_class('\u{0667}').is_arabic_number());
    assert!(!adapter.bidi_class('7').is_arabic_number());
}

#[test]
fn alef_is_an_arabic_letter() {
    let adapter = Adapter::new();
    let alef = adapter.bidi_class('\u{0627}');
    assert_eq!(alef.value(), BidiClassValue::AL);
    assert!(alef.to_mask().intersects(rtl_mask()));
    assert!(rtl_mask().intersects(alef.to_mask()));
    assert!(alef.to_mask().intersects(first_bc_mask()));
    assert!(!alef.to_mask().intersects(last_ltr_mask()));
}

#[test]
fn class_mask_of_a_code_point_intersects_itself() {
    let adapter = Adapter::new();
    for c in ['a', '0', ' ', '\u{0627}', '\u{05D0}', '\u{0300}', '\u{202E}', '\u{10FFFF}'] {
        let mask = adapter.bidi_class(c).to_mask();
        assert!(mask.intersects(mask), "U+{:04X}", c as u32);
        let mask = adapter.joining_type(c).to_mask();
        assert!(mask.intersects(mask), "U+{:04X}", c as u32);
    }
}

#[test]
fn joining_type_of_each_value() {
    let adapter = Adapter::new();
    let samples = [
        ('\u{06BE}', JoiningTypeValue::DualJoining),
        ('\u{0640}', JoiningTypeValue::JoinCausing),
        ('\u{10ACD}', JoiningTypeValue::LeftJoining),
        ('a', JoiningTypeValue::NonJoining),
        ('\u{062F}', JoiningTypeValue::RightJoining),
        ('\u{1E94B}', JoiningTypeValue::Transparent),
    ];
    for (c, expected) in samples {
        assert_eq!(adapter.joining_type(c).value(), expected, "U+{:04X}", c as u32);
    }
    assert!(adapter.joining_type('\u{0301}').is_transparent());
    assert!(adapter.joining_type('\u{00AD}').is_transparent());
    assert!(!adapter.joining_type('a').is_transparent());
}

#[test]
fn default_is_new() {
    let a = Adapter::default();
    let b = Adapter::new();
    assert_eq!(a.is_mark('\u{0301}'), b.is_mark('\u{0301}'));
    assert_eq!(a.map_normalize(&chars("Ab")), b.map_normalize(&chars("Ab")));
}

#[test]
fn fullwidth_a_maps_to_plain_a() {
    let adapter = Adapter::new();
    assert_eq!(adapter.map_normalize(&['\u{FF21}']), vec!['a']);
    assert_eq!(adapter.normalize_validate(&['\u{FF21}']), vec!['a']);
}

#[test]
fn mapping_folds_case() {
    let adapter = Adapter::new();
    assert_eq!(adapter.map_normalize(&chars("ExAmPlE.COM")), chars("example.com"));
    assert_eq!(adapter.map_normalize(&chars("\u{00C9}")), chars("\u{00E9}"));
}

#[test]
fn mapping_may_expand() {
    let adapter = Adapter::new();
    // LATIN SMALL LIGATURE FI
    assert_eq!(adapter.map_normalize(&['\u{FB01}']), chars("fi"));
    // VULGAR FRACTION ONE HALF
    assert_eq!(adapter.map_normalize(&['\u{00BD}']), chars("1\u{2044}2"));
}

#[test]
fn composition_merges_a_base_and_its_mark() {
    let adapter = Adapter::new();
    assert_eq!(adapter.map_normalize(&chars("e\u{0301}")), chars("\u{00E9}"));
    assert_eq!(adapter.normalize_validate(&chars("e\u{0301}")), chars("\u{00E9}"));
    // The mapping gives the letter, the composition joins it to the mark.
    assert_eq!(adapter.map_normalize(&chars("E\u{0301}")), chars("\u{00E9}"));
    assert_eq!(adapter.map_normalize(&chars("a\u{030A}b")), chars("\u{00E5}b"));
}

#[test]
fn empty_input_gives_empty_output() {
    let adapter = Adapter::new();
    assert_eq!(adapter.map_normalize(&[]), Vec::<char>::new());
    assert_eq!(adapter.normalize_validate(&[]), Vec::<char>::new());
}

#[test]
fn ignored_code_point_is_dropped_or_reported() {
    let adapter = Adapter::new();
    // SOFT HYPHEN
    assert_eq!(adapter.map_normalize(&chars("a\u{00AD}b")), chars("ab"));
    assert_eq!(adapter.normalize_validate(&chars("a\u{00AD}b")), chars("a\u{FFFD}b"));
    assert_eq!(adapter.map_normalize(&['\u{00AD}']), Vec::<char>::new());
    assert_eq!(adapter.normalize_validate(&['\u{00AD}']), vec!['\u{FFFD}']);
}

#[test]
fn disallowed_code_point_becomes_the_replacement_character() {
    let adapter = Adapter::new();
    assert_eq!(adapter.map_normalize(&chars("a\u{0080}b")), chars("a\u{FFFD}b"));
    assert_eq!(adapter.normalize_validate(&chars("a\u{0080}b")), chars("a\u{FFFD}b"));
}

#[test]
fn composed_input_comes_back_unchanged() {
    let adapter = Adapter::new();
    for s in ["abc", "example.com", "caf\u{00E9}", "\u{65E5}\u{672C}\u{8A9E}", "\u{0627}\u{0628}", "xn--bcher-kva"] {
        assert_eq!(adapter.map_normalize(&chars(s)), chars(s), "{}", s);
        assert_eq!(adapter.normalize_validate(&chars(s)), chars(s), "{}", s);
    }
}

#[test]
fn map_normalize_twice_is_map_normalize_once() {
    let adapter = Adapter::new();
    let inputs = [
        "",
        "ExAmPlE.COM",
        "\u{FF21}\u{FF22}",
        "E\u{0301}",
        "a\u{00AD}b",
        "a\u{0080}b",
        "\u{FB01}\u{00BD}",
        "\u{0915}\u{094D}\u{0937}",
        "\u{1E9E}",
        "\u{2126}\u{212B}",
    ];
    for s in inputs {
        let once = adapter.map_normalize(&chars(s));
        let twice = adapter.map_normalize(&once);
        assert_eq!(twice, once, "{:?}", s);
    }
}

#[test]
fn validating_agrees_where_nothing_is_ignored() {
    let adapter = Adapter::new();
    let inputs = [
        "",
        "ExAmPlE.COM",
        "\u{FF21}\u{FF22}",
        "E\u{0301}",
        "a\u{0080}b",
        "\u{FB01}\u{00BD}",
        "\u{0627}\u{0628}",
    ];
    for s in inputs {
        assert_eq!(
            adapter.normalize_validate(&chars(s)),
            adapter.map_normalize(&chars(s)),
            "{:?}",
            s
        );
    }
}

#[test]
fn queries_answer_for_every_code_point() {
    let adapter = Adapter::new();
    let mut marks: u32 = 0;
    let mut viramas: u32 = 0;
    for c in '\u{0}'..=char::MAX {
        let bc = adapter.bidi_class(c);
        assert!(bc.value().index() < BidiClassValue::COUNT);
        let jt = adapter.joining_type(c);
        assert!(jt.value().index() < JoiningTypeValue::COUNT);
        if adapter.is_mark(c) {
            marks += 1;
        }
        if adapter.is_virama(c) {
            viramas += 1;
            assert!(adapter.is_mark(c));
        }
    }
    assert!(marks > 2000);
    assert!(viramas > 40);
}

#[test]
fn transforms_answer_for_every_code_point() {
    let adapter = Adapter::new();
    for c in '\u{0}'..=char::MAX {
        let mapped = adapter.map_normalize(&[c]);
        let validated = adapter.normalize_validate(&[c]);
        if mapped != validated {
            assert_eq!(mapped, Vec::<char>::new(), "U+{:04X}", c as u32);
            assert_eq!(validated, vec!['\u{FFFD}'], "U+{:04X}", c as u32);
        }
    }
}
