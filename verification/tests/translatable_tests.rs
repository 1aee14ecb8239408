use rumbas::string_map::StringMap;
use rumbas::translatable::{FileString, TranslatableString, Translation, TranslationContent};

fn leaf(text: &str) -> Translation {
    Translation {
        content: TranslationContent::Content(FileString::s(text)),
        placeholders: Vec::new(),
    }
}

#[test]
fn no_translation() {
    let val = "some string".to_string();
    let t = TranslatableString::NotTranslated(FileString::s(&val));
    assert_eq!(t.to_string(&"any locale".to_string()), Some(val));
}

#[test]
fn simple_translation() {
    let val_nl = "een string".to_string();
    let val_en = "some string".to_string();
    let mut m = StringMap::new();
    m.insert("nl".to_string(), FileString::s(&val_nl));
    m.insert("en".to_string(), FileString::s(&val_en));
    let t = TranslatableString::Translated(Translation {
        content: TranslationContent::Locales(m),
        placeholders: Vec::new(),
    });
    assert_eq!(t.to_string(&"nl".to_string()), Some(val_nl));
    assert_eq!(t.to_string(&"en".to_string()), Some(val_en));
}

#[test]
fn substitution_translation() {
    let val_nl = "een string met functie {func} en {0}".to_string();
    let val_en = "some string with function {func} and {0}".to_string();
    let mut m = StringMap::new();
    m.insert("nl".to_string(), FileString::s(&val_nl));
    m.insert("en".to_string(), FileString::s(&val_en));
    let val1 = "x^2";
    let val2 = "e^x";
    let placeholders = vec![("0".to_string(), leaf(val1)), ("func".to_string(), leaf(val2))];
    let t = TranslatableString::Translated(Translation {
        content: TranslationContent::Locales(m),
        placeholders,
    });
    assert_eq!(
        t.to_string(&"nl".to_string()),
        Some(format!("een string met functie {} en {}", val2, val1))
    );
    assert_eq!(
        t.to_string(&"en".to_string()),
        Some(format!("some string with function {} and {}", val2, val1))
    );
}

#[test]
fn substitution_translation_recusive() {
    let val_nl = "een string met functie {func} en {0}".to_string();
    let val_en = "some string with function {func} and {0}".to_string();
    let mut m = StringMap::new();
    m.insert("nl".to_string(), FileString::s(&val_nl));
    m.insert("en".to_string(), FileString::s(&val_en));
    let val1 = "x^2";
    let val2 = "e^x ({cond})";
    let mut m3 = StringMap::new();
    m3.insert("nl".to_string(), FileString::s("met x groter dan 0"));
    m3.insert("en".to_string(), FileString::s("with x larger than 0"));
    let placeholders2 = vec![(
        "cond".to_string(),
        Translation {
            content: TranslationContent::Locales(m3),
            placeholders: Vec::new(),
        },
    )];
    let placeholders = vec![
        ("0".to_string(), leaf(val1)),
        (
            "func".to_string(),
            Translation {
                content: TranslationContent::Content(FileString::s(val2)),
                placeholders: placeholders2,
            },
        ),
    ];
    let t = TranslatableString::Translated(Translation {
        content: TranslationContent::Locales(m),
        placeholders,
    });
    assert_eq!(
        t.to_string(&"nl".to_string()),
        Some(format!("een string met functie e^x (met x groter dan 0) en {}", val1))
    );
    assert_eq!(
        t.to_string(&"en".to_string()),
        Some(format!("some string with function e^x (with x larger than 0) and {}", val1))
    );
}

#[test]
fn missing_locale_gives_none() {
    let mut m = StringMap::new();
    m.insert("nl".to_string(), FileString::s("een string"));
    let t = Translation {
        content: TranslationContent::Locales(m),
        placeholders: Vec::new(),
    };
    assert_eq!(t.to_string("en"), None);
}

#[test]
fn missing_placeholder_translation_gives_none() {
    let mut m = StringMap::new();
    m.insert("nl".to_string(), FileString::s("alleen nl"));
    let t = Translation {
        content: TranslationContent::Content(FileString::s("text {p}")),
        placeholders: vec![(
            "p".to_string(),
            Translation {
                content: TranslationContent::Locales(m),
                placeholders: Vec::new(),
            },
        )],
    };
    assert_eq!(t.to_string("en"), None);
    assert_eq!(t.to_string("nl"), Some("text alleen nl".to_string()));
}

#[test]
fn translated_content_is_preferred_for_its_locale() {
    let mut fs = FileString::s("common");
    fs.translated_content.insert("nl".to_string(), "nederlands".to_string());
    assert_eq!(fs.get_content("nl"), Some("nederlands".to_string()));
    assert_eq!(fs.get_content("en"), Some("common".to_string()));
    let c = TranslationContent::Content(fs);
    assert_eq!(c.get("fr").and_then(|f| f.get_content("fr")), Some("common".to_string()));
}

#[test]
fn bounded_rendering_stops_on_loops() {
    // `{a}` is replaced by a text that holds `{a}` again: the rendering never ends
    let looping = Translation {
        content: TranslationContent::Content(FileString::s("x {a}")),
        placeholders: vec![("a".to_string(), leaf("({a})"))],
    };
    assert_eq!(looping.to_string_within("en", 5), None);
    let t = Translation {
        content: TranslationContent::Content(FileString::s("x {a}")),
        placeholders: vec![("a".to_string(), leaf("y"))],
    };
    assert_eq!(t.to_string_within("en", 0), None);
    assert_eq!(t.to_string_within("en", 2), Some(Some("x y".to_string())));
    let s = TranslatableString::Translated(t);
    assert_eq!(s.to_string_within("en", 3), Some(Some("x y".to_string())));
    let plain = TranslatableString::NotTranslated(FileString::s("z"));
    assert_eq!(plain.to_string_within("en", 0), Some(Some("z".to_string())));
}
