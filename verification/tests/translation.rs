use gateway::translated_text::{
    Language as NamedLanguage, TranslatedText, TranslatedTextDecodeError, TranslatedTextField,
    TranslatedTextInput,
};
use gateway::translation::{
    Language, LanguageGraphQl, Translation, TranslationDecodeError, TranslationField,
    TranslationInput, TranslationMapReader,
};
use gateway::visibility::Visibility;

fn entries(pairs: &[(&str, &str)]) -> Vec<(String, String)> {
    pairs.iter().map(|(k, v)| (k.to_string(), v.to_string())).collect()
}

#[test]
fn language_codes_are_written() {
    assert_eq!(Language::En.to_string(), "en");
    assert_eq!(Language::De.to_string(), "de");
    assert_eq!(Language::Ja.code(), "ja");
}

#[test]
fn every_language_code_is_read_back() {
    let all = [
        Language::En,
        Language::Ch,
        Language::De,
        Language::Ru,
        Language::Es,
        Language::Fr,
        Language::Ko,
        Language::Po,
        Language::Ja,
    ];
    for l in all.iter() {
        assert_eq!(Language::from_str(&l.to_string()).unwrap(), *l);
    }
}

#[test]
fn unknown_language_code_is_refused() {
    let e = Language::from_str("english").unwrap_err();
    assert_eq!(e.value, "english");
    assert!(Language::from_str("EN").is_err());
    assert!(Language::from_str("").is_err());
}

#[test]
fn as_vec_lists_all_codes_in_order() {
    let v: Vec<LanguageGraphQl> = Language::as_vec();
    let codes: Vec<&str> = v.iter().map(|l| l.iso_code.as_str()).collect();
    assert_eq!(codes, vec!["en", "ch", "de", "ru", "es", "fr", "ko", "po", "ja"]);
}

#[test]
fn constructors_keep_fields() {
    let t = Translation::new(Language::Fr, "bonjour".to_string());
    assert_eq!(t.lang, Language::Fr);
    assert_eq!(t.text, "bonjour");
    let g = LanguageGraphQl::new("ko".to_string());
    assert_eq!(g.iso_code, "ko");
    let n = TranslatedText::new(NamedLanguage::German, "hallo".to_string());
    assert_eq!(n.lang, NamedLanguage::German);
    assert_eq!(n.text, "hallo");
}

#[test]
fn translation_input_written_as_two_entries() {
    let input = TranslationInput { lang: Language::Ru, text: "привет".to_string() };
    assert_eq!(input.to_entries(), entries(&[("lang", "ru"), ("text", "привет")]));
}

#[test]
fn translation_round_trip() {
    let input = TranslationInput { lang: Language::Es, text: "hola".to_string() };
    let t = Translation::from_map_entries(&input.to_entries()).unwrap();
    assert_eq!(t, Translation::new(Language::Es, "hola".to_string()));
}

#[test]
fn translation_entries_in_any_order() {
    let t = Translation::from_map_entries(&entries(&[("text", "hi"), ("lang", "en")])).unwrap();
    assert_eq!(t.lang, Language::En);
    assert_eq!(t.text, "hi");
}

#[test]
fn translation_map_errors() {
    assert_eq!(
        Translation::from_map_entries(&entries(&[("lang", "en"), ("lang", "de")])).unwrap_err(),
        TranslationDecodeError::DuplicateField(TranslationField::Lang)
    );
    assert_eq!(
        Translation::from_map_entries(&entries(&[("text", "a"), ("text", "b")])).unwrap_err(),
        TranslationDecodeError::DuplicateField(TranslationField::Text)
    );
    assert_eq!(
        Translation::from_map_entries(&entries(&[("lang", "xx"), ("text", "b")])).unwrap_err(),
        TranslationDecodeError::MissingField(TranslationField::Lang)
    );
    assert_eq!(
        Translation::from_map_entries(&entries(&[("text", "b")])).unwrap_err(),
        TranslationDecodeError::MissingField(TranslationField::Lang)
    );
    assert_eq!(
        Translation::from_map_entries(&entries(&[("lang", "po")])).unwrap_err(),
        TranslationDecodeError::MissingField(TranslationField::Text)
    );
    assert_eq!(
        Translation::from_map_entries(&entries(&[("language", "po")])).unwrap_err(),
        TranslationDecodeError::UnknownField
    );
    assert_eq!(
        Translation::from_map_entries(&entries(&[])).unwrap_err(),
        TranslationDecodeError::MissingField(TranslationField::Lang)
    );
}

#[test]
fn translation_reader_steps() {
    let mut reader = TranslationMapReader::new();
    assert_eq!(reader.key("lang").unwrap(), TranslationField::Lang);
    reader.lang_value("ko").unwrap();
    assert_eq!(
        reader.key("lang").unwrap_err(),
        TranslationDecodeError::DuplicateField(TranslationField::Lang)
    );
    assert_eq!(reader.key("text").unwrap(), TranslationField::Text);
    reader.text_value("annyeong".to_string());
    let t = reader.finish().unwrap();
    assert_eq!(t.lang, Language::Ko);
    assert_eq!(t.text, "annyeong");
}

#[test]
fn translation_list_form() {
    assert_eq!(Translation::lang_from_element(Some("ja")).unwrap(), Language::Ja);
    assert_eq!(
        Translation::lang_from_element(None).unwrap_err(),
        TranslationDecodeError::InvalidLength(0)
    );
    assert_eq!(
        Translation::lang_from_element(Some("jp")).unwrap_err(),
        TranslationDecodeError::UnknownVariant
    );
    assert_eq!(Translation::text_from_element(Some("x".to_string())).unwrap(), "x");
    assert_eq!(
        Translation::text_from_element(None).unwrap_err(),
        TranslationDecodeError::InvalidLength(1)
    );
}

#[test]
fn named_language_names_and_codes() {
    assert_eq!(NamedLanguage::from_str("german").unwrap(), NamedLanguage::German);
    assert_eq!(NamedLanguage::German.to_string(), "ge");
    assert_eq!(NamedLanguage::Portuguese.name(), "portuguese");
    assert_eq!(NamedLanguage::from_str("ge").unwrap_err().value, "ge");
    assert!(NamedLanguage::from_str("English").is_err());
}

#[test]
fn translated_text_input_written_under_code() {
    let input = TranslatedTextInput { lang: NamedLanguage::Japanese, text: "konnichiwa".to_string() };
    assert_eq!(input.to_entry(), ("ja".to_string(), "konnichiwa".to_string()));
}

#[test]
fn translated_text_read_from_first_key() {
    let t = TranslatedText::from_first_entry(Some(("french", "salut".to_string()))).unwrap();
    assert_eq!(t.lang, NamedLanguage::French);
    assert_eq!(t.text, "salut");
    assert_eq!(
        TranslatedText::from_first_entry(None).unwrap_err(),
        TranslatedTextDecodeError::MissingField(TranslatedTextField::Lang)
    );
}

#[test]
fn translated_text_written_is_not_read_back() {
    let input = TranslatedTextInput { lang: NamedLanguage::English, text: "hello".to_string() };
    let (key, text) = input.to_entry();
    assert_eq!(
        TranslatedText::from_first_entry(Some((key.as_str(), text))).unwrap_err(),
        TranslatedTextDecodeError::MissingField(TranslatedTextField::Lang)
    );
}

#[test]
fn visibility_written_and_read() {
    assert_eq!(Visibility::Active.to_string(), "active");
    assert_eq!(Visibility::Published.to_string(), "published");
    assert_eq!(Visibility::from_str("active").unwrap(), Visibility::Active);
    assert_eq!(Visibility::from_str(&Visibility::Published.to_string()).unwrap(), Visibility::Published);
}

#[test]
fn visibility_ignores_case() {
    assert_eq!(Visibility::from_str("ACTIVE").unwrap(), Visibility::Active);
    assert_eq!(Visibility::from_str("PubLished").unwrap(), Visibility::Published);
}

#[test]
fn unknown_visibility_reported_in_lower_case() {
    let e = Visibility::from_str("Hidden").unwrap_err();
    assert_eq!(e.value, "hidden");
}

#[test]
fn visibility_default_is_published() {
    assert_eq!(Visibility::default(), Visibility::Published);
}
