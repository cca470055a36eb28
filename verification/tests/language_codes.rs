use whisper_cli::Language;

#[test]
fn codes_of_known_languages() {
    assert_eq!(Language::Auto.code(), "auto");
    assert_eq!(Language::English.code(), "en");
    assert_eq!(Language::Chinese.code(), "zh");
    assert_eq!(Language::HaitianCreole.code(), "ht");
    assert_eq!(Language::Hawaiian.code(), "haw");
    assert_eq!(Language::Sundanese.code(), "su");
}

#[test]
fn lookup_by_code_finds_the_language() {
    assert_eq!(Language::from_code("auto"), Some(Language::Auto));
    assert_eq!(Language::from_code("en"), Some(Language::English));
    assert_eq!(Language::from_code("de"), Some(Language::German));
    assert_eq!(Language::from_code("haw"), Some(Language::Hawaiian));
    assert_eq!(Language::from_code("su"), Some(Language::Sundanese));
}

#[test]
fn lookup_of_unknown_code_is_none() {
    assert_eq!(Language::from_code(""), None);
    assert_eq!(Language::from_code("english"), None);
    assert_eq!(Language::from_code("EN"), None);
    assert_eq!(Language::from_code("xx"), None);
}

#[test]
fn code_table_is_bidirectional_on_samples() {
    let samples = vec![
        Language::Auto,
        Language::English,
        Language::Japanese,
        Language::Norwegian,
        Language::Nynorsk,
        Language::Hawaiian,
        Language::Javanese,
        Language::Sundanese,
    ];
    for l in samples {
        assert_eq!(Language::from_code(l.code()), Some(l));
    }
}
