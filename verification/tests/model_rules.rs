use whisper_cli::{Language, Size, TranscriptionError};
use whisper_cli::model::resolve_language;

#[test]
fn english_only_sizes() {
    assert!(Size::TinyEnglish.is_english_only());
    assert!(Size::BaseEnglish.is_english_only());
    assert!(Size::SmallEnglish.is_english_only());
    assert!(Size::MediumEnglish.is_english_only());
    assert!(!Size::Tiny.is_english_only());
    assert!(!Size::Medium.is_english_only());
    assert!(!Size::Large.is_english_only());
}

#[test]
fn size_names_round_trip() {
    let sizes = vec![
        Size::Tiny,
        Size::TinyEnglish,
        Size::Base,
        Size::BaseEnglish,
        Size::Small,
        Size::SmallEnglish,
        Size::Medium,
        Size::MediumEnglish,
        Size::Large,
    ];
    for s in sizes {
        assert_eq!(Size::from_name(s.name()), Some(s));
    }
    assert_eq!(Size::from_name("huge"), None);
}

#[test]
fn english_model_forces_absent_or_auto_hint_to_english() {
    assert_eq!(resolve_language(Size::MediumEnglish, None), Ok(Some(Language::English)));
    assert_eq!(
        resolve_language(Size::MediumEnglish, Some(Language::Auto)),
        Ok(Some(Language::English))
    );
    assert_eq!(
        resolve_language(Size::MediumEnglish, Some(Language::English)),
        Ok(Some(Language::English))
    );
}

#[test]
fn english_model_rejects_other_languages() {
    assert_eq!(
        resolve_language(Size::TinyEnglish, Some(Language::German)),
        Err(TranscriptionError::BadRequest)
    );
}

#[test]
fn multilingual_model_keeps_the_hint() {
    assert_eq!(resolve_language(Size::Large, Some(Language::German)), Ok(Some(Language::German)));
    assert_eq!(resolve_language(Size::Medium, None), Ok(None));
    assert_eq!(
        resolve_language(Size::Medium, Some(Language::Auto)),
        Ok(Some(Language::Auto))
    );
}
