//! The model catalogue: the sizes a model can be fetched in, and the rule
//! that reconciles a model with a requested language.

use vstd::prelude::*;

use crate::errors::TranscriptionError;
use crate::language::Language;
use crate::strutil::str_eq;

verus! {

/// The sizes the pretrained acoustic model is distributed in. The `English`
/// variants are trained on English audio only.
#[derive(Debug, Clone, Copy, PartialEq, Eq, Structural)]
pub enum Size {
    Tiny,
    TinyEnglish,
    Base,
    BaseEnglish,
    Small,
    SmallEnglish,
    Medium,
    MediumEnglish,
    Large,
}

/// Whether `s` names an English-only model.
pub open spec fn spec_english_only(s: Size) -> bool {
    s == Size::TinyEnglish || s == Size::BaseEnglish || s == Size::SmallEnglish || s
        == Size::MediumEnglish
}

/// The catalogue name of `s`.
pub open spec fn spec_size_name(s: Size) -> Seq<char> {
    match s {
        Size::Tiny => "tiny"@,
        Size::TinyEnglish => "tiny.en"@,
        Size::Base => "base"@,
        Size::BaseEnglish => "base.en"@,
        Size::Small => "small"@,
        Size::SmallEnglish => "small.en"@,
        Size::Medium => "medium"@,
        Size::MediumEnglish => "medium.en"@,
        Size::Large => "large"@,
    }
}

/// The size whose catalogue name is `s`, if any.
pub open spec fn spec_size_from_name(s: Seq<char>) -> Option<Size> {
    if s == "tiny"@ {
        Some(Size::Tiny)
    } else if s == "tiny.en"@ {
        Some(Size::TinyEnglish)
    } else if s == "base"@ {
        Some(Size::Base)
    } else if s == "base.en"@ {
        Some(Size::BaseEnglish)
    } else if s == "small"@ {
        Some(Size::Small)
    } else if s == "small.en"@ {
        Some(Size::SmallEnglish)
    } else if s == "medium"@ {
        Some(Size::Medium)
    } else if s == "medium.en"@ {
        Some(Size::MediumEnglish)
    } else if s == "large"@ {
        Some(Size::Large)
    } else {
        None
    }
}

impl Size {
    /// Whether this model understands English audio only.
    pub fn is_english_only(&self) -> (r: bool)
        ensures
            r == spec_english_only(*self),
    {
        match self {
            Size::TinyEnglish => true,
            Size::BaseEnglish => true,
            Size::SmallEnglish => true,
            Size::MediumEnglish => true,
            _ => false,
        }
    }

    /// The catalogue name of this size (`"medium.en"`, ...).
    pub fn name(&self) -> (r: &'static str)
        ensures
            r@ == spec_size_name(*self),
    {
        match self {
            Size::Tiny => "tiny",
            Size::TinyEnglish => "tiny.en",
            Size::Base => "base",
            Size::BaseEnglish => "base.en",
            Size::Small => "small",
            Size::SmallEnglish => "small.en",
            Size::Medium => "medium",
            Size::MediumEnglish => "medium.en",
            Size::Large => "large",
        }
    }

    /// Looks a size up by its catalogue name.
    pub fn from_name(s: &str) -> (r: Option<Size>)
        ensures
            r == spec_size_from_name(s@),
    {
        if str_eq(s, "tiny") {
            Some(Size::Tiny)
        } else if str_eq(s, "tiny.en") {
            Some(Size::TinyEnglish)
        } else if str_eq(s, "base") {
            Some(Size::Base)
        } else if str_eq(s, "base.en") {
            Some(Size::BaseEnglish)
        } else if str_eq(s, "small") {
            Some(Size::Small)
        } else if str_eq(s, "small.en") {
            Some(Size::SmallEnglish)
        } else if str_eq(s, "medium") {
            Some(Size::Medium)
        } else if str_eq(s, "medium.en") {
            Some(Size::MediumEnglish)
        } else if str_eq(s, "large") {
            Some(Size::Large)
        } else {
            None
        }
    }
}

/// Reconciles a model size with a requested language hint, as the command
/// line does before it ever loads the model. An English-only model forces an
/// absent or `Auto` hint to `English`; an explicit non-English hint against
/// an English-only model is rejected. Any hint is accepted as it stands for
/// a multilingual model.
pub fn resolve_language(size: Size, lang: Option<Language>) -> (r: Result<
    Option<Language>,
    TranscriptionError,
>)
    ensures
        match r {
            Ok(resolved) => {
                &&& (spec_english_only(size) ==> resolved == Some(Language::English))
                &&& (!spec_english_only(size) ==> resolved == lang)
                &&& (spec_english_only(size) ==> (lang is None || lang == Some(Language::Auto)
                    || lang == Some(Language::English)))
            },
            Err(e) => {
                &&& e == TranscriptionError::BadRequest
                &&& spec_english_only(size)
                &&& lang is Some
                &&& lang != Some(Language::Auto)
                &&& lang != Some(Language::English)
            },
        },
{
    if size.is_english_only() {
        match lang {
            None => Ok(Some(Language::English)),
            Some(l) => {
                if l == Language::Auto || l == Language::English {
                    Ok(Some(Language::English))
                } else {
                    Err(TranscriptionError::BadRequest)
                }
            },
        }
    } else {
        Ok(lang)
    }
}

} // verus!
