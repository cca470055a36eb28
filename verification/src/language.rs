//! The language catalogue: one enumerated identifier per language the engine
//! knows, plus an `Auto` sentinel, with a bidirectional mapping to the
//! canonical short codes.

use vstd::prelude::*;

use crate::strutil::str_eq;

verus! {

/// A language the engine can transcribe, or `Auto` to let the engine detect
/// the language itself.
#[derive(Debug, Clone, Copy, PartialEq, Eq, Structural)]
pub enum Language {
    Auto,
    English,
    Chinese,
    German,
    Spanish,
    Russian,
    Korean,
    French,
    Japanese,
    Portuguese,
    Turkish,
    Polish,
    Catalan,
    Dutch,
    Arabic,
    Swedish,
    Italian,
    Indonesian,
    Hindi,
    Finnish,
    Vietnamese,
    Hebrew,
    Ukrainian,
    Greek,
    Malay,
    Czech,
    Romanian,
    Danish,
    Hungarian,
    Tamil,
    Norwegian,
    Thai,
    Urdu,
    Croatian,
    Bulgarian,
    Lithuanian,
    Latin,
    Maori,
    Malayalam,
    Welsh,
    Slovak,
    Telugu,
    Persian,
    Latvian,
    Bengali,
    Serbian,
    Azerbaijani,
    Slovenian,
    Kannada,
    Estonian,
    Macedonian,
    Breton,
    Basque,
    Icelandic,
    Armenian,
    Nepali,
    Mongolian,
    Bosnian,
    Kazakh,
    Albanian,
    Swahili,
    Galician,
    Marathi,
    Punjabi,
    Sinhala,
    Khmer,
    Shona,
    Yoruba,
    Somali,
    Afrikaans,
    Occitan,
    Georgian,
    Belarusian,
    Tajik,
    Sindhi,
    Gujarati,
    Amharic,
    Yiddish,
    Lao,
    Uzbek,
    Faroese,
    HaitianCreole,
    Pashto,
    Turkmen,
    Nynorsk,
    Maltese,
    Sanskrit,
    Luxembourgish,
    Myanmar,
    Tibetan,
    Tagalog,
    Malagasy,
    Assamese,
    Tatar,
    Hawaiian,
    Lingala,
    Hausa,
    Bashkir,
    Javanese,
    Sundanese,
}

/// The canonical short code of `l`.
pub open spec fn spec_code(l: Language) -> Seq<char> {
    match l {
        Language::Auto => "auto"@,
        Language::English => "en"@,
        Language::Chinese => "zh"@,
        Language::German => "de"@,
        Language::Spanish => "es"@,
        Language::Russian => "ru"@,
        Language::Korean => "ko"@,
        Language::French => "fr"@,
        Language::Japanese => "ja"@,
        Language::Portuguese => "pt"@,
        Language::Turkish => "tr"@,
        Language::Polish => "pl"@,
        Language::Catalan => "ca"@,
        Language::Dutch => "nl"@,
        Language::Arabic => "ar"@,
        Language::Swedish => "sv"@,
        Language::Italian => "it"@,
        Language::Indonesian => "id"@,
        Language::Hindi => "hi"@,
        Language::Finnish => "fi"@,
        Language::Vietnamese => "vi"@,
        Language::Hebrew => "he"@,
        Language::Ukrainian => "uk"@,
        Language::Greek => "el"@,
        Language::Malay => "ms"@,
        Language::Czech => "cs"@,
        Language::Romanian => "ro"@,
        Language::Danish => "da"@,
        Language::Hungarian => "hu"@,
        Language::Tamil => "ta"@,
        Language::Norwegian => "no"@,
        Language::Thai => "th"@,
        Language::Urdu => "ur"@,
        Language::Croatian => "hr"@,
        Language::Bulgarian => "bg"@,
        Language::Lithuanian => "lt"@,
        Language::Latin => "la"@,
        Language::Maori => "mi"@,
        Language::Malayalam => "ml"@,
        Language::Welsh => "cy"@,
        Language::Slovak => "sk"@,
        Language::Telugu => "te"@,
        Language::Persian => "fa"@,
        Language::Latvian => "lv"@,
        Language::Bengali => "bn"@,
        Language::Serbian => "sr"@,
        Language::Azerbaijani => "az"@,
        Language::Slovenian => "sl"@,
        Language::Kannada => "kn"@,
        Language::Estonian => "et"@,
        Language::Macedonian => "mk"@,
        Language::Breton => "br"@,
        Language::Basque => "eu"@,
        Language::Icelandic => "is"@,
        Language::Armenian => "hy"@,
        Language::Nepali => "ne"@,
        Language::Mongolian => "mn"@,
        Language::Bosnian => "bs"@,
        Language::Kazakh => "kk"@,
        Language::Albanian => "sq"@,
        Language::Swahili => "sw"@,
        Language::Galician => "gl"@,
        Language::Marathi => "mr"@,
        Language::Punjabi => "pa"@,
        Language::Sinhala => "si"@,
        Language::Khmer => "km"@,
        Language::Shona => "sn"@,
        Language::Yoruba => "yo"@,
        Language::Somali => "so"@,
        Language::Afrikaans => "af"@,
        Language::Occitan => "oc"@,
        Language::Georgian => "ka"@,
        Language::Belarusian => "be"@,
        Language::Tajik => "tg"@,
        Language::Sindhi => "sd"@,
        Language::Gujarati => "gu"@,
        Language::Amharic => "am"@,
        Language::Yiddish => "yi"@,
        Language::Lao => "lo"@,
        Language::Uzbek => "uz"@,
        Language::Faroese => "fo"@,
        Language::HaitianCreole => "ht"@,
        Language::Pashto => "ps"@,
        Language::Turkmen => "tk"@,
        Language::Nynorsk => "nn"@,
        Language::Maltese => "mt"@,
        Language::Sanskrit => "sa"@,
        Language::Luxembourgish => "lb"@,
        Language::Myanmar => "my"@,
        Language::Tibetan => "bo"@,
        Language::Tagalog => "tl"@,
        Language::Malagasy => "mg"@,
        Language::Assamese => "as"@,
        Language::Tatar => "tt"@,
        Language::Hawaiian => "haw"@,
        Language::Lingala => "ln"@,
        Language::Hausa => "ha"@,
        Language::Bashkir => "ba"@,
        Language::Javanese => "jw"@,
        Language::Sundanese => "su"@,
    }
}

/// The language whose canonical code is `s`, if any.
pub open spec fn spec_from_code(s: Seq<char>) -> Option<Language> {
    if s == "auto"@ {
        Some(Language::Auto)
    } else if s == "en"@ {
        Some(Language::English)
    } else if s == "zh"@ {
        Some(Language::Chinese)
    } else if s == "de"@ {
        Some(Language::German)
    } else if s == "es"@ {
        Some(Language::Spanish)
    } else if s == "ru"@ {
        Some(Language::Russian)
    } else if s == "ko"@ {
        Some(Language::Korean)
    } else if s == "fr"@ {
        Some(Language::French)
    } else if s == "ja"@ {
        Some(Language::Japanese)
    } else if s == "pt"@ {
        Some(Language::Portuguese)
    } else if s == "tr"@ {
        Some(Language::Turkish)
    } else if s == "pl"@ {
        Some(Language::Polish)
    } else if s == "ca"@ {
        Some(Language::Catalan)
    } else if s == "nl"@ {
        Some(Language::Dutch)
    } else if s == "ar"@ {
        Some(Language::Arabic)
    } else if s == "sv"@ {
        Some(Language::Swedish)
    } else if s == "it"@ {
        Some(Language::Italian)
    } else if s == "id"@ {
        Some(Language::Indonesian)
    } else if s == "hi"@ {
        Some(Language::Hindi)
    } else if s == "fi"@ {
        Some(Language::Finnish)
    } else if s == "vi"@ {
        Some(Language::Vietnamese)
    } else if s == "he"@ {
        Some(Language::Hebrew)
    } else if s == "uk"@ {
        Some(Language::Ukrainian)
    } else if s == "el"@ {
        Some(Language::Greek)
    } else if s == "ms"@ {
        Some(Language::Malay)
    } else if s == "cs"@ {
        Some(Language::Czech)
    } else if s == "ro"@ {
        Some(Language::Romanian)
    } else if s == "da"@ {
        Some(Language::Danish)
    } else if s == "hu"@ {
        Some(Language::Hungarian)
    } else if s == "ta"@ {
        Some(Language::Tamil)
    } else if s == "no"@ {
        Some(Language::Norwegian)
    } else if s == "th"@ {
        Some(Language::Thai)
    } else if s == "ur"@ {
        Some(Language::Urdu)
    } else if s == "hr"@ {
        Some(Language::Croatian)
    } else if s == "bg"@ {
        Some(Language::Bulgarian)
    } else if s == "lt"@ {
        Some(Language::Lithuanian)
    } else if s == "la"@ {
        Some(Language::Latin)
    } else if s == "mi"@ {
        Some(Language::Maori)
    } else if s == "ml"@ {
        Some(Language::Malayalam)
    } else if s == "cy"@ {
        Some(Language::Welsh)
    } else if s == "sk"@ {
        Some(Language::Slovak)
    } else if s == "te"@ {
        Some(Language::Telugu)
    } else if s == "fa"@ {
        Some(Language::Persian)
    } else if s == "lv"@ {
        Some(Language::Latvian)
    } else if s == "bn"@ {
        Some(Language::Bengali)
    } else if s == "sr"@ {
        Some(Language::Serbian)
    } else if s == "az"@ {
        Some(Language::Azerbaijani)
    } else if s == "sl"@ {
        Some(Language::Slovenian)
    } else if s == "kn"@ {
        Some(Language::Kannada)
    } else if s == "et"@ {
        Some(Language::Estonian)
    } else if s == "mk"@ {
        Some(Language::Macedonian)
    } else if s == "br"@ {
        Some(Language::Breton)
    } else if s == "eu"@ {
        Some(Language::Basque)
    } else if s == "is"@ {
        Some(Language::Icelandic)
    } else if s == "hy"@ {
        Some(Language::Armenian)
    } else if s == "ne"@ {
        Some(Language::Nepali)
    } else if s == "mn"@ {
        Some(Language::Mongolian)
    } else if s == "bs"@ {
        Some(Language::Bosnian)
    } else if s == "kk"@ {
        Some(Language::Kazakh)
    } else if s == "sq"@ {
        Some(Language::Albanian)
    } else if s == "sw"@ {
        Some(Language::Swahili)
    } else if s == "gl"@ {
        Some(Language::Galician)
    } else if s == "mr"@ {
        Some(Language::Marathi)
    } else if s == "pa"@ {
        Some(Language::Punjabi)
    } else if s == "si"@ {
        Some(Language::Sinhala)
    } else if s == "km"@ {
        Some(Language::Khmer)
    } else if s == "sn"@ {
        Some(Language::Shona)
    } else if s == "yo"@ {
        Some(Language::Yoruba)
    } else if s == "so"@ {
        Some(Language::Somali)
    } else if s == "af"@ {
        Some(Language::Afrikaans)
    } else if s == "oc"@ {
        Some(Language::Occitan)
    } else if s == "ka"@ {
        Some(Language::Georgian)
    } else if s == "be"@ {
        Some(Language::Belarusian)
    } else if s == "tg"@ {
        Some(Language::Tajik)
    } else if s == "sd"@ {
        Some(Language::Sindhi)
    } else if s == "gu"@ {
        Some(Language::Gujarati)
    } else if s == "am"@ {
        Some(Language::Amharic)
    } else if s == "yi"@ {
        Some(Language::Yiddish)
    } else if s == "lo"@ {
        Some(Language::Lao)
    } else if s == "uz"@ {
        Some(Language::Uzbek)
    } else if s == "fo"@ {
        Some(Language::Faroese)
    } else if s == "ht"@ {
        Some(Language::HaitianCreole)
    } else if s == "ps"@ {
        Some(Language::Pashto)
    } else if s == "tk"@ {
        Some(Language::Turkmen)
    } else if s == "nn"@ {
        Some(Language::Nynorsk)
    } else if s == "mt"@ {
        Some(Language::Maltese)
    } else if s == "sa"@ {
        Some(Language::Sanskrit)
    } else if s == "lb"@ {
        Some(Language::Luxembourgish)
    } else if s == "my"@ {
        Some(Language::Myanmar)
    } else if s == "bo"@ {
        Some(Language::Tibetan)
    } else if s == "tl"@ {
        Some(Language::Tagalog)
    } else if s == "mg"@ {
        Some(Language::Malagasy)
    } else if s == "as"@ {
        Some(Language::Assamese)
    } else if s == "tt"@ {
        Some(Language::Tatar)
    } else if s == "haw"@ {
        Some(Language::Hawaiian)
    } else if s == "ln"@ {
        Some(Language::Lingala)
    } else if s == "ha"@ {
        Some(Language::Hausa)
    } else if s == "ba"@ {
        Some(Language::Bashkir)
    } else if s == "jw"@ {
        Some(Language::Javanese)
    } else if s == "su"@ {
        Some(Language::Sundanese)
    } else {
        None
    }
}

impl Language {
    /// The canonical short code of this language (`"auto"` for `Auto`).
    pub fn code(&self) -> (r: &'static str)
        ensures
            r@ == spec_code(*self),
    {
        match self {
            Language::Auto => "auto",
            Language::English => "en",
            Language::Chinese => "zh",
            Language::German => "de",
            Language::Spanish => "es",
            Language::Russian => "ru",
            Language::Korean => "ko",
            Language::French => "fr",
            Language::Japanese => "ja",
            Language::Portuguese => "pt",
            Language::Turkish => "tr",
            Language::Polish => "pl",
            Language::Catalan => "ca",
            Language::Dutch => "nl",
            Language::Arabic => "ar",
            Language::Swedish => "sv",
            Language::Italian => "it",
            Language::Indonesian => "id",
            Language::Hindi => "hi",
            Language::Finnish => "fi",
            Language::Vietnamese => "vi",
            Language::Hebrew => "he",
            Language::Ukrainian => "uk",
            Language::Greek => "el",
            Language::Malay => "ms",
            Language::Czech => "cs",
            Language::Romanian => "ro",
            Language::Danish => "da",
            Language::Hungarian => "hu",
            Language::Tamil => "ta",
            Language::Norwegian => "no",
            Language::Thai => "th",
            Language::Urdu => "ur",
            Language::Croatian => "hr",
            Language::Bulgarian => "bg",
            Language::Lithuanian => "lt",
            Language::Latin => "la",
            Language::Maori => "mi",
            Language::Malayalam => "ml",
            Language::Welsh => "cy",
            Language::Slovak => "sk",
            Language::Telugu => "te",
            Language::Persian => "fa",
            Language::Latvian => "lv",
            Language::Bengali => "bn",
            Language::Serbian => "sr",
            Language::Azerbaijani => "az",
            Language::Slovenian => "sl",
            Language::Kannada => "kn",
            Language::Estonian => "et",
            Language::Macedonian => "mk",
            Language::Breton => "br",
            Language::Basque => "eu",
            Language::Icelandic => "is",
            Language::Armenian => "hy",
            Language::Nepali => "ne",
            Language::Mongolian => "mn",
            Language::Bosnian => "bs",
            Language::Kazakh => "kk",
            Language::Albanian => "sq",
            Language::Swahili => "sw",
            Language::Galician => "gl",
            Language::Marathi => "mr",
            Language::Punjabi => "pa",
            Language::Sinhala => "si",
            Language::Khmer => "km",
            Language::Shona => "sn",
            Language::Yoruba => "yo",
            Language::Somali => "so",
            Language::Afrikaans => "af",
            Language::Occitan => "oc",
            Language::Georgian => "ka",
            Language::Belarusian => "be",
            Language::Tajik => "tg",
            Language::Sindhi => "sd",
            Language::Gujarati => "gu",
            Language::Amharic => "am",
            Language::Yiddish => "yi",
            Language::Lao => "lo",
            Language::Uzbek => "uz",
            Language::Faroese => "fo",
            Language::HaitianCreole => "ht",
            Language::Pashto => "ps",
            Language::Turkmen => "tk",
            Language::Nynorsk => "nn",
            Language::Maltese => "mt",
            Language::Sanskrit => "sa",
            Language::Luxembourgish => "lb",
            Language::Myanmar => "my",
            Language::Tibetan => "bo",
            Language::Tagalog => "tl",
            Language::Malagasy => "mg",
            Language::Assamese => "as",
            Language::Tatar => "tt",
            Language::Hawaiian => "haw",
            Language::Lingala => "ln",
            Language::Hausa => "ha",
            Language::Bashkir => "ba",
            Language::Javanese => "jw",
            Language::Sundanese => "su",
        }
    }

    /// Looks a language up by its canonical short code.
    pub fn from_code(s: &str) -> (r: Option<Language>)
        ensures
            r == spec_from_code(s@),
    {
        if str_eq(s, "auto") {
            Some(Language::Auto)
        } else if str_eq(s, "en") {
            Some(Language::English)
        } else if str_eq(s, "zh") {
            Some(Language::Chinese)
        } else if str_eq(s, "de") {
            Some(Language::German)
        } else if str_eq(s, "es") {
            Some(Language::Spanish)
        } else if str_eq(s, "ru") {
            Some(Language::Russian)
        } else if str_eq(s, "ko") {
            Some(Language::Korean)
        } else if str_eq(s, "fr") {
            Some(Language::French)
        } else if str_eq(s, "ja") {
            Some(Language::Japanese)
        } else if str_eq(s, "pt") {
            Some(Language::Portuguese)
        } else if str_eq(s, "tr") {
            Some(Language::Turkish)
        } else if str_eq(s, "pl") {
            Some(Language::Polish)
        } else if str_eq(s, "ca") {
            Some(Language::Catalan)
        } else if str_eq(s, "nl") {
            Some(Language::Dutch)
        } else if str_eq(s, "ar") {
            Some(Language::Arabic)
        } else if str_eq(s, "sv") {
            Some(Language::Swedish)
        } else if str_eq(s, "it") {
            Some(Language::Italian)
        } else if str_eq(s, "id") {
            Some(Language::Indonesian)
        } else if str_eq(s, "hi") {
            Some(Language::Hindi)
        } else if str_eq(s, "fi") {
            Some(Language::Finnish)
        } else if str_eq(s, "vi") {
            Some(Language::Vietnamese)
        } else if str_eq(s, "he") {
            Some(Language::Hebrew)
        } else if str_eq(s, "uk") {
            Some(Language::Ukrainian)
        } else if str_eq(s, "el") {
            Some(Language::Greek)
        } else if str_eq(s, "ms") {
            Some(Language::Malay)
        } else if str_eq(s, "cs") {
            Some(Language::Czech)
        } else if str_eq(s, "ro") {
            Some(Language::Romanian)
        } else if str_eq(s, "da") {
            Some(Language::Danish)
        } else if str_eq(s, "hu") {
            Some(Language::Hungarian)
        } else if str_eq(s, "ta") {
            Some(Language::Tamil)
        } else if str_eq(s, "no") {
            Some(Language::Norwegian)
        } else if str_eq(s, "th") {
            Some(Language::Thai)
        } else if str_eq(s, "ur") {
            Some(Language::Urdu)
        } else if str_eq(s, "hr") {
            Some(Language::Croatian)
        } else if str_eq(s, "bg") {
            Some(Language::Bulgarian)
        } else if str_eq(s, "lt") {
            Some(Language::Lithuanian)
        } else if str_eq(s, "la") {
            Some(Language::Latin)
        } else if str_eq(s, "mi") {
            Some(Language::Maori)
        } else if str_eq(s, "ml") {
            Some(Language::Malayalam)
        } else if str_eq(s, "cy") {
            Some(Language::Welsh)
        } else if str_eq(s, "sk") {
            Some(Language::Slovak)
        } else if str_eq(s, "te") {
            Some(Language::Telugu)
        } else if str_eq(s, "fa") {
            Some(Language::Persian)
        } else if str_eq(s, "lv") {
            Some(Language::Latvian)
        } else if str_eq(s, "bn") {
            Some(Language::Bengali)
        } else if str_eq(s, "sr") {
            Some(Language::Serbian)
        } else if str_eq(s, "az") {
            Some(Language::Azerbaijani)
        } else if str_eq(s, "sl") {
            Some(Language::Slovenian)
        } else if str_eq(s, "kn") {
            Some(Language::Kannada)
        } else if str_eq(s, "et") {
            Some(Language::Estonian)
        } else if str_eq(s, "mk") {
            Some(Language::Macedonian)
        } else if str_eq(s, "br") {
            Some(Language::Breton)
        } else if str_eq(s, "eu") {
            Some(Language::Basque)
        } else if str_eq(s, "is") {
            Some(Language::Icelandic)
        } else if str_eq(s, "hy") {
            Some(Language::Armenian)
        } else if str_eq(s, "ne") {
            Some(Language::Nepali)
        } else if str_eq(s, "mn") {
            Some(Language::Mongolian)
        } else if str_eq(s, "bs") {
            Some(Language::Bosnian)
        } else if str_eq(s, "kk") {
            Some(Language::Kazakh)
        } else if str_eq(s, "sq") {
            Some(Language::Albanian)
        } else if str_eq(s, "sw") {
            Some(Language::Swahili)
        } else if str_eq(s, "gl") {
            Some(Language::Galician)
        } else if str_eq(s, "mr") {
            Some(Language::Marathi)
        } else if str_eq(s, "pa") {
            Some(Language::Punjabi)
        } else if str_eq(s, "si") {
            Some(Language::Sinhala)
        } else if str_eq(s, "km") {
            Some(Language::Khmer)
        } else if str_eq(s, "sn") {
            Some(Language::Shona)
        } else if str_eq(s, "yo") {
            Some(Language::Yoruba)
        } else if str_eq(s, "so") {
            Some(Language::Somali)
        } else if str_eq(s, "af") {
            Some(Language::Afrikaans)
        } else if str_eq(s, "oc") {
            Some(Language::Occitan)
        } else if str_eq(s, "ka") {
            Some(Language::Georgian)
        } else if str_eq(s, "be") {
            Some(Language::Belarusian)
        } else if str_eq(s, "tg") {
            Some(Language::Tajik)
        } else if str_eq(s, "sd") {
            Some(Language::Sindhi)
        } else if str_eq(s, "gu") {
            Some(Language::Gujarati)
        } else if str_eq(s, "am") {
            Some(Language::Amharic)
        } else if str_eq(s, "yi") {
            Some(Language::Yiddish)
        } else if str_eq(s, "lo") {
            Some(Language::Lao)
        } else if str_eq(s, "uz") {
            Some(Language::Uzbek)
        } else if str_eq(s, "fo") {
            Some(Language::Faroese)
        } else if str_eq(s, "ht") {
            Some(Language::HaitianCreole)
        } else if str_eq(s, "ps") {
            Some(Language::Pashto)
        } else if str_eq(s, "tk") {
            Some(Language::Turkmen)
        } else if str_eq(s, "nn") {
            Some(Language::Nynorsk)
        } else if str_eq(s, "mt") {
            Some(Language::Maltese)
        } else if str_eq(s, "sa") {
            Some(Language::Sanskrit)
        } else if str_eq(s, "lb") {
            Some(Language::Luxembourgish)
        } else if str_eq(s, "my") {
            Some(Language::Myanmar)
        } else if str_eq(s, "bo") {
            Some(Language::Tibetan)
        } else if str_eq(s, "tl") {
            Some(Language::Tagalog)
        } else if str_eq(s, "mg") {
            Some(Language::Malagasy)
        } else if str_eq(s, "as") {
            Some(Language::Assamese)
        } else if str_eq(s, "tt") {
            Some(Language::Tatar)
        } else if str_eq(s, "haw") {
            Some(Language::Hawaiian)
        } else if str_eq(s, "ln") {
            Some(Language::Lingala)
        } else if str_eq(s, "ha") {
            Some(Language::Hausa)
        } else if str_eq(s, "ba") {
            Some(Language::Bashkir)
        } else if str_eq(s, "jw") {
            Some(Language::Javanese)
        } else if str_eq(s, "su") {
            Some(Language::Sundanese)
        } else {
            None
        }
    }
}

/// Law: the code table is bidirectional. Looking a language's own code up
/// gives back exactly that language.
#[verifier::rlimit(100)]
pub proof fn lemma_code_round_trip(l: Language)
    ensures
        spec_from_code(spec_code(l)) == Some(l),
{
    reveal_strlit("af");
    reveal_strlit("am");
    reveal_strlit("ar");
    reveal_strlit("as");
    reveal_strlit("auto");
    reveal_strlit("az");
    reveal_strlit("ba");
    reveal_strlit("be");
    reveal_strlit("bg");
    reveal_strlit("bn");
    reveal_strlit("bo");
    reveal_strlit("br");
    reveal_strlit("bs");
    reveal_strlit("ca");
    reveal_strlit("cs");
    reveal_strlit("cy");
    reveal_strlit("da");
    reveal_strlit("de");
    reveal_strlit("el");
    reveal_strlit("en");
    reveal_strlit("es");
    reveal_strlit("et");
    reveal_strlit("eu");
    reveal_strlit("fa");
    reveal_strlit("fi");
    reveal_strlit("fo");
    reveal_strlit("fr");
    reveal_strlit("gl");
    reveal_strlit("gu");
    reveal_strlit("ha");
    reveal_strlit("haw");
    reveal_strlit("he");
    reveal_strlit("hi");
    reveal_strlit("hr");
    reveal_strlit("ht");
    reveal_strlit("hu");
    reveal_strlit("hy");
    reveal_strlit("id");
    reveal_strlit("is");
    reveal_strlit("it");
    reveal_strlit("ja");
    reveal_strlit("jw");
    reveal_strlit("ka");
    reveal_strlit("kk");
    reveal_strlit("km");
    reveal_strlit("kn");
    reveal_strlit("ko");
    reveal_strlit("la");
    reveal_strlit("lb");
    reveal_strlit("ln");
    reveal_strlit("lo");
    reveal_strlit("lt");
    reveal_strlit("lv");
    reveal_strlit("mg");
    reveal_strlit("mi");
    reveal_strlit("mk");
    reveal_strlit("ml");
    reveal_strlit("mn");
    reveal_strlit("mr");
    reveal_strlit("ms");
    reveal_strlit("mt");
    reveal_strlit("my");
    reveal_strlit("ne");
    reveal_strlit("nl");
    reveal_strlit("nn");
    reveal_strlit("no");
    reveal_strlit("oc");
    reveal_strlit("pa");
    reveal_strlit("pl");
    reveal_strlit("ps");
    reveal_strlit("pt");
    reveal_strlit("ro");
    reveal_strlit("ru");
    reveal_strlit("sa");
    reveal_strlit("sd");
    reveal_strlit("si");
    reveal_strlit("sk");
    reveal_strlit("sl");
    reveal_strlit("sn");
    reveal_strlit("so");
    reveal_strlit("sq");
    reveal_strlit("sr");
    reveal_strlit("su");
    reveal_strlit("sv");
    reveal_strlit("sw");
    reveal_strlit("ta");
    reveal_strlit("te");
    reveal_strlit("tg");
    reveal_strlit("th");
    reveal_strlit("tk");
    reveal_strlit("tl");
    reveal_strlit("tr");
    reveal_strlit("tt");
    reveal_strlit("uk");
    reveal_strlit("ur");
    reveal_strlit("uz");
    reveal_strlit("vi");
    reveal_strlit("yi");
    reveal_strlit("yo");
    reveal_strlit("zh");
    assert("af"@.len() == 2);
    assert("af"@[0] == 'a');
    assert("af"@[1] == 'f');
    assert("am"@.len() == 2);
    assert("am"@[0] == 'a');
    assert("am"@[1] == 'm');
    assert("ar"@.len() == 2);
    assert("ar"@[0] == 'a');
    assert("ar"@[1] == 'r');
    assert("as"@.len() == 2);
    assert("as"@[0] == 'a');
    assert("as"@[1] == 's');
    assert("auto"@.len() == 4);
    assert("auto"@[0] == 'a');
    assert("auto"@[1] == 'u');
    assert("auto"@[2] == 't');
    assert("auto"@[3] == 'o');
    assert("az"@.len() == 2);
    assert("az"@[0] == 'a');
    assert("az"@[1] == 'z');
    assert("ba"@.len() == 2);
    assert("ba"@[0] == 'b');
    assert("ba"@[1] == 'a');
    assert("be"@.len() == 2);
    assert("be"@[0] == 'b');
    assert("be"@[1] == 'e');
    assert("bg"@.len() == 2);
    assert("bg"@[0] == 'b');
    assert("bg"@[1] == 'g');
    assert("bn"@.len() == 2);
    assert("bn"@[0] == 'b');
    assert("bn"@[1] == 'n');
    assert("bo"@.len() == 2);
    assert("bo"@[0] == 'b');
    assert("bo"@[1] == 'o');
    assert("br"@.len() == 2);
    assert("br"@[0] == 'b');
    assert("br"@[1] == 'r');
    assert("bs"@.len() == 2);
    assert("bs"@[0] == 'b');
    assert("bs"@[1] == 's');
    assert("ca"@.len() == 2);
    assert("ca"@[0] == 'c');
    assert("ca"@[1] == 'a');
    assert("cs"@.len() == 2);
    assert("cs"@[0] == 'c');
    assert("cs"@[1] == 's');
    assert("cy"@.len() == 2);
    assert("cy"@[0] == 'c');
    assert("cy"@[1] == 'y');
    assert("da"@.len() == 2);
    assert("da"@[0] == 'd');
    assert("da"@[1] == 'a');
    assert("de"@.len() == 2);
    assert("de"@[0] == 'd');
    assert("de"@[1] == 'e');
    assert("el"@.len() == 2);
    assert("el"@[0] == 'e');
    assert("el"@[1] == 'l');
    assert("en"@.len() == 2);
    assert("en"@[0] == 'e');
    assert("en"@[1] == 'n');
    assert("es"@.len() == 2);
    assert("es"@[0] == 'e');
    assert("es"@[1] == 's');
    assert("et"@.len() == 2);
    assert("et"@[0] == 'e');
    assert("et"@[1] == 't');
    assert("eu"@.len() == 2);
    assert("eu"@[0] == 'e');
    assert("eu"@[1] == 'u');
    assert("fa"@.len() == 2);
    assert("fa"@[0] == 'f');
    assert("fa"@[1] == 'a');
    assert("fi"@.len() == 2);
    assert("fi"@[0] == 'f');
    assert("fi"@[1] == 'i');
    assert("fo"@.len() == 2);
    assert("fo"@[0] == 'f');
    assert("fo"@[1] == 'o');
    assert("fr"@.len() == 2);
    assert("fr"@[0] == 'f');
    assert("fr"@[1] == 'r');
    assert("gl"@.len() == 2);
    assert("gl"@[0] == 'g');
    assert("gl"@[1] == 'l');
    assert("gu"@.len() == 2);
    assert("gu"@[0] == 'g');
    assert("gu"@[1] == 'u');
    assert("ha"@.len() == 2);
    assert("ha"@[0] == 'h');
    assert("ha"@[1] == 'a');
    assert("haw"@.len() == 3);
    assert("haw"@[0] == 'h');
    assert("haw"@[1] == 'a');
    assert("haw"@[2] == 'w');
    assert("he"@.len() == 2);
    assert("he"@[0] == 'h');
    assert("he"@[1] == 'e');
    assert("hi"@.len() == 2);
    assert("hi"@[0] == 'h');
    assert("hi"@[1] == 'i');
    assert("hr"@.len() == 2);
    assert("hr"@[0] == 'h');
    assert("hr"@[1] == 'r');
    assert("ht"@.len() == 2);
    assert("ht"@[0] == 'h');
    assert("ht"@[1] == 't');
    assert("hu"@.len() == 2);
    assert("hu"@[0] == 'h');
    assert("hu"@[1] == 'u');
    assert("hy"@.len() == 2);
    assert("hy"@[0] == 'h');
    assert("hy"@[1] == 'y');
    assert("id"@.len() == 2);
    assert("id"@[0] == 'i');
    assert("id"@[1] == 'd');
    assert("is"@.len() == 2);
    assert("is"@[0] == 'i');
    assert("is"@[1] == 's');
    assert("it"@.len() == 2);
    assert("it"@[0] == 'i');
    assert("it"@[1] == 't');
    assert("ja"@.len() == 2);
    assert("ja"@[0] == 'j');
    assert("ja"@[1] == 'a');
    assert("jw"@.len() == 2);
    assert("jw"@[0] == 'j');
    assert("jw"@[1] == 'w');
    assert("ka"@.len() == 2);
    assert("ka"@[0] == 'k');
    assert("ka"@[1] == 'a');
    assert("kk"@.len() == 2);
    assert("kk"@[0] == 'k');
    assert("kk"@[1] == 'k');
    assert("km"@.len() == 2);
    assert("km"@[0] == 'k');
    assert("km"@[1] == 'm');
    assert("kn"@.len() == 2);
    assert("kn"@[0] == 'k');
    assert("kn"@[1] == 'n');
    assert("ko"@.len() == 2);
    assert("ko"@[0] == 'k');
    assert("ko"@[1] == 'o');
    assert("la"@.len() == 2);
    assert("la"@[0] == 'l');
    assert("la"@[1] == 'a');
    assert("lb"@.len() == 2);
    assert("lb"@[0] == 'l');
    assert("lb"@[1] == 'b');
    assert("ln"@.len() == 2);
    assert("ln"@[0] == 'l');
    assert("ln"@[1] == 'n');
    assert("lo"@.len() == 2);
    assert("lo"@[0] == 'l');
    assert("lo"@[1] == 'o');
    assert("lt"@.len() == 2);
    assert("lt"@[0] == 'l');
    assert("lt"@[1] == 't');
    assert("lv"@.len() == 2);
    assert("lv"@[0] == 'l');
    assert("lv"@[1] == 'v');
    assert("mg"@.len() == 2);
    assert("mg"@[0] == 'm');
    assert("mg"@[1] == 'g');
    assert("mi"@.len() == 2);
    assert("mi"@[0] == 'm');
    assert("mi"@[1] == 'i');
    assert("mk"@.len() == 2);
    assert("mk"@[0] == 'm');
    assert("mk"@[1] == 'k');
    assert("ml"@.len() == 2);
    assert("ml"@[0] == 'm');
    assert("ml"@[1] == 'l');
    assert("mn"@.len() == 2);
    assert("mn"@[0] == 'm');
    assert("mn"@[1] == 'n');
    assert("mr"@.len() == 2);
    assert("mr"@[0] == 'm');
    assert("mr"@[1] == 'r');
    assert("ms"@.len() == 2);
    assert("ms"@[0] == 'm');
    assert("ms"@[1] == 's');
    assert("mt"@.len() == 2);
    assert("mt"@[0] == 'm');
    assert("mt"@[1] == 't');
    assert("my"@.len() == 2);
    assert("my"@[0] == 'm');
    assert("my"@[1] == 'y');
    assert("ne"@.len() == 2);
    assert("ne"@[0] == 'n');
    assert("ne"@[1] == 'e');
    assert("nl"@.len() == 2);
    assert("nl"@[0] == 'n');
    assert("nl"@[1] == 'l');
    assert("nn"@.len() == 2);
    assert("nn"@[0] == 'n');
    assert("nn"@[1] == 'n');
    assert("no"@.len() == 2);
    assert("no"@[0] == 'n');
    assert("no"@[1] == 'o');
    assert("oc"@.len() == 2);
    assert("oc"@[0] == 'o');
    assert("oc"@[1] == 'c');
    assert("pa"@.len() == 2);
    assert("pa"@[0] == 'p');
    assert("pa"@[1] == 'a');
    assert("pl"@.len() == 2);
    assert("pl"@[0] == 'p');
    assert("pl"@[1] == 'l');
    assert("ps"@.len() == 2);
    assert("ps"@[0] == 'p');
    assert("ps"@[1] == 's');
    assert("pt"@.len() == 2);
    assert("pt"@[0] == 'p');
    assert("pt"@[1] == 't');
    assert("ro"@.len() == 2);
    assert("ro"@[0] == 'r');
    assert("ro"@[1] == 'o');
    assert("ru"@.len() == 2);
    assert("ru"@[0] == 'r');
    assert("ru"@[1] == 'u');
    assert("sa"@.len() == 2);
    assert("sa"@[0] == 's');
    assert("sa"@[1] == 'a');
    assert("sd"@.len() == 2);
    assert("sd"@[0] == 's');
    assert("sd"@[1] == 'd');
    assert("si"@.len() == 2);
    assert("si"@[0] == 's');
    assert("si"@[1] == 'i');
    assert("sk"@.len() == 2);
    assert("sk"@[0] == 's');
    assert("sk"@[1] == 'k');
    assert("sl"@.len() == 2);
    assert("sl"@[0] == 's');
    assert("sl"@[1] == 'l');
    assert("sn"@.len() == 2);
    assert("sn"@[0] == 's');
    assert("sn"@[1] == 'n');
    assert("so"@.len() == 2);
    assert("so"@[0] == 's');
    assert("so"@[1] == 'o');
    assert("sq"@.len() == 2);
    assert("sq"@[0] == 's');
    assert("sq"@[1] == 'q');
    assert("sr"@.len() == 2);
    assert("sr"@[0] == 's');
    assert("sr"@[1] == 'r');
    assert("su"@.len() == 2);
    assert("su"@[0] == 's');
    assert("su"@[1] == 'u');
    assert("sv"@.len() == 2);
    assert("sv"@[0] == 's');
    assert("sv"@[1] == 'v');
    assert("sw"@.len() == 2);
    assert("sw"@[0] == 's');
    assert("sw"@[1] == 'w');
    assert("ta"@.len() == 2);
    assert("ta"@[0] == 't');
    assert("ta"@[1] == 'a');
    assert("te"@.len() == 2);
    assert("te"@[0] == 't');
    assert("te"@[1] == 'e');
    assert("tg"@.len() == 2);
    assert("tg"@[0] == 't');
    assert("tg"@[1] == 'g');
    assert("th"@.len() == 2);
    assert("th"@[0] == 't');
    assert("th"@[1] == 'h');
    assert("tk"@.len() == 2);
    assert("tk"@[0] == 't');
    assert("tk"@[1] == 'k');
    assert("tl"@.len() == 2);
    assert("tl"@[0] == 't');
    assert("tl"@[1] == 'l');
    assert("tr"@.len() == 2);
    assert("tr"@[0] == 't');
    assert("tr"@[1] == 'r');
    assert("tt"@.len() == 2);
    assert("tt"@[0] == 't');
    assert("tt"@[1] == 't');
    assert("uk"@.len() == 2);
    assert("uk"@[0] == 'u');
    assert("uk"@[1] == 'k');
    assert("ur"@.len() == 2);
    assert("ur"@[0] == 'u');
    assert("ur"@[1] == 'r');
    assert("uz"@.len() == 2);
    assert("uz"@[0] == 'u');
    assert("uz"@[1] == 'z');
    assert("vi"@.len() == 2);
    assert("vi"@[0] == 'v');
    assert("vi"@[1] == 'i');
    assert("yi"@.len() == 2);
    assert("yi"@[0] == 'y');
    assert("yi"@[1] == 'i');
    assert("yo"@.len() == 2);
    assert("yo"@[0] == 'y');
    assert("yo"@[1] == 'o');
    assert("zh"@.len() == 2);
    assert("zh"@[0] == 'z');
    assert("zh"@[1] == 'h');
    match l {
        Language::Auto => assert(spec_from_code("auto"@) == Some(Language::Auto)),
        Language::English => assert(spec_from_code("en"@) == Some(Language::English)),
        Language::Chinese => assert(spec_from_code("zh"@) == Some(Language::Chinese)),
        Language::German => assert(spec_from_code("de"@) == Some(Language::German)),
        Language::Spanish => assert(spec_from_code("es"@) == Some(Language::Spanish)),
        Language::Russian => assert(spec_from_code("ru"@) == Some(Language::Russian)),
        Language::Korean => assert(spec_from_code("ko"@) == Some(Language::Korean)),
        Language::French => assert(spec_from_code("fr"@) == Some(Language::French)),
        Language::Japanese => assert(spec_from_code("ja"@) == Some(Language::Japanese)),
        Language::Portuguese => assert(spec_from_code("pt"@) == Some(Language::Portuguese)),
        Language::Turkish => assert(spec_from_code("tr"@) == Some(Language::Turkish)),
        Language::Polish => assert(spec_from_code("pl"@) == Some(Language::Polish)),
        Language::Catalan => assert(spec_from_code("ca"@) == Some(Language::Catalan)),
        Language::Dutch => assert(spec_from_code("nl"@) == Some(Language::Dutch)),
        Language::Arabic => assert(spec_from_code("ar"@) == Some(Language::Arabic)),
        Language::Swedish => assert(spec_from_code("sv"@) == Some(Language::Swedish)),
        Language::Italian => assert(spec_from_code("it"@) == Some(Language::Italian)),
        Language::Indonesian => assert(spec_from_code("id"@) == Some(Language::Indonesian)),
        Language::Hindi => assert(spec_from_code("hi"@) == Some(Language::Hindi)),
        Language::Finnish => assert(spec_from_code("fi"@) == Some(Language::Finnish)),
        Language::Vietnamese => assert(spec_from_code("vi"@) == Some(Language::Vietnamese)),
        Language::Hebrew => assert(spec_from_code("he"@) == Some(Language::Hebrew)),
        Language::Ukrainian => assert(spec_from_code("uk"@) == Some(Language::Ukrainian)),
        Language::Greek => assert(spec_from_code("el"@) == Some(Language::Greek)),
        Language::Malay => assert(spec_from_code("ms"@) == Some(Language::Malay)),
        Language::Czech => assert(spec_from_code("cs"@) == Some(Language::Czech)),
        Language::Romanian => assert(spec_from_code("ro"@) == Some(Language::Romanian)),
        Language::Danish => assert(spec_from_code("da"@) == Some(Language::Danish)),
        Language::Hungarian => assert(spec_from_code("hu"@) == Some(Language::Hungarian)),
        Language::Tamil => assert(spec_from_code("ta"@) == Some(Language::Tamil)),
        Language::Norwegian => assert(spec_from_code("no"@) == Some(Language::Norwegian)),
        Language::Thai => assert(spec_from_code("th"@) == Some(Language::Thai)),
        Language::Urdu => assert(spec_from_code("ur"@) == Some(Language::Urdu)),
        Language::Croatian => assert(spec_from_code("hr"@) == Some(Language::Croatian)),
        Language::Bulgarian => assert(spec_from_code("bg"@) == Some(Language::Bulgarian)),
        Language::Lithuanian => assert(spec_from_code("lt"@) == Some(Language::Lithuanian)),
        Language::Latin => assert(spec_from_code("la"@) == Some(Language::Latin)),
        Language::Maori => assert(spec_from_code("mi"@) == Some(Language::Maori)),
        Language::Malayalam => assert(spec_from_code("ml"@) == Some(Language::Malayalam)),
        Language::Welsh => assert(spec_from_code("cy"@) == Some(Language::Welsh)),
        Language::Slovak => assert(spec_from_code("sk"@) == Some(Language::Slovak)),
        Language::Telugu => assert(spec_from_code("te"@) == Some(Language::Telugu)),
        Language::Persian => assert(spec_from_code("fa"@) == Some(Language::Persian)),
        Language::Latvian => assert(spec_from_code("lv"@) == Some(Language::Latvian)),
        Language::Bengali => assert(spec_from_code("bn"@) == Some(Language::Bengali)),
        Language::Serbian => assert(spec_from_code("sr"@) == Some(Language::Serbian)),
        Language::Azerbaijani => assert(spec_from_code("az"@) == Some(Language::Azerbaijani)),
        Language::Slovenian => assert(spec_from_code("sl"@) == Some(Language::Slovenian)),
        Language::Kannada => assert(spec_from_code("kn"@) == Some(Language::Kannada)),
        Language::Estonian => assert(spec_from_code("et"@) == Some(Language::Estonian)),
        Language::Macedonian => assert(spec_from_code("mk"@) == Some(Language::Macedonian)),
        Language::Breton => assert(spec_from_code("br"@) == Some(Language::Breton)),
        Language::Basque => assert(spec_from_code("eu"@) == Some(Language::Basque)),
        Language::Icelandic => assert(spec_from_code("is"@) == Some(Language::Icelandic)),
        Language::Armenian => assert(spec_from_code("hy"@) == Some(Language::Armenian)),
        Language::Nepali => assert(spec_from_code("ne"@) == Some(Language::Nepali)),
        Language::Mongolian => assert(spec_from_code("mn"@) == Some(Language::Mongolian)),
        Language::Bosnian => assert(spec_from_code("bs"@) == Some(Language::Bosnian)),
        Language::Kazakh => assert(spec_from_code("kk"@) == Some(Language::Kazakh)),
        Language::Albanian => assert(spec_from_code("sq"@) == Some(Language::Albanian)),
        Language::Swahili => assert(spec_from_code("sw"@) == Some(Language::Swahili)),
        Language::Galician => assert(spec_from_code("gl"@) == Some(Language::Galician)),
        Language::Marathi => assert(spec_from_code("mr"@) == Some(Language::Marathi)),
        Language::Punjabi => assert(spec_from_code("pa"@) == Some(Language::Punjabi)),
        Language::Sinhala => assert(spec_from_code("si"@) == Some(Language::Sinhala)),
        Language::Khmer => assert(spec_from_code("km"@) == Some(Language::Khmer)),
        Language::Shona => assert(spec_from_code("sn"@) == Some(Language::Shona)),
        Language::Yoruba => assert(spec_from_code("yo"@) == Some(Language::Yoruba)),
        Language::Somali => assert(spec_from_code("so"@) == Some(Language::Somali)),
        Language::Afrikaans => assert(spec_from_code("af"@) == Some(Language::Afrikaans)),
        Language::Occitan => assert(spec_from_code("oc"@) == Some(Language::Occitan)),
        Language::Georgian => assert(spec_from_code("ka"@) == Some(Language::Georgian)),
        Language::Belarusian => assert(spec_from_code("be"@) == Some(Language::Belarusian)),
        Language::Tajik => assert(spec_from_code("tg"@) == Some(Language::Tajik)),
        Language::Sindhi => assert(spec_from_code("sd"@) == Some(Language::Sindhi)),
        Language::Gujarati => assert(spec_from_code("gu"@) == Some(Language::Gujarati)),
        Language::Amharic => assert(spec_from_code("am"@) == Some(Language::Amharic)),
        Language::Yiddish => assert(spec_from_code("yi"@) == Some(Language::Yiddish)),
        Language::Lao => assert(spec_from_code("lo"@) == Some(Language::Lao)),
        Language::Uzbek => assert(spec_from_code("uz"@) == Some(Language::Uzbek)),
        Language::Faroese => assert(spec_from_code("fo"@) == Some(Language::Faroese)),
        Language::HaitianCreole => assert(spec_from_code("ht"@) == Some(Language::HaitianCreole)),
        Language::Pashto => assert(spec_from_code("ps"@) == Some(Language::Pashto)),
        Language::Turkmen => assert(spec_from_code("tk"@) == Some(Language::Turkmen)),
        Language::Nynorsk => assert(spec_from_code("nn"@) == Some(Language::Nynorsk)),
        Language::Maltese => assert(spec_from_code("mt"@) == Some(Language::Maltese)),
        Language::Sanskrit => assert(spec_from_code("sa"@) == Some(Language::Sanskrit)),
        Language::Luxembourgish => assert(spec_from_code("lb"@) == Some(Language::Luxembourgish)),
        Language::Myanmar => assert(spec_from_code("my"@) == Some(Language::Myanmar)),
        Language::Tibetan => assert(spec_from_code("bo"@) == Some(Language::Tibetan)),
        Language::Tagalog => assert(spec_from_code("tl"@) == Some(Language::Tagalog)),
        Language::Malagasy => assert(spec_from_code("mg"@) == Some(Language::Malagasy)),
        Language::Assamese => assert(spec_from_code("as"@) == Some(Language::Assamese)),
        Language::Tatar => assert(spec_from_code("tt"@) == Some(Language::Tatar)),
        Language::Hawaiian => assert(spec_from_code("haw"@) == Some(Language::Hawaiian)),
        Language::Lingala => assert(spec_from_code("ln"@) == Some(Language::Lingala)),
        Language::Hausa => assert(spec_from_code("ha"@) == Some(Language::Hausa)),
        Language::Bashkir => assert(spec_from_code("ba"@) == Some(Language::Bashkir)),
        Language::Javanese => assert(spec_from_code("jw"@) == Some(Language::Javanese)),
        Language::Sundanese => assert(spec_from_code("su"@) == Some(Language::Sundanese)),
    }
}

} // verus!
