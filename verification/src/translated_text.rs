//! Languages and translated texts as clients name them: a language is read
//! from its English name and written by its two-letter code.
use vstd::prelude::*;
use crate::strings::{owned, str_equal};

verus! {

/// Applicable languages.
#[derive(Debug, Clone, Copy, PartialEq, Eq, Structural)]
pub enum Language {
    /// English
    English,
    /// Chinese
    Chinese,
    /// German
    German,
    /// Russian
    Russian,
    /// Spanish
    Spanish,
    /// French
    French,
    /// Korean
    Korean,
    /// Portuguese
    Portuguese,
    /// Japanese
    Japanese,
}

/// The code by which a language is written.
pub open spec fn language_code(l: Language) -> Seq<char> {
    match l {
        Language::English => seq!['e', 'n'],
        Language::Chinese => seq!['c', 'h'],
        Language::German => seq!['g', 'e'],
        Language::Russian => seq!['r', 'u'],
        Language::Spanish => seq!['e', 's'],
        Language::French => seq!['f', 'r'],
        Language::Korean => seq!['k', 'o'],
        Language::Portuguese => seq!['p', 'o'],
        Language::Japanese => seq!['j', 'a'],
    }
}

/// The language that a code stands for, if any.
pub open spec fn language_of_code(s: Seq<char>) -> Option<Language> {
    if s == language_code(Language::English) {
        Some(Language::English)
    } else if s == language_code(Language::Chinese) {
        Some(Language::Chinese)
    } else if s == language_code(Language::German) {
        Some(Language::German)
    } else if s == language_code(Language::Russian) {
        Some(Language::Russian)
    } else if s == language_code(Language::Spanish) {
        Some(Language::Spanish)
    } else if s == language_code(Language::French) {
        Some(Language::French)
    } else if s == language_code(Language::Korean) {
        Some(Language::Korean)
    } else if s == language_code(Language::Portuguese) {
        Some(Language::Portuguese)
    } else if s == language_code(Language::Japanese) {
        Some(Language::Japanese)
    } else {
        None
    }
}

/// The name by which a language is read.
pub open spec fn language_name(l: Language) -> Seq<char> {
    match l {
        Language::English => seq!['e', 'n', 'g', 'l', 'i', 's', 'h'],
        Language::Chinese => seq!['c', 'h', 'i', 'n', 'e', 's', 'e'],
        Language::German => seq!['g', 'e', 'r', 'm', 'a', 'n'],
        Language::Russian => seq!['r', 'u', 's', 's', 'i', 'a', 'n'],
        Language::Spanish => seq!['s', 'p', 'a', 'n', 'i', 's', 'h'],
        Language::French => seq!['f', 'r', 'e', 'n', 'c', 'h'],
        Language::Korean => seq!['k', 'o', 'r', 'e', 'a', 'n'],
        Language::Portuguese => seq!['p', 'o', 'r', 't', 'u', 'g', 'u', 'e', 's', 'e'],
        Language::Japanese => seq!['j', 'a', 'p', 'a', 'n', 'e', 's', 'e'],
    }
}

/// The language that a name stands for, if any.
pub open spec fn language_of_name(s: Seq<char>) -> Option<Language> {
    if s == language_name(Language::English) {
        Some(Language::English)
    } else if s == language_name(Language::Chinese) {
        Some(Language::Chinese)
    } else if s == language_name(Language::German) {
        Some(Language::German)
    } else if s == language_name(Language::Russian) {
        Some(Language::Russian)
    } else if s == language_name(Language::Spanish) {
        Some(Language::Spanish)
    } else if s == language_name(Language::French) {
        Some(Language::French)
    } else if s == language_name(Language::Korean) {
        Some(Language::Korean)
    } else if s == language_name(Language::Portuguese) {
        Some(Language::Portuguese)
    } else if s == language_name(Language::Japanese) {
        Some(Language::Japanese)
    } else {
        None
    }
}

/// A string that names no language.
#[derive(Debug, Clone)]
pub struct UnknownLanguage {
    /// The string that was given.
    pub value: String,
}

impl Language {
    /// The code of this language.
    pub fn code(&self) -> (s: &'static str)
        ensures
            s@ == language_code(*self),
            *self == Language::English ==> s@ == seq!['e', 'n'],
            *self == Language::Chinese ==> s@ == seq!['c', 'h'],
            *self == Language::German ==> s@ == seq!['g', 'e'],
            *self == Language::Russian ==> s@ == seq!['r', 'u'],
            *self == Language::Spanish ==> s@ == seq!['e', 's'],
            *self == Language::French ==> s@ == seq!['f', 'r'],
            *self == Language::Korean ==> s@ == seq!['k', 'o'],
            *self == Language::Portuguese ==> s@ == seq!['p', 'o'],
            *self == Language::Japanese ==> s@ == seq!['j', 'a'],
    {
        match self {
            Language::English => {
                proof { reveal_strlit("en"); }
                "en"
            },
            Language::Chinese => {
                proof { reveal_strlit("ch"); }
                "ch"
            },
            Language::German => {
                proof { reveal_strlit("ge"); }
                "ge"
            },
            Language::Russian => {
                proof { reveal_strlit("ru"); }
                "ru"
            },
            Language::Spanish => {
                proof { reveal_strlit("es"); }
                "es"
            },
            Language::French => {
                proof { reveal_strlit("fr"); }
                "fr"
            },
            Language::Korean => {
                proof { reveal_strlit("ko"); }
                "ko"
            },
            Language::Portuguese => {
                proof { reveal_strlit("po"); }
                "po"
            },
            Language::Japanese => {
                proof { reveal_strlit("ja"); }
                "ja"
            },
        }
    }

    /// The name of this language.
    pub fn name(&self) -> (s: &'static str)
        ensures
            s@ == language_name(*self),
    {
        match self {
            Language::English => {
                proof { reveal_strlit("english"); }
                "english"
            },
            Language::Chinese => {
                proof { reveal_strlit("chinese"); }
                "chinese"
            },
            Language::German => {
                proof { reveal_strlit("german"); }
                "german"
            },
            Language::Russian => {
                proof { reveal_strlit("russian"); }
                "russian"
            },
            Language::Spanish => {
                proof { reveal_strlit("spanish"); }
                "spanish"
            },
            Language::French => {
                proof { reveal_strlit("french"); }
                "french"
            },
            Language::Korean => {
                proof { reveal_strlit("korean"); }
                "korean"
            },
            Language::Portuguese => {
                proof { reveal_strlit("portuguese"); }
                "portuguese"
            },
            Language::Japanese => {
                proof { reveal_strlit("japanese"); }
                "japanese"
            },
        }
    }

    /// The code of this language, as an owned string.
    pub fn to_string(&self) -> (s: String)
        ensures
            s@ == language_code(*self),
    {
        owned(self.code())
    }

    /// Reads a language from its code, as services write it; any other
    /// string is refused.
    pub fn from_code(s: &str) -> (r: Result<Language, UnknownLanguage>)
        ensures
            match r {
                Ok(l) => language_of_code(s@) == Some(l),
                Err(e) => language_of_code(s@) is None && e.value@ == s@,
            },
    {
        if str_equal(s, Language::English.code()) {
            Ok(Language::English)
        } else if str_equal(s, Language::Chinese.code()) {
            Ok(Language::Chinese)
        } else if str_equal(s, Language::German.code()) {
            Ok(Language::German)
        } else if str_equal(s, Language::Russian.code()) {
            Ok(Language::Russian)
        } else if str_equal(s, Language::Spanish.code()) {
            Ok(Language::Spanish)
        } else if str_equal(s, Language::French.code()) {
            Ok(Language::French)
        } else if str_equal(s, Language::Korean.code()) {
            Ok(Language::Korean)
        } else if str_equal(s, Language::Portuguese.code()) {
            Ok(Language::Portuguese)
        } else if str_equal(s, Language::Japanese.code()) {
            Ok(Language::Japanese)
        } else {
            Err(UnknownLanguage { value: owned(s) })
        }
    }

    /// Reads a language from its name; any other string is refused.
    pub fn from_str(s: &str) -> (r: Result<Language, UnknownLanguage>)
        ensures
            match r {
                Ok(l) => language_of_name(s@) == Some(l),
                Err(e) => language_of_name(s@) is None && e.value@ == s@,
            },
    {
        if str_equal(s, Language::English.name()) {
            Ok(Language::English)
        } else if str_equal(s, Language::Chinese.name()) {
            Ok(Language::Chinese)
        } else if str_equal(s, Language::German.name()) {
            Ok(Language::German)
        } else if str_equal(s, Language::Russian.name()) {
            Ok(Language::Russian)
        } else if str_equal(s, Language::Spanish.name()) {
            Ok(Language::Spanish)
        } else if str_equal(s, Language::French.name()) {
            Ok(Language::French)
        } else if str_equal(s, Language::Korean.name()) {
            Ok(Language::Korean)
        } else if str_equal(s, Language::Portuguese.name()) {
            Ok(Language::Portuguese)
        } else if str_equal(s, Language::Japanese.name()) {
            Ok(Language::Japanese)
        } else {
            Err(UnknownLanguage { value: owned(s) })
        }
    }
}

/// Text with language, as a client gives it.
#[derive(Debug, Clone)]
pub struct TranslatedTextInput {
    /// Language
    pub lang: Language,
    /// Text
    pub text: String,
}

/// Text with language, as a service answers it.
#[derive(Debug, Clone)]
pub struct TranslatedText {
    /// Language
    pub lang: Language,
    /// Text
    pub text: String,
}

impl TranslatedText {
    /// A translated text of `text` in `lang`.
    pub fn new(lang: Language, text: String) -> (r: Self)
        ensures
            r.lang == lang,
            r.text == text,
    {
        Self { lang, text }
    }
}

impl TranslatedTextInput {
    /// The single map entry that this input is sent as: the text under the
    /// code of its language.
    pub fn to_entry(&self) -> (r: (String, String))
        ensures
            r.0@ == language_code(self.lang),
            r.1@ == self.text@,
    {
        (self.lang.to_string(), self.text.clone())
    }
}

/// A field of a translated text.
#[derive(Debug, Clone, Copy, PartialEq, Eq, Structural)]
pub enum TranslatedTextField {
    /// The language.
    Lang,
    /// The text.
    Text,
}

/// Why a translated text could not be read.
#[derive(Debug, Clone, Copy, PartialEq, Eq, Structural)]
pub enum TranslatedTextDecodeError {
    /// A field that is absent; the language is also reported absent when
    /// the first key is not a language name.
    MissingField(TranslatedTextField),
}

/// The translated text that a map is read as, from its first entry alone
/// (`None` where the map is empty): the key names the language, the value
/// is the text.
pub open spec fn translated_text_from_map(first: Option<(Seq<char>, Seq<char>)>) -> Result<
    (Language, Seq<char>),
    TranslatedTextDecodeError,
> {
    match first {
        None => Err(TranslatedTextDecodeError::MissingField(TranslatedTextField::Lang)),
        Some(e) => match language_of_name(e.0) {
            None => Err(TranslatedTextDecodeError::MissingField(TranslatedTextField::Lang)),
            Some(l) => Ok((l, e.1)),
        },
    }
}

impl TranslatedText {
    /// Reads the language from the first key of a map (`None` where the map
    /// is empty); its value is then the text.
    pub fn lang_from_first_key(key: Option<&str>) -> (r: Result<Language, TranslatedTextDecodeError>)
        ensures
            match r {
                Ok(l) => key is Some && language_of_name(key->0@) == Some(l),
                Err(e) => e == TranslatedTextDecodeError::MissingField(TranslatedTextField::Lang)
                    && (key is None || language_of_name(key->0@) is None),
            },
    {
        match key {
            None => Err(TranslatedTextDecodeError::MissingField(TranslatedTextField::Lang)),
            Some(k) => match Language::from_str(k) {
                Ok(l) => Ok(l),
                Err(_) => Err(TranslatedTextDecodeError::MissingField(TranslatedTextField::Lang)),
            },
        }
    }

    /// Reads a translated text from the first entry of a map.
    pub fn from_first_entry(first: Option<(&str, String)>) -> (r: Result<
        TranslatedText,
        TranslatedTextDecodeError,
    >)
        ensures
            match r {
                Ok(t) => translated_text_from_map(
                    match first {
                        Some(e) => Some((e.0@, e.1@)),
                        None => None,
                    },
                ) == Ok::<(Language, Seq<char>), TranslatedTextDecodeError>((t.lang, t.text@)),
                Err(e) => translated_text_from_map(
                    match first {
                        Some(e) => Some((e.0@, e.1@)),
                        None => None,
                    },
                ) == Err::<(Language, Seq<char>), TranslatedTextDecodeError>(e),
            },
    {
        match first {
            None => Err(TranslatedTextDecodeError::MissingField(TranslatedTextField::Lang)),
            Some((k, text)) => match Self::lang_from_first_key(Some(k)) {
                Ok(l) => Ok(TranslatedText::new(l, text)),
                Err(e) => Err(e),
            },
        }
    }
}

/// Each language is read back from its own name.
pub proof fn lemma_language_name_round_trip(l: Language)
    ensures
        language_of_name(language_name(l)) == Some(l),
{
}

/// A language's code is read back as that language.
pub proof fn lemma_language_code_round_trip(l: Language)
    ensures
        language_of_code(language_code(l)) == Some(l),
{
}

/// No code is the name of a language.
pub proof fn lemma_code_is_no_name(l: Language)
    ensures
        language_of_name(language_code(l)) is None,
{
    assert(language_code(l).len() == 2);
}

/// A translated text input is written under its language's code, but a
/// translated text is read from a language's name, so what is written is
/// never read back: reading it reports the language missing.
pub proof fn lemma_translated_text_written_not_read_back(lang: Language, text: Seq<char>)
    ensures
        translated_text_from_map(Some((language_code(lang), text))) == Err::<
            (Language, Seq<char>),
            TranslatedTextDecodeError,
        >(TranslatedTextDecodeError::MissingField(TranslatedTextField::Lang)),
{
    lemma_code_is_no_name(lang);
}

/// Each language is written under its fixed two-letter code: English
/// "en", Chinese "ch", German "ge", Russian "ru", Spanish "es", French "fr",
/// Korean "ko", Portuguese "po", Japanese "ja".
pub proof fn lemma_language_codes()
    ensures
        language_code(Language::English) == seq!['e', 'n'],
        language_code(Language::Chinese) == seq!['c', 'h'],
        language_code(Language::German) == seq!['g', 'e'],
        language_code(Language::Russian) == seq!['r', 'u'],
        language_code(Language::Spanish) == seq!['e', 's'],
        language_code(Language::French) == seq!['f', 'r'],
        language_code(Language::Korean) == seq!['k', 'o'],
        language_code(Language::Portuguese) == seq!['p', 'o'],
        language_code(Language::Japanese) == seq!['j', 'a'],
{
}

} // verus!
