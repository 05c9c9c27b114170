//! Languages and translated texts as the back-end services write them:
//! a language is written by its two-letter code.
use vstd::prelude::*;
use crate::strings::{owned, str_equal};

verus! {

/// Applicable languages.
#[derive(Debug, Clone, Copy, PartialEq, Eq, Structural)]
pub enum Language {
    /// English
    En,
    /// Chinese
    Ch,
    /// German
    De,
    /// Russian
    Ru,
    /// Spanish
    Es,
    /// French
    Fr,
    /// Korean
    Ko,
    /// Portuguese
    Po,
    /// Japanese
    Ja,
}

/// The code by which a language is written.
pub open spec fn language_code(l: Language) -> Seq<char> {
    match l {
        Language::En => seq!['e', 'n'],
        Language::Ch => seq!['c', 'h'],
        Language::De => seq!['d', 'e'],
        Language::Ru => seq!['r', 'u'],
        Language::Es => seq!['e', 's'],
        Language::Fr => seq!['f', 'r'],
        Language::Ko => seq!['k', 'o'],
        Language::Po => seq!['p', 'o'],
        Language::Ja => seq!['j', 'a'],
    }
}

/// The language that a code stands for, if any.
pub open spec fn language_of_code(s: Seq<char>) -> Option<Language> {
    if s == language_code(Language::En) {
        Some(Language::En)
    } else if s == language_code(Language::Ch) {
        Some(Language::Ch)
    } else if s == language_code(Language::De) {
        Some(Language::De)
    } else if s == language_code(Language::Ru) {
        Some(Language::Ru)
    } else if s == language_code(Language::Es) {
        Some(Language::Es)
    } else if s == language_code(Language::Fr) {
        Some(Language::Fr)
    } else if s == language_code(Language::Ko) {
        Some(Language::Ko)
    } else if s == language_code(Language::Po) {
        Some(Language::Po)
    } else if s == language_code(Language::Ja) {
        Some(Language::Ja)
    } else {
        None
    }
}

/// All languages, in the order in which they are listed to clients.
pub open spec fn all_languages() -> Seq<Language> {
    seq![
        Language::En,
        Language::Ch,
        Language::De,
        Language::Ru,
        Language::Es,
        Language::Fr,
        Language::Ko,
        Language::Po,
        Language::Ja,
    ]
}

/// A string that names no language.
#[derive(Debug, Clone)]
pub struct UnknownLanguage {
    /// The string that was given.
    pub value: String,
}

impl Language {
    /// The code of this language.
    pub fn code(&self) -> (s: &'static str)
        ensures
            s@ == language_code(*self),
            *self == Language::En ==> s@ == seq!['e', 'n'],
            *self == Language::Ch ==> s@ == seq!['c', 'h'],
            *self == Language::De ==> s@ == seq!['d', 'e'],
            *self == Language::Ru ==> s@ == seq!['r', 'u'],
            *self == Language::Es ==> s@ == seq!['e', 's'],
            *self == Language::Fr ==> s@ == seq!['f', 'r'],
            *self == Language::Ko ==> s@ == seq!['k', 'o'],
            *self == Language::Po ==> s@ == seq!['p', 'o'],
            *self == Language::Ja ==> s@ == seq!['j', 'a'],
    {
        match self {
            Language::En => {
                proof { reveal_strlit("en"); }
                "en"
            },
            Language::Ch => {
                proof { reveal_strlit("ch"); }
                "ch"
            },
            Language::De => {
                proof { reveal_strlit("de"); }
                "de"
            },
            Language::Ru => {
                proof { reveal_strlit("ru"); }
                "ru"
            },
            Language::Es => {
                proof { reveal_strlit("es"); }
                "es"
            },
            Language::Fr => {
                proof { reveal_strlit("fr"); }
                "fr"
            },
            Language::Ko => {
                proof { reveal_strlit("ko"); }
                "ko"
            },
            Language::Po => {
                proof { reveal_strlit("po"); }
                "po"
            },
            Language::Ja => {
                proof { reveal_strlit("ja"); }
                "ja"
            },
        }
    }

    /// The code of this language, as an owned string.
    pub fn to_string(&self) -> (s: String)
        ensures
            s@ == language_code(*self),
    {
        owned(self.code())
    }

    /// Reads a language from its code; any other string is refused.
    pub fn from_str(s: &str) -> (r: Result<Language, UnknownLanguage>)
        ensures
            match r {
                Ok(l) => language_of_code(s@) == Some(l),
                Err(e) => language_of_code(s@) is None && e.value@ == s@,
            },
    {
        if str_equal(s, Language::En.code()) {
            Ok(Language::En)
        } else if str_equal(s, Language::Ch.code()) {
            Ok(Language::Ch)
        } else if str_equal(s, Language::De.code()) {
            Ok(Language::De)
        } else if str_equal(s, Language::Ru.code()) {
            Ok(Language::Ru)
        } else if str_equal(s, Language::Es.code()) {
            Ok(Language::Es)
        } else if str_equal(s, Language::Fr.code()) {
            Ok(Language::Fr)
        } else if str_equal(s, Language::Ko.code()) {
            Ok(Language::Ko)
        } else if str_equal(s, Language::Po.code()) {
            Ok(Language::Po)
        } else if str_equal(s, Language::Ja.code()) {
            Ok(Language::Ja)
        } else {
            Err(UnknownLanguage { value: owned(s) })
        }
    }
}

/// A language as it is listed to clients: by its code.
#[derive(Debug, Clone)]
pub struct LanguageGraphQl {
    /// ISO 639-1 code
    pub iso_code: String,
}

impl LanguageGraphQl {
    /// A listed language with the given code.
    pub fn new(iso_code: String) -> (r: Self)
        ensures
            r.iso_code == iso_code,
    {
        Self { iso_code }
    }
}

impl Language {
    /// Every language, each listed by its code, in the order of
    /// [`all_languages`].
    pub fn as_vec() -> (v: Vec<LanguageGraphQl>)
        ensures
            v@.len() == all_languages().len(),
            forall|i: int|
                0 <= i < v@.len() ==> #[trigger] v@[i].iso_code@ == language_code(all_languages()[i]),
    {
        let languages: [Language; 9] = [
            Language::En,
            Language::Ch,
            Language::De,
            Language::Ru,
            Language::Es,
            Language::Fr,
            Language::Ko,
            Language::Po,
            Language::Ja,
        ];
        assert(languages@ == all_languages());
        let mut v: Vec<LanguageGraphQl> = Vec::new();
        let mut i: usize = 0;
        while i < 9
            invariant
                0 <= i <= 9,
                languages@ == all_languages(),
                v@.len() == i,
                forall|j: int|
                    0 <= j < i ==> #[trigger] v@[j].iso_code@ == language_code(all_languages()[j]),
            decreases 9 - i,
        {
            let l: Language = languages[i];
            v.push(LanguageGraphQl::new(l.to_string()));
            i = i + 1;
        }
        v
    }
}

/// Text with language, as a client gives it.
#[derive(Debug, Clone, PartialEq)]
pub struct TranslationInput {
    /// Language
    pub lang: Language,
    /// Text
    pub text: String,
}

/// Text with language, as a service answers it.
#[derive(Debug, Clone, PartialEq)]
pub struct Translation {
    /// Language
    pub lang: Language,
    /// Text
    pub text: String,
}

impl Translation {
    /// A translation of `text` in `lang`.
    pub fn new(lang: Language, text: String) -> (r: Self)
        ensures
            r.lang == lang,
            r.text == text,
    {
        Self { lang, text }
    }
}

/// The keys under which a translation is written.
pub open spec fn lang_key() -> Seq<char> {
    seq!['l', 'a', 'n', 'g']
}

/// The key under which the text of a translation is written.
pub open spec fn text_key() -> Seq<char> {
    seq!['t', 'e', 'x', 't']
}

/// The map entries that a translation input is written as: its language's
/// code under `lang`, then its text under `text`.
pub open spec fn translation_entries(lang: Language, text: Seq<char>) -> Seq<(Seq<char>, Seq<char>)> {
    seq![(lang_key(), language_code(lang)), (text_key(), text)]
}

/// A map entry's view: its key's and its value's characters.
pub open spec fn entries_view(entries: Seq<(String, String)>) -> Seq<(Seq<char>, Seq<char>)> {
    entries.map_values(|e: (String, String)| (e.0@, e.1@))
}

impl TranslationInput {
    /// The map entries that this input is sent as.
    pub fn to_entries(&self) -> (r: Vec<(String, String)>)
        ensures
            entries_view(r@) == translation_entries(self.lang, self.text@),
    {
        proof {
            reveal_strlit("lang");
            reveal_strlit("text");
            assert("lang"@ =~= lang_key());
            assert("text"@ =~= text_key());
        }
        let mut r: Vec<(String, String)> = Vec::new();
        r.push((owned("lang"), self.lang.to_string()));
        r.push((owned("text"), self.text.clone()));
        assert(entries_view(r@) =~= translation_entries(self.lang, self.text@));
        r
    }
}

/// A field of a translation.
#[derive(Debug, Clone, Copy, PartialEq, Eq, Structural)]
pub enum TranslationField {
    /// The language.
    Lang,
    /// The text.
    Text,
}

/// Why a translation could not be read.
#[derive(Debug, Clone, Copy, PartialEq, Eq, Structural)]
pub enum TranslationDecodeError {
    /// A key that is neither `lang` nor `text`.
    UnknownField,
    /// A field given a second time.
    DuplicateField(TranslationField),
    /// A field that is absent; the language is also reported absent when
    /// its value is not a language code.
    MissingField(TranslationField),
    /// A list form that ends before the element at this position.
    InvalidLength(usize),
    /// A list form whose first element is not a language code.
    UnknownVariant,
}

/// The field that a map key names.
pub open spec fn field_of_key(key: Seq<char>) -> Option<TranslationField> {
    if key == lang_key() {
        Some(TranslationField::Lang)
    } else if key == text_key() {
        Some(TranslationField::Text)
    } else {
        None
    }
}

/// What has been read of a translation so far: its language and its text,
/// each where it has been given.
pub type TranslationProgress = (Option<Language>, Option<Seq<char>>);

/// The outcome of reading a key, given which fields are already set.
pub open spec fn key_step(lang_set: bool, text_set: bool, key: Seq<char>) -> Result<
    TranslationField,
    TranslationDecodeError,
> {
    match field_of_key(key) {
        None => Err(TranslationDecodeError::UnknownField),
        Some(TranslationField::Lang) => if lang_set {
            Err(TranslationDecodeError::DuplicateField(TranslationField::Lang))
        } else {
            Ok(TranslationField::Lang)
        },
        Some(TranslationField::Text) => if text_set {
            Err(TranslationDecodeError::DuplicateField(TranslationField::Text))
        } else {
            Ok(TranslationField::Text)
        },
    }
}

/// The progress after one more map entry.
pub open spec fn entry_step(p: TranslationProgress, key: Seq<char>, value: Seq<char>) -> Result<
    TranslationProgress,
    TranslationDecodeError,
> {
    match key_step(p.0 is Some, p.1 is Some, key) {
        Err(e) => Err(e),
        Ok(TranslationField::Lang) => match language_of_code(value) {
            Some(l) => Ok((Some(l), p.1)),
            None => Err(TranslationDecodeError::MissingField(TranslationField::Lang)),
        },
        Ok(TranslationField::Text) => Ok((p.0, Some(value))),
    }
}

/// The progress after a run of map entries, read in order.
pub open spec fn read_entries(entries: Seq<(Seq<char>, Seq<char>)>) -> Result<
    TranslationProgress,
    TranslationDecodeError,
>
    decreases entries.len(),
{
    if entries.len() == 0 {
        Ok((None, None))
    } else {
        match read_entries(entries.drop_last()) {
            Ok(p) => entry_step(p, entries.last().0, entries.last().1),
            Err(e) => Err(e),
        }
    }
}

/// The translation that the progress amounts to once the map has ended.
pub open spec fn finish_progress(p: TranslationProgress) -> Result<
    (Language, Seq<char>),
    TranslationDecodeError,
> {
    match p.0 {
        None => Err(TranslationDecodeError::MissingField(TranslationField::Lang)),
        Some(l) => match p.1 {
            None => Err(TranslationDecodeError::MissingField(TranslationField::Text)),
            Some(t) => Ok((l, t)),
        },
    }
}

/// The translation that a map of entries is read as.
pub open spec fn translation_from_map(entries: Seq<(Seq<char>, Seq<char>)>) -> Result<
    (Language, Seq<char>),
    TranslationDecodeError,
> {
    match read_entries(entries) {
        Ok(p) => finish_progress(p),
        Err(e) => Err(e),
    }
}

/// Reads the entries of a map, one at a time, into a translation.
pub struct TranslationMapReader {
    /// The language, once read.
    pub lang: Option<Language>,
    /// The text, once read.
    pub text: Option<String>,
}

impl TranslationMapReader {
    /// What the reader has read.
    pub open spec fn progress(&self) -> TranslationProgress {
        (
            self.lang,
            match self.text {
                Some(t) => Some(t@),
                None => None,
            },
        )
    }

    /// A reader that has read nothing.
    pub fn new() -> (r: Self)
        ensures
            r.progress() == (None::<Language>, None::<Seq<char>>),
    {
        Self { lang: None, text: None }
    }

    /// The field that the next key names, or why that key is refused.
    pub fn key(&self, key: &str) -> (r: Result<TranslationField, TranslationDecodeError>)
        ensures
            r == key_step(self.lang is Some, self.text is Some, key@),
    {
        proof {
            reveal_strlit("lang");
            reveal_strlit("text");
            assert("lang"@ =~= lang_key());
            assert("text"@ =~= text_key());
        }
        if str_equal(key, "lang") {
            if self.lang.is_some() {
                Err(TranslationDecodeError::DuplicateField(TranslationField::Lang))
            } else {
                Ok(TranslationField::Lang)
            }
        } else if str_equal(key, "text") {
            if self.text.is_some() {
                Err(TranslationDecodeError::DuplicateField(TranslationField::Text))
            } else {
                Ok(TranslationField::Text)
            }
        } else {
            Err(TranslationDecodeError::UnknownField)
        }
    }

    /// Takes the value that follows a `lang` key.
    pub fn lang_value(&mut self, value: &str) -> (r: Result<(), TranslationDecodeError>)
        requires
            old(self).lang is None,
        ensures
            match entry_step(old(self).progress(), lang_key(), value@) {
                Ok(p) => r is Ok && final(self).progress() == p,
                Err(e) => r == Err::<(), TranslationDecodeError>(e),
            },
    {
        proof {
            assert(field_of_key(lang_key()) == Some(TranslationField::Lang));
        }
        match Language::from_str(value) {
            Ok(l) => {
                self.lang = Some(l);
                Ok(())
            },
            Err(_) => Err(TranslationDecodeError::MissingField(TranslationField::Lang)),
        }
    }

    /// Takes the value that follows a `text` key.
    pub fn text_value(&mut self, value: String)
        requires
            old(self).text is None,
        ensures
            entry_step(old(self).progress(), text_key(), value@) == Ok::<
                TranslationProgress,
                TranslationDecodeError,
            >(final(self).progress()),
    {
        proof {
            assert(field_of_key(text_key()) == Some(TranslationField::Text));
        }
        self.text = Some(value);
    }

    /// The translation read, once the map has ended.
    pub fn finish(self) -> (r: Result<Translation, TranslationDecodeError>)
        ensures
            match r {
                Ok(t) => finish_progress(self.progress()) == Ok::<
                    (Language, Seq<char>),
                    TranslationDecodeError,
                >((t.lang, t.text@)),
                Err(e) => finish_progress(self.progress()) == Err::<
                    (Language, Seq<char>),
                    TranslationDecodeError,
                >(e),
            },
    {
        match self.lang {
            None => Err(TranslationDecodeError::MissingField(TranslationField::Lang)),
            Some(l) => match self.text {
                None => Err(TranslationDecodeError::MissingField(TranslationField::Text)),
                Some(t) => Ok(Translation::new(l, t)),
            },
        }
    }
}

impl Translation {
    /// Reads the entries of a map, in order, into a translation.
    pub fn from_map_entries(entries: &Vec<(String, String)>) -> (r: Result<
        Translation,
        TranslationDecodeError,
    >)
        ensures
            match r {
                Ok(t) => translation_from_map(entries_view(entries@)) == Ok::<
                    (Language, Seq<char>),
                    TranslationDecodeError,
                >((t.lang, t.text@)),
                Err(e) => translation_from_map(entries_view(entries@)) == Err::<
                    (Language, Seq<char>),
                    TranslationDecodeError,
                >(e),
            },
    {
        let mut reader = TranslationMapReader::new();
        let mut i: usize = 0;
        while i < entries.len()
            invariant
                0 <= i <= entries@.len(),
                read_entries(entries_view(entries@).take(i as int)) == Ok::<
                    TranslationProgress,
                    TranslationDecodeError,
                >(reader.progress()),
            decreases entries@.len() - i,
        {
            let ghost before = entries_view(entries@).take(i as int);
            let ghost after = entries_view(entries@).take(i + 1);
            assert(after.drop_last() =~= before);
            let key: &str = entries[i].0.as_str();
            match reader.key(key) {
                Err(e) => {
                    proof { lemma_read_entries_stops(entries_view(entries@), i as int, e); }
                    return Err(e);
                },
                Ok(TranslationField::Lang) => {
                    match reader.lang_value(entries[i].1.as_str()) {
                        Ok(()) => {},
                        Err(e) => {
                            proof { lemma_read_entries_stops(entries_view(entries@), i as int, e); }
                            return Err(e);
                        },
                    }
                },
                Ok(TranslationField::Text) => {
                    reader.text_value(entries[i].1.clone());
                },
            }
            i = i + 1;
        }
        assert(entries_view(entries@).take(entries@.len() as int) =~= entries_view(entries@));
        reader.finish()
    }
}

/// Once an entry is refused, the whole map is refused with the same error.
proof fn lemma_read_entries_stops(
    entries: Seq<(Seq<char>, Seq<char>)>,
    i: int,
    e: TranslationDecodeError,
)
    requires
        0 <= i < entries.len(),
        read_entries(entries.take(i + 1)) == Err::<TranslationProgress, TranslationDecodeError>(e),
    ensures
        translation_from_map(entries) == Err::<(Language, Seq<char>), TranslationDecodeError>(e),
{
    let n = entries.len() as int;
    lemma_read_entries_prefix_err(entries, i + 1, n);
    assert(entries.take(n) =~= entries);
}

/// An error in a prefix carries over to every longer prefix.
proof fn lemma_read_entries_prefix_err(entries: Seq<(Seq<char>, Seq<char>)>, k: int, m: int)
    requires
        0 <= k <= m <= entries.len(),
        read_entries(entries.take(k)) is Err,
    ensures
        read_entries(entries.take(m)) == read_entries(entries.take(k)),
    decreases m - k,
{
    if k < m {
        lemma_read_entries_prefix_err(entries, k, m - 1);
        assert(entries.take(m).drop_last() =~= entries.take(m - 1));
    }
}

impl Translation {
    /// Reads the language from the first element of the list form.
    pub fn lang_from_element(first: Option<&str>) -> (r: Result<Language, TranslationDecodeError>)
        ensures
            match r {
                Ok(l) => first is Some && language_of_code(first->0@) == Some(l),
                Err(e) => match first {
                    None => e == TranslationDecodeError::InvalidLength(0),
                    Some(f) => language_of_code(f@) is None && e
                        == TranslationDecodeError::UnknownVariant,
                },
            },
    {
        match first {
            None => Err(TranslationDecodeError::InvalidLength(0)),
            Some(f) => match Language::from_str(f) {
                Ok(l) => Ok(l),
                Err(_) => Err(TranslationDecodeError::UnknownVariant),
            },
        }
    }

    /// Reads the text from the second element of the list form.
    pub fn text_from_element(second: Option<String>) -> (r: Result<String, TranslationDecodeError>)
        ensures
            match second {
                None => r == Err::<String, TranslationDecodeError>(
                    TranslationDecodeError::InvalidLength(1),
                ),
                Some(t) => r == Ok::<String, TranslationDecodeError>(t),
            },
    {
        match second {
            None => Err(TranslationDecodeError::InvalidLength(1)),
            Some(t) => Ok(t),
        }
    }
}

/// A translation input, written as map entries, is read back as a
/// translation with the same language and text; the order of the two
/// entries does not matter (text first, then language, reads the same).
pub proof fn lemma_translation_round_trip(lang: Language, text: Seq<char>)
    ensures
        translation_from_map(translation_entries(lang, text)) == Ok::<
            (Language, Seq<char>),
            TranslationDecodeError,
        >((lang, text)),
        translation_from_map(seq![(text_key(), text), (lang_key(), language_code(lang))]) == Ok::<
            (Language, Seq<char>),
            TranslationDecodeError,
        >((lang, text)),
{
    lemma_language_code_round_trip(lang);
    assert(lang_key() != text_key());
    assert(field_of_key(lang_key()) == Some(TranslationField::Lang));
    assert(field_of_key(text_key()) == Some(TranslationField::Text));
    let written = translation_entries(lang, text);
    let reversed = seq![(text_key(), text), (lang_key(), language_code(lang))];
    assert(written.drop_last().drop_last() =~= Seq::<(Seq<char>, Seq<char>)>::empty());
    assert(reversed.drop_last().drop_last() =~= Seq::<(Seq<char>, Seq<char>)>::empty());
    assert(read_entries(written.drop_last().drop_last()) == Ok::<TranslationProgress, TranslationDecodeError>(
        (None, None),
    ));
    assert(read_entries(reversed.drop_last().drop_last()) == Ok::<TranslationProgress, TranslationDecodeError>(
        (None, None),
    ));
    assert(written.drop_last().last() == (lang_key(), language_code(lang)));
    assert(reversed.drop_last().last() == (text_key(), text));
    assert(read_entries(written.drop_last()) == Ok::<TranslationProgress, TranslationDecodeError>(
        (Some(lang), None),
    ));
    assert(read_entries(reversed.drop_last()) == Ok::<TranslationProgress, TranslationDecodeError>(
        (None, Some(text)),
    ));
    assert(read_entries(written) == Ok::<TranslationProgress, TranslationDecodeError>(
        (Some(lang), Some(text)),
    ));
    assert(read_entries(reversed) == Ok::<TranslationProgress, TranslationDecodeError>(
        (Some(lang), Some(text)),
    ));
}

/// Each entry that is read sets one field that was not set before.
proof fn lemma_read_entries_counts(entries: Seq<(Seq<char>, Seq<char>)>)
    ensures
        read_entries(entries) matches Ok(p) ==> entries.len() == (if p.0 is Some {
            1int
        } else {
            0int
        }) + (if p.1 is Some {
            1int
        } else {
            0int
        }),
    decreases entries.len(),
{
    if entries.len() > 0 {
        lemma_read_entries_counts(entries.drop_last());
    }
}

/// A map is read as a translation only if it has exactly two entries,
/// one for the language and one for the text; any extra, repeated or
/// unknown key is refused.
pub proof fn lemma_translation_map_has_two_entries(entries: Seq<(Seq<char>, Seq<char>)>)
    ensures
        translation_from_map(entries) is Ok ==> entries.len() == 2,
{
    lemma_read_entries_counts(entries);
}

/// Each language is read back from its own code.
pub proof fn lemma_language_code_round_trip(l: Language)
    ensures
        language_of_code(language_code(l)) == Some(l),
{
    assert(language_code(Language::En) != language_code(Language::Ch));
    assert(language_code(Language::En) != language_code(Language::De));
}

/// Each language is written under its fixed two-letter code: "en", "ch",
/// "de", "ru", "es", "fr", "ko", "po", "ja".
pub proof fn lemma_language_codes()
    ensures
        language_code(Language::En) == seq!['e', 'n'],
        language_code(Language::Ch) == seq!['c', 'h'],
        language_code(Language::De) == seq!['d', 'e'],
        language_code(Language::Ru) == seq!['r', 'u'],
        language_code(Language::Es) == seq!['e', 's'],
        language_code(Language::Fr) == seq!['f', 'r'],
        language_code(Language::Ko) == seq!['k', 'o'],
        language_code(Language::Po) == seq!['p', 'o'],
        language_code(Language::Ja) == seq!['j', 'a'],
{
}

} // verus!
