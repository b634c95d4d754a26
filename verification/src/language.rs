//! The languages the bot can speak, with their conversions to and from each
//! textual representation: the locale tag used for translation files, the
//! two-letter code used by the settings store, and the human-readable name.

use vstd::prelude::*;

verus! {

use crate::text::str_eq;

/// An error from parsing a language out of a locale tag.
#[derive(Debug, Clone)]
pub struct LanguageParseError {
    input: String,
}

impl LanguageParseError {
    /// The locale tag that could not be recognised.
    pub closed spec fn spec_input(&self) -> Seq<char> {
        self.input@
    }

    pub fn new(input: String) -> (r: Self)
        ensures
            r.spec_input() == input@,
    {
        LanguageParseError { input }
    }

    /// The locale tag that could not be recognised.
    pub fn input(&self) -> (r: &str)
        ensures
            r@ == self.spec_input(),
    {
        self.input.as_str()
    }
}

/// A language the bot can speak. `English` is the default wherever no
/// preference is recorded.
#[derive(Debug, Clone, Copy, PartialEq, Eq, Hash, Structural)]
pub enum Language {
    English,
    Spanish,
}

impl Default for Language {
    fn default() -> (r: Self)
        ensures
            r == Language::English,
    {
        Language::English
    }
}

impl Language {
    /// The default language, used when neither user nor guild recorded one.
    pub fn default_language() -> (r: Language)
        ensures
            r == Language::English,
    {
        Language::English
    }

    /// Every language, in a fixed order.
    pub fn all() -> (r: Vec<Language>)
        ensures
            r@ == seq![Language::English, Language::Spanish],
    {
        let mut v: Vec<Language> = Vec::new();
        v.push(Language::English);
        v.push(Language::Spanish);
        proof {
            assert(v@ =~= seq![Language::English, Language::Spanish]);
        }
        v
    }

    /// The locale tag naming this language's translation file.
    pub fn as_str(&self) -> (r: &'static str)
        ensures
            self == Language::English ==> r@ == "en_US"@,
            self == Language::Spanish ==> r@ == "es_419"@,
    {
        match self {
            Language::English => "en_US",
            Language::Spanish => "es_419",
        }
    }

    /// Parse a language from the locale tag used by the command surface.
    pub fn from_str(s: &str) -> (r: Result<Language, LanguageParseError>)
        ensures
            s@ == "en-US"@ ==> r == Ok::<Language, LanguageParseError>(Language::English),
            s@ == "es-419"@ ==> r == Ok::<Language, LanguageParseError>(Language::Spanish),
            s@ != "en-US"@ && s@ != "es-419"@ ==> (r matches Err(e) && e.spec_input() == s@),
    {
        proof {
            reveal_strlit("en-US");
            reveal_strlit("es-419");
            assert("en-US"@.len() == 5);
            assert("es-419"@.len() == 6);
            assert("en-US"@ != "es-419"@);
        }
        if str_eq(s, "en-US") {
            Ok(Language::English)
        } else if str_eq(s, "es-419") {
            Ok(Language::Spanish)
        } else {
            Err(LanguageParseError::new(s.to_owned()))
        }
    }

    /// The two-letter code this language is stored under in the settings
    /// tables.
    pub fn storage_code(&self) -> (r: &'static str)
        ensures
            self == Language::English ==> r@ == "en"@,
            self == Language::Spanish ==> r@ == "es"@,
    {
        match self {
            Language::English => "en",
            Language::Spanish => "es",
        }
    }

    /// Parse a language from its two-letter storage code.
    pub fn from_storage_code(s: &str) -> (r: Option<Language>)
        ensures
            s@ == "en"@ ==> r == Some(Language::English),
            s@ == "es"@ ==> r == Some(Language::Spanish),
            s@ != "en"@ && s@ != "es"@ ==> r is None,
    {
        proof {
            reveal_strlit("en");
            reveal_strlit("es");
            assert("en"@ != "es"@) by {
                assert("en"@[1] == 'n');
                assert("es"@[1] == 's');
            }
        }
        if str_eq(s, "en") {
            Some(Language::English)
        } else if str_eq(s, "es") {
            Some(Language::Spanish)
        } else {
            None
        }
    }

    /// The human-readable name shown in the settings menu.
    pub fn display_name(&self) -> (r: &'static str)
        ensures
            self == Language::English ==> r@ == "English"@,
            self == Language::Spanish ==> r@ == "Spanish"@,
    {
        match self {
            Language::English => "English",
            Language::Spanish => "Spanish",
        }
    }
}

} // verus!
