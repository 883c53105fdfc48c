//! Launcher language selection.
//!
//! A language identifier is held as plain values — a language code and an
//! optional region, both expected in ASCII lowercase, the form the rest of
//! the launcher uses. The current language is an explicit context value
//! owned by whoever presents dialogs, never a process-wide mutable global.
//! Reading the system locale from the environment happens outside; the
//! choice of the language it maps to is verified here.

use vstd::prelude::*;

verus! {

/// A language as the launcher knows it: a language code such as `en` and an
/// optional region such as `us`.
#[derive(Debug)]
pub struct LanguageId {
    pub language: String,
    pub region: Option<String>,
}

impl View for LanguageId {
    type V = (Seq<char>, Option<Seq<char>>);

    open spec fn view(&self) -> (Seq<char>, Option<Seq<char>>) {
        (
            self.language@,
            match self.region {
                Some(r) => Some(r@),
                None => None,
            },
        )
    }
}

/// The language codes the launcher ships translations for.
pub open spec fn spec_is_supported_language(code: Seq<char>) -> bool {
    code == "en"@ || code == "ru"@
}

/// `p` is a prefix of `s`.
pub open spec fn spec_is_prefix(p: Seq<char>, s: Seq<char>) -> bool {
    p.len() <= s.len() && s.subrange(0, p.len() as int) == p
}

/// Map of supported languages: American English and Russian.
pub fn supported_languages() -> (r: Vec<LanguageId>)
    ensures
        r@.len() == 2,
        r@[0]@ == ("en"@, Some("us"@)),
        r@[1]@ == ("ru"@, Some("ru"@)),
        forall|i: int| 0 <= i < r@.len() ==> spec_is_supported_language(#[trigger] r@[i]@.0),
{
    let mut v: Vec<LanguageId> = Vec::new();
    v.push(LanguageId { language: String::from_str("en"), region: Some(String::from_str("us")) });
    v.push(LanguageId { language: String::from_str("ru"), region: Some(String::from_str("ru")) });
    v
}

/// Asked of a language that the launcher has no translations for; carries
/// the rejected identifier back to the caller.
#[derive(Debug)]
pub struct UnsupportedLanguageError {
    pub lang: LanguageId,
}

/// The launcher's current language: an explicit context value passed by
/// reference to whichever component needs to resolve a locale.
#[derive(Debug)]
pub struct I18n {
    lang: LanguageId,
}

impl I18n {
    /// The current launcher language.
    pub closed spec fn spec_lang(&self) -> (Seq<char>, Option<Seq<char>>) {
        self.lang@
    }

    /// A fresh context; the launcher starts in Russian.
    pub fn new() -> (r: Self)
        ensures
            r.spec_lang() == ("ru"@, Some("ru"@)),
    {
        I18n {
            lang: LanguageId {
                language: String::from_str("ru"),
                region: Some(String::from_str("ru")),
            },
        }
    }

    /// Set launcher language. Succeeds exactly for the languages the
    /// launcher ships translations for; anything else is rejected with a
    /// typed error and the current language stands.
    pub fn set_lang(&mut self, lang: LanguageId) -> (r: Result<(), UnsupportedLanguageError>)
        ensures
            r is Ok <==> spec_is_supported_language(lang@.0),
            r is Ok ==> final(self).spec_lang() == lang@,
            r is Err ==> final(self).spec_lang() == old(self).spec_lang(),
            r matches Err(e) ==> e.lang@ == lang@,
    {
        let en = String::from_str("en");
        let ru = String::from_str("ru");
        if lang.language == en || lang.language == ru {
            self.lang = lang;
            Ok(())
        } else {
            Err(UnsupportedLanguageError { lang })
        }
    }

    /// Get launcher language.
    pub fn get_lang(&self) -> (r: &LanguageId)
        ensures
            r@ == self.spec_lang(),
    {
        &self.lang
    }

    /// Get system language, or the current language if the system one is
    /// not supported. `system_locale` is the locale the environment
    /// reported (`LC_ALL`, `LC_MESSAGES` or `LANG`, in that order),
    /// normalized to ASCII lowercase by the caller; the first supported
    /// language whose code starts it wins.
    pub fn get_default_lang(&self, system_locale: &str) -> (r: LanguageId)
        ensures
            spec_is_prefix("en"@, system_locale@) ==> r@ == ("en"@, Some("us"@)),
            (!spec_is_prefix("en"@, system_locale@) && spec_is_prefix("ru"@, system_locale@))
                ==> r@ == ("ru"@, Some("ru"@)),
            (!spec_is_prefix("en"@, system_locale@) && !spec_is_prefix("ru"@, system_locale@))
                ==> r@ == self.spec_lang(),
    {
        if str_has_prefix(system_locale, "en") {
            LanguageId { language: String::from_str("en"), region: Some(String::from_str("us")) }
        } else if str_has_prefix(system_locale, "ru") {
            LanguageId { language: String::from_str("ru"), region: Some(String::from_str("ru")) }
        } else {
            self.lang.duplicate()
        }
    }
}

impl LanguageId {
    /// An identical copy of this identifier.
    pub fn duplicate(&self) -> (r: Self)
        ensures
            r@ == self@,
    {
        let region = match &self.region {
            Some(r) => Some(r.clone()),
            None => None,
        };
        LanguageId { language: self.language.clone(), region }
    }
}

/// Whether `p` starts `s`, by characters.
fn str_has_prefix(s: &str, p: &str) -> (r: bool)
    ensures
        r == spec_is_prefix(p@, s@),
{
    let p_len = p.unicode_len();
    let s_len = s.unicode_len();
    if p_len > s_len {
        return false;
    }
    let mut i: usize = 0;
    while i < p_len
        invariant
            0 <= i <= p_len,
            p_len == p@.len(),
            s_len == s@.len(),
            p_len <= s_len,
            forall|j: int| 0 <= j < i ==> s@[j] == p@[j],
        decreases p_len - i,
    {
        if s.get_char(i) != p.get_char(i) {
            proof {
                assert(s@.subrange(0, p@.len() as int)[i as int] == s@[i as int]);
                assert(s@[i as int] != p@[i as int]);
            }
            return false;
        }
        i = i + 1;
    }
    proof {
        assert(s@.subrange(0, p@.len() as int) =~= p@);
    }
    true
}

/// Render a language identifier as the launcher writes it: the language
/// code, a dash, then the region, or the language code again where there
/// is no region (`en-us`, `ru-ru`, `de-de`).
pub fn format_lang(lang: &LanguageId) -> (r: String)
    ensures
        r@ == lang@.0 + "-"@ + (match lang@.1 {
            Some(region) => region,
            None => lang@.0,
        }),
{
    let mut out = lang.language.clone();
    out.append("-");
    match &lang.region {
        Some(region) => out.append(region.as_str()),
        None => out.append(lang.language.as_str()),
    }
    out
}

} // verus!
