//! Supported locales and the fixed UTC offset of each.

use vstd::prelude::*;
use vstd::string::*;

verus! {

/// Represents supported languages.
///
/// Each variant corresponds to a specific language and locale combination.
#[derive(Debug, Clone, Copy, PartialEq, Eq, PartialOrd, Ord, Hash, Structural)]
pub enum Lang {
    /// English (United States).
    EnUsUtf8,
    /// Chinese (China).
    ZhCnUtf8,
    /// French (France).
    FrFrUtf8,
    /// German (Germany).
    DeDeUtf8,
    /// Spanish (Spain).
    EsEsUtf8,
    /// Italian (Italy).
    ItItUtf8,
    /// Japanese (Japan).
    JaJpUtf8,
    /// Korean (South Korea).
    KoKrUtf8,
    /// Portuguese (Portugal).
    PtPtUtf8,
    /// Russian (Russia).
    RuRuUtf8,
    /// Arabic (Saudi Arabia).
    ArSaUtf8,
    /// Hindi (India).
    HiInUtf8,
    /// Thai (Thailand).
    ThThUtf8,
    /// Vietnamese (Vietnam).
    ViVnUtf8,
    /// Dutch (Netherlands).
    NlNlUtf8,
    /// Swedish (Sweden).
    SvSeUtf8,
    /// Finnish (Finland).
    FiFiUtf8,
}

impl Lang {
    /// The UTC offset of the locale, in seconds.
    pub open spec fn offset_seconds(self) -> int {
        match self {
            Lang::EnUsUtf8 => 0,
            Lang::FrFrUtf8
            | Lang::DeDeUtf8
            | Lang::EsEsUtf8
            | Lang::ItItUtf8
            | Lang::PtPtUtf8
            | Lang::NlNlUtf8
            | Lang::SvSeUtf8
            | Lang::FiFiUtf8 => 3600,
            Lang::RuRuUtf8 | Lang::ArSaUtf8 => 10800,
            Lang::HiInUtf8 => 19800,
            Lang::ThThUtf8 | Lang::ViVnUtf8 => 25200,
            Lang::ZhCnUtf8 => 28800,
            Lang::JaJpUtf8 | Lang::KoKrUtf8 => 32400,
        }
    }

    /// The locale identifier of the locale, as the operating system writes it.
    pub open spec fn identifier(self) -> Seq<char> {
        match self {
            Lang::EnUsUtf8 => "en_US.UTF-8"@,
            Lang::ZhCnUtf8 => "zh_CN.UTF-8"@,
            Lang::FrFrUtf8 => "fr_FR.UTF-8"@,
            Lang::DeDeUtf8 => "de_DE.UTF-8"@,
            Lang::EsEsUtf8 => "es_ES.UTF-8"@,
            Lang::ItItUtf8 => "it_IT.UTF-8"@,
            Lang::JaJpUtf8 => "ja_JP.UTF-8"@,
            Lang::KoKrUtf8 => "ko_KR.UTF-8"@,
            Lang::PtPtUtf8 => "pt_PT.UTF-8"@,
            Lang::RuRuUtf8 => "ru_RU.UTF-8"@,
            Lang::ArSaUtf8 => "ar_SA.UTF-8"@,
            Lang::HiInUtf8 => "hi_IN.UTF-8"@,
            Lang::ThThUtf8 => "th_TH.UTF-8"@,
            Lang::ViVnUtf8 => "vi_VN.UTF-8"@,
            Lang::NlNlUtf8 => "nl_NL.UTF-8"@,
            Lang::SvSeUtf8 => "sv_SE.UTF-8"@,
            Lang::FiFiUtf8 => "fi_FI.UTF-8"@,
        }
    }

    /// The name of the language, written in that language.
    pub open spec fn display_name(self) -> Seq<char> {
        match self {
            Lang::EnUsUtf8 => "English (US)"@,
            Lang::ZhCnUtf8 => "中文 (中国)"@,
            Lang::FrFrUtf8 => "Français (France)"@,
            Lang::DeDeUtf8 => "Deutsch (Deutschland)"@,
            Lang::EsEsUtf8 => "Español (España)"@,
            Lang::ItItUtf8 => "Italiano (Italia)"@,
            Lang::JaJpUtf8 => "日本語 (日本)"@,
            Lang::KoKrUtf8 => "한국어 (한국)"@,
            Lang::PtPtUtf8 => "Português (Portugal)"@,
            Lang::RuRuUtf8 => "Русский (Россия)"@,
            Lang::ArSaUtf8 => "العربية (السعودية)"@,
            Lang::HiInUtf8 => "हिन्दी (भारत)"@,
            Lang::ThThUtf8 => "ภาษาไทย (ประเทศไทย)"@,
            Lang::ViVnUtf8 => "Tiếng Việt (Việt Nam)"@,
            Lang::NlNlUtf8 => "Nederlands (Nederland)"@,
            Lang::SvSeUtf8 => "Svenska (Sverige)"@,
            Lang::FiFiUtf8 => "Suomi (Suomi)"@,
        }
    }

    /// Returns the UTC offset in seconds for the corresponding language.
    ///
    /// Each language is associated with a specific UTC offset,
    /// indicating the difference from Coordinated Universal Time (UTC).
    pub fn value(&self) -> (offset: u64)
        ensures
            offset == self.offset_seconds(),
            offset < 86400,
            offset % 1800 == 0,
    {
        match self {
            Lang::EnUsUtf8 => 0,  // UTC
            Lang::ZhCnUtf8 => 28800,  // UTC+8
            Lang::FrFrUtf8 => 3600,  // UTC+1
            Lang::DeDeUtf8 => 3600,  // UTC+1
            Lang::EsEsUtf8 => 3600,  // UTC+1
            Lang::ItItUtf8 => 3600,  // UTC+1
            Lang::JaJpUtf8 => 32400,  // UTC+9
            Lang::KoKrUtf8 => 32400,  // UTC+9
            Lang::PtPtUtf8 => 3600,  // UTC+1
            Lang::RuRuUtf8 => 10800,  // UTC+3
            Lang::ArSaUtf8 => 10800,  // UTC+3
            Lang::HiInUtf8 => 19800,  // UTC+5:30
            Lang::ThThUtf8 => 25200,  // UTC+7
            Lang::ViVnUtf8 => 25200,  // UTC+7
            Lang::NlNlUtf8 => 3600,  // UTC+1
            Lang::SvSeUtf8 => 3600,  // UTC+1
            Lang::FiFiUtf8 => 3600,  // UTC+1
        }
    }

    /// Returns a human-readable name of the language.
    pub fn name(&self) -> (text: &'static str)
        ensures
            text@ == self.display_name(),
    {
        match self {
            Lang::EnUsUtf8 => "English (US)",
            Lang::ZhCnUtf8 => "中文 (中国)",
            Lang::FrFrUtf8 => "Français (France)",
            Lang::DeDeUtf8 => "Deutsch (Deutschland)",
            Lang::EsEsUtf8 => "Español (España)",
            Lang::ItItUtf8 => "Italiano (Italia)",
            Lang::JaJpUtf8 => "日本語 (日本)",
            Lang::KoKrUtf8 => "한국어 (한국)",
            Lang::PtPtUtf8 => "Português (Portugal)",
            Lang::RuRuUtf8 => "Русский (Россия)",
            Lang::ArSaUtf8 => "العربية (السعودية)",
            Lang::HiInUtf8 => "हिन्दी (भारत)",
            Lang::ThThUtf8 => "ภาษาไทย (ประเทศไทย)",
            Lang::ViVnUtf8 => "Tiếng Việt (Việt Nam)",
            Lang::NlNlUtf8 => "Nederlands (Nederland)",
            Lang::SvSeUtf8 => "Svenska (Sverige)",
            Lang::FiFiUtf8 => "Suomi (Suomi)",
        }
    }

    /// Parses a locale identifier into a `Lang` variant.
    ///
    /// The identifier must be written exactly as in the table of supported
    /// locales; anything else is an error.
    pub fn from_str(s: &str) -> (parsed: Result<Lang, ()>)
        ensures
            parsed == (match lang_of_identifier(s@) {
                Some(lang) => Ok::<Lang, ()>(lang),
                None => Err::<Lang, ()>(()),
            }),
            parsed matches Ok(lang) ==> lang.identifier() == s@,
            parsed is Err ==> forall|lang: Lang| #[trigger] lang.identifier() != s@,
    {
        proof {
            lemma_identifiers();
        }
        let len: usize = s.unicode_len();
        if len != 11 {
            return Err(());
        }
        let parsed: Result<Lang, ()> = if same_chars(s, "en_US.UTF-8", len) {
            Ok(Lang::EnUsUtf8)
        } else if same_chars(s, "zh_CN.UTF-8", len) {
            Ok(Lang::ZhCnUtf8)
        } else if same_chars(s, "fr_FR.UTF-8", len) {
            Ok(Lang::FrFrUtf8)
        } else if same_chars(s, "de_DE.UTF-8", len) {
            Ok(Lang::DeDeUtf8)
        } else if same_chars(s, "es_ES.UTF-8", len) {
            Ok(Lang::EsEsUtf8)
        } else if same_chars(s, "it_IT.UTF-8", len) {
            Ok(Lang::ItItUtf8)
        } else if same_chars(s, "ja_JP.UTF-8", len) {
            Ok(Lang::JaJpUtf8)
        } else if same_chars(s, "ko_KR.UTF-8", len) {
            Ok(Lang::KoKrUtf8)
        } else if same_chars(s, "pt_PT.UTF-8", len) {
            Ok(Lang::PtPtUtf8)
        } else if same_chars(s, "ru_RU.UTF-8", len) {
            Ok(Lang::RuRuUtf8)
        } else if same_chars(s, "ar_SA.UTF-8", len) {
            Ok(Lang::ArSaUtf8)
        } else if same_chars(s, "hi_IN.UTF-8", len) {
            Ok(Lang::HiInUtf8)
        } else if same_chars(s, "th_TH.UTF-8", len) {
            Ok(Lang::ThThUtf8)
        } else if same_chars(s, "vi_VN.UTF-8", len) {
            Ok(Lang::ViVnUtf8)
        } else if same_chars(s, "nl_NL.UTF-8", len) {
            Ok(Lang::NlNlUtf8)
        } else if same_chars(s, "sv_SE.UTF-8", len) {
            Ok(Lang::SvSeUtf8)
        } else if same_chars(s, "fi_FI.UTF-8", len) {
            Ok(Lang::FiFiUtf8)
        } else {
            Err(())
        };
        proof {
            if let Ok(lang) = parsed {
                lemma_identifier_round_trip(lang);
            }
        }
        parsed
    }
}

/// The locale that the identifier `text` names, if it names a supported one.
pub open spec fn lang_of_identifier(text: Seq<char>) -> Option<Lang> {
    if exists|lang: Lang| #[trigger] lang.identifier() == text {
        Some(choose|lang: Lang| #[trigger] lang.identifier() == text)
    } else {
        None
    }
}

/// The locale in force for what the environment holds: the locale that the
/// value names, and the default locale where there is no value or the value
/// names no supported locale.
pub open spec fn resolved_lang(value: Option<Seq<char>>) -> Lang {
    match value {
        Some(text) => match lang_of_identifier(text) {
            Some(lang) => lang,
            None => Lang::ZhCnUtf8,
        },
        None => Lang::ZhCnUtf8,
    }
}

/// What the identifiers are made of: each has eleven characters, and no two
/// locales share one.
proof fn lemma_identifiers()
    ensures
        forall|lang: Lang| (#[trigger] lang.identifier()).len() == 11,
        forall|a: Lang, b: Lang| #[trigger] a.identifier() == #[trigger] b.identifier() ==> a == b,
        "en_US.UTF-8"@.len() == 11,
        "zh_CN.UTF-8"@.len() == 11,
        "fr_FR.UTF-8"@.len() == 11,
        "de_DE.UTF-8"@.len() == 11,
        "es_ES.UTF-8"@.len() == 11,
        "it_IT.UTF-8"@.len() == 11,
        "ja_JP.UTF-8"@.len() == 11,
        "ko_KR.UTF-8"@.len() == 11,
        "pt_PT.UTF-8"@.len() == 11,
        "ru_RU.UTF-8"@.len() == 11,
        "ar_SA.UTF-8"@.len() == 11,
        "hi_IN.UTF-8"@.len() == 11,
        "th_TH.UTF-8"@.len() == 11,
        "vi_VN.UTF-8"@.len() == 11,
        "nl_NL.UTF-8"@.len() == 11,
        "sv_SE.UTF-8"@.len() == 11,
        "fi_FI.UTF-8"@.len() == 11,
{
    reveal_strlit("en_US.UTF-8");
    reveal_strlit("zh_CN.UTF-8");
    reveal_strlit("fr_FR.UTF-8");
    reveal_strlit("de_DE.UTF-8");
    reveal_strlit("es_ES.UTF-8");
    reveal_strlit("it_IT.UTF-8");
    reveal_strlit("ja_JP.UTF-8");
    reveal_strlit("ko_KR.UTF-8");
    reveal_strlit("pt_PT.UTF-8");
    reveal_strlit("ru_RU.UTF-8");
    reveal_strlit("ar_SA.UTF-8");
    reveal_strlit("hi_IN.UTF-8");
    reveal_strlit("th_TH.UTF-8");
    reveal_strlit("vi_VN.UTF-8");
    reveal_strlit("nl_NL.UTF-8");
    reveal_strlit("sv_SE.UTF-8");
    reveal_strlit("fi_FI.UTF-8");
    assert forall|lang: Lang| (#[trigger] lang.identifier()).len() == 11 by {}
    assert forall|a: Lang, b: Lang| #[trigger]
        a.identifier() == #[trigger] b.identifier() implies a == b by {
        if a != b {
            assert(a.identifier()[0] != b.identifier()[0] || a.identifier()[1]
                != b.identifier()[1]);
        }
    }
}

/// Distinct locales have distinct identifiers, so an identifier names at most
/// one locale.
pub proof fn lemma_identifier_injective(a: Lang, b: Lang)
    requires
        a.identifier() == b.identifier(),
    ensures
        a == b,
{
    lemma_identifiers();
}

/// Parsing the identifier of a locale gives that locale back.
pub proof fn lemma_identifier_round_trip(lang: Lang)
    ensures
        lang_of_identifier(lang.identifier()) == Some(lang),
{
    lemma_identifiers();
}

/// Every identifier has eleven characters, so a text of another length names
/// no supported locale.
pub proof fn lemma_identifier_len(lang: Lang)
    ensures
        lang.identifier().len() == 11,
{
    lemma_identifiers();
}

/// The identifier of a supported locale resolves to that locale.
pub proof fn lemma_named_locale_resolves(lang: Lang)
    ensures
        resolved_lang(Some(lang.identifier())) == lang,
{
    lemma_identifier_round_trip(lang);
}

/// Where the environment holds no value, or a value that names no supported
/// locale, the locale in force is the default one, with its offset of eight
/// hours.
pub proof fn lemma_unresolved_locale_is_default(value: Option<Seq<char>>)
    requires
        value matches Some(text) ==> forall|lang: Lang| #[trigger] lang.identifier() != text,
    ensures
        resolved_lang(value) == Lang::ZhCnUtf8,
        resolved_lang(value).offset_seconds() == 28800,
{
}

/// Whether two texts of `len` characters each are the same text.
fn same_chars(a: &str, b: &str, len: usize) -> (same: bool)
    requires
        a@.len() == len,
        b@.len() == len,
    ensures
        same == (a@ == b@),
{
    let mut i: usize = 0;
    while i < len
        invariant
            i <= len,
            a@.len() == len,
            b@.len() == len,
            forall|j: int| 0 <= j < i ==> a@[j] == b@[j],
        decreases len - i,
    {
        if a.get_char(i) != b.get_char(i) {
            assert(a@[i as int] != b@[i as int]);
            return false;
        }
        i += 1;
    }
    assert(a@ =~= b@);
    true
}

impl Default for Lang {
    /// The locale taken where the environment names none: Chinese (China).
    fn default() -> (lang: Lang)
        ensures
            lang == Lang::ZhCnUtf8,
    {
        Lang::ZhCnUtf8
    }
}

impl std::str::FromStr for Lang {
    type Err = ();

    /// Parses a locale identifier, as the inherent [`Lang::from_str`] does.
    fn from_str(s: &str) -> (parsed: Result<Lang, ()>)
        ensures
            parsed == (match lang_of_identifier(s@) {
                Some(lang) => Ok::<Lang, ()>(lang),
                None => Err::<Lang, ()>(()),
            }),
            parsed matches Ok(lang) ==> lang.identifier() == s@,
            parsed is Err ==> forall|lang: Lang| #[trigger] lang.identifier() != s@,
    {
        Lang::from_str(s)
    }
}

/// Gets the locale from the value of the `LANG` environment variable.
///
/// `value` is what the environment holds for the variable, `None` where it
/// is not set. If the variable is not set or does not name a supported
/// locale, the result is the default locale; this never fails.
pub fn from_env_var(value: Option<&str>) -> (lang: Lang)
    ensures
        lang == resolved_lang(
            match value {
                Some(text) => Some(text@),
                None => None,
            },
        ),
        match value {
            Some(text) => lang.identifier() == text@ || (lang == Lang::ZhCnUtf8 && forall|
                other: Lang,
            | #[trigger] other.identifier() != text@),
            None => lang == Lang::ZhCnUtf8,
        },
{
    match value {
        Some(text) => match Lang::from_str(text) {
            Ok(lang) => lang,
            Err(_) => Lang::default(),
        },
        None => Lang::default(),
    }
}

} // verus!
