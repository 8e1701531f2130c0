use hyperlane_time::{from_env_var, Lang};

const TABLE: [(&str, Lang, u64, &str); 17] = [
    ("en_US.UTF-8", Lang::EnUsUtf8, 0, "English (US)"),
    ("zh_CN.UTF-8", Lang::ZhCnUtf8, 28800, "中文 (中国)"),
    ("fr_FR.UTF-8", Lang::FrFrUtf8, 3600, "Français (France)"),
    ("de_DE.UTF-8", Lang::DeDeUtf8, 3600, "Deutsch (Deutschland)"),
    ("es_ES.UTF-8", Lang::EsEsUtf8, 3600, "Español (España)"),
    ("it_IT.UTF-8", Lang::ItItUtf8, 3600, "Italiano (Italia)"),
    ("ja_JP.UTF-8", Lang::JaJpUtf8, 32400, "日本語 (日本)"),
    ("ko_KR.UTF-8", Lang::KoKrUtf8, 32400, "한국어 (한국)"),
    ("pt_PT.UTF-8", Lang::PtPtUtf8, 3600, "Português (Portugal)"),
    ("ru_RU.UTF-8", Lang::RuRuUtf8, 10800, "Русский (Россия)"),
    ("ar_SA.UTF-8", Lang::ArSaUtf8, 10800, "العربية (السعودية)"),
    ("hi_IN.UTF-8", Lang::HiInUtf8, 19800, "हिन्दी (भारत)"),
    ("th_TH.UTF-8", Lang::ThThUtf8, 25200, "ภาษาไทย (ประเทศไทย)"),
    ("vi_VN.UTF-8", Lang::ViVnUtf8, 25200, "Tiếng Việt (Việt Nam)"),
    ("nl_NL.UTF-8", Lang::NlNlUtf8, 3600, "Nederlands (Nederland)"),
    ("sv_SE.UTF-8", Lang::SvSeUtf8, 3600, "Svenska (Sverige)"),
    ("fi_FI.UTF-8", Lang::FiFiUtf8, 3600, "Suomi (Suomi)"),
];

#[test]
fn every_identifier_parses_to_its_locale() {
    for (identifier, lang, _, _) in TABLE {
        assert_eq!(Lang::from_str(identifier), Ok(lang));
        assert_eq!(identifier.parse::<Lang>(), Ok(lang));
        assert_eq!(from_env_var(Some(identifier)), lang);
    }
}

#[test]
fn every_locale_has_its_offset() {
    for (_, lang, offset, _) in TABLE {
        assert_eq!(lang.value(), offset);
    }
}

#[test]
fn offsets_are_grouped_as_the_table_says() {
    let count = |offset: u64| TABLE.iter().filter(|row| row.1.value() == offset).count();
    assert_eq!(count(0), 1);
    assert_eq!(count(3600), 8);
    assert_eq!(count(10800), 2);
    assert_eq!(count(19800), 1);
    assert_eq!(count(25200), 2);
    assert_eq!(count(28800), 1);
    assert_eq!(count(32400), 2);
}

#[test]
fn every_locale_has_its_name() {
    for (_, lang, _, name) in TABLE {
        assert_eq!(lang.name(), name);
    }
}

#[test]
fn unknown_identifiers_are_errors() {
    for text in [
        "",
        "C",
        "POSIX",
        "C.UTF-8",
        "en_US",
        "en_US.utf-8",
        "en_US.UTF-8 ",
        " en_US.UTF-8",
        "en_GB.UTF-8",
        "EN_US.UTF-8",
        "en-US.UTF-8",
        "xx_XX.UTF-8",
        "日本語日本語日本語日本",
        "en_US.UTF-8\0",
    ] {
        assert_eq!(Lang::from_str(text), Err(()), "{:?}", text);
        assert_eq!(text.parse::<Lang>(), Err(()), "{:?}", text);
    }
}

#[test]
fn default_locale_is_chinese() {
    assert_eq!(Lang::default(), Lang::ZhCnUtf8);
    assert_eq!(Lang::default().value(), 28800);
}

#[test]
fn absent_locale_resolves_to_the_default() {
    assert_eq!(from_env_var(None), Lang::ZhCnUtf8);
    assert_eq!(from_env_var(None).value(), 28800);
}

#[test]
fn unresolvable_locale_resolves_to_the_default() {
    for text in ["", "C", "C.UTF-8", "en_GB.UTF-8", "not a locale", "ja_JP.UTF-9"] {
        assert_eq!(from_env_var(Some(text)), Lang::ZhCnUtf8, "{:?}", text);
        assert_eq!(from_env_var(Some(text)).value(), 28800);
    }
}

#[test]
fn locales_compare_and_copy() {
    let lang = Lang::HiInUtf8;
    let copy = lang;
    assert_eq!(lang, copy);
    assert_ne!(Lang::EnUsUtf8, Lang::ZhCnUtf8);
    assert!(Lang::EnUsUtf8 < Lang::ZhCnUtf8);
    assert!(Lang::SvSeUtf8 < Lang::FiFiUtf8);
    assert_eq!(format!("{:?}", Lang::ThThUtf8), "ThThUtf8");
}
