//! Languages and the texts that the tray and the panel show.

use vstd::prelude::*;

verus! {

/// The UI language; `System` follows the Windows UI language.
#[derive(Clone, Copy, PartialEq, Eq, Debug, Structural)]
pub enum Language {
    System,
    Es,
    En,
    Fr,
    De,
    Pt,
    It,
    Ru,
    Ja,
    Zh,
    Ko,
}

/// How many languages the menu offers.
pub const LANGUAGE_COUNT: usize = 11;

/// The language of a menu position.
pub open spec fn language_of(i: int) -> Language {
    if i == 0 {
        Language::System
    } else if i == 1 {
        Language::Es
    } else if i == 2 {
        Language::En
    } else if i == 3 {
        Language::Fr
    } else if i == 4 {
        Language::De
    } else if i == 5 {
        Language::Pt
    } else if i == 6 {
        Language::It
    } else if i == 7 {
        Language::Ru
    } else if i == 8 {
        Language::Ja
    } else if i == 9 {
        Language::Zh
    } else {
        Language::Ko
    }
}

/// The menu position of a language.
pub open spec fn position_of(language: Language) -> int {
    match language {
        Language::System => 0,
        Language::Es => 1,
        Language::En => 2,
        Language::Fr => 3,
        Language::De => 4,
        Language::Pt => 5,
        Language::It => 6,
        Language::Ru => 7,
        Language::Ja => 8,
        Language::Zh => 9,
        Language::Ko => 10,
    }
}

pub fn language_at(i: u32) -> (language: Language)
    requires
        i < LANGUAGE_COUNT,
    ensures
        language == language_of(i as int),
{
    match i {
        0 => Language::System,
        1 => Language::Es,
        2 => Language::En,
        3 => Language::Fr,
        4 => Language::De,
        5 => Language::Pt,
        6 => Language::It,
        7 => Language::Ru,
        8 => Language::Ja,
        9 => Language::Zh,
        _ => Language::Ko,
    }
}

pub fn language_index(language: Language) -> (i: u32)
    ensures
        i == position_of(language),
        i < LANGUAGE_COUNT,
{
    match language {
        Language::System => 0,
        Language::Es => 1,
        Language::En => 2,
        Language::Fr => 3,
        Language::De => 4,
        Language::Pt => 5,
        Language::It => 6,
        Language::Ru => 7,
        Language::Ja => 8,
        Language::Zh => 9,
        Language::Ko => 10,
    }
}

/// The languages and their menu positions determine each other.
pub proof fn positions_are_faithful(language: Language, i: int)
    requires
        0 <= i < LANGUAGE_COUNT,
    ensures
        language_of(position_of(language)) == language,
        position_of(language_of(i)) == i,
{
}

/// Every text of one language.
#[derive(Clone, Copy, Debug)]
pub struct Lang {
    /// Opens the panel.
    pub open_panel: &'static str,
    pub on_leds: &'static str,
    pub off_leds: &'static str,
    pub mode: &'static str,
    pub static_mode: &'static str,
    pub settings: &'static str,
    pub brightness: &'static str,
    pub level: &'static str,
    pub color: &'static str,
    pub sampling: &'static str,
    pub border5: &'static str,
    pub border15: &'static str,
    pub full_screen: &'static str,
    pub smoothing: &'static str,
    pub smooth_instant: &'static str,
    pub smooth_low: &'static str,
    pub smooth_normal: &'static str,
    pub smooth_high: &'static str,
    pub boost: &'static str,
    pub sensitivity: &'static str,
    pub gain_low: &'static str,
    pub gain_medium: &'static str,
    pub gain_high: &'static str,
    pub rainbow: &'static str,
    pub solid_color: &'static str,
    pub blink: &'static str,
    pub blink_smooth: &'static str,
    pub blink_normal: &'static str,
    pub blink_fast: &'static str,
    pub dynamic_range: &'static str,
    pub range_compressed: &'static str,
    pub range_normal: &'static str,
    pub range_expanded: &'static str,
    pub range_extreme: &'static str,
    pub autostart: &'static str,
    pub language: &'static str,
    pub system: &'static str,
    pub connected: &'static str,
    pub disconnected: &'static str,
    pub no_screen: &'static str,
    /// Template with the error's text at `{0}`.
    pub fail_image: &'static str,
    /// Template with the error's text at `{0}`.
    pub fail_audio: &'static str,
    pub quit: &'static str,
    pub no_settings: &'static str,
    pub select_mode: &'static str,
    pub pick_color: &'static str,
    pub accept: &'static str,
    pub cancel: &'static str,
    pub hint_brightness: &'static str,
    pub hint_sampling: &'static str,
    pub hint_smoothing: &'static str,
    pub hint_boost: &'static str,
    pub hint_fps: &'static str,
    pub hint_static_color: &'static str,
    pub hint_audio_color: &'static str,
    pub hint_sensitivity: &'static str,
    pub hint_blink: &'static str,
    pub hint_range: &'static str,
}

/// The label of a language: fixed endonyms, except the System entry, whose label
/// follows the active language.
pub open spec fn language_text(language: Language, lang: Lang) -> Seq<char> {
    match language {
        Language::System => lang.system@,
        Language::Es => "Español"@,
        Language::En => "English"@,
        Language::Fr => "Français"@,
        Language::De => "Deutsch"@,
        Language::Pt => "Português"@,
        Language::It => "Italiano"@,
        Language::Ru => "Русский"@,
        Language::Ja => "日本語"@,
        Language::Zh => "中文"@,
        Language::Ko => "한국어"@,
    }
}

pub fn language_label(language: Language, lang: &Lang) -> (label: &'static str)
    ensures
        label@ == language_text(language, *lang),
{
    match language {
        Language::System => lang.system,
        Language::Es => "Español",
        Language::En => "English",
        Language::Fr => "Français",
        Language::De => "Deutsch",
        Language::Pt => "Português",
        Language::It => "Italiano",
        Language::Ru => "Русский",
        Language::Ja => "日本語",
        Language::Zh => "中文",
        Language::Ko => "한국어",
    }
}

/// The languages in the order of the menu.
pub proof fn languages_are_listed_in_order()
    ensures
        language_of(0) == Language::System && position_of(Language::System) == 0,
        language_of(1) == Language::Es && position_of(Language::Es) == 1,
        language_of(2) == Language::En && position_of(Language::En) == 2,
        language_of(3) == Language::Fr && position_of(Language::Fr) == 3,
        language_of(4) == Language::De && position_of(Language::De) == 4,
        language_of(5) == Language::Pt && position_of(Language::Pt) == 5,
        language_of(6) == Language::It && position_of(Language::It) == 6,
        language_of(7) == Language::Ru && position_of(Language::Ru) == 7,
        language_of(8) == Language::Ja && position_of(Language::Ja) == 8,
        language_of(9) == Language::Zh && position_of(Language::Zh) == 9,
        language_of(10) == Language::Ko && position_of(Language::Ko) == 10,
{
}

/// Every language is called by its own name, whatever the language of the
/// moment; only the system entry is translated.
pub proof fn languages_have_their_own_names(lang: Lang)
    ensures
        language_text(Language::System, lang) == lang.system@,
        language_text(Language::Es, lang) == "Español"@,
        language_text(Language::En, lang) == "English"@,
        language_text(Language::Fr, lang) == "Français"@,
        language_text(Language::De, lang) == "Deutsch"@,
        language_text(Language::Pt, lang) == "Português"@,
        language_text(Language::It, lang) == "Italiano"@,
        language_text(Language::Ru, lang) == "Русский"@,
        language_text(Language::Ja, lang) == "日本語"@,
        language_text(Language::Zh, lang) == "中文"@,
        language_text(Language::Ko, lang) == "한국어"@,
{
}

} // verus!
