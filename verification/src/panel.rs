//! The control panel: a view of the same state that the menu shows, and the ids
//! that its controls post. They are the menu's own, so that menu and panel can
//! never disagree.

use crate::audio::{AudioColor, Blink, DynamicRange};
use crate::capture::Rect;
use crate::event_ids;
use crate::factor::Factor;
use crate::i18n;
use crate::i18n::Lang;
use crate::menu::{Status, SyncActive, Ui, UiState};
use crate::menu_items;
use crate::picker;
use crate::sampling::SamplingMode;
use crate::text;
use vstd::prelude::*;

verus! {

/// What the right column shows.
#[derive(Clone, Copy, PartialEq, Eq, Debug, Structural)]
pub enum PanelView {
    /// The mode has no settings.
    NoSettings,
    /// No mode has been chosen yet.
    SelectMode,
    /// The color of a static slot.
    StaticColor(u8),
    ImageSync,
    AudioSync,
}

/// One state of the panel.
pub struct Snapshot {
    /// Connection and diagnostics.
    pub status: String,
    pub view: PanelView,
    pub leds_on: bool,
    /// Fill of the static color card.
    pub slot_color: [u8; 3],
    /// Label of the static color card: the hex, or a dash while unset.
    pub slot_hex: String,
    pub sync_image: bool,
    pub sync_audio: bool,
    pub brightness: u8,
    pub brightness_text: String,
    /// The mode radio that is checked, if any.
    pub mode: Option<u8>,
    pub lang_index: u32,
    pub sample_index: u8,
    pub smooth_index: u8,
    pub boost_index: u8,
    pub fps_index: u8,
    pub gain_index: u8,
    pub blink_index: u8,
    pub range_index: u8,
    pub rainbow: bool,
    /// Fill of the audio color card.
    pub solid: [u8; 3],
    pub solid_set: bool,
    /// Label of the audio color card: the hex, or the rainbow's name.
    pub solid_text: String,
    pub autostart: bool,
}

/// The sync that the panel shows: the running one, else one that is pending, else
/// one remembered for the next power-on.
pub open spec fn shown_sync(ui: UiState) -> SyncActive {
    if ui.sync != SyncActive::Off {
        ui.sync
    } else {
        match (ui.pending_boot_sync, ui.resume) {
            (Some(which), _) => which,
            (None, Some(which)) => which,
            (None, None) => SyncActive::Off,
        }
    }
}

/// The view of the active lighting mode: a sync owns it, else the device mode
/// does.
pub open spec fn view_of(ui: UiState) -> PanelView {
    match (shown_sync(ui), ui.mode) {
        (SyncActive::ImageSync, _) => PanelView::ImageSync,
        (SyncActive::Audio, _) => PanelView::AudioSync,
        (SyncActive::Off, Some(m)) => if 1 <= m <= 4 {
            PanelView::StaticColor(m)
        } else if 5 <= m <= 6 {
            PanelView::NoSettings
        } else {
            PanelView::SelectMode
        },
        (SyncActive::Off, None) => PanelView::SelectMode,
    }
}

/// The mode radio to check: one of the six, or none.
pub open spec fn mode_shown(ui: UiState) -> Option<u8> {
    match ui.mode {
        Some(m) if 1 <= m <= 6 => Some(m),
        _ => None,
    }
}

/// The color of the static slot on view.
pub open spec fn fill_of(ui: UiState) -> Option<[u8; 3]> {
    match view_of(ui) {
        PanelView::StaticColor(slot) => ui.slot_colors@[slot - 1],
        _ => None,
    }
}

pub open spec fn is_note(status: Status) -> bool {
    status is NoScreen || status is Failed
}

/// The header: a diagnostic while there is one, else the connection. The running
/// mode shows in the selector already.
pub open spec fn header_line(
    ui: UiState,
    reason: Seq<char>,
    connected: bool,
    lang: Lang,
) -> Seq<char> {
    if is_note(ui.status) {
        menu_items::status_line(ui.status, reason, lang)
    } else if connected {
        lang.connected@
    } else {
        lang.disconnected@
    }
}

/// The position of a smoothing; unknown values show the first.
pub open spec fn smooth_position(v: Factor) -> int {
    if v == event_ids::smoothing_of(1) {
        1
    } else if v == event_ids::smoothing_of(2) {
        2
    } else if v == event_ids::smoothing_of(3) {
        3
    } else {
        0
    }
}

pub open spec fn boost_position(v: Factor) -> int {
    if v == event_ids::boost_of(1) {
        1
    } else if v == event_ids::boost_of(2) {
        2
    } else if v == event_ids::boost_of(3) {
        3
    } else {
        0
    }
}

pub open spec fn fps_position(v: u32) -> int {
    if v == event_ids::fps_of(1) {
        1
    } else if v == event_ids::fps_of(2) {
        2
    } else if v == event_ids::fps_of(3) {
        3
    } else {
        0
    }
}

pub open spec fn gain_position(v: Factor) -> int {
    if v == event_ids::gain_of(1) {
        1
    } else if v == event_ids::gain_of(2) {
        2
    } else {
        0
    }
}

pub open spec fn sampling_position(v: SamplingMode) -> int {
    match v {
        SamplingMode::Border5 => 0,
        SamplingMode::Border15 => 1,
        SamplingMode::Full => 2,
    }
}

pub open spec fn blink_position(v: Blink) -> int {
    match v {
        Blink::Smooth => 0,
        Blink::Normal => 1,
        Blink::Fast => 2,
    }
}

pub open spec fn range_position(v: DynamicRange) -> int {
    match v {
        DynamicRange::Compressed => 0,
        DynamicRange::Normal => 1,
        DynamicRange::Expanded => 2,
        DynamicRange::Extreme => 3,
    }
}

fn smooth_index(v: Factor) -> (i: u8)
    ensures
        i == smooth_position(v),
{
    if v == event_ids::smoothing_at(1) {
        1
    } else if v == event_ids::smoothing_at(2) {
        2
    } else if v == event_ids::smoothing_at(3) {
        3
    } else {
        0
    }
}

fn boost_index(v: Factor) -> (i: u8)
    ensures
        i == boost_position(v),
{
    if v == event_ids::boost_at(1) {
        1
    } else if v == event_ids::boost_at(2) {
        2
    } else if v == event_ids::boost_at(3) {
        3
    } else {
        0
    }
}

fn fps_index(v: u32) -> (i: u8)
    ensures
        i == fps_position(v),
{
    if v == event_ids::fps_at(1) {
        1
    } else if v == event_ids::fps_at(2) {
        2
    } else if v == event_ids::fps_at(3) {
        3
    } else {
        0
    }
}

fn gain_index(v: Factor) -> (i: u8)
    ensures
        i == gain_position(v),
{
    if v == event_ids::gain_at(1) {
        1
    } else if v == event_ids::gain_at(2) {
        2
    } else {
        0
    }
}

fn current_sync(ui: &UiState) -> (which: SyncActive)
    ensures
        which == shown_sync(*ui),
{
    if ui.sync != SyncActive::Off {
        return ui.sync;
    }
    match ui.pending_boot_sync {
        Some(which) => which,
        None => match ui.resume {
            Some(which) => which,
            None => SyncActive::Off,
        },
    }
}

fn current_view(ui: &UiState) -> (view: PanelView)
    ensures
        view == view_of(*ui),
{
    match current_sync(ui) {
        SyncActive::ImageSync => PanelView::ImageSync,
        SyncActive::Audio => PanelView::AudioSync,
        SyncActive::Off => match ui.mode {
            Some(m) => if 1 <= m && m <= 4 {
                PanelView::StaticColor(m)
            } else if 5 <= m && m <= 6 {
                PanelView::NoSettings
            } else {
                PanelView::SelectMode
            },
            None => PanelView::SelectMode,
        },
    }
}

/// Contents of a color.
pub open spec fn is_color(c: [u8; 3], r: u8, g: u8, b: u8) -> bool {
    c@ == seq![r, g, b]
}

/// A snapshot of the state for the panel.
pub fn snapshot_from(ui: &Ui, connected: bool, lang: &Lang) -> (s: Snapshot)
    ensures
        s.status@ == header_line(ui.state, ui.failure@, connected, *lang),
        s.view == view_of(ui.state),
        s.leds_on == ui.state.leds_on,
        match fill_of(ui.state) {
            Some(rgb) => s.slot_color == rgb && s.slot_hex@ == picker::hex_label(
                rgb@[0],
                rgb@[1],
                rgb@[2],
            ),
            None => is_color(s.slot_color, 0x40, 0x40, 0x40) && s.slot_hex@ == "—"@,
        },
        s.sync_image == (shown_sync(ui.state) == SyncActive::ImageSync),
        s.sync_audio == (shown_sync(ui.state) == SyncActive::Audio),
        s.brightness == crate::menu::level_of(ui.state),
        s.brightness_text@ == text::decimal_text(crate::menu::level_of(ui.state) as int),
        s.mode == mode_shown(ui.state),
        s.mode == (match ui.state.mode {
            Some(m) if 1 <= m <= 6 => Some(m),
            _ => None,
        }),
        s.lang_index == i18n::position_of(ui.state.language),
        s.sample_index == sampling_position(ui.state.params.sampling),
        s.smooth_index == smooth_position(ui.state.params.smoothing),
        s.boost_index == boost_position(ui.state.params.boost),
        s.fps_index == fps_position(ui.state.params.fps),
        s.gain_index == gain_position(ui.state.audio.gain),
        s.blink_index == blink_position(ui.state.audio.blink),
        s.range_index == range_position(ui.state.audio.range),
        s.rainbow == (ui.state.audio.color is Rainbow),
        s.solid_set == (ui.state.audio.color is Solid),
        match ui.state.audio.color {
            AudioColor::Solid(rgb) => s.solid == rgb && s.solid_text@ == picker::hex_label(
                rgb@[0],
                rgb@[1],
                rgb@[2],
            ),
            AudioColor::Rainbow => is_color(s.solid, 255, 255, 255) && s.solid_text@
                == lang.rainbow@,
        },
        s.autostart == ui.state.autostart,
{
    let st = ui.state;
    let status = match st.status {
        Status::NoScreen | Status::Failed(_) => menu_items::status_text(
            st.status,
            ui.failure.as_str(),
            lang,
        ),
        _ => String::from_str(
            if connected {
                lang.connected
            } else {
                lang.disconnected
            },
        ),
    };
    let view = current_view(&st);
    let fill = match view {
        PanelView::StaticColor(slot) => st.slot_colors[slot as usize - 1],
        _ => None,
    };
    let gray: [u8; 3] = [0x40, 0x40, 0x40];
    let white: [u8; 3] = [255, 255, 255];
    assert(gray@ =~= seq![0x40u8, 0x40u8, 0x40u8]);
    assert(white@ =~= seq![255u8, 255u8, 255u8]);
    let (slot_color, slot_hex) = match fill {
        Some(rgb) => (rgb, picker::hex_text(rgb)),
        None => (gray, String::from_str("—")),
    };
    let (solid, solid_set, solid_text) = match st.audio.color {
        AudioColor::Solid(rgb) => (rgb, true, picker::hex_text(rgb)),
        AudioColor::Rainbow => (white, false, String::from_str(lang.rainbow)),
    };
    let shown = current_sync(&st);
    let brightness: u8 = match st.brightness {
        Some(level) => level,
        None => 12,
    };
    Snapshot {
        status,
        view,
        leds_on: st.leds_on,
        slot_color,
        slot_hex,
        sync_image: shown == SyncActive::ImageSync,
        sync_audio: shown == SyncActive::Audio,
        brightness,
        brightness_text: text::decimal(brightness as u32),
        mode: match st.mode {
            Some(m) => if 1 <= m && m <= 6 {
                Some(m)
            } else {
                None
            },
            None => None,
        },
        lang_index: i18n::language_index(st.language),
        sample_index: match st.params.sampling {
            SamplingMode::Border5 => 0,
            SamplingMode::Border15 => 1,
            SamplingMode::Full => 2,
        },
        smooth_index: smooth_index(st.params.smoothing),
        boost_index: boost_index(st.params.boost),
        fps_index: fps_index(st.params.fps),
        gain_index: gain_index(st.audio.gain),
        blink_index: match st.audio.blink {
            Blink::Smooth => 0,
            Blink::Normal => 1,
            Blink::Fast => 2,
        },
        range_index: match st.audio.range {
            DynamicRange::Compressed => 0,
            DynamicRange::Normal => 1,
            DynamicRange::Expanded => 2,
            DynamicRange::Extreme => 3,
        },
        rainbow: !solid_set,
        solid,
        solid_set,
        solid_text,
        autostart: st.autostart,
    }
}

/// The lighting radio that a snapshot checks.
#[derive(Clone, Copy, PartialEq, Eq, Debug, Structural)]
pub struct Radio {
    pub sync_image: bool,
    pub sync_audio: bool,
    pub mode: Option<u8>,
}

impl Snapshot {
    /// What the lighting selector shows.
    pub fn radio(&self) -> (radio: Radio)
        ensures
            radio == (Radio {
                sync_image: self.sync_image,
                sync_audio: self.sync_audio,
                mode: self.mode,
            }),
    {
        Radio { sync_image: self.sync_image, sync_audio: self.sync_audio, mode: self.mode }
    }
}

/// Which radio of the selector is checked: a sync's own, else the mode's.
pub open spec fn radio_checked(radio: Radio, which: int) -> bool {
    if which == 6 {
        radio.sync_image
    } else if which == 7 {
        radio.sync_audio
    } else {
        !radio.sync_image && !radio.sync_audio && (radio.mode matches Some(m) && m == which + 1)
    }
}

/// Is the `which`-th radio of the selector checked? 0..=5 are the device modes,
/// 6 is image sync, 7 audio sync.
pub fn is_radio_checked(radio: Radio, which: u8) -> (yes: bool)
    ensures
        yes == radio_checked(radio, which as int),
{
    if which == 6 {
        radio.sync_image
    } else if which == 7 {
        radio.sync_audio
    } else {
        !radio.sync_image && !radio.sync_audio && match radio.mode {
            Some(m) => m >= 1 && m - 1 == which,
            None => false,
        }
    }
}

/// What the user did in the panel.
#[derive(Clone, Copy, PartialEq, Eq, Debug, Structural)]
pub enum PanelInput {
    /// A radio of the lighting selector.
    Lighting(u8),
    /// The power switch, in its new position.
    Power(bool),
    Brightness(u8),
    Smoothing(u8),
    Boost(u8),
    Fps(u8),
    Gain(u8),
    Sampling(u8),
    SlotPick(u8),
    /// The rainbow switch, in its new position: off hands the strip back to the
    /// remembered solid color.
    Rainbow(bool),
    SolidPick,
    Blink(u8),
    Range(u8),
    Autostart,
    Language(u8),
}

/// The id that an input posts. Picking the radio that is already active posts
/// nothing.
pub open spec fn input_id(input: PanelInput, last: Option<Radio>) -> Option<Seq<char>> {
    match input {
        PanelInput::Lighting(which) => if last matches Some(radio) && radio_checked(
            radio,
            which as int,
        ) {
            None
        } else if which == 6 {
            Some("toggle_image_sync"@)
        } else if which == 7 {
            Some("toggle_audio"@)
        } else {
            Some(menu_items::numbered("mode_"@, (which + 1) as u8))
        },
        PanelInput::Power(on) => Some(
            if on {
                "on"@
            } else {
                "off"@
            },
        ),
        PanelInput::Brightness(n) => Some(menu_items::numbered("bright_"@, n)),
        PanelInput::Smoothing(n) => Some(menu_items::numbered("smooth_"@, n)),
        PanelInput::Boost(n) => Some(menu_items::numbered("boost_"@, n)),
        PanelInput::Fps(n) => Some(menu_items::numbered("fps_"@, n)),
        PanelInput::Gain(n) => Some(menu_items::numbered("gain_"@, n)),
        PanelInput::Sampling(n) => Some(
            if n == 0 {
                "sampling_5"@
            } else if n == 1 {
                "sampling_15"@
            } else {
                "sampling_full"@
            },
        ),
        PanelInput::SlotPick(n) => Some(menu_items::numbered("slotcolor_"@, n)),
        PanelInput::Rainbow(on) => Some(
            if on {
                "pv_audiorainbow_on"@
            } else {
                "audiocolor_solid_restore"@
            },
        ),
        PanelInput::SolidPick => Some("audiocolor_solid"@),
        PanelInput::Blink(n) => Some(menu_items::numbered("audioblink_"@, n)),
        PanelInput::Range(n) => Some(menu_items::numbered("audiorange_"@, n)),
        PanelInput::Autostart => Some("pv_autostart"@),
        PanelInput::Language(n) => Some(menu_items::numbered("lang_"@, n)),
    }
}

/// The id that an input posts, given what the selector shows.
pub fn callback_id(input: PanelInput, last: Option<Radio>) -> (id: Option<String>)
    requires
        input matches PanelInput::Lighting(which) ==> which < 255,
    ensures
        match input_id(input, last) {
            Some(s) => id matches Some(t) && t@ == s,
            None => id is None,
        },
{
    match input {
        PanelInput::Lighting(which) => {
            if let Some(radio) = last {
                if is_radio_checked(radio, which) {
                    return None;
                }
            }
            if which == 6 {
                Some(String::from_str("toggle_image_sync"))
            } else if which == 7 {
                Some(String::from_str("toggle_audio"))
            } else {
                Some(menu_items::number_id("mode_", which + 1))
            }
        },
        PanelInput::Power(on) => Some(
            String::from_str(
                if on {
                    "on"
                } else {
                    "off"
                },
            ),
        ),
        PanelInput::Brightness(n) => Some(menu_items::number_id("bright_", n)),
        PanelInput::Smoothing(n) => Some(menu_items::number_id("smooth_", n)),
        PanelInput::Boost(n) => Some(menu_items::number_id("boost_", n)),
        PanelInput::Fps(n) => Some(menu_items::number_id("fps_", n)),
        PanelInput::Gain(n) => Some(menu_items::number_id("gain_", n)),
        PanelInput::Sampling(n) => Some(
            String::from_str(
                match n {
                    0 => "sampling_5",
                    1 => "sampling_15",
                    _ => "sampling_full",
                },
            ),
        ),
        PanelInput::SlotPick(n) => Some(menu_items::number_id("slotcolor_", n)),
        PanelInput::Rainbow(on) => Some(
            String::from_str(
                if on {
                    "pv_audiorainbow_on"
                } else {
                    "audiocolor_solid_restore"
                },
            ),
        ),
        PanelInput::SolidPick => Some(String::from_str("audiocolor_solid")),
        PanelInput::Blink(n) => Some(menu_items::number_id("audioblink_", n)),
        PanelInput::Range(n) => Some(menu_items::number_id("audiorange_", n)),
        PanelInput::Autostart => Some(String::from_str("pv_autostart")),
        PanelInput::Language(n) => Some(menu_items::number_id("lang_", n)),
    }
}

/// The label of the language at a position.
pub open spec fn language_title(i: int, lang: Lang) -> Seq<char> {
    i18n::language_text(i18n::language_of(i), lang)
}

/// The position of a language label: the first that shows it.
pub fn language_position(label: &str, lang: &Lang) -> (at: Option<u8>)
    ensures
        match at {
            Some(i) => {
                &&& i < i18n::LANGUAGE_COUNT
                &&& label@ == language_title(i as int, *lang)
                &&& forall|j: int| 0 <= j < i ==> label@ != #[trigger] language_title(j, *lang)
            },
            None => forall|j: int|
                0 <= j < i18n::LANGUAGE_COUNT ==> label@ != #[trigger] language_title(j, *lang),
        },
{
    let mut i: u8 = 0;
    while i < 11
        invariant
            i <= 11,
            forall|j: int| 0 <= j < i ==> label@ != #[trigger] language_title(j, *lang),
        decreases 11 - i,
    {
        let title = i18n::language_label(i18n::language_at(i as u32), lang);
        if text::same(label, title) {
            assert(label@ == language_title(i as int, *lang));
            return Some(i);
        }
        assert(label@ != language_title(i as int, *lang));
        i = i + 1;
    }
    None
}

/// The descriptions of the labeled rows.
#[derive(Clone, Copy, Debug)]
pub struct Hints {
    pub brightness: &'static str,
    pub sampling: &'static str,
    pub smoothing: &'static str,
    pub boost: &'static str,
    pub fps: &'static str,
    pub static_color: &'static str,
    pub audio_color: &'static str,
    pub sensitivity: &'static str,
    pub blink: &'static str,
    pub range: &'static str,
}

impl Hints {
    /// The descriptions in a language.
    pub fn resolve(lang: &Lang) -> (hints: Hints)
        ensures
            hints.brightness@ == lang.hint_brightness@,
            hints.sampling@ == lang.hint_sampling@,
            hints.smoothing@ == lang.hint_smoothing@,
            hints.boost@ == lang.hint_boost@,
            hints.fps@ == lang.hint_fps@,
            hints.static_color@ == lang.hint_static_color@,
            hints.audio_color@ == lang.hint_audio_color@,
            hints.sensitivity@ == lang.hint_sensitivity@,
            hints.blink@ == lang.hint_blink@,
            hints.range@ == lang.hint_range@,
    {
        Hints {
            brightness: lang.hint_brightness,
            sampling: lang.hint_sampling,
            smoothing: lang.hint_smoothing,
            boost: lang.hint_boost,
            fps: lang.hint_fps,
            static_color: lang.hint_static_color,
            audio_color: lang.hint_audio_color,
            sensitivity: lang.hint_sensitivity,
            blink: lang.hint_blink,
            range: lang.hint_range,
        }
    }
}

/// Every translated text that the panel shows.
#[derive(Debug)]
pub struct Labels {
    pub bright: &'static str,
    pub color: &'static str,
    pub sampling: &'static str,
    pub sens: &'static str,
    pub smooth: &'static str,
    pub boost: &'static str,
    pub blink: &'static str,
    pub range: &'static str,
    pub rainbow: &'static str,
    pub connected: &'static str,
    pub disconnected: &'static str,
    pub autostart: &'static str,
    pub language: &'static str,
    pub no_settings: &'static str,
    pub select_mode: &'static str,
    /// The six device modes.
    pub modes: Vec<String>,
    pub samples: [&'static str; 3],
    pub blinks: [&'static str; 3],
    pub ranges: [&'static str; 4],
    pub smooths: [&'static str; 4],
    pub boosts: [&'static str; 4],
    pub fpses: [&'static str; 4],
    pub gains: [&'static str; 3],
    /// The languages, in menu order.
    pub langs: Vec<&'static str>,
    pub hints: Hints,
}

impl Labels {
    /// The texts in a language.
    pub fn resolve(lang: &Lang) -> (labels: Labels)
        ensures
            labels.bright@ == lang.brightness@,
            labels.color@ == lang.color@,
            labels.sampling@ == lang.sampling@,
            labels.sens@ == lang.sensitivity@,
            labels.smooth@ == lang.smoothing@,
            labels.boost@ == lang.boost@,
            labels.blink@ == lang.blink@,
            labels.range@ == lang.dynamic_range@,
            labels.rainbow@ == lang.rainbow@,
            labels.connected@ == lang.connected@,
            labels.disconnected@ == lang.disconnected@,
            labels.autostart@ == lang.autostart@,
            labels.language@ == lang.language@,
            labels.no_settings@ == lang.no_settings@,
            labels.select_mode@ == lang.select_mode@,
            labels.modes@.len() == 6,
            forall|i: int|
                0 <= i < 6 ==> (#[trigger] labels.modes@[i])@ == menu_items::mode_name(
                    (i + 1) as u8,
                    *lang,
                ),
            forall|i: int|
                0 <= i < 3 ==> (#[trigger] labels.samples@[i])@ == menu_items::sampling_title(
                    i,
                    *lang,
                ),
            forall|i: int|
                0 <= i < 3 ==> (#[trigger] labels.blinks@[i])@ == menu_items::blink_title(i, *lang),
            forall|i: int|
                0 <= i < 4 ==> (#[trigger] labels.ranges@[i])@ == menu_items::range_title(i, *lang),
            forall|i: int|
                0 <= i < 4 ==> (#[trigger] labels.smooths@[i])@ == menu_items::smoothing_title(
                    i,
                    *lang,
                ),
            forall|i: int|
                0 <= i < 4 ==> (#[trigger] labels.boosts@[i])@ == menu_items::boost_title(i),
            forall|i: int|
                0 <= i < 4 ==> (#[trigger] labels.fpses@[i])@ == menu_items::fps_title(i),
            forall|i: int|
                0 <= i < 3 ==> (#[trigger] labels.gains@[i])@ == menu_items::gain_title(i, *lang),
            labels.langs@.len() == i18n::LANGUAGE_COUNT,
            forall|i: int|
                0 <= i < i18n::LANGUAGE_COUNT ==> (#[trigger] labels.langs@[i])@ == language_title(
                    i,
                    *lang,
                ),
            labels.hints.brightness@ == lang.hint_brightness@,
            labels.hints.sampling@ == lang.hint_sampling@,
            labels.hints.smoothing@ == lang.hint_smoothing@,
            labels.hints.boost@ == lang.hint_boost@,
            labels.hints.fps@ == lang.hint_fps@,
            labels.hints.static_color@ == lang.hint_static_color@,
            labels.hints.audio_color@ == lang.hint_audio_color@,
            labels.hints.sensitivity@ == lang.hint_sensitivity@,
            labels.hints.blink@ == lang.hint_blink@,
            labels.hints.range@ == lang.hint_range@,
    {
        Labels {
            bright: lang.brightness,
            color: lang.color,
            sampling: lang.sampling,
            sens: lang.sensitivity,
            smooth: lang.smoothing,
            boost: lang.boost,
            blink: lang.blink,
            range: lang.dynamic_range,
            rainbow: lang.rainbow,
            connected: lang.connected,
            disconnected: lang.disconnected,
            autostart: lang.autostart,
            language: lang.language,
            no_settings: lang.no_settings,
            select_mode: lang.select_mode,
            modes: mode_names(lang),
            samples: [
                menu_items::sampling_label(0, lang),
                menu_items::sampling_label(1, lang),
                menu_items::sampling_label(2, lang),
            ],
            blinks: [
                menu_items::blink_label(0, lang),
                menu_items::blink_label(1, lang),
                menu_items::blink_label(2, lang),
            ],
            ranges: [
                menu_items::range_label(0, lang),
                menu_items::range_label(1, lang),
                menu_items::range_label(2, lang),
                menu_items::range_label(3, lang),
            ],
            smooths: [
                menu_items::smoothing_label(0, lang),
                menu_items::smoothing_label(1, lang),
                menu_items::smoothing_label(2, lang),
                menu_items::smoothing_label(3, lang),
            ],
            boosts: [
                menu_items::boost_label(0),
                menu_items::boost_label(1),
                menu_items::boost_label(2),
                menu_items::boost_label(3),
            ],
            fpses: [
                menu_items::fps_label(0),
                menu_items::fps_label(1),
                menu_items::fps_label(2),
                menu_items::fps_label(3),
            ],
            gains: [
                menu_items::gain_label(0, lang),
                menu_items::gain_label(1, lang),
                menu_items::gain_label(2, lang),
            ],
            langs: language_labels(lang),
            hints: Hints::resolve(lang),
        }
    }
}

fn mode_names(lang: &Lang) -> (names: Vec<String>)
    ensures
        names@.len() == 6,
        forall|i: int|
            0 <= i < 6 ==> (#[trigger] names@[i])@ == menu_items::mode_name((i + 1) as u8, *lang),
{
    let mut names: Vec<String> = Vec::new();
    let mut i: u8 = 0;
    while i < 6
        invariant
            i <= 6,
            names@.len() == i,
            forall|j: int|
                0 <= j < i ==> (#[trigger] names@[j])@ == menu_items::mode_name(
                    (j + 1) as u8,
                    *lang,
                ),
        decreases 6 - i,
    {
        names.push(menu_items::static_mode_name(i + 1, lang));
        i = i + 1;
    }
    names
}

/// The languages as labels, in menu order.
pub fn language_labels(lang: &Lang) -> (labels: Vec<&'static str>)
    ensures
        labels@.len() == i18n::LANGUAGE_COUNT,
        forall|i: int|
            0 <= i < i18n::LANGUAGE_COUNT ==> (#[trigger] labels@[i])@ == language_title(i, *lang),
{
    let mut labels: Vec<&'static str> = Vec::new();
    let mut i: u32 = 0;
    while i < 11
        invariant
            i <= 11,
            labels@.len() == i,
            forall|j: int| 0 <= j < i ==> (#[trigger] labels@[j])@ == language_title(j, *lang),
        decreases 11 - i,
    {
        labels.push(i18n::language_label(i18n::language_at(i), lang));
        i = i + 1;
    }
    labels
}

/// The panel window: on screen or not, and its repaint flip.
#[derive(Clone, Copy, PartialEq, Eq, Debug, Structural)]
pub struct PanelWindow {
    pub open: bool,
    /// Each repaint trigger flips this, so consecutive triggers always change
    /// the value.
    pub flip: bool,
}

impl PanelWindow {
    pub fn new() -> (w: PanelWindow)
        ensures
            w == (PanelWindow { open: false, flip: false }),
    {
        PanelWindow { open: false, flip: false }
    }

    /// Shows the panel. True: a window must be built, and the state asked for;
    /// false: the one that is there is centered and focused.
    pub fn show(&mut self) -> (build: bool)
        ensures
            build == !old(self).open,
            *final(self) == (PanelWindow { open: true, ..*old(self) }),
    {
        let build = !self.open;
        self.open = true;
        build
    }

    /// The window was closed and is gone.
    pub fn close(&mut self)
        ensures
            *final(self) == (PanelWindow { open: false, ..*old(self) }),
    {
        self.open = false;
    }

    /// Is a snapshot wanted? A closed panel costs nothing.
    pub fn wants_snapshot(&self) -> (yes: bool)
        ensures
            yes == self.open,
    {
        self.open
    }

    /// The value to set for a full repaint; none without a window.
    pub fn repaint(&mut self) -> (value: Option<bool>)
        ensures
            !old(self).open ==> value is None && *final(self) == *old(self),
            old(self).open ==> value == Some(old(self).flip) && *final(self) == (PanelWindow {
                flip: !old(self).flip,
                ..*old(self)
            }),
    {
        if !self.open {
            return None;
        }
        let value = self.flip;
        self.flip = !self.flip;
        Some(value)
    }
}

pub const WM_SIZE: u32 = 0x0005;

pub const WM_PAINT: u32 = 0x000F;

pub const SIZE_RESTORED: u64 = 0;

/// Must the whole window be repainted after this message?
pub open spec fn repaints(msg: u32, wparam: u64, has_update: bool) -> bool {
    ||| msg == WM_PAINT && has_update
    ||| msg == WM_SIZE && wparam % 0x1_0000_0000 == SIZE_RESTORED
}

/// The repaints by the messages' numbers: 0xF is a paint, which counts with
/// something to update, and 5 a new size, which counts for a window that was
/// restored: 0 in the low 32 bits, whatever stands above them.
pub proof fn repaints_follow_real_changes(msg: u32, low: u32, high: u32, has_update: bool)
    ensures
        ({
            let wparam = (0x1_0000_0000 * high + low) as u64;
            &&& repaints(0x000F, wparam, has_update) == has_update
            &&& repaints(0x0005, wparam, has_update) == (low == 0)
            &&& msg != 0x000F && msg != 0x0005 ==> !repaints(msg, wparam, has_update)
        }),
{
    let wparam = (0x1_0000_0000 * high + low) as u64;
    assert(wparam == 0x1_0000_0000 * high + low);
    assert(wparam % 0x1_0000_0000 == low);
}

/// Must the whole window be repainted after this message? After a real paint,
/// one with something to update, and after coming back from minimized. A paint
/// with nothing to update is the renderer's own: answering it would feed back.
/// How a window was resized stands in the low 32 bits.
pub fn forces_repaint(msg: u32, wparam: u64, has_update: bool) -> (yes: bool)
    ensures
        yes == repaints(msg, wparam, has_update),
        yes == ((msg == WM_PAINT && has_update) || (msg == WM_SIZE && wparam % 0x1_0000_0000
            == SIZE_RESTORED)),
{
    (msg == WM_PAINT && has_update) || (msg == WM_SIZE && wparam % 0x1_0000_0000
        == SIZE_RESTORED)
}

/// Half of a number, rounded toward zero.
pub open spec fn half(n: int) -> int {
    if n >= 0 {
        n / 2
    } else {
        -((-n) / 2)
    }
}

/// Where a window of length `size` starts to sit centered between two edges.
pub open spec fn centered(low: int, high: int, size: int) -> int {
    low + half(high - low - size)
}

/// Can the position be computed in 32 bits?
pub open spec fn can_center(low: int, high: int, size: int) -> bool {
    &&& i32::MIN <= high - low <= i32::MAX
    &&& i32::MIN <= high - low - size <= i32::MAX
    &&& i32::MIN <= centered(low, high, size) <= i32::MAX
}

fn center(low: i32, high: i32, size: i32) -> (at: i32)
    requires
        can_center(low as int, high as int, size as int),
    ensures
        at == centered(low as int, high as int, size as int),
{
    let slack: i64 = high as i64 - low as i64 - size as i64;
    let shift: i64 = if slack >= 0 {
        slack / 2
    } else {
        -((-slack) / 2)
    };
    (low as i64 + shift) as i32
}

/// The position of a window of `w` x `h` pixels centered on a work area.
pub fn cursor_monitor_center(area: Rect, w: i32, h: i32) -> (at: (i32, i32))
    requires
        can_center(area.left as int, area.right as int, w as int),
        can_center(area.top as int, area.bottom as int, h as int),
    ensures
        at.0 == centered(area.left as int, area.right as int, w as int),
        at.1 == centered(area.top as int, area.bottom as int, h as int),
{
    (center(area.left, area.right, w), center(area.top, area.bottom, h))
}

/// The margins on both sides of a centered window differ by one pixel at most.
pub proof fn centered_windows_have_equal_margins(low: int, high: int, size: int)
    ensures
        ({
            let before = centered(low, high, size) - low;
            let after = high - (centered(low, high, size) + size);
            -1 <= after - before <= 1
        }),
{
}

/// At most one radio of the lighting selector is checked.
pub proof fn one_radio_at_a_time(ui: UiState, radio: Radio, a: int, b: int)
    requires
        0 <= a <= 7,
        0 <= b <= 7,
        radio.sync_image == (shown_sync(ui) == SyncActive::ImageSync),
        radio.sync_audio == (shown_sync(ui) == SyncActive::Audio),
        radio_checked(radio, a),
        radio_checked(radio, b),
    ensures
        a == b,
{
}

} // verus!
