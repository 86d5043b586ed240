//! What menu, panel and picker show, whatever the state.

use crate::audio::{Blink, DynamicRange};
use crate::event_ids;
use crate::factor::Factor;
use crate::i18n;
use crate::i18n::Lang;
use crate::id_laws;
use crate::menu;
use crate::menu::{Desk, FailureKind, Status, SyncActive, UiState};
use crate::menu_items;
use crate::menu_items::{Entry, Item, Section};
use crate::panel;
use crate::panel::{PanelView, Radio};
use crate::picker;
use crate::picker::PickerRequest;
use crate::sampling::SamplingMode;
use crate::text;
use crate::tray_laws;
use vstd::prelude::*;

verus! {

/// Is this an item that stays checked once it was clicked?
pub open spec fn is_choice(item: Item) -> bool {
    match item {
        Item::Mode(_) | Item::Brightness(_) | Item::Rainbow => true,
        Item::Sampling(n) | Item::Gain(n) | Item::Blink(n) => n <= 2,
        Item::Smoothing(n) | Item::Boost(n) | Item::Fps(n) | Item::Range(n) => n <= 3,
        Item::Language(n) => n <= 10,
        _ => false,
    }
}

/// A choice that was clicked is checked.
pub proof fn clicked_choices_are_checked(
    item: Item,
    d: Desk,
    detected: Seq<char>,
    reason: Seq<char>,
)
    requires
        is_choice(item),
    ensures
        menu_items::checked(
            item,
            menu::acted(d, id_laws::meaning_of(item), detected, reason).ui,
        ),
{
    match item {
        Item::Mode(n) => tray_laws::modes_are_set(d, n, detected, reason),
        Item::Brightness(n) => tray_laws::brightness_is_set(d, n, detected, reason),
        Item::Sampling(_) | Item::Smoothing(_) | Item::Boost(_) | Item::Fps(_) => {
            tray_laws::image_tuning_is_applied(
                d,
                id_laws::meaning_of(item),
                detected,
                reason,
            )
        },
        Item::Gain(_) | Item::Blink(_) | Item::Range(_) | Item::Rainbow => {
            tray_laws::audio_tuning_is_applied(
                d,
                id_laws::meaning_of(item),
                detected,
                reason,
            )
        },
        _ => {},
    }
}

/// Do the two items stand in one list of choices?
pub open spec fn are_rivals(a: Item, b: Item) -> bool {
    match (a, b) {
        (Item::Mode(_), Item::Mode(_)) => true,
        (Item::Brightness(_), Item::Brightness(_)) => true,
        (Item::Sampling(_), Item::Sampling(_)) => true,
        (Item::Smoothing(_), Item::Smoothing(_)) => true,
        (Item::Boost(_), Item::Boost(_)) => true,
        (Item::Fps(_), Item::Fps(_)) => true,
        (Item::Gain(_), Item::Gain(_)) => true,
        (Item::Blink(_), Item::Blink(_)) => true,
        (Item::Range(_), Item::Range(_)) => true,
        (Item::Language(_), Item::Language(_)) => true,
        _ => false,
    }
}

/// Of the choices in one list at most one is checked.
pub proof fn one_choice_at_a_time(a: Item, b: Item, ui: UiState)
    requires
        is_choice(a),
        is_choice(b),
        are_rivals(a, b),
        menu_items::checked(a, ui),
        menu_items::checked(b, ui),
    ensures
        a == b,
{
    crate::text_laws::presets_are_listed_in_order();
}

/// The other checks say what is on: the syncs, the autostart entry. Commands,
/// colors and submenus have none.
pub proof fn switches_show_what_is_on(ui: UiState, slot: u8, section: Section)
    ensures
        menu_items::checked(Item::ToggleImageSync, ui) == (ui.sync == SyncActive::ImageSync),
        menu_items::checked(Item::ToggleAudio, ui) == (ui.sync == SyncActive::Audio),
        menu_items::checked(Item::Autostart, ui) == ui.autostart,
        menu_items::checked(Item::Rainbow, ui) == (ui.audio.color is Rainbow),
        !menu_items::checked(Item::On, ui) && !menu_items::checked(Item::Off, ui),
        !menu_items::checked(Item::OpenPanel, ui) && !menu_items::checked(Item::Quit, ui),
        !menu_items::checked(Item::SolidColor, ui) && !menu_items::checked(Item::Status, ui),
        !menu_items::checked(Item::SlotColor(slot), ui) && !menu_items::checked(
            Item::Submenu(section),
            ui,
        ),
{
}

/// Swatches show the color of their slot, or the solid audio color.
pub proof fn swatches_show_their_color(ui: UiState, i: int)
    requires
        0 <= i < 4,
    ensures
        menu_items::swatch_of(Item::SlotColor((i + 1) as u8), ui) == ui.slot_colors@[i],
        menu_items::swatch_of(Item::SlotColor(0), ui) is None,
        ui.audio.color is Solid ==> menu_items::swatch_of(Item::SolidColor, ui) == Some(
            ui.audio.color->Solid_0,
        ),
        ui.audio.color is Rainbow ==> menu_items::swatch_of(Item::SolidColor, ui) is None,
{
}

/// Does the menu hold this item there?
pub open spec fn stands(at: int, depth: u8, item: Item) -> bool {
    menu_items::layout()[at] == (Entry { depth, item })
}

proof fn lemma_mode_section()
    ensures
        ({
            let s = menu_items::mode_section();
            &&& s.len() == 10
            &&& s[0] == (Entry { depth: 0, item: Item::Submenu(Section::Mode) })
            &&& forall|k: int|
                1 <= k <= 6 ==> #[trigger] s[k] == (Entry { depth: 1, item: Item::Mode(k as u8) })
            &&& s[7] == (Entry { depth: 1, item: Item::Separator })
            &&& s[8] == (Entry { depth: 1, item: Item::ToggleImageSync })
            &&& s[9] == (Entry { depth: 1, item: Item::ToggleAudio })
        }),
{
}

proof fn lemma_image_section()
    ensures
        ({
            let s = menu_items::image_section();
            &&& s.len() == 20
            &&& s[0] == (Entry { depth: 1, item: Item::Submenu(Section::ImageSync) })
            &&& s[1] == (Entry { depth: 2, item: Item::Submenu(Section::Sampling) })
            &&& forall|k: int|
                2 <= k < 5 ==> #[trigger] s[k] == (Entry {
                    depth: 3,
                    item: Item::Sampling((k - 2) as u8),
                })
            &&& s[5] == (Entry { depth: 2, item: Item::Submenu(Section::Smoothing) })
            &&& forall|k: int|
                6 <= k < 10 ==> #[trigger] s[k] == (Entry {
                    depth: 3,
                    item: Item::Smoothing((k - 6) as u8),
                })
            &&& s[10] == (Entry { depth: 2, item: Item::Submenu(Section::Boost) })
            &&& forall|k: int|
                11 <= k < 15 ==> #[trigger] s[k] == (Entry {
                    depth: 3,
                    item: Item::Boost((k - 11) as u8),
                })
            &&& s[15] == (Entry { depth: 2, item: Item::Submenu(Section::Fps) })
            &&& forall|k: int|
                16 <= k < 20 ==> #[trigger] s[k] == (Entry {
                    depth: 3,
                    item: Item::Fps((k - 16) as u8),
                })
        }),
{
}

proof fn lemma_audio_section()
    ensures
        ({
            let s = menu_items::audio_section();
            &&& s.len() == 17
            &&& s[0] == (Entry { depth: 1, item: Item::Submenu(Section::AudioSync) })
            &&& s[1] == (Entry { depth: 2, item: Item::Submenu(Section::Sensitivity) })
            &&& forall|k: int|
                2 <= k < 5 ==> #[trigger] s[k] == (Entry {
                    depth: 3,
                    item: Item::Gain((k - 2) as u8),
                })
            &&& s[5] == (Entry { depth: 2, item: Item::Submenu(Section::AudioColor) })
            &&& s[6] == (Entry { depth: 3, item: Item::Rainbow })
            &&& s[7] == (Entry { depth: 3, item: Item::SolidColor })
            &&& s[8] == (Entry { depth: 2, item: Item::Submenu(Section::Blink) })
            &&& forall|k: int|
                9 <= k < 12 ==> #[trigger] s[k] == (Entry {
                    depth: 3,
                    item: Item::Blink((k - 9) as u8),
                })
            &&& s[12] == (Entry { depth: 2, item: Item::Submenu(Section::Range) })
            &&& forall|k: int|
                13 <= k < 17 ==> #[trigger] s[k] == (Entry {
                    depth: 3,
                    item: Item::Range((k - 13) as u8),
                })
        }),
{
}

proof fn lemma_settings_section()
    ensures
        ({
            let s = menu_items::settings_section();
            &&& s.len() == 57
            &&& s[0] == (Entry { depth: 0, item: Item::Submenu(Section::Settings) })
            &&& s[1] == (Entry { depth: 1, item: Item::Submenu(Section::Brightness) })
            &&& forall|k: int|
                2 <= k < 14 ==> #[trigger] s[k] == (Entry {
                    depth: 2,
                    item: Item::Brightness((k - 1) as u8),
                })
            &&& s[14] == (Entry { depth: 1, item: Item::Separator })
            &&& s[15] == (Entry { depth: 1, item: Item::Submenu(Section::Color) })
            &&& forall|k: int|
                16 <= k < 20 ==> #[trigger] s[k] == (Entry {
                    depth: 2,
                    item: Item::SlotColor((k - 15) as u8),
                })
            &&& forall|k: int| 20 <= k < 40 ==> #[trigger] s[k] == menu_items::image_section()[k - 20]
            &&& forall|k: int| 40 <= k < 57 ==> #[trigger] s[k] == menu_items::audio_section()[k - 40]
        }),
{
    lemma_image_section();
    lemma_audio_section();
}

/// The menu from top to bottom: the panel and the power commands; the six modes
/// and the two syncs; the settings, with twelve levels, four slots and the lists
/// of both syncs; autostart and the eleven languages; the status; the exit.
pub proof fn the_menu_holds_everything_in_order(k: int)
    ensures
        menu_items::layout().len() == 90,
        stands(0, 0, Item::OpenPanel) && stands(1, 0, Item::On) && stands(2, 0, Item::Off),
        stands(3, 0, Item::Separator) && stands(14, 0, Item::Separator),
        stands(72, 0, Item::Separator) && stands(86, 0, Item::Separator),
        stands(88, 0, Item::Separator) && stands(11, 1, Item::Separator),
        stands(29, 1, Item::Separator),
        stands(4, 0, Item::Submenu(Section::Mode)),
        1 <= k <= 6 ==> stands(4 + k, 1, Item::Mode(k as u8)),
        stands(12, 1, Item::ToggleImageSync) && stands(13, 1, Item::ToggleAudio),
        stands(15, 0, Item::Submenu(Section::Settings)),
        stands(16, 1, Item::Submenu(Section::Brightness)),
        1 <= k <= 12 ==> stands(16 + k, 2, Item::Brightness(k as u8)),
        stands(30, 1, Item::Submenu(Section::Color)),
        1 <= k <= 4 ==> stands(30 + k, 2, Item::SlotColor(k as u8)),
        stands(35, 1, Item::Submenu(Section::ImageSync)),
        stands(36, 2, Item::Submenu(Section::Sampling)),
        0 <= k < 3 ==> stands(37 + k, 3, Item::Sampling(k as u8)),
        stands(40, 2, Item::Submenu(Section::Smoothing)),
        0 <= k < 4 ==> stands(41 + k, 3, Item::Smoothing(k as u8)),
        stands(45, 2, Item::Submenu(Section::Boost)),
        0 <= k < 4 ==> stands(46 + k, 3, Item::Boost(k as u8)),
        stands(50, 2, Item::Submenu(Section::Fps)),
        0 <= k < 4 ==> stands(51 + k, 3, Item::Fps(k as u8)),
        stands(55, 1, Item::Submenu(Section::AudioSync)),
        stands(56, 2, Item::Submenu(Section::Sensitivity)),
        0 <= k < 3 ==> stands(57 + k, 3, Item::Gain(k as u8)),
        stands(60, 2, Item::Submenu(Section::AudioColor)),
        stands(61, 3, Item::Rainbow) && stands(62, 3, Item::SolidColor),
        stands(63, 2, Item::Submenu(Section::Blink)),
        0 <= k < 3 ==> stands(64 + k, 3, Item::Blink(k as u8)),
        stands(67, 2, Item::Submenu(Section::Range)),
        0 <= k < 4 ==> stands(68 + k, 3, Item::Range(k as u8)),
        stands(73, 0, Item::Autostart),
        stands(74, 0, Item::Submenu(Section::Language)),
        0 <= k < 11 ==> stands(75 + k, 1, Item::Language(k as u8)),
        stands(87, 0, Item::Status) && stands(89, 0, Item::Quit),
{
    lemma_mode_section();
    lemma_settings_section();
    lemma_image_section();
    lemma_audio_section();
    let all = menu_items::layout();
    let modes = menu_items::mode_section();
    let settings = menu_items::settings_section();
    assert(all.len() == 90);
    assert forall|i: int| 0 <= i < 10 implies #[trigger] modes[i] == all[4 + i] by {}
    assert forall|i: int| 0 <= i < 57 implies #[trigger] settings[i] == all[15 + i] by {}
    if 1 <= k <= 6 {
        assert(modes[k] == all[4 + k]);
    }
}

/// The texts of the menu: what has a name in the language of the moment is called
/// by it, numbers are written out, and the names of the two syncs, of the
/// monitor's own modes and of the frame rate are the same in every language.
pub proof fn items_are_called_by_their_names(
    ui: UiState,
    reason: Seq<char>,
    lang: Lang,
    n: u8,
    section: Section,
)
    ensures
        menu_items::title_of(Item::OpenPanel, ui, reason, lang) == lang.open_panel@,
        menu_items::title_of(Item::On, ui, reason, lang) == lang.on_leds@,
        menu_items::title_of(Item::Off, ui, reason, lang) == lang.off_leds@,
        menu_items::title_of(Item::Separator, ui, reason, lang) == ""@,
        menu_items::title_of(Item::ToggleImageSync, ui, reason, lang) == "Image Sync"@,
        menu_items::title_of(Item::ToggleAudio, ui, reason, lang) == "Audio Sync"@,
        menu_items::title_of(Item::Brightness(n), ui, reason, lang) == lang.level@ + " "@
            + text::decimal_text(n as int),
        menu_items::title_of(Item::SlotColor(n), ui, reason, lang) == "Slot "@
            + text::decimal_text(n as int),
        menu_items::title_of(Item::Rainbow, ui, reason, lang) == lang.rainbow@,
        menu_items::title_of(Item::SolidColor, ui, reason, lang) == lang.solid_color@,
        menu_items::title_of(Item::Autostart, ui, reason, lang) == lang.autostart@,
        menu_items::title_of(Item::Quit, ui, reason, lang) == lang.quit@,
        menu_items::title_of(Item::Status, ui, reason, lang) == menu_items::status_line(
            ui.status,
            reason,
            lang,
        ),
        1 <= n <= 4 ==> menu_items::title_of(Item::Mode(n), ui, reason, lang)
            == lang.static_mode@ + " "@ + text::decimal_text(n as int),
        menu_items::title_of(Item::Mode(5), ui, reason, lang) == "Peaceful"@,
        menu_items::title_of(Item::Mode(6), ui, reason, lang) == "Dynamic"@,
        menu_items::section_title(Section::Settings, ui, lang) == lang.settings@,
        menu_items::section_title(Section::Brightness, ui, lang) == lang.brightness@,
        menu_items::section_title(Section::Color, ui, lang) == lang.color@,
        menu_items::section_title(Section::AudioColor, ui, lang) == lang.color@,
        menu_items::section_title(Section::ImageSync, ui, lang) == "Image Sync"@,
        menu_items::section_title(Section::AudioSync, ui, lang) == "Audio Sync"@,
        menu_items::section_title(Section::Sampling, ui, lang) == lang.sampling@,
        menu_items::section_title(Section::Smoothing, ui, lang) == lang.smoothing@,
        menu_items::section_title(Section::Boost, ui, lang) == lang.boost@,
        menu_items::section_title(Section::Fps, ui, lang) == "FPS"@,
        menu_items::section_title(Section::Sensitivity, ui, lang) == lang.sensitivity@,
        menu_items::section_title(Section::Blink, ui, lang) == lang.blink@,
        menu_items::section_title(Section::Range, ui, lang) == lang.dynamic_range@,
        menu_items::section_title(Section::Language, ui, lang) == lang.language@,
        menu_items::title_of(Item::Submenu(section), ui, reason, lang)
            == menu_items::section_title(section, ui, lang),
{
}

/// The texts of the lists, by position.
pub proof fn presets_are_called_by_their_names(ui: UiState, reason: Seq<char>, lang: Lang)
    ensures
        menu_items::title_of(Item::Sampling(0), ui, reason, lang) == lang.border5@,
        menu_items::title_of(Item::Sampling(1), ui, reason, lang) == lang.border15@,
        menu_items::title_of(Item::Sampling(2), ui, reason, lang) == lang.full_screen@,
        menu_items::title_of(Item::Smoothing(0), ui, reason, lang) == lang.smooth_instant@,
        menu_items::title_of(Item::Smoothing(1), ui, reason, lang) == lang.smooth_low@,
        menu_items::title_of(Item::Smoothing(2), ui, reason, lang) == lang.smooth_normal@,
        menu_items::title_of(Item::Smoothing(3), ui, reason, lang) == lang.smooth_high@,
        menu_items::title_of(Item::Boost(0), ui, reason, lang) == "1.0x"@,
        menu_items::title_of(Item::Boost(1), ui, reason, lang) == "1.2x"@,
        menu_items::title_of(Item::Boost(2), ui, reason, lang) == "1.5x"@,
        menu_items::title_of(Item::Boost(3), ui, reason, lang) == "2.0x"@,
        menu_items::title_of(Item::Gain(0), ui, reason, lang) == lang.gain_low@,
        menu_items::title_of(Item::Gain(1), ui, reason, lang) == lang.gain_medium@,
        menu_items::title_of(Item::Gain(2), ui, reason, lang) == lang.gain_high@,
        menu_items::title_of(Item::Blink(0), ui, reason, lang) == lang.blink_smooth@,
        menu_items::title_of(Item::Blink(1), ui, reason, lang) == lang.blink_normal@,
        menu_items::title_of(Item::Blink(2), ui, reason, lang) == lang.blink_fast@,
        menu_items::title_of(Item::Range(0), ui, reason, lang) == lang.range_compressed@,
        menu_items::title_of(Item::Range(1), ui, reason, lang) == lang.range_normal@,
        menu_items::title_of(Item::Range(2), ui, reason, lang) == lang.range_expanded@,
        menu_items::title_of(Item::Range(3), ui, reason, lang) == lang.range_extreme@,
        forall|n: u8|
            n <= 10 ==> #[trigger] menu_items::title_of(Item::Language(n), ui, reason, lang)
                == i18n::language_text(i18n::language_of(n as int), lang),
{
}

/// A frame rate is called by its number.
pub proof fn rates_are_called_by_their_number(
    n: u8,
    ui: UiState,
    reason: Seq<char>,
    lang: Lang,
)
    requires
        n <= 3,
    ensures
        menu_items::title_of(Item::Fps(n), ui, reason, lang) == text::decimal_text(
            event_ids::fps_of(n as int) as int,
        ),
{
    reveal_strlit("10");
    reveal_strlit("15");
    reveal_strlit("30");
    reveal_strlit("60");
    crate::text_laws::presets_are_listed_in_order();
    let v = event_ids::fps_of(n as int) as int;
    reveal_with_fuel(text::decimal_text, 3);
    assert(menu_items::fps_title(n as int) =~= text::decimal_text(v));
}

/// The mode's submenu names what is active: a running sync, else the device mode,
/// else nothing.
pub proof fn the_active_mode_is_named(mode: Option<u8>, lang: Lang)
    ensures
        menu_items::mode_title(SyncActive::ImageSync, mode, lang) == lang.mode@ + " - "@
            + "Image Sync"@,
        menu_items::mode_title(SyncActive::Audio, mode, lang) == lang.mode@ + " - "@
            + "Audio Sync"@,
        mode is Some && 1 <= mode->0 <= 6 ==> menu_items::mode_title(SyncActive::Off, mode, lang)
            == lang.mode@ + " - "@ + menu_items::mode_name(mode->0, lang),
        mode is None || mode->0 < 1 || mode->0 > 6 ==> menu_items::mode_title(
            SyncActive::Off,
            mode,
            lang,
        ) == lang.mode@,
{
}

/// The status in words: the connection, the running sync, a missing screen, or a
/// failure's reason within its template.
pub proof fn statuses_are_told(reason: Seq<char>, lang: Lang)
    ensures
        menu_items::status_line(Status::Disconnected, reason, lang) == lang.disconnected@,
        menu_items::status_line(Status::Connected, reason, lang) == lang.connected@,
        menu_items::status_line(Status::ImageSync, reason, lang) == "Image Sync"@,
        menu_items::status_line(Status::AudioSync, reason, lang) == "Audio Sync"@,
        menu_items::status_line(Status::NoScreen, reason, lang) == lang.no_screen@,
        menu_items::status_line(Status::Failed(FailureKind::Image), reason, lang)
            == text::filled(lang.fail_image@, reason),
        menu_items::status_line(Status::Failed(FailureKind::Audio), reason, lang)
            == text::filled(lang.fail_audio@, reason),
        menu_items::status_line(Status::Failed(FailureKind::Other), reason, lang) == reason,
{
}

/// The panel shows the running sync; without one that which waits for its screen,
/// and else that which comes back with the LEDs.
pub proof fn panels_show_the_sync(ui: UiState)
    ensures
        ui.sync != SyncActive::Off ==> panel::shown_sync(ui) == ui.sync,
        ui.sync == SyncActive::Off && ui.pending_boot_sync is Some ==> panel::shown_sync(ui)
            == ui.pending_boot_sync->0,
        ui.sync == SyncActive::Off && ui.pending_boot_sync is None && ui.resume is Some
            ==> panel::shown_sync(ui) == ui.resume->0,
        ui.sync == SyncActive::Off && ui.pending_boot_sync is None && ui.resume is None
            ==> panel::shown_sync(ui) == SyncActive::Off,
{
}

/// The right column belongs to the sync that is shown, else to the device mode:
/// slots 1 to 4 show their color, 5 and 6 have no settings.
pub proof fn panels_show_the_mode(ui: UiState)
    ensures
        ({
            let view = panel::view_of(ui);
            let sync = panel::shown_sync(ui);
            let off = sync == SyncActive::Off;
            &&& view == PanelView::ImageSync <==> sync == SyncActive::ImageSync
            &&& view == PanelView::AudioSync <==> sync == SyncActive::Audio
            &&& view is StaticColor <==> off && ui.mode is Some && 1 <= ui.mode->0 <= 4
            &&& view matches PanelView::StaticColor(slot) ==> ui.mode == Some(slot)
                && panel::fill_of(ui) == ui.slot_colors@[slot - 1]
            &&& !(view is StaticColor) ==> panel::fill_of(ui) is None
            &&& view == PanelView::NoSettings <==> off && (ui.mode == Some(5u8) || ui.mode
                == Some(6u8))
        }),
{
}

/// The selector checks a mode from 1 to 6 and no other.
pub proof fn six_modes_have_radios(ui: UiState, m: u8)
    ensures
        panel::mode_shown(ui) == Some(m) <==> ui.mode == Some(m) && 1 <= m <= 6,
{
}

/// The header tells of a missing screen or a failure, and else of the connection.
pub proof fn headers_tell_of_trouble_first(
    ui: UiState,
    reason: Seq<char>,
    connected: bool,
    lang: Lang,
)
    ensures
        ({
            let line = panel::header_line(ui, reason, connected, lang);
            let trouble = ui.status is NoScreen || ui.status is Failed;
            &&& trouble ==> line == menu_items::status_line(ui.status, reason, lang)
            &&& !trouble && connected ==> line == lang.connected@
            &&& !trouble && !connected ==> line == lang.disconnected@
        }),
{
}

/// The panel's lists show the preset that is set, and the first for a value that
/// is none.
pub proof fn panels_show_the_presets(i: int, v: Factor, rate: u32)
    requires
        0 <= i < 4,
    ensures
        panel::smooth_position(event_ids::smoothing_of(i)) == i,
        panel::boost_position(event_ids::boost_of(i)) == i,
        panel::fps_position(event_ids::fps_of(i)) == i,
        i < 3 ==> panel::gain_position(event_ids::gain_of(i)) == i,
        i < 3 ==> panel::blink_position(event_ids::blink_of(i)) == i,
        panel::range_position(event_ids::range_of(i)) == i,
        panel::smooth_position(v) == 0 || v == event_ids::smoothing_of(panel::smooth_position(v)),
        panel::boost_position(v) == 0 || v == event_ids::boost_of(panel::boost_position(v)),
        panel::gain_position(v) == 0 || v == event_ids::gain_of(panel::gain_position(v)),
        panel::fps_position(rate) == 0 || rate == event_ids::fps_of(panel::fps_position(rate)),
        panel::sampling_position(SamplingMode::Border5) == 0,
        panel::sampling_position(SamplingMode::Border15) == 1,
        panel::sampling_position(SamplingMode::Full) == 2,
        panel::blink_position(Blink::Normal) == 1,
        panel::range_position(DynamicRange::Normal) == 1,
{
    crate::text_laws::presets_are_listed_in_order();
}

/// A radio is checked for its own sync, or for its own mode while no sync shows.
pub proof fn radios_show_the_mode(radio: Radio, m: u8)
    requires
        1 <= m <= 6,
    ensures
        panel::radio_checked(radio, 6) == radio.sync_image,
        panel::radio_checked(radio, 7) == radio.sync_audio,
        panel::radio_checked(radio, m - 1) == (!radio.sync_image && !radio.sync_audio
            && radio.mode == Some(m)),
{
}

/// A window is centered: the space before and behind it is the same, and an odd
/// pixel goes behind, or before it where the window is larger than the area.
pub proof fn windows_are_centered(low: int, high: int, size: int)
    ensures
        ({
            let before = panel::centered(low, high, size) - low;
            let behind = high - size - panel::centered(low, high, size);
            &&& before + behind == high - low - size
            &&& high - low >= size ==> behind == before || behind == before + 1
            &&& high - low < size ==> behind == before || behind == before - 1
        }),
{
}

/// A picker edits what it was opened for and starts from its color, or from
/// white.
pub proof fn pickers_edit_what_was_asked(slot: u8, rgb: [u8; 3])
    ensures
        picker::target_of(PickerRequest::Slot(slot, rgb)) == slot,
        picker::initial_of(PickerRequest::Slot(slot, rgb)) == rgb@,
        picker::target_of(PickerRequest::Audio(Some(rgb))) == 0,
        picker::initial_of(PickerRequest::Audio(Some(rgb))) == rgb@,
        picker::target_of(PickerRequest::Audio(None)) == 0,
        picker::initial_of(PickerRequest::Audio(None)) == seq![255u8, 255u8, 255u8],
{
}

/// A color's label is a hash sign and six hex digits, with capital letters.
pub proof fn labels_are_written_in_capitals(r: u8, g: u8, b: u8, i: int)
    requires
        0 <= i < 7,
    ensures
        ({
            let label = picker::hex_label(r, g, b);
            &&& label.len() == 7
            &&& label[0] == '#'
            &&& i > 0 ==> 48 <= label[i] as int <= 57 || 65 <= label[i] as int <= 70
        }),
{
    lemma_capital(r as int / 16);
    lemma_capital(r as int % 16);
    lemma_capital(g as int / 16);
    lemma_capital(g as int % 16);
    lemma_capital(b as int / 16);
    lemma_capital(b as int % 16);
}

proof fn lemma_capital(d: int)
    requires
        0 <= d < 16,
    ensures
        d < 10 ==> picker::hex_char(d) as int == 48 + d,
        d >= 10 ==> picker::hex_char(d) as int == 55 + d,
{
}

/// Hex digits count by sixteens, in capital and small letters alike; anything
/// else between them is skipped.
pub proof fn hex_digits_count_by_sixteens(s: Seq<char>, c: char)
    ensures
        ({
            let v = c as int;
            let longer = s.push(c);
            &&& picker::is_hex(c) <==> 48 <= v <= 57 || 65 <= v <= 70 || 97 <= v <= 102
            &&& 48 <= v <= 57 ==> picker::hex_value(longer) == 16 * picker::hex_value(s) + v - 48
            &&& 65 <= v <= 70 ==> picker::hex_value(longer) == 16 * picker::hex_value(s) + v - 55
            &&& 97 <= v <= 102 ==> picker::hex_value(longer) == 16 * picker::hex_value(s) + v - 87
            &&& picker::is_hex(c) ==> picker::hex_count(longer) == picker::hex_count(s) + 1
            &&& !picker::is_hex(c) ==> picker::hex_value(longer) == picker::hex_value(s)
                && picker::hex_count(longer) == picker::hex_count(s)
            &&& picker::hex_value(Seq::empty()) == 0 && picker::hex_count(Seq::empty()) == 0
        }),
{
    assert(s.push(c).drop_last() =~= s);
}

/// A field that cannot be read is accepted as white; any other as its number, of
/// which the color takes red, green and blue from the top.
pub proof fn unreadable_fields_are_white(hex: Seq<char>, rgb: Seq<u8>, v: int)
    ensures
        picker::hex_count(hex) <= 0 ==> picker::accepted_value(hex) == 0xFFFFFF,
        picker::hex_value(hex) > 0xFFFF_FFFF ==> picker::accepted_value(hex) == 0xFFFFFF,
        picker::hex_count(hex) > 0 && picker::hex_value(hex) <= 0xFFFF_FFFF
            ==> picker::accepted_value(hex) == picker::hex_value(hex),
        picker::is_rgb_of(rgb, v) && v >= 0 ==> rgb.len() == 3 && v % 0x1000000 == 0x10000 * rgb[0]
            + 0x100 * rgb[1] + rgb[2],
{
}

/// Three numbers are read from between the first two commas; each must be one of
/// its own.
pub proof fn triples_are_split_at_commas(x: Seq<char>, y: Seq<char>, z: Seq<char>)
    requires
        forall|i: int| 0 <= i < x.len() ==> #[trigger] x[i] != ',',
        forall|i: int| 0 <= i < y.len() ==> #[trigger] y[i] != ',',
    ensures
        picker::parsed_triple(x) is None,
        picker::parsed_triple(x + seq![','] + y) is None,
        picker::parsed_triple(x + seq![','] + y + seq![','] + z) == (match (
            text::parsed(x, 255),
            text::parsed(y, 255),
            text::parsed(z, 255),
        ) {
            (Some(r), Some(g), Some(b)) => Some((r, g, b)),
            _ => None,
        }),
{
    text::lemma_first_of(x, ',', x.len() as int);
    let two = x + seq![','] + y;
    lemma_comma(x, y);
    text::lemma_first_of(y, ',', y.len() as int);
    let all = x + seq![','] + y + seq![','] + z;
    let rest = y + seq![','] + z;
    assert(all =~= x + seq![','] + rest);
    lemma_comma(x, rest);
    lemma_comma(y, z);
}

proof fn lemma_comma(head: Seq<char>, tail: Seq<char>)
    requires
        forall|i: int| 0 <= i < head.len() ==> #[trigger] head[i] != ',',
    ensures
        ({
            let s = head + seq![','] + tail;
            &&& text::first_of(s, ',') == Some(head.len() as int)
            &&& s.take(head.len() as int) == head
            &&& s.skip(head.len() as int + 1) == tail
        }),
{
    let s = head + seq![','] + tail;
    assert forall|j: int| 0 <= j < head.len() implies s[j] != ',' by {
        assert(s[j] == head[j]);
    }
    assert(s[head.len() as int] == ',');
    text::lemma_first_of(s, ',', head.len() as int);
    assert(s.take(head.len() as int) =~= head);
    assert(s.skip(head.len() as int + 1) =~= tail);
}

} // verus!
