//! Ids and events determine each other: what menu, panel, picker and engine post
//! is what the tray understands.

use crate::event_ids;
use crate::events;
use crate::i18n;
use crate::menu::{Event, FailureKind};
use crate::menu_items;
use crate::menu_items::Item;
use crate::panel;
use crate::panel::{PanelInput, Radio};
use crate::picker;
use crate::sampling::SamplingMode;
use crate::text;
use vstd::prelude::*;

verus! {

/// A text that differs from another at one place neither is it nor starts with
/// it.
proof fn lemma_not(id: Seq<char>, other: Seq<char>, i: int)
    requires
        0 <= i < other.len(),
        i < id.len(),
        id[i] != other[i],
    ensures
        id != other,
        !text::starts_with(id, other),
{
    if text::starts_with(id, other) {
        assert(id.subrange(0, other.len() as int)[i] == id[i]);
    }
}

/// Ids of other threads and of the picker start with an underscore.
proof fn lemma_no_system(id: Seq<char>)
    requires
        id.len() > 0,
        id[0] != '_',
    ensures
        event_ids::system_event(id) is None,
        event_ids::picked_event(id) is None,
{
    reveal_strlit("__connection");
    reveal_strlit("__connection_init");
    reveal_strlit("__display_changed");
    reveal_strlit("__restore_push");
    reveal_strlit("__resumed");
    reveal_strlit("__device_event");
    reveal_strlit("__panel_ready");
    reveal_strlit("__engine_failed;");
    reveal_strlit("__picker_audio:");
    reveal_strlit("__picker_slot_");
    lemma_not(id, "__connection"@, 0);
    lemma_not(id, "__connection_init"@, 0);
    lemma_not(id, "__display_changed"@, 0);
    lemma_not(id, "__restore_push"@, 0);
    lemma_not(id, "__resumed"@, 0);
    lemma_not(id, "__device_event"@, 0);
    lemma_not(id, "__panel_ready"@, 0);
    lemma_not(id, "__engine_failed;"@, 0);
    lemma_not(id, "__picker_audio:"@, 0);
    lemma_not(id, "__picker_slot_"@, 0);
}

/// The number behind a prefix reads back.
proof fn lemma_number_after(prefix: Seq<char>, n: int, max: int)
    requires
        0 <= n <= max,
    ensures
        event_ids::number_after(prefix + text::decimal_text(n), prefix, max) == Some(n),
{
    let id = prefix + text::decimal_text(n);
    assert(id.subrange(0, prefix.len() as int) =~= prefix);
    assert(id.skip(prefix.len() as int) =~= text::decimal_text(n));
    text::decimal_reads_back(n, max);
}

/// A text that is a word, or starts with it, has its letters.
proof fn lemma_letters(id: Seq<char>, word: Seq<char>)
    requires
        id == word || text::starts_with(id, word),
    ensures
        id.len() >= word.len(),
        forall|i: int| 0 <= i < word.len() ==> #[trigger] id[i] == word[i],
{
    if text::starts_with(id, word) {
        assert forall|i: int| 0 <= i < word.len() implies #[trigger] id[i] == word[i] by {
            assert(id.subrange(0, word.len() as int)[i] == id[i]);
        }
    }
}

/// Could the id be one of the audio tunings, by its third and sixth letter?
spec fn is_audio_word(id: Seq<char>, letter: char) -> bool {
    id.len() > 5 && id[0] == 'a' && id[2] == 'd' && id[5] == letter
}

/// The words of the tuning ids are told apart by a few letters.
proof fn lemma_tuning_words(id: Seq<char>)
    requires
        id.len() >= 2,
    ensures
        !(id[0] == 's' && id[1] == 'a') ==> id != "sampling_5"@ && id != "sampling_15"@ && id
            != "sampling_full"@,
        !(id[0] == 's' && id[1] == 'm') ==> !text::starts_with(id, "smooth_"@),
        !(id[0] == 'b' && id[1] == 'o') ==> !text::starts_with(id, "boost_"@),
        id[0] != 'f' ==> !text::starts_with(id, "fps_"@),
        id[0] != 'g' ==> !text::starts_with(id, "gain_"@),
        id[0] != 'l' ==> !text::starts_with(id, "lang_"@),
        !is_audio_word(id, 'b') ==> !text::starts_with(id, "audioblink_"@),
        !is_audio_word(id, 'r') ==> !text::starts_with(id, "audiorange_"@),
{
    reveal_strlit("sampling_5");
    reveal_strlit("sampling_15");
    reveal_strlit("sampling_full");
    reveal_strlit("smooth_");
    reveal_strlit("boost_");
    reveal_strlit("fps_");
    reveal_strlit("gain_");
    reveal_strlit("lang_");
    reveal_strlit("audioblink_");
    reveal_strlit("audiorange_");
    if text::starts_with(id, "smooth_"@) {
        lemma_letters(id, "smooth_"@);
    }
    if text::starts_with(id, "boost_"@) {
        lemma_letters(id, "boost_"@);
    }
    if text::starts_with(id, "fps_"@) {
        lemma_letters(id, "fps_"@);
    }
    if text::starts_with(id, "gain_"@) {
        lemma_letters(id, "gain_"@);
    }
    if text::starts_with(id, "lang_"@) {
        lemma_letters(id, "lang_"@);
    }
    if text::starts_with(id, "audioblink_"@) {
        lemma_letters(id, "audioblink_"@);
    }
    if text::starts_with(id, "audiorange_"@) {
        lemma_letters(id, "audiorange_"@);
    }
}

/// The words of the other controls are told apart by a few letters.
proof fn lemma_control_words(id: Seq<char>)
    requires
        id.len() >= 2,
    ensures
        id[0] != 't' ==> id != "toggle_image_sync"@ && id != "toggle_audio"@,
        id[0] != 'q' ==> id != "quit"@,
        id[0] != 'o' ==> id != "on"@ && id != "off"@ && id != "open_panel"@,
        id[0] != 'a' ==> id != "audiocolor_rainbow"@ && id != "audiocolor_solid"@ && id
            != "audiocolor_solid_restore"@ && id != "autostart"@,
        id[0] != 'p' ==> id != "pv_audiorainbow_on"@ && id != "pv_autostart"@,
        id[0] != 's' ==> !text::starts_with(id, "slotcolor_"@),
        id[0] != 'b' ==> !text::starts_with(id, "bright_"@),
{
    reveal_strlit("toggle_image_sync");
    reveal_strlit("toggle_audio");
    reveal_strlit("quit");
    reveal_strlit("on");
    reveal_strlit("off");
    reveal_strlit("open_panel");
    reveal_strlit("audiocolor_rainbow");
    reveal_strlit("audiocolor_solid");
    reveal_strlit("audiocolor_solid_restore");
    reveal_strlit("autostart");
    reveal_strlit("pv_audiorainbow_on");
    reveal_strlit("pv_autostart");
    reveal_strlit("slotcolor_");
    reveal_strlit("bright_");
    if text::starts_with(id, "slotcolor_"@) {
        lemma_letters(id, "slotcolor_"@);
    }
    if text::starts_with(id, "bright_"@) {
        lemma_letters(id, "bright_"@);
    }
}

/// The id of a control is none of a thread, the picker or a tuning.
proof fn lemma_is_control(id: Seq<char>)
    requires
        id.len() >= 2,
        id[0] == 't' || id[0] == 'q' || id[0] == 'o' || id[0] == 'p' || id[0] == 'm' || (id[0]
            == 'a' && id.len() > 5 && (id[2] != 'd' || id[5] == 'c')) || (id[0] == 's' && id[1]
            == 'l') || (id[0] == 'b' && id[1] == 'r'),
    ensures
        event_ids::event_of(id) == (match event_ids::control_event(id) {
            Some(event) => event,
            None => Event::Unknown,
        }),
{
    lemma_no_system(id);
    lemma_tuning_words(id);
}

/// The sampling ids.
proof fn lemma_sampling_ids()
    ensures
        event_ids::event_of("sampling_5"@) == Event::Sampling(SamplingMode::Border5),
        event_ids::event_of("sampling_15"@) == Event::Sampling(SamplingMode::Border15),
        event_ids::event_of("sampling_full"@) == Event::Sampling(SamplingMode::Full),
{
    reveal_strlit("sampling_5");
    reveal_strlit("sampling_15");
    reveal_strlit("sampling_full");
    lemma_no_system("sampling_5"@);
    lemma_no_system("sampling_15"@);
    lemma_no_system("sampling_full"@);
    lemma_not("sampling_15"@, "sampling_5"@, 9);
    lemma_not("sampling_full"@, "sampling_5"@, 9);
    lemma_not("sampling_full"@, "sampling_15"@, 9);
}

/// An id of a numbered tuning.
proof fn lemma_tuning_id(prefix: Seq<char>, n: int, max: int) -> (id: Seq<char>)
    requires
        0 <= n <= max,
        prefix.len() >= 2,
        prefix[0] != '_',
    ensures
        id == prefix + text::decimal_text(n),
        event_ids::number_after(id, prefix, max) == Some(n),
        event_ids::system_event(id) is None,
        event_ids::picked_event(id) is None,
        forall|i: int| 0 <= i < prefix.len() ==> #[trigger] id[i] == prefix[i],
{
    let id = prefix + text::decimal_text(n);
    lemma_number_after(prefix, n, max);
    lemma_no_system(id);
    id
}

proof fn lemma_image_tuning_ids(n: int)
    requires
        0 <= n <= 3,
    ensures
        event_ids::event_of("smooth_"@ + text::decimal_text(n)) == Event::Smoothing(
            event_ids::smoothing_of(n),
        ),
        event_ids::event_of("boost_"@ + text::decimal_text(n)) == Event::Boost(
            event_ids::boost_of(n),
        ),
        event_ids::event_of("fps_"@ + text::decimal_text(n)) == Event::Fps(event_ids::fps_of(n)),
{
    reveal_strlit("smooth_");
    reveal_strlit("boost_");
    reveal_strlit("fps_");
    let smooth = lemma_tuning_id("smooth_"@, n, 3);
    lemma_tuning_words(smooth);
    let boost = lemma_tuning_id("boost_"@, n, 3);
    lemma_tuning_words(boost);
    let fps = lemma_tuning_id("fps_"@, n, 3);
    lemma_tuning_words(fps);
}

proof fn lemma_audio_tuning_ids(n: int)
    requires
        0 <= n <= 3,
    ensures
        n <= 2 ==> event_ids::event_of("gain_"@ + text::decimal_text(n)) == Event::Gain(
            event_ids::gain_of(n),
        ),
        n <= 2 ==> event_ids::event_of("audioblink_"@ + text::decimal_text(n)) == Event::Blink(
            event_ids::blink_of(n),
        ),
        event_ids::event_of("audiorange_"@ + text::decimal_text(n)) == Event::Range(
            event_ids::range_of(n),
        ),
{
    reveal_strlit("gain_");
    reveal_strlit("audioblink_");
    reveal_strlit("audiorange_");
    if n <= 2 {
        let gain = lemma_tuning_id("gain_"@, n, 2);
        lemma_tuning_words(gain);
        let blink = lemma_tuning_id("audioblink_"@, n, 2);
        lemma_tuning_words(blink);
    }
    let range = lemma_tuning_id("audiorange_"@, n, 3);
    lemma_tuning_words(range);
}

proof fn lemma_language_ids(n: int)
    requires
        0 <= n <= 10,
    ensures
        event_ids::event_of("lang_"@ + text::decimal_text(n)) == Event::Language(
            i18n::language_of(n),
        ),
{
    reveal_strlit("lang_");
    let id = lemma_tuning_id("lang_"@, n, 10);
    lemma_tuning_words(id);
}

/// The ids of the toggles and of the commands without a number.
proof fn lemma_command_ids()
    ensures
        event_ids::event_of("toggle_image_sync"@) == Event::ToggleImageSync,
        event_ids::event_of("toggle_audio"@) == Event::ToggleAudio,
        event_ids::event_of("quit"@) == Event::Quit,
        event_ids::event_of("on"@) == Event::On,
        event_ids::event_of("off"@) == Event::Off,
        event_ids::event_of("open_panel"@) == Event::OpenPanel,
{
    reveal_strlit("toggle_image_sync");
    reveal_strlit("toggle_audio");
    reveal_strlit("quit");
    reveal_strlit("on");
    reveal_strlit("off");
    reveal_strlit("open_panel");
    lemma_is_control("toggle_image_sync"@);
    lemma_is_control("toggle_audio"@);
    lemma_is_control("quit"@);
    lemma_is_control("on"@);
    lemma_is_control("off"@);
    lemma_is_control("open_panel"@);
    lemma_control_words("quit"@);
    lemma_control_words("on"@);
    lemma_control_words("off"@);
    lemma_control_words("open_panel"@);
    lemma_not("toggle_audio"@, "toggle_image_sync"@, 7);
    lemma_not("off"@, "on"@, 1);
    lemma_not("open_panel"@, "on"@, 1);
    lemma_not("open_panel"@, "off"@, 1);
}

/// The ids of the audio colors and of the autostart entry.
proof fn lemma_switch_ids()
    ensures
        event_ids::event_of("audiocolor_rainbow"@) == Event::AudioRainbow,
        event_ids::event_of("pv_audiorainbow_on"@) == Event::AudioRainbow,
        event_ids::event_of("audiocolor_solid"@) == Event::AudioSolid,
        event_ids::event_of("audiocolor_solid_restore"@) == Event::AudioSolidRestore,
        event_ids::event_of("autostart"@) == Event::Autostart,
        event_ids::event_of("pv_autostart"@) == Event::Autostart,
{
    reveal_strlit("audiocolor_rainbow");
    reveal_strlit("pv_audiorainbow_on");
    reveal_strlit("audiocolor_solid");
    reveal_strlit("audiocolor_solid_restore");
    reveal_strlit("autostart");
    reveal_strlit("pv_autostart");
    lemma_is_control("audiocolor_rainbow"@);
    lemma_is_control("pv_audiorainbow_on"@);
    lemma_is_control("audiocolor_solid"@);
    lemma_is_control("audiocolor_solid_restore"@);
    lemma_is_control("autostart"@);
    lemma_is_control("pv_autostart"@);
    lemma_control_words("audiocolor_rainbow"@);
    lemma_control_words("pv_audiorainbow_on"@);
    lemma_control_words("audiocolor_solid"@);
    lemma_control_words("audiocolor_solid_restore"@);
    lemma_control_words("autostart"@);
    lemma_control_words("pv_autostart"@);
    lemma_not("audiocolor_solid"@, "audiocolor_rainbow"@, 11);
    lemma_not("audiocolor_solid_restore"@, "audiocolor_rainbow"@, 11);
    lemma_not("autostart"@, "audiocolor_rainbow"@, 2);
    lemma_not("autostart"@, "audiocolor_solid"@, 2);
    lemma_not("autostart"@, "audiocolor_solid_restore"@, 2);
    lemma_not("pv_autostart"@, "pv_audiorainbow_on"@, 5);
}

/// The ids of slots, levels and modes.
proof fn lemma_number_ids(n: int)
    requires
        0 <= n <= 255,
    ensures
        event_ids::event_of("slotcolor_"@ + text::decimal_text(n)) == Event::SlotColor(n as u8),
        event_ids::event_of("bright_"@ + text::decimal_text(n)) == Event::Brightness(n as u8),
        event_ids::event_of("mode_"@ + text::decimal_text(n)) == Event::Mode(n as u8),
{
    reveal_strlit("slotcolor_");
    reveal_strlit("bright_");
    reveal_strlit("mode_");
    let slot = "slotcolor_"@ + text::decimal_text(n);
    let level = "bright_"@ + text::decimal_text(n);
    let mode = "mode_"@ + text::decimal_text(n);
    lemma_number_after("slotcolor_"@, n, 255);
    lemma_number_after("bright_"@, n, 255);
    lemma_number_after("mode_"@, n, 255);
    lemma_is_control(slot);
    lemma_is_control(level);
    lemma_is_control(mode);
    lemma_control_words(slot);
    lemma_control_words(level);
    lemma_control_words(mode);
}

/// Can the item be clicked, and is its number one that the menu shows?
pub open spec fn is_clickable(item: Item) -> bool {
    match item {
        Item::Separator | Item::Submenu(_) | Item::Status => false,
        Item::Sampling(n) | Item::Gain(n) | Item::Blink(n) => n <= 2,
        Item::Smoothing(n) | Item::Boost(n) | Item::Fps(n) | Item::Range(n) => n <= 3,
        Item::Language(n) => n <= 10,
        _ => true,
    }
}

/// What a click on an item means.
pub open spec fn meaning_of(item: Item) -> Event {
    match item {
        Item::OpenPanel => Event::OpenPanel,
        Item::On => Event::On,
        Item::Off => Event::Off,
        Item::Separator | Item::Submenu(_) | Item::Status => Event::Unknown,
        Item::Mode(n) => Event::Mode(n),
        Item::ToggleImageSync => Event::ToggleImageSync,
        Item::ToggleAudio => Event::ToggleAudio,
        Item::Brightness(n) => Event::Brightness(n),
        Item::SlotColor(n) => Event::SlotColor(n),
        Item::Sampling(n) => Event::Sampling(
            if n == 0 {
                SamplingMode::Border5
            } else if n == 1 {
                SamplingMode::Border15
            } else {
                SamplingMode::Full
            },
        ),
        Item::Smoothing(n) => Event::Smoothing(event_ids::smoothing_of(n as int)),
        Item::Boost(n) => Event::Boost(event_ids::boost_of(n as int)),
        Item::Fps(n) => Event::Fps(event_ids::fps_of(n as int)),
        Item::Gain(n) => Event::Gain(event_ids::gain_of(n as int)),
        Item::Rainbow => Event::AudioRainbow,
        Item::SolidColor => Event::AudioSolid,
        Item::Blink(n) => Event::Blink(event_ids::blink_of(n as int)),
        Item::Range(n) => Event::Range(event_ids::range_of(n as int)),
        Item::Autostart => Event::Autostart,
        Item::Language(n) => Event::Language(i18n::language_of(n as int)),
        Item::Quit => Event::Quit,
    }
}

/// Every item that can be clicked posts an id that the tray understands as just
/// that item.
pub proof fn menu_ids_mean_their_items(item: Item)
    requires
        is_clickable(item),
    ensures
        event_ids::event_of(menu_items::id_of(item)) == meaning_of(item),
{
    match item {
        Item::OpenPanel | Item::On | Item::Off | Item::Quit => lemma_command_ids(),
        Item::Separator | Item::Submenu(_) | Item::Status => {},
        Item::ToggleImageSync | Item::ToggleAudio => lemma_command_ids(),
        Item::Mode(n) | Item::Brightness(n) | Item::SlotColor(n) => lemma_number_ids(n as int),
        Item::Sampling(_) => lemma_sampling_ids(),
        Item::Smoothing(n) | Item::Boost(n) | Item::Fps(n) => lemma_image_tuning_ids(n as int),
        Item::Gain(n) | Item::Blink(n) | Item::Range(n) => lemma_audio_tuning_ids(n as int),
        Item::Rainbow | Item::SolidColor | Item::Autostart => lemma_switch_ids(),
        Item::Language(n) => lemma_language_ids(n as int),
    }
}

/// Is the input one that the panel offers?
pub open spec fn is_offered(input: PanelInput) -> bool {
    match input {
        PanelInput::Lighting(n) => n <= 7,
        PanelInput::Sampling(n) | PanelInput::Gain(n) | PanelInput::Blink(n) => n <= 2,
        PanelInput::Smoothing(n)
        | PanelInput::Boost(n)
        | PanelInput::Fps(n)
        | PanelInput::Range(n) => n <= 3,
        PanelInput::Language(n) => n <= 10,
        _ => true,
    }
}

/// The menu item that does the same as a panel input, where there is one.
pub open spec fn twin_of(input: PanelInput) -> Option<Item> {
    match input {
        PanelInput::Lighting(n) => Some(
            if n == 6 {
                Item::ToggleImageSync
            } else if n == 7 {
                Item::ToggleAudio
            } else {
                Item::Mode((n + 1) as u8)
            },
        ),
        PanelInput::Power(on) => Some(
            if on {
                Item::On
            } else {
                Item::Off
            },
        ),
        PanelInput::Brightness(n) => Some(Item::Brightness(n)),
        PanelInput::Smoothing(n) => Some(Item::Smoothing(n)),
        PanelInput::Boost(n) => Some(Item::Boost(n)),
        PanelInput::Fps(n) => Some(Item::Fps(n)),
        PanelInput::Gain(n) => Some(Item::Gain(n)),
        PanelInput::Sampling(n) => Some(Item::Sampling(n)),
        PanelInput::SlotPick(n) => Some(Item::SlotColor(n)),
        PanelInput::Rainbow(on) => if on {
            Some(Item::Rainbow)
        } else {
            None
        },
        PanelInput::SolidPick => Some(Item::SolidColor),
        PanelInput::Blink(n) => Some(Item::Blink(n)),
        PanelInput::Range(n) => Some(Item::Range(n)),
        PanelInput::Autostart => Some(Item::Autostart),
        PanelInput::Language(n) => Some(Item::Language(n)),
    }
}

/// Menu and panel can never disagree: whatever a panel control posts means what
/// the same control of the menu means. The rainbow switched off, which the menu
/// has no item for, brings the last solid color back.
pub proof fn panel_and_menu_agree(input: PanelInput, last: Option<Radio>)
    requires
        is_offered(input),
    ensures
        panel::input_id(input, last) matches Some(id) ==> event_ids::event_of(id) == (
        match twin_of(input) {
            Some(item) => meaning_of(item),
            None => Event::AudioSolidRestore,
        }),
{
    match twin_of(input) {
        Some(item) => menu_ids_mean_their_items(item),
        None => {},
    }
    lemma_switch_ids();
}

/// Picking the lighting radio that is already active does nothing; picking any
/// other one posts an event.
pub proof fn the_selector_is_a_radio(which: u8, radio: Radio)
    ensures
        panel::input_id(PanelInput::Lighting(which), Some(radio)) is None
            <==> panel::radio_checked(radio, which as int),
{
}

/// The event of a failure carries its kind and its detail. A failure of no known
/// kind carries its text as it is, as long as it holds no semicolon.
pub proof fn failures_are_understood(kind: FailureKind, detail: Seq<char>)
    requires
        kind == FailureKind::Other ==> text::first_of(detail, ';') is None,
    ensures
        event_ids::event_of(event_ids::failure_text(kind, detail)) == Event::EngineFailed(kind),
        event_ids::reason_of(event_ids::failure_text(kind, detail)) == detail,
{
    reveal_strlit("__connection");
    reveal_strlit("__connection_init");
    reveal_strlit("__display_changed");
    reveal_strlit("__restore_push");
    reveal_strlit("__resumed");
    reveal_strlit("__device_event");
    reveal_strlit("__panel_ready");
    reveal_strlit("__engine_failed;");
    reveal_strlit("image;");
    reveal_strlit("audio;");
    reveal_strlit("image");
    reveal_strlit("audio");
    let id = event_ids::failure_text(kind, detail);
    let prefix = events::ENGINE_FAILED_EVENT@;
    let payload = match kind {
        FailureKind::Image => "image;"@ + detail,
        FailureKind::Audio => "audio;"@ + detail,
        FailureKind::Other => detail,
    };
    assert(id =~= prefix + payload);
    assert(id.subrange(0, prefix.len() as int) =~= prefix);
    assert(id.skip(prefix.len() as int) =~= payload);
    lemma_not(id, "__connection"@, 2);
    lemma_not(id, "__connection_init"@, 2);
    lemma_not(id, "__display_changed"@, 2);
    lemma_not(id, "__restore_push"@, 2);
    lemma_not(id, "__resumed"@, 2);
    lemma_not(id, "__device_event"@, 2);
    lemma_not(id, "__panel_ready"@, 2);
    match kind {
        FailureKind::Image => {
            text::lemma_first_of(payload, ';', 5);
            assert(payload.take(5) =~= "image"@);
            assert(payload.skip(6) =~= detail);
        },
        FailureKind::Audio => {
            text::lemma_first_of(payload, ';', 5);
            assert(payload.take(5) =~= "audio"@);
            assert(payload.skip(6) =~= detail);
            assert("audio"@[0] != "image"@[0]);
        },
        FailureKind::Other => {},
    }
}

/// The color that the picker reports is the color that the tray takes up, for
/// the target that the picker was opened for.
pub proof fn picked_colors_are_understood(target: u8, rgb: [u8; 3])
    ensures
        event_ids::event_of(picker::result_text(target, rgb@)) == (if target == 0 {
            Event::AudioPicked(rgb)
        } else {
            Event::SlotPicked(target, rgb)
        }),
{
    reveal_strlit("__connection");
    reveal_strlit("__connection_init");
    reveal_strlit("__display_changed");
    reveal_strlit("__restore_push");
    reveal_strlit("__resumed");
    reveal_strlit("__device_event");
    reveal_strlit("__panel_ready");
    reveal_strlit("__engine_failed;");
    reveal_strlit("__picker_audio:");
    reveal_strlit("__picker_slot_");
    reveal_strlit(":");
    let id = picker::result_text(target, rgb@);
    let list = picker::triple_text(rgb@[0] as int, rgb@[1] as int, rgb@[2] as int);
    picker::triples_read_back(rgb@[0] as int, rgb@[1] as int, rgb@[2] as int);
    lemma_not(id, "__connection"@, 2);
    lemma_not(id, "__connection_init"@, 2);
    lemma_not(id, "__display_changed"@, 2);
    lemma_not(id, "__restore_push"@, 2);
    lemma_not(id, "__resumed"@, 2);
    lemma_not(id, "__device_event"@, 2);
    lemma_not(id, "__panel_ready"@, 3);
    lemma_not(id, "__engine_failed;"@, 2);
    assert(rgb =~= [rgb@[0], rgb@[1], rgb@[2]]);
    if target == 0 {
        let prefix = "__picker_audio:"@;
        assert(id.subrange(0, prefix.len() as int) =~= prefix);
        assert(id.skip(prefix.len() as int) =~= list);
    } else {
        let prefix = "__picker_slot_"@;
        let number = text::decimal_text(target as int);
        text::lemma_decimal(target as int);
        lemma_not(id, "__picker_audio:"@, 9);
        assert(id.subrange(0, prefix.len() as int) =~= prefix);
        let rest = id.skip(prefix.len() as int);
        assert(rest =~= number + ":"@ + list);
        let i = number.len() as int;
        assert forall|k: int| 0 <= k < i implies rest[k] != ':' by {
            assert(rest[k] == number[k] && text::is_digit(number[k]));
        }
        text::lemma_first_of(rest, ':', i);
        assert(rest.take(i) =~= number);
        assert(rest.skip(i + 1) =~= list);
        text::decimal_reads_back(target as int, 255);
    }
}

/// What a prefix and any text behind it stand for, apart from the prefix's own
/// meaning.
proof fn lemma_behind(prefix: Seq<char>, rest: Seq<char>, max: int) -> (id: Seq<char>)
    requires
        prefix.len() >= 4,
        prefix[0] != '_',
    ensures
        id == prefix + rest,
        event_ids::number_after(id, prefix, max) == text::parsed(rest, max),
        event_ids::system_event(id) is None,
        event_ids::picked_event(id) is None,
        id.len() >= prefix.len(),
        forall|i: int| 0 <= i < prefix.len() ==> #[trigger] id[i] == prefix[i],
{
    let id = prefix + rest;
    assert(id.subrange(0, prefix.len() as int) =~= prefix);
    assert(id.skip(prefix.len() as int) =~= rest);
    lemma_no_system(id);
    id
}

/// An id that starts like a tuning is none of a control.
proof fn lemma_no_control(id: Seq<char>)
    requires
        id.len() >= 4,
        id[0] == 'f' || id[0] == 'g' || id[0] == 'l' || (id[0] == 's' && id[1] == 'm') || (id[0]
            == 'b' && id[1] == 'o') || (id[0] == 'a' && id.len() > 5 && id[2] == 'd' && id[5]
            != 'c'),
    ensures
        event_ids::control_event(id) is None,
{
    reveal_strlit("slotcolor_");
    reveal_strlit("bright_");
    reveal_strlit("mode_");
    reveal_strlit("audiocolor_rainbow");
    reveal_strlit("audiocolor_solid");
    reveal_strlit("audiocolor_solid_restore");
    reveal_strlit("autostart");
    lemma_control_words(id);
    lemma_not(id, "mode_"@, 0);
    if id[0] == 's' {
        lemma_not(id, "slotcolor_"@, 1);
    }
    if id[0] == 'b' {
        lemma_not(id, "bright_"@, 1);
    }
    if id[0] == 'a' {
        lemma_not(id, "audiocolor_rainbow"@, 5);
        lemma_not(id, "audiocolor_solid"@, 5);
        lemma_not(id, "audiocolor_solid_restore"@, 5);
        lemma_not(id, "autostart"@, 2);
    }
}

/// The number behind a tuning's word is the preset's position, and nothing else
/// counts: no text, and no number beyond the last preset.
pub proof fn image_tunings_are_numbered(rest: Seq<char>)
    ensures
        event_ids::event_of("smooth_"@ + rest) == (match text::parsed(rest, 3) {
            Some(n) => Event::Smoothing(event_ids::smoothing_of(n)),
            None => Event::Unknown,
        }),
        event_ids::event_of("boost_"@ + rest) == (match text::parsed(rest, 3) {
            Some(n) => Event::Boost(event_ids::boost_of(n)),
            None => Event::Unknown,
        }),
        event_ids::event_of("fps_"@ + rest) == (match text::parsed(rest, 3) {
            Some(n) => Event::Fps(event_ids::fps_of(n)),
            None => Event::Unknown,
        }),
{
    reveal_strlit("smooth_");
    reveal_strlit("boost_");
    reveal_strlit("fps_");
    let smooth = lemma_behind("smooth_"@, rest, 3);
    lemma_tuning_words(smooth);
    lemma_no_control(smooth);
    let boost = lemma_behind("boost_"@, rest, 3);
    lemma_tuning_words(boost);
    lemma_no_control(boost);
    let fps = lemma_behind("fps_"@, rest, 3);
    lemma_tuning_words(fps);
    lemma_no_control(fps);
}

/// The same for the tunings of the audio sync and for the languages.
pub proof fn audio_tunings_are_numbered(rest: Seq<char>)
    ensures
        event_ids::event_of("gain_"@ + rest) == (match text::parsed(rest, 2) {
            Some(n) => Event::Gain(event_ids::gain_of(n)),
            None => Event::Unknown,
        }),
        event_ids::event_of("audioblink_"@ + rest) == (match text::parsed(rest, 2) {
            Some(n) => Event::Blink(event_ids::blink_of(n)),
            None => Event::Unknown,
        }),
        event_ids::event_of("audiorange_"@ + rest) == (match text::parsed(rest, 3) {
            Some(n) => Event::Range(event_ids::range_of(n)),
            None => Event::Unknown,
        }),
        event_ids::event_of("lang_"@ + rest) == (match text::parsed(rest, 10) {
            Some(n) => Event::Language(i18n::language_of(n)),
            None => Event::Unknown,
        }),
{
    reveal_strlit("gain_");
    reveal_strlit("audioblink_");
    reveal_strlit("audiorange_");
    reveal_strlit("lang_");
    let gain = lemma_behind("gain_"@, rest, 2);
    lemma_tuning_words(gain);
    lemma_no_control(gain);
    let blink = lemma_behind("audioblink_"@, rest, 2);
    lemma_tuning_words(blink);
    lemma_no_control(blink);
    let range = lemma_behind("audiorange_"@, rest, 3);
    lemma_tuning_words(range);
    lemma_no_control(range);
    let lang = lemma_behind("lang_"@, rest, 10);
    lemma_tuning_words(lang);
    lemma_no_control(lang);
}

/// The number behind a slot, a level or a mode is that number, up to 255.
pub proof fn controls_are_numbered(rest: Seq<char>)
    ensures
        event_ids::event_of("slotcolor_"@ + rest) == (match text::parsed(rest, 255) {
            Some(n) => Event::SlotColor(n as u8),
            None => Event::Unknown,
        }),
        event_ids::event_of("bright_"@ + rest) == (match text::parsed(rest, 255) {
            Some(n) => Event::Brightness(n as u8),
            None => Event::Unknown,
        }),
        event_ids::event_of("mode_"@ + rest) == (match text::parsed(rest, 255) {
            Some(n) => Event::Mode(n as u8),
            None => Event::Unknown,
        }),
{
    reveal_strlit("slotcolor_");
    reveal_strlit("bright_");
    reveal_strlit("mode_");
    let slot = lemma_behind("slotcolor_"@, rest, 255);
    lemma_is_control(slot);
    lemma_control_words(slot);
    lemma_not(slot, "mode_"@, 0);
    let level = lemma_behind("bright_"@, rest, 255);
    lemma_is_control(level);
    lemma_control_words(level);
    lemma_not(level, "mode_"@, 0);
    let mode = lemma_behind("mode_"@, rest, 255);
    lemma_is_control(mode);
    lemma_control_words(mode);
}

/// Without a known selection every radio posts its event.
pub proof fn unknown_selections_always_post(which: u8)
    ensures
        panel::input_id(PanelInput::Lighting(which), None) is Some,
{
}

/// An id of the picker is none of a thread.
proof fn lemma_of_picker(id: Seq<char>)
    requires
        text::starts_with(id, "__picker_"@),
    ensures
        event_ids::system_event(id) is None,
        event_ids::tuning_event(id) is None,
        event_ids::control_event(id) is None,
{
    reveal_strlit("__connection");
    reveal_strlit("__connection_init");
    reveal_strlit("__display_changed");
    reveal_strlit("__restore_push");
    reveal_strlit("__resumed");
    reveal_strlit("__device_event");
    reveal_strlit("__panel_ready");
    reveal_strlit("__engine_failed;");
    reveal_strlit("__picker_");
    reveal_strlit("mode_");
    lemma_letters(id, "__picker_"@);
    assert(id[0] == '_' && id[2] == 'p' && id[3] == 'i');
    lemma_not(id, "__connection"@, 2);
    lemma_not(id, "__connection_init"@, 2);
    lemma_not(id, "__display_changed"@, 2);
    lemma_not(id, "__restore_push"@, 2);
    lemma_not(id, "__resumed"@, 2);
    lemma_not(id, "__device_event"@, 2);
    lemma_not(id, "__panel_ready"@, 3);
    lemma_not(id, "__engine_failed;"@, 2);
    lemma_not(id, "mode_"@, 0);
    lemma_tuning_words(id);
    lemma_control_words(id);
}

/// A picked audio color is whatever three numbers stand behind the picker's word;
/// any other text there means nothing.
pub proof fn picked_audio_colors_are_read(list: Seq<char>)
    ensures
        event_ids::event_of("__picker_audio:"@ + list) == (match picker::parsed_triple(list) {
            Some((r, g, b)) => Event::AudioPicked([r as u8, g as u8, b as u8]),
            None => Event::Unknown,
        }),
{
    reveal_strlit("__picker_audio:");
    reveal_strlit("__picker_");
    reveal_strlit("__picker_slot_");
    let id = "__picker_audio:"@ + list;
    assert(id.subrange(0, 15) =~= "__picker_audio:"@);
    assert(id.subrange(0, 9) =~= "__picker_"@);
    assert(id.skip(15) =~= list);
    lemma_of_picker(id);
}

/// A picked slot color names its slot, up to 255, before the first colon and its
/// three numbers behind it.
pub proof fn picked_slot_colors_are_read(slot: Seq<char>, list: Seq<char>)
    requires
        forall|i: int| 0 <= i < slot.len() ==> #[trigger] slot[i] != ':',
    ensures
        event_ids::event_of("__picker_slot_"@ + slot + seq![':'] + list) == (match (
            text::parsed(slot, 255),
            picker::parsed_triple(list),
        ) {
            (Some(n), Some((r, g, b))) => Event::SlotPicked(n as u8, [r as u8, g as u8, b as u8]),
            _ => Event::Unknown,
        }),
{
    reveal_strlit("__picker_audio:");
    reveal_strlit("__picker_");
    reveal_strlit("__picker_slot_");
    let id = "__picker_slot_"@ + slot + seq![':'] + list;
    let rest = slot + seq![':'] + list;
    assert(id.subrange(0, 14) =~= "__picker_slot_"@);
    assert(id.subrange(0, 9) =~= "__picker_"@);
    assert(id.skip(14) =~= rest);
    lemma_not(id, "__picker_audio:"@, 9);
    lemma_of_picker(id);
    assert forall|j: int| 0 <= j < slot.len() implies rest[j] != ':' by {
        assert(rest[j] == slot[j]);
    }
    assert(rest[slot.len() as int] == ':');
    text::lemma_first_of(rest, ':', slot.len() as int);
    assert(rest.take(slot.len() as int) =~= slot);
    assert(rest.skip(slot.len() as int + 1) =~= list);
}

/// An id that no control, thread or picker posts means nothing: none starts with
/// another letter than theirs.
pub proof fn foreign_ids_mean_nothing(id: Seq<char>)
    requires
        id.len() >= 2,
        id[0] != '_' && id[0] != 's' && id[0] != 'b' && id[0] != 'f' && id[0] != 'g' && id[0]
            != 'a' && id[0] != 'l' && id[0] != 't' && id[0] != 'q' && id[0] != 'o' && id[0] != 'p'
            && id[0] != 'm',
    ensures
        event_ids::event_of(id) == Event::Unknown,
        event_ids::reason_of(id) == Seq::<char>::empty(),
{
    reveal_strlit("mode_");
    reveal_strlit("__engine_failed;");
    lemma_no_system(id);
    lemma_tuning_words(id);
    lemma_control_words(id);
    lemma_not(id, "mode_"@, 0);
    lemma_not(id, "__engine_failed;"@, 0);
}

} // verus!
