//! The items of the tray menu: their order, ids, labels and checks.

use crate::audio;
use crate::audio::AudioColor;
use crate::event_ids;
use crate::i18n;
use crate::i18n::Lang;
use crate::menu::{FailureKind, Status, SyncActive, Ui, UiState};
use crate::sampling::SamplingMode;
use crate::text;
use vstd::prelude::*;

verus! {

/// A submenu.
#[derive(Clone, Copy, PartialEq, Eq, Debug, Structural)]
pub enum Section {
    Mode,
    Settings,
    Brightness,
    Color,
    ImageSync,
    Sampling,
    Smoothing,
    Boost,
    Fps,
    AudioSync,
    Sensitivity,
    AudioColor,
    Blink,
    Range,
    Language,
}

/// One item of the menu. Numbers are levels, modes and slots, or positions in a
/// preset table.
#[derive(Clone, Copy, PartialEq, Eq, Debug, Structural)]
pub enum Item {
    OpenPanel,
    On,
    Off,
    Separator,
    Submenu(Section),
    Mode(u8),
    ToggleImageSync,
    ToggleAudio,
    Brightness(u8),
    SlotColor(u8),
    Sampling(u8),
    Smoothing(u8),
    Boost(u8),
    Fps(u8),
    Gain(u8),
    Rainbow,
    SolidColor,
    Blink(u8),
    Range(u8),
    Autostart,
    Language(u8),
    Status,
    Quit,
}

/// An item at its depth in the tree: the items of a submenu follow it, one
/// deeper.
#[derive(Clone, Copy, PartialEq, Eq, Debug, Structural)]
pub struct Entry {
    pub depth: u8,
    pub item: Item,
}

/// A numbered group of items.
#[derive(Clone, Copy, PartialEq, Eq, Debug, Structural)]
pub enum Group {
    Modes,
    Levels,
    Slots,
    Samplings,
    Smoothings,
    Boosts,
    Rates,
    Gains,
    Blinks,
    Ranges,
    Languages,
}

pub open spec fn member(group: Group, n: int) -> Item {
    match group {
        Group::Modes => Item::Mode(n as u8),
        Group::Levels => Item::Brightness(n as u8),
        Group::Slots => Item::SlotColor(n as u8),
        Group::Samplings => Item::Sampling(n as u8),
        Group::Smoothings => Item::Smoothing(n as u8),
        Group::Boosts => Item::Boost(n as u8),
        Group::Rates => Item::Fps(n as u8),
        Group::Gains => Item::Gain(n as u8),
        Group::Blinks => Item::Blink(n as u8),
        Group::Ranges => Item::Range(n as u8),
        Group::Languages => Item::Language(n as u8),
    }
}

/// Items `first` to `last` of a group.
pub open spec fn members(depth: u8, group: Group, first: int, last: int) -> Seq<Entry> {
    Seq::new(
        (last - first + 1) as nat,
        |i: int| Entry { depth, item: member(group, first + i) },
    )
}

pub open spec fn entry(depth: u8, item: Item) -> Seq<Entry> {
    seq![Entry { depth, item }]
}

/// The six device modes, then the two syncs as toggles.
pub open spec fn mode_section() -> Seq<Entry> {
    entry(0, Item::Submenu(Section::Mode)) + members(1, Group::Modes, 1, 6) + entry(
        1,
        Item::Separator,
    ) + entry(1, Item::ToggleImageSync) + entry(1, Item::ToggleAudio)
}

/// Device brightness, then one section per feature.
pub open spec fn settings_section() -> Seq<Entry> {
    entry(0, Item::Submenu(Section::Settings)) + entry(1, Item::Submenu(Section::Brightness))
        + members(2, Group::Levels, 1, 12) + entry(1, Item::Separator) + entry(
        1,
        Item::Submenu(Section::Color),
    ) + members(2, Group::Slots, 1, 4) + image_section() + audio_section()
}

pub open spec fn image_section() -> Seq<Entry> {
    entry(1, Item::Submenu(Section::ImageSync)) + entry(2, Item::Submenu(Section::Sampling))
        + members(3, Group::Samplings, 0, 2) + entry(2, Item::Submenu(Section::Smoothing))
        + members(3, Group::Smoothings, 0, 3) + entry(2, Item::Submenu(Section::Boost)) + members(
        3,
        Group::Boosts,
        0,
        3,
    ) + entry(2, Item::Submenu(Section::Fps)) + members(3, Group::Rates, 0, 3)
}

pub open spec fn audio_section() -> Seq<Entry> {
    entry(1, Item::Submenu(Section::AudioSync)) + entry(2, Item::Submenu(Section::Sensitivity))
        + members(3, Group::Gains, 0, 2) + entry(2, Item::Submenu(Section::AudioColor)) + entry(
        3,
        Item::Rainbow,
    ) + entry(3, Item::SolidColor) + entry(2, Item::Submenu(Section::Blink)) + members(
        3,
        Group::Blinks,
        0,
        2,
    ) + entry(2, Item::Submenu(Section::Range)) + members(3, Group::Ranges, 0, 3)
}

/// The whole menu, top down.
pub open spec fn layout() -> Seq<Entry> {
    entry(0, Item::OpenPanel) + entry(0, Item::On) + entry(0, Item::Off) + entry(
        0,
        Item::Separator,
    ) + mode_section() + entry(0, Item::Separator) + settings_section() + entry(0, Item::Separator)
        + entry(0, Item::Autostart) + entry(0, Item::Submenu(Section::Language)) + members(
        1,
        Group::Languages,
        0,
        10,
    ) + entry(0, Item::Separator) + entry(0, Item::Status) + entry(0, Item::Separator) + entry(
        0,
        Item::Quit,
    )
}

fn item_of(group: Group, n: u8) -> (item: Item)
    ensures
        item == member(group, n as int),
{
    match group {
        Group::Modes => Item::Mode(n),
        Group::Levels => Item::Brightness(n),
        Group::Slots => Item::SlotColor(n),
        Group::Samplings => Item::Sampling(n),
        Group::Smoothings => Item::Smoothing(n),
        Group::Boosts => Item::Boost(n),
        Group::Rates => Item::Fps(n),
        Group::Gains => Item::Gain(n),
        Group::Blinks => Item::Blink(n),
        Group::Ranges => Item::Range(n),
        Group::Languages => Item::Language(n),
    }
}

fn put(out: &mut Vec<Entry>, depth: u8, item: Item)
    ensures
        final(out)@ == old(out)@ + entry(depth, item),
{
    out.push(Entry { depth, item });
    assert(out@ =~= old(out)@ + entry(depth, item));
}

fn put_all(out: &mut Vec<Entry>, depth: u8, group: Group, first: u8, last: u8)
    requires
        first <= last,
        last < 255,
    ensures
        final(out)@ == old(out)@ + members(depth, group, first as int, last as int),
{
    let mut n: u8 = first;
    assert(out@ =~= old(out)@ + members(depth, group, first as int, first - 1));
    while n <= last
        invariant
            first <= n <= last + 1,
            last < 255,
            out@ == old(out)@ + members(depth, group, first as int, n - 1),
        decreases last + 1 - n,
    {
        let ghost before = out@;
        out.push(Entry { depth, item: item_of(group, n) });
        assert(out@ =~= old(out)@ + members(depth, group, first as int, n as int));
        n = n + 1;
    }
}

/// The items of the menu, top down.
pub fn build_menu() -> (items: Vec<Entry>)
    ensures
        items@ == layout(),
{
    let mut out: Vec<Entry> = Vec::new();
    put(&mut out, 0, Item::OpenPanel);
    put(&mut out, 0, Item::On);
    put(&mut out, 0, Item::Off);
    put(&mut out, 0, Item::Separator);
    put_mode_section(&mut out);
    put(&mut out, 0, Item::Separator);
    put_settings_section(&mut out);
    put(&mut out, 0, Item::Separator);
    put(&mut out, 0, Item::Autostart);
    put(&mut out, 0, Item::Submenu(Section::Language));
    put_all(&mut out, 1, Group::Languages, 0, 10);
    put(&mut out, 0, Item::Separator);
    put(&mut out, 0, Item::Status);
    put(&mut out, 0, Item::Separator);
    put(&mut out, 0, Item::Quit);
    assert(out@ =~= layout());
    out
}

fn put_mode_section(out: &mut Vec<Entry>)
    ensures
        final(out)@ == old(out)@ + mode_section(),
{
    put(out, 0, Item::Submenu(Section::Mode));
    put_all(out, 1, Group::Modes, 1, 6);
    put(out, 1, Item::Separator);
    put(out, 1, Item::ToggleImageSync);
    put(out, 1, Item::ToggleAudio);
    assert(out@ =~= old(out)@ + mode_section());
}

fn put_settings_section(out: &mut Vec<Entry>)
    ensures
        final(out)@ == old(out)@ + settings_section(),
{
    put(out, 0, Item::Submenu(Section::Settings));
    put(out, 1, Item::Submenu(Section::Brightness));
    put_all(out, 2, Group::Levels, 1, 12);
    put(out, 1, Item::Separator);
    put(out, 1, Item::Submenu(Section::Color));
    put_all(out, 2, Group::Slots, 1, 4);
    put_image_section(out);
    put_audio_section(out);
    assert(out@ =~= old(out)@ + settings_section());
}

fn put_image_section(out: &mut Vec<Entry>)
    ensures
        final(out)@ == old(out)@ + image_section(),
{
    put(out, 1, Item::Submenu(Section::ImageSync));
    put(out, 2, Item::Submenu(Section::Sampling));
    put_all(out, 3, Group::Samplings, 0, 2);
    put(out, 2, Item::Submenu(Section::Smoothing));
    put_all(out, 3, Group::Smoothings, 0, 3);
    put(out, 2, Item::Submenu(Section::Boost));
    put_all(out, 3, Group::Boosts, 0, 3);
    put(out, 2, Item::Submenu(Section::Fps));
    put_all(out, 3, Group::Rates, 0, 3);
    assert(out@ =~= old(out)@ + image_section());
}

fn put_audio_section(out: &mut Vec<Entry>)
    ensures
        final(out)@ == old(out)@ + audio_section(),
{
    put(out, 1, Item::Submenu(Section::AudioSync));
    put(out, 2, Item::Submenu(Section::Sensitivity));
    put_all(out, 3, Group::Gains, 0, 2);
    put(out, 2, Item::Submenu(Section::AudioColor));
    put(out, 3, Item::Rainbow);
    put(out, 3, Item::SolidColor);
    put(out, 2, Item::Submenu(Section::Blink));
    put_all(out, 3, Group::Blinks, 0, 2);
    put(out, 2, Item::Submenu(Section::Range));
    put_all(out, 3, Group::Ranges, 0, 3);
    assert(out@ =~= old(out)@ + audio_section());
}

/// An id made of a prefix and a number.
pub open spec fn numbered(prefix: Seq<char>, n: u8) -> Seq<char> {
    prefix + text::decimal_text(n as int)
}

pub fn number_id(prefix: &str, n: u8) -> (id: String)
    ensures
        id@ == numbered(prefix@, n),
{
    let number = text::decimal(n as u32);
    text::join(prefix, number.as_str())
}

/// The id of an item; separators and submenus have none.
pub open spec fn id_of(item: Item) -> Seq<char> {
    match item {
        Item::OpenPanel => "open_panel"@,
        Item::On => "on"@,
        Item::Off => "off"@,
        Item::Separator | Item::Submenu(_) => ""@,
        Item::Mode(n) => numbered("mode_"@, n),
        Item::ToggleImageSync => "toggle_image_sync"@,
        Item::ToggleAudio => "toggle_audio"@,
        Item::Brightness(n) => numbered("bright_"@, n),
        Item::SlotColor(n) => numbered("slotcolor_"@, n),
        Item::Sampling(n) => if n == 0 {
            "sampling_5"@
        } else if n == 1 {
            "sampling_15"@
        } else {
            "sampling_full"@
        },
        Item::Smoothing(n) => numbered("smooth_"@, n),
        Item::Boost(n) => numbered("boost_"@, n),
        Item::Fps(n) => numbered("fps_"@, n),
        Item::Gain(n) => numbered("gain_"@, n),
        Item::Rainbow => "audiocolor_rainbow"@,
        Item::SolidColor => "audiocolor_solid"@,
        Item::Blink(n) => numbered("audioblink_"@, n),
        Item::Range(n) => numbered("audiorange_"@, n),
        Item::Autostart => "autostart"@,
        Item::Language(n) => numbered("lang_"@, n),
        Item::Status => "__status"@,
        Item::Quit => "quit"@,
    }
}

/// The id of an item.
pub fn item_id(item: Item) -> (id: String)
    ensures
        id@ == id_of(item),
{
    match item {
        Item::OpenPanel => String::from_str("open_panel"),
        Item::On => String::from_str("on"),
        Item::Off => String::from_str("off"),
        Item::Separator | Item::Submenu(_) => String::from_str(""),
        Item::Mode(n) => number_id("mode_", n),
        Item::ToggleImageSync => String::from_str("toggle_image_sync"),
        Item::ToggleAudio => String::from_str("toggle_audio"),
        Item::Brightness(n) => number_id("bright_", n),
        Item::SlotColor(n) => number_id("slotcolor_", n),
        Item::Sampling(n) => String::from_str(
            if n == 0 {
                "sampling_5"
            } else if n == 1 {
                "sampling_15"
            } else {
                "sampling_full"
            },
        ),
        Item::Smoothing(n) => number_id("smooth_", n),
        Item::Boost(n) => number_id("boost_", n),
        Item::Fps(n) => number_id("fps_", n),
        Item::Gain(n) => number_id("gain_", n),
        Item::Rainbow => String::from_str("audiocolor_rainbow"),
        Item::SolidColor => String::from_str("audiocolor_solid"),
        Item::Blink(n) => number_id("audioblink_", n),
        Item::Range(n) => number_id("audiorange_", n),
        Item::Autostart => String::from_str("autostart"),
        Item::Language(n) => number_id("lang_", n),
        Item::Status => String::from_str("__status"),
        Item::Quit => String::from_str("quit"),
    }
}

/// Is the item checked?
pub open spec fn checked(item: Item, ui: UiState) -> bool {
    match item {
        Item::Mode(n) => ui.mode == Some(n),
        Item::ToggleImageSync => ui.sync == SyncActive::ImageSync,
        Item::ToggleAudio => ui.sync == SyncActive::Audio,
        Item::Brightness(n) => ui.brightness == Some(n),
        Item::Sampling(n) => ui.params.sampling == (if n == 0 {
            SamplingMode::Border5
        } else if n == 1 {
            SamplingMode::Border15
        } else {
            SamplingMode::Full
        }),
        Item::Smoothing(n) => ui.params.smoothing == event_ids::smoothing_of(n as int),
        Item::Boost(n) => ui.params.boost == event_ids::boost_of(n as int),
        Item::Fps(n) => ui.params.fps == event_ids::fps_of(n as int),
        Item::Gain(n) => ui.audio.gain == event_ids::gain_of(n as int),
        Item::Rainbow => ui.audio.color == AudioColor::Rainbow,
        Item::Blink(n) => ui.audio.blink == event_ids::blink_of(n as int),
        Item::Range(n) => ui.audio.range == event_ids::range_of(n as int),
        Item::Autostart => ui.autostart,
        Item::Language(n) => ui.language == i18n::language_of(n as int),
        _ => false,
    }
}

fn is_some_u8(value: Option<u8>, n: u8) -> (yes: bool)
    ensures
        yes == (value == Some(n)),
{
    match value {
        Some(v) => v == n,
        None => false,
    }
}

/// Is the item checked? The menu is repainted from this after every event.
pub fn sync_menu(item: Item, ui: &UiState) -> (yes: bool)
    requires
        item matches Item::Language(n) ==> n < i18n::LANGUAGE_COUNT,
    ensures
        yes == checked(item, *ui),
{
    match item {
        Item::Mode(n) => is_some_u8(ui.mode, n),
        Item::ToggleImageSync => ui.sync == SyncActive::ImageSync,
        Item::ToggleAudio => ui.sync == SyncActive::Audio,
        Item::Brightness(n) => is_some_u8(ui.brightness, n),
        Item::Sampling(n) => {
            let mode = if n == 0 {
                SamplingMode::Border5
            } else if n == 1 {
                SamplingMode::Border15
            } else {
                SamplingMode::Full
            };
            ui.params.sampling == mode
        },
        Item::Smoothing(n) => ui.params.smoothing == event_ids::smoothing_at(n as u32),
        Item::Boost(n) => ui.params.boost == event_ids::boost_at(n as u32),
        Item::Fps(n) => ui.params.fps == event_ids::fps_at(n as u32),
        Item::Gain(n) => ui.audio.gain == event_ids::gain_at(n as u32),
        Item::Rainbow => audio::same_color(ui.audio.color, AudioColor::Rainbow),
        Item::Blink(n) => ui.audio.blink == event_ids::blink_at(n as u32),
        Item::Range(n) => ui.audio.range == event_ids::range_at(n as u32),
        Item::Autostart => ui.autostart,
        Item::Language(n) => ui.language == i18n::language_at(n as u32),
        _ => false,
    }
}

/// The color that an item's swatch shows: a slot's own, and the solid audio
/// color while it is set.
pub open spec fn swatch_of(item: Item, ui: UiState) -> Option<[u8; 3]> {
    match item {
        Item::SlotColor(n) => if 1 <= n <= 4 {
            ui.slot_colors@[n - 1]
        } else {
            None
        },
        Item::SolidColor => match ui.audio.color {
            AudioColor::Solid(rgb) => Some(rgb),
            AudioColor::Rainbow => None,
        },
        _ => None,
    }
}

pub fn swatch(item: Item, ui: &UiState) -> (color: Option<[u8; 3]>)
    ensures
        color == swatch_of(item, *ui),
{
    match item {
        Item::SlotColor(n) => if 1 <= n && n <= 4 {
            ui.slot_colors[n as usize - 1]
        } else {
            None
        },
        Item::SolidColor => match ui.audio.color {
            AudioColor::Solid(rgb) => Some(rgb),
            AudioColor::Rainbow => None,
        },
        _ => None,
    }
}

/// The bytes of a swatch.
pub open spec fn swatch_pixels(rgb: [u8; 3]) -> Seq<u8> {
    Seq::new(
        1024,
        |i: int|
            if i % 4 == 3 {
                255u8
            } else {
                rgb@[i % 4]
            },
    )
}

/// Every pixel of a swatch is red, green, blue and opaque; there are 16 x 16.
pub proof fn swatches_are_filled(rgb: [u8; 3], x: int, y: int)
    requires
        0 <= x < 16,
        0 <= y < 16,
    ensures
        ({
            let p = 4 * (16 * y + x);
            let bytes = swatch_pixels(rgb);
            &&& bytes.len() == 4 * 16 * 16
            &&& bytes[p] == rgb@[0] && bytes[p + 1] == rgb@[1] && bytes[p + 2] == rgb@[2]
            &&& bytes[p + 3] == 255
        }),
{
}

/// The pixels of a swatch: 16 x 16, opaque, four bytes each.
pub fn swatch_icon(rgb: [u8; 3]) -> (rgba: Vec<u8>)
    ensures
        rgba@ == swatch_pixels(rgb),
        rgba@.len() == 1024,
        forall|i: int|
            0 <= i < 1024 ==> #[trigger] rgba@[i] == (if i % 4 == 3 {
                255u8
            } else {
                rgb@[i % 4]
            }),
{
    let mut rgba: Vec<u8> = Vec::new();
    let mut i: usize = 0;
    while i < 1024
        invariant
            i <= 1024,
            rgba@.len() == i,
            forall|j: int|
                0 <= j < i ==> #[trigger] rgba@[j] == (if j % 4 == 3 {
                    255u8
                } else {
                    rgb@[j % 4]
                }),
        decreases 1024 - i,
    {
        let channel: usize = i % 4;
        if channel == 3 {
            rgba.push(255);
        } else {
            rgba.push(rgb[channel]);
        }
        i = i + 1;
    }
    assert(rgba@ =~= swatch_pixels(rgb));
    rgba
}

/// The display name of a device mode: translated "Static N"; Peaceful and
/// Dynamic keep LG's own names.
pub open spec fn mode_name(mode: u8, lang: Lang) -> Seq<char> {
    if 1 <= mode <= 4 {
        lang.static_mode@ + " "@ + text::decimal_text(mode as int)
    } else if mode == 5 {
        "Peaceful"@
    } else {
        "Dynamic"@
    }
}

pub fn static_mode_name(mode: u8, lang: &Lang) -> (name: String)
    ensures
        name@ == mode_name(mode, *lang),
{
    if 1 <= mode && mode <= 4 {
        let mut name = text::join(lang.static_mode, " ");
        let number = text::decimal(mode as u32);
        name.append(number.as_str());
        name
    } else if mode == 5 {
        String::from_str("Peaceful")
    } else {
        String::from_str("Dynamic")
    }
}

/// The label of the Mode submenu: the active mode by name, or plain while
/// nothing has been set. A running sync wins over the last device mode.
pub open spec fn mode_title(sync: SyncActive, mode: Option<u8>, lang: Lang) -> Seq<char> {
    match (sync, mode) {
        (SyncActive::ImageSync, _) => lang.mode@ + " - "@ + "Image Sync"@,
        (SyncActive::Audio, _) => lang.mode@ + " - "@ + "Audio Sync"@,
        (SyncActive::Off, Some(m)) if 1 <= m <= 6 => lang.mode@ + " - "@ + mode_name(m, lang),
        _ => lang.mode@,
    }
}

pub fn mode_label(sync: SyncActive, mode: Option<u8>, lang: &Lang) -> (label: String)
    ensures
        label@ == mode_title(sync, mode, *lang),
{
    let mut label = String::from_str(lang.mode);
    match sync {
        SyncActive::ImageSync => {
            label.append(" - ");
            label.append("Image Sync");
        },
        SyncActive::Audio => {
            label.append(" - ");
            label.append("Audio Sync");
        },
        SyncActive::Off => {
            if let Some(m) = mode {
                if 1 <= m && m <= 6 {
                    let name = static_mode_name(m, lang);
                    label.append(" - ");
                    label.append(name.as_str());
                }
            }
        },
    }
    label
}

/// The text of a status; a failure's with its reason.
pub open spec fn status_line(status: Status, reason: Seq<char>, lang: Lang) -> Seq<char> {
    match status {
        Status::Disconnected => lang.disconnected@,
        Status::Connected => lang.connected@,
        Status::ImageSync => "Image Sync"@,
        Status::AudioSync => "Audio Sync"@,
        Status::NoScreen => lang.no_screen@,
        Status::Failed(FailureKind::Image) => text::filled(lang.fail_image@, reason),
        Status::Failed(FailureKind::Audio) => text::filled(lang.fail_audio@, reason),
        Status::Failed(FailureKind::Other) => reason,
    }
}

/// The text of a status.
pub fn status_text(status: Status, reason: &str, lang: &Lang) -> (s: String)
    ensures
        s@ == status_line(status, reason@, *lang),
{
    match status {
        Status::Disconnected => String::from_str(lang.disconnected),
        Status::Connected => String::from_str(lang.connected),
        Status::ImageSync => String::from_str("Image Sync"),
        Status::AudioSync => String::from_str("Audio Sync"),
        Status::NoScreen => String::from_str(lang.no_screen),
        Status::Failed(FailureKind::Image) => text::fill(lang.fail_image, reason),
        Status::Failed(FailureKind::Audio) => text::fill(lang.fail_audio, reason),
        Status::Failed(FailureKind::Other) => String::from_str(reason),
    }
}

/// The tray tooltip.
pub fn tooltip_text(ui: &Ui, lang: &Lang) -> (s: String)
    ensures
        s@ == "LG UltraGear RGB Control — "@ + status_line(
            ui.state.tooltip,
            ui.failure@,
            *lang,
        ),
{
    let state = status_text(ui.state.tooltip, ui.failure.as_str(), lang);
    text::join("LG UltraGear RGB Control — ", state.as_str())
}

/// The label of a submenu.
pub open spec fn section_title(section: Section, ui: UiState, lang: Lang) -> Seq<char> {
    match section {
        Section::Mode => mode_title(ui.sync, ui.mode, lang),
        Section::Settings => lang.settings@,
        Section::Brightness => lang.brightness@,
        Section::Color | Section::AudioColor => lang.color@,
        Section::ImageSync => "Image Sync"@,
        Section::Sampling => lang.sampling@,
        Section::Smoothing => lang.smoothing@,
        Section::Boost => lang.boost@,
        Section::Fps => "FPS"@,
        Section::AudioSync => "Audio Sync"@,
        Section::Sensitivity => lang.sensitivity@,
        Section::Blink => lang.blink@,
        Section::Range => lang.dynamic_range@,
        Section::Language => lang.language@,
    }
}

fn section_label(section: Section, ui: &UiState, lang: &Lang) -> (s: String)
    ensures
        s@ == section_title(section, *ui, *lang),
{
    match section {
        Section::Mode => mode_label(ui.sync, ui.mode, lang),
        Section::Settings => String::from_str(lang.settings),
        Section::Brightness => String::from_str(lang.brightness),
        Section::Color | Section::AudioColor => String::from_str(lang.color),
        Section::ImageSync => String::from_str("Image Sync"),
        Section::Sampling => String::from_str(lang.sampling),
        Section::Smoothing => String::from_str(lang.smoothing),
        Section::Boost => String::from_str(lang.boost),
        Section::Fps => String::from_str("FPS"),
        Section::AudioSync => String::from_str("Audio Sync"),
        Section::Sensitivity => String::from_str(lang.sensitivity),
        Section::Blink => String::from_str(lang.blink),
        Section::Range => String::from_str(lang.dynamic_range),
        Section::Language => String::from_str(lang.language),
    }
}

pub open spec fn sampling_title(n: int, lang: Lang) -> Seq<char> {
    if n == 0 {
        lang.border5@
    } else if n == 1 {
        lang.border15@
    } else {
        lang.full_screen@
    }
}

pub fn sampling_label(n: u8, lang: &Lang) -> (s: &'static str)
    ensures
        s@ == sampling_title(n as int, *lang),
{
    match n {
        0 => lang.border5,
        1 => lang.border15,
        _ => lang.full_screen,
    }
}

pub open spec fn smoothing_title(n: int, lang: Lang) -> Seq<char> {
    if n == 0 {
        lang.smooth_instant@
    } else if n == 1 {
        lang.smooth_low@
    } else if n == 2 {
        lang.smooth_normal@
    } else {
        lang.smooth_high@
    }
}

pub fn smoothing_label(n: u8, lang: &Lang) -> (s: &'static str)
    ensures
        s@ == smoothing_title(n as int, *lang),
{
    match n {
        0 => lang.smooth_instant,
        1 => lang.smooth_low,
        2 => lang.smooth_normal,
        _ => lang.smooth_high,
    }
}

pub open spec fn boost_title(n: int) -> Seq<char> {
    if n == 0 {
        "1.0x"@
    } else if n == 1 {
        "1.2x"@
    } else if n == 2 {
        "1.5x"@
    } else {
        "2.0x"@
    }
}

pub fn boost_label(n: u8) -> (s: &'static str)
    ensures
        s@ == boost_title(n as int),
{
    match n {
        0 => "1.0x",
        1 => "1.2x",
        2 => "1.5x",
        _ => "2.0x",
    }
}

pub open spec fn fps_title(n: int) -> Seq<char> {
    if n == 0 {
        "10"@
    } else if n == 1 {
        "15"@
    } else if n == 2 {
        "30"@
    } else {
        "60"@
    }
}

pub fn fps_label(n: u8) -> (s: &'static str)
    ensures
        s@ == fps_title(n as int),
{
    match n {
        0 => "10",
        1 => "15",
        2 => "30",
        _ => "60",
    }
}

pub open spec fn gain_title(n: int, lang: Lang) -> Seq<char> {
    if n == 0 {
        lang.gain_low@
    } else if n == 1 {
        lang.gain_medium@
    } else {
        lang.gain_high@
    }
}

pub fn gain_label(n: u8, lang: &Lang) -> (s: &'static str)
    ensures
        s@ == gain_title(n as int, *lang),
{
    match n {
        0 => lang.gain_low,
        1 => lang.gain_medium,
        _ => lang.gain_high,
    }
}

pub open spec fn blink_title(n: int, lang: Lang) -> Seq<char> {
    if n == 0 {
        lang.blink_smooth@
    } else if n == 1 {
        lang.blink_normal@
    } else {
        lang.blink_fast@
    }
}

pub fn blink_label(n: u8, lang: &Lang) -> (s: &'static str)
    ensures
        s@ == blink_title(n as int, *lang),
{
    match n {
        0 => lang.blink_smooth,
        1 => lang.blink_normal,
        _ => lang.blink_fast,
    }
}

pub open spec fn range_title(n: int, lang: Lang) -> Seq<char> {
    if n == 0 {
        lang.range_compressed@
    } else if n == 1 {
        lang.range_normal@
    } else if n == 2 {
        lang.range_expanded@
    } else {
        lang.range_extreme@
    }
}

pub fn range_label(n: u8, lang: &Lang) -> (s: &'static str)
    ensures
        s@ == range_title(n as int, *lang),
{
    match n {
        0 => lang.range_compressed,
        1 => lang.range_normal,
        2 => lang.range_expanded,
        _ => lang.range_extreme,
    }
}

/// The label of an item.
pub open spec fn title_of(item: Item, ui: UiState, reason: Seq<char>, lang: Lang) -> Seq<char> {
    match item {
        Item::OpenPanel => lang.open_panel@,
        Item::On => lang.on_leds@,
        Item::Off => lang.off_leds@,
        Item::Separator => ""@,
        Item::Submenu(section) => section_title(section, ui, lang),
        Item::Mode(n) => mode_name(n, lang),
        Item::ToggleImageSync => "Image Sync"@,
        Item::ToggleAudio => "Audio Sync"@,
        Item::Brightness(n) => lang.level@ + " "@ + text::decimal_text(n as int),
        Item::SlotColor(n) => "Slot "@ + text::decimal_text(n as int),
        Item::Sampling(n) => sampling_title(n as int, lang),
        Item::Smoothing(n) => smoothing_title(n as int, lang),
        Item::Boost(n) => boost_title(n as int),
        Item::Fps(n) => fps_title(n as int),
        Item::Gain(n) => gain_title(n as int, lang),
        Item::Rainbow => lang.rainbow@,
        Item::SolidColor => lang.solid_color@,
        Item::Blink(n) => blink_title(n as int, lang),
        Item::Range(n) => range_title(n as int, lang),
        Item::Autostart => lang.autostart@,
        Item::Language(n) => i18n::language_text(i18n::language_of(n as int), lang),
        Item::Status => status_line(ui.status, reason, lang),
        Item::Quit => lang.quit@,
    }
}

/// The label of an item.
pub fn item_label(item: Item, ui: &Ui, lang: &Lang) -> (s: String)
    requires
        item matches Item::Language(n) ==> n < i18n::LANGUAGE_COUNT,
    ensures
        s@ == title_of(item, ui.state, ui.failure@, *lang),
{
    match item {
        Item::OpenPanel => String::from_str(lang.open_panel),
        Item::On => String::from_str(lang.on_leds),
        Item::Off => String::from_str(lang.off_leds),
        Item::Separator => String::from_str(""),
        Item::Submenu(section) => section_label(section, &ui.state, lang),
        Item::Mode(n) => static_mode_name(n, lang),
        Item::ToggleImageSync => String::from_str("Image Sync"),
        Item::ToggleAudio => String::from_str("Audio Sync"),
        Item::Brightness(n) => {
            let head = text::join(lang.level, " ");
            number_id(head.as_str(), n)
        },
        Item::SlotColor(n) => number_id("Slot ", n),
        Item::Sampling(n) => String::from_str(sampling_label(n, lang)),
        Item::Smoothing(n) => String::from_str(smoothing_label(n, lang)),
        Item::Boost(n) => String::from_str(boost_label(n)),
        Item::Fps(n) => String::from_str(fps_label(n)),
        Item::Gain(n) => String::from_str(gain_label(n, lang)),
        Item::Rainbow => String::from_str(lang.rainbow),
        Item::SolidColor => String::from_str(lang.solid_color),
        Item::Blink(n) => String::from_str(blink_label(n, lang)),
        Item::Range(n) => String::from_str(range_label(n, lang)),
        Item::Autostart => String::from_str(lang.autostart),
        Item::Language(n) => String::from_str(
            i18n::language_label(i18n::language_at(n as u32), lang),
        ),
        Item::Status => status_text(ui.state.status, ui.failure.as_str(), lang),
        Item::Quit => String::from_str(lang.quit),
    }
}

} // verus!
