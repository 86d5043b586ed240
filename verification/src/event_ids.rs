//! Event ids: what the texts that menu, panel and threads post stand for.

use crate::audio::{Blink, DynamicRange};
use crate::events;
use crate::factor;
use crate::factor::Factor;
use crate::i18n;
use crate::menu::{Event, FailureKind};
use crate::picker;
use crate::sampling::SamplingMode;
use crate::text;
use vstd::prelude::*;

verus! {

/// The smoothing presets: instant, low, normal, high.
pub open spec fn smoothing_of(i: int) -> Factor {
    factor::factor(
        if i == 0 {
            factor::ZERO
        } else if i == 1 {
            factor::F_0_2
        } else if i == 2 {
            factor::F_0_4
        } else {
            factor::F_0_6
        },
    )
}

/// The boost presets.
pub open spec fn boost_of(i: int) -> Factor {
    factor::factor(
        if i == 0 {
            factor::F_1_0
        } else if i == 1 {
            factor::F_1_2
        } else if i == 2 {
            factor::F_1_5
        } else {
            factor::F_2_0
        },
    )
}

/// The frame rate presets.
pub open spec fn fps_of(i: int) -> u32 {
    if i == 0 {
        10u32
    } else if i == 1 {
        15u32
    } else if i == 2 {
        30u32
    } else {
        60u32
    }
}

/// The audio sensitivity presets: low, medium, high.
pub open spec fn gain_of(i: int) -> Factor {
    factor::factor(
        if i == 0 {
            factor::F_0_5
        } else if i == 1 {
            factor::F_1_0
        } else {
            factor::F_2_0
        },
    )
}

pub open spec fn blink_of(i: int) -> Blink {
    if i == 0 {
        Blink::Smooth
    } else if i == 1 {
        Blink::Normal
    } else {
        Blink::Fast
    }
}

pub open spec fn range_of(i: int) -> DynamicRange {
    if i == 0 {
        DynamicRange::Compressed
    } else if i == 1 {
        DynamicRange::Normal
    } else if i == 2 {
        DynamicRange::Expanded
    } else {
        DynamicRange::Extreme
    }
}

pub fn smoothing_at(i: u32) -> (v: Factor)
    ensures
        v == smoothing_of(i as int),
{
    Factor {
        bits: match i {
            0 => factor::ZERO,
            1 => factor::F_0_2,
            2 => factor::F_0_4,
            _ => factor::F_0_6,
        },
    }
}

pub fn boost_at(i: u32) -> (v: Factor)
    ensures
        v == boost_of(i as int),
{
    Factor {
        bits: match i {
            0 => factor::F_1_0,
            1 => factor::F_1_2,
            2 => factor::F_1_5,
            _ => factor::F_2_0,
        },
    }
}

pub fn fps_at(i: u32) -> (v: u32)
    ensures
        v == fps_of(i as int),
{
    match i {
        0 => 10,
        1 => 15,
        2 => 30,
        _ => 60,
    }
}

pub fn gain_at(i: u32) -> (v: Factor)
    ensures
        v == gain_of(i as int),
{
    Factor {
        bits: match i {
            0 => factor::F_0_5,
            1 => factor::F_1_0,
            _ => factor::F_2_0,
        },
    }
}

pub fn blink_at(i: u32) -> (v: Blink)
    ensures
        v == blink_of(i as int),
{
    match i {
        0 => Blink::Smooth,
        1 => Blink::Normal,
        _ => Blink::Fast,
    }
}

pub fn range_at(i: u32) -> (v: DynamicRange)
    ensures
        v == range_of(i as int),
{
    match i {
        0 => DynamicRange::Compressed,
        1 => DynamicRange::Normal,
        2 => DynamicRange::Expanded,
        _ => DynamicRange::Extreme,
    }
}

/// The number up to `max` behind a prefix.
pub open spec fn number_after(id: Seq<char>, prefix: Seq<char>, max: int) -> Option<int> {
    if text::starts_with(id, prefix) {
        text::parsed(id.skip(prefix.len() as int), max)
    } else {
        None
    }
}

fn parse_after(id: &str, prefix: &str, max: u32) -> (n: Option<u32>)
    ensures
        match n {
            Some(v) => number_after(id@, prefix@, max as int) == Some(v as int) && v <= max,
            None => number_after(id@, prefix@, max as int) is None,
        },
{
    match text::strip_prefix(id, prefix) {
        Some(rest) => text::parse_number(rest, max),
        None => None,
    }
}

/// The kind in a failure's payload `<kind>;<detail>`.
pub open spec fn failure_kind(payload: Seq<char>) -> FailureKind {
    match text::first_of(payload, ';') {
        Some(i) => if payload.take(i) == "image"@ {
            FailureKind::Image
        } else if payload.take(i) == "audio"@ {
            FailureKind::Audio
        } else {
            FailureKind::Other
        },
        None => FailureKind::Other,
    }
}

/// The text of a failure: the detail of a known kind, else the whole payload.
pub open spec fn failure_reason(payload: Seq<char>) -> Seq<char> {
    match text::first_of(payload, ';') {
        Some(i) => if failure_kind(payload) == FailureKind::Other {
            payload
        } else {
            payload.skip(i + 1)
        },
        None => payload,
    }
}

/// Splits a failure's payload.
pub fn split_failure<'a>(payload: &'a str) -> (out: (FailureKind, &'a str))
    ensures
        out.0 == failure_kind(payload@),
        out.1@ == failure_reason(payload@),
{
    match text::split_once(payload, ';') {
        Some((kind, detail)) => {
            if text::same(kind, "image") {
                (FailureKind::Image, detail)
            } else if text::same(kind, "audio") {
                (FailureKind::Audio, detail)
            } else {
                (FailureKind::Other, payload)
            }
        },
        None => (FailureKind::Other, payload),
    }
}

/// The event that reports a failure.
pub open spec fn failure_text(kind: FailureKind, detail: Seq<char>) -> Seq<char> {
    match kind {
        FailureKind::Image => events::ENGINE_FAILED_EVENT@ + "image;"@ + detail,
        FailureKind::Audio => events::ENGINE_FAILED_EVENT@ + "audio;"@ + detail,
        FailureKind::Other => events::ENGINE_FAILED_EVENT@ + detail,
    }
}

/// The event that reports a failure.
pub fn failure_id(kind: FailureKind, detail: &str) -> (id: String)
    ensures
        id@ == failure_text(kind, detail@),
{
    let mut id = String::from_str(events::ENGINE_FAILED_EVENT);
    match kind {
        FailureKind::Image => id.append("image;"),
        FailureKind::Audio => id.append("audio;"),
        FailureKind::Other => {},
    }
    id.append(detail);
    assert(id@ =~= failure_text(kind, detail@));
    id
}

/// Events of other threads and of the system.
pub open spec fn system_event(id: Seq<char>) -> Option<Event> {
    if id == events::CONNECTION_EVENT@ {
        Some(Event::Connection)
    } else if id == events::CONNECTION_INIT_EVENT@ {
        Some(Event::ConnectionInit)
    } else if id == events::CHANGED_EVENT@ {
        Some(Event::DisplayChanged)
    } else if id == events::RESTORE_PUSH_EVENT@ {
        Some(Event::RestorePush)
    } else if id == events::RESUME_EVENT@ {
        Some(Event::Resumed)
    } else if id == events::DEVICE_EVENT@ {
        Some(Event::DeviceChanged)
    } else if id == events::PANEL_READY_EVENT@ {
        Some(Event::PanelReady)
    } else if text::starts_with(id, events::ENGINE_FAILED_EVENT@) {
        Some(
            Event::EngineFailed(
                failure_kind(id.skip(events::ENGINE_FAILED_EVENT@.len() as int)),
            ),
        )
    } else {
        None
    }
}

fn parse_system(id: &str) -> (event: Option<Event>)
    ensures
        event == system_event(id@),
{
    if text::same(id, events::CONNECTION_EVENT) {
        Some(Event::Connection)
    } else if text::same(id, events::CONNECTION_INIT_EVENT) {
        Some(Event::ConnectionInit)
    } else if text::same(id, events::CHANGED_EVENT) {
        Some(Event::DisplayChanged)
    } else if text::same(id, events::RESTORE_PUSH_EVENT) {
        Some(Event::RestorePush)
    } else if text::same(id, events::RESUME_EVENT) {
        Some(Event::Resumed)
    } else if text::same(id, events::DEVICE_EVENT) {
        Some(Event::DeviceChanged)
    } else if text::same(id, events::PANEL_READY_EVENT) {
        Some(Event::PanelReady)
    } else {
        match text::strip_prefix(id, events::ENGINE_FAILED_EVENT) {
            Some(payload) => Some(Event::EngineFailed(split_failure(payload).0)),
            None => None,
        }
    }
}

/// Events of a picked color.
pub open spec fn picked_event(id: Seq<char>) -> Option<Event> {
    if text::starts_with(id, "__picker_audio:"@) {
        match picker::parsed_triple(id.skip("__picker_audio:"@.len() as int)) {
            Some((r, g, b)) => Some(Event::AudioPicked([r as u8, g as u8, b as u8])),
            None => None,
        }
    } else if text::starts_with(id, "__picker_slot_"@) {
        let rest = id.skip("__picker_slot_"@.len() as int);
        match text::first_of(rest, ':') {
            Some(i) => match (
                text::parsed(rest.take(i), 255),
                picker::parsed_triple(rest.skip(i + 1)),
            ) {
                (Some(slot), Some((r, g, b))) => Some(
                    Event::SlotPicked(slot as u8, [r as u8, g as u8, b as u8]),
                ),
                _ => None,
            },
            None => None,
        }
    } else {
        None
    }
}

fn parse_picked(id: &str) -> (event: Option<Event>)
    ensures
        event == picked_event(id@),
{
    if let Some(list) = text::strip_prefix(id, "__picker_audio:") {
        return match picker::parse_triple(list) {
            Some(rgb) => {
                assert(rgb =~= [rgb@[0], rgb@[1], rgb@[2]]);
                Some(Event::AudioPicked(rgb))
            },
            None => None,
        };
    }
    match text::strip_prefix(id, "__picker_slot_") {
        Some(rest) => match text::split_once(rest, ':') {
            Some((number, list)) => match (
                text::parse_number(number, 255),
                picker::parse_triple(list),
            ) {
                (Some(slot), Some(rgb)) => {
                    assert(rgb =~= [rgb@[0], rgb@[1], rgb@[2]]);
                    Some(Event::SlotPicked(slot as u8, rgb))
                },
                _ => None,
            },
            None => None,
        },
        None => None,
    }
}

/// Events of the tuning presets. The number in an id is the preset's position,
/// so translation never changes ids.
pub open spec fn tuning_event(id: Seq<char>) -> Option<Event> {
    if id == "sampling_5"@ {
        Some(Event::Sampling(SamplingMode::Border5))
    } else if id == "sampling_15"@ {
        Some(Event::Sampling(SamplingMode::Border15))
    } else if id == "sampling_full"@ {
        Some(Event::Sampling(SamplingMode::Full))
    } else if number_after(id, "smooth_"@, 3) is Some {
        Some(Event::Smoothing(smoothing_of(number_after(id, "smooth_"@, 3)->0)))
    } else if number_after(id, "boost_"@, 3) is Some {
        Some(Event::Boost(boost_of(number_after(id, "boost_"@, 3)->0)))
    } else if number_after(id, "fps_"@, 3) is Some {
        Some(Event::Fps(fps_of(number_after(id, "fps_"@, 3)->0)))
    } else if number_after(id, "gain_"@, 2) is Some {
        Some(Event::Gain(gain_of(number_after(id, "gain_"@, 2)->0)))
    } else if number_after(id, "audioblink_"@, 2) is Some {
        Some(Event::Blink(blink_of(number_after(id, "audioblink_"@, 2)->0)))
    } else if number_after(id, "audiorange_"@, 3) is Some {
        Some(Event::Range(range_of(number_after(id, "audiorange_"@, 3)->0)))
    } else if number_after(id, "lang_"@, 10) is Some {
        Some(Event::Language(i18n::language_of(number_after(id, "lang_"@, 10)->0)))
    } else {
        None
    }
}

fn parse_tuning(id: &str) -> (event: Option<Event>)
    ensures
        event == tuning_event(id@),
{
    if text::same(id, "sampling_5") {
        Some(Event::Sampling(SamplingMode::Border5))
    } else if text::same(id, "sampling_15") {
        Some(Event::Sampling(SamplingMode::Border15))
    } else if text::same(id, "sampling_full") {
        Some(Event::Sampling(SamplingMode::Full))
    } else if let Some(i) = parse_after(id, "smooth_", 3) {
        Some(Event::Smoothing(smoothing_at(i)))
    } else if let Some(i) = parse_after(id, "boost_", 3) {
        Some(Event::Boost(boost_at(i)))
    } else if let Some(i) = parse_after(id, "fps_", 3) {
        Some(Event::Fps(fps_at(i)))
    } else if let Some(i) = parse_after(id, "gain_", 2) {
        Some(Event::Gain(gain_at(i)))
    } else if let Some(i) = parse_after(id, "audioblink_", 2) {
        Some(Event::Blink(blink_at(i)))
    } else if let Some(i) = parse_after(id, "audiorange_", 3) {
        Some(Event::Range(range_at(i)))
    } else if let Some(i) = parse_after(id, "lang_", 10) {
        Some(Event::Language(i18n::language_at(i)))
    } else {
        None
    }
}

/// Events of the other controls.
pub open spec fn control_event(id: Seq<char>) -> Option<Event> {
    if id == "toggle_image_sync"@ {
        Some(Event::ToggleImageSync)
    } else if id == "toggle_audio"@ {
        Some(Event::ToggleAudio)
    } else if id == "quit"@ {
        Some(Event::Quit)
    } else if id == "on"@ {
        Some(Event::On)
    } else if id == "off"@ {
        Some(Event::Off)
    } else if id == "open_panel"@ {
        Some(Event::OpenPanel)
    } else if id == "audiocolor_rainbow"@ || id == "pv_audiorainbow_on"@ {
        Some(Event::AudioRainbow)
    } else if id == "audiocolor_solid"@ {
        Some(Event::AudioSolid)
    } else if id == "audiocolor_solid_restore"@ {
        Some(Event::AudioSolidRestore)
    } else if id == "autostart"@ || id == "pv_autostart"@ {
        Some(Event::Autostart)
    } else if number_after(id, "slotcolor_"@, 255) is Some {
        Some(Event::SlotColor(number_after(id, "slotcolor_"@, 255)->0 as u8))
    } else if number_after(id, "bright_"@, 255) is Some {
        Some(Event::Brightness(number_after(id, "bright_"@, 255)->0 as u8))
    } else if number_after(id, "mode_"@, 255) is Some {
        Some(Event::Mode(number_after(id, "mode_"@, 255)->0 as u8))
    } else {
        None
    }
}

fn parse_control(id: &str) -> (event: Option<Event>)
    ensures
        event == control_event(id@),
{
    if text::same(id, "toggle_image_sync") {
        Some(Event::ToggleImageSync)
    } else if text::same(id, "toggle_audio") {
        Some(Event::ToggleAudio)
    } else if text::same(id, "quit") {
        Some(Event::Quit)
    } else if text::same(id, "on") {
        Some(Event::On)
    } else if text::same(id, "off") {
        Some(Event::Off)
    } else if text::same(id, "open_panel") {
        Some(Event::OpenPanel)
    } else if text::same(id, "audiocolor_rainbow") || text::same(id, "pv_audiorainbow_on") {
        Some(Event::AudioRainbow)
    } else if text::same(id, "audiocolor_solid") {
        Some(Event::AudioSolid)
    } else if text::same(id, "audiocolor_solid_restore") {
        Some(Event::AudioSolidRestore)
    } else if text::same(id, "autostart") || text::same(id, "pv_autostart") {
        Some(Event::Autostart)
    } else if let Some(slot) = parse_after(id, "slotcolor_", 255) {
        Some(Event::SlotColor(slot as u8))
    } else if let Some(level) = parse_after(id, "bright_", 255) {
        Some(Event::Brightness(level as u8))
    } else if let Some(mode) = parse_after(id, "mode_", 255) {
        Some(Event::Mode(mode as u8))
    } else {
        None
    }
}

/// What an id stands for.
pub open spec fn event_of(id: Seq<char>) -> Event {
    match system_event(id) {
        Some(event) => event,
        None => match picked_event(id) {
            Some(event) => event,
            None => match tuning_event(id) {
                Some(event) => event,
                None => match control_event(id) {
                    Some(event) => event,
                    None => Event::Unknown,
                },
            },
        },
    }
}

/// What an id stands for.
pub fn parse_event(id: &str) -> (event: Event)
    ensures
        event == event_of(id@),
{
    if let Some(event) = parse_system(id) {
        return event;
    }
    if let Some(event) = parse_picked(id) {
        return event;
    }
    if let Some(event) = parse_tuning(id) {
        return event;
    }
    match parse_control(id) {
        Some(event) => event,
        None => Event::Unknown,
    }
}

/// The text of an engine failure in an id; empty in others.
pub open spec fn reason_of(id: Seq<char>) -> Seq<char> {
    if text::starts_with(id, events::ENGINE_FAILED_EVENT@) {
        failure_reason(id.skip(events::ENGINE_FAILED_EVENT@.len() as int))
    } else {
        Seq::empty()
    }
}

/// The text of an engine failure in an id; empty in others.
pub fn parse_reason<'a>(id: &'a str) -> (reason: &'a str)
    ensures
        reason@ == reason_of(id@),
{
    match text::strip_prefix(id, events::ENGINE_FAILED_EVENT) {
        Some(payload) => split_failure(payload).1,
        None => {
            let empty = id.substring_char(0, 0);
            assert(empty@ =~= Seq::<char>::empty());
            empty
        },
    }
}

} // verus!
