//! What holds of every grab of a frame, and of how the strip's screen is found.

use crate::capture;
use crate::capture::{
    CaptureError, DesktopMode, GrabAction, GrabEvent, GrabPhase, Grabber, OutputInfo, Rect,
};
use crate::compute::Block;
use crate::settings;
use crate::text;
use vstd::prelude::*;

verus! {

/// A frame with new content: the mode is checked, a frame that is still held is
/// given back, the new one is acquired, its dirty rectangles are read, its blocks
/// averaged, and it is given back. The verdict carries what the rectangles said.
pub proof fn new_frames_run_through(mode: DesktopMode, held: bool, time: i64, hit: bool)
    requires
        time != 0,
    ensures
        ({
            let g = Grabber { mode, held, phase: GrabPhase::Idle };
            let a = capture::grabbed(g, GrabEvent::Begin);
            let b = capture::grabbed(a.0, GrabEvent::Described(mode));
            let c = if held {
                capture::grabbed(b.0, GrabEvent::Released)
            } else {
                b
            };
            let d = capture::grabbed(
                c.0,
                GrabEvent::Acquired { present_time: time, has_resource: true },
            );
            let e = capture::grabbed(d.0, GrabEvent::DirtyRects(hit));
            let f = capture::grabbed(e.0, GrabEvent::Averaged(true));
            let h = capture::grabbed(f.0, GrabEvent::Released);
            &&& a.1 == GrabAction::Describe
            &&& held ==> b.1 == GrabAction::Release
            &&& c.1 == GrabAction::Acquire && !c.0.held
            &&& d.1 == GrabAction::QueryDirtyRects && d.0.held
            &&& e.1 == GrabAction::Average && e.0.held
            &&& f.1 == GrabAction::Release && f.0.held
            &&& h.1 == (GrabAction::NewFrame { dirty_hit: hit })
            &&& h.0 == (Grabber { mode, held: false, phase: GrabPhase::Idle })
        }),
{
}

/// Rectangles that need more room are read once more; whatever else fails there
/// counts as a hit.
pub proof fn rectangles_are_read_twice_at_most(g: Grabber, code: u32, hit: bool)
    ensures
        ({
            let asked = Grabber { phase: GrabPhase::Querying, ..g };
            let again = Grabber { phase: GrabPhase::Requerying, ..g };
            let counts = Grabber { phase: GrabPhase::Averaging { dirty_hit: true }, ..g };
            let known = Grabber { phase: GrabPhase::Averaging { dirty_hit: hit }, ..g };
            &&& code == 0x887A0003 ==> capture::grabbed(asked, GrabEvent::DirtyFailed(code)) == (
                again,
                GrabAction::QueryAgain,
            )
            &&& code != 0x887A0003 ==> capture::grabbed(asked, GrabEvent::DirtyFailed(code)) == (
                counts,
                GrabAction::Average,
            )
            &&& capture::grabbed(again, GrabEvent::DirtyFailed(code)) == (
                counts,
                GrabAction::Average,
            )
            &&& capture::grabbed(again, GrabEvent::DirtyRects(hit)) == (
                known,
                GrabAction::Average,
            )
        }),
{
}

/// A wait that timed out is no frame; an access that was lost, or a call that
/// the duplication refuses, calls for a new duplication; anything else failed.
pub proof fn failed_waits_are_told_apart(g: Grabber, code: u32)
    requires
        g.phase is Acquiring,
    ensures
        ({
            let (after, action) = capture::grabbed(g, GrabEvent::AcquireFailed(code));
            &&& after == (Grabber { phase: GrabPhase::Idle, ..g })
            &&& action is NoFrame <==> code == 0x887A0027
            &&& action is AccessLost <==> code == 0x887A0026 || code == 0x887A0001
            &&& action is NoFrame || action is AccessLost || action is Failed
        }),
{
}

/// A frame without an image, and one whose blocks could not be averaged, stay
/// held until the next grab gives them back.
pub proof fn broken_frames_stay_held(g: Grabber, time: i64, hit: bool)
    requires
        time != 0,
    ensures
        ({
            let none = capture::grabbed(
                Grabber { phase: GrabPhase::Acquiring, ..g },
                GrabEvent::Acquired { present_time: time, has_resource: false },
            );
            let failed = capture::grabbed(
                Grabber { held: true, phase: GrabPhase::Averaging { dirty_hit: hit }, ..g },
                GrabEvent::Averaged(false),
            );
            &&& none == (
                Grabber { held: true, phase: GrabPhase::Idle, ..g },
                GrabAction::NoResource,
            )
            &&& failed == (
                Grabber { held: true, phase: GrabPhase::Idle, ..g },
                GrabAction::Failed,
            )
        }),
{
}

/// The mode that a grabber watches never changes, and an event out of order ends
/// the grab as failed.
pub proof fn grabs_keep_their_mode(g: Grabber, event: GrabEvent)
    ensures
        capture::grabbed(g, event).0.mode == g.mode,
        event is Begin && !(g.phase is Idle) ==> capture::grabbed(g, event) == (
            Grabber { phase: GrabPhase::Idle, ..g },
            GrabAction::Failed,
        ),
        event is Described && !(g.phase is Describing) ==> capture::grabbed(g, event) == (
            Grabber { phase: GrabPhase::Idle, ..g },
            GrabAction::Failed,
        ),
        event is Released && !(g.phase is Releasing || g.phase is Skipping
            || g.phase is Finishing) ==> capture::grabbed(g, event) == (
            Grabber { phase: GrabPhase::Idle, ..g },
            GrabAction::Failed,
        ),
        (event is Acquired || event is AcquireFailed) && !(g.phase is Acquiring)
            ==> capture::grabbed(g, event) == (
            Grabber { phase: GrabPhase::Idle, ..g },
            GrabAction::Failed,
        ),
        (event is DirtyRects || event is DirtyFailed) && !(g.phase is Querying
            || g.phase is Requerying) ==> capture::grabbed(g, event) == (
            Grabber { phase: GrabPhase::Idle, ..g },
            GrabAction::Failed,
        ),
        event is Averaged && !(g.phase is Averaging) ==> capture::grabbed(g, event) == (
            Grabber { phase: GrabPhase::Idle, ..g },
            GrabAction::Failed,
        ),
{
}

/// The screen to sample: of the flagged ones the first that is primary, and
/// without one the first. There is one such screen.
pub proof fn primary_screens_come_first(
    outputs: Seq<OutputInfo>,
    flagged: spec_fn(int) -> bool,
    i: int,
    j: int,
)
    requires
        capture::is_pick(outputs, flagged, i),
        0 <= j < outputs.len(),
        flagged(j),
    ensures
        flagged(i),
        outputs[j].is_primary ==> outputs[i].is_primary && i <= j,
        !outputs[i].is_primary ==> i <= j,
        capture::is_pick(outputs, flagged, j) ==> i == j,
{
}

/// The first flagged screen that is primary is picked; where none is primary, the
/// first flagged one is.
pub proof fn flagged_screens_are_picked(
    outputs: Seq<OutputInfo>,
    flagged: spec_fn(int) -> bool,
    i: int,
)
    requires
        0 <= i < outputs.len(),
        flagged(i),
        outputs[i].is_primary ==> forall|k: int|
            0 <= k < i ==> !(#[trigger] flagged(k) && outputs[k].is_primary),
        !outputs[i].is_primary ==> forall|k: int|
            0 <= k < outputs.len() && #[trigger] flagged(k) ==> !outputs[k].is_primary && k >= i,
    ensures
        capture::is_pick(outputs, flagged, i),
{
}

/// The models that carry the strip are known by their names, wherever these
/// stand in the monitor's.
pub proof fn strip_models_are_known_by_name(before: Seq<char>, after: Seq<char>, s: Seq<char>)
    ensures
        capture::is_rgb_text(before + "27gn950"@ + after),
        capture::is_rgb_text(before + "38gn950"@ + after),
        capture::is_rgb_text(before + "38gl950g"@ + after),
        capture::is_rgb_text(s) ==> text::occurs(s, "27gn950"@) || text::occurs(s, "38gn950"@)
            || text::occurs(s, "38gl950g"@),
{
    crate::text_laws::texts_occur_where_they_stand(before, "27gn950"@, after, s);
    crate::text_laws::texts_occur_where_they_stand(before, "38gn950"@, after, s);
    crate::text_laws::texts_occur_where_they_stand(before, "38gl950g"@, after, s);
}

/// The model behind a device name is that of the first entry of the name.
pub proof fn models_are_found_by_name(
    models: Seq<(String, Option<String>)>,
    name: Seq<char>,
    i: int,
)
    requires
        0 <= i <= models.len(),
        forall|j: int| 0 <= j < i ==> (#[trigger] models[j]).0@ != name,
        i < models.len() ==> models[i].0@ == name,
    ensures
        i == models.len() ==> capture::model_of(models, name) is None,
        i < models.len() && models[i].1 is None ==> capture::model_of(models, name) is None,
        i < models.len() && models[i].1 is Some ==> capture::model_of(models, name) == Some(
            models[i].1->0@,
        ),
    decreases models.len(),
{
    if i > 0 {
        assert(models[0].0@ != name);
        models_are_found_by_name(models.skip(1), name, i - 1);
    }
}

/// A field's text ends at its first NUL, or with the field.
pub proof fn fields_end_at_the_first_nul(field: Seq<u16>)
    ensures
        ({
            let n = capture::nul_position(field);
            &&& 0 <= n <= field.len()
            &&& forall|i: int| 0 <= i < n ==> field[i] != 0
            &&& n < field.len() ==> field[n] == 0
        }),
    decreases field.len(),
{
    if field.len() > 0 && field[0] != 0 {
        fields_end_at_the_first_nul(field.skip(1));
        let n = capture::nul_position(field);
        assert forall|i: int| 1 <= i < n implies field[i] != 0 by {
            assert(field.skip(1)[i - 1] == field[i]);
        }
    }
}

/// Half a surrogate pair without its other half reads as U+FFFD, and what
/// follows is read on.
pub proof fn lone_halves_are_replaced(unit: u16, rest: Seq<u16>)
    requires
        0xD800 <= unit <= 0xDFFF,
        rest.len() == 0 || unit >= 0xDC00 || !(0xDC00 <= rest[0] <= 0xDFFF),
    ensures
        capture::utf16_text(seq![unit] + rest) == seq!['\u{FFFD}'] + capture::utf16_text(rest),
{
    let all = seq![unit] + rest;
    assert(all.skip(1) =~= rest);
}

/// Capitals become small letters, 32 places on; nothing else changes.
pub proof fn capitals_become_small(s: Seq<char>, i: int)
    requires
        0 <= i < s.len(),
    ensures
        capture::small_letters(s).len() == s.len(),
        65 <= s[i] as int <= 90 ==> capture::small_letters(s)[i] as int == s[i] as int + 32,
        !(65 <= s[i] as int <= 90) ==> capture::small_letters(s)[i] == s[i],
{
    lemma_small(s[i]);
}

proof fn lemma_small(c: char)
    ensures
        65 <= c as int <= 90 ==> capture::small_letter(c) as int == c as int + 32,
        !(65 <= c as int <= 90) ==> capture::small_letter(c) == c,
{
}

/// The two errors without a message of their own have fixed words; the others
/// say their message.
pub proof fn errors_say_what_happened(e: CaptureError)
    ensures
        e is AccessLost ==> capture::error_text(e) == "duplication access lost"@,
        e is ModeChanged ==> capture::error_text(e)
            == "desktop mode changed under the duplication"@,
        e matches CaptureError::Gpu(msg) ==> capture::error_text(e) == msg@,
        e matches CaptureError::Other(msg) ==> capture::error_text(e) == msg@,
{
}

/// A format's number is signed: one with the top bit set is written below zero.
pub proof fn formats_are_signed(format: u32)
    ensures
        format < 0x8000_0000 ==> capture::format_text(format) == text::decimal_text(format as int),
        format >= 0x8000_0000 ==> capture::format_text(format) == "-"@ + text::decimal_text(
            0x1_0000_0000 - format,
        ),
        capture::is_curable(format) <==> format == 0x887A0026 || format == 0x887A0001,
        capture::FORMAT_BGRA8 == 87 && capture::FORMAT_FP16 == 10,
{
}

/// Every rectangle counts, and every block: one pair that touches is a hit, and
/// without one there is none.
pub proof fn every_pair_counts(dirty: Seq<Rect>, blocks: Seq<Block>, i: int, j: int)
    requires
        0 <= i < dirty.len(),
        0 <= j < blocks.len(),
    ensures
        capture::touches(dirty[i], blocks[j]) ==> capture::overlaps(dirty, blocks),
        (forall|a: int, b: int|
            0 <= a < dirty.len() && 0 <= b < blocks.len() ==> !capture::touches(
                #[trigger] dirty[a],
                #[trigger] blocks[b],
            )) ==> !capture::overlaps(dirty, blocks),
{
    if capture::touches(dirty[i], blocks[j]) {
        assert(capture::touches_any(dirty[i], blocks));
    }
}

/// An output carries the strip when the model behind its name is one that does.
pub proof fn strips_are_found_by_model(
    output: OutputInfo,
    models: Seq<(String, Option<String>)>,
    outputs: Seq<OutputInfo>,
    i: int,
)
    ensures
        capture::carries_strip(output, models) <==> capture::model_of(models, output.name@) is Some
            && capture::is_rgb_text(
            capture::lowercased(capture::model_of(models, output.name@)->0),
        ),
        capture::strip_flags(outputs, models)(i) <==> capture::carries_strip(outputs[i], models),
{
}

/// A field that holds a text and a NUL reads as the text, whatever stands behind
/// the NUL; one that is full reads as its whole text.
pub proof fn fields_hold_their_text(s: Seq<char>, behind: Seq<u16>)
    requires
        forall|i: int| 0 <= i < s.len() ==> #[trigger] s[i] as int != 0,
    ensures
        capture::wide_text(settings::utf16(s) + seq![0u16] + behind) == s,
        capture::wide_text(settings::utf16(s)) == s,
{
    let units = settings::utf16(s);
    let field = units + seq![0u16] + behind;
    lemma_no_nul(s);
    capture::texts_survive_utf16(s);
    fields_end_at_the_first_nul(field);
    fields_end_at_the_first_nul(units);
    let n = capture::nul_position(field);
    assert(n == units.len()) by {
        assert(field[units.len() as int] == 0);
        if n < units.len() {
            assert(field[n] == units[n]);
        }
    }
    assert(field.take(n) =~= units);
    let m = capture::nul_position(units);
    assert(m == units.len());
    assert(units.take(m) =~= units);
}

proof fn lemma_no_nul(s: Seq<char>)
    requires
        forall|i: int| 0 <= i < s.len() ==> #[trigger] s[i] as int != 0,
    ensures
        forall|i: int| 0 <= i < settings::utf16(s).len() ==> #[trigger] settings::utf16(s)[i] != 0,
    decreases s.len(),
{
    if s.len() > 0 {
        let shorter = s.drop_last();
        assert forall|i: int| 0 <= i < shorter.len() implies #[trigger] shorter[i] as int
            != 0 by {
            assert(s[i] as int != 0);
        }
        lemma_no_nul(shorter);
        assert(s[s.len() - 1] as int != 0);
        settings::characters_are_units(s.last());
        let tail = settings::utf16_of(s.last());
        assert forall|i: int| 0 <= i < settings::utf16(s).len() implies #[trigger] settings::utf16(
            s,
        )[i] != 0 by {
            let n = settings::utf16(shorter).len();
            if i >= n {
                assert(settings::utf16(s)[i] == tail[i - n]);
            }
        }
    }
}

} // verus!
