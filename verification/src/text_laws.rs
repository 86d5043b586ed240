//! What holds of texts, numbers and ids, whatever they are.

use crate::audio::{Blink, DynamicRange};
use crate::event_ids;
use crate::factor::Factor;
use crate::menu::{Event, FailureKind};
use crate::text;
use vstd::prelude::*;

verus! {

/// A text starts with what stands at its front, and with nothing else of that
/// length; what follows is the rest.
pub proof fn prefixes_come_first(prefix: Seq<char>, rest: Seq<char>, s: Seq<char>)
    ensures
        text::starts_with(prefix + rest, prefix),
        (prefix + rest).skip(prefix.len() as int) == rest,
        text::starts_with(s, prefix) ==> s == prefix + s.skip(prefix.len() as int),
{
    assert((prefix + rest).subrange(0, prefix.len() as int) =~= prefix);
    assert((prefix + rest).skip(prefix.len() as int) =~= rest);
    if text::starts_with(s, prefix) {
        assert forall|i: int| 0 <= i < prefix.len() implies prefix[i] == s[i] by {
            assert(s.subrange(0, prefix.len() as int)[i] == s[i]);
        }
        assert(s =~= prefix + s.skip(prefix.len() as int));
    }
}

/// A text occurs wherever it stands in another, and only there.
pub proof fn texts_occur_where_they_stand(a: Seq<char>, t: Seq<char>, b: Seq<char>, s: Seq<char>)
    ensures
        text::occurs(a + t + b, t),
        text::occurs(s, t) ==> exists|i: int|
            0 <= i && i + t.len() <= s.len() && s == #[trigger] s.take(i) + t + s.skip(
                i + t.len(),
            ),
{
    assert((a + t + b).subrange(a.len() as int, a.len() as int + t.len()) =~= t);
    assert(text::holds_at(a + t + b, t, a.len() as int));
    if text::occurs(s, t) {
        let i = choose|i: int| text::holds_at(s, t, i);
        assert forall|k: int| 0 <= k < t.len() implies t[k] == s[i + k] by {
            assert(s.subrange(i, i + t.len())[k] == s[i + k]);
        }
        assert(s =~= s.take(i) + t + s.skip(i + t.len()));
    }
}

/// The first occurrence of a character: it stands there and nowhere before.
pub proof fn first_means_first(s: Seq<char>, c: char)
    ensures
        match text::first_of(s, c) {
            Some(i) => 0 <= i < s.len() && s[i] == c && forall|j: int| 0 <= j < i ==> s[j] != c,
            None => forall|j: int| 0 <= j < s.len() ==> s[j] != c,
        },
    decreases s.len(),
{
    if s.len() > 0 && s[0] != c {
        first_means_first(s.skip(1), c);
        assert forall|j: int| 1 <= j < s.len() implies s[j] == s.skip(1)[j - 1] by {}
    }
}

/// Digits write a number in base ten: one more digit makes it ten times as large
/// and adds the digit.
pub proof fn digits_count_by_tens(s: Seq<char>, c: char)
    ensures
        text::digits_value(Seq::empty()) == 0,
        text::digits_value(s.push(c)) == 10 * text::digits_value(s) + (c as int - 48),
        text::is_digit(c) <==> 48 <= c as int <= 57,
{
    assert(s.push(c).drop_last() =~= s);
}

/// A number is read from digits alone, at least one, with or without a plus sign
/// ahead; not from anything else, and not above the limit.
pub proof fn numbers_are_read_from_digits(s: Seq<char>, max: int)
    ensures
        text::parsed(Seq::empty(), max) is None,
        text::parsed(seq!['+'], max) is None,
        s.len() > 0 && text::all_digits(s) && text::digits_value(s) <= max ==> text::parsed(s, max)
            == Some(text::digits_value(s)) && text::parsed(seq!['+'] + s, max) == Some(
            text::digits_value(s),
        ),
        text::all_digits(s) && text::digits_value(s) > max ==> text::parsed(s, max) is None
            && text::parsed(seq!['+'] + s, max) is None,
        !text::all_digits(s) ==> text::parsed(seq!['+'] + s, max) is None,
        !text::all_digits(s) && s[0] != '+' ==> text::parsed(s, max) is None,
        text::parsed(s, max) matches Some(n) ==> n <= max,
{
    let signed = seq!['+'] + s;
    assert(signed.skip(1) =~= s);
    assert(text::unsigned(signed) == s);
    assert(seq!['+'].skip(1) =~= Seq::<char>::empty());
    if s.len() > 0 && text::all_digits(s) {
        assert(text::is_digit(s[0]));
    }
}

/// A number is written without needless zeros.
pub proof fn decimals_have_no_leading_zero(n: int)
    requires
        n >= 0,
    ensures
        text::decimal_text(n).len() >= 1,
        n > 0 ==> text::decimal_text(n)[0] != '0',
        n == 0 ==> text::decimal_text(n) == seq!['0'],
        forall|i: int|
            0 <= i < text::decimal_text(n).len() ==> 48 <= (
            #[trigger] text::decimal_text(n)[i]) as int <= 57,
    decreases n,
{
    text::lemma_decimal(n);
    let s = text::decimal_text(n);
    assert forall|i: int| 0 <= i < s.len() implies 48 <= (#[trigger] s[i]) as int <= 57 by {
        assert(text::is_digit(s[i]));
    }
    if n >= 10 {
        decimals_have_no_leading_zero(n / 10);
    } else {
        assert(text::digit_char(n) as int == 48 + n);
    }
}

/// Two numbers that are written alike are the same.
pub proof fn decimals_are_told_apart(a: int, b: int)
    requires
        0 <= a,
        0 <= b,
        text::decimal_text(a) == text::decimal_text(b),
    ensures
        a == b,
{
    text::lemma_decimal(a);
    text::lemma_decimal(b);
}

/// A template with nothing to fill is kept as it is, a placeholder becomes the
/// argument, and so does every one behind it.
pub proof fn placeholders_are_filled(head: Seq<char>, tail: Seq<char>, arg: Seq<char>)
    requires
        forall|i: int| 0 <= i < head.len() ==> #[trigger] head[i] != '{',
    ensures
        text::filled(head, arg) == head,
        text::filled(head + seq!['{', '0', '}'] + tail, arg) == head + arg + text::filled(
            tail,
            arg,
        ),
    decreases head.len(),
{
    let mark = seq!['{', '0', '}'];
    let whole = head + mark + tail;
    if head.len() == 0 {
        assert(whole =~= mark + tail);
        assert(whole.subrange(0, 3) =~= text::placeholder());
        assert(whole.skip(3) =~= tail);
        assert(text::filled(whole, arg) == arg + text::filled(tail, arg));
        assert(head + arg =~= arg);
    } else {
        let rest = head.skip(1);
        placeholders_are_filled(rest, tail, arg);
        assert(head[0] != '{');
        assert(whole[0] == head[0]);
        if text::starts_with(head, text::placeholder()) {
            assert(head.subrange(0, 3)[0] == head[0]);
        }
        if text::starts_with(whole, text::placeholder()) {
            assert(whole.subrange(0, 3)[0] == whole[0]);
        }
        assert(whole.skip(1) =~= rest + mark + tail);
        assert(seq![head[0]] + rest =~= head);
        assert(seq![head[0]] + (rest + arg + text::filled(tail, arg)) =~= head + arg
            + text::filled(tail, arg));
    }
}

/// The presets by position, as single-precision bits: smoothing 0, 0.2, 0.4 and
/// 0.6; boost 1, 1.2, 1.5 and 2; 10, 15, 30 and 60 frames a second; gain 0.5, 1
/// and 2; three blinks; four ranges.
pub proof fn presets_are_listed_in_order()
    ensures
        event_ids::smoothing_of(0) == (Factor { bits: 0 }),
        event_ids::smoothing_of(1) == (Factor { bits: 0x3E4C_CCCD }),
        event_ids::smoothing_of(2) == (Factor { bits: 0x3ECC_CCCD }),
        event_ids::smoothing_of(3) == (Factor { bits: 0x3F19_999A }),
        event_ids::boost_of(0) == (Factor { bits: 0x3F80_0000 }),
        event_ids::boost_of(1) == (Factor { bits: 0x3F99_999A }),
        event_ids::boost_of(2) == (Factor { bits: 0x3FC0_0000 }),
        event_ids::boost_of(3) == (Factor { bits: 0x4000_0000 }),
        event_ids::fps_of(0) == 10 && event_ids::fps_of(1) == 15,
        event_ids::fps_of(2) == 30 && event_ids::fps_of(3) == 60,
        event_ids::gain_of(0) == (Factor { bits: 0x3F00_0000 }),
        event_ids::gain_of(1) == (Factor { bits: 0x3F80_0000 }),
        event_ids::gain_of(2) == (Factor { bits: 0x4000_0000 }),
        event_ids::blink_of(0) == Blink::Smooth,
        event_ids::blink_of(1) == Blink::Normal,
        event_ids::blink_of(2) == Blink::Fast,
        event_ids::range_of(0) == DynamicRange::Compressed,
        event_ids::range_of(1) == DynamicRange::Normal,
        event_ids::range_of(2) == DynamicRange::Expanded,
        event_ids::range_of(3) == DynamicRange::Extreme,
{
}

/// Higher positions are stronger presets.
pub proof fn higher_presets_grow(i: int, j: int)
    requires
        0 <= i < j < 4,
    ensures
        event_ids::smoothing_of(i).bits < event_ids::smoothing_of(j).bits,
        event_ids::boost_of(i).bits < event_ids::boost_of(j).bits,
        event_ids::fps_of(i) < event_ids::fps_of(j),
        j < 3 ==> event_ids::gain_of(i).bits < event_ids::gain_of(j).bits,
{
}

/// The ids of the system's events.
pub proof fn system_ids_mean_their_events()
    ensures
        event_ids::event_of("__connection"@) == Event::Connection,
        event_ids::event_of("__connection_init"@) == Event::ConnectionInit,
        event_ids::event_of("__display_changed"@) == Event::DisplayChanged,
        event_ids::event_of("__restore_push"@) == Event::RestorePush,
        event_ids::event_of("__resumed"@) == Event::Resumed,
        event_ids::event_of("__device_event"@) == Event::DeviceChanged,
        event_ids::event_of("__panel_ready"@) == Event::PanelReady,
{
    reveal_strlit("__connection");
    reveal_strlit("__connection_init");
    reveal_strlit("__display_changed");
    reveal_strlit("__restore_push");
    reveal_strlit("__resumed");
    reveal_strlit("__device_event");
    reveal_strlit("__panel_ready");
    assert("__connection_init"@.len() != "__connection"@.len());
    assert("__display_changed"@[2] == 'd');
    assert("__restore_push"@[4] == 's' && "__resumed"@[4] == 's');
    assert("__restore_push"@.len() == 14 && "__resumed"@.len() == 9);
    assert("__device_event"@[3] == 'e' && "__display_changed"@[3] == 'i');
    assert("__device_event"@[2] == 'd' && "__restore_push"@[2] == 'r');
    assert("__panel_ready"@[2] == 'p');
}

/// A failure's payload: the kind stands before the first semicolon and the reason
/// behind it. Any other text is a reason of its own.
pub proof fn failures_are_split(detail: Seq<char>, kind: Seq<char>)
    requires
        kind != "image"@,
        kind != "audio"@,
        text::first_of(kind, ';') is None,
    ensures
        event_ids::failure_kind("image"@ + seq![';'] + detail) == FailureKind::Image,
        event_ids::failure_reason("image"@ + seq![';'] + detail) == detail,
        event_ids::failure_kind("audio"@ + seq![';'] + detail) == FailureKind::Audio,
        event_ids::failure_reason("audio"@ + seq![';'] + detail) == detail,
        event_ids::failure_kind(kind + seq![';'] + detail) == FailureKind::Other,
        event_ids::failure_reason(kind + seq![';'] + detail) == kind + seq![';'] + detail,
        event_ids::failure_kind(kind) == FailureKind::Other,
        event_ids::failure_reason(kind) == kind,
{
    reveal_strlit("image");
    reveal_strlit("audio");
    lemma_split("image"@, detail);
    lemma_split("audio"@, detail);
    first_means_first(kind, ';');
    lemma_split(kind, detail);
}

proof fn lemma_split(kind: Seq<char>, detail: Seq<char>)
    requires
        forall|i: int| 0 <= i < kind.len() ==> #[trigger] kind[i] != ';',
    ensures
        ({
            let payload = kind + seq![';'] + detail;
            &&& text::first_of(payload, ';') == Some(kind.len() as int)
            &&& payload.take(kind.len() as int) == kind
            &&& payload.skip(kind.len() as int + 1) == detail
        }),
{
    let payload = kind + seq![';'] + detail;
    assert forall|j: int| 0 <= j < kind.len() implies payload[j] != ';' by {
        assert(payload[j] == kind[j]);
    }
    assert(payload[kind.len() as int] == ';');
    text::lemma_first_of(payload, ';', kind.len() as int);
    assert(payload.take(kind.len() as int) =~= kind);
    assert(payload.skip(kind.len() as int + 1) =~= detail);
}

} // verus!
