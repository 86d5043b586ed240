//! What the monitor sees on the wire, byte by byte, and in which order the bus
//! hands commands on.

use crate::usb;
use crate::usb::{Bus, Link, Phase, Recv, UsbCommand, UsbEvent, WorkerState};
use crate::usb_protocol;
use crate::usb_protocol::RGBColor;
use vstd::prelude::*;

verus! {

/// Does the report hold this payload whole: report id 0, "SC", the payload, "ED"
/// and zeros up to 65 bytes?
pub open spec fn carries(report: Seq<u8>, payload: Seq<u8>) -> bool {
    let n = payload.len() as int;
    &&& n <= 60
    &&& report.len() == 65
    &&& report[0] == 0x00 && report[1] == 0x53 && report[2] == 0x43
    &&& forall|i: int| 0 <= i < n ==> #[trigger] payload[i] == report[3 + i]
    &&& report[3 + n] == 0x45 && report[4 + n] == 0x44
    &&& forall|i: int| 5 + n <= i < 65 ==> #[trigger] report[i] == 0x00
}

/// Byte `k` of a packet: "SC", the payload, "ED", zeros.
pub open spec fn packet_byte(payload: Seq<u8>, k: int) -> u8 {
    if k == 0 {
        0x53
    } else if k == 1 {
        0x43
    } else if k < payload.len() + 2 {
        payload[k - 2]
    } else if k == payload.len() + 2 {
        0x45
    } else if k == payload.len() + 3 {
        0x44
    } else {
        0x00
    }
}

/// A payload travels as the fewest reports that hold it and four bytes more.
/// Every report is an id byte 0 and 64 bytes of the packet, in order.
pub proof fn packets_are_cut_into_reports(payload: Seq<u8>, i: int, j: int)
    requires
        0 <= i < usb_protocol::reports(payload).len(),
        0 <= j < 64,
    ensures
        64 * (usb_protocol::reports(payload).len() - 1) < payload.len() + 4 <= 64
            * usb_protocol::reports(payload).len(),
        usb_protocol::reports(payload)[i].len() == 65,
        usb_protocol::reports(payload)[i][0] == 0x00,
        usb_protocol::reports(payload)[i][1 + j] == packet_byte(payload, 64 * i + j),
{
    let p = usb_protocol::packet(payload);
    assert(p[64 * i + j] == packet_byte(payload, 64 * i + j));
}

/// A payload fits exactly when three reports hold it.
pub proof fn three_reports_are_the_limit(payload: Seq<u8>)
    ensures
        usb_protocol::fits(payload) <==> usb_protocol::reports(payload).len() <= 3,
        usb_protocol::fits(payload) <==> payload.len() <= 188,
{
}

/// A payload of up to 60 bytes is one report.
pub proof fn short_payloads_are_one_report(payload: Seq<u8>)
    requires
        payload.len() <= 60,
    ensures
        usb_protocol::reports(payload).len() == 1,
        carries(usb_protocol::reports(payload)[0], payload),
        usb_protocol::all_reports(seq![payload]) == usb_protocol::reports(payload),
{
    let report = usb_protocol::reports(payload)[0];
    assert forall|k: int| 0 <= k < 64 implies report[1 + k] == packet_byte(payload, k) by {
        packets_are_cut_into_reports(payload, 0, k);
    }
    packets_are_cut_into_reports(payload, 0, 0);
    assert forall|i: int| 0 <= i < payload.len() implies #[trigger] payload[i] == report[3 + i] by {
        assert(report[1 + (2 + i)] == packet_byte(payload, 2 + i));
    }
    let n = payload.len() as int;
    assert(report[1 + (n + 2)] == 0x45);
    assert(report[1 + (n + 3)] == 0x44);
    assert forall|i: int| 5 + n <= i < 65 implies #[trigger] report[i] == 0x00 by {
        assert(report[1 + (i - 1)] == packet_byte(payload, i - 1));
    }
    usb_protocol::lemma_single(payload);
}

/// Does the command put just this one payload on the wire?
pub open spec fn writes(cmd: UsbCommand, active: u64, payload: Seq<u8>) -> bool {
    usb::wire(cmd, active).len() == 1 && carries(usb::wire(cmd, active)[0], payload)
}

/// Does the command put these two payloads on the wire, one after the other?
pub open spec fn writes_both(cmd: UsbCommand, active: u64, a: Seq<u8>, b: Seq<u8>) -> bool {
    let list = usb::wire(cmd, active);
    list.len() == 2 && carries(list[0], a) && carries(list[1], b)
}

proof fn lemma_two_reports(a: Seq<u8>, b: Seq<u8>)
    requires
        a.len() <= 60,
        b.len() <= 60,
    ensures
        ({
            let list = usb_protocol::all_reports(seq![a, b]);
            list.len() == 2 && carries(list[0], a) && carries(list[1], b)
        }),
{
    short_payloads_are_one_report(a);
    short_payloads_are_one_report(b);
    usb_protocol::lemma_all_reports_add(seq![a], seq![b]);
    assert(seq![a] + seq![b] =~= seq![a, b]);
}

/// Power and brightness commands, as the monitor reads them: on is 01 00, off is
/// 02 00, and a level is 01 and the level; the last byte is their check.
pub proof fn power_and_brightness_on_the_wire(level: u8, active: u64)
    ensures
        writes(UsbCommand::TurnOn, active, seq![0xCFu8, 0x02, 0x02, 0x01, 0x00, 0xDE]),
        writes(UsbCommand::TurnOff, active, seq![0xCFu8, 0x02, 0x02, 0x02, 0x00, 0xDD]),
        writes(
            UsbCommand::SetBrightness(level),
            active,
            seq![0xCFu8, 0x02, 0x02, 0x01, level, 0xDE ^ level],
        ),
{
    short_payloads_are_one_report(seq![0xCFu8, 0x02, 0x02, 0x01, 0x00, 0xDE]);
    short_payloads_are_one_report(seq![0xCFu8, 0x02, 0x02, 0x02, 0x00, 0xDD]);
    short_payloads_are_one_report(seq![0xCFu8, 0x02, 0x02, 0x01, level, level ^ 0xDE]);
    assert(level ^ 0xDE == 0xDE ^ level) by (bit_vector);
}

/// A mode switch, as the monitor reads it; the sync modes are armed for frames
/// of three reports right behind it, and the arm command alone is just that.
pub proof fn modes_on_the_wire(mode: u8, active: u64)
    ensures
        mode != 7 && mode != 8 ==> writes(
            UsbCommand::SetMode(mode),
            active,
            seq![0xC7u8, 0x02, 0x02, 0x00, mode, 0xD7 ^ mode],
        ),
        mode == 7 || mode == 8 ==> writes_both(
            UsbCommand::SetMode(mode),
            active,
            seq![0xC7u8, 0x02, 0x02, 0x00, mode, 0xD7 ^ mode],
            seq![0xCAu8, 0x02, 0x02, 0x03, mode, 0xD9 ^ mode],
        ),
        writes(
            UsbCommand::ArmSync(mode),
            active,
            seq![0xCAu8, 0x02, 0x02, 0x03, mode, 0xD9 ^ mode],
        ),
{
    assert(mode ^ 0xD7 == 0xD7 ^ mode) by (bit_vector);
    assert(mode ^ 0xD9 == 0xD9 ^ mode) by (bit_vector);
    let switch = seq![0xC7u8, 0x02, 0x02, 0x00, mode, 0xD7 ^ mode];
    let arm = seq![0xCAu8, 0x02, 0x02, 0x03, mode, 0xD9 ^ mode];
    short_payloads_are_one_report(switch);
    short_payloads_are_one_report(arm);
    lemma_two_reports(switch, arm);
}

/// The static color command, as the monitor reads it.
pub open spec fn color_command(slot: u8, r: u8, g: u8, b: u8) -> Seq<u8> {
    seq![0xD2u8, slot ^ 0x03, 0x04, slot, r, g, b, 0xC5 ^ r ^ g ^ b]
}

proof fn lemma_color_check(slot: u8, r: u8, g: u8, b: u8)
    ensures
        usb_protocol::static_color_payload(slot, r, g, b) == color_command(slot, r, g, b),
{
    let s0 = Seq::<u8>::empty();
    let s1 = s0.push(0x53);
    let s2 = s1.push(0x43);
    let s3 = s2.push(0xD2);
    let s4 = s3.push(slot ^ 0x03);
    let s5 = s4.push(0x04);
    let s6 = s5.push(slot);
    let s7 = s6.push(r);
    let s8 = s7.push(g);
    let s9 = s8.push(b);
    assert(s9 =~= usb_protocol::header() + usb_protocol::static_color_body(slot, r, g, b));
    usb_protocol::the_check_takes_every_byte_in(s0, 0x53);
    usb_protocol::the_check_takes_every_byte_in(s1, 0x43);
    usb_protocol::the_check_takes_every_byte_in(s2, 0xD2);
    usb_protocol::the_check_takes_every_byte_in(s3, slot ^ 0x03);
    usb_protocol::the_check_takes_every_byte_in(s4, 0x04);
    usb_protocol::the_check_takes_every_byte_in(s5, slot);
    usb_protocol::the_check_takes_every_byte_in(s6, r);
    usb_protocol::the_check_takes_every_byte_in(s7, g);
    usb_protocol::the_check_takes_every_byte_in(s8, b);
    assert(0u8 ^ 0x53 ^ 0x43 ^ 0xD2 ^ (slot ^ 0x03) ^ 0x04 ^ slot ^ r ^ g ^ b == 0xC5 ^ r ^ g ^ b)
        by (bit_vector);
    assert(usb_protocol::static_color_payload(slot, r, g, b) =~= color_command(slot, r, g, b));
}

/// Storing a static color writes slot, red, green, blue and their check. Setting
/// it writes the same and then switches to the slot's mode, which for the four
/// slots is a plain mode switch.
pub proof fn static_colors_on_the_wire(slot: u8, r: u8, g: u8, b: u8, active: u64)
    ensures
        writes(
            UsbCommand::StoreStaticColor(slot, r, g, b),
            active,
            color_command(slot, r, g, b),
        ),
        slot != 7 && slot != 8 ==> writes_both(
            UsbCommand::SetStaticColor(slot, r, g, b),
            active,
            color_command(slot, r, g, b),
            seq![0xC7u8, 0x02, 0x02, 0x00, slot, 0xD7 ^ slot],
        ),
{
    let color = color_command(slot, r, g, b);
    lemma_color_check(slot, r, g, b);
    assert(usb::payloads_of(UsbCommand::StoreStaticColor(slot, r, g, b), active) =~= seq![color]);
    assert(color.len() == 8);
    short_payloads_are_one_report(color);
    setting_a_color_stores_and_shows_it(slot, r, g, b, active);
    modes_on_the_wire(slot, active);
}

/// A session is registered at once, monitor or not, and only that happens.
pub proof fn sessions_are_registered(link: Link, s: u64, now: u64)
    ensures
        ({
            let after = usb::worker_after(
                WorkerState { link, phase: Phase::Receiving },
                UsbEvent::Received(Recv::Cmd(UsbCommand::SetSession(s))),
                now,
            );
            &&& after.phase is Receiving
            &&& after.link == (Link { session: after.link.session, ..link })
            &&& after.link.session.active == (if s > link.session.active {
                s
            } else {
                link.session.active
            })
        }),
{
}

/// Bookkeeping commands write nothing.
pub proof fn bookkeeping_writes_nothing(s: u64, active: u64)
    ensures
        usb::wire(UsbCommand::SetSession(s), active).len() == 0,
        usb::wire(UsbCommand::Probe, active).len() == 0,
        usb::wire(UsbCommand::Stop, active).len() == 0,
        usb::wire(UsbCommand::Wake, active).len() == 0,
{
}

/// Byte `k` of a sync frame's payload up to the check byte: the marker, two
/// constants, then red, green and blue of each LED, at least 1.
pub open spec fn frame_byte(colors: Seq<RGBColor>, audio: bool, k: int) -> int {
    let c = colors[(k - 4) / 3];
    let v = if (k - 4) % 3 == 0 {
        c.r
    } else if (k - 4) % 3 == 1 {
        c.g
    } else {
        c.b
    };
    if k == 0 {
        if audio {
            0xC2
        } else {
            0xC1
        }
    } else if k == 1 {
        0x02
    } else if k == 2 {
        0x91
    } else if k == 3 {
        0x00
    } else if v >= 1 {
        v as int
    } else {
        1
    }
}

/// A frame of the registered session goes out as three reports that carry every
/// LED's red, green and blue at its place; a frame of any other session writes
/// nothing.
pub proof fn frames_on_the_wire(
    s: u64,
    colors: [RGBColor; 48],
    audio: bool,
    active: u64,
    i: int,
    k: int,
)
    requires
        0 <= i < 48,
        0 <= k < 148,
    ensures
        ({
            let list = usb::wire(UsbCommand::SendColors(s, colors, audio), active);
            &&& s != active ==> list.len() == 0
            &&& s == active ==> {
                &&& list.len() == 3
                &&& list[(k + 2) / 64][1 + (k + 2) % 64] == frame_byte(colors@, audio, k)
                &&& list[(3 * i + 6) / 64][1 + (3 * i + 6) % 64] == (if colors@[i].r == 0 {
                    1u8
                } else {
                    colors@[i].r
                })
                &&& list[(3 * i + 7) / 64][1 + (3 * i + 7) % 64] == (if colors@[i].g == 0 {
                    1u8
                } else {
                    colors@[i].g
                })
                &&& list[(3 * i + 8) / 64][1 + (3 * i + 8) % 64] == (if colors@[i].b == 0 {
                    1u8
                } else {
                    colors@[i].b
                })
            }
        }),
{
    if s == active {
        let payload = usb_protocol::sync_payload(colors@, audio);
        let list = usb::wire(UsbCommand::SendColors(s, colors, audio), active);
        usb_protocol::lemma_single(payload);
        assert(list == usb_protocol::reports(payload));
        assert(payload.len() == 149);
        assert(list.len() == 3);
        lemma_payload_place(payload, k);
        lemma_payload_place(payload, 4 + 3 * i);
        lemma_payload_place(payload, 5 + 3 * i);
        lemma_payload_place(payload, 6 + 3 * i);
        usb_protocol::colors_stand_at_their_places(colors@, audio, i);
        if k >= 4 {
            usb_protocol::colors_stand_at_their_places(colors@, audio, (k - 4) / 3);
        }
    } else {
        assert(usb::payloads_of(UsbCommand::SendColors(s, colors, audio), active).len() == 0);
    }
}

proof fn lemma_payload_place(payload: Seq<u8>, k: int)
    requires
        payload.len() == 149,
        0 <= k < 149,
    ensures
        usb_protocol::reports(payload)[(k + 2) / 64][1 + (k + 2) % 64] == payload[k],
{
    let at = k + 2;
    packets_are_cut_into_reports(payload, at / 64, at % 64);
    assert(64 * (at / 64) + at % 64 == at);
}

/// The kind of a command that reaches the monitor, by the byte that opens it.
pub open spec fn opcode(cmd: UsbCommand) -> u8 {
    match cmd {
        UsbCommand::TurnOn | UsbCommand::TurnOff | UsbCommand::SetBrightness(_) => 0xCF,
        UsbCommand::SetMode(_) => 0xC7,
        UsbCommand::ArmSync(_) => 0xCA,
        UsbCommand::SetStaticColor(..) | UsbCommand::StoreStaticColor(..) => 0xD2,
        _ => 0,
    }
}

/// Two commands that put the same bytes on the wire are the same command. The
/// one exception is the monitor's own: on and brightness 0 read alike. (Sync
/// frames are told apart by their colors.)
pub proof fn commands_are_told_apart(a: UsbCommand, b: UsbCommand, active: u64)
    requires
        opcode(a) != 0,
        opcode(b) != 0,
        usb::wire(a, active) == usb::wire(b, active),
    ensures
        a == b || (a is TurnOn && b == UsbCommand::SetBrightness(0)) || (a
            == UsbCommand::SetBrightness(0) && b is TurnOn),
{
    lemma_reads_back(a, active);
    lemma_reads_back(b, active);
}

/// Do two components show alike? The monitor cannot tell 0 from 1.
pub open spec fn shows_alike(a: u8, b: u8) -> bool {
    a == b || (a <= 1 && b <= 1)
}

/// Two frames that put the same bytes on the wire have the same source and show
/// the same color on every LED; and no frame reads as another command.
pub proof fn frames_are_told_apart(
    s: u64,
    a: [RGBColor; 48],
    b: [RGBColor; 48],
    audio_a: bool,
    audio_b: bool,
    cmd: UsbCommand,
    i: int,
)
    requires
        0 <= i < 48,
    ensures
        usb::wire(UsbCommand::SendColors(s, a, audio_a), s) == usb::wire(
            UsbCommand::SendColors(s, b, audio_b),
            s,
        ) ==> audio_a == audio_b && shows_alike(a@[i].r, b@[i].r) && shows_alike(
            a@[i].g,
            b@[i].g,
        ) && shows_alike(a@[i].b, b@[i].b),
        opcode(cmd) != 0 ==> usb::wire(UsbCommand::SendColors(s, a, audio_a), s) != usb::wire(
            cmd,
            s,
        ),
{
    frames_on_the_wire(s, a, audio_a, s, i, 0);
    frames_on_the_wire(s, b, audio_b, s, i, 0);
    if opcode(cmd) != 0 {
        lemma_reads_back(cmd, s);
        let first = usb::wire(UsbCommand::SendColors(s, a, audio_a), s)[0];
        assert(first[3] == frame_byte(a@, audio_a, 0));
    }
}

/// The command's first report names it, with its arguments.
pub open spec fn reads_as(report: Seq<u8>, cmd: UsbCommand) -> bool {
    &&& report[3] == opcode(cmd)
    &&& match cmd {
        UsbCommand::TurnOn => report[6] == 1 && report[7] == 0,
        UsbCommand::TurnOff => report[6] == 2,
        UsbCommand::SetBrightness(level) => report[6] == 1 && report[7] == level,
        UsbCommand::SetMode(mode) => report[7] == mode,
        UsbCommand::ArmSync(mode) => report[7] == mode,
        UsbCommand::SetStaticColor(slot, r, g, b) => report[6] == slot && report[7] == r
            && report[8] == g && report[9] == b,
        UsbCommand::StoreStaticColor(slot, r, g, b) => report[6] == slot && report[7] == r
            && report[8] == g && report[9] == b,
        _ => true,
    }
}

/// The first report of every command names it and holds its arguments; a static
/// color that is only stored is one report, one that is shown is more.
pub proof fn lemma_reads_back(cmd: UsbCommand, active: u64)
    requires
        opcode(cmd) != 0,
    ensures
        usb::wire(cmd, active).len() >= 1,
        reads_as(usb::wire(cmd, active)[0], cmd),
        cmd is StoreStaticColor ==> usb::wire(cmd, active).len() == 1,
        cmd is SetStaticColor ==> usb::wire(cmd, active).len() >= 2,
{
    match cmd {
        UsbCommand::TurnOn | UsbCommand::TurnOff => {
            power_and_brightness_on_the_wire(0, active);
            let p = if cmd is TurnOn {
                seq![0xCFu8, 0x02, 0x02, 0x01, 0x00, 0xDE]
            } else {
                seq![0xCFu8, 0x02, 0x02, 0x02, 0x00, 0xDD]
            };
            lemma_short_bytes(usb::wire(cmd, active)[0], p);
        },
        UsbCommand::SetBrightness(level) => {
            power_and_brightness_on_the_wire(level, active);
            lemma_short_bytes(
                usb::wire(cmd, active)[0],
                seq![0xCFu8, 0x02, 0x02, 0x01, level, 0xDE ^ level],
            );
        },
        UsbCommand::SetMode(mode) => {
            modes_on_the_wire(mode, active);
            lemma_short_bytes(
                usb::wire(cmd, active)[0],
                seq![0xC7u8, 0x02, 0x02, 0x00, mode, 0xD7 ^ mode],
            );
        },
        UsbCommand::ArmSync(mode) => {
            modes_on_the_wire(mode, active);
            lemma_short_bytes(
                usb::wire(cmd, active)[0],
                seq![0xCAu8, 0x02, 0x02, 0x03, mode, 0xD9 ^ mode],
            );
        },
        UsbCommand::StoreStaticColor(slot, r, g, b) => {
            static_colors_on_the_wire(slot, r, g, b, active);
            lemma_short_bytes(usb::wire(cmd, active)[0], color_command(slot, r, g, b));
        },
        UsbCommand::SetStaticColor(slot, r, g, b) => {
            static_colors_on_the_wire(slot, r, g, b, active);
            modes_on_the_wire(slot, active);
            let store = UsbCommand::StoreStaticColor(slot, r, g, b);
            let switch = UsbCommand::SetMode(slot);
            usb_protocol::lemma_all_reports_add(
                usb::payloads_of(store, active),
                usb::payloads_of(switch, active),
            );
            assert(usb::wire(cmd, active) == usb::wire(store, active) + usb::wire(switch, active));
            lemma_short_bytes(usb::wire(cmd, active)[0], color_command(slot, r, g, b));
        },
        _ => {},
    }
}

proof fn lemma_short_bytes(report: Seq<u8>, payload: Seq<u8>)
    requires
        carries(report, payload),
        payload.len() >= 6,
    ensures
        report[3] == payload[0],
        report[6] == payload[3],
        report[7] == payload[4],
        report[8] == payload[5],
        payload.len() >= 7 ==> report[9] == payload[6],
{
    assert(payload[0] == report[3 + 0int]);
    assert(payload[3] == report[3 + 3int]);
    assert(payload[4] == report[3 + 4int]);
    assert(payload[5] == report[3 + 5int]);
    if payload.len() >= 7 {
        assert(payload[6] == report[3 + 6int]);
    }
}

/// A static color is shown by storing it and switching to the slot: setting it
/// writes what the two commands write one after the other.
pub proof fn setting_a_color_stores_and_shows_it(slot: u8, r: u8, g: u8, b: u8, active: u64)
    ensures
        usb::wire(UsbCommand::SetStaticColor(slot, r, g, b), active) == usb::wire(
            UsbCommand::StoreStaticColor(slot, r, g, b),
            active,
        ) + usb::wire(UsbCommand::SetMode(slot), active),
{
    usb_protocol::lemma_all_reports_add(
        usb::payloads_of(UsbCommand::StoreStaticColor(slot, r, g, b), active),
        usb::payloads_of(UsbCommand::SetMode(slot), active),
    );
}

/// The newer of two sessions is in force, whichever was registered first.
pub proof fn the_newest_session_is_in_force(active: u64, s: u64)
    ensures
        usb::registered(active, s) >= active,
        usb::registered(active, s) >= s,
        usb::registered(active, s) == active || usb::registered(active, s) == s,
{
}

/// A command joins the control plane at its end and leaves the frames that wait
/// alone; a frame joins the data plane at its end while fewer than four messages
/// wait there, else it is dropped. A closed bus takes nothing.
pub proof fn commands_join_their_plane(bus: Bus, cmd: UsbCommand)
    ensures
        ({
            let after = usb::posted(bus, cmd);
            &&& after.senders == bus.senders && after.open == bus.open
            &&& !bus.open ==> after == bus
            &&& bus.open && !(cmd is SendColors) ==> {
                &&& after.ctrl == bus.ctrl + seq![cmd]
                &&& bus.frames.len() < 4 ==> after.frames == bus.frames + seq![UsbCommand::Wake]
                &&& bus.frames.len() >= 4 ==> after.frames == bus.frames
            }
            &&& bus.open && cmd is SendColors ==> {
                &&& after.ctrl == bus.ctrl
                &&& bus.frames.len() < 4 ==> after.frames == bus.frames + seq![cmd]
                &&& bus.frames.len() >= 4 ==> after.frames == bus.frames
            }
        }),
{
    assert(bus.ctrl.push(cmd) =~= bus.ctrl + seq![cmd]);
    assert(bus.frames.push(cmd) =~= bus.frames + seq![cmd]);
    assert(bus.frames.push(UsbCommand::Wake) =~= bus.frames + seq![UsbCommand::Wake]);
}

/// A frame that is offered is treated as one that is posted.
pub proof fn offered_frames_are_posted(bus: Bus, s: u64, colors: [RGBColor; 48], audio: bool)
    ensures
        usb::offered(bus, UsbCommand::SendColors(s, colors, audio)) == usb::posted(
            bus,
            UsbCommand::SendColors(s, colors, audio),
        ),
{
}

/// The oldest command is serviced first, and alone.
pub proof fn the_oldest_command_is_serviced(first: UsbCommand, bus: Bus, timed_out: bool)
    ensures
        usb::received(Bus { ctrl: seq![first] + bus.ctrl, ..bus }, timed_out) == (
            bus,
            Some(Recv::Cmd(first)),
        ),
{
    let full = Bus { ctrl: seq![first] + bus.ctrl, ..bus };
    assert(full.ctrl.skip(1) =~= bus.ctrl);
}

/// Without a command the oldest frame is serviced, alone, and the wake tokens
/// ahead of it go with it.
pub proof fn the_oldest_frame_is_serviced(
    wakes: nat,
    frame: UsbCommand,
    bus: Bus,
    timed_out: bool,
)
    requires
        bus.ctrl.len() == 0,
        bus.senders > 0,
        !(frame is Wake),
    ensures
        usb::received(
            Bus {
                frames: Seq::new(wakes, |i: int| UsbCommand::Wake) + seq![frame] + bus.frames,
                ..bus
            },
            timed_out,
        ) == (bus, Some(Recv::Cmd(frame))),
{
    let queue = Seq::new(wakes, |i: int| UsbCommand::Wake) + seq![frame] + bus.frames;
    lemma_wakes_are_skipped(wakes, seq![frame] + bus.frames);
    assert(queue =~= Seq::new(wakes, |i: int| UsbCommand::Wake) + (seq![frame] + bus.frames));
    assert((seq![frame] + bus.frames).skip(1) =~= bus.frames);
}

proof fn lemma_wakes_are_skipped(wakes: nat, rest: Seq<UsbCommand>)
    requires
        rest.len() > 0 ==> !(rest[0] is Wake),
    ensures
        usb::past_wakes(Seq::new(wakes, |i: int| UsbCommand::Wake) + rest) == rest,
    decreases wakes,
{
    let queue = Seq::new(wakes, |i: int| UsbCommand::Wake) + rest;
    if wakes == 0 {
        assert(queue =~= rest);
    } else {
        lemma_wakes_are_skipped((wakes - 1) as nat, rest);
        assert(queue.skip(1) =~= Seq::new((wakes - 1) as nat, |i: int| UsbCommand::Wake) + rest);
    }
}

/// With nothing but wake tokens the worker ticks when its wait is over, and else
/// waits on; the tokens are gone either way. Without senders it is done.
pub proof fn an_idle_bus_ticks(wakes: nat, bus: Bus, timed_out: bool)
    requires
        bus.ctrl.len() == 0,
        bus.frames == Seq::new(wakes, |i: int| UsbCommand::Wake),
    ensures
        bus.senders == 0 ==> usb::received(bus, timed_out) == (bus, Some(Recv::Done)),
        bus.senders > 0 ==> usb::received(bus, timed_out) == (
            Bus { frames: Seq::empty(), ..bus },
            if timed_out {
                Some(Recv::Tick)
            } else {
                None
            },
        ),
{
    lemma_wakes_are_skipped(wakes, Seq::empty());
    assert(bus.frames + Seq::<UsbCommand>::empty() =~= bus.frames);
}

/// The device is 27GN950/38GN950 on the lighting usage page or on none, or a
/// 38GL950G.
pub proof fn monitors_are_known_by_their_ids(d: usb::HidInfo)
    ensures
        usb::is_monitor(d) <==> d.vendor_id == 0x043E && (d.product_id == 0x9A57 || (d.product_id
            == 0x9A8A && (d.usage_page == 0xFF01 || d.usage_page == 0))),
{
}

/// The outcome of an enumeration is the connection state: an opened monitor
/// carries out the command that waited, a missing one drops it.
pub proof fn enumerations_decide_the_connection(
    link: Link,
    waiting: Option<UsbCommand>,
    found: bool,
    now: u64,
)
    requires
        link.wf(),
        !link.device,
        link.api,
    ensures
        ({
            let before = WorkerState { link, phase: Phase::Reopening { waiting } };
            let after = usb::worker_after(before, UsbEvent::Opened(found), now);
            &&& after.link.connected == found && after.link.device == found
            &&& after.link.session == link.session
            &&& !found || waiting is None ==> after.phase is Receiving
            &&& found ==> (waiting matches Some(cmd) ==> usb::wire(
                cmd,
                link.session.active,
            ).len() > 0 ==> after.phase == (Phase::Writing {
                rest: usb::wire(cmd, link.session.active),
            }))
        }),
{
}

/// A probe tells whether the monitor is still there, and nothing else changes.
pub proof fn probes_decide_the_connection(link: Link, there: bool, now: u64)
    requires
        link.wf(),
        link.device,
    ensures
        usb::worker_after(
            WorkerState { link, phase: Phase::Probing },
            UsbEvent::Present(there),
            now,
        ) == (WorkerState {
            link: Link { device: there, connected: there, ..link },
            phase: Phase::Receiving,
        }),
{
}

/// An interface that comes up is used at the next cadence, or at once when a
/// notification asked for it; one that does not is tried again later.
pub proof fn interfaces_come_up(link: Link, force: bool, waiting: Option<UsbCommand>, now: u64)
    requires
        link.wf(),
        !link.api,
    ensures
        ({
            let before = WorkerState { link, phase: Phase::Initializing { force, waiting } };
            let up = usb::worker_after(before, UsbEvent::ApiReady(true), now);
            let down = usb::worker_after(before, UsbEvent::ApiReady(false), now);
            &&& up.link.api && !up.link.connected
            &&& force || usb::elapsed(link.last_attempt, now) >= 2000 ==> up.phase
                == (Phase::Reopening { waiting }) && up.link.last_attempt == now
            &&& !force && usb::elapsed(link.last_attempt, now) < 2000 ==> up.phase is Receiving
            &&& down == (WorkerState { link, phase: Phase::Receiving })
        }),
{
}

/// A command for a monitor that is there is written at once; for one that is
/// missing, a reconnect is tried first, at most every two seconds, and without
/// it the command is dropped.
pub proof fn commands_need_a_monitor(link: Link, cmd: UsbCommand, now: u64)
    requires
        link.wf(),
        !(cmd is SetSession),
        !(cmd is Probe),
        !(cmd is Stop),
    ensures
        ({
            let before = WorkerState { link, phase: Phase::Receiving };
            let after = usb::worker_after(before, UsbEvent::Received(Recv::Cmd(cmd)), now);
            let bytes = usb::wire(cmd, link.session.active);
            &&& link.device && bytes.len() > 0 ==> after == (WorkerState {
                link,
                phase: Phase::Writing { rest: bytes },
            })
            &&& link.device && bytes.len() == 0 ==> after == (WorkerState {
                link: Link { fails: 0, ..link },
                phase: Phase::Receiving,
            })
            &&& !link.device && usb::elapsed(link.last_attempt, now) < 2000 ==> after == before
            &&& !link.device && usb::elapsed(link.last_attempt, now) >= 2000 ==> {
                &&& after.link == (Link { last_attempt: now, ..link })
                &&& link.api ==> after.phase == (Phase::Reopening { waiting: Some(cmd) })
                &&& !link.api ==> after.phase == (Phase::Initializing {
                    force: false,
                    waiting: Some(cmd),
                })
            }
        }),
{
}

/// A tick probes a monitor that is there every two minutes, and does nothing in
/// between; the bus is waited for as long as that, or two seconds without a
/// monitor.
pub proof fn idle_monitors_are_probed(link: Link, now: u64)
    requires
        link.wf(),
    ensures
        ({
            let before = WorkerState { link, phase: Phase::Receiving };
            let after = usb::worker_after(before, UsbEvent::Received(Recv::Tick), now);
            &&& usb::tick_of(link) == (if link.device {
                120000u64
            } else {
                2000u64
            })
            &&& link.device && usb::elapsed(link.last_probe, now) >= 120000 ==> after
                == (WorkerState {
                link: Link { last_probe: now, ..link },
                phase: Phase::Probing,
            })
            &&& link.device && usb::elapsed(link.last_probe, now) < 120000 ==> after == before
        }),
{
}

/// A failed command counts; the fifth in a row gives the monitor up and starts
/// the count anew.
pub proof fn five_failures_give_the_monitor_up(link: Link)
    requires
        link.wf(),
    ensures
        link.fails < 4 ==> usb::after_write(link, false) == (Link {
            fails: (link.fails + 1) as u32,
            ..link
        }),
        link.fails == 4 ==> usb::after_write(link, false) == (Link {
            fails: 0,
            device: false,
            connected: false,
            ..link
        }),
        usb::after_write(link, true) == (Link { fails: 0, ..link }),
        link.fails <= 4,
{
}

/// A worker starts with the monitor as it was found, waiting for the bus, with
/// its cadences counting from that moment and no session in force: the frames of
/// every session that counts from 1 wait for their registration.
pub proof fn workers_start_with_what_was_found(api: bool, found: bool, now: u64, s: u64)
    requires
        found ==> api,
        s > 0,
    ensures
        ({
            let w = usb::first_state(api, found, now);
            &&& w.wf() && w.phase is Receiving
            &&& w.link.connected == found && w.link.device == found && w.link.api == api
            &&& w.link.fails == 0
            &&& w.link.last_attempt == now && w.link.last_probe == now
            &&& w.link.session.active != s
        }),
{
}

/// Time that has passed on the clock.
pub proof fn time_passes(since: u64, now: u64)
    ensures
        now >= since ==> usb::elapsed(since, now) + since == now,
        now < since ==> usb::elapsed(since, now) == 0,
{
}

/// What the worker does not wait for changes nothing, and a worker that has
/// stopped stays so.
pub proof fn stray_reports_change_nothing(w: WorkerState, event: UsbEvent, now: u64)
    requires
        event is Received ==> !(w.phase is Receiving),
        event is ApiReady ==> !(w.phase is Initializing),
        event is Opened ==> !(w.phase is Reopening),
        event is Present ==> !(w.phase is Probing),
        event is Wrote ==> !(w.phase is Writing),
    ensures
        usb::worker_after(w, event, now) == w,
{
}

/// A stop, and a bus without senders, end the worker and change nothing else.
pub proof fn workers_end_as_they_are(link: Link, now: u64)
    ensures
        usb::worker_after(
            WorkerState { link, phase: Phase::Receiving },
            UsbEvent::Received(Recv::Cmd(UsbCommand::Stop)),
            now,
        ) == (WorkerState { link, phase: Phase::Stopped }),
        usb::worker_after(
            WorkerState { link, phase: Phase::Receiving },
            UsbEvent::Received(Recv::Done),
            now,
        ) == (WorkerState { link, phase: Phase::Stopped }),
{
}

/// A device notification acts at once, with the pacing counted anew: it probes a
/// monitor that is there, looks for one that is missing, and brings the interface
/// up where there is none. Nothing else of the connection changes.
pub proof fn notifications_act_at_once(link: Link, now: u64)
    requires
        link.wf(),
    ensures
        ({
            let after = usb::worker_after(
                WorkerState { link, phase: Phase::Receiving },
                UsbEvent::Received(Recv::Cmd(UsbCommand::Probe)),
                now,
            );
            &&& link.device ==> after == (WorkerState {
                link: Link { last_probe: now, ..link },
                phase: Phase::Probing,
            })
            &&& !link.device && link.api ==> after == (WorkerState {
                link: Link { last_attempt: now, ..link },
                phase: Phase::Reopening { waiting: None },
            })
            &&& !link.device && !link.api ==> after == (WorkerState {
                link: Link { last_attempt: now, ..link },
                phase: Phase::Initializing { force: true, waiting: None },
            })
        }),
{
}

/// Reports go out one by one: the next one follows a success, a failure or the
/// last one ends the command.
pub proof fn reports_go_out_in_order(link: Link, rest: Seq<Seq<u8>>, now: u64)
    requires
        rest.len() > 0,
    ensures
        ({
            let w = WorkerState { link, phase: Phase::Writing { rest } };
            let ok = usb::worker_after(w, UsbEvent::Wrote(true), now);
            let failed = usb::worker_after(w, UsbEvent::Wrote(false), now);
            &&& rest.len() > 1 ==> ok.link == link && (ok.phase matches Phase::Writing { rest: left }
                && seq![rest[0]] + left == rest)
            &&& rest.len() == 1 ==> ok == (WorkerState {
                link: Link { fails: 0, ..link },
                phase: Phase::Receiving,
            })
            &&& failed.phase is Receiving && failed.link == usb::after_write(link, false)
        }),
{
    assert(seq![rest[0]] + rest.skip(1) =~= rest);
}

} // verus!
