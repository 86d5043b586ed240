//! The monitor's HID protocol: command payloads and their framing.
//!
//! A payload travels as `"SC" + payload + "ED"`, zero-padded to a multiple of
//! 64 bytes and cut into 65-byte reports (report id 0, then 64 bytes). The
//! functions here produce those reports; [`Transfer`] decides which one is
//! written next and gives the rest of a command up after a failed write.

use vstd::prelude::*;

verus! {

/// One HID report: the report id (always 0) and 64 bytes of packet.
pub type Report = [u8; 65];

/// Largest packet: 2 (header) + 149 (sync payload) + 2 (terminator) = 153
/// bytes, 192 after padding.
pub const MAX_PACKET: usize = 192;

/// LEDs in the strip, and colors in a sync frame.
pub const LEDS: usize = 48;

/// Length of a sync frame's payload.
pub const SYNC_PAYLOAD: usize = 149;

#[derive(Clone, Copy, Debug, PartialEq, Eq, Structural)]
pub struct RGBColor {
    pub r: u8,
    pub g: u8,
    pub b: u8,
}

/// XOR of every byte of `s`.
pub open spec fn xor_all(s: Seq<u8>) -> u8
    decreases s.len(),
{
    if s.len() == 0 {
        0u8
    } else {
        xor_all(s.drop_last()) ^ s.last()
    }
}

/// The "SC" that opens a packet.
pub open spec fn header() -> Seq<u8> {
    seq![0x53u8, 0x43u8]
}

/// The "ED" that closes a packet, before the padding.
pub open spec fn terminator() -> Seq<u8> {
    seq![0x45u8, 0x44u8]
}

pub open spec fn zeros(n: int) -> Seq<u8> {
    Seq::new(n as nat, |i: int| 0u8)
}

/// Does `payload` fit a packet?
pub open spec fn fits(payload: Seq<u8>) -> bool {
    payload.len() + 4 <= MAX_PACKET
}

/// How many reports a payload of `len` bytes takes: the packet's `len + 4`
/// bytes in units of 64, rounded up.
pub open spec fn report_count(len: int) -> int {
    (len + 4 + 63) / 64
}

/// The padded packet around a payload.
pub open spec fn packet(payload: Seq<u8>) -> Seq<u8> {
    header() + payload + terminator() + zeros(
        64 * report_count(payload.len() as int) - (payload.len() + 4),
    )
}

/// The `i`-th report of a packet.
pub open spec fn report_of(packet: Seq<u8>, i: int) -> Seq<u8> {
    seq![0u8] + packet.subrange(64 * i, 64 * i + 64)
}

/// The reports that carry one payload.
pub open spec fn reports(payload: Seq<u8>) -> Seq<Seq<u8>> {
    Seq::new(
        report_count(payload.len() as int) as nat,
        |i: int| report_of(packet(payload), i),
    )
}

/// The reports that carry several payloads, one after another.
pub open spec fn all_reports(payloads: Seq<Seq<u8>>) -> Seq<Seq<u8>>
    decreases payloads.len(),
{
    if payloads.len() == 0 {
        Seq::empty()
    } else {
        all_reports(payloads.drop_last()) + reports(payloads.last())
    }
}

/// The contents of a list of reports.
pub open spec fn contents(list: Seq<Report>) -> Seq<Seq<u8>> {
    Seq::new(list.len(), |i: int| list[i]@)
}

/// CRC-8 with polynomial 0x01, the last byte of the static-color command. With
/// this polynomial the CRC is the plain XOR of every input byte.
pub fn calc_crc(data: &[u8]) -> (crc: u8)
    ensures
        crc == xor_all(data@),
{
    let mut crc: u8 = 0;
    let mut i: usize = 0;
    while i < data.len()
        invariant
            i <= data@.len(),
            crc == xor_all(data@.take(i as int)),
        decreases data@.len() - i,
    {
        assert(data@.take(i + 1).drop_last() =~= data@.take(i as int));
        crc = crc ^ data[i];
        i = i + 1;
    }
    assert(data@.take(i as int) =~= data@);
    crc
}

/// Frames a payload: the reports to write for it, in order. `None` for a
/// payload that no packet holds.
pub fn send_payload(payload: &[u8]) -> (out: Option<Vec<Report>>)
    ensures
        out is Some <==> fits(payload@),
        out matches Some(list) ==> contents(list@) == reports(payload@),
{
    let n: usize = payload.len();
    if n > MAX_PACKET - 4 {
        return None;
    }
    let count: usize = (n + 4 + 63) / 64;
    let mut list: Vec<Report> = Vec::new();
    let mut i: usize = 0;
    while i < count
        invariant
            n == payload@.len(),
            n <= MAX_PACKET - 4,
            count == report_count(n as int),
            i <= count,
            list@.len() == i,
            forall|k: int| 0 <= k < i ==> (#[trigger] list@[k])@ == report_of(packet(payload@), k),
        decreases count - i,
    {
        let mut report: Report = [0u8;65];
        let mut j: usize = 0;
        while j < 64
            invariant
                n == payload@.len(),
                n <= MAX_PACKET - 4,
                count == report_count(n as int),
                i < count,
                j <= 64,
                forall|k: int| 0 <= k <= j ==> (#[trigger] report@[k]) == report_of(
                    packet(payload@),
                    i as int,
                )[k],
            decreases 64 - j,
        {
            let at: usize = 64 * i + j;
            let byte: u8 = if at == 0 {
                0x53
            } else if at == 1 {
                0x43
            } else if at < n + 2 {
                payload[at - 2]
            } else if at == n + 2 {
                0x45
            } else if at == n + 3 {
                0x44
            } else {
                0
            };
            assert(byte == packet(payload@)[at as int]);
            report[j + 1] = byte;
            j = j + 1;
        }
        assert(report@ =~= report_of(packet(payload@), i as int));
        list.push(report);
        i = i + 1;
    }
    assert(contents(list@) =~= reports(payload@));
    Some(list)
}

/// Frames a payload that is known to fit.
fn framed(payload: &[u8]) -> (list: Vec<Report>)
    requires
        fits(payload@),
    ensures
        contents(list@) == all_reports(seq![payload@]),
{
    proof {
        lemma_single(payload@);
    }
    match send_payload(payload) {
        Some(list) => list,
        None => Vec::new(),
    }
}

/// `first` and then `rest`, as one command.
fn chained(first: Vec<Report>, rest: Vec<Report>) -> (list: Vec<Report>)
    ensures
        contents(list@) == contents(first@) + contents(rest@),
{
    let mut list = first;
    let mut tail = rest;
    list.append(&mut tail);
    assert(contents(list@) =~= contents(first@) + contents(rest@));
    list
}

pub open spec fn turn_on_payload() -> Seq<u8> {
    seq![0xCFu8, 0x02, 0x02, 0x01, 0x00, 0xDE]
}

pub open spec fn turn_off_payload() -> Seq<u8> {
    seq![0xCFu8, 0x02, 0x02, 0x02, 0x00, 0xDD]
}

pub open spec fn brightness_payload(level: u8) -> Seq<u8> {
    seq![0xCFu8, 0x02, 0x02, 0x01, level, level ^ 0xDE]
}

pub open spec fn mode_payload(mode: u8) -> Seq<u8> {
    seq![0xC7u8, 0x02, 0x02, 0x00, mode, mode ^ 0xD7]
}

pub open spec fn arm_payload(mode: u8) -> Seq<u8> {
    seq![0xCAu8, 0x02, 0x02, 0x03, mode, mode ^ 0xD9]
}

/// Modes 7 (audio) and 8 (video) are fed with sync frames.
pub open spec fn is_sync_mode(mode: u8) -> bool {
    mode == 7 || mode == 8
}

/// A mode switch; the sync modes are armed right behind it.
pub open spec fn mode_payloads(mode: u8) -> Seq<Seq<u8>> {
    if is_sync_mode(mode) {
        seq![mode_payload(mode), arm_payload(mode)]
    } else {
        seq![mode_payload(mode)]
    }
}

/// The static-color command without its last byte: the slot, its index check
/// `slot ^ 0x0403` as two little-endian bytes, and the color.
pub open spec fn static_color_body(slot: u8, r: u8, g: u8, b: u8) -> Seq<u8> {
    seq![0xD2u8, slot ^ 0x03, 0x04, slot, r, g, b]
}

/// The static-color command: its last byte is the CRC of header and body.
pub open spec fn static_color_payload(slot: u8, r: u8, g: u8, b: u8) -> Seq<u8> {
    static_color_body(slot, r, g, b).push(xor_all(header() + static_color_body(slot, r, g, b)))
}

pub fn turn_on() -> (list: Vec<Report>)
    ensures
        contents(list@) == all_reports(seq![turn_on_payload()]),
{
    let payload: [u8; 6] = [0xCF, 0x02, 0x02, 0x01, 0x00, 0xDE];
    assert(payload@ =~= turn_on_payload());
    framed(&payload)
}

pub fn turn_off() -> (list: Vec<Report>)
    ensures
        contents(list@) == all_reports(seq![turn_off_payload()]),
{
    let payload: [u8; 6] = [0xCF, 0x02, 0x02, 0x02, 0x00, 0xDD];
    assert(payload@ =~= turn_off_payload());
    framed(&payload)
}

pub fn set_brightness(level: u8) -> (list: Vec<Report>)
    ensures
        contents(list@) == all_reports(seq![brightness_payload(level)]),
{
    let payload: [u8; 6] = [0xCF, 0x02, 0x02, 0x01, level, level ^ 0xDE];
    assert(payload@ =~= brightness_payload(level));
    framed(&payload)
}

/// Mode switch; entering sync modes 7/8 additionally sends the chunk-count
/// command that arms the device for sync frames.
pub fn set_mode(mode: u8) -> (list: Vec<Report>)
    ensures
        contents(list@) == all_reports(mode_payloads(mode)),
{
    let payload: [u8; 6] = [0xC7, 0x02, 0x02, 0x00, mode, mode ^ 0xD7];
    assert(payload@ =~= mode_payload(mode));
    let list = framed(&payload);
    if mode == 7 || mode == 8 {
        proof {
            lemma_all_reports_add(seq![mode_payload(mode)], seq![arm_payload(mode)]);
            assert(seq![mode_payload(mode)] + seq![arm_payload(mode)] =~= mode_payloads(mode));
        }
        chained(list, arm_sync(mode))
    } else {
        list
    }
}

/// The chunk-count arm command alone (no mode switch): (re-)asserts how many
/// reports make up one sync frame.
pub fn arm_sync(mode: u8) -> (list: Vec<Report>)
    ensures
        contents(list@) == all_reports(seq![arm_payload(mode)]),
{
    let payload: [u8; 6] = [0xCA, 0x02, 0x02, 0x03, mode, mode ^ 0xD9];
    assert(payload@ =~= arm_payload(mode));
    framed(&payload)
}

/// Writes a static color into one of the 4 slots, then switches to that slot's
/// mode so the color becomes visible.
pub fn set_static_color(slot: u8, r: u8, g: u8, b: u8) -> (list: Vec<Report>)
    ensures
        contents(list@) == all_reports(
            seq![static_color_payload(slot, r, g, b)] + mode_payloads(slot),
        ),
{
    proof {
        lemma_all_reports_add(seq![static_color_payload(slot, r, g, b)], mode_payloads(slot));
    }
    chained(store_static_color(slot, r, g, b), set_mode(slot))
}

/// Stores a static color into one of the 4 slots without switching modes.
pub fn store_static_color(slot: u8, r: u8, g: u8, b: u8) -> (list: Vec<Report>)
    ensures
        contents(list@) == all_reports(seq![static_color_payload(slot, r, g, b)]),
{
    let index_check: u16 = (slot as u16) ^ 0x0403;
    assert((((slot as u16) ^ 0x0403) & 0xFF) as u8 == slot ^ 0x03) by (bit_vector);
    assert(((((slot as u16) ^ 0x0403) >> 8) & 0xFF) as u8 == 0x04) by (bit_vector);
    let low: u8 = (index_check & 0xFF) as u8;
    let high: u8 = ((index_check >> 8) & 0xFF) as u8;
    let crc_input: [u8; 9] = [0x53, 0x43, 0xD2, low, high, slot, r, g, b];
    assert(crc_input@ =~= header() + static_color_body(slot, r, g, b));
    let crc: u8 = calc_crc(&crc_input);
    let payload: [u8; 8] = [0xD2, low, high, slot, r, g, b, crc];
    assert(payload@ =~= static_color_payload(slot, r, g, b));
    framed(&payload)
}

/// A color component as a sync frame carries it: a zero would hang the
/// monitor's driver.
pub open spec fn lit(v: u8) -> u8 {
    if v == 0 {
        1u8
    } else {
        v
    }
}

/// Component `i` (red, green, blue) of a color.
pub open spec fn component(c: RGBColor, i: int) -> u8 {
    if i == 0 {
        c.r
    } else if i == 1 {
        c.g
    } else {
        c.b
    }
}

/// The color bytes of a sync frame.
pub open spec fn color_bytes(colors: Seq<RGBColor>) -> Seq<u8> {
    Seq::new(3 * colors.len(), |j: int| lit(component(colors[j / 3], j % 3)))
}

/// The payload of a sync frame: marker, two constants, the colors and the
/// check byte.
pub open spec fn sync_payload(colors: Seq<RGBColor>, audio: bool) -> Seq<u8> {
    seq![
        if audio {
            0xC2u8
        } else {
            0xC1u8
        },
        0x02,
        0x91,
        0x00,
    ] + color_bytes(colors) + seq![0x42u8 ^ xor_all(color_bytes(colors))]
}

/// Video/audio sync: 48 RGB colors. `audio` selects the 0xC2 audio marker
/// instead of 0xC1 video: the monitor is armed for one or the other by
/// [`set_mode`].
pub fn send_sync_colors(colors: &[RGBColor; 48], audio: bool) -> (list: Vec<Report>)
    ensures
        contents(list@) == all_reports(seq![sync_payload(colors@, audio)]),
{
    let payload = build_sync_payload(colors, audio);
    framed(&payload)
}

fn lifted(v: u8) -> (r: u8)
    ensures
        r == lit(v),
{
    if v == 0 {
        1
    } else {
        v
    }
}

/// Builds the 149-byte payload of a sync frame.
pub fn build_sync_payload(colors: &[RGBColor; 48], audio: bool) -> (payload: [u8; 149])
    ensures
        payload@ == sync_payload(colors@, audio),
        forall|i: int|
            #![trigger colors@[i]]
            0 <= i < 48 ==> {
                &&& payload@[4 + 3 * i] == (if colors@[i].r == 0 {
                    1u8
                } else {
                    colors@[i].r
                })
                &&& payload@[5 + 3 * i] == (if colors@[i].g == 0 {
                    1u8
                } else {
                    colors@[i].g
                })
                &&& payload@[6 + 3 * i] == (if colors@[i].b == 0 {
                    1u8
                } else {
                    colors@[i].b
                })
            },
{
    let mut payload: [u8; 149] = [0u8;149];
    payload[0] = if audio {
        0xC2
    } else {
        0xC1
    };
    payload[1] = 0x02;
    payload[2] = 0x91;
    payload[3] = 0x00;
    let ghost bytes = color_bytes(colors@);
    let mut xor: u8 = 0;
    let mut i: usize = 0;
    while i < 48
        invariant
            i <= 48,
            bytes == color_bytes(colors@),
            bytes.len() == 144,
            payload@[0] == (if audio {
                0xC2u8
            } else {
                0xC1u8
            }),
            payload@[1] == 0x02,
            payload@[2] == 0x91,
            payload@[3] == 0x00,
            forall|j: int| 0 <= j < 3 * i ==> #[trigger] payload@[4 + j] == bytes[j],
            xor == xor_all(bytes.take(3 * i)),
        decreases 48 - i,
    {
        let c = colors[i];
        let r = lifted(c.r);
        let g = lifted(c.g);
        let b = lifted(c.b);
        payload[4 + i * 3] = r;
        payload[5 + i * 3] = g;
        payload[6 + i * 3] = b;
        proof {
            let k = 3 * i;
            assert(bytes[k] == r && bytes[k + 1] == g && bytes[k + 2] == b);
            assert(bytes.take(k + 3).drop_last() =~= bytes.take(k + 2));
            assert(bytes.take(k + 2).drop_last() =~= bytes.take(k + 1));
            assert(bytes.take(k + 1).drop_last() =~= bytes.take(k));
            assert(xor_all(bytes.take(k + 1)) == xor ^ r);
            assert(xor_all(bytes.take(k + 2)) == (xor ^ r) ^ g);
            assert(xor_all(bytes.take(k + 3)) == ((xor ^ r) ^ g) ^ b);
            assert(xor ^ ((r ^ g) ^ b) == ((xor ^ r) ^ g) ^ b) by (bit_vector);
        }
        xor = xor ^ (r ^ g ^ b);
        i = i + 1;
    }
    payload[148] = 0x42 ^ xor;
    assert(bytes.take(144) =~= bytes);
    assert forall|j: int| 0 <= j < 149 implies payload@[j] == sync_payload(colors@, audio)[j] by {
        if 4 <= j < 148 {
            assert(payload@[4 + (j - 4)] == bytes[j - 4]);
        }
    }
    assert(payload@ =~= sync_payload(colors@, audio));
    proof {
        assert forall|i: int| #![trigger colors@[i]] 0 <= i < 48 implies {
            &&& payload@[4 + 3 * i] == lit(colors@[i].r)
            &&& payload@[5 + 3 * i] == lit(colors@[i].g)
            &&& payload@[6 + 3 * i] == lit(colors@[i].b)
        } by {
            colors_stand_at_their_places(colors@, audio, i);
        }
    }
    payload
}

/// The reports of one command on their way to the device. A failed write gives
/// up the rest: the monitor counts the reports of a sync frame, so skipping
/// the remaining ones keeps the stream aligned at the next frame's first
/// report.
pub struct Transfer {
    reports: Vec<Report>,
    next: usize,
    failed: bool,
}

impl Transfer {
    /// The reports of the command.
    pub closed spec fn all(&self) -> Seq<Report> {
        self.reports@
    }

    /// How many of them have been written.
    pub closed spec fn written(&self) -> int {
        self.next as int
    }

    /// Has a write failed?
    pub closed spec fn broken(&self) -> bool {
        self.failed
    }

    pub open spec fn wf(&self) -> bool {
        0 <= self.written() <= self.all().len() <= usize::MAX
    }

    pub fn new(reports: Vec<Report>) -> (t: Transfer)
        ensures
            t.wf(),
            t.all() == reports@,
            t.written() == 0,
            !t.broken(),
    {
        assert(reports.len() <= usize::MAX);
        Transfer { reports, next: 0, failed: false }
    }

    /// The report to write now, if the command is not over: none after a failed
    /// write.
    pub fn pending(&self) -> (report: Option<Report>)
        requires
            self.wf(),
        ensures
            report == (if !self.broken() && self.written() < self.all().len() {
                Some(self.all()[self.written()])
            } else {
                None
            }),
    {
        if !self.failed && self.next < self.reports.len() {
            Some(self.reports[self.next])
        } else {
            None
        }
    }

    /// Records the outcome of writing the pending report.
    pub fn wrote(&mut self, ok: bool)
        requires
            old(self).wf(),
            !old(self).broken(),
            old(self).written() < old(self).all().len(),
        ensures
            final(self).wf(),
            final(self).all() == old(self).all(),
            final(self).written() == old(self).written() + (if ok {
                1int
            } else {
                0
            }),
            final(self).broken() == !ok,
    {
        if ok {
            self.next = self.next + 1;
        } else {
            self.failed = true;
        }
    }

    /// Did every report of the command reach the device?
    pub fn succeeded(&self) -> (ok: bool)
        requires
            self.wf(),
        ensures
            ok <==> !self.broken() && self.written() == self.all().len(),
    {
        !self.failed && self.next == self.reports.len()
    }
}

/// One payload is framed as it is alone.
pub proof fn lemma_single(payload: Seq<u8>)
    ensures
        all_reports(seq![payload]) == reports(payload),
{
    let one = seq![payload];
    assert(one.drop_last() =~= Seq::<Seq<u8>>::empty());
    assert(all_reports(one.drop_last()) =~= Seq::<Seq<u8>>::empty());
    assert(all_reports(one) =~= reports(payload));
}

/// Payloads framed one after the other are framed independently of each other.
pub proof fn lemma_all_reports_add(a: Seq<Seq<u8>>, b: Seq<Seq<u8>>)
    ensures
        all_reports(a + b) == all_reports(a) + all_reports(b),
    decreases b.len(),
{
    if b.len() == 0 {
        assert(a + b =~= a);
        assert(all_reports(a + b) =~= all_reports(a) + all_reports(b));
    } else {
        assert((a + b).drop_last() =~= a + b.drop_last());
        lemma_all_reports_add(a, b.drop_last());
        assert(all_reports(a + b) =~= all_reports(a) + all_reports(b));
    }
}

/// XOR over a concatenation.
pub proof fn lemma_xor_add(a: Seq<u8>, b: Seq<u8>)
    ensures
        xor_all(a + b) == xor_all(a) ^ xor_all(b),
    decreases b.len(),
{
    if b.len() == 0 {
        assert(a + b =~= a);
        let x = xor_all(a);
        assert(x ^ 0 == x) by (bit_vector);
    } else {
        assert((a + b).drop_last() =~= a + b.drop_last());
        lemma_xor_add(a, b.drop_last());
        let x = xor_all(a);
        let y = xor_all(b.drop_last());
        let z = b.last();
        assert((x ^ y) ^ z == x ^ (y ^ z)) by (bit_vector);
    }
}

proof fn lemma_xor_push(s: Seq<u8>, b: u8)
    ensures
        xor_all(s.push(b)) == xor_all(s) ^ b,
{
    assert(s.push(b).drop_last() =~= s);
}

proof fn lemma_xor_header_and(s: Seq<u8>)
    requires
        s.len() == 6,
    ensures
        xor_all(header() + s) == 0x10u8 ^ s[0] ^ s[1] ^ s[2] ^ s[3] ^ s[4] ^ s[5],
{
    let t = header() + s;
    reveal_with_fuel(xor_all, 9);
    assert(t.drop_last() =~= t.take(7));
    assert(t.take(7).drop_last() =~= t.take(6));
    assert(t.take(6).drop_last() =~= t.take(5));
    assert(t.take(5).drop_last() =~= t.take(4));
    assert(t.take(4).drop_last() =~= t.take(3));
    assert(t.take(3).drop_last() =~= t.take(2));
    assert(t.take(2).drop_last() =~= t.take(1));
    assert(t.take(1).drop_last() =~= t.take(0));
    assert((0u8 ^ 0x53) ^ 0x43 == 0x10) by (bit_vector);
}

/// The payload can be read back from its reports: no two payloads are framed
/// alike.
pub proof fn framing_is_injective(a: Seq<u8>, b: Seq<u8>)
    requires
        fits(a),
        fits(b),
        reports(a) == reports(b),
    ensures
        a == b,
{
    let pa = packet(a);
    let pb = packet(b);
    assert(reports(a).len() == reports(b).len());
    let n = report_count(a.len() as int);
    assert(reports(b).len() == report_count(b.len() as int));
    assert(n == report_count(b.len() as int));
    assert(64 * n >= a.len() + 4 && 64 * n >= b.len() + 4);
    assert(pa.len() == 64 * n);
    assert(pb.len() == 64 * n);
    assert forall|k: int| 0 <= k < 64 * n implies pa[k] == pb[k] by {
        let i = k / 64;
        let j = k % 64;
        assert(reports(a)[i][1 + j] == pa[k]);
        assert(reports(b)[i][1 + j] == pb[k]);
    }
    if a.len() < b.len() {
        assert(pb[b.len() as int + 3] == 0x44);
        assert(pa[b.len() as int + 3] == 0);
    }
    if b.len() < a.len() {
        assert(pa[a.len() as int + 3] == 0x44);
        assert(pb[a.len() as int + 3] == 0);
    }
    assert forall|k: int| 0 <= k < a.len() implies a[k] == b[k] by {
        assert(pa[2 + k] == a[k]);
        assert(pb[2 + k] == b[k]);
    }
    assert(a =~= b);
}

/// A sync frame is as many reports as the arm command announces.
pub proof fn arm_announces_the_frame_length(colors: Seq<RGBColor>, audio: bool, mode: u8)
    requires
        colors.len() == LEDS,
    ensures
        sync_payload(colors, audio).len() == SYNC_PAYLOAD,
        fits(sync_payload(colors, audio)),
        reports(sync_payload(colors, audio)).len() == arm_payload(mode)[3],
{
}

/// No color byte of a sync frame is 0: the monitor's driver would hang.
pub proof fn sync_frame_has_no_zero_component(colors: Seq<RGBColor>, audio: bool, i: int)
    requires
        4 <= i < 4 + 3 * colors.len(),
    ensures
        sync_payload(colors, audio)[i] >= 1,
{
    assert(sync_payload(colors, audio)[i] == color_bytes(colors)[i - 4]);
}

/// Every LED's red, green and blue stand at its place in a sync frame, behind the
/// four bytes that open it, each at least 1.
pub proof fn colors_stand_at_their_places(colors: Seq<RGBColor>, audio: bool, i: int)
    requires
        0 <= i < colors.len(),
    ensures
        ({
            let p = sync_payload(colors, audio);
            let c = colors[i];
            &&& p.len() == 3 * colors.len() + 5
            &&& p[0] == (if audio {
                0xC2u8
            } else {
                0xC1u8
            })
            &&& p[1] == 0x02 && p[2] == 0x91 && p[3] == 0x00
            &&& p[4 + 3 * i] >= 1 && (p[4 + 3 * i] == c.r || (c.r == 0 && p[4 + 3 * i] == 1))
            &&& p[5 + 3 * i] >= 1 && (p[5 + 3 * i] == c.g || (c.g == 0 && p[5 + 3 * i] == 1))
            &&& p[6 + 3 * i] >= 1 && (p[6 + 3 * i] == c.b || (c.b == 0 && p[6 + 3 * i] == 1))
        }),
{
    let bytes = color_bytes(colors);
    let p = sync_payload(colors, audio);
    assert(p[4 + 3 * i] == bytes[3 * i]);
    assert(p[5 + 3 * i] == bytes[3 * i + 1]);
    assert(p[6 + 3 * i] == bytes[3 * i + 2]);
    assert((3 * i) / 3 == i && (3 * i) % 3 == 0);
    assert((3 * i + 1) / 3 == i && (3 * i + 1) % 3 == 1);
    assert((3 * i + 2) / 3 == i && (3 * i + 2) % 3 == 2);
}

/// The check of some bytes is 0 for none, and every further byte is XORed into
/// it.
pub proof fn the_check_takes_every_byte_in(s: Seq<u8>, b: u8)
    ensures
        xor_all(Seq::empty()) == 0,
        xor_all(s.push(b)) == xor_all(s) ^ b,
{
    assert(s.push(b).drop_last() =~= s);
}

/// The color bytes and the check byte of a sync frame XOR to 0x42.
pub proof fn sync_frame_checks_out(colors: Seq<RGBColor>, audio: bool)
    ensures
        xor_all(sync_payload(colors, audio).skip(4)) == 0x42,
{
    let x = xor_all(color_bytes(colors));
    assert(sync_payload(colors, audio).skip(4) =~= color_bytes(colors).push(0x42u8 ^ x));
    lemma_xor_push(color_bytes(colors), 0x42u8 ^ x);
    assert(x ^ (0x42u8 ^ x) == 0x42) by (bit_vector);
}

/// Every command's last byte makes the header and the payload XOR to zero, the
/// video sync frame's too.
pub proof fn commands_check_out(
    level: u8,
    mode: u8,
    slot: u8,
    r: u8,
    g: u8,
    b: u8,
    colors: Seq<RGBColor>,
)
    ensures
        xor_all(header() + turn_on_payload()) == 0,
        xor_all(header() + turn_off_payload()) == 0,
        xor_all(header() + brightness_payload(level)) == 0,
        xor_all(header() + mode_payload(mode)) == 0,
        xor_all(header() + arm_payload(mode)) == 0,
        xor_all(header() + static_color_payload(slot, r, g, b)) == 0,
        xor_all(header() + sync_payload(colors, false)) == 0,
{
    lemma_xor_header_and(turn_on_payload());
    lemma_xor_header_and(turn_off_payload());
    lemma_xor_header_and(brightness_payload(level));
    lemma_xor_header_and(mode_payload(mode));
    lemma_xor_header_and(arm_payload(mode));
    assert(0x10u8 ^ 0xCF ^ 0x02 ^ 0x02 ^ 0x01 ^ 0x00 ^ 0xDE == 0) by (bit_vector);
    assert(0x10u8 ^ 0xCF ^ 0x02 ^ 0x02 ^ 0x02 ^ 0x00 ^ 0xDD == 0) by (bit_vector);
    assert(0x10u8 ^ 0xCF ^ 0x02 ^ 0x02 ^ 0x01 ^ level ^ (level ^ 0xDE) == 0) by (bit_vector);
    assert(0x10u8 ^ 0xC7 ^ 0x02 ^ 0x02 ^ 0x00 ^ mode ^ (mode ^ 0xD7) == 0) by (bit_vector);
    assert(0x10u8 ^ 0xCA ^ 0x02 ^ 0x02 ^ 0x03 ^ mode ^ (mode ^ 0xD9) == 0) by (bit_vector);
    let body = header() + static_color_body(slot, r, g, b);
    let c = xor_all(body);
    assert(header() + static_color_payload(slot, r, g, b) =~= body.push(c));
    lemma_xor_push(body, c);
    assert(c ^ c == 0) by (bit_vector);
    let frame = sync_payload(colors, false);
    let head = header() + seq![0xC1u8, 0x02, 0x91, 0x00];
    assert(header() + frame =~= head + frame.skip(4));
    lemma_xor_add(head, frame.skip(4));
    sync_frame_checks_out(colors, false);
    reveal_with_fuel(xor_all, 7);
    assert(head.drop_last() =~= head.take(5));
    assert(head.take(5).drop_last() =~= head.take(4));
    assert(head.take(4).drop_last() =~= head.take(3));
    assert(head.take(3).drop_last() =~= head.take(2));
    assert(head.take(2).drop_last() =~= head.take(1));
    assert(head.take(1).drop_last() =~= head.take(0));
    assert((0u8 ^ 0x53 ^ 0x43 ^ 0xC1 ^ 0x02 ^ 0x91 ^ 0x00) ^ 0x42 == 0) by (bit_vector);
}

} // verus!
