//! Daikin 280-bit (35-byte) infrared protocol: the packet layout, its three section
//! checksums, and the mark/space pulse train sent on a 38 kHz carrier.
use vstd::prelude::*;

verus! {

pub const DAIKIN_STATE_LENGTH: usize = 35;

pub const DAIKIN_SECTION1_LEN: usize = 8;

pub const DAIKIN_SECTION2_LEN: usize = 8;

pub const DAIKIN_SECTION3_LEN: usize = 19;

pub const CARRIER_FREQ_HZ: u32 = 38_000;

pub const DUTY_PERCENT: u32 = 33;

pub const HDR_MARK_US: u32 = 3650;

pub const HDR_SPACE_US: u32 = 1623;

pub const BIT_MARK_US: u32 = 428;

pub const ZERO_SPACE_US: u32 = 428;

pub const ONE_SPACE_US: u32 = 1280;

pub const GAP_SPACE_US: u32 = 29_000;

/// Mark of the footer that ends every segment of the frame.
pub const FOOTER_MARK_US: u32 = BIT_MARK_US;

/// Space of the footer that ends every segment of the frame (zero space plus the gap).
pub const FOOTER_SPACE_US: u32 = ZERO_SPACE_US + GAP_SPACE_US;

/// Operating mode of the unit.
#[derive(Debug, Clone, Copy, PartialEq, Eq, Structural)]
pub enum OperationMode {
    Auto,
    Dry,
    Cool,
    Heat,
    Fan,
}

impl OperationMode {
    /// The 3-bit code of the mode in the protocol.
    pub open spec fn spec_bits(self) -> u8 {
        match self {
            OperationMode::Auto => 0,
            OperationMode::Dry => 2,
            OperationMode::Cool => 3,
            OperationMode::Heat => 4,
            OperationMode::Fan => 6,
        }
    }

    /// The 3-bit code of the mode in the protocol.
    pub fn bits(self) -> (b: u8)
        ensures
            b == self.spec_bits(),
    {
        match self {
            OperationMode::Auto => 0,
            OperationMode::Dry => 2,
            OperationMode::Cool => 3,
            OperationMode::Heat => 4,
            OperationMode::Fan => 6,
        }
    }
}

/// Fan speed of the unit.
#[derive(Debug, Clone, Copy, PartialEq, Eq, Structural)]
pub enum FanSpeed {
    Min,
    Med,
    Max,
    Auto,
    Quiet,
}

impl FanSpeed {
    /// The speed's number: 1, 3 and 5 for the fixed speeds, 10 for automatic, 11 for quiet.
    pub open spec fn spec_value(self) -> u8 {
        match self {
            FanSpeed::Min => 1,
            FanSpeed::Med => 3,
            FanSpeed::Max => 5,
            FanSpeed::Auto => 10,
            FanSpeed::Quiet => 11,
        }
    }

    pub fn value(self) -> (v: u8)
        ensures
            v == self.spec_value(),
    {
        match self {
            FanSpeed::Min => 1,
            FanSpeed::Med => 3,
            FanSpeed::Max => 5,
            FanSpeed::Auto => 10,
            FanSpeed::Quiet => 11,
        }
    }

    /// The 4-bit code of the speed in the packet: the fixed speeds are offset by 2.
    pub open spec fn spec_code(self) -> u8 {
        match self {
            FanSpeed::Quiet => 0x0B,
            FanSpeed::Auto => 0x0A,
            FanSpeed::Min => 3,
            FanSpeed::Med => 5,
            FanSpeed::Max => 7,
        }
    }
}

/// A command for the unit.
#[derive(Debug, Clone, Copy, PartialEq, Eq, Structural)]
pub struct DaikinCommand {
    pub power: bool,
    pub mode: OperationMode,
    pub temp_celsius: u8,
    pub fan: FanSpeed,
    pub swing_v: bool,
}

/// The temperature range that the unit accepts: 10 to 32 degrees Celsius.
pub open spec fn spec_clamp_temp(t: u8) -> u8 {
    if t < 10 {
        10
    } else if t > 32 {
        32
    } else {
        t
    }
}

/// Clamps a temperature to 10..=32 degrees Celsius.
pub fn clamp_temp(t: u8) -> (c: u8)
    ensures
        c == spec_clamp_temp(t),
{
    if t < 10 {
        10
    } else if t > 32 {
        32
    } else {
        t
    }
}

/// The command that switches the unit off (cool mode, 24 degrees, automatic fan).
pub open spec fn spec_off_command() -> DaikinCommand {
    DaikinCommand {
        power: false,
        mode: OperationMode::Cool,
        temp_celsius: 24,
        fan: FanSpeed::Auto,
        swing_v: false,
    }
}

/// The command that cools at the given temperature, clamped to 10..=32.
pub open spec fn spec_cool_at(temp: u8) -> DaikinCommand {
    DaikinCommand {
        power: true,
        mode: OperationMode::Cool,
        temp_celsius: spec_clamp_temp(temp),
        fan: FanSpeed::Auto,
        swing_v: false,
    }
}

impl Default for DaikinCommand {
    fn default() -> (c: Self)
        ensures
            c == spec_off_command(),
    {
        DaikinCommand {
            power: false,
            mode: OperationMode::Cool,
            temp_celsius: 24,
            fan: FanSpeed::Auto,
            swing_v: false,
        }
    }
}

impl DaikinCommand {
    pub fn cool_at(temp: u8) -> (c: Self)
        ensures
            c == spec_cool_at(temp),
    {
        DaikinCommand {
            power: true,
            mode: OperationMode::Cool,
            temp_celsius: clamp_temp(temp),
            fan: FanSpeed::Auto,
            swing_v: false,
        }
    }

    pub fn off() -> (c: Self)
        ensures
            c == spec_off_command(),
    {
        DaikinCommand {
            power: false,
            mode: OperationMode::Cool,
            temp_celsius: 24,
            fan: FanSpeed::Auto,
            swing_v: false,
        }
    }
}

// ---------------------------------------------------------------------------------------
// Packet bytes
// ---------------------------------------------------------------------------------------

/// Sum of a sequence of bytes.
pub open spec fn byte_sum(s: Seq<u8>) -> int
    decreases s.len(),
{
    if s.len() == 0 {
        0
    } else {
        byte_sum(s.drop_last()) + s.last()
    }
}

/// The checksum of the bytes `lo..hi`: their sum modulo 256.
pub open spec fn section_checksum(s: Seq<u8>, lo: int, hi: int) -> u8 {
    (byte_sum(s.subrange(lo, hi)) % 256) as u8
}

/// The three checksums of a packet: byte 7 covers bytes 0..7, byte 15 covers 8..15 and
/// byte 34 covers 16..34.
pub open spec fn checksums_ok(s: Seq<u8>) -> bool {
    &&& s[7] == section_checksum(s, 0, 7)
    &&& s[15] == section_checksum(s, 8, 15)
    &&& s[34] == section_checksum(s, 16, 34)
}

/// The packet with its three checksum bytes recomputed.
pub open spec fn with_checksums(s: Seq<u8>) -> Seq<u8> {
    s.update(7, section_checksum(s, 0, 7)).update(15, section_checksum(s, 8, 15)).update(
        34,
        section_checksum(s, 16, 34),
    )
}

/// The constant part of a fresh packet, before its checksums are computed.
pub open spec fn packet_template() -> Seq<u8> {
    seq![
        0x11u8, 0xDA, 0x27, 0x00, 0xC5, 0x00, 0x00, 0x00,
        0x11, 0xDA, 0x27, 0x00, 0x42, 0x00, 0x00, 0x00,
        0x11, 0xDA, 0x27, 0x00, 0x00, 0x49, 0x1E, 0x00, 0xB0, 0x00, 0x00, 0x06, 0x60, 0x00, 0x00,
        0xC0, 0x00, 0x00, 0x00,
    ]
}

/// A fresh packet: the template with its checksums.
pub open spec fn default_packet() -> Seq<u8> {
    with_checksums(packet_template())
}

/// Byte 21 with the power bit (bit 0) set or cleared.
pub open spec fn power_byte(b: u8, on: bool) -> u8 {
    if on {
        b | 0x01
    } else {
        b & 0xFE
    }
}

/// Byte 21 with the mode written in bits 4..6 and bit 3 set.
pub open spec fn mode_byte(b: u8, mode: OperationMode) -> u8 {
    (b & 0x87) | 0x08 | ((mode.spec_bits() & 0x07) << 4u8)
}

/// Byte 24 with the fan code written in its high nibble.
pub open spec fn fan_byte(b: u8, fan: FanSpeed) -> u8 {
    (b & 0x0F) | ((fan.spec_code() & 0x0F) << 4u8)
}

/// Byte 24 with the vertical swing written in its low nibble (0xF on, 0x0 off).
pub open spec fn swing_byte(b: u8, on: bool) -> u8 {
    (b & 0xF0) | ((if on { 0x0Fu8 } else { 0x00u8 }) & 0x0F)
}

/// The packet that a command encodes to.
pub open spec fn spec_packet_of(cmd: DaikinCommand) -> Seq<u8> {
    let d = default_packet();
    let b21 = mode_byte(power_byte(d[21], cmd.power), cmd.mode);
    let b24 = swing_byte(fan_byte(d[24], cmd.fan), cmd.swing_v);
    with_checksums(
        d.update(21, b21).update(22, (spec_clamp_temp(cmd.temp_celsius) * 2) as u8).update(24, b24),
    )
}

/// The raw 35-byte state of a Daikin command frame.
#[derive(Debug, PartialEq, Eq)]
pub struct DaikinPacket {
    raw: [u8; 35],
}

impl View for DaikinPacket {
    type V = Seq<u8>;

    closed spec fn view(&self) -> Seq<u8> {
        self.raw@
    }
}

impl Clone for DaikinPacket {
    fn clone(&self) -> (p: Self)
        ensures
            p@ == self@,
    {
        DaikinPacket { raw: self.raw }
    }
}

impl Default for DaikinPacket {
    fn default() -> (p: Self)
        ensures
            p@ == default_packet(),
    {
        let mut p = DaikinPacket { raw: [0u8; 35] };
        p.reset();
        p
    }
}

/// Sums `raw[lo..hi]` and returns the checksum byte.
fn checksum_of(raw: &[u8; 35], lo: usize, hi: usize) -> (c: u8)
    requires
        lo <= hi <= 35,
    ensures
        c == section_checksum(raw@, lo as int, hi as int),
{
    let mut sum: u32 = 0;
    let mut i = lo;
    while i < hi
        invariant
            lo <= i <= hi <= 35,
            sum == byte_sum(raw@.subrange(lo as int, i as int)),
            sum <= 255 * (i - lo),
        decreases hi - i,
    {
        assert(raw@.subrange(lo as int, i + 1).drop_last() =~= raw@.subrange(lo as int, i as int));
        sum = sum + raw[i] as u32;
        i = i + 1;
    }
    assert((sum & 0xFF) == sum % 256) by (bit_vector);
    (sum & 0xFF) as u8
}

impl DaikinPacket {
    pub fn new() -> (p: Self)
        ensures
            p@ == default_packet(),
    {
        Self::default()
    }

    /// Encodes a command into a packet with valid checksums.
    pub fn from_command(cmd: &DaikinCommand) -> (p: Self)
        ensures
            p@ == spec_packet_of(*cmd),
    {
        let mut p = Self::new();
        p.set_power(cmd.power);
        p.set_mode(cmd.mode);
        p.set_temp(cmd.temp_celsius);
        p.set_fan(cmd.fan);
        p.set_swing_v(cmd.swing_v);
        proof {
            let d = default_packet();
            let b21 = mode_byte(power_byte(d[21], cmd.power), cmd.mode);
            let b24 = swing_byte(fan_byte(d[24], cmd.fan), cmd.swing_v);
            assert(p@ =~= d.update(21, b21).update(22, (spec_clamp_temp(cmd.temp_celsius) * 2) as u8).update(
                24,
                b24,
            ));
        }
        p.recompute_checksums();
        p
    }

    /// Resets to the fresh packet: section headers, default fields, valid checksums.
    pub fn reset(&mut self)
        ensures
            final(self)@ == default_packet(),
    {
        self.raw = [0u8; 35];
        self.raw[0] = 0x11;
        self.raw[1] = 0xDA;
        self.raw[2] = 0x27;
        self.raw[4] = 0xC5;
        self.raw[8] = 0x11;
        self.raw[9] = 0xDA;
        self.raw[10] = 0x27;
        self.raw[12] = 0x42;
        self.raw[16] = 0x11;
        self.raw[17] = 0xDA;
        self.raw[18] = 0x27;
        self.raw[21] = 0x49;
        self.raw[22] = 0x1E;
        self.raw[24] = 0xB0;
        self.raw[27] = 0x06;
        self.raw[28] = 0x60;
        self.raw[31] = 0xC0;
        assert(self.raw@ =~= packet_template());
        self.recompute_checksums();
    }

    pub fn set_power(&mut self, on: bool)
        ensures
            final(self)@ == old(self)@.update(21, power_byte(old(self)@[21], on)),
    {
        if on {
            self.raw[21] = self.raw[21] | 0x01;
        } else {
            self.raw[21] = self.raw[21] & 0xFE;
        }
        assert(self@ =~= old(self)@.update(21, power_byte(old(self)@[21], on)));
    }

    pub fn get_power(&self) -> (on: bool)
        ensures
            on == ((self@[21] & 0x01) != 0),
    {
        (self.raw[21] & 0x01) != 0
    }

    /// Writes the mode in bits 4..6 of byte 21; bit 3 is always set.
    pub fn set_mode(&mut self, mode: OperationMode)
        ensures
            final(self)@ == old(self)@.update(21, mode_byte(old(self)@[21], mode)),
    {
        let bits = mode.bits();
        assert((bits & 0x07) << 4u8 == (bits & 0x07) * 16) by (bit_vector);
        self.raw[21] = (self.raw[21] & 0x87) | 0x08 | ((bits & 0x07) << 4u8);
        assert(self@ =~= old(self)@.update(21, mode_byte(old(self)@[21], mode)));
    }

    /// Stores the temperature, clamped to 10..=32, as twice its value in byte 22.
    pub fn set_temp(&mut self, celsius: u8)
        ensures
            final(self)@ == old(self)@.update(22, (spec_clamp_temp(celsius) * 2) as u8),
    {
        let clamped = clamp_temp(celsius);
        self.raw[22] = clamped * 2;
        assert(self@ =~= old(self)@.update(22, (spec_clamp_temp(celsius) * 2) as u8));
    }

    pub fn get_temp(&self) -> (t: u8)
        ensures
            t == self@[22] / 2,
    {
        self.raw[22] / 2
    }

    /// Writes the fan code in the high nibble of byte 24.
    pub fn set_fan(&mut self, fan: FanSpeed)
        ensures
            final(self)@ == old(self)@.update(24, fan_byte(old(self)@[24], fan)),
    {
        let fan_val: u8 = match fan {
            FanSpeed::Quiet => 0x0B,
            FanSpeed::Auto => 0x0A,
            FanSpeed::Min => 2 + 1,
            FanSpeed::Med => 2 + 3,
            FanSpeed::Max => 2 + 5,
        };
        self.raw[24] = (self.raw[24] & 0x0F) | ((fan_val & 0x0F) << 4u8);
        assert(self@ =~= old(self)@.update(24, fan_byte(old(self)@[24], fan)));
    }

    /// Writes the vertical swing in the low nibble of byte 24.
    pub fn set_swing_v(&mut self, on: bool)
        ensures
            final(self)@ == old(self)@.update(24, swing_byte(old(self)@[24], on)),
    {
        let val: u8 = if on {
            0x0F
        } else {
            0x00
        };
        self.raw[24] = (self.raw[24] & 0xF0) | (val & 0x0F);
        assert(self@ =~= old(self)@.update(24, swing_byte(old(self)@[24], on)));
    }

    pub fn raw_bytes(&self) -> (raw: &[u8; 35])
        ensures
            raw@ == self@,
    {
        &self.raw
    }

    /// Recomputes the three section checksums.
    pub fn recompute_checksums(&mut self)
        ensures
            final(self)@ == with_checksums(old(self)@),
    {
        let ghost s = self@;
        let c1 = checksum_of(&self.raw, 0, 7);
        self.raw[7] = c1;
        assert(self@.subrange(8, 15) =~= s.subrange(8, 15));
        let c2 = checksum_of(&self.raw, 8, 15);
        self.raw[15] = c2;
        assert(self@.subrange(16, 34) =~= s.subrange(16, 34));
        let c3 = checksum_of(&self.raw, 16, 34);
        self.raw[34] = c3;
        assert(self@ =~= with_checksums(s));
    }

    /// Whether all three section checksums hold.
    pub fn verify_checksums(&self) -> (ok: bool)
        ensures
            ok == checksums_ok(self@),
    {
        let c1 = checksum_of(&self.raw, 0, 7);
        if self.raw[7] != c1 {
            return false;
        }
        let c2 = checksum_of(&self.raw, 8, 15);
        if self.raw[15] != c2 {
            return false;
        }
        let c3 = checksum_of(&self.raw, 16, 34);
        self.raw[34] == c3
    }
}

// ---------------------------------------------------------------------------------------
// Pulse train
// ---------------------------------------------------------------------------------------

/// The footer that ends every segment: a bit mark, then the zero space plus the gap.
pub open spec fn footer_pulse() -> (u32, u32) {
    (FOOTER_MARK_US, FOOTER_SPACE_US)
}

/// The header that starts every section.
pub open spec fn header_pulse() -> (u32, u32) {
    (HDR_MARK_US, HDR_SPACE_US)
}

/// Bit `j` of a byte as a pulse: a bit mark, then a one-space or a zero-space.
pub open spec fn data_pulse(b: u8, j: u8) -> (u32, u32) {
    (BIT_MARK_US, if b & (1u8 << j) != 0 { ONE_SPACE_US } else { ZERO_SPACE_US })
}

/// The data bits of a run of bytes, each byte sent least significant bit first.
pub open spec fn data_pulses(bytes: Seq<u8>) -> Seq<(u32, u32)> {
    Seq::new((8 * bytes.len()) as nat, |i: int| data_pulse(bytes[i / 8], (i % 8) as u8))
}

/// A section: header, data bits, footer.
pub open spec fn section_pulses(bytes: Seq<u8>) -> Seq<(u32, u32)> {
    seq![header_pulse()] + data_pulses(bytes) + seq![footer_pulse()]
}

/// The leader: five zero bits and a footer.
pub open spec fn preamble_pulses() -> Seq<(u32, u32)> {
    Seq::new(5, |i: int| (BIT_MARK_US, ZERO_SPACE_US)).push(footer_pulse())
}

/// The whole frame of a packet: leader, then sections of bytes 0..8, 8..16 and 16..35.
pub open spec fn spec_pulses(s: Seq<u8>) -> Seq<(u32, u32)> {
    preamble_pulses() + section_pulses(s.subrange(0, 8)) + section_pulses(s.subrange(8, 16))
        + section_pulses(s.subrange(16, 35))
}

proof fn lemma_div8(i: int, q: int)
    requires
        8 * q <= i < 8 * q + 8,
    ensures
        i / 8 == q,
        i % 8 == i - 8 * q,
{
    vstd::arithmetic::div_mod::lemma_fundamental_div_mod_converse(i, 8, q, i - 8 * q);
}

impl DaikinPacket {
    /// Appends a section (header, the bits of `raw[lo..hi]`, footer) to the pulse train.
    fn encode_section(raw: &[u8; 35], lo: usize, hi: usize, pulses: &mut Vec<(u32, u32)>)
        requires
            lo <= hi <= 35,
            old(pulses)@.len() + 1 + 8 * (hi - lo) + 1 <= usize::MAX,
        ensures
            final(pulses)@ == old(pulses)@ + section_pulses(raw@.subrange(lo as int, hi as int)),
    {
        pulses.push((HDR_MARK_US, HDR_SPACE_US));
        let ghost base = pulses@;
        let mut k = lo;
        while k < hi
            invariant
                lo <= k <= hi <= 35,
                pulses@ == base + data_pulses(raw@.subrange(lo as int, k as int)),
            decreases hi - k,
        {
            let byte = raw[k];
            let ghost done = data_pulses(raw@.subrange(lo as int, k as int));
            let mut bit: u8 = 0;
            while bit < 8
                invariant
                    bit <= 8,
                    byte == raw@[k as int],
                    pulses@ == base + done + Seq::new(bit as nat, |j: int| data_pulse(byte, j as u8)),
                decreases 8 - bit,
            {
                let space = if (byte & (1u8 << bit)) != 0 {
                    ONE_SPACE_US
                } else {
                    ZERO_SPACE_US
                };
                pulses.push((BIT_MARK_US, space));
                assert(pulses@ =~= base + done + Seq::new((bit + 1) as nat, |j: int| data_pulse(byte, j as u8)));
                bit = bit + 1;
            }
            proof {
                let n = k - lo;
                let next = data_pulses(raw@.subrange(lo as int, k + 1));
                let this = Seq::new(8, |j: int| data_pulse(byte, j as u8));
                assert forall|i: int| 0 <= i < 8 * (n + 1) implies #[trigger] next[i] == (done + this)[i] by {
                    lemma_div8(i, i / 8);
                    if i < 8 * n {
                        assert(i / 8 < n) by {
                            vstd::arithmetic::div_mod::lemma_div_is_ordered(i, 8 * n - 1, 8);
                            lemma_div8(8 * n - 1, n - 1);
                        }
                    } else {
                        lemma_div8(i, n);
                    }
                }
                assert(next =~= done + this);
            }
            k = k + 1;
        }
        pulses.push((FOOTER_MARK_US, FOOTER_SPACE_US));
    }

    /// The frame as (mark, space) durations in microseconds: a leader of five zero bits
    /// and a footer, then each section as a header, its bytes least significant bit first,
    /// and a footer.
    pub fn to_pulses(&self) -> (pulses: Vec<(u32, u32)>)
        ensures
            pulses@ == spec_pulses(self@),
    {
        let mut pulses: Vec<(u32, u32)> = Vec::with_capacity(300);
        let mut i: usize = 0;
        while i < 5
            invariant
                i <= 5,
                pulses@ == Seq::new(i as nat, |j: int| (BIT_MARK_US, ZERO_SPACE_US)),
            decreases 5 - i,
        {
            pulses.push((BIT_MARK_US, ZERO_SPACE_US));
            assert(pulses@ =~= Seq::new((i + 1) as nat, |j: int| (BIT_MARK_US, ZERO_SPACE_US)));
            i = i + 1;
        }
        pulses.push((FOOTER_MARK_US, FOOTER_SPACE_US));
        assert(pulses@ =~= preamble_pulses());
        Self::encode_section(&self.raw, 0, 8, &mut pulses);
        Self::encode_section(&self.raw, 8, 16, &mut pulses);
        Self::encode_section(&self.raw, 16, 35, &mut pulses);
        assert(pulses@ =~= spec_pulses(self@));
        pulses
    }
}

// ---------------------------------------------------------------------------------------
// Laws
// ---------------------------------------------------------------------------------------

/// Recomputing the checksums of a packet makes all three of them hold.
pub proof fn law_recomputed_checksums_verify(s: Seq<u8>)
    requires
        s.len() == 35,
    ensures
        checksums_ok(with_checksums(s)),
        with_checksums(s).len() == 35,
{
    let t = with_checksums(s);
    assert(t.subrange(0, 7) =~= s.subrange(0, 7));
    assert(t.subrange(8, 15) =~= s.subrange(8, 15));
    assert(t.subrange(16, 34) =~= s.subrange(16, 34));
}

/// Writing the power bit reads back as written and leaves the other bits of the byte alone.
pub proof fn law_power_bit(b: u8, on: bool)
    ensures
        ((power_byte(b, on) & 0x01) != 0) == on,
        power_byte(b, on) & 0xFE == b & 0xFE,
{
    if on {
        assert(((b | 0x01) & 0x01) != 0 && (b | 0x01) & 0xFE == b & 0xFE) by (bit_vector);
    } else {
        assert(((b & 0xFE) & 0x01) == 0 && (b & 0xFE) & 0xFE == b & 0xFE) by (bit_vector);
    }
}

/// The temperature byte reads back as the clamped temperature.
pub proof fn law_temperature_reads_back(t: u8)
    ensures
        ((spec_clamp_temp(t) * 2) as u8) / 2 == spec_clamp_temp(t),
        10 <= spec_clamp_temp(t) <= 32,
{
}

/// Writing the mode puts its code in bits 4..6, sets bit 3, and keeps bits 0..2 and 7.
pub proof fn law_mode_bits(b: u8, mode: OperationMode)
    ensures
        (mode_byte(b, mode) >> 4u8) & 0x07 == mode.spec_bits(),
        mode_byte(b, mode) & 0x08 == 0x08,
        mode_byte(b, mode) & 0x87 == b & 0x87,
{
    let m = mode.spec_bits();
    assert(m < 8);
    assert(m < 8 ==> ((((b & 0x87) | 0x08 | ((m & 0x07) << 4u8)) >> 4u8) & 0x07 == m && (((b & 0x87)
        | 0x08 | ((m & 0x07) << 4u8)) & 0x08) == 0x08 && (((b & 0x87) | 0x08 | ((m & 0x07) << 4u8))
        & 0x87) == b & 0x87)) by (bit_vector);
}

/// Byte 24 carries the fan code in its high nibble and the swing in its low nibble.
pub proof fn law_fan_and_swing_bits(b: u8, fan: FanSpeed, on: bool)
    ensures
        swing_byte(fan_byte(b, fan), on) >> 4u8 == fan.spec_code(),
        swing_byte(fan_byte(b, fan), on) & 0x0F == (if on { 0x0Fu8 } else { 0x00u8 }),
{
    let c = fan.spec_code();
    let v: u8 = if on { 0x0F } else { 0x00 };
    assert(c < 16);
    assert(c < 16 && (v == 0x0F || v == 0) ==> (((((b & 0x0F) | ((c & 0x0F) << 4u8)) & 0xF0) | (v
        & 0x0F)) >> 4u8) == c && (((((b & 0x0F) | ((c & 0x0F) << 4u8)) & 0xF0) | (v & 0x0F)) & 0x0F)
        == v) by (bit_vector);
}

/// Setting the fan and setting the vertical swing commute: either order leaves the same
/// packet, since they write different nibbles of byte 24.
pub proof fn law_fan_and_swing_commute(s: Seq<u8>, fan: FanSpeed, on: bool)
    requires
        s.len() == 35,
    ensures
        ({
            let fan_first = s.update(24, fan_byte(s[24], fan));
            let swing_first = s.update(24, swing_byte(s[24], on));
            fan_first.update(24, swing_byte(fan_first[24], on)) == swing_first.update(
                24,
                fan_byte(swing_first[24], fan),
            )
        }),
{
    let b = s[24];
    let c = fan.spec_code();
    let v: u8 = if on { 0x0F } else { 0x00 };
    assert((((b & 0x0F) | ((c & 0x0F) << 4u8)) & 0xF0) | (v & 0x0F) == (((b & 0xF0) | (v & 0x0F))
        & 0x0F) | ((c & 0x0F) << 4u8)) by (bit_vector);
    let fan_first = s.update(24, fan_byte(s[24], fan));
    let swing_first = s.update(24, swing_byte(s[24], on));
    assert(fan_first.update(24, swing_byte(fan_first[24], on)) =~= swing_first.update(
        24,
        fan_byte(swing_first[24], fan),
    ));
}

/// A fresh packet carries the three section headers and valid checksums.
pub proof fn law_default_packet()
    ensures
        default_packet().len() == 35,
        checksums_ok(default_packet()),
        default_packet().subrange(0, 5) == seq![0x11u8, 0xDA, 0x27, 0x00, 0xC5],
        default_packet().subrange(8, 13) == seq![0x11u8, 0xDA, 0x27, 0x00, 0x42],
        default_packet().subrange(16, 19) == seq![0x11u8, 0xDA, 0x27],
{
    law_recomputed_checksums_verify(packet_template());
    assert(default_packet().subrange(0, 5) =~= seq![0x11u8, 0xDA, 0x27, 0x00, 0xC5]);
    assert(default_packet().subrange(8, 13) =~= seq![0x11u8, 0xDA, 0x27, 0x00, 0x42]);
    assert(default_packet().subrange(16, 19) =~= seq![0x11u8, 0xDA, 0x27]);
}

/// The packet of a command has valid checksums, keeps the section headers, and reads back
/// the command's power, mode, clamped temperature, fan and swing.
pub proof fn law_packet_encodes_command(cmd: DaikinCommand)
    ensures
        ({
            let p = spec_packet_of(cmd);
            &&& p.len() == 35
            &&& checksums_ok(p)
            &&& p.subrange(0, 5) == default_packet().subrange(0, 5)
            &&& p.subrange(8, 13) == default_packet().subrange(8, 13)
            &&& p.subrange(16, 19) == default_packet().subrange(16, 19)
            &&& ((p[21] & 0x01) != 0) == cmd.power
            &&& (p[21] >> 4u8) & 0x07 == cmd.mode.spec_bits()
            &&& p[22] / 2 == spec_clamp_temp(cmd.temp_celsius)
            &&& p[24] >> 4u8 == cmd.fan.spec_code()
            &&& p[24] & 0x0F == (if cmd.swing_v { 0x0Fu8 } else { 0x00u8 })
        }),
{
    let d = default_packet();
    law_default_packet();
    let b21p = power_byte(d[21], cmd.power);
    let b21 = mode_byte(b21p, cmd.mode);
    let b24 = swing_byte(fan_byte(d[24], cmd.fan), cmd.swing_v);
    let pre = d.update(21, b21).update(22, (spec_clamp_temp(cmd.temp_celsius) * 2) as u8).update(
        24,
        b24,
    );
    law_recomputed_checksums_verify(pre);
    law_power_bit(d[21], cmd.power);
    law_mode_bits(b21p, cmd.mode);
    assert((b21 & 0x01) == (b21p & 0x01)) by (bit_vector)
        requires
            b21 & 0x87 == b21p & 0x87,
    ;
    law_fan_and_swing_bits(d[24], cmd.fan, cmd.swing_v);
    let p = spec_packet_of(cmd);
    assert(p.subrange(0, 5) =~= d.subrange(0, 5));
    assert(p.subrange(8, 13) =~= d.subrange(8, 13));
    assert(p.subrange(16, 19) =~= d.subrange(16, 19));
}

/// The codes of the protocol: the modes Auto 0, Dry 2, Cool 3, Heat 4 and Fan 6, so that
/// distinct modes get distinct codes; the fan codes Quiet 0xB, Auto 0xA, Min 3, Med 5 and
/// Max 7, and the fan numbers 1, 3, 5, 10 and 11; and temperatures kept to 10..=32, where
/// one inside the range is kept as it is.
pub proof fn law_protocol_codes(t: u8)
    ensures
        OperationMode::Auto.spec_bits() == 0,
        OperationMode::Dry.spec_bits() == 2,
        OperationMode::Cool.spec_bits() == 3,
        OperationMode::Heat.spec_bits() == 4,
        OperationMode::Fan.spec_bits() == 6,
        forall|a: OperationMode, b: OperationMode| a.spec_bits() == b.spec_bits() ==> a == b,
        FanSpeed::Quiet.spec_code() == 0x0B,
        FanSpeed::Auto.spec_code() == 0x0A,
        FanSpeed::Min.spec_code() == 3,
        FanSpeed::Med.spec_code() == 5,
        FanSpeed::Max.spec_code() == 7,
        FanSpeed::Min.spec_value() == 1,
        FanSpeed::Med.spec_value() == 3,
        FanSpeed::Max.spec_value() == 5,
        FanSpeed::Auto.spec_value() == 10,
        FanSpeed::Quiet.spec_value() == 11,
        10 <= spec_clamp_temp(t) <= 32,
        10 <= t <= 32 ==> spec_clamp_temp(t) == t,
        t < 10 ==> spec_clamp_temp(t) == 10,
        t > 32 ==> spec_clamp_temp(t) == 32,
{
}

/// Cooling at a temperature powers the unit on in Cool mode at the clamped temperature,
/// with automatic fan and no swing; the off command powers it off, in Cool mode at 24
/// degrees with automatic fan and no swing.
pub proof fn law_command_shapes(t: u8)
    ensures
        spec_cool_at(t).power,
        spec_cool_at(t).mode == OperationMode::Cool,
        spec_cool_at(t).temp_celsius == spec_clamp_temp(t),
        spec_cool_at(t).fan == FanSpeed::Auto,
        !spec_cool_at(t).swing_v,
        !spec_off_command().power,
        spec_off_command().mode == OperationMode::Cool,
        spec_off_command().temp_celsius == 24,
        spec_off_command().fan == FanSpeed::Auto,
        !spec_off_command().swing_v,
{
}

/// The packet of a command holds in byte 21 the mode's code times 16, plus 8, plus 1 when
/// powered (so a Cool command switched on gives 0x39), in byte 22 twice the clamped
/// temperature, and in byte 24 the fan code times 16 plus 15 when swinging.
pub proof fn law_packet_bytes(cmd: DaikinCommand)
    ensures
        ({
            let p = spec_packet_of(cmd);
            let mode_code: int = match cmd.mode {
                OperationMode::Auto => 0,
                OperationMode::Dry => 2,
                OperationMode::Cool => 3,
                OperationMode::Heat => 4,
                OperationMode::Fan => 6,
            };
            let fan_code: int = match cmd.fan {
                FanSpeed::Quiet => 11,
                FanSpeed::Auto => 10,
                FanSpeed::Min => 3,
                FanSpeed::Med => 5,
                FanSpeed::Max => 7,
            };
            &&& p[21] == 16 * mode_code + 8 + (if cmd.power { 1int } else { 0int })
            &&& p[22] == 2 * spec_clamp_temp(cmd.temp_celsius)
            &&& p[24] == 16 * fan_code + (if cmd.swing_v { 15int } else { 0int })
        }),
{
    law_protocol_codes(cmd.temp_celsius);
    let d = default_packet();
    law_default_packet();
    assert(d[21] == 0x49u8 && d[22] == 0x1Eu8 && d[24] == 0xB0u8);
    let m = cmd.mode.spec_bits();
    let c = cmd.fan.spec_code();
    assert(m < 8 && c < 16);
    if cmd.power {
        assert(m < 8 ==> (((0x49u8 | 0x01) & 0x87) | 0x08 | ((m & 0x07) << 4u8)) == 16 * m + 9)
            by (bit_vector);
    } else {
        assert(m < 8 ==> (((0x49u8 & 0xFE) & 0x87) | 0x08 | ((m & 0x07) << 4u8)) == 16 * m + 8)
            by (bit_vector);
    }
    if cmd.swing_v {
        assert(c < 16 ==> (((0xB0u8 & 0x0F) | ((c & 0x0F) << 4u8)) & 0xF0) | (0x0Fu8 & 0x0F) == 16
            * c + 15) by (bit_vector);
    } else {
        assert(c < 16 ==> (((0xB0u8 & 0x0F) | ((c & 0x0F) << 4u8)) & 0xF0) | (0x00u8 & 0x0F) == 16
            * c) by (bit_vector);
    }
}

proof fn lemma_byte_sum_extend(s: Seq<u8>, lo: int, hi: int)
    requires
        0 <= lo <= hi < s.len(),
    ensures
        byte_sum(s.subrange(lo, hi + 1)) == byte_sum(s.subrange(lo, hi)) + s[hi],
{
    assert(s.subrange(lo, hi + 1).drop_last() =~= s.subrange(lo, hi));
}

/// Recomputing the checksums sets byte 7 to the sum of bytes 0..7, byte 15 to the sum of
/// bytes 8..15 and byte 34 to the sum of bytes 16..34, each modulo 256, and keeps every
/// other byte.
pub proof fn law_checksums_are_sums(s: Seq<u8>)
    requires
        s.len() == 35,
    ensures
        with_checksums(s)[7] == (s[0] + s[1] + s[2] + s[3] + s[4] + s[5] + s[6]) % 256,
        with_checksums(s)[15] == (s[8] + s[9] + s[10] + s[11] + s[12] + s[13] + s[14]) % 256,
        with_checksums(s)[34] == (s[16] + s[17] + s[18] + s[19] + s[20] + s[21] + s[22] + s[23] + s[24] + s[25] + s[26] + s[27] + s[28] + s[29] + s[30] + s[31] + s[32] + s[33]) % 256,
        forall|i: int|
            0 <= i < 35 && i != 7 && i != 15 && i != 34 ==> #[trigger] with_checksums(s)[i] == s[i],
{
    let s1 = s.update(7, section_checksum(s, 0, 7));
    let s2 = s1.update(15, section_checksum(s1, 8, 15));
    assert(s1.subrange(8, 15) =~= s.subrange(8, 15));
    assert(s2.subrange(16, 34) =~= s.subrange(16, 34));
    assert(s.subrange(0, 0).len() == 0);
    assert(s.subrange(8, 8).len() == 0);
    assert(s.subrange(16, 16).len() == 0);
    lemma_byte_sum_extend(s, 0, 0);
    lemma_byte_sum_extend(s, 0, 1);
    lemma_byte_sum_extend(s, 0, 2);
    lemma_byte_sum_extend(s, 0, 3);
    lemma_byte_sum_extend(s, 0, 4);
    lemma_byte_sum_extend(s, 0, 5);
    lemma_byte_sum_extend(s, 0, 6);
    lemma_byte_sum_extend(s, 8, 8);
    lemma_byte_sum_extend(s, 8, 9);
    lemma_byte_sum_extend(s, 8, 10);
    lemma_byte_sum_extend(s, 8, 11);
    lemma_byte_sum_extend(s, 8, 12);
    lemma_byte_sum_extend(s, 8, 13);
    lemma_byte_sum_extend(s, 8, 14);
    lemma_byte_sum_extend(s, 16, 16);
    lemma_byte_sum_extend(s, 16, 17);
    lemma_byte_sum_extend(s, 16, 18);
    lemma_byte_sum_extend(s, 16, 19);
    lemma_byte_sum_extend(s, 16, 20);
    lemma_byte_sum_extend(s, 16, 21);
    lemma_byte_sum_extend(s, 16, 22);
    lemma_byte_sum_extend(s, 16, 23);
    lemma_byte_sum_extend(s, 16, 24);
    lemma_byte_sum_extend(s, 16, 25);
    lemma_byte_sum_extend(s, 16, 26);
    lemma_byte_sum_extend(s, 16, 27);
    lemma_byte_sum_extend(s, 16, 28);
    lemma_byte_sum_extend(s, 16, 29);
    lemma_byte_sum_extend(s, 16, 30);
    lemma_byte_sum_extend(s, 16, 31);
    lemma_byte_sum_extend(s, 16, 32);
    lemma_byte_sum_extend(s, 16, 33);
}

/// The frame's timings, in microseconds: a header of 3650 then 1623, a footer of 428 then
/// 29428, and for bit `j` of a byte a mark of 428 then 1280 when the bit is set, 428 when
/// it is clear; marks are sent on a 38 kHz carrier at 33 percent duty.
pub proof fn law_pulse_timings(b: u8, j: u8)
    requires
        j < 8,
    ensures
        CARRIER_FREQ_HZ == 38000,
        DUTY_PERCENT == 33,
        header_pulse() == (3650u32, 1623u32),
        footer_pulse() == (428u32, 29428u32),
        data_pulse(b, j) == (428u32, if (b >> j) & 1 == 1 { 1280u32 } else { 428u32 }),
{
    assert(j < 8 ==> ((b & (1u8 << j) != 0) == ((b >> j) & 1 == 1))) by (bit_vector);
}

/// Index of the first pulse of bit 0 of byte `k` in the frame.
pub open spec fn data_index(k: int) -> int {
    if k < 8 {
        7 + 8 * k
    } else if k < 16 {
        73 + 8 * (k - 8)
    } else {
        139 + 8 * (k - 16)
    }
}

/// The frame of a packet has 292 pulses: the leader (five zero bits, footer) at 0..6,
/// headers at 6, 72 and 138, footers at 71, 137 and 291, and bit `j` of byte `k` at
/// `data_index(k) + j`.
pub proof fn law_frame_layout(s: Seq<u8>)
    requires
        s.len() == 35,
    ensures
        spec_pulses(s).len() == 292,
        forall|i: int| 0 <= i < 5 ==> #[trigger] spec_pulses(s)[i] == (BIT_MARK_US, ZERO_SPACE_US),
        spec_pulses(s)[5] == footer_pulse(),
        spec_pulses(s)[6] == header_pulse(),
        spec_pulses(s)[71] == footer_pulse(),
        spec_pulses(s)[72] == header_pulse(),
        spec_pulses(s)[137] == footer_pulse(),
        spec_pulses(s)[138] == header_pulse(),
        spec_pulses(s)[291] == footer_pulse(),
        forall|k: int, j: int|
            0 <= k < 35 && 0 <= j < 8 ==> #[trigger] spec_pulses(s)[data_index(k) + j] == data_pulse(
                s[k],
                j as u8,
            ),
{
    let p = spec_pulses(s);
    let pre = preamble_pulses();
    let s1 = section_pulses(s.subrange(0, 8));
    let s2 = section_pulses(s.subrange(8, 16));
    let s3 = section_pulses(s.subrange(16, 35));
    assert(p.len() == 292);
    assert forall|k: int, j: int| 0 <= k < 35 && 0 <= j < 8 implies #[trigger] p[data_index(k) + j]
        == data_pulse(s[k], j as u8) by {
        if k < 8 {
            let i = 8 * k + j;
            lemma_div8(i, k);
            assert(p[data_index(k) + j] == s1[1 + i]);
            assert(data_pulses(s.subrange(0, 8))[i] == data_pulse(s[k], j as u8));
        } else if k < 16 {
            let i = 8 * (k - 8) + j;
            lemma_div8(i, k - 8);
            assert(p[data_index(k) + j] == s2[1 + i]);
            assert(data_pulses(s.subrange(8, 16))[i] == data_pulse(s[k], j as u8));
        } else {
            let i = 8 * (k - 16) + j;
            lemma_div8(i, k - 16);
            assert(p[data_index(k) + j] == s3[1 + i]);
            assert(data_pulses(s.subrange(16, 35))[i] == data_pulse(s[k], j as u8));
        }
    }
}

/// Bit `j` read back from the pulse at `at + j`: set when its space is a one-space.
pub open spec fn decoded_bit(p: Seq<(u32, u32)>, at: int, j: u8) -> u8 {
    if p[at + j].1 == ONE_SPACE_US {
        1u8 << j
    } else {
        0u8
    }
}

/// The byte read back from the eight pulses starting at `at`, least significant bit first.
pub open spec fn decoded_byte(p: Seq<(u32, u32)>, at: int) -> u8 {
    decoded_bit(p, at, 0) | decoded_bit(p, at, 1) | decoded_bit(p, at, 2) | decoded_bit(p, at, 3)
        | decoded_bit(p, at, 4) | decoded_bit(p, at, 5) | decoded_bit(p, at, 6) | decoded_bit(
        p,
        at,
        7,
    )
}

/// The 35 bytes read back from a frame.
pub open spec fn decoded_packet(p: Seq<(u32, u32)>) -> Seq<u8> {
    Seq::new(35, |k: int| decoded_byte(p, data_index(k)))
}

proof fn lemma_byte_from_bits(b: u8)
    by (bit_vector)
    ensures
        b == (if b & (1u8 << 0u8) != 0 { 1u8 << 0u8 } else { 0u8 }) | (if b & (1u8 << 1u8) != 0 {
            1u8 << 1u8
        } else {
            0u8
        }) | (if b & (1u8 << 2u8) != 0 { 1u8 << 2u8 } else { 0u8 }) | (if b & (1u8 << 3u8) != 0 {
            1u8 << 3u8
        } else {
            0u8
        }) | (if b & (1u8 << 4u8) != 0 { 1u8 << 4u8 } else { 0u8 }) | (if b & (1u8 << 5u8) != 0 {
            1u8 << 5u8
        } else {
            0u8
        }) | (if b & (1u8 << 6u8) != 0 { 1u8 << 6u8 } else { 0u8 }) | (if b & (1u8 << 7u8) != 0 {
            1u8 << 7u8
        } else {
            0u8
        }),
{
}

/// Reading the frame of a packet back gives the packet: the pulse train carries every
/// byte exactly.
pub proof fn law_frame_decodes_to_packet(s: Seq<u8>)
    requires
        s.len() == 35,
    ensures
        decoded_packet(spec_pulses(s)) == s,
{
    law_frame_layout(s);
    let p = spec_pulses(s);
    assert forall|k: int| 0 <= k < 35 implies #[trigger] decoded_packet(p)[k] == s[k] by {
        let at = data_index(k);
        let b = s[k];
        assert(p[at + 0] == data_pulse(b, 0u8));
        assert(p[at + 1] == data_pulse(b, 1u8));
        assert(p[at + 2] == data_pulse(b, 2u8));
        assert(p[at + 3] == data_pulse(b, 3u8));
        assert(p[at + 4] == data_pulse(b, 4u8));
        assert(p[at + 5] == data_pulse(b, 5u8));
        assert(p[at + 6] == data_pulse(b, 6u8));
        assert(p[at + 7] == data_pulse(b, 7u8));
        lemma_byte_from_bits(b);
    }
    assert(decoded_packet(p) =~= s);
}

} // verus!
