use vstd::prelude::*;

verus! {

/// Power conditions of an EPC device.
#[derive(Clone, Copy, Debug, PartialEq, Eq, Structural)]
pub enum PowerMode {
    Active,
    IdleA,
    IdleB,
    IdleC,
    StandbyY,
    StandbyZ,
    Unknown,
}

/// The power mode that a CHECK POWER MODE status value reports.
pub open spec fn mode_of_status(sector_count: u16) -> PowerMode {
    if sector_count == 0xff {
        PowerMode::Active
    } else if sector_count == 0x81 {
        PowerMode::IdleA
    } else if sector_count == 0x82 {
        PowerMode::IdleB
    } else if sector_count == 0x83 {
        PowerMode::IdleC
    } else if sector_count == 0x01 {
        PowerMode::StandbyY
    } else if sector_count == 0x00 {
        PowerMode::StandbyZ
    } else {
        PowerMode::Unknown
    }
}

impl PowerMode {
    /// The power condition identifier on the wire. `Unknown` has none.
    pub open spec fn spec_id(self) -> u8 {
        match self {
            PowerMode::Active => 0x81,
            PowerMode::IdleA => 0x81,
            PowerMode::IdleB => 0x82,
            PowerMode::IdleC => 0x83,
            PowerMode::StandbyY => 0x01,
            PowerMode::StandbyZ => 0x00,
            PowerMode::Unknown => 0,
        }
    }

    pub fn id(&self) -> (r: u8)
        requires
            !(self is Unknown),
        ensures
            r == self.spec_id(),
    {
        match self {
            PowerMode::Active => 0x81,
            PowerMode::IdleA => 0x81,
            PowerMode::IdleB => 0x82,
            PowerMode::IdleC => 0x83,
            PowerMode::StandbyY => 0x01,
            PowerMode::StandbyZ => 0x00,
            PowerMode::Unknown => 0,
        }
    }

    /// Maps the status value returned by CHECK POWER MODE to a power mode.
    pub fn from_sector_count(sector_count: u16) -> (r: PowerMode)
        ensures
            r == mode_of_status(sector_count),
    {
        match sector_count {
            0xff => PowerMode::Active,
            0x81 => PowerMode::IdleA,
            0x82 => PowerMode::IdleB,
            0x83 => PowerMode::IdleC,
            0x01 => PowerMode::StandbyY,
            0x00 => PowerMode::StandbyZ,
            _ => PowerMode::Unknown,
        }
    }
}

/// One power condition descriptor of the EPC log page. Timers are in units
/// of 100 milliseconds.
#[derive(Clone, Copy, Debug, PartialEq, Eq, Structural)]
pub struct PowerCondDescriptor {
    pub supported: bool,
    pub savable: bool,
    pub changeable: bool,
    pub default_enable: bool,
    pub saved_enable: bool,
    pub current_enable: bool,
    pub default_timer: u32,
    pub saved_timer: u32,
    pub current_timer: u32,
    pub recovery_time: u32,
    pub min_timer: u32,
    pub max_timer: u32,
}

/// The five power condition descriptors of the EPC log page.
#[derive(Clone, Copy, Debug, PartialEq, Eq, Structural)]
pub struct EPCSetting {
    pub idle_a: PowerCondDescriptor,
    pub idle_b: PowerCondDescriptor,
    pub idle_c: PowerCondDescriptor,
    pub standby_y: PowerCondDescriptor,
    pub standby_z: PowerCondDescriptor,
}

/// Size of one power condition descriptor.
pub const DESCRIPTOR_LEN: usize = 64;

/// Size of the EPC log page.
pub const EPC_PAGE_LEN: usize = 1024;

/// Bit `i` of `b`.
pub open spec fn bit(b: u8, i: u8) -> bool {
    (b >> i) & 1 == 1
}

/// The little-endian 32-bit value stored at `s[o..o + 4]`.
pub open spec fn le_u32_at(s: Seq<u8>, o: int) -> int {
    s[o] + 256 * s[o + 1] + 65536 * s[o + 2] + 16777216 * s[o + 3]
}

/// The descriptor stored at `s[o..o + 64]`: flags in byte 1, timers at
/// offsets 4, 8, 12, 16, 20 and 24.
pub open spec fn descriptor_at(s: Seq<u8>, o: int) -> PowerCondDescriptor {
    PowerCondDescriptor {
        supported: bit(s[o + 1], 7),
        savable: bit(s[o + 1], 6),
        changeable: bit(s[o + 1], 5),
        default_enable: bit(s[o + 1], 4),
        saved_enable: bit(s[o + 1], 3),
        current_enable: bit(s[o + 1], 2),
        default_timer: le_u32_at(s, o + 4) as u32,
        saved_timer: le_u32_at(s, o + 8) as u32,
        current_timer: le_u32_at(s, o + 12) as u32,
        recovery_time: le_u32_at(s, o + 16) as u32,
        min_timer: le_u32_at(s, o + 20) as u32,
        max_timer: le_u32_at(s, o + 24) as u32,
    }
}

/// The descriptor that a 64-byte region holds.
pub open spec fn descriptor_of(raw: Seq<u8>) -> PowerCondDescriptor {
    descriptor_at(raw, 0)
}

/// The settings that an EPC log page holds: Idle A, B and C in the first
/// three regions of the first half, Standby Y and Z in the last two regions
/// of the second half.
pub open spec fn epc_setting_of(page: Seq<u8>) -> EPCSetting {
    EPCSetting {
        idle_a: descriptor_of(page.subrange(0, 64)),
        idle_b: descriptor_of(page.subrange(64, 128)),
        idle_c: descriptor_of(page.subrange(128, 192)),
        standby_y: descriptor_of(page.subrange(896, 960)),
        standby_z: descriptor_of(page.subrange(960, 1024)),
    }
}

fn flag_bit(b: u8, i: u8) -> (r: bool)
    requires
        i < 8,
    ensures
        r == bit(b, i),
{
    (b >> i) & 1 == 1
}

fn read_le_u32(s: &[u8], o: usize) -> (r: u32)
    requires
        o + 4 <= s@.len(),
    ensures
        r == le_u32_at(s@, o as int),
{
    s[o] as u32 + s[o + 1] as u32 * 256 + s[o + 2] as u32 * 65536 + s[o + 3] as u32 * 16777216
}

fn parse_desc_at(s: &[u8], o: usize) -> (r: PowerCondDescriptor)
    requires
        o <= EPC_PAGE_LEN,
        o + 28 <= s@.len(),
    ensures
        r == descriptor_at(s@, o as int),
{
    let flag = s[o + 1];
    PowerCondDescriptor {
        supported: flag_bit(flag, 7),
        savable: flag_bit(flag, 6),
        changeable: flag_bit(flag, 5),
        default_enable: flag_bit(flag, 4),
        saved_enable: flag_bit(flag, 3),
        current_enable: flag_bit(flag, 2),
        default_timer: read_le_u32(s, o + 4),
        saved_timer: read_le_u32(s, o + 8),
        current_timer: read_le_u32(s, o + 12),
        recovery_time: read_le_u32(s, o + 16),
        min_timer: read_le_u32(s, o + 20),
        max_timer: read_le_u32(s, o + 24),
    }
}

/// Decodes one power condition descriptor. Only its first 28 bytes carry
/// fields; the rest of the 64-byte region is reserved.
pub fn parse_power_cond_desc(raw: &[u8]) -> (r: PowerCondDescriptor)
    requires
        raw@.len() >= 28,
    ensures
        r == descriptor_of(raw@),
{
    parse_desc_at(raw, 0)
}

proof fn lemma_descriptor_in_page(page: Seq<u8>, o: int)
    requires
        0 <= o,
        o + 64 <= page.len(),
    ensures
        descriptor_at(page, o) == descriptor_of(page.subrange(o, o + 64)),
{
    let sub = page.subrange(o, o + 64);
    assert(forall|i: int| 0 <= i < 28 ==> sub[i] == page[o + i]);
}

/// Decodes the five descriptors of an EPC log page.
pub fn parse_epc_page(page: &[u8]) -> (r: EPCSetting)
    requires
        page@.len() >= EPC_PAGE_LEN,
    ensures
        r == epc_setting_of(page@),
{
    proof {
        lemma_descriptor_in_page(page@, 0);
        lemma_descriptor_in_page(page@, 64);
        lemma_descriptor_in_page(page@, 128);
        lemma_descriptor_in_page(page@, 896);
        lemma_descriptor_in_page(page@, 960);
    }
    EPCSetting {
        idle_a: parse_desc_at(page, 0),
        idle_b: parse_desc_at(page, 64),
        idle_c: parse_desc_at(page, 128),
        standby_y: parse_desc_at(page, 896),
        standby_z: parse_desc_at(page, 960),
    }
}

/// 1 when `b` holds, else 0.
pub open spec fn bit_value(b: bool) -> u8 {
    if b { 1 } else { 0 }
}

/// The flags byte of a descriptor, high bit first.
pub open spec fn flags_of(d: PowerCondDescriptor) -> u8 {
    (bit_value(d.supported) * 128 + bit_value(d.savable) * 64 + bit_value(d.changeable) * 32
        + bit_value(d.default_enable) * 16 + bit_value(d.saved_enable) * 8
        + bit_value(d.current_enable) * 4) as u8
}

/// The four bytes of `v`, least significant first.
pub open spec fn le_bytes(v: u32) -> Seq<u8> {
    seq![(v % 256) as u8, (v / 256 % 256) as u8, (v / 65536 % 256) as u8, (v / 16777216) as u8]
}

/// A 64-byte region that holds `d`, with every reserved byte zero.
pub open spec fn descriptor_bytes(d: PowerCondDescriptor) -> Seq<u8> {
    seq![0u8, flags_of(d), 0u8, 0u8] + le_bytes(d.default_timer) + le_bytes(d.saved_timer)
        + le_bytes(d.current_timer) + le_bytes(d.recovery_time) + le_bytes(d.min_timer)
        + le_bytes(d.max_timer) + Seq::new(36, |i: int| 0u8)
}

/// The flag that bit `k` (2 to 7) of the flags byte carries.
pub open spec fn flag_field(d: PowerCondDescriptor, k: u8) -> bool {
    if k == 7 {
        d.supported
    } else if k == 6 {
        d.savable
    } else if k == 5 {
        d.changeable
    } else if k == 4 {
        d.default_enable
    } else if k == 3 {
        d.saved_enable
    } else {
        d.current_enable
    }
}

proof fn lemma_le_bytes(v: u32)
    ensures
        le_u32_at(le_bytes(v), 0) == v,
{
    let b0 = (v % 256) as u8;
    let b1 = (v / 256 % 256) as u8;
    let b2 = (v / 65536 % 256) as u8;
    let b3 = (v / 16777216) as u8;
    assert(b0 + 256 * b1 + 65536 * b2 + 16777216 * b3 == v) by (nonlinear_arith)
        requires
            b0 == (v % 256) as u8,
            b1 == (v / 256 % 256) as u8,
            b2 == (v / 65536 % 256) as u8,
            b3 == (v / 16777216) as u8,
    ;
}

proof fn lemma_flags_bits(d: PowerCondDescriptor)
    ensures
        bit(flags_of(d), 7) == d.supported,
        bit(flags_of(d), 6) == d.savable,
        bit(flags_of(d), 5) == d.changeable,
        bit(flags_of(d), 4) == d.default_enable,
        bit(flags_of(d), 3) == d.saved_enable,
        bit(flags_of(d), 2) == d.current_enable,
{
    let a = bit_value(d.supported);
    let b = bit_value(d.savable);
    let c = bit_value(d.changeable);
    let e = bit_value(d.default_enable);
    let f = bit_value(d.saved_enable);
    let g = bit_value(d.current_enable);
    let x = flags_of(d);
    assert((x >> 7u8) & 1 == a && (x >> 6u8) & 1 == b && (x >> 5u8) & 1 == c && (x >> 4u8) & 1 == e
        && (x >> 3u8) & 1 == f && (x >> 2u8) & 1 == g) by (bit_vector)
        requires
            a <= 1 && b <= 1 && c <= 1 && e <= 1 && f <= 1 && g <= 1,
            x == (a * 128 + b * 64 + c * 32 + e * 16 + f * 8 + g * 4) as u8,
    ;
}

/// A region built from known flags and little-endian timers decodes to
/// exactly those flags and timers.
pub proof fn lemma_descriptor_round_trip(d: PowerCondDescriptor)
    ensures
        descriptor_bytes(d).len() == DESCRIPTOR_LEN,
        descriptor_of(descriptor_bytes(d)) == d,
{
    let s = descriptor_bytes(d);
    lemma_flags_bits(d);
    lemma_le_bytes(d.default_timer);
    lemma_le_bytes(d.saved_timer);
    lemma_le_bytes(d.current_timer);
    lemma_le_bytes(d.recovery_time);
    lemma_le_bytes(d.min_timer);
    lemma_le_bytes(d.max_timer);
    assert(s[1] == flags_of(d));
    assert(forall|i: int| 0 <= i < 4 ==> s[4 + i] == le_bytes(d.default_timer)[i]);
    assert(forall|i: int| 0 <= i < 4 ==> s[8 + i] == le_bytes(d.saved_timer)[i]);
    assert(forall|i: int| 0 <= i < 4 ==> s[12 + i] == le_bytes(d.current_timer)[i]);
    assert(forall|i: int| 0 <= i < 4 ==> s[16 + i] == le_bytes(d.recovery_time)[i]);
    assert(forall|i: int| 0 <= i < 4 ==> s[20 + i] == le_bytes(d.min_timer)[i]);
    assert(forall|i: int| 0 <= i < 4 ==> s[24 + i] == le_bytes(d.max_timer)[i]);
}

proof fn lemma_toggle_bit(b: u8, j: u8, k: u8)
    requires
        j < 8,
        k < 8,
    ensures
        bit(b ^ (1u8 << k), j) == (if j == k { !bit(b, j) } else { bit(b, j) }),
{
    let x: u8 = b ^ (1u8 << k);
    assert(j != k ==> (x >> j) & 1u8 == (b >> j) & 1u8) by (bit_vector)
        requires
            j < 8,
            k < 8,
            x == b ^ (1u8 << k),
    ;
    assert(j == k ==> (((x >> j) & 1u8) == 1u8) == (((b >> j) & 1u8) != 1u8)) by (bit_vector)
        requires
            j < 8,
            k < 8,
            x == b ^ (1u8 << k),
    ;
}

/// Toggling one flag bit (2 to 7) of a descriptor's flags byte changes that
/// flag alone: every other flag and every timer decodes as before.
pub proof fn lemma_flag_toggle(raw: Seq<u8>, k: u8)
    requires
        raw.len() >= 28,
        2 <= k <= 7,
    ensures
        ({
            let d = descriptor_of(raw);
            let e = descriptor_of(raw.update(1, raw[1] ^ (1u8 << k)));
            &&& forall|j: u8|
                2 <= j <= 7 ==> #[trigger] flag_field(e, j) == (if j == k {
                    !flag_field(d, j)
                } else {
                    flag_field(d, j)
                })
            &&& e.default_timer == d.default_timer
            &&& e.saved_timer == d.saved_timer
            &&& e.current_timer == d.current_timer
            &&& e.recovery_time == d.recovery_time
            &&& e.min_timer == d.min_timer
            &&& e.max_timer == d.max_timer
        }),
{
    let t = raw.update(1, raw[1] ^ (1u8 << k));
    assert forall|j: u8| 2 <= j <= 7 implies #[trigger] flag_field(descriptor_of(t), j) == (if j
        == k {
        !flag_field(descriptor_of(raw), j)
    } else {
        flag_field(descriptor_of(raw), j)
    }) by {
        lemma_toggle_bit(raw[1], j, k);
    }
}

} // verus!
