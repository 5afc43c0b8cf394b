use vstd::prelude::*;

verus! {

/// Operation code of the 16-byte ATA pass-through command block.
pub const ATA_16: u8 = 0x85;

/// Length of the 16-byte ATA pass-through command block.
pub const ATA_16_LEN: usize = 16;

/// Operation code of the 12-byte ATA pass-through command block.
pub const ATA_12: u8 = 0xa1;

/// Length of the 12-byte ATA pass-through command block.
pub const ATA_12_LEN: usize = 12;

/// Device register value sent with every command (LBA addressing, device 0).
pub const ATA_DEVICE: u8 = 0xa0;

/// The ATA commands this library issues.
#[derive(Clone, Copy, Debug, PartialEq, Eq, Structural)]
pub enum AtaCmd {
    CheckPowerMode,
    SetFeature,
    ReadLogExt,
    ReadLogExtDma,
}

impl AtaCmd {
    /// The ATA opcode of the command.
    pub open spec fn spec_opcode(self) -> u8 {
        match self {
            AtaCmd::CheckPowerMode => 0xe5,
            AtaCmd::SetFeature => 0xef,
            AtaCmd::ReadLogExt => 0x2f,
            AtaCmd::ReadLogExtDma => 0x47,
        }
    }

    /// Whether the transport must return the output registers on completion.
    /// Only the power mode query reads them back.
    pub open spec fn spec_ck_cond(self) -> bool {
        self is CheckPowerMode
    }

    pub fn opcode(&self) -> (r: u8)
        ensures
            r == self.spec_opcode(),
    {
        match self {
            AtaCmd::CheckPowerMode => 0xe5,
            AtaCmd::SetFeature => 0xef,
            AtaCmd::ReadLogExt => 0x2f,
            AtaCmd::ReadLogExtDma => 0x47,
        }
    }

    pub fn ck_cond(&self) -> (r: bool)
        ensures
            r == self.spec_ck_cond(),
    {
        match self {
            AtaCmd::CheckPowerMode => true,
            AtaCmd::SetFeature => false,
            AtaCmd::ReadLogExt => false,
            AtaCmd::ReadLogExtDma => false,
        }
    }
}

/// The transfer protocol of an ATA pass-through command.
#[derive(Clone, Copy, Debug, PartialEq, Eq, Structural)]
pub enum Protocol {
    InDma,
    OutDma,
    NoData,
    PioIn,
    PioOut,
    Dma,
}

impl Protocol {
    /// The protocol field, already placed in bits 4..1 of its byte.
    pub open spec fn spec_code(self) -> u8 {
        match self {
            Protocol::InDma => 20,
            Protocol::OutDma => 22,
            Protocol::NoData => 6,
            Protocol::PioIn => 8,
            Protocol::PioOut => 10,
            Protocol::Dma => 12,
        }
    }

    /// Transfer direction bit: 1 when data moves from the device to the host.
    pub open spec fn spec_t_dir(self) -> u8 {
        match self {
            Protocol::InDma => 1,
            Protocol::PioIn => 1,
            _ => 0,
        }
    }

    pub fn code(&self) -> (r: u8)
        ensures
            r == self.spec_code(),
    {
        match self {
            Protocol::InDma => 20,
            Protocol::OutDma => 22,
            Protocol::NoData => 6,
            Protocol::PioIn => 8,
            Protocol::PioOut => 10,
            Protocol::Dma => 12,
        }
    }

    pub fn t_dir(&self) -> (r: u8)
        ensures
            r == self.spec_t_dir(),
    {
        match self {
            Protocol::InDma => 1,
            Protocol::OutDma => 0,
            Protocol::NoData => 0,
            Protocol::PioIn => 1,
            Protocol::PioOut => 0,
            Protocol::Dma => 0,
        }
    }
}

/// The flags byte: off_line = 0 (bits 7..6), ck_cond (bit 5), t_dir (bit 3),
/// byt_blok = 1 (bit 2), t_length = 2, the sector count register (bits 1..0).
pub open spec fn flags_byte(cmd: AtaCmd, protocol: Protocol) -> u8 {
    ((if cmd.spec_ck_cond() { 0x20int } else { 0int }) + protocol.spec_t_dir() * 8 + 0x04 + 0x02) as u8
}

/// High byte of a 16-bit register.
pub open spec fn hi(v: u16) -> u8 {
    (v / 256) as u8
}

/// Low byte of a 16-bit register.
pub open spec fn lo(v: u16) -> u8 {
    (v % 256) as u8
}

/// The 16-byte command block: 16-bit registers, high byte first, with the
/// extend bit set.
pub open spec fn ata16_bytes(
    cmd: AtaCmd,
    protocol: Protocol,
    feature: u16,
    sector_count: u16,
    lba_low: u16,
    lba_mid: u16,
) -> Seq<u8> {
    seq![
        ATA_16,
        (protocol.spec_code() + 1) as u8,
        flags_byte(cmd, protocol),
        hi(feature),
        lo(feature),
        hi(sector_count),
        lo(sector_count),
        hi(lba_low),
        lo(lba_low),
        hi(lba_mid),
        lo(lba_mid),
        0u8,
        0u8,
        ATA_DEVICE,
        cmd.spec_opcode(),
        0u8,
    ]
}

/// The 12-byte command block: 8-bit registers, no extend bit. The 16-bit
/// `lba_mid` value spans LBA mid (low byte) and LBA high (high byte).
pub open spec fn ata12_bytes(
    cmd: AtaCmd,
    protocol: Protocol,
    feature: u8,
    sector_count: u8,
    lba_low: u8,
    lba_mid: u16,
) -> Seq<u8> {
    seq![
        ATA_12,
        protocol.spec_code(),
        flags_byte(cmd, protocol),
        feature,
        sector_count,
        lba_low,
        lo(lba_mid),
        hi(lba_mid),
        ATA_DEVICE,
        cmd.spec_opcode(),
        0u8,
        0u8,
    ]
}

fn flags(cmd: AtaCmd, protocol: Protocol) -> (r: u8)
    ensures
        r == flags_byte(cmd, protocol),
{
    let ck: u8 = if cmd.ck_cond() { 0x20 } else { 0 };
    ck + protocol.t_dir() * 8 + 0x04 + 0x02
}

/// Builds a 16-byte ATA pass-through command block with a zero feature
/// register.
pub fn build_ata_passthrough(
    cmd: AtaCmd,
    protocol: Protocol,
    sector_count: u16,
    sector_number: u16,
    cylinder: u16,
) -> (r: [u8; 16])
    ensures
        r@ == ata16_bytes(cmd, protocol, 0, sector_count, sector_number, cylinder),
{
    build_ata_passthrough16(cmd, protocol, 0, sector_count, sector_number, cylinder)
}

/// Builds a 16-byte ATA pass-through command block.
pub fn build_ata_passthrough16(
    cmd: AtaCmd,
    protocol: Protocol,
    feature: u16,
    sector_count: u16,
    lba_low: u16,
    lba_mid: u16,
) -> (r: [u8; 16])
    ensures
        r@ == ata16_bytes(cmd, protocol, feature, sector_count, lba_low, lba_mid),
{
    let cdb: [u8; 16] = [
        ATA_16,
        protocol.code() + 1,
        flags(cmd, protocol),
        (feature / 256) as u8,
        (feature % 256) as u8,
        (sector_count / 256) as u8,
        (sector_count % 256) as u8,
        (lba_low / 256) as u8,
        (lba_low % 256) as u8,
        (lba_mid / 256) as u8,
        (lba_mid % 256) as u8,
        0,
        0,
        ATA_DEVICE,
        cmd.opcode(),
        0,
    ];
    assert(cdb@ =~= ata16_bytes(cmd, protocol, feature, sector_count, lba_low, lba_mid));
    cdb
}

/// Builds a 12-byte ATA pass-through command block.
pub fn build_ata_passthrough12(
    cmd: AtaCmd,
    protocol: Protocol,
    feature: u8,
    sector_count: u8,
    lba_low: u8,
    lba_mid: u16,
) -> (r: [u8; 12])
    ensures
        r@ == ata12_bytes(cmd, protocol, feature, sector_count, lba_low, lba_mid),
{
    let cdb: [u8; 12] = [
        ATA_12,
        protocol.code(),
        flags(cmd, protocol),
        feature,
        sector_count,
        lba_low,
        (lba_mid % 256) as u8,
        (lba_mid / 256) as u8,
        ATA_DEVICE,
        cmd.opcode(),
        0,
        0,
    ];
    assert(cdb@ =~= ata12_bytes(cmd, protocol, feature, sector_count, lba_low, lba_mid));
    cdb
}

/// Bit layout of the flags byte: off_line is 0, ck_cond follows the
/// command, t_dir follows the protocol, t_type is 0, byt_blok is 1 and
/// t_length selects the sector count register.
pub proof fn lemma_flags_layout(cmd: AtaCmd, protocol: Protocol)
    ensures
        flags_byte(cmd, protocol) >> 6u8 == 0,
        (flags_byte(cmd, protocol) >> 5u8) & 1 == (if cmd.spec_ck_cond() { 1u8 } else { 0u8 }),
        (flags_byte(cmd, protocol) >> 4u8) & 1 == 0,
        (flags_byte(cmd, protocol) >> 3u8) & 1 == protocol.spec_t_dir(),
        (flags_byte(cmd, protocol) >> 2u8) & 1 == 1,
        flags_byte(cmd, protocol) & 3 == 2,
{
    let b = flags_byte(cmd, protocol);
    let c: u8 = if cmd.spec_ck_cond() { 1 } else { 0 };
    let t = protocol.spec_t_dir();
    assert(b == c * 32 + t * 8 + 6);
    assert(b >> 6u8 == 0 && (b >> 5u8) & 1 == c && (b >> 4u8) & 1 == 0 && (b >> 3u8) & 1 == t
        && (b >> 2u8) & 1 == 1 && b & 3 == 2) by (bit_vector)
        requires
            b == c * 32 + t * 8 + 6,
            c <= 1,
            t <= 1,
    ;
}

/// Layout of every 16-byte command block: its length, the fixed bytes
/// (opcode, device, control), the protocol with the extend bit, and each
/// 16-bit register read back high byte first. Being a function of its
/// arguments alone, the encoding gives identical bytes for identical inputs.
pub proof fn lemma_ata16_layout(
    cmd: AtaCmd,
    protocol: Protocol,
    feature: u16,
    sector_count: u16,
    lba_low: u16,
    lba_mid: u16,
)
    ensures
        ({
            let b = ata16_bytes(cmd, protocol, feature, sector_count, lba_low, lba_mid);
            &&& b.len() == ATA_16_LEN
            &&& b[0] == ATA_16
            &&& b[1] == protocol.spec_code() + 1
            &&& b[2] == flags_byte(cmd, protocol)
            &&& b[3] * 256 + b[4] == feature
            &&& b[5] * 256 + b[6] == sector_count
            &&& b[7] * 256 + b[8] == lba_low
            &&& b[9] * 256 + b[10] == lba_mid
            &&& b[11] == 0 && b[12] == 0
            &&& b[13] == ATA_DEVICE
            &&& b[14] == cmd.spec_opcode()
            &&& b[15] == 0
        }),
{
    lemma_flags_layout(cmd, protocol);
}

/// Layout of every 12-byte command block: its length, the fixed bytes
/// (opcode, device, control), the protocol without the extend bit, and the
/// registers in place.
pub proof fn lemma_ata12_layout(
    cmd: AtaCmd,
    protocol: Protocol,
    feature: u8,
    sector_count: u8,
    lba_low: u8,
    lba_mid: u16,
)
    ensures
        ({
            let b = ata12_bytes(cmd, protocol, feature, sector_count, lba_low, lba_mid);
            &&& b.len() == ATA_12_LEN
            &&& b[0] == ATA_12
            &&& b[1] == protocol.spec_code()
            &&& b[2] == flags_byte(cmd, protocol)
            &&& b[3] == feature
            &&& b[4] == sector_count
            &&& b[5] == lba_low
            &&& b[7] * 256 + b[6] == lba_mid
            &&& b[8] == ATA_DEVICE
            &&& b[9] == cmd.spec_opcode()
            &&& b[10] == 0 && b[11] == 0
        }),
{
    lemma_flags_layout(cmd, protocol);
}

} // verus!
