use vstd::prelude::*;

use once_cell::unsync::OnceCell;

use crate::cdb::{
    ata12_bytes, ata16_bytes, build_ata_passthrough, build_ata_passthrough12, AtaCmd, Protocol,
};
use crate::error::EpcError;
use crate::power::{
    bit_value, epc_setting_of, mode_of_status, parse_epc_page, EPCSetting, PowerMode,
    EPC_PAGE_LEN,
};
use crate::sense::{parse_sense, sense_result, SENSE_LEN};

verus! {

#[verifier::external_type_specification]
#[verifier::external_body]
#[verifier::reject_recursive_types(T)]
pub struct ExOnceCell<T>(OnceCell<T>);

/// What a directory cell holds: nothing yet, or the directory's bytes.
pub uninterp spec fn directory_cell(c: OnceCell<Vec<u8>>) -> Option<Seq<u8>>;

/// Relies on `once_cell::unsync::OnceCell::new`: the new cell is empty.
#[verifier::external_body]
fn empty_cell() -> (r: OnceCell<Vec<u8>>)
    ensures
        directory_cell(r) is None,
{
    OnceCell::new()
}

/// Relies on `once_cell::unsync::OnceCell::with_value`: the new cell holds
/// the value given.
#[verifier::external_body]
fn filled_cell(v: Vec<u8>) -> (r: OnceCell<Vec<u8>>)
    ensures
        directory_cell(r) == Some(v@),
{
    OnceCell::with_value(v)
}

/// Relies on `once_cell::unsync::OnceCell::get`: it returns the value the
/// cell holds, or `None` when the cell is empty.
#[verifier::external_body]
fn cell_get(c: &OnceCell<Vec<u8>>) -> (r: Option<&Vec<u8>>)
    ensures
        match r {
            Some(v) => directory_cell(*c) == Some(v@),
            None => directory_cell(*c) is None,
        },
{
    c.get()
}

/// Log address of the general purpose log directory.
pub const GENERAL_LOG_ADDRESS: u8 = 0x00;

/// Log address of the power conditions log (the EPC page).
pub const POWER_CONDITIONS_LOG: u8 = 0x08;

/// Size of one log sector.
pub const LOG_SECTOR_LEN: usize = 512;

/// Feature register value of the EPC SET FEATURES subcommands.
pub const EPC_FEATURE: u8 = 0b0100_1010;

/// Interface id of the SCSI generic transfer header.
pub const SG_INTERFACE_ID: i32 = 83;

/// Transfer direction: no data phase.
pub const SG_DXFER_NONE: i32 = -1;

/// Transfer direction: data moves from the host to the device.
pub const SG_DXFER_TO_DEV: i32 = -2;

/// Transfer direction: data moves from the device to the host.
pub const SG_DXFER_FROM_DEV: i32 = -3;

/// How one exchange is described to the transport.
#[derive(Clone, Copy, Debug, PartialEq, Eq, Structural)]
pub struct TransferPlan {
    pub interface_id: i32,
    pub direction: i32,
    pub dxfer_len: u32,
    pub cmd_len: u8,
    pub mx_sb_len: u8,
}

/// The plan of one exchange, given the length of its command block and of
/// the data to send (`in_len`) or the buffer to fill (`out_len`).
pub open spec fn transfer_plan(cmd_len: u8, in_len: Option<u32>, out_len: Option<u32>) -> Result<
    TransferPlan,
    EpcError,
> {
    match (in_len, out_len) {
        (Some(_), Some(_)) => Err(EpcError::InvalidDirection),
        (Some(n), None) => Ok(
            TransferPlan {
                interface_id: SG_INTERFACE_ID,
                direction: SG_DXFER_TO_DEV,
                dxfer_len: n,
                cmd_len,
                mx_sb_len: SENSE_LEN as u8,
            },
        ),
        (None, Some(n)) => Ok(
            TransferPlan {
                interface_id: SG_INTERFACE_ID,
                direction: SG_DXFER_FROM_DEV,
                dxfer_len: n,
                cmd_len,
                mx_sb_len: SENSE_LEN as u8,
            },
        ),
        (None, None) => Ok(
            TransferPlan {
                interface_id: SG_INTERFACE_ID,
                direction: SG_DXFER_NONE,
                dxfer_len: 0,
                cmd_len,
                mx_sb_len: SENSE_LEN as u8,
            },
        ),
    }
}

/// Plans one pass-through exchange. At most one of the two data buffers
/// may be given.
pub fn plan_sg_io(cmd_len: u8, in_len: Option<u32>, out_len: Option<u32>) -> (r: Result<
    TransferPlan,
    EpcError,
>)
    ensures
        r == transfer_plan(cmd_len, in_len, out_len),
{
    let (direction, dxfer_len) = match (in_len, out_len) {
        (Some(_), Some(_)) => {
            return Err(EpcError::InvalidDirection);
        },
        (Some(n), None) => (SG_DXFER_TO_DEV, n),
        (None, Some(n)) => (SG_DXFER_FROM_DEV, n),
        (None, None) => (SG_DXFER_NONE, 0),
    };
    Ok(
        TransferPlan {
            interface_id: SG_INTERFACE_ID,
            direction,
            dxfer_len,
            cmd_len,
            mx_sb_len: SENSE_LEN as u8,
        },
    )
}

/// Size, in log sectors, that the directory gives for log `address`.
pub open spec fn directory_entry(dir: Seq<u8>, address: u8) -> int {
    dir[2 * address] + 256 * dir[2 * address + 1]
}

/// The directory a handle holds after storing `log` as the fetched one:
/// the first directory stored is kept.
pub open spec fn after_store(dir: Option<Seq<u8>>, log: Seq<u8>) -> Option<Seq<u8>> {
    match dir {
        Some(d) => Some(d),
        None => Some(log),
    }
}

/// The sector count byte of the timer and state subcommands.
pub open spec fn timer_count(enable: bool, save: bool) -> u8 {
    (bit_value(enable) * 32 + bit_value(save) * 16 + 0x02) as u8
}

/// The sector count byte of the restore subcommand.
pub open spec fn restore_count(default: bool, save: bool) -> u8 {
    (bit_value(default) * 64 + bit_value(save) * 16) as u8
}

/// A request to read one log page: the buffer length to allocate and the
/// command block to send.
pub struct LogRequest {
    pub len: usize,
    pub cdb: [u8; 16],
}

/// An open device: its OS handle and its cached general purpose log
/// directory.
pub struct Device {
    fd: i32,
    general_log: OnceCell<Vec<u8>>,
}

impl Device {
    pub closed spec fn spec_fd(&self) -> i32 {
        self.fd
    }

    /// The cached log directory, if it has been fetched.
    pub closed spec fn directory(&self) -> Option<Seq<u8>> {
        directory_cell(self.general_log)
    }

    /// A handle from the result of opening the device: a positive
    /// descriptor, or else the OS error number.
    pub fn from_fd(fd: i32, os_error: i32) -> (r: Result<Device, EpcError>)
        ensures
            fd > 0 ==> (r matches Ok(d) && d.spec_fd() == fd && d.directory() is None),
            fd <= 0 ==> r == Err::<Device, EpcError>(EpcError::OpenFailure(os_error)),
    {
        if fd > 0 {
            Ok(Device { fd, general_log: empty_cell() })
        } else {
            Err(EpcError::OpenFailure(os_error))
        }
    }

    pub fn fd(&self) -> (r: i32)
        ensures
            r == self.spec_fd(),
    {
        self.fd
    }

    /// The command block that asks the device for its power mode.
    pub fn query_mode_command() -> (r: [u8; 12])
        ensures
            r@ == ata12_bytes(AtaCmd::CheckPowerMode, Protocol::NoData, 0, 0, 0, 0),
    {
        build_ata_passthrough12(AtaCmd::CheckPowerMode, Protocol::NoData, 0, 0, 0, 0)
    }

    /// The power mode reported in the sense buffer returned for the power
    /// mode query.
    pub fn query_mode(sense: &[u8]) -> (r: Result<PowerMode, EpcError>)
        requires
            sense@.len() >= 18,
        ensures
            r == match sense_result(sense@) {
                Ok(s) => Ok(mode_of_status(s.sector_count)),
                Err(e) => Err(e),
            },
    {
        match parse_sense(sense) {
            Ok(s) => Ok(PowerMode::from_sector_count(s.sector_count)),
            Err(e) => Err(e),
        }
    }

    /// The EPC settings held in the power conditions log page.
    pub fn query_epc_setting(page: &[u8]) -> (r: Result<EPCSetting, EpcError>)
        ensures
            page@.len() >= EPC_PAGE_LEN ==> r == Ok::<EPCSetting, EpcError>(
                epc_setting_of(page@),
            ),
            page@.len() < EPC_PAGE_LEN ==> r == Err::<EPCSetting, EpcError>(
                EpcError::LogPageTooShort,
            ),
    {
        if page.len() >= EPC_PAGE_LEN {
            Ok(parse_epc_page(page))
        } else {
            Err(EpcError::LogPageTooShort)
        }
    }

    /// The command block that fetches the log directory, or `None` when it
    /// is cached already.
    pub fn general_log_command(&self) -> (r: Option<[u8; 16]>)
        ensures
            r is None <==> self.directory() is Some,
            r matches Some(c) ==> c@ == ata16_bytes(
                AtaCmd::ReadLogExtDma,
                Protocol::InDma,
                0,
                1,
                GENERAL_LOG_ADDRESS as u16,
                0,
            ),
    {
        match cell_get(&self.general_log) {
            Some(_) => None,
            None => Some(
                build_ata_passthrough(
                    AtaCmd::ReadLogExtDma,
                    Protocol::InDma,
                    1,
                    GENERAL_LOG_ADDRESS as u16,
                    0,
                ),
            ),
        }
    }

    /// Caches the fetched log directory. A directory cached before is kept.
    pub fn store_general_log(&mut self, log: Vec<u8>)
        ensures
            final(self).directory() == after_store(old(self).directory(), log@),
            final(self).spec_fd() == old(self).spec_fd(),
    {
        let cached = match cell_get(&self.general_log) {
            Some(_) => true,
            None => false,
        };
        if !cached {
            self.general_log = filled_cell(log);
        }
    }

    /// The cached log directory.
    pub fn read_general_log(&self) -> (r: Option<&Vec<u8>>)
        ensures
            match r {
                Some(v) => self.directory() == Some(v@),
                None => self.directory() is None,
            },
    {
        cell_get(&self.general_log)
    }

    /// The request that reads log page `address`, sized from its directory
    /// entry; `None` while the directory is not cached or has no entry for
    /// `address`.
    pub fn read_log_page(&self, address: u8) -> (r: Option<LogRequest>)
        ensures
            r is Some <==> (self.directory() matches Some(d) && 2 * address + 1 < d.len()),
            r matches Some(q) ==> ({
                let n = directory_entry(self.directory().unwrap(), address);
                &&& q.len == LOG_SECTOR_LEN * n
                &&& q.cdb@ == ata16_bytes(
                    AtaCmd::ReadLogExtDma,
                    Protocol::InDma,
                    0,
                    n as u16,
                    address as u16,
                    0,
                )
            }),
    {
        match cell_get(&self.general_log) {
            None => None,
            Some(dir) => {
                let i = address as usize * 2;
                if i + 1 < dir.len() {
                    let count = dir[i] as u16 + dir[i + 1] as u16 * 256;
                    Some(
                        LogRequest {
                            len: LOG_SECTOR_LEN * count as usize,
                            cdb: build_ata_passthrough(
                                AtaCmd::ReadLogExtDma,
                                Protocol::InDma,
                                count,
                                address as u16,
                                0,
                            ),
                        },
                    )
                } else {
                    None
                }
            },
        }
    }

    /// The command block that moves the device to power condition `mode`
    /// at once.
    pub fn goto_cond(mode: PowerMode) -> (r: [u8; 12])
        requires
            !(mode is Unknown),
        ensures
            r@ == ata12_bytes(
                AtaCmd::SetFeature,
                Protocol::NoData,
                EPC_FEATURE,
                1,
                mode.spec_id(),
                0,
            ),
    {
        build_ata_passthrough12(AtaCmd::SetFeature, Protocol::NoData, EPC_FEATURE, 1, mode.id(), 0)
    }

    /// The command block that sets the timer of `mode` (in 100 ms units),
    /// enables or disables it, and saves the setting if `save`.
    pub fn set_timer(mode: PowerMode, timer: u16, enable: bool, save: bool) -> (r: [u8; 12])
        requires
            !(mode is Unknown),
        ensures
            r@ == ata12_bytes(
                AtaCmd::SetFeature,
                Protocol::NoData,
                EPC_FEATURE,
                timer_count(enable, save),
                mode.spec_id(),
                timer,
            ),
    {
        let e: u8 = if enable { 1 } else { 0 };
        let s: u8 = if save { 1 } else { 0 };
        let count = e * 32 + s * 16 + 0x02;
        build_ata_passthrough12(
            AtaCmd::SetFeature,
            Protocol::NoData,
            EPC_FEATURE,
            count,
            mode.id(),
            timer,
        )
    }

    /// The command block that enables or disables power condition `mode`,
    /// saving the setting if `save`.
    pub fn set_state(mode: PowerMode, enable: bool, save: bool) -> (r: [u8; 12])
        requires
            !(mode is Unknown),
        ensures
            r@ == ata12_bytes(
                AtaCmd::SetFeature,
                Protocol::NoData,
                EPC_FEATURE,
                timer_count(enable, save),
                mode.spec_id(),
                0,
            ),
    {
        Self::set_timer(mode, 0, enable, save)
    }

    /// The command block that enables the EPC feature set (which disables
    /// APM).
    pub fn enable_epc() -> (r: [u8; 12])
        ensures
            r@ == ata12_bytes(AtaCmd::SetFeature, Protocol::NoData, EPC_FEATURE, 0x04, 0, 0),
    {
        build_ata_passthrough12(AtaCmd::SetFeature, Protocol::NoData, EPC_FEATURE, 0x04, 0, 0)
    }

    /// The command block that disables the EPC feature set (APM stays
    /// disabled).
    pub fn disable_epc() -> (r: [u8; 12])
        ensures
            r@ == ata12_bytes(AtaCmd::SetFeature, Protocol::NoData, EPC_FEATURE, 0x05, 0, 0),
    {
        build_ata_passthrough12(AtaCmd::SetFeature, Protocol::NoData, EPC_FEATURE, 0x05, 0, 0)
    }

    /// The command block that restores the current timer of `mode` from its
    /// default (if `default`) or saved value, saving the result if `save`.
    pub fn restore(mode: PowerMode, default: bool, save: bool) -> (r: [u8; 12])
        requires
            !(mode is Unknown),
        ensures
            r@ == ata12_bytes(
                AtaCmd::SetFeature,
                Protocol::NoData,
                EPC_FEATURE,
                restore_count(default, save),
                mode.spec_id(),
                0,
            ),
    {
        let d: u8 = if default { 1 } else { 0 };
        let s: u8 = if save { 1 } else { 0 };
        build_ata_passthrough12(
            AtaCmd::SetFeature,
            Protocol::NoData,
            EPC_FEATURE,
            d * 64 + s * 16,
            mode.id(),
            0,
        )
    }
}

/// The log directory is fetched once per handle: once a directory has been
/// stored, no further fetch is requested, and storing again keeps it.
pub proof fn lemma_directory_fetched_once(dir: Option<Seq<u8>>, first: Seq<u8>, second: Seq<u8>)
    ensures
        after_store(dir, first) is Some,
        after_store(after_store(dir, first), second) == after_store(dir, first),
{
}

} // verus!
