use vstd::prelude::*;

use crate::error::EpcError;

verus! {

/// Size of the sense buffer handed to the transport.
pub const SENSE_LEN: usize = 32;

/// Output registers recovered from a sense buffer.
#[derive(Clone, Copy, Debug, PartialEq, Eq, Structural)]
pub struct SenseData {
    pub sector_count: u16,
}

/// The sector count register in descriptor-format sense data: bytes 4 and
/// 5 of the descriptor that starts at byte 8, high byte first.
pub open spec fn sense_sector_count(sense: Seq<u8>) -> u16 {
    (sense[12] * 256 + sense[13]) as u16
}

/// What a sense buffer decodes to.
pub open spec fn sense_result(sense: Seq<u8>) -> Result<SenseData, EpcError> {
    if sense[0] == 0x72 || sense[0] == 0x73 {
        Ok(SenseData { sector_count: sense_sector_count(sense) })
    } else if sense[0] == 0x70 || sense[0] == 0x71 {
        Err(EpcError::UnsupportedSenseFormat)
    } else {
        Err(EpcError::ProtocolViolation)
    }
}

/// Decodes the output registers from a sense buffer. Only descriptor format
/// (response code 0x72 or 0x73) is supported.
pub fn parse_sense(sense: &[u8]) -> (r: Result<SenseData, EpcError>)
    requires
        sense@.len() >= 18,
    ensures
        r == sense_result(sense@),
{
    let code = sense[0];
    if code == 0x72 || code == 0x73 {
        let sector_count = sense[12] as u16 * 256 + sense[13] as u16;
        Ok(SenseData { sector_count })
    } else if code == 0x70 || code == 0x71 {
        Err(EpcError::UnsupportedSenseFormat)
    } else {
        Err(EpcError::ProtocolViolation)
    }
}

} // verus!
