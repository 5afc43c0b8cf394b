//! Extended Power Conditions (EPC) control for ATA drives reached through
//! SCSI ATA pass-through.
//!
//! - `cdb` encodes ATA commands into 12- and 16-byte pass-through blocks.
//! - `sense` recovers output registers from descriptor-format sense data.
//! - `power` holds the power modes and decodes the EPC log page.
//! - `device` decides each device operation: the block to send, how the
//!   reply reads, and the cached log directory. The caller performs the
//!   exchanges.
use vstd::prelude::*;

pub mod cdb;
pub mod device;
pub mod error;
pub mod power;
pub mod sense;

verus! {

} // verus!
