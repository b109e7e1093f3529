//! The DFU functional descriptor (type 0x21) of the DFU interface.
use vstd::prelude::*;

verus! {

/// The fields of the DFU functional descriptor that the driver reads.
#[derive(Debug, Clone, Copy, PartialEq, Eq, Structural)]
pub struct DfuDescriptor {
    pub attributes: u8,
    pub detach_timeout: u16,
    pub transfer_size: u16,
    pub dfu_version: u8,
}

/// The descriptor that `d` holds: nine bytes, length byte 9, type byte 0x21;
/// then attributes, detach timeout and transfer size little-endian, and the
/// version byte at index 8.
pub open spec fn descriptor_of(d: Seq<u8>) -> Option<DfuDescriptor> {
    if d.len() >= 9 && d[0] == 9 && d[1] == 0x21 {
        Some(
            DfuDescriptor {
                attributes: d[2],
                detach_timeout: (d[3] as int + d[4] as int * 256) as u16,
                transfer_size: (d[5] as int + d[6] as int * 256) as u16,
                dfu_version: d[8],
            },
        )
    } else {
        None
    }
}

impl DfuDescriptor {
    /// Reads the functional descriptor from its raw bytes.
    pub fn new(desc: &[u8]) -> (r: Option<DfuDescriptor>)
        ensures
            r == descriptor_of(desc@),
    {
        if desc.len() < 9 || desc[0] != 9 || desc[1] != 0x21 {
            return None;
        }
        Some(
            DfuDescriptor {
                attributes: desc[2],
                detach_timeout: (desc[3] as u16) + (desc[4] as u16) * 256,
                transfer_size: (desc[5] as u16) + (desc[6] as u16) * 256,
                dfu_version: desc[8],
            },
        )
    }
}

} // verus!
