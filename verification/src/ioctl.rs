//! The simulator's ioctl request tags.

use vstd::prelude::*;

verus! {

/// A request tag understood by the simulator's ioctl interface.  Each
/// tag encodes to four ASCII-ish bytes packed big-endian into a `u32`,
/// the last byte naming the port or unit the request is about.
#[derive(Clone, Copy, Debug, PartialEq, Eq, Structural)]
#[allow(inconsistent_fields)]
pub enum IoCtl {
    AdcGetIrq,
    IoPortGetIrq { port: char },
    IoPortGetState { port: char },
    SpiGetIrq { id: u8 },
    TwiGetIrq { id: u8 },
    UartGetFlags { id: char },
    UartGetIrq { id: char },
    UartSetFlags { id: char },
}

impl IoCtl {
    /// The four bytes of this tag, packed big-endian: `"adc0"` for the
    /// ADC request, `"iog"`/`"ios"` plus the port letter for the port
    /// requests, and so on.  A port or unit letter wider than one byte
    /// is truncated to its low byte.
    pub open spec fn spec_into_ffi(self) -> u32 {
        match self {
            IoCtl::AdcGetIrq => 0x61646330u32,
            IoCtl::IoPortGetIrq { port } => (0x696F6700u32 + (port as u32) % 0x100) as u32,
            IoCtl::IoPortGetState { port } => (0x696F7300u32 + (port as u32) % 0x100) as u32,
            IoCtl::SpiGetIrq { id } => (0x73706900u32 + id) as u32,
            IoCtl::TwiGetIrq { id } => (0x74776900u32 + id) as u32,
            IoCtl::UartGetFlags { id } => (0x75616700u32 + (id as u32) % 0x100) as u32,
            IoCtl::UartGetIrq { id } => (0x75617200u32 + (id as u32) % 0x100) as u32,
            IoCtl::UartSetFlags { id } => (0x75617300u32 + (id as u32) % 0x100) as u32,
        }
    }

    /// Packs this tag into the `u32` the simulator expects.
    pub fn into_ffi(self) -> (r: u32)
        ensures
            r == self.spec_into_ffi(),
    {
        match self {
            IoCtl::AdcGetIrq => 0x61646330,
            IoCtl::IoPortGetIrq { port } => 0x696F6700 + (port as u32) % 0x100,
            IoCtl::IoPortGetState { port } => 0x696F7300 + (port as u32) % 0x100,
            IoCtl::SpiGetIrq { id } => 0x73706900 + (id as u32),
            IoCtl::TwiGetIrq { id } => 0x74776900 + (id as u32),
            IoCtl::UartGetFlags { id } => 0x75616700 + (id as u32) % 0x100,
            IoCtl::UartGetIrq { id } => 0x75617200 + (id as u32) % 0x100,
            IoCtl::UartSetFlags { id } => 0x75617300 + (id as u32) % 0x100,
        }
    }
}

} // verus!
