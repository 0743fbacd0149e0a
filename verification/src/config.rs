//! Channel configuration handed to the driver's init entry point.

use vstd::prelude::*;

verus! {

/// Acceptance mask that lets every identifier through.
pub const ACCEPT_ALL_MASK: u32 = 0xFFFF_FFFF;

/// Filter mode used for every channel.
pub const FILTER_ENABLED: u8 = 1;

/// Acceptance filter, bit timing and working mode of one channel.
#[derive(Clone, Copy, Debug, PartialEq, Eq)]
pub struct VciInitConfig {
    pub acc_code: u32,
    pub acc_mask: u32,
    pub reserved: u32,
    pub filter: u8,
    pub timing0: u8,
    pub timing1: u8,
    pub mode: u8,
}

impl VciInitConfig {
    /// The configuration every (re)initialisation uses: acceptance code 0,
    /// mask all ones, filter enabled, working mode 0, and the two timing
    /// bytes as given. The timing bytes are the hardware's own and are not
    /// interpreted.
    pub open spec fn spec_with_timing(timing0: u8, timing1: u8) -> VciInitConfig {
        VciInitConfig {
            acc_code: 0,
            acc_mask: ACCEPT_ALL_MASK,
            reserved: 0,
            filter: FILTER_ENABLED,
            timing0,
            timing1,
            mode: 0,
        }
    }

    /// Builds the configuration for the given bit timing.
    pub fn with_timing(timing0: u8, timing1: u8) -> (config: VciInitConfig)
        ensures
            config == Self::spec_with_timing(timing0, timing1),
    {
        VciInitConfig {
            acc_code: 0,
            acc_mask: ACCEPT_ALL_MASK,
            reserved: 0,
            filter: FILTER_ENABLED,
            timing0,
            timing1,
            mode: 0,
        }
    }
}

impl Default for VciInitConfig {
    /// The all-zero configuration.
    fn default() -> (config: VciInitConfig)
        ensures
            config == (VciInitConfig {
                acc_code: 0,
                acc_mask: 0,
                reserved: 0,
                filter: 0,
                timing0: 0,
                timing1: 0,
                mode: 0,
            }),
    {
        VciInitConfig {
            acc_code: 0,
            acc_mask: 0,
            reserved: 0,
            filter: 0,
            timing0: 0,
            timing1: 0,
            mode: 0,
        }
    }
}

} // verus!
