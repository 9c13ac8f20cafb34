//! Chip-specific clock and flash configuration values for the supported
//! chip model.
//!
//! The flash needs a number of wait cycles per read that grows with the
//! system clock frequency; the tables here assume the default 2.7-3.6V
//! supply voltage.

use vstd::prelude::*;

verus! {

/// Minimum PLL frequency in MHz.
pub const PLL_MIN_FREQ_MHZ: usize = 13;

/// Maximum allowed APB1 frequency in MHz.
pub const APB1_FREQUENCY_LIMIT_MHZ: usize = 45;

/// Maximum allowed APB2 frequency in MHz: twice the APB1 limit.
pub const APB2_FREQUENCY_LIMIT_MHZ: usize = 90;

/// Maximum allowed system clock frequency in MHz.
pub const SYS_CLOCK_FREQUENCY_LIMIT_MHZ: usize = 168;

/// All the possible values for the flash latency. The hardware field is
/// 4 bits wide on this chip model.
#[derive(Copy, Clone, PartialEq, Eq, Structural, Debug)]
pub enum FlashLatency {
    /// 0 wait cycles
    Latency0,
    /// 1 wait cycle
    Latency1,
    /// 2 wait cycles
    Latency2,
    /// 3 wait cycles
    Latency3,
    /// 4 wait cycles
    Latency4,
    /// 5 wait cycles
    Latency5,
    /// 6 wait cycles
    Latency6,
    /// 7 wait cycles
    Latency7,
    /// 8 wait cycles
    Latency8,
    /// 9 wait cycles
    Latency9,
    /// 10 wait cycles
    Latency10,
    /// 11 wait cycles
    Latency11,
    /// 12 wait cycles
    Latency12,
    /// 13 wait cycles
    Latency13,
    /// 14 wait cycles
    Latency14,
    /// 15 wait cycles
    Latency15,
}

/// The wait-cycle table: the latency required at a given system clock
/// frequency, in steps of 30 MHz.
pub open spec fn spec_wait_cycles(frequency_mhz: usize) -> FlashLatency {
    if frequency_mhz <= 30 {
        FlashLatency::Latency0
    } else if frequency_mhz <= 60 {
        FlashLatency::Latency1
    } else if frequency_mhz <= 90 {
        FlashLatency::Latency2
    } else if frequency_mhz <= 120 {
        FlashLatency::Latency3
    } else if frequency_mhz <= 150 {
        FlashLatency::Latency4
    } else {
        FlashLatency::Latency5
    }
}

/// The number of flash wait cycles required at the given system clock
/// frequency, assuming the default supply voltage.
pub fn get_number_wait_cycles_based_on_frequency(frequency_mhz: usize) -> (r: FlashLatency)
    ensures
        r == spec_wait_cycles(frequency_mhz),
{
    if frequency_mhz <= 30 {
        FlashLatency::Latency0
    } else if frequency_mhz <= 60 {
        FlashLatency::Latency1
    } else if frequency_mhz <= 90 {
        FlashLatency::Latency2
    } else if frequency_mhz <= 120 {
        FlashLatency::Latency3
    } else if frequency_mhz <= 150 {
        FlashLatency::Latency4
    } else {
        FlashLatency::Latency5
    }
}

/// How a value of the flash access-control register's 4-bit latency field
/// decodes: one variant per value.
pub open spec fn spec_latency_of_register(value: u32) -> FlashLatency {
    if value == 0 {
        FlashLatency::Latency0
    } else if value == 1 {
        FlashLatency::Latency1
    } else if value == 2 {
        FlashLatency::Latency2
    } else if value == 3 {
        FlashLatency::Latency3
    } else if value == 4 {
        FlashLatency::Latency4
    } else if value == 5 {
        FlashLatency::Latency5
    } else if value == 6 {
        FlashLatency::Latency6
    } else if value == 7 {
        FlashLatency::Latency7
    } else if value == 8 {
        FlashLatency::Latency8
    } else if value == 9 {
        FlashLatency::Latency9
    } else if value == 10 {
        FlashLatency::Latency10
    } else if value == 11 {
        FlashLatency::Latency11
    } else if value == 12 {
        FlashLatency::Latency12
    } else if value == 13 {
        FlashLatency::Latency13
    } else if value == 14 {
        FlashLatency::Latency14
    } else {
        FlashLatency::Latency15
    }
}

/// The latency currently configured, decoded from the latency field of the
/// flash access-control register. The memory-mapped register read itself
/// stays with the caller; this decodes the value it produced. The hardware
/// allows 4-bit latency values, so everything above 14 decodes to the top
/// variant.
pub fn get_latency(latency_register_value: u32) -> (r: FlashLatency)
    ensures
        r == spec_latency_of_register(latency_register_value),
{
    match latency_register_value {
        0 => FlashLatency::Latency0,
        1 => FlashLatency::Latency1,
        2 => FlashLatency::Latency2,
        3 => FlashLatency::Latency3,
        4 => FlashLatency::Latency4,
        5 => FlashLatency::Latency5,
        6 => FlashLatency::Latency6,
        7 => FlashLatency::Latency7,
        8 => FlashLatency::Latency8,
        9 => FlashLatency::Latency9,
        10 => FlashLatency::Latency10,
        11 => FlashLatency::Latency11,
        12 => FlashLatency::Latency12,
        13 => FlashLatency::Latency13,
        14 => FlashLatency::Latency14,
        _ => FlashLatency::Latency15,
    }
}

} // verus!
