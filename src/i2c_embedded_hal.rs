//! I2C controller handles and bus clock configuration.
use vstd::prelude::*;

verus! {

/// Controller register bases.
pub const I2C0_BASE: u64 = 0xfea80000;
pub const I2C1_BASE: u64 = 0xfea90000;
pub const I2C2_BASE: u64 = 0xfeaa0000;
pub const I2C3_BASE: u64 = 0xfeab0000;
pub const I2C4_BASE: u64 = 0xfeac0000;
pub const I2C5_BASE: u64 = 0xfead0000;
pub const I2C6_BASE: u64 = 0xfeae0000;
pub const I2C7_BASE: u64 = 0xfeaf0000;
pub const I2C8_BASE: u64 = 0xfeb00000;

/// Largest value the clock divider register holds.
pub const MAX_CLKDIV: u32 = 0xFFFF;

/// I2C transfer and configuration failures.
#[derive(Debug, Clone, Copy, PartialEq, Eq, Structural)]
pub enum I2cError {
    BusBusy,
    NoAck,
    DataConflict,
    Timeout,
    /// A bad address, or a bus clock the divider cannot reach.
    InvalidAddr,
}

impl I2cError {
    /// Human-readable description.
    pub fn message(&self) -> (r: &'static str) {
        match self {
            I2cError::BusBusy => "I2C Bus Busy",
            I2cError::NoAck => "No ACK from slave",
            I2cError::DataConflict => "Data Conflict",
            I2cError::Timeout => "I2C Timeout",
            I2cError::InvalidAddr => "Invalid Address",
        }
    }
}

/// An I2C controller.
pub struct I2c {
    pub base: u64,
    /// Bus clock, in kHz (100 standard, 400 fast).
    pub freq_khz: u32,
}

/// Divider for a bus clock of `freq_khz` from an APB clock of
/// `apb_freq_mhz`: the bus runs at APB / (2 * (divider + 1)).
pub open spec fn clock_div_of(apb_freq_mhz: u32, freq_khz: u32) -> int {
    (apb_freq_mhz * 1000) / (2 * freq_khz) - 1
}

impl I2c {
    pub fn new(base: u64, freq_khz: u32) -> (i: I2c)
        ensures
            i.base == base,
            i.freq_khz == freq_khz,
    {
        I2c { base, freq_khz }
    }

    /// The clock divider register value for this controller's bus clock;
    /// refused when it does not fit the register.
    pub fn clock_div(&self, apb_freq_mhz: u32) -> (r: Result<u32, I2cError>)
        requires
            self.freq_khz > 0,
            apb_freq_mhz * 1000 <= u32::MAX,
            2 * self.freq_khz <= u32::MAX,
            apb_freq_mhz * 1000 >= 2 * self.freq_khz,
        ensures
            r is Ok <==> clock_div_of(apb_freq_mhz, self.freq_khz) <= MAX_CLKDIV,
            r is Ok ==> r->Ok_0 == clock_div_of(apb_freq_mhz, self.freq_khz),
            r is Err ==> r == Err::<u32, I2cError>(I2cError::InvalidAddr),
    {
        proof {
            assert((apb_freq_mhz * 1000) / (2 * self.freq_khz) >= 1) by (nonlinear_arith)
                requires
                    apb_freq_mhz * 1000 >= 2 * self.freq_khz,
                    self.freq_khz > 0,
            ;
        }
        let div = (apb_freq_mhz * 1000) / (2 * self.freq_khz) - 1;
        if div > MAX_CLKDIV {
            Err(I2cError::InvalidAddr)
        } else {
            Ok(div)
        }
    }
}

} // verus!
