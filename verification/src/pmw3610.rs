//! PMW3610 low-power mouse sensor: configuration, register values and the
//! motion burst.

use vstd::prelude::*;

use crate::pointing::MotionData;

verus! {

// Page 0 registers

pub const PMW3610_PROD_ID: u8 = 0x00;

pub const PMW3610_MOTION: u8 = 0x02;

pub const PMW3610_PERFORMANCE: u8 = 0x11;

pub const PMW3610_BURST_READ: u8 = 0x12;

pub const PMW3610_RUN_DOWNSHIFT: u8 = 0x1b;

pub const PMW3610_REST1_RATE: u8 = 0x1c;

pub const PMW3610_REST1_DOWNSHIFT: u8 = 0x1d;

pub const PMW3610_OBSERVATION1: u8 = 0x2d;

pub const PMW3610_SMART_MODE: u8 = 0x32;

pub const PMW3610_POWER_UP_RESET: u8 = 0x3a;

pub const PMW3610_SPI_CLK_ON_REQ: u8 = 0x41;

pub const PMW3610_SPI_PAGE0: u8 = 0x7f;

// Page 1 registers

pub const PMW3610_RES_STEP: u8 = 0x05;

pub const PMW3610_SPI_PAGE1: u8 = 0x7f;

// Burst register offsets

pub const BURST_MOTION: usize = 0;

pub const BURST_DELTA_X_L: usize = 1;

pub const BURST_DELTA_Y_L: usize = 2;

pub const BURST_DELTA_XY_H: usize = 3;

pub const BURST_SQUAL: usize = 4;

pub const BURST_SHUTTER_HI: usize = 5;

pub const BURST_SHUTTER_LO: usize = 6;

pub const BURST_DATA_LEN_NORMAL: usize = 4;

pub const BURST_DATA_LEN_SMART: usize = 7;

// Init sequence values

pub const OBSERVATION1_INIT_MASK: u8 = 0x0f;

pub const PERFORMANCE_INIT: u8 = 0x0d;

pub const RUN_DOWNSHIFT_INIT: u8 = 0x04;

pub const REST1_RATE_INIT: u8 = 0x04;

pub const REST1_DOWNSHIFT_INIT: u8 = 0x0f;

pub const PRODUCT_ID_PMW3610: u8 = 0x3e;

pub const SPI_CLOCK_ON_REQ_ON: u8 = 0xba;

pub const SPI_CLOCK_ON_REQ_OFF: u8 = 0xb5;

pub const MOTION_STATUS_MOTION: u8 = 0x80;

pub const RES_STEP_SWAP_XY: u8 = 0x80;

pub const RES_STEP_INV_X: u8 = 0x40;

pub const RES_STEP_INV_Y: u8 = 0x20;

pub const RES_STEP_AXIS_MASK: u8 = 0xe0;

pub const RES_STEP_RES_MASK: u8 = 0x1f;

pub const PERFORMANCE_FMODE_MASK: u8 = 0xf0;

pub const PERFORMANCE_FMODE_NORMAL: u8 = 0x00;

pub const PERFORMANCE_FMODE_FORCE_AWAKE: u8 = 0xf0;

pub const POWER_UP_RESET_VAL: u8 = 0x5a;

pub const SPI_PAGE0_1: u8 = 0xff;

pub const SPI_PAGE1_0: u8 = 0x00;

pub const SHUTTER_SMART_THRESHOLD: u16 = 45;

pub const SMART_MODE_ENABLE: u8 = 0x00;

pub const SMART_MODE_DISABLE: u8 = 0x80;

pub const PMW3610_DATA_SIZE_BITS: usize = 12;

// Resolution constants

pub const RES_STEP: u16 = 200;

pub const RES_MIN: u16 = 200;

pub const RES_MAX: u16 = 3200;

/// PMW3610 configuration
#[derive(Clone, Copy, Debug, PartialEq, Eq, Structural)]
pub struct Pmw3610Config {
    /// CPI resolution (200-3200, step 200). Set to -1 to use default.
    pub res_cpi: i16,
    /// Invert X axis
    pub invert_x: bool,
    /// Invert Y axis
    pub invert_y: bool,
    /// Swap X and Y axes
    pub swap_xy: bool,
    /// Force awake mode (disable power saving)
    pub force_awake: bool,
    /// Enable smart mode for better tracking on shiny surfaces
    pub smart_mode: bool,
}

impl Default for Pmw3610Config {
    fn default() -> (config: Pmw3610Config)
        ensures
            config.res_cpi == -1,
            !config.invert_x && !config.invert_y && !config.swap_xy,
            !config.force_awake && !config.smart_mode,
    {
        Pmw3610Config {
            res_cpi: -1,
            invert_x: false,
            invert_y: false,
            swap_xy: false,
            force_awake: false,
            smart_mode: false,
        }
    }
}

/// PMW3610 error types
#[derive(Clone, Copy, Debug, PartialEq, Eq, Structural)]
pub enum Pmw3610Error {
    /// SPI communication error
    Spi,
    /// Invalid product ID detected
    InvalidProductId(u8),
    /// Initialization failed
    InitFailed,
    /// Invalid CPI value
    InvalidCpi,
}

/// Register snapshot used to reject motion after a PMW3610 power/SPI glitch.
///
/// A hot-swappable module can disappear without producing an SPI transport
/// error: an undriven SDIO line commonly reads as `0xff`. Keeping both the
/// observed and expected values lets the keyboard log the state that caused a
/// recovery before the sensor is reset and configured again.
#[derive(Clone, Copy, Debug, PartialEq, Eq, Structural)]
pub struct Pmw3610Health {
    pub product_id: u8,
    pub observation1: u8,
    pub performance: u8,
    pub res_step: u8,
    pub smart_mode: u8,
    pub expected_performance: u8,
    pub expected_res_step: u8,
    pub expected_smart_mode: u8,
}

impl Pmw3610Health {
    /// Every register that bears on motion holds what it was configured to.
    pub open spec fn healthy(self) -> bool {
        &&& self.product_id == PRODUCT_ID_PMW3610
        &&& self.observation1 & OBSERVATION1_INIT_MASK == OBSERVATION1_INIT_MASK
        &&& self.performance == self.expected_performance
        &&& self.res_step == self.expected_res_step
        &&& self.smart_mode & SMART_MODE_DISABLE == self.expected_smart_mode
    }

    pub fn is_valid(&self) -> (valid: bool)
        ensures
            valid == self.healthy(),
    {
        self.product_id == PRODUCT_ID_PMW3610 && self.observation1 & OBSERVATION1_INIT_MASK
            == OBSERVATION1_INIT_MASK && self.performance == self.expected_performance
            && self.res_step == self.expected_res_step && self.smart_mode & SMART_MODE_DISABLE
            == self.expected_smart_mode
    }
}

/// What the driver remembers of one PMW3610 between transactions.
#[derive(Clone, Copy, Debug, PartialEq, Eq, Structural)]
pub struct Pmw3610 {
    pub id: u8,
    pub config: Pmw3610Config,
    /// Smart tracking was switched off because of a long shutter time.
    pub smart_flag: bool,
}

/// A resolution that the sensor can be set to.
pub open spec fn cpi_in_range(cpi: int) -> bool {
    RES_MIN <= cpi <= RES_MAX
}

/// A resolution that the sensor can be set to exactly.
pub open spec fn cpi_is_exact(cpi: int) -> bool {
    cpi_in_range(cpi) && cpi % RES_STEP as int == 0
}

/// The orientation bits of the resolution register.
pub open spec fn axis_bits(config: Pmw3610Config) -> u8 {
    (if config.swap_xy {
        RES_STEP_SWAP_XY
    } else {
        0u8
    }) | (if config.invert_x {
        RES_STEP_INV_X
    } else {
        0u8
    }) | (if config.invert_y {
        RES_STEP_INV_Y
    } else {
        0u8
    })
}

/// The resolution register once `cpi` is set in an oriented sensor.
pub open spec fn configured_res_step(config: Pmw3610Config, cpi: int) -> u8 {
    axis_bits(config) | ((cpi / RES_STEP as int) as u8 & RES_STEP_RES_MASK)
}

/// The performance register of a configured sensor.
pub open spec fn configured_performance(config: Pmw3610Config) -> u8 {
    PERFORMANCE_INIT | if config.force_awake {
        PERFORMANCE_FMODE_FORCE_AWAKE
    } else {
        PERFORMANCE_FMODE_NORMAL
    }
}

/// The value that switches smart tracking on or off.
pub open spec fn smart_register(enable: bool) -> u8 {
    if enable {
        SMART_MODE_ENABLE
    } else {
        SMART_MODE_DISABLE
    }
}

impl Pmw3610 {
    /// Smart tracking is on: it was asked for and no long shutter switched it off.
    pub open spec fn smart_tracking(self) -> bool {
        self.config.smart_mode && !self.smart_flag
    }

    /// Create a new PMW3610 driver instance
    pub fn new(id: u8, config: Pmw3610Config) -> (sensor: Pmw3610)
        ensures
            sensor == (Pmw3610 { id, config, smart_flag: false }),
    {
        Pmw3610 { id, config, smart_flag: false }
    }

    /// Puts observed registers beside the values that this driver expects.
    pub fn health_snapshot(
        &self,
        cpi: u16,
        product_id: u8,
        observation1: u8,
        performance: u8,
        smart_mode: u8,
        res_step: u8,
    ) -> (health: Pmw3610Health)
        ensures
            health == (Pmw3610Health {
                product_id,
                observation1,
                performance,
                res_step,
                smart_mode,
                expected_performance: configured_performance(self.config),
                expected_res_step: configured_res_step(self.config, cpi as int),
                expected_smart_mode: smart_register(self.smart_tracking()),
            }),
    {
        let swap: u8 = if self.config.swap_xy {
            RES_STEP_SWAP_XY
        } else {
            0
        };
        let invert_x: u8 = if self.config.invert_x {
            RES_STEP_INV_X
        } else {
            0
        };
        let invert_y: u8 = if self.config.invert_y {
            RES_STEP_INV_Y
        } else {
            0
        };
        let axis: u8 = swap | invert_x | invert_y;
        let fmode: u8 = if self.config.force_awake {
            PERFORMANCE_FMODE_FORCE_AWAKE
        } else {
            PERFORMANCE_FMODE_NORMAL
        };
        let expected_smart_mode: u8 = if self.config.smart_mode {
            if self.smart_flag {
                SMART_MODE_DISABLE
            } else {
                SMART_MODE_ENABLE
            }
        } else {
            SMART_MODE_DISABLE
        };
        Pmw3610Health {
            product_id,
            observation1,
            performance,
            res_step,
            smart_mode,
            expected_performance: PERFORMANCE_INIT | fmode,
            expected_res_step: axis | ((cpi / RES_STEP) as u8 & RES_STEP_RES_MASK),
            expected_smart_mode,
        }
    }
}

/// An initialized sensor keeps its performance setting, whatever its power mode.
pub fn configured_registers_valid(product_id: u8, performance: u8) -> (valid: bool)
    ensures
        valid == (product_id == PRODUCT_ID_PMW3610 && performance & !PERFORMANCE_FMODE_MASK
            == PERFORMANCE_INIT),
{
    product_id == PRODUCT_ID_PMW3610 && performance & !PERFORMANCE_FMODE_MASK == PERFORMANCE_INIT
}

/// The number that `bits + 1` low bits of `value` stand for in two's complement.
pub open spec fn twos_complement(value: int, bits: nat) -> int {
    let half = vstd::arithmetic::power2::pow2(bits) as int;
    if value < half {
        value
    } else {
        value - 2 * half
    }
}

/// Reads the low `bits + 1` bits of `value` as a two's complement number.
pub fn sign_extend(value: u16, bits: usize) -> (result: i16)
    requires
        bits <= 14,
    ensures
        result == (if value & (1u16 << bits) != 0 {
            (value | !(((1u16 << ((bits + 1) as usize)) - 1) as u16)) as i16
        } else {
            value as i16
        }),
        bits == 11 && value < 4096 ==> result == twos_complement(value as int, 11),
{
    let sign_bit: u16 = 1u16 << bits;
    let width: usize = bits + 1;
    assert(1u16 << width >= 1) by (bit_vector)
        requires
            width <= 15,
    ;
    let low_mask: u16 = (1u16 << width) - 1;
    proof {
        vstd::arithmetic::power2::lemma2_to64();
        if bits == 11 && value < 4096 {
            assert(value & (1u16 << 11usize) != 0 ==> value >= 2048 && (value | !0xfffu16) as i16
                == value - 4096) by (bit_vector)
                requires
                    value < 4096,
            ;
            assert(value & (1u16 << 11usize) == 0 ==> value < 2048 && value as i16 == value)
                by (bit_vector)
                requires
                    value < 4096,
            ;
            assert(1u16 << 12usize == 4096) by (bit_vector);
        }
    }
    if value & sign_bit != 0 {
        (value | !low_mask) as i16
    } else {
        value as i16
    }
}

/// The signed 12-bit delta that a low byte and the four bits `high` make up.
pub open spec fn delta_value(high: int, low: int) -> int {
    twos_complement(high * 256 + low, 11)
}

/// What one motion burst says.
#[derive(Clone, Copy, Debug, PartialEq, Eq, Structural)]
pub struct BurstReading {
    pub motion_set: bool,
    pub squal: u8,
    pub shutter: u16,
    pub motion: MotionData,
}

/// Decodes a motion burst. The optical fields are only read where the burst was
/// long enough to hold them, and the deltas count only when the sensor flagged
/// motion.
pub fn decode_burst(data: &[u8; 7], collect_optics: bool) -> (reading: BurstReading)
    ensures
        reading.motion_set == (data@[0] >= 128),
        reading.squal == (if collect_optics {
            data@[4] as int
        } else {
            0
        }),
        reading.shutter == (if collect_optics {
            data@[5] * 256 + data@[6]
        } else {
            0
        }),
        reading.motion.dx == (if reading.motion_set {
            delta_value((data@[3] / 16) as int, data@[1] as int)
        } else {
            0
        }),
        reading.motion.dy == (if reading.motion_set {
            delta_value((data@[3] % 16) as int, data@[2] as int)
        } else {
            0
        }),
{
    let status: u8 = data[BURST_MOTION];
    let motion_set: bool = (status & MOTION_STATUS_MOTION) != 0;
    assert((status & 0x80u8 != 0) == (status >= 128)) by (bit_vector);
    let squal: u8 = if collect_optics {
        data[BURST_SQUAL]
    } else {
        0
    };
    let shutter: u16 = if collect_optics {
        let hi: u8 = data[BURST_SHUTTER_HI];
        let lo: u8 = data[BURST_SHUTTER_LO];
        assert(((hi as u16) << 8) | (lo as u16) == hi * 256 + lo) by (bit_vector);
        ((hi as u16) << 8) | (lo as u16)
    } else {
        0
    };
    if !motion_set {
        return BurstReading { motion_set, squal, shutter, motion: MotionData { dx: 0, dy: 0 } };
    }
    let high: u8 = data[BURST_DELTA_XY_H];
    let x_low: u8 = data[BURST_DELTA_X_L];
    let y_low: u8 = data[BURST_DELTA_Y_L];
    assert(((high as u16) << 4) & 0xf00 | (x_low as u16) == (high / 16) * 256 + x_low)
        by (bit_vector);
    assert(((high as u16) << 8) & 0xf00 | (y_low as u16) == (high % 16) * 256 + y_low)
        by (bit_vector);
    let x: u16 = ((high as u16) << 4) & 0xf00 | (x_low as u16);
    let y: u16 = ((high as u16) << 8) & 0xf00 | (y_low as u16);
    let dx: i16 = sign_extend(x, PMW3610_DATA_SIZE_BITS - 1);
    let dy: i16 = sign_extend(y, PMW3610_DATA_SIZE_BITS - 1);
    BurstReading { motion_set, squal, shutter, motion: MotionData { dx, dy } }
}

/// Whether motion is pending, from the level of the active-low MOTION line.
/// A device without the line, or whose line cannot be read, may always have
/// motion.
pub fn motion_pending(line_low: Option<Result<bool, ()>>) -> (pending: bool)
    ensures
        pending == (match line_low {
            Some(Ok(low)) => low,
            _ => true,
        }),
{
    match line_low {
        Some(Ok(low)) => low,
        _ => true,
    }
}

/// Every pair of delta bytes decodes to a distinct 12-bit delta: nothing that
/// the sensor can report is lost or folded together.
pub proof fn law_deltas_decode_without_loss(high_a: int, low_a: int, high_b: int, low_b: int)
    requires
        0 <= high_a < 16,
        0 <= low_a < 256,
        0 <= high_b < 16,
        0 <= low_b < 256,
    ensures
        -2048 <= delta_value(high_a, low_a) <= 2047,
        delta_value(high_a, low_a) == delta_value(high_b, low_b) ==> high_a == high_b && low_a
            == low_b,
{
    vstd::arithmetic::power2::lemma2_to64();
}

} // verus!
