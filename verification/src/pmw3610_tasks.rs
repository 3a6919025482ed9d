//! The register transactions of the PMW3610 driver, step by step.
//!
//! A task names the bus operation that is due with `op` and takes the bus'
//! answer with `advance`, until it reports that it is complete or has failed.
//! `line_action` spells one bus operation out in terms of the chip-select and
//! SPI lines.

use vstd::prelude::*;

use crate::pmw3610::{
    decode_burst, BurstReading, Pmw3610, Pmw3610Config, Pmw3610Error,
    Pmw3610Health, BURST_DATA_LEN_NORMAL, BURST_DATA_LEN_SMART, OBSERVATION1_INIT_MASK,
    PERFORMANCE_FMODE_FORCE_AWAKE, PERFORMANCE_FMODE_MASK, PERFORMANCE_FMODE_NORMAL,
    PERFORMANCE_INIT, PMW3610_BURST_READ, PMW3610_MOTION, PMW3610_OBSERVATION1, PMW3610_PERFORMANCE,
    PMW3610_POWER_UP_RESET, PMW3610_PROD_ID, PMW3610_RES_STEP, PMW3610_REST1_DOWNSHIFT,
    PMW3610_REST1_RATE, PMW3610_RUN_DOWNSHIFT, PMW3610_SMART_MODE, PMW3610_SPI_CLK_ON_REQ,
    PMW3610_SPI_PAGE0, PMW3610_SPI_PAGE1, POWER_UP_RESET_VAL, PRODUCT_ID_PMW3610,
    REST1_DOWNSHIFT_INIT, REST1_RATE_INIT, RES_MAX, RES_MIN, RES_STEP, RES_STEP_AXIS_MASK,
    RES_STEP_INV_X, RES_STEP_INV_Y, RES_STEP_RES_MASK, RES_STEP_SWAP_XY, RUN_DOWNSHIFT_INIT,
    SHUTTER_SMART_THRESHOLD, SMART_MODE_DISABLE, SMART_MODE_ENABLE, SPI_CLOCK_ON_REQ_OFF,
    SPI_CLOCK_ON_REQ_ON, SPI_PAGE0_1, SPI_PAGE1_0,
};
use crate::pointing::{MotionData, PointingDriverError};

verus! {

// Timing constants

pub const SETTLE_DELAY_MS: u64 = 1;

pub const RESET_DELAY_MS: u64 = 10;

pub const INIT_OBSERVATION_DELAY_MS: u64 = 10;

pub const CLOCK_ON_DELAY_US: u64 = 300;

/// Delay from the last NCS falling edge to the first SCK rising edge.
pub const T_NCS_SCLK_NS: u64 = 120;

/// Delay between the address byte and the first data bit of a read.
pub const T_SRAD_US: u64 = 4;

/// Time between a read and the next command.
pub const T_SRX_NS: u64 = 250;

/// Time between a write and the next command, the longer of the two that apply.
pub const T_SWX_US: u64 = 30;

/// Last SCLK falling edge to NCS rising edge of a write.
pub const T_SCLK_NCS_W_US: u64 = 10;

/// Last SCLK falling edge to NCS rising edge of a read.
pub const T_SCLK_NCS_R_NS: u64 = 120;

/// NCS inactive time after a motion burst.
pub const T_BEXIT_NS: u64 = 250;

/// One operation on the sensor's bus.
#[derive(Clone, Copy, Debug, PartialEq, Eq, Structural)]
pub enum RegOp {
    /// Release the chip select.
    Deselect,
    WaitMs(u64),
    WaitUs(u64),
    Write { addr: u8, value: u8 },
    Read { addr: u8 },
    ReadBurst { addr: u8, len: usize },
}

/// How the bus answered one operation other than a burst.
#[derive(Clone, Copy, Debug, PartialEq, Eq, Structural)]
pub enum Reply {
    Done,
    Value(u8),
    Failed,
}

/// Where a task stands after an answer.
#[derive(Clone, Copy, Debug, PartialEq, Eq, Structural)]
pub enum Progress {
    Running,
    Complete,
    Failed(Pmw3610Error),
}

/// An answer that the bus can give to `op`: reads bring a value or fail, writes
/// are done or fail, and the rest is always done.
pub open spec fn answers(op: RegOp, reply: Reply) -> bool {
    match op {
        RegOp::Read { .. } => reply is Value || reply is Failed,
        RegOp::Write { .. } => reply is Done || reply is Failed,
        RegOp::ReadBurst { .. } => reply is Failed,
        _ => reply is Done,
    }
}

pub open spec fn clock_on() -> RegOp {
    RegOp::Write { addr: PMW3610_SPI_CLK_ON_REQ, value: SPI_CLOCK_ON_REQ_ON }
}

pub open spec fn clock_off() -> RegOp {
    RegOp::Write { addr: PMW3610_SPI_CLK_ON_REQ, value: SPI_CLOCK_ON_REQ_OFF }
}

pub open spec fn select_page1() -> RegOp {
    RegOp::Write { addr: PMW3610_SPI_PAGE0, value: SPI_PAGE0_1 }
}

pub open spec fn select_page0() -> RegOp {
    RegOp::Write { addr: PMW3610_SPI_PAGE1, value: SPI_PAGE1_0 }
}

// Lines

/// What happens on the chip-select and SPI lines.
#[derive(Clone, Copy, Debug, PartialEq, Eq, Structural)]
pub enum LineAction {
    SelectLow,
    SelectHigh,
    WaitNs(u64),
    WaitUs(u64),
    WaitMs(u64),
    SendOne(u8),
    SendTwo(u8, u8),
    /// Clock this many bytes in.
    Receive(usize),
}

/// The line actions of a bus operation, in order. An SPI transfer that fails
/// ends the operation at once.
pub open spec fn line_script(op: RegOp) -> Seq<LineAction> {
    match op {
        RegOp::Deselect => seq![LineAction::SelectHigh],
        RegOp::WaitMs(ms) => seq![LineAction::WaitMs(ms)],
        RegOp::WaitUs(us) => seq![LineAction::WaitUs(us)],
        RegOp::Write { addr, value } => seq![
            LineAction::SelectLow,
            LineAction::WaitNs(T_NCS_SCLK_NS),
            LineAction::SendTwo(addr | 0x80u8, value),
            LineAction::WaitUs(T_SCLK_NCS_W_US),
            LineAction::SelectHigh,
            LineAction::WaitUs(T_SWX_US),
        ],
        RegOp::Read { addr } => seq![
            LineAction::SelectLow,
            LineAction::WaitNs(T_NCS_SCLK_NS),
            LineAction::SendOne(addr & 0x7fu8),
            LineAction::WaitUs(T_SRAD_US),
            LineAction::Receive(1),
            LineAction::WaitNs(T_SCLK_NCS_R_NS),
            LineAction::SelectHigh,
            LineAction::WaitNs(T_SRX_NS),
        ],
        RegOp::ReadBurst { addr, len } => seq![
            LineAction::SelectLow,
            LineAction::WaitNs(T_NCS_SCLK_NS),
            LineAction::SendOne(addr & 0x7fu8),
            LineAction::WaitUs(T_SRAD_US),
            LineAction::Receive(len),
            LineAction::WaitNs(T_SCLK_NCS_R_NS),
            LineAction::SelectHigh,
            LineAction::WaitNs(T_BEXIT_NS),
        ],
    }
}

/// The line action number `step` of a bus operation, or `None` past its end.
pub fn line_action(op: RegOp, step: usize) -> (action: Option<LineAction>)
    ensures
        action == (if step < line_script(op).len() {
            Some(line_script(op)[step as int])
        } else {
            None
        }),
{
    match op {
        RegOp::Deselect => match step {
            0 => Some(LineAction::SelectHigh),
            _ => None,
        },
        RegOp::WaitMs(ms) => match step {
            0 => Some(LineAction::WaitMs(ms)),
            _ => None,
        },
        RegOp::WaitUs(us) => match step {
            0 => Some(LineAction::WaitUs(us)),
            _ => None,
        },
        RegOp::Write { addr, value } => match step {
            0 => Some(LineAction::SelectLow),
            1 => Some(LineAction::WaitNs(T_NCS_SCLK_NS)),
            2 => Some(LineAction::SendTwo(addr | 0x80, value)),
            3 => Some(LineAction::WaitUs(T_SCLK_NCS_W_US)),
            4 => Some(LineAction::SelectHigh),
            5 => Some(LineAction::WaitUs(T_SWX_US)),
            _ => None,
        },
        RegOp::Read { addr } => read_line_action(addr, 1, T_SRX_NS, step),
        RegOp::ReadBurst { addr, len } => read_line_action(addr, len, T_BEXIT_NS, step),
    }
}

fn read_line_action(addr: u8, len: usize, rest_ns: u64, step: usize) -> (action: Option<LineAction>)
    ensures
        action == (match step {
            0 => Some(LineAction::SelectLow),
            1 => Some(LineAction::WaitNs(T_NCS_SCLK_NS)),
            2 => Some(LineAction::SendOne(addr & 0x7fu8)),
            3 => Some(LineAction::WaitUs(T_SRAD_US)),
            4 => Some(LineAction::Receive(len)),
            5 => Some(LineAction::WaitNs(T_SCLK_NCS_R_NS)),
            6 => Some(LineAction::SelectHigh),
            7 => Some(LineAction::WaitNs(rest_ns)),
            _ => None,
        }),
{
    match step {
        0 => Some(LineAction::SelectLow),
        1 => Some(LineAction::WaitNs(T_NCS_SCLK_NS)),
        2 => Some(LineAction::SendOne(addr & 0x7f)),
        3 => Some(LineAction::WaitUs(T_SRAD_US)),
        4 => Some(LineAction::Receive(len)),
        5 => Some(LineAction::WaitNs(T_SCLK_NCS_R_NS)),
        6 => Some(LineAction::SelectHigh),
        7 => Some(LineAction::WaitNs(rest_ns)),
        _ => None,
    }
}

/// The chip is selected after the first `step` line actions of `op`.
pub open spec fn selected_after(op: RegOp, step: nat) -> bool
    decreases step,
{
    if step == 0 {
        false
    } else {
        match line_script(op)[step - 1] {
            LineAction::SelectLow => true,
            LineAction::SelectHigh => false,
            _ => selected_after(op, (step - 1) as nat),
        }
    }
}

/// Bytes move only while the chip is selected, and an operation that runs to
/// its end leaves the chip deselected.
pub proof fn law_bus_operations_frame_their_bytes(op: RegOp, step: nat)
    requires
        step < line_script(op).len(),
    ensures
        (line_script(op)[step as int] is SendOne || line_script(op)[step as int] is SendTwo
            || line_script(op)[step as int] is Receive) ==> selected_after(op, step),
        !selected_after(op, line_script(op).len()),
{
    reveal_with_fuel(selected_after, 10);
}

// Setting the resolution

/// Sets the resolution of an initialized sensor.
#[derive(Clone, Copy, Debug, PartialEq, Eq, Structural)]
pub struct ResolutionTask {
    pub cpi: u16,
    pub pc: u8,
    /// The resolution register as it was read.
    pub res_step: u8,
}

/// The resolution register `read` with the resolution replaced.
pub open spec fn with_resolution(read: u8, cpi: u16) -> u8 {
    (read & !RES_STEP_RES_MASK) | (cpi / RES_STEP) as u8
}

pub open spec fn resolution_op(cpi: u16, res_step: u8, pc: int) -> RegOp {
    if pc == 0 {
        clock_on()
    } else if pc == 1 {
        RegOp::WaitUs(CLOCK_ON_DELAY_US)
    } else if pc == 2 {
        select_page1()
    } else if pc == 3 {
        RegOp::Read { addr: PMW3610_RES_STEP }
    } else if pc == 4 {
        RegOp::Write { addr: PMW3610_RES_STEP, value: with_resolution(res_step, cpi) }
    } else if pc == 5 {
        select_page0()
    } else {
        clock_off()
    }
}

impl ResolutionTask {
    pub open spec fn wf(self) -> bool {
        crate::pmw3610::cpi_in_range(self.cpi as int) && self.pc < 7
    }

    pub open spec fn due(self) -> RegOp {
        resolution_op(self.cpi, self.res_step, self.pc as int)
    }

    pub open spec fn next(self, reply: Reply) -> (ResolutionTask, Progress) {
        match reply {
            Reply::Failed => (self, Progress::Failed(Pmw3610Error::Spi)),
            _ => if self.pc == 6 {
                (self, Progress::Complete)
            } else {
                (
                    ResolutionTask {
                        pc: (self.pc + 1) as u8,
                        res_step: match reply {
                            Reply::Value(value) => value,
                            _ => self.res_step,
                        },
                        ..self
                    },
                    Progress::Running,
                )
            },
        }
    }

    /// Set sensor resolution in CPI (200-3200, step 200)
    pub fn start(cpi: u16) -> (task: Result<ResolutionTask, PointingDriverError>)
        ensures
            task == (if crate::pmw3610::cpi_in_range(cpi as int) {
                Ok::<ResolutionTask, PointingDriverError>(
                    ResolutionTask { cpi, pc: 0, res_step: 0 },
                )
            } else {
                Err(PointingDriverError::InvalidCpi)
            }),
    {
        if cpi < RES_MIN || cpi > RES_MAX {
            return Err(PointingDriverError::InvalidCpi);
        }
        Ok(ResolutionTask { cpi, pc: 0, res_step: 0 })
    }

    pub fn op(&self) -> (op: RegOp)
        requires
            self.wf(),
        ensures
            op == self.due(),
    {
        match self.pc {
            0 => RegOp::Write { addr: PMW3610_SPI_CLK_ON_REQ, value: SPI_CLOCK_ON_REQ_ON },
            1 => RegOp::WaitUs(CLOCK_ON_DELAY_US),
            2 => RegOp::Write { addr: PMW3610_SPI_PAGE0, value: SPI_PAGE0_1 },
            3 => RegOp::Read { addr: PMW3610_RES_STEP },
            4 => RegOp::Write {
                addr: PMW3610_RES_STEP,
                value: (self.res_step & !RES_STEP_RES_MASK) | (self.cpi / RES_STEP) as u8,
            },
            5 => RegOp::Write { addr: PMW3610_SPI_PAGE1, value: SPI_PAGE1_0 },
            _ => RegOp::Write { addr: PMW3610_SPI_CLK_ON_REQ, value: SPI_CLOCK_ON_REQ_OFF },
        }
    }

    pub fn advance(&mut self, reply: Reply) -> (progress: Progress)
        requires
            old(self).wf(),
            answers(old(self).due(), reply),
        ensures
            (*final(self), progress) == old(self).next(reply),
            progress is Running ==> final(self).wf(),
    {
        match reply {
            Reply::Failed => Progress::Failed(Pmw3610Error::Spi),
            _ => {
                if self.pc == 6 {
                    return Progress::Complete;
                }
                if let Reply::Value(value) = reply {
                    self.res_step = value;
                }
                self.pc = self.pc + 1;
                Progress::Running
            },
        }
    }
}

// Forced-awake mode

/// Sets or clears the forced-awake mode.
#[derive(Clone, Copy, Debug, PartialEq, Eq, Structural)]
pub struct ForceAwakeTask {
    pub enable: bool,
    pub pc: u8,
    /// The performance register as it was read.
    pub performance: u8,
}

/// The performance register `read` with the power mode replaced.
pub open spec fn with_force_awake(read: u8, enable: bool) -> u8 {
    (read & !PERFORMANCE_FMODE_MASK) | if enable {
        PERFORMANCE_FMODE_FORCE_AWAKE
    } else {
        PERFORMANCE_FMODE_NORMAL
    }
}

pub open spec fn force_awake_op(enable: bool, performance: u8, pc: int) -> RegOp {
    if pc == 0 {
        RegOp::Read { addr: PMW3610_PERFORMANCE }
    } else if pc == 1 {
        clock_on()
    } else if pc == 2 {
        RegOp::WaitUs(CLOCK_ON_DELAY_US)
    } else if pc == 3 {
        RegOp::Write { addr: PMW3610_PERFORMANCE, value: with_force_awake(performance, enable) }
    } else {
        clock_off()
    }
}

impl ForceAwakeTask {
    pub open spec fn wf(self) -> bool {
        self.pc < 5
    }

    pub open spec fn due(self) -> RegOp {
        force_awake_op(self.enable, self.performance, self.pc as int)
    }

    pub open spec fn next(self, reply: Reply) -> (ForceAwakeTask, Progress) {
        match reply {
            Reply::Failed => (self, Progress::Failed(Pmw3610Error::Spi)),
            _ => if self.pc == 4 {
                (self, Progress::Complete)
            } else {
                (
                    ForceAwakeTask {
                        pc: (self.pc + 1) as u8,
                        performance: match reply {
                            Reply::Value(value) => value,
                            _ => self.performance,
                        },
                        ..self
                    },
                    Progress::Running,
                )
            },
        }
    }

    /// Set force awake mode
    pub fn start(enable: bool) -> (task: ForceAwakeTask)
        ensures
            task == (ForceAwakeTask { enable, pc: 0, performance: 0 }),
    {
        ForceAwakeTask { enable, pc: 0, performance: 0 }
    }

    pub fn op(&self) -> (op: RegOp)
        requires
            self.wf(),
        ensures
            op == self.due(),
    {
        match self.pc {
            0 => RegOp::Read { addr: PMW3610_PERFORMANCE },
            1 => RegOp::Write { addr: PMW3610_SPI_CLK_ON_REQ, value: SPI_CLOCK_ON_REQ_ON },
            2 => RegOp::WaitUs(CLOCK_ON_DELAY_US),
            3 => {
                let mode: u8 = if self.enable {
                    PERFORMANCE_FMODE_FORCE_AWAKE
                } else {
                    PERFORMANCE_FMODE_NORMAL
                };
                RegOp::Write {
                    addr: PMW3610_PERFORMANCE,
                    value: (self.performance & !PERFORMANCE_FMODE_MASK) | mode,
                }
            },
            _ => RegOp::Write { addr: PMW3610_SPI_CLK_ON_REQ, value: SPI_CLOCK_ON_REQ_OFF },
        }
    }

    pub fn advance(&mut self, reply: Reply) -> (progress: Progress)
        requires
            old(self).wf(),
            answers(old(self).due(), reply),
        ensures
            (*final(self), progress) == old(self).next(reply),
            progress is Running ==> final(self).wf(),
    {
        match reply {
            Reply::Failed => Progress::Failed(Pmw3610Error::Spi),
            _ => {
                if self.pc == 4 {
                    return Progress::Complete;
                }
                if let Reply::Value(value) = reply {
                    self.performance = value;
                }
                self.pc = self.pc + 1;
                Progress::Running
            },
        }
    }
}

// Smart mode

/// Applies the requested smart-register state explicitly and verifies it.
///
/// PMW3610 powers up with smart tracking enabled. Merely skipping the adaptive
/// shutter logic therefore does not disable the sensor feature; diagnostic
/// builds need an explicit register write.
#[derive(Clone, Copy, Debug, PartialEq, Eq, Structural)]
pub struct SmartModeTask {
    pub enable: bool,
    pub pc: u8,
    /// The smart-mode register as it was read back.
    pub readback: u8,
}

pub open spec fn smart_mode_op(enable: bool, pc: int) -> RegOp {
    if pc == 0 {
        clock_on()
    } else if pc == 1 {
        RegOp::WaitUs(CLOCK_ON_DELAY_US)
    } else if pc == 2 {
        RegOp::Write { addr: PMW3610_SMART_MODE, value: crate::pmw3610::smart_register(enable) }
    } else if pc == 3 {
        RegOp::Read { addr: PMW3610_SMART_MODE }
    } else {
        clock_off()
    }
}

impl SmartModeTask {
    pub open spec fn wf(self) -> bool {
        self.pc < 5
    }

    pub open spec fn due(self) -> RegOp {
        smart_mode_op(self.enable, self.pc as int)
    }

    /// The readback confirms the requested state.
    pub open spec fn verified(self) -> bool {
        self.readback & SMART_MODE_DISABLE == crate::pmw3610::smart_register(self.enable)
    }

    pub open spec fn next(self, reply: Reply) -> (SmartModeTask, Progress) {
        match reply {
            Reply::Failed => (self, Progress::Failed(Pmw3610Error::Spi)),
            _ => if self.pc == 4 {
                (
                    self,
                    if self.verified() {
                        Progress::Complete
                    } else {
                        Progress::Failed(Pmw3610Error::InitFailed)
                    },
                )
            } else {
                (
                    SmartModeTask {
                        pc: (self.pc + 1) as u8,
                        readback: match reply {
                            Reply::Value(value) => value,
                            _ => self.readback,
                        },
                        ..self
                    },
                    Progress::Running,
                )
            },
        }
    }

    pub fn start(enable: bool) -> (task: SmartModeTask)
        ensures
            task == (SmartModeTask { enable, pc: 0, readback: 0 }),
    {
        SmartModeTask { enable, pc: 0, readback: 0 }
    }

    fn target(&self) -> (value: u8)
        ensures
            value == crate::pmw3610::smart_register(self.enable),
    {
        if self.enable {
            SMART_MODE_ENABLE
        } else {
            SMART_MODE_DISABLE
        }
    }

    pub fn op(&self) -> (op: RegOp)
        requires
            self.wf(),
        ensures
            op == self.due(),
    {
        match self.pc {
            0 => RegOp::Write { addr: PMW3610_SPI_CLK_ON_REQ, value: SPI_CLOCK_ON_REQ_ON },
            1 => RegOp::WaitUs(CLOCK_ON_DELAY_US),
            2 => RegOp::Write { addr: PMW3610_SMART_MODE, value: self.target() },
            3 => RegOp::Read { addr: PMW3610_SMART_MODE },
            _ => RegOp::Write { addr: PMW3610_SPI_CLK_ON_REQ, value: SPI_CLOCK_ON_REQ_OFF },
        }
    }

    pub fn advance(&mut self, reply: Reply) -> (progress: Progress)
        requires
            old(self).wf(),
            answers(old(self).due(), reply),
        ensures
            (*final(self), progress) == old(self).next(reply),
            progress is Running ==> final(self).wf(),
    {
        match reply {
            Reply::Failed => Progress::Failed(Pmw3610Error::Spi),
            _ => {
                if self.pc == 4 {
                    if self.readback & SMART_MODE_DISABLE == self.target() {
                        return Progress::Complete;
                    }
                    return Progress::Failed(Pmw3610Error::InitFailed);
                }
                if let Reply::Value(value) = reply {
                    self.readback = value;
                }
                self.pc = self.pc + 1;
                Progress::Running
            },
        }
    }
}

// Initialization

/// Resets the sensor, checks that it is one, and orients its axes.
#[derive(Clone, Copy, Debug, PartialEq, Eq, Structural)]
pub struct ResetTask {
    pub config: Pmw3610Config,
    pub pc: u8,
    /// The resolution register as it was read after the reset.
    pub res_step: u8,
}

/// The resolution register `read` with the orientation replaced.
pub open spec fn with_axes(read: u8, config: Pmw3610Config) -> u8 {
    (read & RES_STEP_RES_MASK) | crate::pmw3610::axis_bits(config)
}

pub open spec fn reset_op(config: Pmw3610Config, res_step: u8, pc: int) -> RegOp {
    if pc == 0 {
        RegOp::Deselect
    } else if pc == 1 {
        RegOp::WaitMs(SETTLE_DELAY_MS)
    } else if pc == 2 {
        RegOp::Write { addr: PMW3610_POWER_UP_RESET, value: POWER_UP_RESET_VAL }
    } else if pc == 3 {
        RegOp::WaitMs(RESET_DELAY_MS)
    } else if pc == 4 {
        RegOp::Read { addr: PMW3610_PROD_ID }
    } else if pc == 5 {
        clock_on()
    } else if pc == 6 {
        RegOp::WaitUs(CLOCK_ON_DELAY_US)
    } else if pc == 7 {
        RegOp::Write { addr: PMW3610_OBSERVATION1, value: 0 }
    } else if pc == 8 {
        RegOp::WaitMs(INIT_OBSERVATION_DELAY_MS)
    } else if pc == 9 {
        RegOp::Read { addr: PMW3610_OBSERVATION1 }
    } else if 10 <= pc < 14 {
        // MOTION, DELTA_X_L, DELTA_Y_L and DELTA_XY_H
        RegOp::Read { addr: (PMW3610_MOTION + pc - 10) as u8 }
    } else if pc == 14 {
        RegOp::Write { addr: PMW3610_PERFORMANCE, value: PERFORMANCE_INIT }
    } else if pc == 15 {
        RegOp::Write { addr: PMW3610_RUN_DOWNSHIFT, value: RUN_DOWNSHIFT_INIT }
    } else if pc == 16 {
        RegOp::Write { addr: PMW3610_REST1_RATE, value: REST1_RATE_INIT }
    } else if pc == 17 {
        RegOp::Write { addr: PMW3610_REST1_DOWNSHIFT, value: REST1_DOWNSHIFT_INIT }
    } else if pc == 18 {
        select_page1()
    } else if pc == 19 {
        RegOp::Read { addr: PMW3610_RES_STEP }
    } else if pc == 20 {
        RegOp::Write { addr: PMW3610_RES_STEP, value: with_axes(res_step, config) }
    } else if pc == 21 {
        RegOp::Read { addr: PMW3610_RES_STEP }
    } else if pc == 22 {
        select_page0()
    } else {
        clock_off()
    }
}

impl ResetTask {
    pub open spec fn wf(self) -> bool {
        self.pc < 24
    }

    pub open spec fn due(self) -> RegOp {
        reset_op(self.config, self.res_step, self.pc as int)
    }

    /// What is wrong with the value that a read brought, if anything.
    pub open spec fn objection(self, value: u8) -> Option<Pmw3610Error> {
        if self.pc == 4 && value != PRODUCT_ID_PMW3610 {
            Some(Pmw3610Error::InvalidProductId(value))
        } else if self.pc == 9 && value & OBSERVATION1_INIT_MASK != OBSERVATION1_INIT_MASK {
            Some(Pmw3610Error::InitFailed)
        } else if self.pc == 21 && value & RES_STEP_AXIS_MASK != with_axes(
            self.res_step,
            self.config,
        ) & RES_STEP_AXIS_MASK {
            Some(Pmw3610Error::InitFailed)
        } else {
            None
        }
    }

    pub open spec fn next(self, reply: Reply) -> (ResetTask, Progress) {
        match reply {
            Reply::Failed => (self, Progress::Failed(Pmw3610Error::Spi)),
            Reply::Done => if self.pc == 23 {
                (self, Progress::Complete)
            } else {
                (ResetTask { pc: (self.pc + 1) as u8, ..self }, Progress::Running)
            },
            Reply::Value(value) => match self.objection(value) {
                Some(error) => (self, Progress::Failed(error)),
                None => (
                    ResetTask {
                        pc: (self.pc + 1) as u8,
                        res_step: if self.pc == 19 {
                            value
                        } else {
                            self.res_step
                        },
                        ..self
                    },
                    Progress::Running,
                ),
            },
        }
    }

    pub fn start(config: Pmw3610Config) -> (task: ResetTask)
        ensures
            task == (ResetTask { config, pc: 0, res_step: 0 }),
    {
        ResetTask { config, pc: 0, res_step: 0 }
    }

    /// The orientation that is to be written.
    fn oriented(&self) -> (value: u8)
        ensures
            value == with_axes(self.res_step, self.config),
    {
        let swap: u8 = if self.config.swap_xy {
            RES_STEP_SWAP_XY
        } else {
            0
        };
        let invert_x: u8 = if self.config.invert_x {
            RES_STEP_INV_X
        } else {
            0
        };
        let invert_y: u8 = if self.config.invert_y {
            RES_STEP_INV_Y
        } else {
            0
        };
        (self.res_step & RES_STEP_RES_MASK) | (swap | invert_x | invert_y)
    }

    pub fn op(&self) -> (op: RegOp)
        requires
            self.wf(),
        ensures
            op == self.due(),
    {
        match self.pc {
            0 => RegOp::Deselect,
            1 => RegOp::WaitMs(SETTLE_DELAY_MS),
            2 => RegOp::Write { addr: PMW3610_POWER_UP_RESET, value: POWER_UP_RESET_VAL },
            3 => RegOp::WaitMs(RESET_DELAY_MS),
            4 => RegOp::Read { addr: PMW3610_PROD_ID },
            5 => RegOp::Write { addr: PMW3610_SPI_CLK_ON_REQ, value: SPI_CLOCK_ON_REQ_ON },
            6 => RegOp::WaitUs(CLOCK_ON_DELAY_US),
            7 => RegOp::Write { addr: PMW3610_OBSERVATION1, value: 0 },
            8 => RegOp::WaitMs(INIT_OBSERVATION_DELAY_MS),
            9 => RegOp::Read { addr: PMW3610_OBSERVATION1 },
            10 | 11 | 12 | 13 => RegOp::Read { addr: PMW3610_MOTION + (self.pc - 10) },
            14 => RegOp::Write { addr: PMW3610_PERFORMANCE, value: PERFORMANCE_INIT },
            15 => RegOp::Write { addr: PMW3610_RUN_DOWNSHIFT, value: RUN_DOWNSHIFT_INIT },
            16 => RegOp::Write { addr: PMW3610_REST1_RATE, value: REST1_RATE_INIT },
            17 => RegOp::Write { addr: PMW3610_REST1_DOWNSHIFT, value: REST1_DOWNSHIFT_INIT },
            18 => RegOp::Write { addr: PMW3610_SPI_PAGE0, value: SPI_PAGE0_1 },
            19 => RegOp::Read { addr: PMW3610_RES_STEP },
            20 => RegOp::Write { addr: PMW3610_RES_STEP, value: self.oriented() },
            21 => RegOp::Read { addr: PMW3610_RES_STEP },
            22 => RegOp::Write { addr: PMW3610_SPI_PAGE1, value: SPI_PAGE1_0 },
            _ => RegOp::Write { addr: PMW3610_SPI_CLK_ON_REQ, value: SPI_CLOCK_ON_REQ_OFF },
        }
    }

    pub fn advance(&mut self, reply: Reply) -> (progress: Progress)
        requires
            old(self).wf(),
            answers(old(self).due(), reply),
        ensures
            (*final(self), progress) == old(self).next(reply),
            progress is Running ==> final(self).wf(),
    {
        match reply {
            Reply::Failed => Progress::Failed(Pmw3610Error::Spi),
            Reply::Done => {
                if self.pc == 23 {
                    return Progress::Complete;
                }
                self.pc = self.pc + 1;
                Progress::Running
            },
            Reply::Value(value) => {
                if self.pc == 4 && value != PRODUCT_ID_PMW3610 {
                    return Progress::Failed(Pmw3610Error::InvalidProductId(value));
                }
                if self.pc == 9 && value & OBSERVATION1_INIT_MASK != OBSERVATION1_INIT_MASK {
                    return Progress::Failed(Pmw3610Error::InitFailed);
                }
                if self.pc == 21 && value & RES_STEP_AXIS_MASK != self.oriented()
                    & RES_STEP_AXIS_MASK {
                    return Progress::Failed(Pmw3610Error::InitFailed);
                }
                if self.pc == 19 {
                    self.res_step = value;
                }
                self.pc = self.pc + 1;
                Progress::Running
            },
        }
    }
}

/// The whole initialization: reset and orientation, then the configured
/// resolution where there is one, then the power mode, then smart tracking.
#[derive(Clone, Copy, Debug, PartialEq, Eq, Structural)]
pub enum InitTask {
    Reset(ResetTask),
    Resolution(ResolutionTask),
    ForceAwake(ForceAwakeTask),
    SmartMode(SmartModeTask),
}

impl InitTask {
    pub open spec fn wf(self) -> bool {
        match self {
            InitTask::Reset(task) => task.wf(),
            InitTask::Resolution(task) => task.wf(),
            InitTask::ForceAwake(task) => task.wf(),
            InitTask::SmartMode(task) => task.wf(),
        }
    }

    pub open spec fn due(self) -> RegOp {
        match self {
            InitTask::Reset(task) => task.due(),
            InitTask::Resolution(task) => task.due(),
            InitTask::ForceAwake(task) => task.due(),
            InitTask::SmartMode(task) => task.due(),
        }
    }

    pub open spec fn awake_stage(config: Pmw3610Config) -> InitTask {
        InitTask::ForceAwake(
            ForceAwakeTask { enable: config.force_awake, pc: 0, performance: 0 },
        )
    }

    /// The stage that follows the reset. A configured resolution that the
    /// sensor cannot take fails the initialization like a bus error.
    pub open spec fn after_reset(self, config: Pmw3610Config) -> (InitTask, Progress) {
        if config.res_cpi > 0 {
            if crate::pmw3610::cpi_in_range(config.res_cpi as int) {
                (
                    InitTask::Resolution(
                        ResolutionTask { cpi: config.res_cpi as u16, pc: 0, res_step: 0 },
                    ),
                    Progress::Running,
                )
            } else {
                (self, Progress::Failed(Pmw3610Error::Spi))
            }
        } else {
            (InitTask::awake_stage(config), Progress::Running)
        }
    }

    pub open spec fn next(self, config: Pmw3610Config, reply: Reply) -> (InitTask, Progress) {
        match self {
            InitTask::Reset(task) => {
                let (rest, progress) = task.next(reply);
                match progress {
                    Progress::Complete => InitTask::Reset(rest).after_reset(config),
                    _ => (InitTask::Reset(rest), progress),
                }
            },
            InitTask::Resolution(task) => {
                let (rest, progress) = task.next(reply);
                match progress {
                    Progress::Complete => (InitTask::awake_stage(config), Progress::Running),
                    _ => (InitTask::Resolution(rest), progress),
                }
            },
            InitTask::ForceAwake(task) => {
                let (rest, progress) = task.next(reply);
                match progress {
                    Progress::Complete => (
                        InitTask::SmartMode(
                            SmartModeTask { enable: config.smart_mode, pc: 0, readback: 0 },
                        ),
                        Progress::Running,
                    ),
                    _ => (InitTask::ForceAwake(rest), progress),
                }
            },
            InitTask::SmartMode(task) => {
                let (rest, progress) = task.next(reply);
                (
                    InitTask::SmartMode(rest),
                    match progress {
                        Progress::Failed(_) => Progress::Failed(Pmw3610Error::InitFailed),
                        _ => progress,
                    },
                )
            },
        }
    }

    /// Initialize the sensor
    pub fn start(sensor: &Pmw3610) -> (task: InitTask)
        ensures
            task == InitTask::Reset(ResetTask { config: sensor.config, pc: 0, res_step: 0 }),
    {
        InitTask::Reset(ResetTask::start(sensor.config))
    }

    pub fn op(&self) -> (op: RegOp)
        requires
            self.wf(),
        ensures
            op == self.due(),
    {
        match self {
            InitTask::Reset(task) => task.op(),
            InitTask::Resolution(task) => task.op(),
            InitTask::ForceAwake(task) => task.op(),
            InitTask::SmartMode(task) => task.op(),
        }
    }

    /// Takes the answer to the operation that was due. A sensor whose
    /// initialization is complete tracks in the configured smart mode.
    pub fn advance(&mut self, sensor: &mut Pmw3610, reply: Reply) -> (progress: Progress)
        requires
            old(self).wf(),
            answers(old(self).due(), reply),
        ensures
            (*final(self), progress) == old(self).next(old(sensor).config, reply),
            progress is Running ==> final(self).wf(),
            *final(sensor) == (if progress is Complete {
                Pmw3610 { smart_flag: !(*old(self))->SmartMode_0.enable, ..*old(sensor) }
            } else {
                *old(sensor)
            }),
            progress is Complete ==> *old(self) is SmartMode,
    {
        let config = sensor.config;
        let current = *self;
        match current {
            InitTask::Reset(mut task) => {
                let progress = task.advance(reply);
                *self = InitTask::Reset(task);
                match progress {
                    Progress::Complete => {
                        if config.res_cpi > 0 {
                            match ResolutionTask::start(config.res_cpi as u16) {
                                Ok(next) => {
                                    *self = InitTask::Resolution(next);
                                    Progress::Running
                                },
                                Err(_) => Progress::Failed(Pmw3610Error::Spi),
                            }
                        } else {
                            *self = InitTask::ForceAwake(ForceAwakeTask::start(config.force_awake));
                            Progress::Running
                        }
                    },
                    _ => progress,
                }
            },
            InitTask::Resolution(mut task) => {
                let progress = task.advance(reply);
                *self = InitTask::Resolution(task);
                match progress {
                    Progress::Complete => {
                        *self = InitTask::ForceAwake(ForceAwakeTask::start(config.force_awake));
                        Progress::Running
                    },
                    _ => progress,
                }
            },
            InitTask::ForceAwake(mut task) => {
                let progress = task.advance(reply);
                *self = InitTask::ForceAwake(task);
                match progress {
                    Progress::Complete => {
                        *self = InitTask::SmartMode(SmartModeTask::start(config.smart_mode));
                        Progress::Running
                    },
                    _ => progress,
                }
            },
            InitTask::SmartMode(mut task) => {
                let progress = task.advance(reply);
                *self = InitTask::SmartMode(task);
                match progress {
                    Progress::Failed(_) => Progress::Failed(Pmw3610Error::InitFailed),
                    Progress::Complete => {
                        sensor.smart_flag = !task.enable;
                        Progress::Complete
                    },
                    Progress::Running => Progress::Running,
                }
            },
        }
    }
}

// Presence check

/// Checks that a connected sensor is still present and initialized.
///
/// This is intentionally lightweight so hot-swappable devices can verify their
/// PMW3610 periodically without resetting a healthy sensor.
#[derive(Clone, Copy, Debug, PartialEq, Eq, Structural)]
pub struct ConfiguredTask {
    pub product_id: Option<u8>,
}

impl ConfiguredTask {
    pub open spec fn due(self) -> RegOp {
        match self.product_id {
            None => RegOp::Read { addr: PMW3610_PROD_ID },
            Some(_) => RegOp::Read { addr: PMW3610_PERFORMANCE },
        }
    }

    /// The verdict, once there is one.
    pub open spec fn verdict(self, reply: Reply) -> Option<bool> {
        match (self.product_id, reply) {
            (None, Reply::Value(_)) => None,
            (Some(product_id), Reply::Value(performance)) => Some(
                product_id == PRODUCT_ID_PMW3610 && performance & !PERFORMANCE_FMODE_MASK
                    == PERFORMANCE_INIT,
            ),
            _ => Some(false),
        }
    }

    pub fn start() -> (task: ConfiguredTask)
        ensures
            task == (ConfiguredTask { product_id: None }),
    {
        ConfiguredTask { product_id: None }
    }

    pub fn op(&self) -> (op: RegOp)
        ensures
            op == self.due(),
    {
        match self.product_id {
            None => RegOp::Read { addr: PMW3610_PROD_ID },
            Some(_) => RegOp::Read { addr: PMW3610_PERFORMANCE },
        }
    }

    pub fn advance(&mut self, reply: Reply) -> (verdict: Option<bool>)
        requires
            answers(old(self).due(), reply),
        ensures
            verdict == old(self).verdict(reply),
            *final(self) == (match (old(self).product_id, reply) {
                (None, Reply::Value(value)) => ConfiguredTask { product_id: Some(value) },
                _ => *old(self),
            }),
    {
        match reply {
            Reply::Value(value) => match self.product_id {
                None => {
                    self.product_id = Some(value);
                    None
                },
                Some(product_id) => Some(
                    crate::pmw3610::configured_registers_valid(product_id, value),
                ),
            },
            _ => Some(false),
        }
    }
}

// Health

/// Reads every register that can change motion orientation or tracking mode.
/// Motion must be suppressed until the snapshot is valid.
#[derive(Clone, Copy, Debug, PartialEq, Eq, Structural)]
pub struct HealthTask {
    pub cpi: u16,
    pub pc: u8,
    pub failed: bool,
    pub product_id: u8,
    pub observation1: u8,
    pub performance: u8,
    pub smart_mode: u8,
    pub res_step: u8,
}

pub open spec fn health_op(pc: int) -> RegOp {
    if pc == 0 {
        RegOp::Read { addr: PMW3610_PROD_ID }
    } else if pc == 1 {
        clock_on()
    } else if pc == 2 {
        RegOp::WaitUs(CLOCK_ON_DELAY_US)
    } else if pc == 3 {
        RegOp::Read { addr: PMW3610_OBSERVATION1 }
    } else if pc == 4 {
        RegOp::Read { addr: PMW3610_PERFORMANCE }
    } else if pc == 5 {
        RegOp::Read { addr: PMW3610_SMART_MODE }
    } else if pc == 6 {
        select_page1()
    } else if pc == 7 {
        RegOp::Read { addr: PMW3610_RES_STEP }
    } else if pc == 8 {
        select_page0()
    } else {
        clock_off()
    }
}

impl HealthTask {
    pub open spec fn wf(self) -> bool {
        self.pc < 10
    }

    pub open spec fn due(self) -> RegOp {
        health_op(self.pc as int)
    }

    /// The task with the value that was read at its place.
    pub open spec fn noting(self, value: u8) -> HealthTask {
        if self.pc == 0 {
            HealthTask { product_id: value, ..self }
        } else if self.pc == 3 {
            HealthTask { observation1: value, ..self }
        } else if self.pc == 4 {
            HealthTask { performance: value, ..self }
        } else if self.pc == 5 {
            HealthTask { smart_mode: value, ..self }
        } else {
            HealthTask { res_step: value, ..self }
        }
    }

    /// A register that cannot be read skips the other registers, but page 0 is
    /// restored and the requested SPI clock is released all the same.
    pub open spec fn next(self, reply: Reply) -> (HealthTask, Progress) {
        match reply {
            Reply::Failed => if self.pc < 3 {
                (self, Progress::Failed(Pmw3610Error::Spi))
            } else if self.pc < 8 {
                (HealthTask { pc: 8, failed: true, ..self }, Progress::Running)
            } else if self.pc == 8 {
                (HealthTask { pc: 9, failed: true, ..self }, Progress::Running)
            } else {
                (self, Progress::Failed(Pmw3610Error::Spi))
            },
            Reply::Value(value) => (
                HealthTask { pc: (self.pc + 1) as u8, ..self.noting(value) },
                Progress::Running,
            ),
            Reply::Done => if self.pc == 9 {
                (
                    self,
                    if self.failed {
                        Progress::Failed(Pmw3610Error::Spi)
                    } else {
                        Progress::Complete
                    },
                )
            } else {
                (HealthTask { pc: (self.pc + 1) as u8, ..self }, Progress::Running)
            },
        }
    }

    pub fn start(cpi: u16) -> (task: Result<HealthTask, PointingDriverError>)
        ensures
            task == (if crate::pmw3610::cpi_is_exact(cpi as int) {
                Ok::<HealthTask, PointingDriverError>(
                    HealthTask {
                        cpi,
                        pc: 0,
                        failed: false,
                        product_id: 0,
                        observation1: 0,
                        performance: 0,
                        smart_mode: 0,
                        res_step: 0,
                    },
                )
            } else {
                Err(PointingDriverError::InvalidCpi)
            }),
    {
        if cpi < RES_MIN || cpi > RES_MAX || cpi % RES_STEP != 0 {
            return Err(PointingDriverError::InvalidCpi);
        }
        Ok(
            HealthTask {
                cpi,
                pc: 0,
                failed: false,
                product_id: 0,
                observation1: 0,
                performance: 0,
                smart_mode: 0,
                res_step: 0,
            },
        )
    }

    pub fn op(&self) -> (op: RegOp)
        requires
            self.wf(),
        ensures
            op == self.due(),
    {
        match self.pc {
            0 => RegOp::Read { addr: PMW3610_PROD_ID },
            1 => RegOp::Write { addr: PMW3610_SPI_CLK_ON_REQ, value: SPI_CLOCK_ON_REQ_ON },
            2 => RegOp::WaitUs(CLOCK_ON_DELAY_US),
            3 => RegOp::Read { addr: PMW3610_OBSERVATION1 },
            4 => RegOp::Read { addr: PMW3610_PERFORMANCE },
            5 => RegOp::Read { addr: PMW3610_SMART_MODE },
            6 => RegOp::Write { addr: PMW3610_SPI_PAGE0, value: SPI_PAGE0_1 },
            7 => RegOp::Read { addr: PMW3610_RES_STEP },
            8 => RegOp::Write { addr: PMW3610_SPI_PAGE1, value: SPI_PAGE1_0 },
            _ => RegOp::Write { addr: PMW3610_SPI_CLK_ON_REQ, value: SPI_CLOCK_ON_REQ_OFF },
        }
    }

    pub fn advance(&mut self, reply: Reply) -> (progress: Progress)
        requires
            old(self).wf(),
            answers(old(self).due(), reply),
        ensures
            (*final(self), progress) == old(self).next(reply),
            progress is Running ==> final(self).wf(),
    {
        match reply {
            Reply::Failed => {
                if self.pc < 3 || self.pc == 9 {
                    return Progress::Failed(Pmw3610Error::Spi);
                }
                self.failed = true;
                self.pc = if self.pc < 8 {
                    8
                } else {
                    9
                };
                Progress::Running
            },
            Reply::Value(value) => {
                match self.pc {
                    0 => {
                        self.product_id = value;
                    },
                    3 => {
                        self.observation1 = value;
                    },
                    4 => {
                        self.performance = value;
                    },
                    5 => {
                        self.smart_mode = value;
                    },
                    _ => {
                        self.res_step = value;
                    },
                }
                self.pc = self.pc + 1;
                Progress::Running
            },
            Reply::Done => {
                if self.pc == 9 {
                    if self.failed {
                        return Progress::Failed(Pmw3610Error::Spi);
                    }
                    return Progress::Complete;
                }
                self.pc = self.pc + 1;
                Progress::Running
            },
        }
    }

    /// The snapshot of a completed check.
    pub fn health(&self, sensor: &Pmw3610) -> (health: Pmw3610Health)
        ensures
            health == (Pmw3610Health {
                product_id: self.product_id,
                observation1: self.observation1,
                performance: self.performance,
                res_step: self.res_step,
                smart_mode: self.smart_mode,
                expected_performance: crate::pmw3610::configured_performance(sensor.config),
                expected_res_step: crate::pmw3610::configured_res_step(
                    sensor.config,
                    self.cpi as int,
                ),
                expected_smart_mode: crate::pmw3610::smart_register(sensor.smart_tracking()),
            }),
    {
        sensor.health_snapshot(
            self.cpi,
            self.product_id,
            self.observation1,
            self.performance,
            self.smart_mode,
            self.res_step,
        )
    }
}

/// Once the SPI clock was requested, a health check cannot end before it has
/// restored page 0 and released the clock, whatever fails in between.
pub proof fn law_health_check_releases_the_bus(task: HealthTask, reply: Reply)
    requires
        task.wf(),
        answers(task.due(), reply),
        task.pc >= 2,
    ensures
        task.pc < 9 ==> task.next(reply).1 is Running,
        task.pc < 8 ==> task.pc < task.next(reply).0.pc <= 8,
        task.pc == 8 ==> task.due() == select_page0() && task.next(reply).0.pc == 9,
        task.pc == 9 ==> task.due() == clock_off() && !(task.next(reply).1 is Running),
{
}

// Motion

/// Reads one motion burst and follows the shutter with the smart mode.
#[derive(Clone, Copy, Debug, PartialEq, Eq, Structural)]
pub struct MotionTask {
    pub collect_optics: bool,
    pub pc: u8,
    pub motion: MotionData,
    /// The smart tracking that is being switched to.
    pub enable: bool,
}

/// Where a motion burst stands.
#[derive(Clone, Copy, Debug, PartialEq, Eq, Structural)]
pub enum MotionProgress {
    Running,
    Complete(MotionData),
    Failed(PointingDriverError),
}

/// The smart tracking to switch to after a burst with motion, if it changes.
pub open spec fn smart_change(sensor: Pmw3610, shutter: int) -> Option<bool> {
    if !sensor.config.smart_mode {
        None
    } else if sensor.smart_flag && shutter < SHUTTER_SMART_THRESHOLD {
        Some(true)
    } else if !sensor.smart_flag && shutter > SHUTTER_SMART_THRESHOLD {
        Some(false)
    } else {
        None
    }
}

pub open spec fn motion_op(collect_optics: bool, enable: bool, pc: int) -> RegOp {
    if pc == 0 {
        RegOp::ReadBurst {
            addr: PMW3610_BURST_READ,
            len: if collect_optics {
                BURST_DATA_LEN_SMART
            } else {
                BURST_DATA_LEN_NORMAL
            },
        }
    } else if pc == 1 {
        clock_on()
    } else if pc == 2 {
        RegOp::WaitUs(CLOCK_ON_DELAY_US)
    } else if pc == 3 {
        RegOp::Write { addr: PMW3610_SMART_MODE, value: crate::pmw3610::smart_register(enable) }
    } else {
        clock_off()
    }
}

impl MotionTask {
    pub open spec fn wf(self) -> bool {
        self.pc < 5
    }

    pub open spec fn due(self) -> RegOp {
        motion_op(self.collect_optics, self.enable, self.pc as int)
    }

    /// What follows a burst: motion is reported at once, unless the sensor
    /// flagged motion and the shutter asks for a change of the smart mode.
    pub open spec fn after_burst(self, sensor: Pmw3610, reading: BurstReading) -> (
        MotionTask,
        MotionProgress,
    ) {
        if !reading.motion_set {
            (self, MotionProgress::Complete(MotionData { dx: 0, dy: 0 }))
        } else {
            match smart_change(sensor, reading.shutter as int) {
                Some(enable) => (
                    MotionTask { pc: 1, motion: reading.motion, enable, ..self },
                    MotionProgress::Running,
                ),
                None => (self, MotionProgress::Complete(reading.motion)),
            }
        }
    }

    pub open spec fn next(self, reply: Reply) -> (MotionTask, MotionProgress) {
        match reply {
            Reply::Failed => (self, MotionProgress::Failed(PointingDriverError::Spi)),
            _ => if self.pc == 4 {
                (self, MotionProgress::Complete(self.motion))
            } else {
                (MotionTask { pc: (self.pc + 1) as u8, ..self }, MotionProgress::Running)
            },
        }
    }

    /// Read motion data from the sensor. The optical fields are collected for
    /// the smart mode, and in diagnostic builds in any case.
    pub fn start(sensor: &Pmw3610, rtt_diag: bool) -> (task: MotionTask)
        ensures
            task == (MotionTask {
                collect_optics: sensor.config.smart_mode || rtt_diag,
                pc: 0,
                motion: MotionData { dx: 0, dy: 0 },
                enable: false,
            }),
    {
        MotionTask {
            collect_optics: sensor.config.smart_mode || rtt_diag,
            pc: 0,
            motion: MotionData { dx: 0, dy: 0 },
            enable: false,
        }
    }

    pub fn op(&self) -> (op: RegOp)
        requires
            self.wf(),
        ensures
            op == self.due(),
    {
        match self.pc {
            0 => RegOp::ReadBurst {
                addr: PMW3610_BURST_READ,
                len: if self.collect_optics {
                    BURST_DATA_LEN_SMART
                } else {
                    BURST_DATA_LEN_NORMAL
                },
            },
            1 => RegOp::Write { addr: PMW3610_SPI_CLK_ON_REQ, value: SPI_CLOCK_ON_REQ_ON },
            2 => RegOp::WaitUs(CLOCK_ON_DELAY_US),
            3 => RegOp::Write {
                addr: PMW3610_SMART_MODE,
                value: if self.enable {
                    SMART_MODE_ENABLE
                } else {
                    SMART_MODE_DISABLE
                },
            },
            _ => RegOp::Write { addr: PMW3610_SPI_CLK_ON_REQ, value: SPI_CLOCK_ON_REQ_OFF },
        }
    }

    /// Takes the decoded burst.
    pub fn take_burst(&mut self, sensor: &Pmw3610, reading: &BurstReading) -> (progress:
        MotionProgress)
        requires
            old(self).pc == 0,
        ensures
            (*final(self), progress) == old(self).after_burst(*sensor, *reading),
            progress is Running ==> final(self).wf() && final(self).pc == 1,
    {
        if !reading.motion_set {
            return MotionProgress::Complete(MotionData { dx: 0, dy: 0 });
        }
        if sensor.config.smart_mode {
            let enable: bool = if sensor.smart_flag && reading.shutter < SHUTTER_SMART_THRESHOLD {
                true
            } else if !sensor.smart_flag && reading.shutter > SHUTTER_SMART_THRESHOLD {
                false
            } else {
                return MotionProgress::Complete(reading.motion);
            };
            self.pc = 1;
            self.motion = reading.motion;
            self.enable = enable;
            return MotionProgress::Running;
        }
        MotionProgress::Complete(reading.motion)
    }

    /// Takes the raw bytes of the burst, zero where the burst was short.
    pub fn take_burst_data(&mut self, sensor: &Pmw3610, data: &[u8; 7]) -> (result: (
        BurstReading,
        MotionProgress,
    ))
        requires
            old(self).pc == 0,
        ensures
            (*final(self), result.1) == old(self).after_burst(*sensor, result.0),
            result.1 is Running ==> final(self).wf() && final(self).pc == 1,
            result.0.motion_set == (data@[0] >= 128),
            result.0.squal == (if old(self).collect_optics {
                data@[4] as int
            } else {
                0
            }),
            result.0.shutter == (if old(self).collect_optics {
                data@[5] * 256 + data@[6]
            } else {
                0
            }),
            result.0.motion_set ==> result.0.motion.dx == crate::pmw3610::delta_value(
                (data@[3] / 16) as int,
                data@[1] as int,
            ),
            result.0.motion_set ==> result.0.motion.dy == crate::pmw3610::delta_value(
                (data@[3] % 16) as int,
                data@[2] as int,
            ),
            !result.0.motion_set ==> result.0.motion == (MotionData { dx: 0, dy: 0 }),
    {
        let reading = decode_burst(data, self.collect_optics);
        let progress = self.take_burst(sensor, &reading);
        (reading, progress)
    }

    /// Takes the answer to an operation of the smart-mode change, or the
    /// failure of the burst. The driver remembers a change that completed.
    pub fn advance(&mut self, sensor: &mut Pmw3610, reply: Reply) -> (progress: MotionProgress)
        requires
            old(self).wf(),
            answers(old(self).due(), reply),
        ensures
            (*final(self), progress) == old(self).next(reply),
            progress is Running ==> final(self).wf(),
            *final(sensor) == (if progress is Complete {
                Pmw3610 { smart_flag: !old(self).enable, ..*old(sensor) }
            } else {
                *old(sensor)
            }),
    {
        match reply {
            Reply::Failed => MotionProgress::Failed(PointingDriverError::Spi),
            _ => {
                if self.pc == 4 {
                    sensor.smart_flag = !self.enable;
                    return MotionProgress::Complete(self.motion);
                }
                self.pc = self.pc + 1;
                MotionProgress::Running
            },
        }
    }
}

// The operations of the driver

impl Pmw3610 {
    /// Initialize the sensor
    pub fn init(&self) -> (task: InitTask)
        ensures
            task == InitTask::Reset(ResetTask { config: self.config, pc: 0, res_step: 0 }),
            task.wf(),
    {
        InitTask::start(self)
    }

    /// Set sensor resolution in CPI (200-3200, step 200)
    pub fn set_resolution(&self, cpi: u16) -> (task: Result<ResolutionTask, PointingDriverError>)
        ensures
            crate::pmw3610::cpi_in_range(cpi as int) ==> task is Ok && task->Ok_0
                == (ResolutionTask { cpi, pc: 0, res_step: 0 }) && task->Ok_0.wf(),
            !crate::pmw3610::cpi_in_range(cpi as int) ==> task is Err && task->Err_0
                == PointingDriverError::InvalidCpi,
    {
        ResolutionTask::start(cpi)
    }

    /// Check that a connected sensor is still present and initialized.
    pub fn is_configured(&self) -> (task: ConfiguredTask)
        ensures
            task == (ConfiguredTask { product_id: None }),
    {
        ConfiguredTask::start()
    }

    /// Read every register that can change motion orientation or tracking mode.
    pub fn configuration_health(&self, cpi: u16) -> (task: Result<HealthTask, PointingDriverError>)
        ensures
            crate::pmw3610::cpi_is_exact(cpi as int) ==> task is Ok && task->Ok_0 == (HealthTask {
                cpi,
                pc: 0,
                failed: false,
                product_id: 0,
                observation1: 0,
                performance: 0,
                smart_mode: 0,
                res_step: 0,
            }),
            !crate::pmw3610::cpi_is_exact(cpi as int) ==> task is Err && task->Err_0
                == PointingDriverError::InvalidCpi,
    {
        HealthTask::start(cpi)
    }

    /// Read motion data from the sensor.
    pub fn read_motion(&self, rtt_diag: bool) -> (task: MotionTask)
        ensures
            task == (MotionTask {
                collect_optics: self.config.smart_mode || rtt_diag,
                pc: 0,
                motion: MotionData { dx: 0, dy: 0 },
                enable: false,
            }),
    {
        MotionTask::start(self, rtt_diag)
    }
}

// Laws of the configuration

impl InitTask {
    /// How many bus operations the initialization has left at most.
    pub open spec fn remaining(self) -> int {
        match self {
            InitTask::Reset(task) => 41 - task.pc,
            InitTask::Resolution(task) => 17 - task.pc,
            InitTask::ForceAwake(task) => 10 - task.pc,
            InitTask::SmartMode(task) => 5 - task.pc,
        }
    }
}

/// Every answer brings the initialization nearer to its end, a bus failure
/// ends it at once, and it completes only after the smart mode was read back
/// as requested.
pub proof fn law_initialization_ends_verified_or_fails(
    task: InitTask,
    config: Pmw3610Config,
    reply: Reply,
)
    requires
        task.wf(),
        answers(task.due(), reply),
    ensures
        task.remaining() > 0,
        task.next(config, reply).1 is Running ==> 0 < task.next(config, reply).0.remaining()
            < task.remaining(),
        reply is Failed ==> task.next(config, reply).1 is Failed,
        task.next(config, reply).1 is Complete ==> task is SmartMode
            && task->SmartMode_0.verified(),
{
}

/// A sensor that was initialized and then set to a resolution holds exactly
/// what the health check looks for, whatever its registers held before.
pub proof fn law_configured_sensor_is_healthy(
    sensor: Pmw3610,
    cpi: u16,
    res_step: u8,
    observation1: u8,
    smart_readback: u8,
)
    requires
        crate::pmw3610::cpi_is_exact(cpi as int),
        observation1 & OBSERVATION1_INIT_MASK == OBSERVATION1_INIT_MASK,
        sensor.smart_flag == !sensor.config.smart_mode,
        (SmartModeTask {
            enable: sensor.config.smart_mode,
            pc: 4,
            readback: smart_readback,
        }).verified(),
    ensures
        (Pmw3610Health {
            product_id: PRODUCT_ID_PMW3610,
            observation1,
            performance: with_force_awake(PERFORMANCE_INIT, sensor.config.force_awake),
            res_step: with_resolution(with_axes(res_step, sensor.config), cpi),
            smart_mode: smart_readback,
            expected_performance: crate::pmw3610::configured_performance(sensor.config),
            expected_res_step: crate::pmw3610::configured_res_step(sensor.config, cpi as int),
            expected_smart_mode: crate::pmw3610::smart_register(sensor.smart_tracking()),
        }).healthy(),
{
    let swap: u8 = if sensor.config.swap_xy {
        RES_STEP_SWAP_XY
    } else {
        0u8
    };
    let invert_x: u8 = if sensor.config.invert_x {
        RES_STEP_INV_X
    } else {
        0u8
    };
    let invert_y: u8 = if sensor.config.invert_y {
        RES_STEP_INV_Y
    } else {
        0u8
    };
    let steps: u8 = (cpi / RES_STEP) as u8;
    assert((((res_step & 0x1fu8) | (swap | invert_x | invert_y)) & !0x1fu8) | steps == (swap
        | invert_x | invert_y) | (steps & 0x1fu8)) by (bit_vector)
        requires
            swap == 0 || swap == 0x80,
            invert_x == 0 || invert_x == 0x40,
            invert_y == 0 || invert_y == 0x20,
            steps <= 16,
    ;
    assert((0x0du8 & !0xf0u8) | 0xf0u8 == 0x0du8 | 0xf0u8) by (bit_vector);
    assert((0x0du8 & !0xf0u8) | 0u8 == 0x0du8 | 0u8) by (bit_vector);
}

/// Following the shutter keeps the driver's expectation in step with the
/// sensor: the register value of a completed change is the one that the next
/// health check expects.
pub proof fn law_smart_change_stays_healthy(sensor: Pmw3610, shutter: int)
    requires
        smart_change(sensor, shutter) is Some,
    ensures
        crate::pmw3610::smart_register(smart_change(sensor, shutter)->0)
            == crate::pmw3610::smart_register(
            (Pmw3610 { smart_flag: !smart_change(sensor, shutter)->0, ..sensor }).smart_tracking(),
        ),
        smart_change(sensor, shutter)->0 != sensor.smart_tracking(),
{
}

} // verus!
