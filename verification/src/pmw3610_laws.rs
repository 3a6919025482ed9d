//! What the PMW3610 driver says to the sensor and makes of its answers.

use vstd::prelude::*;

use crate::pmw3610::{
    configured_registers_valid, decode_burst, motion_pending, sign_extend, BurstReading, Pmw3610,
    Pmw3610Config, Pmw3610Error, Pmw3610Health,
};
use crate::pmw3610_tasks::{
    line_action, ConfiguredTask, ForceAwakeTask, HealthTask, InitTask, LineAction, MotionProgress,
    MotionTask, Progress, RegOp, Reply, ResetTask, ResolutionTask, SmartModeTask,
};
use crate::pointing::{MotionData, PointingDriverError};

verus! {

// Registers as numbers

proof fn lemma_resolution_bits(read: u8, steps: u8)
    requires
        steps < 32,
    ensures
        ((read & !0x1fu8) | steps) % 32 == steps,
        ((read & !0x1fu8) | steps) / 32 == read / 32,
{
    assert(((read & !0x1fu8) | steps) % 32 == steps && ((read & !0x1fu8) | steps) / 32 == read
        / 32) by (bit_vector)
        requires
            steps < 32,
    ;
}

proof fn lemma_axis_bits(low: u8, config: Pmw3610Config)
    ensures
        (low & 0x1fu8) | crate::pmw3610::axis_bits(config) == low % 32 + (if config.swap_xy {
            128int
        } else {
            0
        }) + (if config.invert_x {
            64int
        } else {
            0
        }) + (if config.invert_y {
            32int
        } else {
            0
        }),
        crate::pmw3610::axis_bits(config) | (low & 0x1fu8) == (low & 0x1fu8)
            | crate::pmw3610::axis_bits(config),
{
    let swap: u8 = if config.swap_xy {
        0x80
    } else {
        0
    };
    let invert_x: u8 = if config.invert_x {
        0x40
    } else {
        0
    };
    let invert_y: u8 = if config.invert_y {
        0x20
    } else {
        0
    };
    assert((low & 0x1fu8) | (swap | invert_x | invert_y) == low % 32 + swap + invert_x + invert_y)
        by (bit_vector)
        requires
            swap == 0 || swap == 0x80,
            invert_x == 0 || invert_x == 0x40,
            invert_y == 0 || invert_y == 0x20,
    ;
    let bits: u8 = crate::pmw3610::axis_bits(config);
    assert(bits | (low & 0x1fu8) == (low & 0x1fu8) | bits) by (bit_vector);
}

// Resolution

/// Setting a resolution requests the SPI clock, goes to the second register
/// page, reads the resolution register and writes it back with the resolution
/// in steps of 200 in its five low bits and everything else as it was read. It
/// then returns to the first page and releases the clock.
pub proof fn law_resolution_register_holds_the_resolution(cpi: u16, before: u8, read: u8)
    requires
        200 <= cpi <= 3200,
    ensures
        ({
            let start = ResolutionTask { cpi, pc: 0, res_step: before };
            let on = start.next(Reply::Done).0;
            let paged = on.next(Reply::Done).0;
            let reading = paged.next(Reply::Done).0;
            let writing = reading.next(Reply::Value(read)).0;
            let leaving = writing.next(Reply::Done).0;
            let ending = leaving.next(Reply::Done).0;
            &&& start.due() == (RegOp::Write { addr: 0x41, value: 0xba })
            &&& on.due() == RegOp::WaitUs(300)
            &&& paged.due() == (RegOp::Write { addr: 0x7f, value: 0xff })
            &&& reading.due() == (RegOp::Read { addr: 0x05 })
            &&& writing.due() matches RegOp::Write { addr, value } && addr == 0x05 && value % 32
                == cpi / 200 && value / 32 == read / 32
            &&& leaving.due() == (RegOp::Write { addr: 0x7f, value: 0x00 })
            &&& ending.due() == (RegOp::Write { addr: 0x41, value: 0xb5 })
            &&& ending.next(Reply::Done).1 == Progress::Complete
        }),
{
    lemma_resolution_bits(read, (cpi / 200) as u8);
}

/// A resolution task runs to its seventh operation, or fails with the bus.
pub proof fn law_resolution_task_ends_in_order(task: ResolutionTask, reply: Reply)
    requires
        task.pc < 7,
    ensures
        reply is Failed ==> task.next(reply).1 == Progress::Failed(Pmw3610Error::Spi),
        !(reply is Failed) && task.pc == 6 ==> task.next(reply).1 == Progress::Complete,
        !(reply is Failed) && task.pc < 6 ==> task.next(reply).1 == Progress::Running,
        task.next(reply).0.cpi == task.cpi,
{
}

/// The register value that a health check expects says which resolution and
/// which orientation were configured: the five low bits are the resolution in
/// steps of 200, and the three bits above invert the vertical axis, invert the
/// horizontal one, and swap the two.
pub proof fn law_expected_register_tells_resolution_and_axes(config: Pmw3610Config, cpi: u16)
    requires
        200 <= cpi <= 3200,
    ensures
        ({
            let expected = crate::pmw3610::configured_res_step(config, cpi as int);
            &&& expected % 32 == cpi / 200
            &&& cpi % 200 == 0 ==> expected % 32 * 200 == cpi
            &&& (expected / 32) % 2 == 1 <==> config.invert_y
            &&& (expected / 64) % 2 == 1 <==> config.invert_x
            &&& expected >= 128 <==> config.swap_xy
        }),
{
    let steps: u8 = (cpi / 200) as u8;
    lemma_axis_bits(steps, config);
    let expected = crate::pmw3610::configured_res_step(config, cpi as int);
    assert(expected == steps + (if config.swap_xy {
        128int
    } else {
        0
    }) + (if config.invert_x {
        64int
    } else {
        0
    }) + (if config.invert_y {
        32int
    } else {
        0
    }));
}

/// A sensor can be set to 200 up to 3200 counts per inch, and exactly to the
/// multiples of 200 among them.
pub proof fn law_resolutions_have_a_range(cpi: int)
    ensures
        crate::pmw3610::cpi_in_range(cpi) <==> 200 <= cpi <= 3200,
        crate::pmw3610::cpi_is_exact(cpi) <==> 200 <= cpi <= 3200 && cpi % 200 == 0,
{
}

/// Orienting a sensor keeps the resolution that the register was read with and
/// gives each of the three high bits its axis.
pub proof fn law_orientation_keeps_the_resolution(config: Pmw3610Config, read: u8)
    ensures
        ({
            let written = (ResetTask { config, pc: 20, res_step: read }).due();
            written matches RegOp::Write { addr, value } && {
                &&& addr == 0x05
                &&& value % 32 == read % 32
                &&& (value / 32) % 2 == 1 <==> config.invert_y
                &&& (value / 64) % 2 == 1 <==> config.invert_x
                &&& value >= 128 <==> config.swap_xy
            }
        }),
{
    lemma_axis_bits(read, config);
}

// Power mode

/// Changing the power mode reads the performance register and writes it back
/// under the requested clock, with the four high bits all set to stay awake and
/// all clear otherwise, and the four low bits as they were read.
pub proof fn law_power_mode_keeps_the_performance(enable: bool, before: u8, read: u8)
    ensures
        ({
            let start = ForceAwakeTask { enable, pc: 0, performance: before };
            let on = start.next(Reply::Value(read)).0;
            let waiting = on.next(Reply::Done).0;
            let writing = waiting.next(Reply::Done).0;
            let ending = writing.next(Reply::Done).0;
            &&& start.due() == (RegOp::Read { addr: 0x11 })
            &&& on.due() == (RegOp::Write { addr: 0x41, value: 0xba })
            &&& waiting.due() == RegOp::WaitUs(300)
            &&& writing.due() matches RegOp::Write { addr, value } && addr == 0x11 && value % 16
                == read % 16 && value / 16 == (if enable {
                15int
            } else {
                0
            })
            &&& ending.due() == (RegOp::Write { addr: 0x41, value: 0xb5 })
            &&& ending.next(Reply::Done).1 == Progress::Complete
        }),
{
    assert(((read & !0xf0u8) | 0xf0u8) % 16 == read % 16 && ((read & !0xf0u8) | 0xf0u8) / 16 == 15
        && ((read & !0xf0u8) | 0u8) % 16 == read % 16 && ((read & !0xf0u8) | 0u8) / 16 == 0)
        by (bit_vector);
}

/// A power mode task runs to its fifth operation, or fails with the bus.
pub proof fn law_power_mode_task_ends_in_order(task: ForceAwakeTask, reply: Reply)
    requires
        task.pc < 5,
    ensures
        reply is Failed ==> task.next(reply).1 == Progress::Failed(Pmw3610Error::Spi),
        !(reply is Failed) && task.pc == 4 ==> task.next(reply).1 == Progress::Complete,
        !(reply is Failed) && task.pc < 4 ==> task.next(reply).1 == Progress::Running,
        task.next(reply).0.enable == task.enable,
{
}

/// The performance register of a configured sensor is 13, or 253 where it is
/// kept awake.
pub proof fn law_expected_performance(config: Pmw3610Config)
    ensures
        crate::pmw3610::configured_performance(config) == (if config.force_awake {
            253int
        } else {
            13int
        }),
{
    assert(0x0du8 | 0xf0u8 == 253 && 0x0du8 | 0u8 == 13) by (bit_vector);
}

// Smart tracking

/// Switching smart tracking writes its register, 0 for on and 128 for off, reads
/// it back and releases the clock. It is complete exactly where the highest bit
/// that was read back is the one that was written.
pub proof fn law_smart_tracking_is_verified(enable: bool, before: u8, read: u8)
    ensures
        ({
            let start = SmartModeTask { enable, pc: 0, readback: before };
            let on = start.next(Reply::Done).0;
            let writing = on.next(Reply::Done).0;
            let reading = writing.next(Reply::Done).0;
            let ending = reading.next(Reply::Value(read)).0;
            &&& start.due() == (RegOp::Write { addr: 0x41, value: 0xba })
            &&& on.due() == RegOp::WaitUs(300)
            &&& writing.due() == (RegOp::Write {
                addr: 0x32,
                value: if enable {
                    0
                } else {
                    128
                },
            })
            &&& reading.due() == (RegOp::Read { addr: 0x32 })
            &&& ending.due() == (RegOp::Write { addr: 0x41, value: 0xb5 })
            &&& ending.next(Reply::Done).1 == (if (read < 128) == enable {
                Progress::Complete
            } else {
                Progress::Failed(Pmw3610Error::InitFailed)
            })
        }),
{
    assert(read & 0x80u8 == 0 <==> read < 128) by (bit_vector);
    assert(read & 0x80u8 == 0x80 <==> read >= 128) by (bit_vector);
}

/// A smart tracking task fails with the bus at once, and keeps what it was asked
/// for.
pub proof fn law_smart_tracking_task_ends_in_order(task: SmartModeTask, reply: Reply)
    requires
        task.pc < 5,
    ensures
        reply is Failed ==> task.next(reply).1 == Progress::Failed(Pmw3610Error::Spi),
        !(reply is Failed) && task.pc < 4 ==> task.next(reply).1 == Progress::Running,
        task.next(reply).0.enable == task.enable,
{
}

/// Smart tracking is expected to be on exactly where it was asked for and no
/// long shutter time switched it off; the register then holds 0, and otherwise
/// 128.
pub proof fn law_expected_smart_tracking(sensor: Pmw3610)
    ensures
        crate::pmw3610::smart_register(sensor.smart_tracking()) == (if sensor.config.smart_mode
            && !sensor.smart_flag {
            0int
        } else {
            128int
        }),
{
}

/// After a burst with motion, a sensor with smart tracking follows its shutter
/// time: tracking that was switched off comes back below 45, and tracking that
/// is on goes off above 45. Everything else leaves it alone, and the motion of
/// the burst is reported in any case.
pub proof fn law_smart_tracking_follows_the_shutter(
    task: MotionTask,
    sensor: Pmw3610,
    reading: BurstReading,
)
    requires
        task.pc == 0,
    ensures
        ({
            let (rest, progress) = task.after_burst(sensor, reading);
            let back_on = sensor.config.smart_mode && sensor.smart_flag && reading.shutter < 45;
            let off = sensor.config.smart_mode && !sensor.smart_flag && reading.shutter > 45;
            &&& !reading.motion_set ==> rest == task && progress == MotionProgress::Complete(
                MotionData { dx: 0, dy: 0 },
            )
            &&& reading.motion_set && !back_on && !off ==> rest == task && progress
                == MotionProgress::Complete(reading.motion)
            &&& reading.motion_set && (back_on || off) ==> {
                let waiting = rest.next(Reply::Done).0;
                let writing = waiting.next(Reply::Done).0;
                let ending = writing.next(Reply::Done).0;
                &&& progress == MotionProgress::Running
                &&& rest.enable == back_on
                &&& rest.due() == (RegOp::Write { addr: 0x41, value: 0xba })
                &&& waiting.due() == RegOp::WaitUs(300)
                &&& writing.due() == (RegOp::Write {
                    addr: 0x32,
                    value: if back_on {
                        0
                    } else {
                        128
                    },
                })
                &&& ending.due() == (RegOp::Write { addr: 0x41, value: 0xb5 })
                &&& ending.next(Reply::Done).1 == MotionProgress::Complete(reading.motion)
                &&& ending.enable == back_on
            }
        }),
{
}

/// A motion burst reads seven bytes where the optical fields are collected, and
/// four otherwise. A bus failure at any point fails the task.
pub proof fn law_burst_is_as_long_as_needed(task: MotionTask)
    requires
        task.pc < 5,
    ensures
        task.pc == 0 ==> task.due() == (RegOp::ReadBurst {
            addr: 0x12,
            len: if task.collect_optics {
                7
            } else {
                4
            },
        }),
        task.next(Reply::Failed).1 == MotionProgress::Failed(PointingDriverError::Spi),
{
}

/// A delta is the twelve-bit two's complement number that its four high bits and
/// its low byte spell.
pub proof fn law_delta_is_twelve_bits_wide(high: int, low: int)
    requires
        0 <= high < 16,
        0 <= low < 256,
    ensures
        crate::pmw3610::delta_value(high, low) == 256 * high + low - (if high >= 8 {
            4096int
        } else {
            0
        }),
{
    vstd::arithmetic::power2::lemma2_to64();
}

// Initialization

/// Initialization first releases the chip and lets it settle for 1 ms, resets it
/// and waits 10 ms for it. Only a chip that then gives the product number 0x3e
/// is configured.
pub proof fn law_reset_finds_the_sensor(config: Pmw3610Config, before: u8, id: u8)
    ensures
        ({
            let start = ResetTask { config, pc: 0, res_step: before };
            let settling = start.next(Reply::Done).0;
            let resetting = settling.next(Reply::Done).0;
            let waiting = resetting.next(Reply::Done).0;
            let asking = waiting.next(Reply::Done).0;
            let (found, progress) = asking.next(Reply::Value(id));
            &&& start.due() == RegOp::Deselect
            &&& settling.due() == RegOp::WaitMs(1)
            &&& resetting.due() == (RegOp::Write { addr: 0x3a, value: 0x5a })
            &&& waiting.due() == RegOp::WaitMs(10)
            &&& asking.due() == (RegOp::Read { addr: 0x00 })
            &&& id == 0x3e ==> progress == Progress::Running && found == (ResetTask {
                pc: 5,
                ..start
            })
            &&& id != 0x3e ==> progress == Progress::Failed(Pmw3610Error::InvalidProductId(id))
        }),
{
}

/// The chip found, its self-test register is cleared under the requested clock
/// and read again 10 ms later. The four low bits must have come back, all of
/// them.
pub proof fn law_reset_waits_for_the_self_test(task: ResetTask, observed: u8)
    requires
        task.pc == 5,
    ensures
        ({
            let on = task.next(Reply::Done).0;
            let clearing = on.next(Reply::Done).0;
            let waiting = clearing.next(Reply::Done).0;
            let asking = waiting.next(Reply::Done).0;
            let (rest, progress) = asking.next(Reply::Value(observed));
            &&& task.due() == (RegOp::Write { addr: 0x41, value: 0xba })
            &&& on.due() == RegOp::WaitUs(300)
            &&& clearing.due() == (RegOp::Write { addr: 0x2d, value: 0 })
            &&& waiting.due() == RegOp::WaitMs(10)
            &&& asking.due() == (RegOp::Read { addr: 0x2d })
            &&& observed % 16 == 15 ==> progress == Progress::Running && rest == (ResetTask {
                pc: 10,
                ..task
            })
            &&& observed % 16 != 15 ==> progress == Progress::Failed(Pmw3610Error::InitFailed)
        }),
{
    assert(observed & 0x0fu8 == 0x0f <==> observed % 16 == 15) by (bit_vector);
}

/// The four motion registers are read and thrown away, and the performance and
/// rest registers are written.
pub proof fn law_reset_configures_the_rest_modes(task: ResetTask, a: u8, b: u8, c: u8, d: u8)
    requires
        task.pc == 10,
    ensures
        ({
            let second = task.next(Reply::Value(a)).0;
            let third = second.next(Reply::Value(b)).0;
            let fourth = third.next(Reply::Value(c)).0;
            let performance = fourth.next(Reply::Value(d)).0;
            let run = performance.next(Reply::Done).0;
            let rate = run.next(Reply::Done).0;
            let rest = rate.next(Reply::Done).0;
            &&& task.due() == (RegOp::Read { addr: 0x02 })
            &&& second.due() == (RegOp::Read { addr: 0x03 })
            &&& third.due() == (RegOp::Read { addr: 0x04 })
            &&& fourth.due() == (RegOp::Read { addr: 0x05 })
            &&& performance.due() == (RegOp::Write { addr: 0x11, value: 0x0d })
            &&& run.due() == (RegOp::Write { addr: 0x1b, value: 0x04 })
            &&& rate.due() == (RegOp::Write { addr: 0x1c, value: 0x04 })
            &&& rest.due() == (RegOp::Write { addr: 0x1d, value: 0x0f })
            &&& rest.next(Reply::Done) == (ResetTask { pc: 18, ..task }, Progress::Running)
        }),
{
}

/// The axes are oriented on the second register page: the resolution register is
/// read, written with the orientation and read back. Only a register whose three
/// high bits came back as written lets the reset complete.
pub proof fn law_reset_verifies_the_orientation(task: ResetTask, read: u8, back: u8)
    requires
        task.pc == 18,
    ensures
        ({
            let reading = task.next(Reply::Done).0;
            let writing = reading.next(Reply::Value(read)).0;
            let checking = writing.next(Reply::Done).0;
            let (leaving, progress) = checking.next(Reply::Value(back));
            let ending = leaving.next(Reply::Done).0;
            let wanted = (if task.config.swap_xy {
                4int
            } else {
                0
            }) + (if task.config.invert_x {
                2int
            } else {
                0
            }) + (if task.config.invert_y {
                1int
            } else {
                0
            });
            &&& task.due() == (RegOp::Write { addr: 0x7f, value: 0xff })
            &&& reading.due() == (RegOp::Read { addr: 0x05 })
            &&& writing.due() matches RegOp::Write { addr, value } && addr == 0x05 && value == wanted
                * 32 + read % 32
            &&& checking.due() == (RegOp::Read { addr: 0x05 })
            &&& back / 32 != wanted ==> progress == Progress::Failed(Pmw3610Error::InitFailed)
            &&& back / 32 == wanted ==> {
                &&& progress == Progress::Running
                &&& leaving.due() == (RegOp::Write { addr: 0x7f, value: 0x00 })
                &&& ending.due() == (RegOp::Write { addr: 0x41, value: 0xb5 })
                &&& ending.next(Reply::Done).1 == Progress::Complete
            }
        }),
{
    lemma_axis_bits(read, task.config);
    let written: u8 = (read & 0x1fu8) | crate::pmw3610::axis_bits(task.config);
    assert(back & 0xe0u8 == written & 0xe0u8 <==> back / 32 == written / 32) by (bit_vector);
}

/// A bus failure fails the reset at once, whatever was due.
pub proof fn law_reset_fails_with_the_bus(task: ResetTask)
    ensures
        task.next(Reply::Failed).1 == Progress::Failed(Pmw3610Error::Spi),
{
}

/// The reset done, a configured resolution is set, unless it is out of range,
/// which fails the initialization. Without one the power mode is next.
pub proof fn law_reset_is_followed_by_the_resolution(task: ResetTask, config: Pmw3610Config)
    requires
        task.pc == 23,
    ensures
        ({
            let (rest, progress) = InitTask::Reset(task).next(config, Reply::Done);
            &&& 200 <= config.res_cpi <= 3200 ==> progress == Progress::Running && rest
                == InitTask::Resolution(
                ResolutionTask { cpi: config.res_cpi as u16, pc: 0, res_step: 0 },
            )
            &&& 0 < config.res_cpi < 200 || config.res_cpi > 3200 ==> progress == Progress::Failed(
                Pmw3610Error::Spi,
            )
            &&& config.res_cpi <= 0 ==> progress == Progress::Running && rest
                == InitTask::ForceAwake(
                ForceAwakeTask { enable: config.force_awake, pc: 0, performance: 0 },
            )
        }),
{
}

/// After the resolution comes the power mode and after the power mode smart
/// tracking, each as configured. Only smart tracking completes the
/// initialization, and its failures all count as a failed initialization.
pub proof fn law_stages_follow_the_configuration(
    config: Pmw3610Config,
    resolution: ResolutionTask,
    awake: ForceAwakeTask,
    smart: SmartModeTask,
    reply: Reply,
)
    ensures
        resolution.next(reply).1 == Progress::Complete ==> InitTask::Resolution(resolution).next(
            config,
            reply,
        ) == (
            InitTask::ForceAwake(
                ForceAwakeTask { enable: config.force_awake, pc: 0, performance: 0 },
            ),
            Progress::Running,
        ),
        awake.next(reply).1 == Progress::Complete ==> InitTask::ForceAwake(awake).next(
            config,
            reply,
        ) == (
            InitTask::SmartMode(SmartModeTask { enable: config.smart_mode, pc: 0, readback: 0 }),
            Progress::Running,
        ),
        InitTask::SmartMode(smart).next(config, reply).1 == Progress::Complete <==> smart.next(
            reply,
        ).1 == Progress::Complete,
        smart.next(reply).1 is Failed ==> InitTask::SmartMode(smart).next(config, reply).1
            == Progress::Failed(Pmw3610Error::InitFailed),
        resolution.next(reply).1 is Failed ==> InitTask::Resolution(resolution).next(
            config,
            reply,
        ).1 == Progress::Failed(Pmw3610Error::Spi),
        awake.next(reply).1 is Failed ==> InitTask::ForceAwake(awake).next(config, reply).1
            == Progress::Failed(Pmw3610Error::Spi),
        !(InitTask::Resolution(resolution).next(config, reply).1 is Complete),
        !(InitTask::ForceAwake(awake).next(config, reply).1 is Complete),
{
}

/// A stage that goes on speaks to the sensor as it does on its own, and a reset
/// that fails fails the initialization for the same reason.
pub proof fn law_stages_run_unchanged(
    config: Pmw3610Config,
    reset: ResetTask,
    resolution: ResolutionTask,
    awake: ForceAwakeTask,
    smart: SmartModeTask,
    reply: Reply,
)
    ensures
        InitTask::Reset(reset).due() == reset.due(),
        InitTask::Resolution(resolution).due() == resolution.due(),
        InitTask::ForceAwake(awake).due() == awake.due(),
        InitTask::SmartMode(smart).due() == smart.due(),
        reset.next(reply).1 == Progress::Running ==> InitTask::Reset(reset).next(config, reply)
            == (InitTask::Reset(reset.next(reply).0), Progress::Running),
        reset.next(reply).1 is Failed ==> InitTask::Reset(reset).next(config, reply).1
            == reset.next(reply).1,
        resolution.next(reply).1 == Progress::Running ==> InitTask::Resolution(resolution).next(
            config,
            reply,
        ) == (InitTask::Resolution(resolution.next(reply).0), Progress::Running),
        awake.next(reply).1 == Progress::Running ==> InitTask::ForceAwake(awake).next(config, reply)
            == (InitTask::ForceAwake(awake.next(reply).0), Progress::Running),
        smart.next(reply).1 == Progress::Running ==> InitTask::SmartMode(smart).next(config, reply)
            == (InitTask::SmartMode(smart.next(reply).0), Progress::Running),
{
}

// Presence and health

/// A sensor counts as configured exactly where it gives the product number 0x3e
/// and the four low bits of its performance register are 13. A register that
/// cannot be read says that it is not.
pub proof fn law_presence_takes_two_registers(id: u8, performance: u8)
    ensures
        ({
            let start = ConfiguredTask { product_id: None };
            let known = ConfiguredTask { product_id: Some(id) };
            &&& start.due() == (RegOp::Read { addr: 0x00 })
            &&& known.due() == (RegOp::Read { addr: 0x11 })
            &&& start.verdict(Reply::Value(id)) is None
            &&& known.verdict(Reply::Value(performance)) == Some(
                id == 0x3e && performance % 16 == 13,
            )
            &&& start.verdict(Reply::Failed) == Some(false)
            &&& known.verdict(Reply::Failed) == Some(false)
        }),
{
    assert(performance & !0xf0u8 == 0x0d <==> performance % 16 == 13) by (bit_vector);
}

/// A snapshot is healthy exactly where the product number is 0x3e, the four
/// self-test bits are set, performance and resolution registers are the
/// expected ones, and the highest bit of the smart register is expected alone.
pub proof fn law_health_takes_every_register(health: Pmw3610Health)
    ensures
        health.healthy() <==> {
            &&& health.product_id == 0x3e
            &&& health.observation1 % 16 == 15
            &&& health.performance == health.expected_performance
            &&& health.res_step == health.expected_res_step
            &&& health.expected_smart_mode == (if health.smart_mode >= 128 {
                128int
            } else {
                0
            })
        },
{
    let observed = health.observation1;
    let smart = health.smart_mode;
    assert(observed & 0x0fu8 == 0x0f <==> observed % 16 == 15) by (bit_vector);
    assert(smart & 0x80u8 == (if smart >= 128 {
        128u8
    } else {
        0u8
    })) by (bit_vector);
}

/// A health check reads the product number, and under the requested clock the
/// self-test, performance and smart registers and the resolution register on the
/// second page. It ends with each of them noted, back on the first page and with
/// the clock released.
pub proof fn law_health_check_notes_every_register(
    task: HealthTask,
    id: u8,
    observed: u8,
    performance: u8,
    smart: u8,
    resolution: u8,
)
    requires
        task.pc == 0,
        !task.failed,
    ensures
        ({
            let on = task.next(Reply::Value(id)).0;
            let waiting = on.next(Reply::Done).0;
            let first = waiting.next(Reply::Done).0;
            let second = first.next(Reply::Value(observed)).0;
            let third = second.next(Reply::Value(performance)).0;
            let paging = third.next(Reply::Value(smart)).0;
            let fourth = paging.next(Reply::Done).0;
            let leaving = fourth.next(Reply::Value(resolution)).0;
            let ending = leaving.next(Reply::Done).0;
            let (done, progress) = ending.next(Reply::Done);
            &&& task.due() == (RegOp::Read { addr: 0x00 })
            &&& on.due() == (RegOp::Write { addr: 0x41, value: 0xba })
            &&& waiting.due() == RegOp::WaitUs(300)
            &&& first.due() == (RegOp::Read { addr: 0x2d })
            &&& second.due() == (RegOp::Read { addr: 0x11 })
            &&& third.due() == (RegOp::Read { addr: 0x32 })
            &&& paging.due() == (RegOp::Write { addr: 0x7f, value: 0xff })
            &&& fourth.due() == (RegOp::Read { addr: 0x05 })
            &&& leaving.due() == (RegOp::Write { addr: 0x7f, value: 0x00 })
            &&& ending.due() == (RegOp::Write { addr: 0x41, value: 0xb5 })
            &&& progress == Progress::Complete
            &&& done.cpi == task.cpi
            &&& done.product_id == id && done.observation1 == observed
            &&& done.performance == performance && done.smart_mode == smart
            &&& done.res_step == resolution
        }),
{
}

/// A health check with any failed operation fails in the end. Failures before
/// the clock was requested end it at once, later ones skip to the restoration
/// of the first page, and one there still leads to the release of the clock.
pub proof fn law_health_check_fails_with_any_register(task: HealthTask, reply: Reply)
    requires
        task.pc < 10,
    ensures
        ({
            let (rest, progress) = task.next(reply);
            &&& reply is Failed && task.pc < 3 ==> progress == Progress::Failed(Pmw3610Error::Spi)
            &&& reply is Failed && task.pc == 9 ==> progress == Progress::Failed(Pmw3610Error::Spi)
            &&& reply is Failed && 3 <= task.pc < 8 ==> progress == Progress::Running && rest.failed
                && rest.due() == (RegOp::Write { addr: 0x7f, value: 0x00 })
            &&& reply is Failed && task.pc == 8 ==> progress == Progress::Running && rest.failed
                && rest.due() == (RegOp::Write { addr: 0x41, value: 0xb5 })
            &&& task.failed ==> rest.failed && progress != Progress::Complete
            &&& !(reply is Failed) ==> rest.failed == task.failed
            &&& reply is Done && task.failed && task.pc == 9 ==> progress == Progress::Failed(
                Pmw3610Error::Spi,
            )
            &&& rest.cpi == task.cpi
        }),
{
}

// Lines

/// A register is written in one transfer of two bytes, the first of them the
/// address with the highest bit set, between the edges and rests that the sensor
/// asks for.
pub proof fn law_write_on_the_lines(addr: u8, value: u8)
    ensures
        ({
            let script = crate::pmw3610_tasks::line_script(RegOp::Write { addr, value });
            &&& script.len() == 6
            &&& script[0] == LineAction::SelectLow
            &&& script[1] == LineAction::WaitNs(120)
            &&& script[2] matches LineAction::SendTwo(first, second) && first == addr % 128 + 128
                && second == value
            &&& script[3] == LineAction::WaitUs(10)
            &&& script[4] == LineAction::SelectHigh
            &&& script[5] == LineAction::WaitUs(30)
        }),
{
    assert(addr | 0x80u8 == addr % 128 + 128) by (bit_vector);
}

/// A register is read by its address with the highest bit clear, and a burst by
/// one address and as many bytes as it has; both rest 250 ns before the next
/// command.
pub proof fn law_read_on_the_lines(addr: u8, len: usize)
    ensures
        ({
            let single = crate::pmw3610_tasks::line_script(RegOp::Read { addr });
            let burst = crate::pmw3610_tasks::line_script(RegOp::ReadBurst { addr, len });
            &&& single.len() == 8 && burst.len() == 8
            &&& single[0] == LineAction::SelectLow && burst[0] == LineAction::SelectLow
            &&& single[1] == LineAction::WaitNs(120) && burst[1] == LineAction::WaitNs(120)
            &&& single[2] matches LineAction::SendOne(sent) && sent == addr % 128
            &&& burst[2] == single[2]
            &&& single[3] == LineAction::WaitUs(4) && burst[3] == LineAction::WaitUs(4)
            &&& single[4] == LineAction::Receive(1) && burst[4] == LineAction::Receive(len)
            &&& single[5] == LineAction::WaitNs(120) && burst[5] == LineAction::WaitNs(120)
            &&& single[6] == LineAction::SelectHigh && burst[6] == LineAction::SelectHigh
            &&& single[7] == LineAction::WaitNs(250) && burst[7] == LineAction::WaitNs(250)
        }),
{
    assert(addr & 0x7fu8 == addr % 128) by (bit_vector);
}

/// Releasing the chip and waiting are one action each, of the time asked for.
pub proof fn law_rests_on_the_lines(ticks: u64)
    ensures
        crate::pmw3610_tasks::line_script(RegOp::Deselect) == seq![LineAction::SelectHigh],
        crate::pmw3610_tasks::line_script(RegOp::WaitMs(ticks)) == seq![LineAction::WaitMs(ticks)],
        crate::pmw3610_tasks::line_script(RegOp::WaitUs(ticks)) == seq![LineAction::WaitUs(ticks)],
{
}

// Calls

/// Every task names the operation that is due and moves as the bus answers.
pub proof fn law_tasks_follow_the_bus()
    ensures
        forall|task: &ResolutionTask, op: RegOp| #[trigger]
            call_ensures(ResolutionTask::op, (task,), op) ==> op == (*task).due(),
        forall|task: &mut ResolutionTask, reply: Reply, progress: Progress| #[trigger]
            call_ensures(ResolutionTask::advance, (task, reply), progress) ==> (
                *final(task),
                progress,
            ) == (*task).next(reply),
        forall|task: &ForceAwakeTask, op: RegOp| #[trigger]
            call_ensures(ForceAwakeTask::op, (task,), op) ==> op == (*task).due(),
        forall|task: &mut ForceAwakeTask, reply: Reply, progress: Progress| #[trigger]
            call_ensures(ForceAwakeTask::advance, (task, reply), progress) ==> (
                *final(task),
                progress,
            ) == (*task).next(reply),
        forall|task: &SmartModeTask, op: RegOp| #[trigger]
            call_ensures(SmartModeTask::op, (task,), op) ==> op == (*task).due(),
        forall|task: &mut SmartModeTask, reply: Reply, progress: Progress| #[trigger]
            call_ensures(SmartModeTask::advance, (task, reply), progress) ==> (
                *final(task),
                progress,
            ) == (*task).next(reply),
        forall|task: &ResetTask, op: RegOp| #[trigger]
            call_ensures(ResetTask::op, (task,), op) ==> op == (*task).due(),
        forall|task: &mut ResetTask, reply: Reply, progress: Progress| #[trigger]
            call_ensures(ResetTask::advance, (task, reply), progress) ==> (*final(task), progress)
                == (*task).next(reply),
        forall|task: &HealthTask, op: RegOp| #[trigger]
            call_ensures(HealthTask::op, (task,), op) ==> op == (*task).due(),
        forall|task: &mut HealthTask, reply: Reply, progress: Progress| #[trigger]
            call_ensures(HealthTask::advance, (task, reply), progress) ==> (*final(task), progress)
                == (*task).next(reply),
{
}

/// Initialization moves as the bus answers, and a sensor whose initialization is
/// complete tracks as it was asked to. Nothing else of the sensor changes.
pub proof fn law_initialization_follows_the_bus()
    ensures
        forall|task: &InitTask, op: RegOp| #[trigger]
            call_ensures(InitTask::op, (task,), op) ==> op == (*task).due(),
        forall|task: &mut InitTask, sensor: &mut Pmw3610, reply: Reply, progress: Progress|
         #[trigger]
            call_ensures(InitTask::advance, (task, sensor, reply), progress) ==> {
                &&& (*final(task), progress) == (*task).next((*sensor).config, reply)
                &&& final(sensor).id == (*sensor).id && final(sensor).config == (*sensor).config
                &&& !(progress is Complete) ==> *final(sensor) == *sensor
                &&& progress is Complete ==> (*task matches InitTask::SmartMode(smart)
                    && final(sensor).smart_flag == !smart.enable)
            },
        forall|sensor: &Pmw3610, task: InitTask| #[trigger]
            call_ensures(Pmw3610::init, (sensor,), task) ==> task == InitTask::Reset(
                ResetTask { config: (*sensor).config, pc: 0, res_step: 0 },
            ),
        forall|sensor: &Pmw3610, task: InitTask| #[trigger]
            call_ensures(InitTask::start, (sensor,), task) ==> task == InitTask::Reset(
                ResetTask { config: (*sensor).config, pc: 0, res_step: 0 },
            ),
{
}

/// A motion read collects the optical fields for smart tracking and for
/// diagnostics, moves as the bus answers, and a completed change of smart
/// tracking is remembered.
pub proof fn law_motion_read_follows_the_bus()
    ensures
        forall|sensor: &Pmw3610, rtt_diag: bool, task: MotionTask| #[trigger]
            call_ensures(Pmw3610::read_motion, (sensor, rtt_diag), task) ==> task.pc == 0 && (
            task.collect_optics <==> (*sensor).config.smart_mode || rtt_diag),
        forall|task: &MotionTask, op: RegOp| #[trigger]
            call_ensures(MotionTask::op, (task,), op) ==> op == (*task).due(),
        forall|
            task: &mut MotionTask,
            sensor: &Pmw3610,
            reading: &BurstReading,
            progress: MotionProgress,
        | #[trigger]
            call_ensures(MotionTask::take_burst, (task, sensor, reading), progress) ==> (
                *final(task),
                progress,
            ) == (*task).after_burst(*sensor, *reading),
        forall|
            task: &mut MotionTask,
            sensor: &mut Pmw3610,
            reply: Reply,
            progress: MotionProgress,
        | #[trigger]
            call_ensures(MotionTask::advance, (task, sensor, reply), progress) ==> {
                &&& (*final(task), progress) == (*task).next(reply)
                &&& final(sensor).id == (*sensor).id && final(sensor).config == (*sensor).config
                &&& progress is Complete ==> final(sensor).smart_flag == !(*task).enable
                &&& !(progress is Complete) ==> final(sensor).smart_flag == (*sensor).smart_flag
            },
{
}

/// A resolution from 200 to 3200 can be asked for, and a health check for the
/// multiples of 200 among them. Anything else is refused.
pub proof fn law_tasks_start_within_range()
    ensures
        forall|sensor: &Pmw3610, cpi: u16, task: Result<ResolutionTask, PointingDriverError>|
         #[trigger]
            call_ensures(Pmw3610::set_resolution, (sensor, cpi), task) ==> {
                &&& 200 <= cpi <= 3200 ==> task is Ok && task->Ok_0.cpi == cpi && task->Ok_0.pc == 0
                &&& !(200 <= cpi <= 3200) ==> task is Err && task->Err_0
                    == PointingDriverError::InvalidCpi
            },
        forall|cpi: u16, task: Result<ResolutionTask, PointingDriverError>| #[trigger]
            call_ensures(ResolutionTask::start, (cpi,), task) ==> {
                &&& 200 <= cpi <= 3200 ==> task is Ok && task->Ok_0.cpi == cpi && task->Ok_0.pc == 0
                &&& !(200 <= cpi <= 3200) ==> task is Err && task->Err_0
                    == PointingDriverError::InvalidCpi
            },
        forall|sensor: &Pmw3610, cpi: u16, task: Result<HealthTask, PointingDriverError>|
         #[trigger]
            call_ensures(Pmw3610::configuration_health, (sensor, cpi), task) ==> {
                let exact = 200 <= cpi <= 3200 && cpi % 200 == 0;
                &&& exact ==> task is Ok && task->Ok_0.cpi == cpi && task->Ok_0.pc == 0
                    && !task->Ok_0.failed
                &&& !exact ==> task is Err && task->Err_0 == PointingDriverError::InvalidCpi
            },
        forall|enable: bool, task: ForceAwakeTask| #[trigger]
            call_ensures(ForceAwakeTask::start, (enable,), task) ==> task.enable == enable
                && task.pc == 0,
        forall|enable: bool, task: SmartModeTask| #[trigger]
            call_ensures(SmartModeTask::start, (enable,), task) ==> task.enable == enable && task.pc
                == 0,
        forall|config: Pmw3610Config, task: ResetTask| #[trigger]
            call_ensures(ResetTask::start, (config,), task) ==> task.config == config && task.pc
                == 0,
{
}

/// A completed health check hands out what it read beside what the sensor was
/// configured to hold.
pub proof fn law_snapshot_compares_with_the_configuration()
    ensures
        forall|task: &HealthTask, sensor: &Pmw3610, health: Pmw3610Health| #[trigger]
            call_ensures(HealthTask::health, (task, sensor), health) && 200 <= (*task).cpi <= 3200
                ==> {
                &&& health.product_id == (*task).product_id
                &&& health.observation1 == (*task).observation1
                &&& health.performance == (*task).performance
                &&& health.smart_mode == (*task).smart_mode
                &&& health.res_step == (*task).res_step
                &&& health.expected_res_step % 32 == (*task).cpi / 200
                &&& health.expected_res_step >= 128 <==> (*sensor).config.swap_xy
                &&& (health.expected_res_step / 64) % 2 == 1 <==> (*sensor).config.invert_x
                &&& (health.expected_res_step / 32) % 2 == 1 <==> (*sensor).config.invert_y
                &&& health.expected_performance == (if (*sensor).config.force_awake {
                    253int
                } else {
                    13int
                })
                &&& health.expected_smart_mode == (if (*sensor).config.smart_mode
                    && !(*sensor).smart_flag {
                    0int
                } else {
                    128int
                })
            },
        forall|health: &Pmw3610Health, valid: bool| #[trigger]
            call_ensures(Pmw3610Health::is_valid, (health,), valid) ==> valid
                == (*health).healthy(),
{
    assert forall|task: &HealthTask, sensor: &Pmw3610, health: Pmw3610Health| #[trigger]
        call_ensures(HealthTask::health, (task, sensor), health) && 200 <= (*task).cpi
            <= 3200 implies {
        &&& health.product_id == (*task).product_id
        &&& health.observation1 == (*task).observation1
        &&& health.performance == (*task).performance
        &&& health.smart_mode == (*task).smart_mode
        &&& health.res_step == (*task).res_step
        &&& health.expected_res_step % 32 == (*task).cpi / 200
        &&& health.expected_res_step >= 128 <==> (*sensor).config.swap_xy
        &&& (health.expected_res_step / 64) % 2 == 1 <==> (*sensor).config.invert_x
        &&& (health.expected_res_step / 32) % 2 == 1 <==> (*sensor).config.invert_y
        &&& health.expected_performance == (if (*sensor).config.force_awake {
            253int
        } else {
            13int
        })
        &&& health.expected_smart_mode == (if (*sensor).config.smart_mode
            && !(*sensor).smart_flag {
            0int
        } else {
            128int
        })
    } by {
        law_expected_register_tells_resolution_and_axes((*sensor).config, (*task).cpi);
        law_expected_performance((*sensor).config);
        law_expected_smart_tracking(*sensor);
    }
}

/// A presence check moves on after the product number and gives its verdict, and
/// motion is taken to be pending unless the line says otherwise.
pub proof fn law_presence_and_line_are_read()
    ensures
        forall|task: &ConfiguredTask, op: RegOp| #[trigger]
            call_ensures(ConfiguredTask::op, (task,), op) ==> op == (*task).due(),
        forall|task: &mut ConfiguredTask, reply: Reply, verdict: Option<bool>| #[trigger]
            call_ensures(ConfiguredTask::advance, (task, reply), verdict) ==> {
                &&& verdict == (*task).verdict(reply)
                &&& (*task).product_id is None && reply is Value ==> final(task).product_id == Some(
                    reply->Value_0,
                )
            },
        forall|id: u8, performance: u8, valid: bool| #[trigger]
            call_ensures(configured_registers_valid, (id, performance), valid) ==> (valid <==> id
                == 0x3e && performance % 16 == 13),
        forall|line: Option<Result<bool, ()>>, pending: bool| #[trigger]
            call_ensures(motion_pending, (line,), pending) ==> (pending <==> line
                != Some(Ok::<bool, ()>(false))),
{
    assert forall|id: u8, performance: u8, valid: bool| #[trigger]
        call_ensures(configured_registers_valid, (id, performance), valid) implies (valid <==> id
        == 0x3e && performance % 16 == 13) by {
        assert(performance & !0xf0u8 == 0x0d <==> performance % 16 == 13) by (bit_vector);
    }
}

/// A burst moves by two twelve-bit deltas, whose high halves share a byte, where
/// its highest status bit is set, and not at all otherwise. The optical fields
/// are read where they were asked for.
pub proof fn law_burst_is_decoded()
    ensures
        forall|data: &[u8; 7], optics: bool, reading: BurstReading| #[trigger]
            call_ensures(decode_burst, (data, optics), reading) ==> {
                let x = 256 * ((*data)@[3] as int / 16) + (*data)@[1];
                let y = 256 * ((*data)@[3] as int % 16) + (*data)@[2];
                &&& reading.motion_set <==> (*data)@[0] >= 128
                &&& reading.motion_set && x < 2048 ==> reading.motion.dx == x
                &&& reading.motion_set && x >= 2048 ==> reading.motion.dx == x - 4096
                &&& reading.motion_set && y < 2048 ==> reading.motion.dy == y
                &&& reading.motion_set && y >= 2048 ==> reading.motion.dy == y - 4096
                &&& !reading.motion_set ==> reading.motion.dx == 0 && reading.motion.dy == 0
                &&& optics ==> reading.squal == (*data)@[4] && reading.shutter == 256
                    * (*data)@[5] + (*data)@[6]
                &&& !optics ==> reading.squal == 0 && reading.shutter == 0
            },
{
    vstd::arithmetic::power2::lemma2_to64();
}

/// A new driver remembers its configuration and has switched nothing off, and
/// its snapshot sets what was read beside what it expects.
pub proof fn law_driver_starts_from_its_configuration()
    ensures
        forall|id: u8, config: Pmw3610Config, sensor: Pmw3610| #[trigger]
            call_ensures(Pmw3610::new, (id, config), sensor) ==> sensor.id == id && sensor.config
                == config && !sensor.smart_flag,
        forall|
            sensor: &Pmw3610,
            cpi: u16,
            id: u8,
            observed: u8,
            performance: u8,
            smart: u8,
            resolution: u8,
            health: Pmw3610Health,
        | #[trigger]
            call_ensures(
                Pmw3610::health_snapshot,
                (sensor, cpi, id, observed, performance, smart, resolution),
                health,
            ) ==> {
                &&& health.product_id == id && health.observation1 == observed
                &&& health.performance == performance && health.smart_mode == smart
                &&& health.res_step == resolution
                &&& health.expected_res_step == crate::pmw3610::configured_res_step(
                    (*sensor).config,
                    cpi as int,
                )
                &&& health.expected_performance == crate::pmw3610::configured_performance(
                    (*sensor).config,
                )
                &&& health.expected_smart_mode == crate::pmw3610::smart_register(
                    (*sensor).smart_tracking(),
                )
            },
        forall|sensor: &Pmw3610, task: ConfiguredTask| #[trigger]
            call_ensures(Pmw3610::is_configured, (sensor,), task) ==> task.product_id is None,
        forall|task: ConfiguredTask| #[trigger]
            call_ensures(ConfiguredTask::start, (), task) ==> task.product_id is None,
        forall|cpi: u16, task: Result<HealthTask, PointingDriverError>| #[trigger]
            call_ensures(HealthTask::start, (cpi,), task) ==> {
                let exact = 200 <= cpi <= 3200 && cpi % 200 == 0;
                &&& exact ==> task is Ok && task->Ok_0.cpi == cpi && task->Ok_0.pc == 0
                    && !task->Ok_0.failed
                &&& !exact ==> task is Err && task->Err_0 == PointingDriverError::InvalidCpi
            },
        forall|sensor: &Pmw3610, rtt_diag: bool, task: MotionTask| #[trigger]
            call_ensures(MotionTask::start, (sensor, rtt_diag), task) ==> task.pc == 0 && (
            task.collect_optics <==> (*sensor).config.smart_mode || rtt_diag),
{
}

/// The bytes of a burst are decoded and then weighed as any burst is.
pub proof fn law_burst_data_is_decoded_and_weighed()
    ensures
        forall|
            task: &mut MotionTask,
            sensor: &Pmw3610,
            data: &[u8; 7],
            result: (BurstReading, MotionProgress),
        | #[trigger]
            call_ensures(MotionTask::take_burst_data, (task, sensor, data), result) ==> {
                let reading = result.0;
                let x = 256 * ((*data)@[3] as int / 16) + (*data)@[1];
                let y = 256 * ((*data)@[3] as int % 16) + (*data)@[2];
                &&& (*final(task), result.1) == (*task).after_burst(*sensor, reading)
                &&& reading.motion_set <==> (*data)@[0] >= 128
                &&& reading.motion_set && x < 2048 ==> reading.motion.dx == x
                &&& reading.motion_set && x >= 2048 ==> reading.motion.dx == x - 4096
                &&& reading.motion_set && y < 2048 ==> reading.motion.dy == y
                &&& reading.motion_set && y >= 2048 ==> reading.motion.dy == y - 4096
                &&& (*task).collect_optics ==> reading.squal == (*data)@[4] && reading.shutter
                    == 256 * (*data)@[5] + (*data)@[6]
            },
{
    vstd::arithmetic::power2::lemma2_to64();
}

/// Extending a sign reads the low bits of a value as a two's complement number:
/// what is below the sign bit stays, and the upper half counts down from zero.
pub proof fn law_sign_is_extended(bits: usize)
    requires
        bits <= 14,
    ensures
        forall|value: u16, result: i16| #[trigger]
            call_ensures(sign_extend, (value, bits), result) ==> {
                let half = 1u16 << bits;
                &&& value < half ==> result == value
                &&& half <= value < 2 * half ==> result == value - 2 * half
            },
{
    assert forall|value: u16, result: i16| #[trigger]
        call_ensures(sign_extend, (value, bits), result) implies {
        let half = 1u16 << bits;
        &&& value < half ==> result == value
        &&& half <= value < 2 * half ==> result == value - 2 * half
    } by {
        let half: u16 = 1u16 << bits;
        let width: usize = (bits + 1) as usize;
        let full: u16 = 1u16 << width;
        let mask: u16 = (full - 1) as u16;
        assert(full >= 1 && full == 2 * half && half <= 0x4000) by (bit_vector)
            requires
                bits <= 14,
                half == 1u16 << bits,
                width == bits + 1,
                full == 1u16 << width,
        ;
        assert(value < half ==> value & half == 0 && value as i16 == value) by (bit_vector)
            requires
                bits <= 14,
                half == 1u16 << bits,
        ;
        assert(half <= value && value < 2 * half ==> value & half != 0 && (value | !mask) as i16
            == value - 2 * half) by (bit_vector)
            requires
                bits <= 14,
                half == 1u16 << bits,
                mask == 2 * half - 1,
        ;
    }
}

/// A bus operation is carried out line action by line action, and ends after the
/// last one.
pub proof fn law_lines_follow_their_script()
    ensures
        forall|op: RegOp, step: usize, action: Option<LineAction>| #[trigger]
            call_ensures(line_action, (op, step), action) ==> {
                let script = crate::pmw3610_tasks::line_script(op);
                &&& step < script.len() ==> action == Some(script[step as int])
                &&& step >= script.len() ==> action is None
            },
{
}

} // verus!
