use k04_firmware::pmw3610::{
    configured_registers_valid, decode_burst, motion_pending, sign_extend, Pmw3610, Pmw3610Config,
    Pmw3610Error, Pmw3610Health, OBSERVATION1_INIT_MASK, PERFORMANCE_FMODE_FORCE_AWAKE,
    PERFORMANCE_INIT, PMW3610_BURST_READ, PMW3610_OBSERVATION1, PMW3610_PERFORMANCE,
    PMW3610_PROD_ID, PMW3610_RES_STEP, PMW3610_SMART_MODE, PMW3610_SPI_CLK_ON_REQ,
    PMW3610_SPI_PAGE0, PRODUCT_ID_PMW3610, RES_STEP_SWAP_XY, SMART_MODE_DISABLE, SMART_MODE_ENABLE,
    SPI_CLOCK_ON_REQ_OFF, SPI_CLOCK_ON_REQ_ON, SPI_PAGE0_1, SPI_PAGE1_0,
};
use k04_firmware::pmw3610_tasks::{
    line_action, ConfiguredTask, ForceAwakeTask, HealthTask, InitTask, LineAction, MotionProgress,
    MotionTask, Progress, RegOp, Reply, ResolutionTask, SmartModeTask,
};
use k04_firmware::pointing::{MotionData, PointingDriverError};

fn healthy_snapshot() -> Pmw3610Health {
    Pmw3610Health {
        product_id: PRODUCT_ID_PMW3610,
        observation1: OBSERVATION1_INIT_MASK,
        performance: PERFORMANCE_INIT,
        res_step: 3,
        smart_mode: SMART_MODE_ENABLE,
        expected_performance: PERFORMANCE_INIT,
        expected_res_step: 3,
        expected_smart_mode: SMART_MODE_ENABLE,
    }
}

/// A register file with two pages, as the sensor presents it.
struct FakeSensor {
    page0: [u8; 128],
    page1: [u8; 128],
    on_page1: bool,
    clock_on: bool,
    log: Vec<RegOp>,
    /// Operation number at which the bus fails.
    fail_at: Option<usize>,
    /// Writes to this register of page 0 are lost.
    stuck: Option<u8>,
}

impl FakeSensor {
    fn new() -> FakeSensor {
        let mut page0 = [0u8; 128];
        page0[PMW3610_PROD_ID as usize] = PRODUCT_ID_PMW3610;
        FakeSensor {
            page0,
            page1: [0xab; 128],
            on_page1: false,
            clock_on: false,
            log: Vec::new(),
            fail_at: None,
            stuck: None,
        }
    }

    fn answer(&mut self, op: RegOp) -> Reply {
        self.log.push(op);
        if self.fail_at == Some(self.log.len() - 1) {
            return Reply::Failed;
        }
        match op {
            RegOp::Deselect | RegOp::WaitMs(_) | RegOp::WaitUs(_) => Reply::Done,
            RegOp::ReadBurst { .. } => Reply::Failed,
            RegOp::Read { addr } => Reply::Value(if self.on_page1 {
                self.page1[addr as usize]
            } else {
                self.page0[addr as usize]
            }),
            RegOp::Write { addr, value } => {
                if addr == PMW3610_SPI_PAGE0 {
                    self.on_page1 = value == SPI_PAGE0_1;
                } else if addr == PMW3610_SPI_CLK_ON_REQ {
                    self.clock_on = value == SPI_CLOCK_ON_REQ_ON;
                } else if self.on_page1 {
                    self.page1[addr as usize] = value;
                } else if addr == PMW3610_OBSERVATION1 {
                    self.page0[addr as usize] = OBSERVATION1_INIT_MASK;
                } else if self.stuck != Some(addr) {
                    self.page0[addr as usize] = value;
                }
                Reply::Done
            }
        }
    }
}

fn run_init(fake: &mut FakeSensor, sensor: &mut Pmw3610) -> Progress {
    let mut task = sensor.init();
    loop {
        let reply = fake.answer(task.op());
        match task.advance(sensor, reply) {
            Progress::Running => {}
            done => return done,
        }
    }
}

fn run_resolution(fake: &mut FakeSensor, mut task: ResolutionTask) -> Progress {
    loop {
        let reply = fake.answer(task.op());
        match task.advance(reply) {
            Progress::Running => {}
            done => return done,
        }
    }
}

fn run_health(fake: &mut FakeSensor, sensor: &Pmw3610, cpi: u16) -> Result<Pmw3610Health, Progress> {
    let mut task = match sensor.configuration_health(cpi) {
        Ok(task) => task,
        Err(error) => panic!("{:?}", error),
    };
    loop {
        let reply = fake.answer(task.op());
        match task.advance(reply) {
            Progress::Running => {}
            Progress::Complete => return Ok(task.health(sensor)),
            failed => return Err(failed),
        }
    }
}

fn config() -> Pmw3610Config {
    Pmw3610Config {
        res_cpi: 1_000,
        swap_xy: true,
        invert_x: false,
        invert_y: true,
        force_awake: false,
        smart_mode: true,
    }
}

#[test]
fn configured_signature_accepts_power_modes_and_rejects_reset_sensor() {
    assert!(configured_registers_valid(PRODUCT_ID_PMW3610, PERFORMANCE_INIT));
    assert!(configured_registers_valid(
        PRODUCT_ID_PMW3610,
        PERFORMANCE_INIT | PERFORMANCE_FMODE_FORCE_AWAKE
    ));
    assert!(!configured_registers_valid(0xff, PERFORMANCE_INIT));
    assert!(!configured_registers_valid(PRODUCT_ID_PMW3610, 0));
}

#[test]
fn detailed_health_rejects_every_motion_configuration_mismatch() {
    assert!(healthy_snapshot().is_valid());

    let mut health = healthy_snapshot();
    health.product_id = 0xff;
    assert!(!health.is_valid());

    let mut health = healthy_snapshot();
    health.observation1 = 0;
    assert!(!health.is_valid());

    let mut health = healthy_snapshot();
    health.performance = 0;
    assert!(!health.is_valid());

    let mut health = healthy_snapshot();
    health.res_step |= RES_STEP_SWAP_XY;
    assert!(!health.is_valid());

    let mut health = healthy_snapshot();
    health.smart_mode = SMART_MODE_DISABLE;
    assert!(!health.is_valid());
}

#[test]
fn default_config_leaves_the_sensor_alone() {
    let config = Pmw3610Config::default();
    assert_eq!(config.res_cpi, -1);
    assert!(!config.invert_x && !config.invert_y && !config.swap_xy);
    assert!(!config.force_awake && !config.smart_mode);
}

#[test]
fn errors_map_to_driver_errors() {
    assert_eq!(PointingDriverError::from(Pmw3610Error::Spi), PointingDriverError::Spi);
    assert_eq!(
        PointingDriverError::from(Pmw3610Error::InvalidProductId(7)),
        PointingDriverError::InvalidProductId(7)
    );
    assert_eq!(PointingDriverError::from(Pmw3610Error::InitFailed), PointingDriverError::InitFailed);
    assert_eq!(PointingDriverError::from(Pmw3610Error::InvalidCpi), PointingDriverError::InvalidCpi);
}

#[test]
fn sign_extension_of_twelve_bits() {
    assert_eq!(sign_extend(0x000, 11), 0);
    assert_eq!(sign_extend(0x7ff, 11), 2_047);
    assert_eq!(sign_extend(0x800, 11), -2_048);
    assert_eq!(sign_extend(0xfff, 11), -1);
}

#[test]
fn burst_bytes_decode_to_signed_deltas() {
    let reading = decode_burst(&[0x80, 0x05, 0xfb, 0x0f, 33, 0x01, 0x02], true);
    assert!(reading.motion_set);
    assert_eq!(reading.motion, MotionData { dx: 5, dy: -5 });
    assert_eq!(reading.squal, 33);
    assert_eq!(reading.shutter, 0x0102);

    let reading = decode_burst(&[0x80, 0x00, 0x00, 0x80, 33, 0x01, 0x02], false);
    assert_eq!(reading.motion, MotionData { dx: -2_048, dy: 0 });
    assert_eq!((reading.squal, reading.shutter), (0, 0));

    let reading = decode_burst(&[0x00, 0x05, 0x05, 0x00, 0, 0, 0], true);
    assert_eq!(reading.motion, MotionData { dx: 0, dy: 0 });
}

#[test]
fn missing_or_unreadable_motion_line_means_pending() {
    assert!(motion_pending(None));
    assert!(motion_pending(Some(Err(()))));
    assert!(motion_pending(Some(Ok(true))));
    assert!(!motion_pending(Some(Ok(false))));
}

#[test]
fn initialized_sensor_passes_its_health_check() {
    let mut fake = FakeSensor::new();
    let mut sensor = Pmw3610::new(1, config());
    assert_eq!(run_init(&mut fake, &mut sensor), Progress::Complete);
    assert!(!sensor.smart_flag);
    assert!(!fake.on_page1 && !fake.clock_on);
    let health = run_health(&mut fake, &sensor, 1_000).unwrap();
    assert!(health.is_valid());
    assert_eq!(health.res_step, 0xa0 | 5);

    let task = sensor.set_resolution(600).unwrap();
    assert_eq!(run_resolution(&mut fake, task), Progress::Complete);
    assert!(run_health(&mut fake, &sensor, 600).unwrap().is_valid());
    assert!(!run_health(&mut fake, &sensor, 1_000).unwrap().is_valid());
}

#[test]
fn initialization_without_resolution_keeps_the_register() {
    let mut fake = FakeSensor::new();
    let mut plain = config();
    plain.res_cpi = -1;
    plain.smart_mode = false;
    let mut sensor = Pmw3610::new(1, plain);
    assert_eq!(run_init(&mut fake, &mut sensor), Progress::Complete);
    assert!(sensor.smart_flag);
    assert_eq!(fake.page1[PMW3610_RES_STEP as usize], 0xa0 | (0xab & 0x1f));
    assert_eq!(fake.page0[PMW3610_SMART_MODE as usize], SMART_MODE_DISABLE);
}

#[test]
fn initialization_reports_each_error() {
    let mut fake = FakeSensor::new();
    fake.page0[PMW3610_PROD_ID as usize] = 0xff;
    let mut sensor = Pmw3610::new(1, config());
    assert_eq!(run_init(&mut fake, &mut sensor), Progress::Failed(Pmw3610Error::InvalidProductId(0xff)));

    let mut fake = FakeSensor::new();
    fake.stuck = Some(PMW3610_SMART_MODE);
    fake.page0[PMW3610_SMART_MODE as usize] = SMART_MODE_DISABLE;
    let mut sensor = Pmw3610::new(1, config());
    assert_eq!(run_init(&mut fake, &mut sensor), Progress::Failed(Pmw3610Error::InitFailed));

    let mut fake = FakeSensor::new();
    let mut wide = config();
    wide.res_cpi = 4_000;
    let mut sensor = Pmw3610::new(1, wide);
    assert_eq!(run_init(&mut fake, &mut sensor), Progress::Failed(Pmw3610Error::Spi));
}

#[test]
fn a_bus_failure_ends_initialization_at_once() {
    let mut healthy = FakeSensor::new();
    let mut sensor = Pmw3610::new(1, config());
    run_init(&mut healthy, &mut sensor);
    let total = healthy.log.len();
    assert_eq!(total, 41);
    for (i, op) in healthy.log.iter().enumerate() {
        if matches!(op, RegOp::Read { .. } | RegOp::Write { .. }) {
            let mut fake = FakeSensor::new();
            fake.fail_at = Some(i);
            let mut sensor = Pmw3610::new(1, config());
            let smart_stage = i >= 36;
            assert_eq!(
                run_init(&mut fake, &mut sensor),
                Progress::Failed(if smart_stage { Pmw3610Error::InitFailed } else { Pmw3610Error::Spi })
            );
            assert_eq!(fake.log.len(), i + 1);
        }
    }
}

#[test]
fn resolutions_out_of_range_are_refused() {
    let sensor = Pmw3610::new(1, config());
    assert_eq!(sensor.set_resolution(199), Err(PointingDriverError::InvalidCpi));
    assert_eq!(sensor.set_resolution(3_201), Err(PointingDriverError::InvalidCpi));
    assert!(sensor.set_resolution(3_200).is_ok());
    assert_eq!(ResolutionTask::start(0), Err(PointingDriverError::InvalidCpi));
    assert_eq!(sensor.configuration_health(650), Err(PointingDriverError::InvalidCpi));
    assert_eq!(HealthTask::start(3_400), Err(PointingDriverError::InvalidCpi));
    assert!(sensor.configuration_health(600).is_ok());
}

#[test]
fn failed_health_check_restores_page_and_clock() {
    for fail_at in 3..8 {
        let mut fake = FakeSensor::new();
        fake.fail_at = Some(fail_at);
        let sensor = Pmw3610::new(1, config());
        assert_eq!(run_health(&mut fake, &sensor, 600), Err(Progress::Failed(Pmw3610Error::Spi)));
        let n = fake.log.len();
        assert_eq!(fake.log[n - 2], RegOp::Write { addr: PMW3610_SPI_PAGE0, value: SPI_PAGE1_0 });
        assert_eq!(
            fake.log[n - 1],
            RegOp::Write { addr: PMW3610_SPI_CLK_ON_REQ, value: SPI_CLOCK_ON_REQ_OFF }
        );
        assert!(!fake.on_page1);
    }
    let mut fake = FakeSensor::new();
    fake.fail_at = Some(0);
    let sensor = Pmw3610::new(1, config());
    assert_eq!(run_health(&mut fake, &sensor, 600), Err(Progress::Failed(Pmw3610Error::Spi)));
    assert_eq!(fake.log.len(), 1);
}

#[test]
fn presence_check_reads_two_registers() {
    let mut task = Pmw3610::new(0, config()).is_configured();
    assert_eq!(task.op(), RegOp::Read { addr: PMW3610_PROD_ID });
    assert_eq!(task.advance(Reply::Value(PRODUCT_ID_PMW3610)), None);
    assert_eq!(task.op(), RegOp::Read { addr: PMW3610_PERFORMANCE });
    assert_eq!(task.advance(Reply::Value(PERFORMANCE_INIT)), Some(true));

    let mut task = ConfiguredTask::start();
    assert_eq!(task.advance(Reply::Failed), Some(false));
    let mut task = ConfiguredTask::start();
    task.advance(Reply::Value(0xff));
    assert_eq!(task.advance(Reply::Value(PERFORMANCE_INIT)), Some(false));
}

#[test]
fn power_mode_keeps_the_other_performance_bits() {
    let mut task = ForceAwakeTask::start(true);
    assert_eq!(task.op(), RegOp::Read { addr: PMW3610_PERFORMANCE });
    task.advance(Reply::Value(0x1d));
    task.advance(Reply::Done);
    task.advance(Reply::Done);
    assert_eq!(task.op(), RegOp::Write { addr: PMW3610_PERFORMANCE, value: 0xfd });
    assert_eq!(task.advance(Reply::Done), Progress::Running);
    assert_eq!(task.advance(Reply::Done), Progress::Complete);
}

#[test]
fn smart_mode_is_read_back() {
    let mut task = SmartModeTask::start(false);
    task.advance(Reply::Done);
    task.advance(Reply::Done);
    assert_eq!(task.op(), RegOp::Write { addr: PMW3610_SMART_MODE, value: SMART_MODE_DISABLE });
    task.advance(Reply::Done);
    task.advance(Reply::Value(0));
    assert_eq!(task.advance(Reply::Done), Progress::Failed(Pmw3610Error::InitFailed));
}

#[test]
fn long_shutter_switches_smart_tracking_off_and_on() {
    let mut sensor = Pmw3610::new(1, config());
    let mut task = sensor.read_motion(false);
    assert_eq!(task.op(), RegOp::ReadBurst { addr: PMW3610_BURST_READ, len: 7 });
    let (_, progress) = task.take_burst_data(&sensor, &[0x80, 1, 2, 0, 40, 0, 46]);
    assert_eq!(progress, MotionProgress::Running);
    assert_eq!(task.advance(&mut sensor, Reply::Done), MotionProgress::Running);
    assert_eq!(task.advance(&mut sensor, Reply::Done), MotionProgress::Running);
    assert_eq!(task.op(), RegOp::Write { addr: PMW3610_SMART_MODE, value: SMART_MODE_DISABLE });
    assert_eq!(task.advance(&mut sensor, Reply::Done), MotionProgress::Running);
    assert_eq!(
        task.advance(&mut sensor, Reply::Done),
        MotionProgress::Complete(MotionData { dx: 1, dy: 2 })
    );
    assert!(sensor.smart_flag);

    let mut task = sensor.read_motion(false);
    let (_, progress) = task.take_burst_data(&sensor, &[0x80, 1, 2, 0, 40, 0, 45]);
    assert_eq!(progress, MotionProgress::Complete(MotionData { dx: 1, dy: 2 }));
    let mut task = sensor.read_motion(false);
    let (_, progress) = task.take_burst_data(&sensor, &[0x80, 1, 2, 0, 40, 0, 44]);
    assert_eq!(progress, MotionProgress::Running);
    assert_eq!(
        task.advance(&mut sensor, Reply::Failed),
        MotionProgress::Failed(PointingDriverError::Spi)
    );
    assert!(sensor.smart_flag);
}

#[test]
fn burst_without_motion_reports_zero() {
    let sensor = Pmw3610::new(1, config());
    let mut task = MotionTask::start(&sensor, false);
    let (reading, progress) = task.take_burst_data(&sensor, &[0x00, 9, 9, 0, 40, 1, 0]);
    assert!(!reading.motion_set);
    assert_eq!(reading.motion, MotionData { dx: 0, dy: 0 });
    assert_eq!(progress, MotionProgress::Complete(MotionData { dx: 0, dy: 0 }));
    let mut plain = config();
    plain.smart_mode = false;
    let quiet = Pmw3610::new(1, plain);
    assert_eq!(
        quiet.read_motion(false).op(),
        RegOp::ReadBurst { addr: PMW3610_BURST_READ, len: 4 }
    );
    assert_eq!(
        quiet.read_motion(true).op(),
        RegOp::ReadBurst { addr: PMW3610_BURST_READ, len: 7 }
    );
}

#[test]
fn bus_operations_expand_to_line_actions() {
    let read = RegOp::Read { addr: 0x85 };
    let actions: Vec<LineAction> = (0..9).filter_map(|i| line_action(read, i)).collect();
    assert_eq!(
        actions,
        vec![
            LineAction::SelectLow,
            LineAction::WaitNs(120),
            LineAction::SendOne(0x05),
            LineAction::WaitUs(4),
            LineAction::Receive(1),
            LineAction::WaitNs(120),
            LineAction::SelectHigh,
            LineAction::WaitNs(250),
        ]
    );
    let write = RegOp::Write { addr: 0x11, value: 7 };
    assert_eq!(line_action(write, 2), Some(LineAction::SendTwo(0x91, 7)));
    assert_eq!(line_action(write, 5), Some(LineAction::WaitUs(30)));
    assert_eq!(line_action(write, 6), None);
    assert_eq!(line_action(RegOp::WaitMs(10), 0), Some(LineAction::WaitMs(10)));
    assert_eq!(line_action(RegOp::Deselect, 0), Some(LineAction::SelectHigh));
    assert_eq!(
        line_action(RegOp::ReadBurst { addr: 0x12, len: 7 }, 4),
        Some(LineAction::Receive(7))
    );
    let task = InitTask::start(&Pmw3610::new(0, config()));
    assert_eq!(task.op(), RegOp::Deselect);
}
