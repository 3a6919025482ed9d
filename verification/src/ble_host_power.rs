//! The connected host link: connection parameters and power saving.

use vstd::prelude::*;

use crate::ble_status::{BleState, BleStatusCell};
use crate::time::{Duration, Instant};

verus! {

/// Slave latency of an idle link: the keyboard may skip this many connection
/// events.
pub const HOST_IDLE_MAX_LATENCY: u16 = 30;

/// Slave latency of a configuration session. With the idle latency every
/// sequential Vial round trip would wait up to 232.5 ms.
pub const HOST_INTERACTIVE_MAX_LATENCY: u16 = 0;

pub const VIAL_LINK_IDLE_TIMEOUT_SECS: u64 = 30;

/// Connection interval that Apple hosts accept.
pub const COMPATIBLE_INTERVAL_MS: u64 = 15;

pub const ACTIVE_INTERVAL_US: u64 = 7_500;

pub const LOW_DUTY_INTERVAL_MS: u64 = 30;

/// Pause before connection parameters are requested, to avoid connection drops.
pub const CONN_PARAMS_DELAY_SECS: u64 = 5;

pub const SUPERVISION_TIMEOUT_SECS: u64 = 5;

/// Two-stage host power saving.
#[derive(Clone, Copy, Debug, PartialEq, Eq, Structural)]
pub struct BleHostPowerConfig {
    pub idle_timeout: Duration,
    pub disconnect_timeout_secs: u64,
}

impl BleHostPowerConfig {
    /// The timeouts fit the clock.
    pub open spec fn wf(self) -> bool {
        self.disconnect_timeout_secs * 1_000_000 <= u64::MAX
    }

    pub open spec fn disconnect_ticks(self) -> int {
        self.disconnect_timeout_secs * 1_000_000
    }

    pub fn new(idle_timeout: Duration, disconnect_timeout_secs: u64) -> (config: BleHostPowerConfig)
        ensures
            config == (BleHostPowerConfig { idle_timeout, disconnect_timeout_secs }),
    {
        BleHostPowerConfig { idle_timeout, disconnect_timeout_secs }
    }

    pub fn disconnect_timeout(&self) -> (timeout: Duration)
        requires
            self.wf(),
        ensures
            timeout.ticks == self.disconnect_ticks(),
    {
        Duration::from_secs(self.disconnect_timeout_secs)
    }
}

#[derive(Clone, Copy, Debug, PartialEq, Eq, Structural)]
pub enum HostPowerTransition {
    EnterIdle,
    Disconnect,
}

#[derive(Clone, Copy, Debug, PartialEq, Eq, Structural)]
pub enum HostPowerTimer {
    Power(HostPowerTransition),
    VialIdle,
}

/// After how long which transition comes: the low-duty link first, unless the
/// link is idle already or is to be dropped before that.
pub open spec fn power_transition(config: BleHostPowerConfig, idle_connection: bool) -> (
    Duration,
    HostPowerTransition,
) {
    if !idle_connection && config.idle_timeout.ticks < config.disconnect_ticks() {
        (config.idle_timeout, HostPowerTransition::EnterIdle)
    } else {
        (Duration { ticks: config.disconnect_ticks() as u64 }, HostPowerTransition::Disconnect)
    }
}

pub fn next_host_power_transition(config: BleHostPowerConfig, idle_connection: bool) -> (next: (
    Duration,
    HostPowerTransition,
))
    requires
        config.wf(),
    ensures
        next == power_transition(config, idle_connection),
{
    let disconnect_timeout = config.disconnect_timeout();
    if !idle_connection && config.idle_timeout.ticks < disconnect_timeout.ticks {
        (config.idle_timeout, HostPowerTransition::EnterIdle)
    } else {
        (disconnect_timeout, HostPowerTransition::Disconnect)
    }
}

/// The deadline of the power policy.
pub open spec fn power_deadline(
    config: BleHostPowerConfig,
    idle_connection: bool,
    last_activity: Instant,
) -> int {
    last_activity.ticks + power_transition(config, idle_connection).0.ticks
}

/// The deadline of a configuration session.
pub open spec fn vial_deadline(last_vial_activity: Instant) -> int {
    last_vial_activity.ticks + 30_000_000
}

/// Which timer fires next, and when.
pub open spec fn power_timer(
    config: BleHostPowerConfig,
    idle_connection: bool,
    last_activity: Instant,
    vial_active: bool,
    last_vial_activity: Instant,
) -> (Instant, HostPowerTimer) {
    let power = power_deadline(config, idle_connection, last_activity);
    if vial_active && vial_deadline(last_vial_activity) < power {
        (Instant { ticks: vial_deadline(last_vial_activity) as u64 }, HostPowerTimer::VialIdle)
    } else {
        (
            Instant { ticks: power as u64 },
            HostPowerTimer::Power(power_transition(config, idle_connection).1),
        )
    }
}

pub fn next_host_power_timer(
    config: BleHostPowerConfig,
    idle_connection: bool,
    last_activity: Instant,
    vial_active: bool,
    last_vial_activity: Instant,
) -> (timer: (Instant, HostPowerTimer))
    requires
        config.wf(),
        power_deadline(config, idle_connection, last_activity) <= u64::MAX,
        vial_deadline(last_vial_activity) <= u64::MAX,
    ensures
        timer == power_timer(
            config,
            idle_connection,
            last_activity,
            vial_active,
            last_vial_activity,
        ),
{
    let (power_after, transition) = next_host_power_transition(config, idle_connection);
    let power_at = last_activity.plus(power_after);
    let vial_at = last_vial_activity.plus(Duration::from_secs(VIAL_LINK_IDLE_TIMEOUT_SECS));
    if vial_active && vial_at.ticks < power_at.ticks {
        (vial_at, HostPowerTimer::VialIdle)
    } else {
        (power_at, HostPowerTimer::Power(transition))
    }
}

// Connection parameters

#[derive(Clone, Copy, Debug, PartialEq, Eq, Structural)]
pub struct RequestedConnParams {
    pub min_connection_interval: Duration,
    pub max_connection_interval: Duration,
    pub max_latency: u16,
    pub min_event_length: Duration,
    pub max_event_length: Duration,
    pub supervision_timeout: Duration,
}

pub open spec fn conn_params(interval_ticks: int, max_latency: u16) -> RequestedConnParams {
    RequestedConnParams {
        min_connection_interval: Duration { ticks: interval_ticks as u64 },
        max_connection_interval: Duration { ticks: interval_ticks as u64 },
        max_latency,
        min_event_length: Duration { ticks: 0 },
        max_event_length: Duration { ticks: 0 },
        supervision_timeout: Duration { ticks: 5_000_000 },
    }
}

impl RequestedConnParams {
    /// Parameters that Bluetooth allows: the interval lies between 7.5 ms and
    /// 4 s, and the supervision timeout outlasts twice the longest silence that
    /// the latency permits.
    pub open spec fn allowed(self) -> bool {
        &&& self.min_connection_interval.ticks <= self.max_connection_interval.ticks
        &&& self.min_connection_interval.ticks >= 7_500
        &&& self.max_connection_interval.ticks <= 4_000_000
        &&& self.max_latency < 500
        &&& self.min_event_length.ticks <= self.max_event_length.ticks
        &&& 100_000 <= self.supervision_timeout.ticks <= 32_000_000
        &&& self.supervision_timeout.ticks > 2 * (self.max_latency + 1)
            * self.max_connection_interval.ticks
    }
}

pub fn host_connection_params(interval: Duration, max_latency: u16) -> (params: RequestedConnParams)
    ensures
        params == conn_params(interval.ticks as int, max_latency),
{
    RequestedConnParams {
        min_connection_interval: interval,
        max_connection_interval: interval,
        max_latency,
        min_event_length: Duration::from_secs(0),
        max_event_length: Duration::from_secs(0),
        supervision_timeout: Duration::from_secs(SUPERVISION_TIMEOUT_SECS),
    }
}

// The task of one connection

/// Why a connection was left.
#[derive(Clone, Copy, Debug, PartialEq, Eq, Structural)]
pub enum BleKeyboardExit {
    Disconnected,
    IdleTimeout,
}

#[derive(Clone, Copy, Debug, PartialEq, Eq, Structural)]
pub enum PowerPhase {
    /// Before the compatible interval is requested.
    Settle,
    RequestCompatible,
    /// Before the short interval is requested.
    SettleAgain,
    RequestShort,
    /// The short interval was refused.
    RequestFallback,
    /// The power policy is to be read.
    Arm,
    Waiting { deadline: Instant, timer: HostPowerTimer },
    /// Parameters are being requested before the next wait.
    Updating { params: RequestedConnParams },
    /// Without a power policy: no configuration session is open.
    VialIdle,
    VialOpening,
    VialSession,
    VialClosing,
    /// Without a power policy and without a host service.
    Forever,
    /// The link is to be dropped until local input.
    Sleeping,
}

#[derive(Clone, Copy, Debug, PartialEq, Eq, Structural)]
pub enum PowerAction {
    WaitSecs(u64),
    UpdateParams(RequestedConnParams),
    ReadPolicy,
    /// Wait for local input, a policy change, a Vial request or the deadline.
    WaitUntil(Instant),
    WaitVial,
    /// Wait for a Vial request, at most this many seconds.
    WaitVialFor(u64),
    WaitForever,
    /// Leave the connection and ask the keyboard to sleep.
    Leave,
}

#[derive(Clone, Copy, Debug, PartialEq, Eq, Structural)]
pub enum PowerEvent {
    Waited,
    ParamsDone { accepted: bool, now: Instant },
    Policy { config: BleHostPowerConfig },
    /// Local input, or the host's request to suspend at once.
    Input { immediate_suspend: bool, now: Instant },
    PolicyChanged,
    VialActivity { now: Instant },
    /// The deadline was reached while USB was the active output or not.
    TimerFired { usb_active: bool, now: Instant },
    VialTimeout,
}

/// Follows one host connection: negotiates its parameters, saves power when
/// nothing happens, and speeds up for configuration sessions.
#[derive(Clone, Copy, Debug, PartialEq, Eq, Structural)]
pub struct HostPowerTask {
    /// The build has a host power policy.
    pub has_policy: bool,
    /// The build has a Vial host service.
    pub has_host: bool,
    pub phase: PowerPhase,
    pub last_activity: Instant,
    pub last_vial_activity: Instant,
    pub idle_connection: bool,
    pub vial_active: bool,
}

impl HostPowerTask {
    pub open spec fn at(self, phase: PowerPhase) -> HostPowerTask {
        HostPowerTask { phase, ..self }
    }

    pub open spec fn due(self) -> PowerAction {
        match self.phase {
            PowerPhase::Settle | PowerPhase::SettleAgain => PowerAction::WaitSecs(5),
            PowerPhase::RequestCompatible => PowerAction::UpdateParams(conn_params(15_000, 30)),
            PowerPhase::RequestShort => PowerAction::UpdateParams(conn_params(7_500, 30)),
            PowerPhase::RequestFallback => PowerAction::UpdateParams(conn_params(15_000, 0)),
            PowerPhase::Arm => PowerAction::ReadPolicy,
            PowerPhase::Waiting { deadline, .. } => PowerAction::WaitUntil(deadline),
            PowerPhase::Updating { params } => PowerAction::UpdateParams(params),
            PowerPhase::VialIdle => PowerAction::WaitVial,
            PowerPhase::VialOpening => PowerAction::UpdateParams(conn_params(7_500, 0)),
            PowerPhase::VialSession => PowerAction::WaitVialFor(30),
            PowerPhase::VialClosing => PowerAction::UpdateParams(conn_params(7_500, 30)),
            PowerPhase::Forever => PowerAction::WaitForever,
            PowerPhase::Sleeping => PowerAction::Leave,
        }
    }

    pub open spec fn answers(self, event: PowerEvent) -> bool {
        match self.due() {
            PowerAction::WaitSecs(_) => event is Waited,
            PowerAction::UpdateParams(_) => event is ParamsDone,
            PowerAction::ReadPolicy => event is Policy,
            PowerAction::WaitUntil(_) => event is Input || event is PolicyChanged
                || event is VialActivity || event is TimerFired,
            PowerAction::WaitVial => event is VialActivity,
            PowerAction::WaitVialFor(_) => event is VialActivity || event is VialTimeout,
            PowerAction::WaitForever => false,
            PowerAction::Leave => false,
        }
    }

    /// The task once the parameters of a fresh connection are settled.
    pub open spec fn settled(self, now: Instant) -> HostPowerTask {
        if self.has_policy {
            HostPowerTask {
                last_activity: now,
                last_vial_activity: now,
                idle_connection: false,
                vial_active: false,
                ..self
            }.at(PowerPhase::Arm)
        } else if self.has_host {
            self.at(PowerPhase::VialIdle)
        } else {
            self.at(PowerPhase::Forever)
        }
    }

    /// Local input at `now` takes an idle link back to its active parameters.
    pub open spec fn after_input(self, now: Instant) -> HostPowerTask {
        let awake = HostPowerTask { last_activity: now, idle_connection: false, ..self };
        if self.idle_connection && !self.vial_active {
            awake.at(PowerPhase::Updating { params: conn_params(7_500, 30) })
        } else {
            awake.at(PowerPhase::Arm)
        }
    }

    /// A Vial request opens a session without latency, or extends it.
    pub open spec fn after_vial(self, now: Instant) -> HostPowerTask {
        let open = HostPowerTask {
            last_activity: now,
            last_vial_activity: now,
            vial_active: true,
            idle_connection: false,
            ..self
        };
        if !self.vial_active || self.idle_connection {
            open.at(PowerPhase::Updating { params: conn_params(7_500, 0) })
        } else {
            open.at(PowerPhase::Arm)
        }
    }

    /// A power transition is put off while USB is the active output.
    pub open spec fn after_timer(self, timer: HostPowerTimer, usb_active: bool, now: Instant) -> HostPowerTask {
        match timer {
            HostPowerTimer::VialIdle => (HostPowerTask { vial_active: false, ..self }).at(
                PowerPhase::Updating { params: conn_params(7_500, 30) },
            ),
            HostPowerTimer::Power(transition) => if usb_active {
                (HostPowerTask { last_activity: now, ..self }).at(PowerPhase::Arm)
            } else if transition == HostPowerTransition::EnterIdle {
                (HostPowerTask { idle_connection: true, ..self }).at(
                    PowerPhase::Updating { params: conn_params(30_000, 30) },
                )
            } else {
                self.at(PowerPhase::Sleeping)
            },
        }
    }

    pub open spec fn next(self, event: PowerEvent) -> HostPowerTask {
        match (self.phase, event) {
            (PowerPhase::Settle, _) => self.at(PowerPhase::RequestCompatible),
            (PowerPhase::RequestCompatible, _) => self.at(PowerPhase::SettleAgain),
            (PowerPhase::SettleAgain, _) => self.at(PowerPhase::RequestShort),
            (PowerPhase::RequestShort, PowerEvent::ParamsDone { accepted, now }) => if accepted {
                self.settled(now)
            } else {
                self.at(PowerPhase::RequestFallback)
            },
            (PowerPhase::RequestFallback, PowerEvent::ParamsDone { now, .. }) => self.settled(now),
            (PowerPhase::Arm, PowerEvent::Policy { config }) => {
                let (deadline, timer) = power_timer(
                    config,
                    self.idle_connection,
                    self.last_activity,
                    self.vial_active,
                    self.last_vial_activity,
                );
                self.at(PowerPhase::Waiting { deadline, timer })
            },
            (PowerPhase::Waiting { .. }, PowerEvent::Input { immediate_suspend, now }) => {
                if immediate_suspend {
                    self.at(PowerPhase::Sleeping)
                } else {
                    self.after_input(now)
                }
            },
            (PowerPhase::Waiting { .. }, PowerEvent::PolicyChanged) => self.at(PowerPhase::Arm),
            (PowerPhase::Waiting { .. }, PowerEvent::VialActivity { now }) => self.after_vial(now),
            (PowerPhase::Waiting { timer, .. }, PowerEvent::TimerFired { usb_active, now }) => {
                self.after_timer(timer, usb_active, now)
            },
            (PowerPhase::Updating { .. }, _) => self.at(PowerPhase::Arm),
            (PowerPhase::VialIdle, _) => self.at(PowerPhase::VialOpening),
            (PowerPhase::VialOpening, _) => self.at(PowerPhase::VialSession),
            (PowerPhase::VialSession, PowerEvent::VialTimeout) => self.at(PowerPhase::VialClosing),
            (PowerPhase::VialClosing, _) => self.at(PowerPhase::VialIdle),
            _ => self,
        }
    }

    pub fn start(has_policy: bool, has_host: bool) -> (task: HostPowerTask)
        ensures
            task == (HostPowerTask {
                has_policy,
                has_host,
                phase: PowerPhase::Settle,
                last_activity: Instant { ticks: 0 },
                last_vial_activity: Instant { ticks: 0 },
                idle_connection: false,
                vial_active: false,
            }),
    {
        HostPowerTask {
            has_policy,
            has_host,
            phase: PowerPhase::Settle,
            last_activity: Instant::earliest(),
            last_vial_activity: Instant::earliest(),
            idle_connection: false,
            vial_active: false,
        }
    }

    pub fn action(&self) -> (action: PowerAction)
        ensures
            action == self.due(),
    {
        match self.phase {
            PowerPhase::Settle | PowerPhase::SettleAgain => {
                PowerAction::WaitSecs(CONN_PARAMS_DELAY_SECS)
            },
            PowerPhase::RequestCompatible => PowerAction::UpdateParams(
                host_connection_params(
                    Duration::from_millis(COMPATIBLE_INTERVAL_MS),
                    HOST_IDLE_MAX_LATENCY,
                ),
            ),
            PowerPhase::RequestShort | PowerPhase::VialClosing => PowerAction::UpdateParams(
                host_connection_params(
                    Duration::from_micros(ACTIVE_INTERVAL_US),
                    HOST_IDLE_MAX_LATENCY,
                ),
            ),
            PowerPhase::RequestFallback => PowerAction::UpdateParams(
                host_connection_params(
                    Duration::from_millis(COMPATIBLE_INTERVAL_MS),
                    HOST_INTERACTIVE_MAX_LATENCY,
                ),
            ),
            PowerPhase::Arm => PowerAction::ReadPolicy,
            PowerPhase::Waiting { deadline, .. } => PowerAction::WaitUntil(deadline),
            PowerPhase::Updating { params } => PowerAction::UpdateParams(params),
            PowerPhase::VialIdle => PowerAction::WaitVial,
            PowerPhase::VialOpening => PowerAction::UpdateParams(
                host_connection_params(
                    Duration::from_micros(ACTIVE_INTERVAL_US),
                    HOST_INTERACTIVE_MAX_LATENCY,
                ),
            ),
            PowerPhase::VialSession => PowerAction::WaitVialFor(VIAL_LINK_IDLE_TIMEOUT_SECS),
            PowerPhase::Forever => PowerAction::WaitForever,
            PowerPhase::Sleeping => PowerAction::Leave,
        }
    }

    fn settle(&mut self, now: Instant)
        ensures
            *final(self) == old(self).settled(now),
    {
        if self.has_policy {
            self.last_activity = now;
            self.last_vial_activity = now;
            self.idle_connection = false;
            self.vial_active = false;
            self.phase = PowerPhase::Arm;
        } else if self.has_host {
            self.phase = PowerPhase::VialIdle;
        } else {
            self.phase = PowerPhase::Forever;
        }
    }

    fn take_input(&mut self, now: Instant)
        ensures
            *final(self) == old(self).after_input(now),
    {
        self.last_activity = now;
        let restore: bool = self.idle_connection && !self.vial_active;
        self.idle_connection = false;
        self.phase = if restore {
            PowerPhase::Updating {
                params: host_connection_params(
                    Duration::from_micros(ACTIVE_INTERVAL_US),
                    HOST_IDLE_MAX_LATENCY,
                ),
            }
        } else {
            PowerPhase::Arm
        };
    }

    fn take_vial(&mut self, now: Instant)
        ensures
            *final(self) == old(self).after_vial(now),
    {
        self.last_activity = now;
        self.last_vial_activity = now;
        let speed_up: bool = !self.vial_active || self.idle_connection;
        self.vial_active = true;
        self.idle_connection = false;
        self.phase = if speed_up {
            PowerPhase::Updating {
                params: host_connection_params(
                    Duration::from_micros(ACTIVE_INTERVAL_US),
                    HOST_INTERACTIVE_MAX_LATENCY,
                ),
            }
        } else {
            PowerPhase::Arm
        };
    }

    fn take_timer(&mut self, timer: HostPowerTimer, usb_active: bool, now: Instant)
        ensures
            *final(self) == old(self).after_timer(timer, usb_active, now),
    {
        match timer {
            HostPowerTimer::VialIdle => {
                self.vial_active = false;
                self.phase = PowerPhase::Updating {
                    params: host_connection_params(
                        Duration::from_micros(ACTIVE_INTERVAL_US),
                        HOST_IDLE_MAX_LATENCY,
                    ),
                };
            },
            HostPowerTimer::Power(transition) => {
                if usb_active {
                    self.last_activity = now;
                    self.phase = PowerPhase::Arm;
                } else {
                    match transition {
                        HostPowerTransition::EnterIdle => {
                            self.idle_connection = true;
                            self.phase = PowerPhase::Updating {
                                params: host_connection_params(
                                    Duration::from_millis(LOW_DUTY_INTERVAL_MS),
                                    HOST_IDLE_MAX_LATENCY,
                                ),
                            };
                        },
                        HostPowerTransition::Disconnect => {
                            self.phase = PowerPhase::Sleeping;
                        },
                    }
                }
            },
        }
    }

    /// Takes what came of the action that was due.
    pub fn advance(&mut self, event: PowerEvent)
        requires
            old(self).answers(event),
            event matches PowerEvent::Policy { config } ==> config.wf() && power_deadline(
                config,
                old(self).idle_connection,
                old(self).last_activity,
            ) <= u64::MAX && vial_deadline(old(self).last_vial_activity) <= u64::MAX,
        ensures
            *final(self) == old(self).next(event),
    {
        let phase = self.phase;
        match event {
            PowerEvent::Waited => {
                self.phase = match phase {
                    PowerPhase::Settle => PowerPhase::RequestCompatible,
                    _ => PowerPhase::RequestShort,
                };
            },
            PowerEvent::ParamsDone { accepted, now } => {
                match phase {
                    PowerPhase::RequestCompatible => {
                        self.phase = PowerPhase::SettleAgain;
                    },
                    PowerPhase::RequestShort => {
                        if accepted {
                            self.settle(now);
                        } else {
                            self.phase = PowerPhase::RequestFallback;
                        }
                    },
                    PowerPhase::RequestFallback => {
                        self.settle(now);
                    },
                    PowerPhase::VialOpening => {
                        self.phase = PowerPhase::VialSession;
                    },
                    PowerPhase::VialClosing => {
                        self.phase = PowerPhase::VialIdle;
                    },
                    _ => {
                        self.phase = PowerPhase::Arm;
                    },
                }
            },
            PowerEvent::Policy { config } => {
                let (deadline, timer) = next_host_power_timer(
                    config,
                    self.idle_connection,
                    self.last_activity,
                    self.vial_active,
                    self.last_vial_activity,
                );
                self.phase = PowerPhase::Waiting { deadline, timer };
            },
            PowerEvent::Input { immediate_suspend, now } => {
                if immediate_suspend {
                    self.phase = PowerPhase::Sleeping;
                } else {
                    self.take_input(now);
                }
            },
            PowerEvent::PolicyChanged => {
                self.phase = PowerPhase::Arm;
            },
            PowerEvent::VialActivity { now } => {
                match phase {
                    PowerPhase::Waiting { .. } => {
                        self.take_vial(now);
                    },
                    PowerPhase::VialIdle => {
                        self.phase = PowerPhase::VialOpening;
                    },
                    _ => {},
                }
            },
            PowerEvent::TimerFired { usb_active, now } => {
                if let PowerPhase::Waiting { timer, .. } = phase {
                    self.take_timer(timer, usb_active, now);
                }
            },
            PowerEvent::VialTimeout => {
                self.phase = PowerPhase::VialClosing;
            },
        }
    }

    /// Leaves the connection: the link counts as sleeping from now on.
    pub fn leave(&self, status: &mut BleStatusCell) -> (exit: BleKeyboardExit)
        requires
            self.phase == PowerPhase::Sleeping,
        ensures
            exit == BleKeyboardExit::IdleTimeout,
            final(status).status.state == BleState::Sleeping,
            final(status).status.profile == old(status).status.profile,
            final(status).advertising_mode == old(status).advertising_mode,
    {
        status.set_ble_state(BleState::Sleeping);
        BleKeyboardExit::IdleTimeout
    }
}

// Laws

/// Every set of connection parameters that the task requests is allowed.
pub open spec fn requests_allowed_params(task: HostPowerTask) -> bool {
    task.due() matches PowerAction::UpdateParams(params) ==> params.allowed()
}

/// Whatever happens on the link, the task only requests parameters that
/// Bluetooth allows.
pub proof fn law_requested_params_are_allowed(task: HostPowerTask, event: PowerEvent)
    requires
        requests_allowed_params(task),
        task.answers(event),
    ensures
        requests_allowed_params(task.next(event)),
{
    lemma_params_allowed(15_000, 30);
    lemma_params_allowed(15_000, 0);
    lemma_params_allowed(7_500, 30);
    lemma_params_allowed(7_500, 0);
    lemma_params_allowed(30_000, 30);
}

/// A new connection starts without a request, so that the law holds from the
/// start.
pub proof fn law_first_step_requests_nothing(task: HostPowerTask)
    requires
        task.phase == PowerPhase::Settle,
    ensures
        requests_allowed_params(task),
{
}

proof fn lemma_params_allowed(interval: int, latency: u16)
    requires
        7_500 <= interval <= 30_000,
        latency <= 30,
    ensures
        conn_params(interval, latency).allowed(),
{
    assert(2 * (latency + 1) * interval <= 2 * 31 * 30_000) by (nonlinear_arith)
        requires
            0 <= interval <= 30_000,
            latency <= 30,
    ;
}

/// A new link is asked for the compatible interval first and for the short one
/// next. Only where the host refuses the short one, the compatible interval
/// without latency takes its place.
pub proof fn law_refused_interval_falls_back(
    task: HostPowerTask,
    first: PowerEvent,
    second: PowerEvent,
)
    requires
        task.phase == PowerPhase::RequestCompatible,
        task.answers(first),
        second is ParamsDone,
    ensures
        task.due() == PowerAction::UpdateParams(conn_params(15_000, HOST_IDLE_MAX_LATENCY)),
        ({
            let short = task.next(first).next(PowerEvent::Waited);
            &&& short.due() == PowerAction::UpdateParams(conn_params(7_500, HOST_IDLE_MAX_LATENCY))
            &&& !second->accepted ==> short.next(second).due() == PowerAction::UpdateParams(
                conn_params(15_000, HOST_INTERACTIVE_MAX_LATENCY),
            )
            &&& second->accepted ==> !(short.next(second).due() is UpdateParams)
        }),
{
}

/// The link is left for two reasons only: the host asked for an immediate
/// suspend, or the disconnect timer fired while USB was not the active output.
pub proof fn law_link_is_left_for_a_reason(task: HostPowerTask, event: PowerEvent)
    requires
        task.answers(event),
    ensures
        task.next(event).phase == PowerPhase::Sleeping <==> {
            ||| event matches PowerEvent::Input { immediate_suspend, .. } && immediate_suspend
            ||| task.phase matches PowerPhase::Waiting { timer, .. } && timer
                == HostPowerTimer::Power(HostPowerTransition::Disconnect) && (
            event matches PowerEvent::TimerFired { usb_active, .. } && !usb_active)
        },
{
}

/// While USB is the active output no idle or disconnect transition happens: the
/// link keeps its parameters and the idle time starts anew.
pub proof fn law_usb_defers_power_transitions(task: HostPowerTask, now: Instant)
    requires
        task.phase matches PowerPhase::Waiting { timer, .. } && timer is Power,
    ensures
        ({
            let rest = task.next(PowerEvent::TimerFired { usb_active: true, now });
            &&& rest.phase == PowerPhase::Arm
            &&& rest.idle_connection == task.idle_connection
            &&& rest.last_activity == now
        }),
{
}

/// The link goes through low duty before it is dropped, wherever the idle
/// timeout comes first.
pub proof fn law_low_duty_precedes_disconnect(config: BleHostPowerConfig)
    requires
        config.wf(),
        config.idle_timeout.ticks < config.disconnect_ticks(),
    ensures
        power_transition(config, false) == (config.idle_timeout, HostPowerTransition::EnterIdle),
        power_transition(config, true).1 == HostPowerTransition::Disconnect,
        power_transition(config, true).0.ticks == config.disconnect_ticks(),
{
}

/// A policy change recalculates the deadline from the same activity: neither
/// the last activity nor the state of the link is lost.
pub proof fn law_policy_change_keeps_activity(task: HostPowerTask)
    requires
        task.phase is Waiting,
    ensures
        task.next(PowerEvent::PolicyChanged) == task.at(PowerPhase::Arm),
{
}

/// A configuration session removes latency and nothing else, and its end
/// restores it.
pub proof fn law_vial_session_only_changes_latency(task: HostPowerTask, now: Instant)
    requires
        task.phase is Waiting,
        !task.vial_active,
    ensures
        task.next(PowerEvent::VialActivity { now }).due() == PowerAction::UpdateParams(
            RequestedConnParams {
                max_latency: HOST_INTERACTIVE_MAX_LATENCY,
                ..conn_params(7_500, HOST_IDLE_MAX_LATENCY)
            },
        ),
        task.after_timer(HostPowerTimer::VialIdle, false, now).due()
            == PowerAction::UpdateParams(conn_params(7_500, HOST_IDLE_MAX_LATENCY)),
{
}

/// Local input brings an idle link back: the active parameters are requested
/// again and the link counts as active.
pub proof fn law_input_restores_the_active_link(task: HostPowerTask, now: Instant)
    requires
        task.phase is Waiting,
        task.idle_connection,
        !task.vial_active,
    ensures
        ({
            let rest = task.next(PowerEvent::Input { immediate_suspend: false, now });
            &&& rest.due() == PowerAction::UpdateParams(conn_params(7_500, HOST_IDLE_MAX_LATENCY))
            &&& !rest.idle_connection
            &&& rest.last_activity == now
        }),
{
}

/// Local input without a suspend makes `now` the last activity, whether the
/// link is idle or not and whether a configuration session is open or not: the
/// deadline read from any policy next is `now` and that policy's timeout. A
/// session that runs out sooner ends first.
pub proof fn law_input_restarts_the_idle_time(
    task: HostPowerTask,
    now: Instant,
    done: PowerEvent,
    config: BleHostPowerConfig,
)
    requires
        task.phase is Waiting,
        done is ParamsDone,
        now.ticks + config.idle_timeout.ticks <= u64::MAX,
        now.ticks + config.disconnect_timeout_secs * 1_000_000 <= u64::MAX,
        task.last_vial_activity.ticks + 30_000_000 <= u64::MAX,
    ensures
        ({
            let rest = task.next(PowerEvent::Input { immediate_suspend: false, now });
            let armed = if rest.due() is UpdateParams {
                rest.next(done)
            } else {
                rest
            };
            let idles = config.idle_timeout.ticks < config.disconnect_timeout_secs * 1_000_000;
            let power_at = now.ticks + (if idles {
                config.idle_timeout.ticks as int
            } else {
                config.disconnect_timeout_secs * 1_000_000
            });
            let vial_at = task.last_vial_activity.ticks + 30_000_000;
            &&& rest.last_activity == now
            &&& !rest.idle_connection
            &&& rest.vial_active == task.vial_active
            &&& rest.last_vial_activity == task.last_vial_activity
            &&& rest.due() is UpdateParams <==> task.idle_connection && !task.vial_active
            &&& armed.due() == PowerAction::ReadPolicy
            &&& armed.next(PowerEvent::Policy { config }).due() matches PowerAction::WaitUntil(at)
                && at.ticks == (if task.vial_active && vial_at < power_at {
                vial_at
            } else {
                power_at
            })
        }),
{
}

/// The wait ends at the sooner of two times: the policy's timeout after the last
/// activity, and half a minute after the last request of an open configuration
/// session. The timer that it remembers is that of the time it waits for: low
/// duty while the link is active and low duty comes before the drop, and the
/// drop otherwise.
pub proof fn law_wait_ends_with_the_sooner_timer(task: HostPowerTask, config: BleHostPowerConfig)
    requires
        task.phase == PowerPhase::Arm,
        task.last_activity.ticks + config.idle_timeout.ticks <= u64::MAX,
        task.last_activity.ticks + config.disconnect_timeout_secs * 1_000_000 <= u64::MAX,
        task.last_vial_activity.ticks + 30_000_000 <= u64::MAX,
    ensures
        ({
            let rest = task.next(PowerEvent::Policy { config });
            let idles = !task.idle_connection && config.idle_timeout.ticks
                < config.disconnect_timeout_secs * 1_000_000;
            let power_at = task.last_activity.ticks + (if idles {
                config.idle_timeout.ticks as int
            } else {
                config.disconnect_timeout_secs * 1_000_000
            });
            let vial_at = task.last_vial_activity.ticks + 30_000_000;
            &&& task.due() == PowerAction::ReadPolicy
            &&& rest == (HostPowerTask { phase: rest.phase, ..task })
            &&& rest.phase is Waiting
            &&& rest.due() == PowerAction::WaitUntil(rest.phase->deadline)
            &&& task.vial_active && vial_at < power_at ==> rest.phase->deadline.ticks == vial_at
                && rest.phase->timer == HostPowerTimer::VialIdle
            &&& !(task.vial_active && vial_at < power_at) ==> rest.phase->deadline.ticks == power_at
                && rest.phase->timer == HostPowerTimer::Power(
                if idles {
                    HostPowerTransition::EnterIdle
                } else {
                    HostPowerTransition::Disconnect
                },
            )
        }),
{
}

/// A new link settles for five seconds, is asked for 15 ms with a latency of
/// 30, settles for five more and is asked for 7.5 ms with that latency. Where
/// the host refuses it, 15 ms without latency takes its place.
pub proof fn law_new_link_is_negotiated(task: HostPowerTask, first: PowerEvent, now: Instant)
    requires
        task.phase == PowerPhase::Settle,
        first is ParamsDone,
    ensures
        ({
            let compatible = task.next(PowerEvent::Waited);
            let settling = compatible.next(first);
            let short = settling.next(PowerEvent::Waited);
            let refused = short.next(PowerEvent::ParamsDone { accepted: false, now });
            &&& task.due() == PowerAction::WaitSecs(5)
            &&& compatible.due() matches PowerAction::UpdateParams(params) && {
                &&& params.min_connection_interval.ticks == 15_000
                &&& params.max_connection_interval.ticks == 15_000
                &&& params.max_latency == 30 && params.supervision_timeout.ticks == 5_000_000
                &&& params.min_event_length.ticks == 0 && params.max_event_length.ticks == 0
            }
            &&& settling.due() == PowerAction::WaitSecs(5)
            &&& short.due() matches PowerAction::UpdateParams(params) && {
                &&& params.min_connection_interval.ticks == 7_500
                &&& params.max_connection_interval.ticks == 7_500
                &&& params.max_latency == 30 && params.supervision_timeout.ticks == 5_000_000
                &&& params.min_event_length.ticks == 0 && params.max_event_length.ticks == 0
            }
            &&& refused.due() matches PowerAction::UpdateParams(params) && {
                &&& params.min_connection_interval.ticks == 15_000
                &&& params.max_connection_interval.ticks == 15_000
                &&& params.max_latency == 0 && params.supervision_timeout.ticks == 5_000_000
                &&& params.min_event_length.ticks == 0 && params.max_event_length.ticks == 0
            }
        }),
{
}

/// Once a link is negotiated, a build with a power policy reads it, with `now`
/// as the last activity of an active link without a session. A build without
/// one waits for configuration requests where it has a host service, and
/// otherwise for nothing.
pub proof fn law_negotiated_link_is_watched(task: HostPowerTask, accepted: bool, now: Instant)
    requires
        task.phase == PowerPhase::RequestFallback || (task.phase == PowerPhase::RequestShort
            && accepted),
    ensures
        ({
            let rest = task.next(PowerEvent::ParamsDone { accepted, now });
            &&& task.has_policy ==> rest == (HostPowerTask {
                phase: PowerPhase::Arm,
                last_activity: now,
                last_vial_activity: now,
                idle_connection: false,
                vial_active: false,
                ..task
            })
            &&& task.has_policy ==> rest.due() == PowerAction::ReadPolicy
            &&& !task.has_policy && task.has_host ==> rest.due() == PowerAction::WaitVial
            &&& !task.has_policy && !task.has_host ==> rest.due() == PowerAction::WaitForever
        }),
{
}

/// A configuration request makes `now` the last activity of the link and of the
/// session, and the link counts as active. 7.5 ms without latency are asked for,
/// unless the link has them already.
pub proof fn law_request_opens_a_session(task: HostPowerTask, now: Instant)
    requires
        task.phase is Waiting,
    ensures
        ({
            let rest = task.next(PowerEvent::VialActivity { now });
            &&& rest.last_activity == now && rest.last_vial_activity == now
            &&& rest.vial_active && !rest.idle_connection
            &&& rest.has_policy == task.has_policy && rest.has_host == task.has_host
            &&& task.vial_active && !task.idle_connection ==> rest.due() == PowerAction::ReadPolicy
            &&& !task.vial_active || task.idle_connection ==> (
            rest.due() matches PowerAction::UpdateParams(params) && {
                &&& params.min_connection_interval.ticks == 7_500
                &&& params.max_connection_interval.ticks == 7_500
                &&& params.max_latency == 0 && params.supervision_timeout.ticks == 5_000_000
                &&& params.min_event_length.ticks == 0 && params.max_event_length.ticks == 0
            })
        }),
{
}

/// A session that ran out gives its latency back and changes nothing else.
pub proof fn law_session_runs_out(task: HostPowerTask, usb_active: bool, now: Instant)
    requires
        task.phase matches PowerPhase::Waiting { timer, .. } && timer == HostPowerTimer::VialIdle,
    ensures
        ({
            let rest = task.next(PowerEvent::TimerFired { usb_active, now });
            &&& rest == (HostPowerTask { phase: rest.phase, vial_active: false, ..task })
            &&& rest.due() matches PowerAction::UpdateParams(params) && {
                &&& params.min_connection_interval.ticks == 7_500
                &&& params.max_connection_interval.ticks == 7_500
                &&& params.max_latency == 30 && params.supervision_timeout.ticks == 5_000_000
                &&& params.min_event_length.ticks == 0 && params.max_event_length.ticks == 0
            }
        }),
{
}

/// While USB is not the active output, the low-duty timer asks for 30 ms with a
/// latency of 30 and the drop timer leaves the link. Neither counts as activity.
pub proof fn law_idle_link_saves_power(
    task: HostPowerTask,
    transition: HostPowerTransition,
    now: Instant,
)
    requires
        task.phase matches PowerPhase::Waiting { timer, .. } && timer == HostPowerTimer::Power(
            transition,
        ),
    ensures
        ({
            let rest = task.next(PowerEvent::TimerFired { usb_active: false, now });
            let deferred = task.next(PowerEvent::TimerFired { usb_active: true, now });
            &&& rest.last_activity == task.last_activity
            &&& rest.last_vial_activity == task.last_vial_activity
            &&& rest.vial_active == task.vial_active
            &&& transition == HostPowerTransition::Disconnect ==> rest.due() == PowerAction::Leave
                && rest.idle_connection == task.idle_connection
            &&& transition == HostPowerTransition::EnterIdle ==> rest.idle_connection && (
            rest.due() matches PowerAction::UpdateParams(params) && {
                &&& params.min_connection_interval.ticks == 30_000
                &&& params.max_connection_interval.ticks == 30_000
                &&& params.max_latency == 30 && params.supervision_timeout.ticks == 5_000_000
                &&& params.min_event_length.ticks == 0 && params.max_event_length.ticks == 0
            })
            &&& deferred == (HostPowerTask { phase: PowerPhase::Arm, last_activity: now, ..task })
        }),
{
}

/// Input brings an idle link without a session back to 7.5 ms with a latency of
/// 30, and a suspend leaves the link at once with everything else unchanged.
pub proof fn law_input_asks_for_the_active_link(task: HostPowerTask, now: Instant)
    requires
        task.phase is Waiting,
    ensures
        ({
            let rest = task.next(PowerEvent::Input { immediate_suspend: false, now });
            let left = task.next(PowerEvent::Input { immediate_suspend: true, now });
            &&& task.idle_connection && !task.vial_active ==> (
            rest.due() matches PowerAction::UpdateParams(params) && {
                &&& params.min_connection_interval.ticks == 7_500
                &&& params.max_connection_interval.ticks == 7_500
                &&& params.max_latency == 30 && params.supervision_timeout.ticks == 5_000_000
                &&& params.min_event_length.ticks == 0 && params.max_event_length.ticks == 0
            })
            &&& !task.idle_connection || task.vial_active ==> rest.due() == PowerAction::ReadPolicy
            &&& left == (HostPowerTask { phase: PowerPhase::Sleeping, ..task })
            &&& left.due() == PowerAction::Leave
        }),
{
}

/// After new parameters, accepted or not, and after a policy change the policy
/// is read again, and nothing is forgotten.
pub proof fn law_policy_is_read_again(task: HostPowerTask, accepted: bool, now: Instant)
    ensures
        task.phase is Updating ==> task.next(PowerEvent::ParamsDone { accepted, now }) == (
        HostPowerTask { phase: PowerPhase::Arm, ..task }),
        task.phase is Waiting ==> task.next(PowerEvent::PolicyChanged) == (HostPowerTask {
            phase: PowerPhase::Arm,
            ..task
        }),
        task.phase == PowerPhase::Arm ==> task.due() == PowerAction::ReadPolicy,
{
}

/// Without a power policy a configuration request asks for 7.5 ms without
/// latency. Half a minute without another request ends the session, which gives
/// the latency of 30 back, and the next request is waited for.
pub proof fn law_session_without_a_policy(
    task: HostPowerTask,
    asked: Instant,
    opened: PowerEvent,
    extended: Instant,
    closed: PowerEvent,
)
    requires
        task.phase == PowerPhase::VialIdle,
        opened is ParamsDone,
        closed is ParamsDone,
    ensures
        ({
            let opening = task.next(PowerEvent::VialActivity { now: asked });
            let session = opening.next(opened);
            let closing = session.next(PowerEvent::VialTimeout);
            &&& task.due() == PowerAction::WaitVial
            &&& opening.due() matches PowerAction::UpdateParams(params) && {
                &&& params.min_connection_interval.ticks == 7_500
                &&& params.max_connection_interval.ticks == 7_500
                &&& params.max_latency == 0 && params.supervision_timeout.ticks == 5_000_000
                &&& params.min_event_length.ticks == 0 && params.max_event_length.ticks == 0
            }
            &&& session.due() == PowerAction::WaitVialFor(30)
            &&& session.next(PowerEvent::VialActivity { now: extended }) == session
            &&& closing.due() matches PowerAction::UpdateParams(params) && {
                &&& params.min_connection_interval.ticks == 7_500
                &&& params.max_connection_interval.ticks == 7_500
                &&& params.max_latency == 30 && params.supervision_timeout.ticks == 5_000_000
                &&& params.min_event_length.ticks == 0 && params.max_event_length.ticks == 0
            }
            &&& closing.next(closed) == task
        }),
{
}

/// A link starts out settling, the task names the action that is due and moves
/// as its events say. Leaving is for idleness and puts the link to sleep.
pub proof fn law_power_task_follows_its_events()
    ensures
        forall|has_policy: bool, has_host: bool, task: HostPowerTask| #[trigger]
            call_ensures(HostPowerTask::start, (has_policy, has_host), task) ==> {
                &&& task.has_policy == has_policy && task.has_host == has_host
                &&& task.phase == PowerPhase::Settle
                &&& !task.idle_connection && !task.vial_active
            },
        forall|task: &HostPowerTask, action: PowerAction| #[trigger]
            call_ensures(HostPowerTask::action, (task,), action) ==> action == (*task).due(),
        forall|task: &mut HostPowerTask, event: PowerEvent| #[trigger]
            call_ensures(HostPowerTask::advance, (task, event), ()) ==> *final(task)
                == (*task).next(event),
        forall|task: &HostPowerTask, status: &mut BleStatusCell, exit: BleKeyboardExit| #[trigger]
            call_ensures(HostPowerTask::leave, (task, status), exit) ==> {
                &&& exit == BleKeyboardExit::IdleTimeout
                &&& final(status).status.state == BleState::Sleeping
                &&& final(status).status.profile == (*status).status.profile
                &&& final(status).advertising_mode == (*status).advertising_mode
            },
{
}

/// The next transition of an active link is low duty after the idle timeout,
/// where that is shorter than the disconnect timeout. Otherwise, and of an idle
/// link always, it is the drop after the disconnect timeout.
pub proof fn law_next_transition_is_the_sooner()
    ensures
        forall|
            config: BleHostPowerConfig,
            idle: bool,
            next: (Duration, HostPowerTransition),
        | #[trigger]
            call_ensures(next_host_power_transition, (config, idle), next)
                && config.disconnect_timeout_secs * 1_000_000 <= u64::MAX ==> {
                let low = !idle && config.idle_timeout.ticks < config.disconnect_timeout_secs
                    * 1_000_000;
                &&& low ==> next.1 == HostPowerTransition::EnterIdle && next.0
                    == config.idle_timeout
                &&& !low ==> next.1 == HostPowerTransition::Disconnect && next.0.ticks
                    == config.disconnect_timeout_secs * 1_000_000
            },
{
}

/// The next timer is that of an open session where it comes before the power
/// transition, and that of the transition otherwise.
pub proof fn law_next_timer_is_the_sooner(config: BleHostPowerConfig, idle: bool, active: Instant)
    requires
        active.ticks + config.idle_timeout.ticks <= u64::MAX,
        active.ticks + config.disconnect_timeout_secs * 1_000_000 <= u64::MAX,
    ensures
        forall|vial: bool, asked: Instant, timer: (Instant, HostPowerTimer)| #[trigger]
            call_ensures(next_host_power_timer, (config, idle, active, vial, asked), timer)
                && asked.ticks + 30_000_000 <= u64::MAX ==> {
                let low = !idle && config.idle_timeout.ticks < config.disconnect_timeout_secs
                    * 1_000_000;
                let power_at = active.ticks + (if low {
                    config.idle_timeout.ticks as int
                } else {
                    config.disconnect_timeout_secs * 1_000_000
                });
                let first = vial && asked.ticks + 30_000_000 < power_at;
                &&& first ==> timer.0.ticks == asked.ticks + 30_000_000 && timer.1
                    == HostPowerTimer::VialIdle
                &&& !first ==> timer.0.ticks == power_at && timer.1 == HostPowerTimer::Power(
                    if low {
                        HostPowerTransition::EnterIdle
                    } else {
                        HostPowerTransition::Disconnect
                    },
                )
            },
{
}

/// Requested parameters ask for the one interval and latency they were made
/// for, without a reserved length, and for a supervision timeout of five
/// seconds.
pub proof fn law_params_ask_for_one_interval()
    ensures
        forall|interval: Duration, latency: u16, params: RequestedConnParams| #[trigger]
            call_ensures(host_connection_params, (interval, latency), params) ==> {
                &&& params.min_connection_interval == interval
                &&& params.max_connection_interval == interval
                &&& params.max_latency == latency
                &&& params.min_event_length.ticks == 0 && params.max_event_length.ticks == 0
                &&& params.supervision_timeout.ticks == 5_000_000
            },
        forall|config: &BleHostPowerConfig, timeout: Duration| #[trigger]
            call_ensures(BleHostPowerConfig::disconnect_timeout, (config,), timeout)
                ==> timeout.ticks == (*config).disconnect_timeout_secs * 1_000_000,
{
}

} // verus!
