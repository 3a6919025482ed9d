//! Advertising: what the keyboard announces, for whom and for how long.

use vstd::prelude::*;

use crate::ble_status::{BleAdvertisingMode, BleState, BleStatusCell};
use crate::time::Duration;

verus! {

pub const DIRECTED_RECONNECT_WINDOW_MS: u64 = 1_300;

pub const FAST_ADVERTISING_TIMEOUT_SECS: u64 = 30;

pub const FAST_ADVERTISING_INTERVAL_MS: u64 = 30;

pub const SLOW_ADVERTISING_INTERVAL_MS: u64 = 200;

/// Pause before advertising, so that USB is checked first.
pub const ADVERTISING_START_DELAY_MS: u64 = 10;

/// Flags of the advertisement: generally discoverable (0x02), and low energy
/// only (0x04).
pub const ADVERTISING_FLAGS: u8 = 0x06;

/// Assigned number of the battery service.
pub const BATTERY_SERVICE: u16 = 0x180f;

/// Assigned number of the human interface device service.
pub const HID_SERVICE: u16 = 0x1812;

/// Assigned appearance of a keyboard.
pub const KEYBOARD_APPEARANCE: u16 = 0x03c1;

/// Type of the appearance structure.
pub const APPEARANCE_AD_TYPE: u8 = 0x19;

/// Errors of the BLE host that advertising and link control tell apart.
#[derive(Clone, Copy, Debug, PartialEq, Eq, Structural)]
pub enum HostError {
    Timeout,
    Disconnected,
    InsufficientSpace,
    /// An HCI status.
    Hci(u8),
    Other,
}

pub open spec fn low_byte(value: u16) -> u8 {
    (value % 256) as u8
}

pub open spec fn high_byte(value: u16) -> u8 {
    (value / 256) as u8
}

/// The advertisement structures for flags, two services, a name and one
/// two-byte structure, one after the other.
pub open spec fn advertisement_bytes(
    flags: u8,
    first_service: u16,
    second_service: u16,
    name: Seq<u8>,
    ty: u8,
    value: u16,
) -> Seq<u8> {
    seq![0x02u8, 0x01u8, flags] + seq![
        0x05u8,
        0x03u8,
        low_byte(first_service),
        high_byte(first_service),
        low_byte(second_service),
        high_byte(second_service),
    ] + seq![(name.len() + 1) as u8, 0x09u8] + name + seq![
        0x03u8,
        ty,
        low_byte(value),
        high_byte(value),
    ]
}

/// Calls `trouble_host::advertise::AdStructure::encode_slice` on the flags, the
/// complete list of two services, the complete name and one more structure. It
/// writes them from the start of the buffer and leaves the rest of the buffer
/// alone, unless they do not fit. What a buffer holds after a failure is not
/// said.
#[verifier::external_body]
fn encode_advertisement(
    flags: u8,
    first_service: u16,
    second_service: u16,
    name: &[u8],
    ty: u8,
    value: u16,
    dest: &mut [u8; 31],
) -> (encoded: bool)
    ensures
        encoded == (advertisement_bytes(
            flags,
            first_service,
            second_service,
            name@,
            ty,
            value,
        ).len() <= 31),
        encoded ==> final(dest)@ == advertisement_bytes(
            flags,
            first_service,
            second_service,
            name@,
            ty,
            value,
        ) + old(dest)@.skip(
            advertisement_bytes(
                flags,
                first_service,
                second_service,
                name@,
                ty,
                value,
            ).len() as int,
        ),
{
    let structures = [
        trouble_host::advertise::AdStructure::Flags(flags),
        trouble_host::advertise::AdStructure::CompleteServiceUuids16(
            &[first_service.to_le_bytes(), second_service.to_le_bytes()],
        ),
        trouble_host::advertise::AdStructure::CompleteLocalName(name),
        trouble_host::advertise::AdStructure::Unknown { ty, data: &value.to_le_bytes() },
    ];
    trouble_host::advertise::AdStructure::encode_slice(&structures, dest).is_ok()
}

/// What a keyboard of this name advertises.
pub open spec fn keyboard_advertisement(name: Seq<u8>) -> Seq<u8> {
    advertisement_bytes(
        ADVERTISING_FLAGS,
        BATTERY_SERVICE,
        HID_SERVICE,
        name,
        APPEARANCE_AD_TYPE,
        KEYBOARD_APPEARANCE,
    )
}

/// The advertisement of a keyboard, padded with zeros. Names of more than
/// sixteen bytes leave no room for the rest.
pub fn advertiser_data(name: &[u8]) -> (data: Result<[u8; 31], HostError>)
    ensures
        name@.len() <= 16 ==> data is Ok && data->Ok_0@ == keyboard_advertisement(name@) + Seq::new(
            (16 - name@.len()) as nat,
            |i: int| 0u8,
        ),
        name@.len() > 16 ==> data is Err && data->Err_0 == HostError::InsufficientSpace,
{
    let mut data: [u8; 31] = [0;31];
    if encode_advertisement(
        ADVERTISING_FLAGS,
        BATTERY_SERVICE,
        HID_SERVICE,
        name,
        APPEARANCE_AD_TYPE,
        KEYBOARD_APPEARANCE,
        &mut data,
    ) {
        proof {
            let zeros = Seq::new(31, |i: int| 0u8);
            assert(zeros.skip((15 + name@.len()) as int) =~= Seq::new(
                (16 - name@.len()) as nat,
                |i: int| 0u8,
            ));
            assert(data@ =~= keyboard_advertisement(name@) + Seq::new(
                (16 - name@.len()) as nat,
                |i: int| 0u8,
            ));
        }
        Ok(data)
    } else {
        Err(HostError::InsufficientSpace)
    }
}

// Windows

#[derive(Clone, Copy, Debug, PartialEq, Eq, Structural)]
pub enum WindowKind {
    /// For the bonded host only, as densely as possible.
    DirectedHighDuty,
    /// For the bonded host only.
    Directed,
    /// For any host.
    Undirected,
}

/// A stretch of advertising.
#[derive(Clone, Copy, Debug, PartialEq, Eq, Structural)]
pub struct Window {
    pub kind: WindowKind,
    /// Advertising interval in milliseconds.
    pub interval_ms: u64,
    pub timeout: Duration,
}

pub open spec fn window(kind: WindowKind, interval_ms: u64, timeout_ticks: int) -> Window {
    Window { kind, interval_ms, timeout: Duration { ticks: timeout_ticks as u64 } }
}

pub open spec fn least(a: int, b: int) -> int {
    if a < b {
        a
    } else {
        b
    }
}

/// The advertising mode for a profile.
pub fn advertising_mode(has_active_bond: bool) -> (mode: BleAdvertisingMode)
    ensures
        mode == (if has_active_bond {
            BleAdvertisingMode::Reconnecting
        } else {
            BleAdvertisingMode::Pairing
        }),
{
    if has_active_bond {
        BleAdvertisingMode::Reconnecting
    } else {
        BleAdvertisingMode::Pairing
    }
}

/// How long a profile stays open for pairing: not at all with a bond, and for
/// the reconnect timeout where no pairing timeout is configured.
pub open spec fn pairing_window(
    has_active_bond: bool,
    configured_pairing_timeout_secs: u64,
    reconnect_timeout_secs: u64,
) -> Option<u64> {
    if has_active_bond {
        None
    } else if configured_pairing_timeout_secs == 0 {
        Some(reconnect_timeout_secs)
    } else {
        Some(configured_pairing_timeout_secs)
    }
}

pub fn pairing_window_timeout_secs(
    has_active_bond: bool,
    configured_pairing_timeout_secs: u64,
    reconnect_timeout_secs: u64,
) -> (timeout: Option<u64>)
    ensures
        timeout == pairing_window(
            has_active_bond,
            configured_pairing_timeout_secs,
            reconnect_timeout_secs,
        ),
{
    if has_active_bond {
        None
    } else if configured_pairing_timeout_secs == 0 {
        Some(reconnect_timeout_secs)
    } else {
        Some(configured_pairing_timeout_secs)
    }
}

/// A directed attempt that merely timed out goes on with a slower one.
pub fn directed_reconnect_should_continue(error: &HostError) -> (go_on: bool)
    ensures
        go_on == (*error == HostError::Timeout),
{
    match error {
        HostError::Timeout => true,
        _ => false,
    }
}

/// The windows for a bonded host: first a short dense one, then the rest of the
/// reconnect timeout at a slower pace.
pub open spec fn reconnect_windows(reconnect_secs: int) -> Seq<Window> {
    let total = reconnect_secs * 1_000_000;
    let dense = least(total, 1_300_000);
    if total == 0 {
        Seq::empty()
    } else if total > dense {
        seq![
            window(WindowKind::DirectedHighDuty, 30, dense),
            window(WindowKind::Directed, 200, total - dense),
        ]
    } else {
        seq![window(WindowKind::DirectedHighDuty, 30, dense)]
    }
}

/// The windows for pairing: up to half a minute fast, the rest slow.
pub open spec fn pairing_windows(pairing_secs: int) -> Seq<Window> {
    let total = pairing_secs * 1_000_000;
    let fast = least(total, 30_000_000);
    if total == 0 {
        Seq::empty()
    } else if total > fast {
        seq![
            window(WindowKind::Undirected, 30, fast),
            window(WindowKind::Undirected, 200, total - fast),
        ]
    } else {
        seq![window(WindowKind::Undirected, 30, fast)]
    }
}

/// What became of a window.
#[derive(Clone, Copy, Debug, PartialEq, Eq, Structural)]
pub enum WindowOutcome {
    Connected,
    /// The window elapsed.
    Elapsed,
    /// The host stack gave up the attempt.
    Failed(HostError),
    /// Advertising could not be started.
    NotStarted(HostError),
}

#[derive(Clone, Copy, Debug, PartialEq, Eq, Structural)]
pub enum AdvertiseProgress {
    /// Open the next window.
    Running,
    Connected,
    Failed(HostError),
}

/// One attempt to get a host to connect.
#[derive(Clone, Copy, Debug, PartialEq, Eq, Structural)]
pub struct AdvertiseTask {
    pub has_active_peer: bool,
    pub reconnect_timeout_secs: u32,
    pub pairing_timeout_secs: u32,
    /// Windows that have passed.
    pub passed: usize,
}

impl AdvertiseTask {
    /// The windows of this attempt, in order.
    pub open spec fn windows(self) -> Seq<Window> {
        if self.has_active_peer {
            reconnect_windows(self.reconnect_timeout_secs as int)
        } else if self.pairing_timeout_secs == 0 {
            pairing_windows(self.reconnect_timeout_secs as int)
        } else {
            pairing_windows(self.pairing_timeout_secs as int)
        }
    }

    pub open spec fn wf(self) -> bool {
        self.passed < self.windows().len()
    }

    /// The attempt once a window has passed without a connection.
    pub open spec fn after_window(self) -> (AdvertiseTask, AdvertiseProgress) {
        if self.passed + 1 < self.windows().len() {
            (
                AdvertiseTask { passed: (self.passed + 1) as usize, ..self },
                AdvertiseProgress::Running,
            )
        } else {
            (self, AdvertiseProgress::Failed(HostError::Timeout))
        }
    }

    pub open spec fn next(self, outcome: WindowOutcome) -> (AdvertiseTask, AdvertiseProgress) {
        match outcome {
            WindowOutcome::Connected => (self, AdvertiseProgress::Connected),
            WindowOutcome::Elapsed => self.after_window(),
            WindowOutcome::NotStarted(error) => (self, AdvertiseProgress::Failed(error)),
            WindowOutcome::Failed(error) => if self.windows()[self.passed as int].kind
                == WindowKind::DirectedHighDuty && error == HostError::Timeout {
                self.after_window()
            } else {
                (self, AdvertiseProgress::Failed(error))
            },
        }
    }

    /// Starts an attempt: encodes what is advertised, and publishes the mode and
    /// the state. While waking from sleep the state stays as it is, so that the
    /// first reports wait for the host.
    ///
    /// Fails with `InsufficientSpace`, before anything is published, where the
    /// name is too long, and with `Timeout` where no window is open at all.
    pub fn start(
        name: &[u8],
        has_active_peer: bool,
        resuming_from_sleep: bool,
        reconnect_timeout_secs: u32,
        pairing_timeout_secs: u32,
        status: &mut BleStatusCell,
    ) -> (started: Result<(AdvertiseTask, [u8; 31]), HostError>)
        ensures
            ({
                let task = AdvertiseTask {
                    has_active_peer,
                    reconnect_timeout_secs,
                    pairing_timeout_secs,
                    passed: 0,
                };
                &&& name@.len() > 16 ==> started is Err && started->Err_0
                    == HostError::InsufficientSpace && *final(status) == *old(status)
                &&& name@.len() <= 16 ==> {
                    &&& final(status).advertising_mode == (if has_active_peer {
                        BleAdvertisingMode::Reconnecting
                    } else {
                        BleAdvertisingMode::Pairing
                    })
                    &&& final(status).status.profile == old(status).status.profile
                    &&& final(status).status.state == (if resuming_from_sleep {
                        old(status).status.state
                    } else {
                        BleState::Advertising
                    })
                    &&& task.windows().len() == 0 ==> started is Err && started->Err_0
                        == HostError::Timeout
                    &&& task.windows().len() > 0 ==> started is Ok && started->Ok_0.0 == task
                        && task.wf() && started->Ok_0.1@ == keyboard_advertisement(name@)
                        + Seq::new((16 - name@.len()) as nat, |i: int| 0u8)
                }
            }),
    {
        let data = match advertiser_data(name) {
            Ok(data) => data,
            Err(error) => {
                return Err(error);
            },
        };
        status.set_ble_advertising_mode(advertising_mode(has_active_peer));
        if !resuming_from_sleep {
            status.set_ble_state(BleState::Advertising);
        }
        let task = AdvertiseTask {
            has_active_peer,
            reconnect_timeout_secs,
            pairing_timeout_secs,
            passed: 0,
        };
        match task.window_at(0) {
            Some(_) => Ok((task, data)),
            None => Err(HostError::Timeout),
        }
    }

    fn window_at(&self, index: usize) -> (found: Option<Window>)
        ensures
            found == (if index < self.windows().len() {
                Some(self.windows()[index as int])
            } else {
                None
            }),
    {
        if self.has_active_peer {
            self.reconnect_window_at(index)
        } else {
            self.pairing_window_at(index)
        }
    }

    fn reconnect_window_at(&self, index: usize) -> (found: Option<Window>)
        ensures
            ({
                let windows = reconnect_windows(self.reconnect_timeout_secs as int);
                found == (if index < windows.len() {
                    Some(windows[index as int])
                } else {
                    None
                })
            }),
    {
        let reconnect_timeout_ms: u64 = self.reconnect_timeout_secs as u64 * 1_000;
        let high_duty_window_ms: u64 = if reconnect_timeout_ms < DIRECTED_RECONNECT_WINDOW_MS {
            reconnect_timeout_ms
        } else {
            DIRECTED_RECONNECT_WINDOW_MS
        };
        let remaining_reconnect_ms: u64 = reconnect_timeout_ms - high_duty_window_ms;
        if index == 0 && high_duty_window_ms > 0 {
            Some(
                Window {
                    kind: WindowKind::DirectedHighDuty,
                    interval_ms: FAST_ADVERTISING_INTERVAL_MS,
                    timeout: Duration::from_millis(high_duty_window_ms),
                },
            )
        } else if index == 1 && remaining_reconnect_ms > 0 {
            Some(
                Window {
                    kind: WindowKind::Directed,
                    interval_ms: SLOW_ADVERTISING_INTERVAL_MS,
                    timeout: Duration::from_millis(remaining_reconnect_ms),
                },
            )
        } else {
            None
        }
    }

    fn pairing_window_at(&self, index: usize) -> (found: Option<Window>)
        ensures
            ({
                let windows = pairing_windows(
                    if self.pairing_timeout_secs == 0 {
                        self.reconnect_timeout_secs as int
                    } else {
                        self.pairing_timeout_secs as int
                    },
                );
                found == (if index < windows.len() {
                    Some(windows[index as int])
                } else {
                    None
                })
            }),
    {
        let total_secs: u64 = match pairing_window_timeout_secs(
            false,
            self.pairing_timeout_secs as u64,
            self.reconnect_timeout_secs as u64,
        ) {
            Some(secs) => secs,
            None => 0,
        };
        let fast_secs: u64 = if total_secs < FAST_ADVERTISING_TIMEOUT_SECS {
            total_secs
        } else {
            FAST_ADVERTISING_TIMEOUT_SECS
        };
        let slow_secs: u64 = total_secs - fast_secs;
        if index == 0 && total_secs > 0 {
            Some(
                Window {
                    kind: WindowKind::Undirected,
                    interval_ms: FAST_ADVERTISING_INTERVAL_MS,
                    timeout: Duration::from_secs(fast_secs),
                },
            )
        } else if index == 1 && slow_secs > 0 {
            Some(
                Window {
                    kind: WindowKind::Undirected,
                    interval_ms: SLOW_ADVERTISING_INTERVAL_MS,
                    timeout: Duration::from_secs(slow_secs),
                },
            )
        } else {
            None
        }
    }

    /// The window to open.
    pub fn current_window(&self) -> (current: Window)
        requires
            self.wf(),
        ensures
            current == self.windows()[self.passed as int],
    {
        match self.window_at(self.passed) {
            Some(current) => current,
            None => vstd::pervasive::unreached(),
        }
    }

    /// Takes what became of the current window.
    pub fn advance(&mut self, outcome: WindowOutcome) -> (progress: AdvertiseProgress)
        requires
            old(self).wf(),
        ensures
            (*final(self), progress) == old(self).next(outcome),
            progress is Running ==> final(self).wf(),
    {
        match outcome {
            WindowOutcome::Connected => AdvertiseProgress::Connected,
            WindowOutcome::NotStarted(error) => AdvertiseProgress::Failed(error),
            WindowOutcome::Failed(error) => {
                if self.current_window().kind == WindowKind::DirectedHighDuty
                    && directed_reconnect_should_continue(&error) {
                    self.pass_window()
                } else {
                    AdvertiseProgress::Failed(error)
                }
            },
            WindowOutcome::Elapsed => self.pass_window(),
        }
    }

    fn pass_window(&mut self) -> (progress: AdvertiseProgress)
        requires
            old(self).wf(),
        ensures
            (*final(self), progress) == old(self).after_window(),
            progress is Running ==> final(self).wf(),
    {
        match self.window_at(self.passed + 1) {
            Some(_) => {
                self.passed = self.passed + 1;
                AdvertiseProgress::Running
            },
            None => AdvertiseProgress::Failed(HostError::Timeout),
        }
    }
}

/// How long a series of windows is open in total.
pub open spec fn total_ticks(windows: Seq<Window>) -> int
    decreases windows.len(),
{
    if windows.len() == 0 {
        0
    } else {
        total_ticks(windows.drop_last()) + windows.last().timeout.ticks
    }
}

/// A bonded profile never becomes discoverable for a new host: every window
/// that it opens is directed at the bonded host.
pub proof fn law_bonded_profile_never_pairs(task: AdvertiseTask, i: int)
    requires
        task.has_active_peer,
        0 <= i < task.windows().len(),
    ensures
        task.windows()[i].kind != WindowKind::Undirected,
{
}

/// A profile without a bond is open for any host in every window.
pub proof fn law_unbonded_profile_is_discoverable(task: AdvertiseTask, i: int)
    requires
        !task.has_active_peer,
        0 <= i < task.windows().len(),
    ensures
        task.windows()[i].kind == WindowKind::Undirected,
{
}

/// The windows of an attempt fill the configured timeout exactly: the reconnect
/// timeout for a bonded host, the pairing window otherwise.
pub proof fn law_windows_fill_the_timeout(task: AdvertiseTask)
    ensures
        total_ticks(task.windows()) == 1_000_000 * (if task.has_active_peer {
            task.reconnect_timeout_secs as int
        } else {
            pairing_window(
                false,
                task.pairing_timeout_secs as u64,
                task.reconnect_timeout_secs as u64,
            )->0 as int
        }),
{
    reveal_with_fuel(total_ticks, 3);
    let windows = task.windows();
    if windows.len() == 2 {
        assert(windows.drop_last() =~= seq![windows[0]]);
        assert(windows.drop_last().drop_last() =~= Seq::empty());
    } else if windows.len() == 1 {
        assert(windows.drop_last() =~= Seq::empty());
    }
}

/// An attempt ends: after each window that passes one window fewer is left, and
/// the last one ends it with a timeout.
pub proof fn law_attempt_ends(task: AdvertiseTask, outcome: WindowOutcome)
    requires
        task.wf(),
    ensures
        task.next(outcome).1 is Running ==> task.next(outcome).0.passed == task.passed + 1
            && task.next(outcome).0.wf(),
        outcome == WindowOutcome::Elapsed && task.passed + 1 == task.windows().len()
            ==> task.next(outcome).1 == AdvertiseProgress::Failed(HostError::Timeout),
{
}

/// An advertisement says that the keyboard is generally discoverable and low
/// energy only, lists the battery and the HID service, gives the complete name
/// and ends with the appearance of a keyboard.
pub proof fn law_advertisement_announces_a_keyboard(name: Seq<u8>, i: int)
    requires
        name.len() <= 16,
        0 <= i < name.len(),
    ensures
        ({
            let data = keyboard_advertisement(name);
            let end = 11 + name.len() as int;
            &&& data.len() == 15 + name.len()
            &&& data[0] == 2 && data[1] == 0x01 && data[2] == 0x06
            &&& data[3] == 5 && data[4] == 0x03
            &&& data[5] == 0x0f && data[6] == 0x18 && data[7] == 0x12 && data[8] == 0x18
            &&& data[9] == name.len() + 1 && data[10] == 0x09
            &&& data[11 + i] == name[i]
            &&& data[end] == 3 && data[end + 1] == 0x19
            &&& data[end + 2] == 0xc1 && data[end + 3] == 0x03
        }),
{
}

/// A bonded host is looked for in a dense window of at most 1.3 s, and for the
/// rest of the reconnect timeout in a window with an advertisement every
/// 200 ms. Both are for that host alone.
pub proof fn law_bonded_host_is_called_densely_first(task: AdvertiseTask)
    requires
        task.has_active_peer,
    ensures
        ({
            let windows = task.windows();
            let secs = task.reconnect_timeout_secs;
            &&& secs == 0 ==> windows.len() == 0
            &&& secs == 1 ==> windows.len() == 1 && windows[0].timeout.ticks == 1_000_000
            &&& secs >= 2 ==> windows.len() == 2 && windows[0].timeout.ticks == 1_300_000
                && windows[1].timeout.ticks == secs * 1_000_000 - 1_300_000
                && windows[1].interval_ms == 200 && windows[1].kind == WindowKind::Directed
            &&& secs >= 1 ==> windows[0].kind == WindowKind::DirectedHighDuty
                && windows[0].interval_ms == 30
        }),
{
}

/// Without a bond the keyboard is open for any host, every 30 ms for up to half a
/// minute and every 200 ms for the rest of the pairing timeout. Where no pairing
/// timeout is configured, the reconnect timeout takes its place.
pub proof fn law_pairing_is_fast_first(task: AdvertiseTask, secs: int)
    requires
        !task.has_active_peer,
        secs == (if task.pairing_timeout_secs == 0 {
            task.reconnect_timeout_secs
        } else {
            task.pairing_timeout_secs
        }),
    ensures
        ({
            let windows = task.windows();
            &&& secs == 0 ==> windows.len() == 0
            &&& 1 <= secs <= 30 ==> windows.len() == 1 && windows[0].timeout.ticks == secs
                * 1_000_000
            &&& secs > 30 ==> windows.len() == 2 && windows[0].timeout.ticks == 30_000_000
                && windows[1].timeout.ticks == (secs - 30) * 1_000_000 && windows[1].interval_ms
                == 200 && windows[1].kind == WindowKind::Undirected
            &&& secs >= 1 ==> windows[0].kind == WindowKind::Undirected && windows[0].interval_ms
                == 30
        }),
{
}

/// A window that elapsed is followed by the next one, or by a timeout after the
/// last. A host that connects ends the attempt, and so does a window that could
/// not be opened.
pub proof fn law_windows_follow_each_other(task: AdvertiseTask, error: HostError)
    ensures
        task.next(WindowOutcome::Connected).1 == AdvertiseProgress::Connected,
        task.next(WindowOutcome::NotStarted(error)).1 == AdvertiseProgress::Failed(error),
        task.passed + 1 < task.windows().len() ==> task.next(WindowOutcome::Elapsed) == (
            AdvertiseTask { passed: (task.passed + 1) as usize, ..task },
            AdvertiseProgress::Running,
        ),
        task.passed + 1 >= task.windows().len() ==> task.next(WindowOutcome::Elapsed).1
            == AdvertiseProgress::Failed(HostError::Timeout),
{
}

/// The host stack may give a dense window up: a timeout there counts as an
/// elapsed window. Anything else that it reports ends the attempt with that
/// error.
pub proof fn law_dense_window_may_time_out(task: AdvertiseTask, error: HostError)
    requires
        task.passed < task.windows().len(),
    ensures
        ({
            let dense = task.windows()[task.passed as int].kind == WindowKind::DirectedHighDuty;
            &&& dense && error == HostError::Timeout ==> task.next(WindowOutcome::Failed(error))
                == task.next(WindowOutcome::Elapsed)
            &&& !dense || error != HostError::Timeout ==> task.next(WindowOutcome::Failed(error)).1
                == AdvertiseProgress::Failed(error)
        }),
{
}

/// A bonded profile opens no pairing window. Another is open for its configured
/// time, or for the reconnect timeout where that is zero.
pub proof fn law_pairing_window_falls_back(configured: u64, reconnect: u64)
    ensures
        pairing_window(true, configured, reconnect) is None,
        configured > 0 ==> pairing_window(false, configured, reconnect) == Some(configured),
        pairing_window(false, 0, reconnect) == Some(reconnect),
{
}

/// The advertising mode tells a bonded profile from an open one.
pub proof fn law_mode_tells_the_bond(bonded: bool, mode: BleAdvertisingMode)
    requires
        call_ensures(advertising_mode, (bonded,), mode),
    ensures
        mode == BleAdvertisingMode::Reconnecting <==> bonded,
{
}

/// An advertisement of a name of up to sixteen bytes is encoded and padded with
/// zeros to 31 bytes; a longer name leaves no room.
pub proof fn law_advertisement_is_padded(i: int)
    requires
        0 <= i < 31,
    ensures
        forall|name: &[u8], data: Result<[u8; 31], HostError>| #[trigger]
            call_ensures(advertiser_data, (name,), data) ==> {
                &&& name@.len() > 16 ==> data is Err && data->Err_0 == HostError::InsufficientSpace
                &&& name@.len() <= 16 ==> data is Ok && (i < 15 + name@.len() ==> data->Ok_0@[i]
                    == keyboard_advertisement(name@)[i]) && (i >= 15 + name@.len()
                    ==> data->Ok_0@[i] == 0)
            },
{
}

/// An attempt begins with its first window and publishes whom it is for. Waking
/// up leaves the state of the link alone, and any other attempt advertises. A
/// name that is too long publishes nothing, and an attempt without a window
/// fails at once.
pub proof fn law_attempt_begins_with_its_windows(
    bonded: bool,
    resuming: bool,
    reconnect: u32,
    pairing: u32,
)
    ensures
        forall|
            name: &[u8],
            status: &mut BleStatusCell,
            started: Result<(AdvertiseTask, [u8; 31]), HostError>,
        | #[trigger]
            call_ensures(
                AdvertiseTask::start,
                (name, bonded, resuming, reconnect, pairing, status),
                started,
            ) ==> {
                let no_window = reconnect == 0 && (bonded || pairing == 0);
                &&& name@.len() > 16 ==> *final(status) == *status && started is Err
                    && started->Err_0 == HostError::InsufficientSpace
                &&& name@.len() <= 16 ==> {
                    &&& bonded ==> final(status).advertising_mode
                        == BleAdvertisingMode::Reconnecting
                    &&& !bonded ==> final(status).advertising_mode == BleAdvertisingMode::Pairing
                    &&& resuming ==> final(status).status.state == (*status).status.state
                    &&& !resuming ==> final(status).status.state == BleState::Advertising
                    &&& final(status).status.profile == (*status).status.profile
                    &&& no_window ==> started is Err && started->Err_0 == HostError::Timeout
                    &&& !no_window ==> started is Ok && started->Ok_0.0 == (AdvertiseTask {
                        has_active_peer: bonded,
                        reconnect_timeout_secs: reconnect,
                        pairing_timeout_secs: pairing,
                        passed: 0,
                    })
                }
            },
{
}

/// The window to open is the one that the attempt has come to, and the attempt
/// moves as the outcome of its windows says.
pub proof fn law_attempt_follows_its_windows()
    ensures
        forall|task: &AdvertiseTask, current: Window| #[trigger]
            call_ensures(AdvertiseTask::current_window, (task,), current) ==> current
                == (*task).windows()[(*task).passed as int],
        forall|task: &mut AdvertiseTask, outcome: WindowOutcome, progress: AdvertiseProgress|
         #[trigger]
            call_ensures(AdvertiseTask::advance, (task, outcome), progress) ==> (
                *final(task),
                progress,
            ) == (*task).next(outcome),
        forall|bonded: bool, configured: u64, reconnect: u64, timeout: Option<u64>| #[trigger]
            call_ensures(pairing_window_timeout_secs, (bonded, configured, reconnect), timeout)
                ==> timeout == pairing_window(bonded, configured, reconnect),
        forall|error: &HostError, go_on: bool| #[trigger]
            call_ensures(directed_reconnect_should_continue, (error,), go_on) ==> (go_on <==> *error
                == HostError::Timeout),
{
}

} // verus!
