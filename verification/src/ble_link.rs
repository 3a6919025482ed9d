//! Link-control procedures: PHY and connection-parameter updates with bounded
//! retries.

use vstd::prelude::*;

use crate::ble_advertising::HostError;

verus! {

pub const HOST_PHY_UPDATE_ATTEMPTS: u8 = 3;

pub const HOST_PHY_UPDATE_SETTLE_MS: u64 = 80;

pub const HCI_LINK_UPDATE_ATTEMPTS: u8 = 12;

pub const HCI_LINK_UPDATE_RETRY_MS: u64 = 20;

/// HCI status: Different Transaction Collision.
pub const HCI_TRANSACTION_COLLISION: u8 = 0x2a;

/// HCI status: Controller Busy.
pub const HCI_CONTROLLER_BUSY: u8 = 0x3a;

#[derive(Clone, Copy, Debug, PartialEq, Eq, Structural)]
pub enum PhyKind {
    Le1M,
    Le2M,
    LeCoded,
    LeCodedS2,
}

#[derive(Clone, Copy, Debug, PartialEq, Eq, Structural)]
pub enum HostPhyUpdateState {
    Verified,
    Retry,
    Exhausted,
}

/// What the negotiated PHY says after an attempt: only LE 2M in both directions
/// counts as done, and the last attempt ends the retries.
pub open spec fn phy_update_state(tx_phy: PhyKind, rx_phy: PhyKind, attempt: u8) -> HostPhyUpdateState {
    if tx_phy == PhyKind::Le2M && rx_phy == PhyKind::Le2M {
        HostPhyUpdateState::Verified
    } else if attempt < HOST_PHY_UPDATE_ATTEMPTS {
        HostPhyUpdateState::Retry
    } else {
        HostPhyUpdateState::Exhausted
    }
}

pub fn host_phy_update_state(tx_phy: PhyKind, rx_phy: PhyKind, attempt: u8) -> (state:
    HostPhyUpdateState)
    ensures
        state == phy_update_state(tx_phy, rx_phy, attempt),
{
    if tx_phy == PhyKind::Le2M && rx_phy == PhyKind::Le2M {
        HostPhyUpdateState::Verified
    } else if attempt < HOST_PHY_UPDATE_ATTEMPTS {
        HostPhyUpdateState::Retry
    } else {
        HostPhyUpdateState::Exhausted
    }
}

/// A status with which the controller refuses a procedure only for now.
pub open spec fn hci_busy(status: u8) -> bool {
    status == HCI_TRANSACTION_COLLISION || status == HCI_CONTROLLER_BUSY
}

pub fn is_hci_link_update_busy(status: u8) -> (busy: bool)
    ensures
        busy == hci_busy(status),
{
    status == HCI_TRANSACTION_COLLISION || status == HCI_CONTROLLER_BUSY
}

// The host PHY

#[derive(Clone, Copy, Debug, PartialEq, Eq, Structural)]
pub enum PhyAction {
    /// Ask the controller for LE 2M. Whether it accepts is not decisive.
    RequestLe2M,
    WaitMs(u64),
    ReadPhy,
    CheckConnected,
}

#[derive(Clone, Copy, Debug, PartialEq, Eq, Structural)]
pub enum PhyEvent {
    Requested,
    Waited,
    /// The negotiated transmit and receive PHY.
    Phy { tx: PhyKind, rx: PhyKind },
    /// The negotiated PHY could not be read.
    PhyUnknown,
    Connected(bool),
}

#[derive(Clone, Copy, Debug, PartialEq, Eq, Structural)]
pub enum PhyPhase {
    Request,
    Settle,
    Read,
    Check,
}

/// Brings an established host link to LE 2M, and verifies that it got there.
///
/// Advertising stays on the universally discoverable LE 1M PHY. Accepting LE
/// Set PHY only schedules the controller procedure and does not prove that the
/// peer completed it.
#[derive(Clone, Copy, Debug, PartialEq, Eq, Structural)]
pub struct HostPhyTask {
    pub attempt: u8,
    pub phase: PhyPhase,
}

impl HostPhyTask {
    pub open spec fn wf(self) -> bool {
        1 <= self.attempt <= HOST_PHY_UPDATE_ATTEMPTS
    }

    pub open spec fn due(self) -> PhyAction {
        match self.phase {
            PhyPhase::Request => PhyAction::RequestLe2M,
            PhyPhase::Settle => PhyAction::WaitMs(HOST_PHY_UPDATE_SETTLE_MS),
            PhyPhase::Read => PhyAction::ReadPhy,
            PhyPhase::Check => PhyAction::CheckConnected,
        }
    }

    pub open spec fn answers(self, event: PhyEvent) -> bool {
        match self.phase {
            PhyPhase::Request => event is Requested,
            PhyPhase::Settle => event is Waited,
            PhyPhase::Read => event is Phy || event is PhyUnknown,
            PhyPhase::Check => event is Connected,
        }
    }

    /// The task after an event, or `None` where it is over.
    pub open spec fn next(self, event: PhyEvent) -> Option<HostPhyTask> {
        match event {
            PhyEvent::Requested => Some(HostPhyTask { phase: PhyPhase::Settle, ..self }),
            PhyEvent::Waited => Some(HostPhyTask { phase: PhyPhase::Read, ..self }),
            PhyEvent::Phy { tx, rx } => if phy_update_state(tx, rx, self.attempt)
                == HostPhyUpdateState::Retry {
                Some(HostPhyTask { phase: PhyPhase::Check, ..self })
            } else {
                None
            },
            PhyEvent::PhyUnknown => Some(HostPhyTask { phase: PhyPhase::Check, ..self }),
            PhyEvent::Connected(connected) => if connected && self.attempt
                < HOST_PHY_UPDATE_ATTEMPTS {
                Some(HostPhyTask { attempt: (self.attempt + 1) as u8, phase: PhyPhase::Request })
            } else {
                None
            },
        }
    }

    pub fn start() -> (task: HostPhyTask)
        ensures
            task == (HostPhyTask { attempt: 1, phase: PhyPhase::Request }),
            task.wf(),
    {
        HostPhyTask { attempt: 1, phase: PhyPhase::Request }
    }

    pub fn action(&self) -> (action: PhyAction)
        ensures
            action == self.due(),
    {
        match self.phase {
            PhyPhase::Request => PhyAction::RequestLe2M,
            PhyPhase::Settle => PhyAction::WaitMs(HOST_PHY_UPDATE_SETTLE_MS),
            PhyPhase::Read => PhyAction::ReadPhy,
            PhyPhase::Check => PhyAction::CheckConnected,
        }
    }

    /// Takes an event, and says whether the task goes on.
    pub fn advance(&mut self, event: PhyEvent) -> (running: bool)
        requires
            old(self).wf(),
            old(self).answers(event),
        ensures
            running == (old(self).next(event) is Some),
            running ==> old(self).next(event) == Some(*final(self)) && final(self).wf(),
            !running ==> *final(self) == *old(self),
    {
        match event {
            PhyEvent::Requested => {
                self.phase = PhyPhase::Settle;
                true
            },
            PhyEvent::Waited => {
                self.phase = PhyPhase::Read;
                true
            },
            PhyEvent::Phy { tx, rx } => {
                match host_phy_update_state(tx, rx, self.attempt) {
                    HostPhyUpdateState::Retry => {
                        self.phase = PhyPhase::Check;
                        true
                    },
                    _ => false,
                }
            },
            PhyEvent::PhyUnknown => {
                self.phase = PhyPhase::Check;
                true
            },
            PhyEvent::Connected(connected) => {
                if connected && self.attempt < HOST_PHY_UPDATE_ATTEMPTS {
                    self.attempt = self.attempt + 1;
                    self.phase = PhyPhase::Request;
                    true
                } else {
                    false
                }
            },
        }
    }
}

// Updates that the controller may be too busy for

#[derive(Clone, Copy, Debug, PartialEq, Eq, Structural)]
pub enum LinkAction {
    CheckConnected,
    /// Issue the link-control command.
    Command,
    WaitMs(u64),
}

#[derive(Clone, Copy, Debug, PartialEq, Eq, Structural)]
pub enum LinkEvent {
    Connected(bool),
    Accepted,
    Refused(HostError),
    Waited,
}

#[derive(Clone, Copy, Debug, PartialEq, Eq, Structural)]
pub enum LinkPhase {
    Check,
    Command,
    Wait,
}

#[derive(Clone, Copy, Debug, PartialEq, Eq, Structural)]
pub enum LinkProgress {
    Running,
    /// The update is over, and whether the controller accepted it.
    Done(bool),
}

/// Issues one link-control command, and tries again while the controller
/// reports a collision or that it is busy.
///
/// The controller accepts only one link-control procedure at a time. Host PHY
/// updates and one or more split links share it, so an update also collides
/// with procedures started by the peer or the stack itself.
#[derive(Clone, Copy, Debug, PartialEq, Eq, Structural)]
pub struct LinkUpdateTask {
    pub attempt: u8,
    pub phase: LinkPhase,
}

impl LinkUpdateTask {
    pub open spec fn wf(self) -> bool {
        &&& 1 <= self.attempt <= HCI_LINK_UPDATE_ATTEMPTS
        &&& self.phase == LinkPhase::Wait ==> self.attempt < HCI_LINK_UPDATE_ATTEMPTS
    }

    pub open spec fn due(self) -> LinkAction {
        match self.phase {
            LinkPhase::Check => LinkAction::CheckConnected,
            LinkPhase::Command => LinkAction::Command,
            LinkPhase::Wait => LinkAction::WaitMs(HCI_LINK_UPDATE_RETRY_MS),
        }
    }

    pub open spec fn answers(self, event: LinkEvent) -> bool {
        match self.phase {
            LinkPhase::Check => event is Connected,
            LinkPhase::Command => event is Accepted || event is Refused,
            LinkPhase::Wait => event is Waited,
        }
    }

    pub open spec fn next(self, event: LinkEvent) -> (LinkUpdateTask, LinkProgress) {
        match event {
            LinkEvent::Connected(connected) => if connected {
                (LinkUpdateTask { phase: LinkPhase::Command, ..self }, LinkProgress::Running)
            } else {
                (self, LinkProgress::Done(false))
            },
            LinkEvent::Accepted => (self, LinkProgress::Done(true)),
            LinkEvent::Refused(HostError::Hci(status)) => if hci_busy(status) && self.attempt
                < HCI_LINK_UPDATE_ATTEMPTS {
                (LinkUpdateTask { phase: LinkPhase::Wait, ..self }, LinkProgress::Running)
            } else {
                (self, LinkProgress::Done(false))
            },
            LinkEvent::Refused(_) => (self, LinkProgress::Done(false)),
            LinkEvent::Waited => (
                LinkUpdateTask { attempt: (self.attempt + 1) as u8, phase: LinkPhase::Check },
                LinkProgress::Running,
            ),
        }
    }

    pub fn start() -> (task: LinkUpdateTask)
        ensures
            task == (LinkUpdateTask { attempt: 1, phase: LinkPhase::Check }),
            task.wf(),
    {
        LinkUpdateTask { attempt: 1, phase: LinkPhase::Check }
    }

    pub fn action(&self) -> (action: LinkAction)
        ensures
            action == self.due(),
    {
        match self.phase {
            LinkPhase::Check => LinkAction::CheckConnected,
            LinkPhase::Command => LinkAction::Command,
            LinkPhase::Wait => LinkAction::WaitMs(HCI_LINK_UPDATE_RETRY_MS),
        }
    }

    pub fn advance(&mut self, event: LinkEvent) -> (progress: LinkProgress)
        requires
            old(self).wf(),
            old(self).answers(event),
        ensures
            (*final(self), progress) == old(self).next(event),
            progress is Running ==> final(self).wf(),
    {
        match event {
            LinkEvent::Connected(connected) => {
                if !connected {
                    return LinkProgress::Done(false);
                }
                self.phase = LinkPhase::Command;
                LinkProgress::Running
            },
            LinkEvent::Accepted => LinkProgress::Done(true),
            LinkEvent::Refused(error) => {
                if let HostError::Hci(status) = error {
                    if is_hci_link_update_busy(status) && self.attempt < HCI_LINK_UPDATE_ATTEMPTS {
                        self.phase = LinkPhase::Wait;
                        return LinkProgress::Running;
                    }
                }
                LinkProgress::Done(false)
            },
            LinkEvent::Waited => {
                self.attempt = self.attempt + 1;
                self.phase = LinkPhase::Check;
                LinkProgress::Running
            },
        }
    }
}

impl HostPhyTask {
    /// An upper bound on the steps that are left.
    pub open spec fn remaining(self) -> int {
        (HOST_PHY_UPDATE_ATTEMPTS - self.attempt) * 4 + (match self.phase {
            PhyPhase::Request => 4int,
            PhyPhase::Settle => 3int,
            PhyPhase::Read => 2int,
            PhyPhase::Check => 1int,
        })
    }
}

/// The PHY is asked for at most three times: every step brings the end nearer,
/// and the attempts are counted.
pub proof fn law_phy_retries_are_bounded(task: HostPhyTask, event: PhyEvent)
    requires
        task.wf(),
        task.answers(event),
    ensures
        task.remaining() > 0,
        task.next(event) matches Some(rest) ==> rest.wf() && 0 < rest.remaining()
            < task.remaining(),
{
}

/// The task stops early only on a verified LE 2M link or a lost connection.
pub proof fn law_phy_retries_stop_for_a_reason(task: HostPhyTask, event: PhyEvent)
    requires
        task.wf(),
        task.answers(event),
        task.attempt < HOST_PHY_UPDATE_ATTEMPTS,
        task.next(event) is None,
    ensures
        event == (PhyEvent::Phy { tx: PhyKind::Le2M, rx: PhyKind::Le2M }) || event
            == PhyEvent::Connected(false),
{
}

impl LinkUpdateTask {
    /// An upper bound on the steps that are left.
    pub open spec fn remaining(self) -> int {
        (HCI_LINK_UPDATE_ATTEMPTS - self.attempt) * 3 + (match self.phase {
            LinkPhase::Check => 3int,
            LinkPhase::Command => 2int,
            LinkPhase::Wait => 1int,
        })
    }
}

/// A link update issues at most twelve commands, and it retries only after a
/// collision or a busy controller.
pub proof fn law_link_updates_are_bounded(task: LinkUpdateTask, event: LinkEvent)
    requires
        task.wf(),
        task.answers(event),
    ensures
        task.next(event).1 is Running ==> task.next(event).0.wf() && 0 < task.next(
            event,
        ).0.remaining() < task.remaining(),
        task.next(event).0.phase == LinkPhase::Wait && task.phase == LinkPhase::Command ==> {
            event matches LinkEvent::Refused(HostError::Hci(status)) && hci_busy(status)
        },
{
}

/// A link update succeeds exactly when the controller accepts a command.
pub proof fn law_link_update_reports_acceptance(task: LinkUpdateTask, event: LinkEvent)
    requires
        task.wf(),
        task.answers(event),
    ensures
        task.next(event).1 == LinkProgress::Done(true) <==> event == LinkEvent::Accepted,
{
}

/// A link is on LE 2M only where it sends and receives on it. Otherwise it is
/// asked again after the first and the second attempt, and no more after the
/// third.
pub proof fn law_phy_needs_both_directions(tx: PhyKind, rx: PhyKind, attempt: u8)
    ensures
        phy_update_state(tx, rx, attempt) == HostPhyUpdateState::Verified <==> tx == PhyKind::Le2M
            && rx == PhyKind::Le2M,
        phy_update_state(tx, rx, attempt) == HostPhyUpdateState::Retry <==> !(tx == PhyKind::Le2M
            && rx == PhyKind::Le2M) && attempt < 3,
{
}

/// An attempt asks for LE 2M, waits 80 ms and reads what was negotiated. A link
/// that did not get there is asked once more while it is connected and fewer
/// than three attempts were made.
pub proof fn law_phy_attempt_is_verified(attempt: u8, tx: PhyKind, rx: PhyKind, connected: bool)
    requires
        1 <= attempt <= 3,
    ensures
        ({
            let start = HostPhyTask { attempt, phase: PhyPhase::Request };
            let settling = HostPhyTask { attempt, phase: PhyPhase::Settle };
            let reading = HostPhyTask { attempt, phase: PhyPhase::Read };
            let checking = HostPhyTask { attempt, phase: PhyPhase::Check };
            let there = tx == PhyKind::Le2M && rx == PhyKind::Le2M;
            &&& start.due() == PhyAction::RequestLe2M
            &&& start.next(PhyEvent::Requested) == Some(settling)
            &&& settling.due() == PhyAction::WaitMs(80)
            &&& settling.next(PhyEvent::Waited) == Some(reading)
            &&& reading.due() == PhyAction::ReadPhy
            &&& there || attempt == 3 ==> reading.next(PhyEvent::Phy { tx, rx }) is None
            &&& !there && attempt < 3 ==> reading.next(PhyEvent::Phy { tx, rx }) == Some(checking)
            &&& reading.next(PhyEvent::PhyUnknown) == Some(checking)
            &&& checking.due() == PhyAction::CheckConnected
            &&& connected && attempt < 3 ==> checking.next(PhyEvent::Connected(connected)) == Some(
                HostPhyTask { attempt: (attempt + 1) as u8, phase: PhyPhase::Request },
            )
            &&& !connected || attempt == 3 ==> checking.next(PhyEvent::Connected(connected)) is None
        }),
{
}

/// The controller is busy on a transaction collision and on nothing else but its
/// own word.
pub proof fn law_two_statuses_are_busy(status: u8)
    ensures
        hci_busy(status) <==> status == 0x2a || status == 0x3a,
{
}

/// A link update looks whether the link is up, issues its command, and tries
/// again 20 ms after a busy controller refused one of the first eleven. Any
/// other refusal, and a lost link, end it without success.
pub proof fn law_busy_controller_is_asked_again(attempt: u8, error: HostError)
    requires
        1 <= attempt <= 12,
    ensures
        ({
            let checking = LinkUpdateTask { attempt, phase: LinkPhase::Check };
            let commanding = LinkUpdateTask { attempt, phase: LinkPhase::Command };
            let waiting = LinkUpdateTask { attempt, phase: LinkPhase::Wait };
            let busy = error == HostError::Hci(0x2a) || error == HostError::Hci(0x3a);
            &&& checking.due() == LinkAction::CheckConnected
            &&& checking.next(LinkEvent::Connected(true)) == (commanding, LinkProgress::Running)
            &&& checking.next(LinkEvent::Connected(false)).1 == LinkProgress::Done(false)
            &&& commanding.due() == LinkAction::Command
            &&& commanding.next(LinkEvent::Accepted).1 == LinkProgress::Done(true)
            &&& busy && attempt < 12 ==> commanding.next(LinkEvent::Refused(error)) == (
                waiting,
                LinkProgress::Running,
            )
            &&& !busy || attempt == 12 ==> commanding.next(LinkEvent::Refused(error)).1
                == LinkProgress::Done(false)
            &&& waiting.due() == LinkAction::WaitMs(20)
            &&& waiting.next(LinkEvent::Waited) == (
                LinkUpdateTask { attempt: (attempt + 1) as u8, phase: LinkPhase::Check },
                LinkProgress::Running,
            )
        }),
{
}

/// Both tasks take their first attempt first, name the action that is due and
/// move as their events say.
pub proof fn law_link_tasks_follow_their_events()
    ensures
        forall|task: HostPhyTask| #[trigger]
            call_ensures(HostPhyTask::start, (), task) ==> task.attempt == 1 && task.phase
                == PhyPhase::Request,
        forall|task: &HostPhyTask, action: PhyAction| #[trigger]
            call_ensures(HostPhyTask::action, (task,), action) ==> action == (*task).due(),
        forall|task: &mut HostPhyTask, event: PhyEvent, running: bool| #[trigger]
            call_ensures(HostPhyTask::advance, (task, event), running) ==> {
                &&& running ==> (*task).next(event) == Some(*final(task))
                &&& !running ==> (*task).next(event) is None
            },
        forall|task: LinkUpdateTask| #[trigger]
            call_ensures(LinkUpdateTask::start, (), task) ==> task.attempt == 1 && task.phase
                == LinkPhase::Check,
        forall|task: &LinkUpdateTask, action: LinkAction| #[trigger]
            call_ensures(LinkUpdateTask::action, (task,), action) ==> action == (*task).due(),
        forall|task: &mut LinkUpdateTask, event: LinkEvent, progress: LinkProgress| #[trigger]
            call_ensures(LinkUpdateTask::advance, (task, event), progress) ==> (
                *final(task),
                progress,
            ) == (*task).next(event),
        forall|tx: PhyKind, rx: PhyKind, attempt: u8, state: HostPhyUpdateState| #[trigger]
            call_ensures(host_phy_update_state, (tx, rx, attempt), state) ==> state
                == phy_update_state(tx, rx, attempt),
        forall|status: u8, busy: bool| #[trigger]
            call_ensures(is_hci_link_update_busy, (status,), busy) ==> busy == hci_busy(status),
{
}

} // verus!
