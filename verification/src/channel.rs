//! The queues between report producers and the transports.

use vstd::prelude::*;

use crate::ble_status::BleState;
use crate::hid::{KeyboardReport, Report};
use crate::queue::{
    clear_reports, new_packet_channel, new_report_channel, report_count, try_receive_packet,
    try_receive_report, try_send_packet, try_send_report, PacketChannel, ReportChannel,
};
use crate::time::Instant;

verus! {

/// A transport that reports can go to.
#[derive(Clone, Copy, Debug, PartialEq, Eq, Structural)]
pub enum ConnectionType {
    Usb,
    Ble,
}

/// A relative mouse report kept at the event's native width until the active
/// transport is ready to serialize it as one or more signed 8-bit HID reports.
/// Keeping one input event as one queue item prevents an extreme i16 delta from
/// filling the bounded HID queue with hundreds of pre-expanded reports.
#[derive(Clone, Copy, Debug, PartialEq, Eq, Structural)]
pub struct WideMouseReport {
    pub buttons: u8,
    pub x: i32,
    pub y: i32,
    pub wheel: i32,
    pub pan: i32,
}

#[derive(Clone, Copy, Debug, PartialEq, Eq)]
pub enum QueuedReportPayload {
    Hid(Report),
    WideMouse(WideMouseReport),
}

/// One HID report together with the instant at which its producer entered the
/// transport path. The timestamp lets RTT diagnostics measure motion age at
/// the actual BLE notification rather than inferring it from queue length.
#[derive(Clone, Copy, Debug, PartialEq, Eq)]
pub struct QueuedReport {
    pub payload: QueuedReportPayload,
    pub enqueued_at: Instant,
}

impl QueuedReport {
    /// The item is a keyboard report with nothing pressed.
    pub open spec fn releases_all_keys(self) -> bool {
        match self.payload {
            QueuedReportPayload::Hid(Report::KeyboardReport(report)) => report.all_up(),
            _ => false,
        }
    }

    /// A report that entered the transport path at `now`.
    pub fn new_at(report: Report, now: Instant) -> (queued: QueuedReport)
        ensures
            queued == (QueuedReport {
                payload: QueuedReportPayload::Hid(report),
                enqueued_at: now,
            }),
    {
        QueuedReport { payload: QueuedReportPayload::Hid(report), enqueued_at: now }
    }

    pub fn new(report: Report) -> (queued: QueuedReport)
        ensures
            queued.payload == QueuedReportPayload::Hid(report),
    {
        QueuedReport::new_at(report, Instant::now())
    }

    /// A mouse event that entered the transport path at `now`.
    pub fn new_wide_mouse_at(
        buttons: u8,
        x: i16,
        y: i16,
        wheel: i16,
        pan: i16,
        now: Instant,
    ) -> (queued: QueuedReport)
        ensures
            queued == (QueuedReport {
                payload: QueuedReportPayload::WideMouse(
                    WideMouseReport {
                        buttons,
                        x: x as i32,
                        y: y as i32,
                        wheel: wheel as i32,
                        pan: pan as i32,
                    },
                ),
                enqueued_at: now,
            }),
    {
        QueuedReport {
            payload: QueuedReportPayload::WideMouse(
                WideMouseReport {
                    buttons,
                    x: x as i32,
                    y: y as i32,
                    wheel: wheel as i32,
                    pan: pan as i32,
                },
            ),
            enqueued_at: now,
        }
    }

    pub fn new_wide_mouse(buttons: u8, x: i16, y: i16, wheel: i16, pan: i16) -> (queued:
        QueuedReport)
        ensures
            queued.payload == QueuedReportPayload::WideMouse(
                WideMouseReport {
                    buttons,
                    x: x as i32,
                    y: y as i32,
                    wheel: wheel as i32,
                    pan: pan as i32,
                },
            ),
    {
        QueuedReport::new_wide_mouse_at(buttons, x, y, wheel, pan, Instant::now())
    }

    /// Returns the wrapped HID report without consuming the queue item, which
    /// must not be a wide mouse report.
    pub fn report(&self) -> (report: &Report)
        requires
            self.payload is Hid,
        ensures
            self.payload == QueuedReportPayload::Hid(*report),
    {
        match &self.payload {
            QueuedReportPayload::Hid(report) => report,
            QueuedReportPayload::WideMouse(_) => vstd::pervasive::unreached(),
        }
    }

    /// Consumes the queue item and returns its wrapped HID report. The item
    /// must not be a wide mouse report.
    pub fn into_report(self) -> (report: Report)
        requires
            self.payload is Hid,
        ensures
            self.payload == QueuedReportPayload::Hid(report),
    {
        match self.payload {
            QueuedReportPayload::Hid(report) => report,
            QueuedReportPayload::WideMouse(_) => vstd::pervasive::unreached(),
        }
    }

    pub fn payload(&self) -> (payload: &QueuedReportPayload)
        ensures
            *payload == self.payload,
    {
        &self.payload
    }

    pub fn into_payload(self) -> (payload: QueuedReportPayload)
        ensures
            payload == self.payload,
    {
        self.payload
    }

    pub fn enqueued_at(&self) -> (instant: Instant)
        ensures
            instant == self.enqueued_at,
    {
        self.enqueued_at
    }
}

/// The queue of one transport, drained by its HID writer.
pub struct ReportQueue {
    channel: ReportChannel,
}

impl View for ReportQueue {
    type V = Seq<QueuedReport>;

    closed spec fn view(&self) -> Seq<QueuedReport> {
        crate::queue::queued_reports(self.channel)
    }
}

impl ReportQueue {
    pub fn new() -> (queue: ReportQueue)
        ensures
            queue@ == Seq::<QueuedReport>::empty(),
    {
        ReportQueue { channel: new_report_channel() }
    }

    /// Appends a report, or hands it back where the queue is full.
    pub fn try_send(&mut self, report: QueuedReport) -> (result: Result<(), QueuedReport>)
        ensures
            old(self)@.len() < 16 ==> result is Ok && final(self)@
                == old(self)@.push(report),
            old(self)@.len() >= 16 ==> result is Err && result->Err_0 == report && final(self)@
                == old(self)@,
    {
        try_send_report(&mut self.channel, report)
    }

    /// Takes the oldest report out.
    pub fn try_receive(&mut self) -> (report: Option<QueuedReport>)
        ensures
            old(self)@.len() > 0 ==> report == Some(old(self)@.first()) && final(self)@ == old(self)@.drop_first(),
            old(self)@.len() == 0 ==> report is None && final(self)@ == old(self)@,
    {
        try_receive_report(&mut self.channel)
    }

    pub fn clear(&mut self)
        ensures
            final(self)@ == Seq::<QueuedReport>::empty(),
    {
        clear_reports(&mut self.channel);
    }

    pub fn len(&self) -> (count: usize)
        ensures
            count == self@.len(),
    {
        report_count(&self.channel)
    }
}

/// The report queues of the transports that the build has.
pub struct ReportQueues {
    pub usb: Option<ReportQueue>,
    pub ble: Option<ReportQueue>,
}

impl ReportQueues {
    pub open spec fn has(self, transport: ConnectionType) -> bool {
        match transport {
            ConnectionType::Usb => self.usb is Some,
            ConnectionType::Ble => self.ble is Some,
        }
    }

    /// The reports queued for a transport of the build.
    pub open spec fn queued(self, transport: ConnectionType) -> Seq<QueuedReport> {
        match transport {
            ConnectionType::Usb => self.usb->0@,
            ConnectionType::Ble => self.ble->0@,
        }
    }

    /// Everything but the queue of `transport` is as it is in `other`.
    pub open spec fn same_but(self, other: ReportQueues, transport: ConnectionType) -> bool {
        match transport {
            ConnectionType::Usb => self.ble == other.ble && self.has(transport) == other.has(
                transport,
            ),
            ConnectionType::Ble => self.usb == other.usb && self.has(transport) == other.has(
                transport,
            ),
        }
    }

    /// The transport that takes reports while `active` is selected: the active
    /// one where the build has it.
    pub open spec fn active_target(self, active: Option<ConnectionType>) -> Option<ConnectionType> {
        match active {
            Some(transport) if self.has(transport) => Some(transport),
            _ => None,
        }
    }

    /// Reports generated while no transport is selected are dropped, except
    /// during BLE idle sleep, when the BLE queue retains them.
    pub open spec fn destination(self, active: Option<ConnectionType>, ble_state: BleState) -> Option<
        ConnectionType,
    > {
        match self.active_target(active) {
            Some(transport) => Some(transport),
            None => if self.has(ConnectionType::Ble) && ble_state == BleState::Sleeping {
                Some(ConnectionType::Ble)
            } else {
                None
            },
        }
    }

    pub fn new(with_usb: bool, with_ble: bool) -> (queues: ReportQueues)
        ensures
            queues.has(ConnectionType::Usb) == with_usb,
            queues.has(ConnectionType::Ble) == with_ble,
            with_usb ==> queues.queued(ConnectionType::Usb) == Seq::<QueuedReport>::empty(),
            with_ble ==> queues.queued(ConnectionType::Ble) == Seq::<QueuedReport>::empty(),
    {
        ReportQueues {
            usb: if with_usb {
                Some(ReportQueue::new())
            } else {
                None
            },
            ble: if with_ble {
                Some(ReportQueue::new())
            } else {
                None
            },
        }
    }

    fn report_channel(&self, transport: ConnectionType) -> (present: bool)
        ensures
            present == self.has(transport),
    {
        match transport {
            ConnectionType::Usb => self.usb.is_some(),
            ConnectionType::Ble => self.ble.is_some(),
        }
    }

    fn active_report_channel(&self, active: Option<ConnectionType>) -> (target: Option<
        ConnectionType,
    >)
        ensures
            target == self.active_target(active),
    {
        match active {
            Some(transport) => if self.report_channel(transport) {
                Some(transport)
            } else {
                None
            },
            None => None,
        }
    }

    pub fn report_destination(&self, active: Option<ConnectionType>, ble_state: BleState) -> (target:
        Option<ConnectionType>)
        ensures
            target == self.destination(active, ble_state),
    {
        if let Some(transport) = self.active_report_channel(active) {
            return Some(transport);
        }
        if self.report_channel(ConnectionType::Ble) && ble_state == BleState::Sleeping {
            return Some(ConnectionType::Ble);
        }
        None
    }

    /// Appends a report to the queue of a transport, or hands it back where the
    /// queue is full.
    pub fn try_send_to(&mut self, transport: ConnectionType, report: QueuedReport) -> (result:
        Result<(), QueuedReport>)
        requires
            old(self).has(transport),
        ensures
            final(self).same_but(*old(self), transport),
            old(self).queued(transport).len() < 16 ==> result is Ok
                && final(self).queued(transport) == old(self).queued(transport).push(report),
            old(self).queued(transport).len() >= 16 ==> result is Err && result->Err_0 == report
                && final(self).queued(transport) == old(self).queued(transport),
    {
        match transport {
            ConnectionType::Usb => match &mut self.usb {
                Some(queue) => queue.try_send(report),
                None => Err(report),
            },
            ConnectionType::Ble => match &mut self.ble {
                Some(queue) => queue.try_send(report),
                None => Err(report),
            },
        }
    }

    /// The number of reports queued for a transport of the build.
    pub fn len_of(&self, transport: ConnectionType) -> (count: usize)
        requires
            self.has(transport),
        ensures
            count == self.queued(transport).len(),
    {
        match transport {
            ConnectionType::Usb => match &self.usb {
                Some(queue) => queue.len(),
                None => 0,
            },
            ConnectionType::Ble => match &self.ble {
                Some(queue) => queue.len(),
                None => 0,
            },
        }
    }

    /// Drops the report when the active transport's queue is full or no
    /// transport is selected. Use for producers where back-pressure would block
    /// the matrix scan (e.g. steno chord output).
    pub fn try_send_hid_report(&mut self, active: Option<ConnectionType>, report: Report)
        ensures
            match old(self).active_target(active) {
                Some(transport) => {
                    &&& final(self).same_but(*old(self), transport)
                    &&& old(self).queued(transport).len() >= 16 ==> final(self).queued(transport)
                        == old(self).queued(transport)
                    &&& old(self).queued(transport).len() < 16 ==> exists|now: Instant|
                        final(self).queued(transport) == #[trigger] old(self).queued(
                            transport,
                        ).push(
                            QueuedReport {
                                payload: QueuedReportPayload::Hid(report),
                                enqueued_at: now,
                            },
                        )
                },
                None => *final(self) == *old(self),
            },
    {
        if let Some(transport) = self.active_report_channel(active) {
            let queued = QueuedReport::new(report);
            assert(queued == QueuedReport {
                payload: QueuedReportPayload::Hid(report),
                enqueued_at: queued.enqueued_at,
            });
            let _ = self.try_send_to(transport, queued);
        }
    }

    /// Drains queued reports for `transport` and leaves an all-up keyboard report
    /// for its writer. Called on active-transport flips so the previous host
    /// releases any pressed keys without replaying stale queued reports later.
    pub fn clear_and_release_report_channel(&mut self, transport: ConnectionType)
        ensures
            old(self).has(transport) ==> final(self).same_but(*old(self), transport),
            old(self).has(transport) ==> final(self).queued(transport).len() == 1 && final(self).queued(transport)[0].releases_all_keys(),
            !old(self).has(transport) ==> *final(self) == *old(self),
    {
        match transport {
            ConnectionType::Usb => {
                if let Some(queue) = &mut self.usb {
                    release_keys(queue);
                }
            },
            ConnectionType::Ble => {
                if let Some(queue) = &mut self.ble {
                    release_keys(queue);
                }
            },
        }
    }
}

fn release_keys(queue: &mut ReportQueue)
    ensures
        final(queue)@.len() == 1,
        final(queue)@[0].releases_all_keys(),
{
    queue.clear();
    let release = QueuedReport::new(Report::KeyboardReport(KeyboardReport::default()));
    let _ = queue.try_send(release);
}

/// A report on its way into a queue that may be full.
#[derive(Clone, Copy, Debug)]
pub struct EnqueueTask {
    pub transport: ConnectionType,
    pub report: QueuedReport,
    /// How often the queue was found full.
    pub full_retries: u32,
}

impl EnqueueTask {
    /// Reports generated while no transport is selected are normally dropped.
    /// During BLE idle sleep, reports are retained in the BLE queue. This lets the
    /// keyboard processor handle the wake key's release and subsequent input while
    /// the transport reconnects; the new BLE writer drains the ordered reports.
    pub fn start(
        queues: &ReportQueues,
        active: Option<ConnectionType>,
        ble_state: BleState,
        report: QueuedReport,
    ) -> (task: Option<EnqueueTask>)
        ensures
            task == (match queues.destination(active, ble_state) {
                Some(transport) => Some(EnqueueTask { transport, report, full_retries: 0 }),
                None => None,
            }),
            task matches Some(task) ==> queues.has(task.transport),
    {
        match queues.report_destination(active, ble_state) {
            Some(transport) => Some(EnqueueTask { transport, report, full_retries: 0 }),
            None => None,
        }
    }

    /// Tries to deliver the report. Where the queue is full, the caller waits
    /// for room and asks `may_retry` before the next attempt.
    pub fn attempt(&mut self, queues: &mut ReportQueues) -> (delivered: bool)
        requires
            old(queues).has(old(self).transport),
        ensures
            delivered == (old(queues).queued(old(self).transport).len() < 16),
            final(queues).same_but(*old(queues), old(self).transport),
            final(queues).queued(old(self).transport) == (if delivered {
                old(queues).queued(old(self).transport).push(old(self).report)
            } else {
                old(queues).queued(old(self).transport)
            }),
            *final(self) == (if delivered {
                *old(self)
            } else {
                EnqueueTask {
                    full_retries: if old(self).full_retries == u32::MAX {
                        u32::MAX
                    } else {
                        (old(self).full_retries + 1) as u32
                    },
                    ..*old(self)
                }
            }),
    {
        match queues.try_send_to(self.transport, self.report) {
            Ok(()) => true,
            Err(report) => {
                self.report = report;
                self.full_retries = self.full_retries.saturating_add(1);
                false
            },
        }
    }

    /// A waiting report is given up once its transport is no longer active.
    pub fn may_retry(&self, active: Option<ConnectionType>) -> (retry: bool)
        ensures
            retry == (active == Some(self.transport)),
    {
        match active {
            Some(transport) => transport == self.transport,
            None => false,
        }
    }
}

/// Starts to send a report that enters the transport path now.
pub fn send_hid_report(
    queues: &ReportQueues,
    active: Option<ConnectionType>,
    ble_state: BleState,
    report: Report,
) -> (task: Option<EnqueueTask>)
    ensures
        task is Some <==> queues.destination(active, ble_state) is Some,
        task matches Some(task) ==> {
            &&& Some(task.transport) == queues.destination(active, ble_state)
            &&& queues.has(task.transport)
            &&& task.report.payload == QueuedReportPayload::Hid(report)
            &&& task.full_retries == 0
        },
{
    EnqueueTask::start(queues, active, ble_state, QueuedReport::new(report))
}

/// Starts to send one native-width relative mouse event. Transport writers own
/// HID chunking, so the pointing processor never blocks while expanding an i16
/// delta into many i8 reports.
pub fn send_hid_mouse_report(
    queues: &ReportQueues,
    active: Option<ConnectionType>,
    ble_state: BleState,
    buttons: u8,
    x: i16,
    y: i16,
    wheel: i16,
    pan: i16,
) -> (task: Option<EnqueueTask>)
    ensures
        task is Some <==> queues.destination(active, ble_state) is Some,
        task matches Some(task) ==> {
            &&& Some(task.transport) == queues.destination(active, ble_state)
            &&& queues.has(task.transport)
            &&& task.report.payload == QueuedReportPayload::WideMouse(
                WideMouseReport {
                    buttons,
                    x: x as i32,
                    y: y as i32,
                    wheel: wheel as i32,
                    pan: pan as i32,
                },
            )
            &&& task.full_retries == 0
        },
{
    EnqueueTask::start(
        queues,
        active,
        ble_state,
        QueuedReport::new_wide_mouse(buttons, x, y, wheel, pan),
    )
}

/// During BLE idle sleep no report is lost for want of a selected transport:
/// the BLE queue takes it. In any other state it is dropped.
pub proof fn law_idle_sleep_retains_reports(queues: ReportQueues, ble_state: BleState)
    requires
        queues.has(ConnectionType::Ble),
    ensures
        queues.destination(None, ble_state) == (if ble_state == BleState::Sleeping {
            Some(ConnectionType::Ble)
        } else {
            None
        }),
{
}

/// A selected transport of the build takes every report, asleep or not.
pub proof fn law_selected_transport_takes_reports(
    queues: ReportQueues,
    transport: ConnectionType,
    ble_state: BleState,
)
    requires
        queues.has(transport),
    ensures
        queues.destination(Some(transport), ble_state) == Some(transport),
{
}

/// What is queued once the oldest `count` reports have been taken out.
pub open spec fn after_receiving(queued: Seq<QueuedReport>, count: nat) -> Seq<QueuedReport>
    decreases count,
{
    if count == 0 {
        queued
    } else {
        after_receiving(queued.drop_first(), (count - 1) as nat)
    }
}

/// Reports leave a queue in the order in which they entered it: once everything
/// queued before has been taken out, a press is the oldest report and the
/// release that followed it is the next.
pub proof fn law_reports_leave_in_order(
    queued: Seq<QueuedReport>,
    press: QueuedReport,
    release: QueuedReport,
)
    ensures
        after_receiving(queued.push(press).push(release), queued.len()) == seq![press, release],
    decreases queued.len(),
{
    let all = queued.push(press).push(release);
    if queued.len() == 0 {
        assert(all =~= seq![press, release]);
    } else {
        assert(all.drop_first() =~= queued.drop_first().push(press).push(release));
        law_reports_leave_in_order(queued.drop_first(), press, release);
    }
}

// Vial host packets

/// BLE endpoint that originated a Vial request. The tag travels through the
/// host service with the packet so the reply reaches the matching
/// characteristic even when HOGP and vendor GATT are both exposed.
#[derive(Clone, Copy, Debug, PartialEq, Eq, Structural)]
pub enum BleHostTransport {
    Hid,
    VendorGatt,
}

/// Physical Vial endpoint that originated a host request.
#[derive(Clone, Copy, Debug, PartialEq, Eq, Structural)]
pub enum HostTransport {
    Usb,
    Ble(BleHostTransport),
}

/// One Vial packet with the endpoint that it came from or goes to.
#[derive(Clone, Copy, Debug, PartialEq, Eq)]
pub struct HostPacket {
    pub transport: HostTransport,
    pub data: [u8; 32],
}

/// A queue of Vial packets.
pub struct HostQueue {
    channel: PacketChannel,
}

impl View for HostQueue {
    type V = Seq<HostPacket>;

    closed spec fn view(&self) -> Seq<HostPacket> {
        crate::queue::queued_packets(self.channel)
    }
}

impl HostQueue {
    pub fn new() -> (queue: HostQueue)
        ensures
            queue@ == Seq::<HostPacket>::empty(),
    {
        HostQueue { channel: new_packet_channel() }
    }

    /// Appends a packet, and says whether there was room for it.
    pub fn try_send(&mut self, packet: HostPacket) -> (sent: bool)
        ensures
            sent == (old(self)@.len() < 4),
            final(self)@ == (if sent {
                old(self)@.push(packet)
            } else {
                old(self)@
            }),
    {
        try_send_packet(&mut self.channel, packet)
    }

    /// Takes the oldest packet out.
    pub fn try_receive(&mut self) -> (packet: Option<HostPacket>)
        ensures
            old(self)@.len() > 0 ==> packet == Some(old(self)@.first()) && final(self)@ == old(self)@.drop_first(),
            old(self)@.len() == 0 ==> packet is None && final(self)@ == old(self)@,
    {
        try_receive_packet(&mut self.channel)
    }
}

/// The reply queues of the transports that the build has.
pub struct HostReplyQueues {
    pub usb: Option<HostQueue>,
    pub ble: Option<HostQueue>,
}

impl HostReplyQueues {
    /// Routes a Vial reply back to the queue owned by the originating transport.
    /// Says whether it was queued: a reply is dropped when the transport has no
    /// queue, or when the host service produced replies faster than the
    /// transport drained them.
    pub fn try_send_host_reply(&mut self, transport: HostTransport, reply: [u8; 32]) -> (sent: bool)
        ensures
            match transport {
                HostTransport::Usb => {
                    &&& final(self).ble == old(self).ble
                    &&& sent == (old(self).usb matches Some(queue) && queue@.len() < 4)
                    &&& old(self).usb is None ==> final(self).usb is None
                    &&& old(self).usb matches Some(queue) ==> final(self).usb matches Some(after)
                        && after@ == (if sent {
                        queue@.push(HostPacket { transport, data: reply })
                    } else {
                        queue@
                    })
                },
                HostTransport::Ble(_) => {
                    &&& final(self).usb == old(self).usb
                    &&& sent == (old(self).ble matches Some(queue) && queue@.len() < 4)
                    &&& old(self).ble is None ==> final(self).ble is None
                    &&& old(self).ble matches Some(queue) ==> final(self).ble matches Some(after)
                        && after@ == (if sent {
                        queue@.push(HostPacket { transport, data: reply })
                    } else {
                        queue@
                    })
                },
            },
    {
        let packet = HostPacket { transport, data: reply };
        match transport {
            HostTransport::Usb => match &mut self.usb {
                Some(queue) => queue.try_send(packet),
                None => false,
            },
            HostTransport::Ble(_) => match &mut self.ble {
                Some(queue) => queue.try_send(packet),
                None => false,
            },
        }
    }
}

/// A report goes to the selected transport where the build has it. Otherwise it
/// is kept for BLE during idle sleep, where the build has that, and dropped at
/// any other time.
pub proof fn law_report_has_one_destination(
    queues: ReportQueues,
    active: Option<ConnectionType>,
    ble_state: BleState,
)
    ensures
        ({
            let destination = queues.destination(active, ble_state);
            let selected = (active == Some(ConnectionType::Usb) && queues.usb is Some) || (active
                == Some(ConnectionType::Ble) && queues.ble is Some);
            &&& selected ==> destination == active
            &&& !selected && queues.ble is Some && ble_state == BleState::Sleeping ==> destination
                == Some(ConnectionType::Ble)
            &&& !selected && !(queues.ble is Some && ble_state == BleState::Sleeping)
                ==> destination is None
        }),
{
}

/// The task of a report is bound for its destination, and a report without one
/// gets none.
pub proof fn law_enqueueing_starts_at_the_destination()
    ensures
        forall|
            queues: &ReportQueues,
            active: Option<ConnectionType>,
            ble_state: BleState,
            report: QueuedReport,
            task: Option<EnqueueTask>,
        | #[trigger]
            call_ensures(EnqueueTask::start, (queues, active, ble_state, report), task) ==> {
                let destination = (*queues).destination(active, ble_state);
                &&& destination is None ==> task is None
                &&& destination matches Some(transport) ==> task == Some(
                    EnqueueTask { transport, report, full_retries: 0 },
                )
            },
        forall|
            queues: &ReportQueues,
            active: Option<ConnectionType>,
            ble_state: BleState,
            target: Option<ConnectionType>,
        | #[trigger]
            call_ensures(ReportQueues::report_destination, (queues, active, ble_state), target)
                ==> target == (*queues).destination(active, ble_state),
        forall|task: &EnqueueTask, active: Option<ConnectionType>, retry: bool| #[trigger]
            call_ensures(EnqueueTask::may_retry, (task, active), retry) ==> (retry <==> active
                == Some((*task).transport)),
{
}

/// An attempt delivers its report to the end of a queue with fewer than sixteen
/// reports. A full queue stays as it is and is counted.
pub proof fn law_attempt_delivers_or_counts()
    ensures
        forall|task: &mut EnqueueTask, queues: &mut ReportQueues, delivered: bool| #[trigger]
            call_ensures(EnqueueTask::attempt, (task, queues), delivered) ==> {
                let before = (*queues).queued((*task).transport);
                let after = final(queues).queued((*task).transport);
                &&& delivered <==> before.len() < 16
                &&& delivered ==> after == before.push((*task).report) && *final(task) == *task
                &&& !delivered ==> after == before && final(task).report == (*task).report
                    && final(task).transport == (*task).transport && final(task).full_retries == (
                if (*task).full_retries == 0xffff_ffff {
                    0xffff_ffff
                } else {
                    (*task).full_retries + 1
                })
                &&& (*task).transport == ConnectionType::Usb ==> final(queues).ble == (*queues).ble
                &&& (*task).transport == ConnectionType::Ble ==> final(queues).usb == (*queues).usb
            },
{
}

/// A queue takes up to sixteen reports at its end, gives them out from its
/// start, tells how many there are and forgets them all at once.
pub proof fn law_report_queue_is_first_in_first_out()
    ensures
        forall|queue: ReportQueue| #[trigger]
            call_ensures(ReportQueue::new, (), queue) ==> queue@.len() == 0,
        forall|queue: &mut ReportQueue, report: QueuedReport, result: Result<(), QueuedReport>|
         #[trigger]
            call_ensures(ReportQueue::try_send, (queue, report), result) ==> {
                &&& (*queue)@.len() < 16 ==> result is Ok && final(queue)@ == (*queue)@.push(report)
                &&& (*queue)@.len() >= 16 ==> result is Err && result->Err_0 == report
                    && final(queue)@ == (*queue)@
            },
        forall|queue: &mut ReportQueue, report: Option<QueuedReport>| #[trigger]
            call_ensures(ReportQueue::try_receive, (queue,), report) ==> {
                &&& (*queue)@.len() == 0 ==> report is None && final(queue)@ == (*queue)@
                &&& (*queue)@.len() > 0 ==> report == Some((*queue)@[0]) && final(queue)@
                    == (*queue)@.skip(1)
            },
        forall|queue: &mut ReportQueue| #[trigger]
            call_ensures(ReportQueue::clear, (queue,), ()) ==> final(queue)@.len() == 0,
        forall|queue: &ReportQueue, count: usize| #[trigger]
            call_ensures(ReportQueue::len, (queue,), count) ==> count == (*queue)@.len(),
{
    assert forall|queue: &mut ReportQueue, report: Option<QueuedReport>| #[trigger]
        call_ensures(ReportQueue::try_receive, (queue,), report) implies {
        &&& (*queue)@.len() == 0 ==> report is None && final(queue)@ == (*queue)@
        &&& (*queue)@.len() > 0 ==> report == Some((*queue)@[0]) && final(queue)@
            == (*queue)@.skip(1)
    } by {
        if (*queue)@.len() > 0 {
            assert((*queue)@.drop_first() =~= (*queue)@.skip(1));
        }
    }
}

/// Releasing a transport's keys leaves one report for its writer, a keyboard
/// report with no modifier and no key, and leaves the other transport alone.
pub proof fn law_released_transport_holds_no_key(transport: ConnectionType)
    ensures
        forall|queues: &mut ReportQueues| #[trigger]
            call_ensures(ReportQueues::clear_and_release_report_channel, (queues, transport), ())
                ==> {
                let present = match transport {
                    ConnectionType::Usb => (*queues).usb is Some,
                    ConnectionType::Ble => (*queues).ble is Some,
                };
                &&& !present ==> *final(queues) == *queues
                &&& present ==> final(queues).queued(transport).len() == 1 && (
                final(queues).queued(transport)[0].payload matches QueuedReportPayload::Hid(
                    Report::KeyboardReport(report),
                ) && report.modifier == 0 && report.reserved == 0 && report.leds == 0
                    && report.keycodes@ == seq![
                    0u8,
                    0u8,
                    0u8,
                    0u8,
                    0u8,
                    0u8,
                ])
                &&& transport == ConnectionType::Usb ==> final(queues).ble == (*queues).ble
                &&& transport == ConnectionType::Ble ==> final(queues).usb == (*queues).usb
            },
{
}

/// A report is offered to the selected transport only: where the build has it
/// and its queue has room the report goes to the end, and otherwise it is
/// dropped without a change.
pub proof fn law_offered_report_never_waits(active: Option<ConnectionType>, report: Report)
    ensures
        forall|queues: &mut ReportQueues| #[trigger]
            call_ensures(ReportQueues::try_send_hid_report, (queues, active, report), ()) ==> {
                let present = match active {
                    Some(ConnectionType::Usb) => (*queues).usb is Some,
                    Some(ConnectionType::Ble) => (*queues).ble is Some,
                    None => false,
                };
                &&& !present ==> *final(queues) == *queues
                &&& present && (*queues).queued(active->0).len() >= 16 ==> final(queues).queued(
                active->0) == (*queues).queued(active->0)
                &&& present && (*queues).queued(active->0).len() < 16 ==> {
                    let before = (*queues).queued(active->0);
                    let after = final(queues).queued(active->0);
                    &&& after.len() == before.len() + 1
                    &&& after.drop_last() == before
                    &&& after.last().payload == QueuedReportPayload::Hid(report)
                }
                &&& active == Some(ConnectionType::Usb) ==> final(queues).ble == (*queues).ble
                &&& active == Some(ConnectionType::Ble) ==> final(queues).usb == (*queues).usb
            },
{
    assert forall|queues: &mut ReportQueues| #[trigger]
        call_ensures(ReportQueues::try_send_hid_report, (queues, active, report), ()) implies {
        let present = match active {
            Some(ConnectionType::Usb) => (*queues).usb is Some,
            Some(ConnectionType::Ble) => (*queues).ble is Some,
            None => false,
        };
        present && (*queues).queued(active->0).len() < 16 ==> final(queues).queued(
        active->0).drop_last() == (*queues).queued(active->0)
    } by {
        if (*queues).active_target(active) is Some && (*queues).queued(active->0).len() < 16 {
            assert(final(queues).queued(active->0).drop_last() =~= (*queues).queued(active->0));
        }
    }
}

/// A mouse event is queued in its own width, and a report as it is, both with
/// the time at which they entered.
pub proof fn law_queued_items_keep_their_width()
    ensures
        forall|report: Report, now: Instant, queued: QueuedReport| #[trigger]
            call_ensures(QueuedReport::new_at, (report, now), queued) ==> queued.payload
                == QueuedReportPayload::Hid(report) && queued.enqueued_at == now,
        forall|
            buttons: u8,
            x: i16,
            y: i16,
            wheel: i16,
            pan: i16,
            now: Instant,
            queued: QueuedReport,
        | #[trigger]
            call_ensures(
                QueuedReport::new_wide_mouse_at,
                (buttons, x, y, wheel, pan, now),
                queued,
            ) ==> queued.enqueued_at == now && (
            queued.payload matches QueuedReportPayload::WideMouse(mouse) && mouse.buttons == buttons
                && mouse.x == x && mouse.y == y && mouse.wheel == wheel && mouse.pan == pan),
        forall|
            queues: &ReportQueues,
            active: Option<ConnectionType>,
            ble_state: BleState,
            buttons: u8,
            x: i16,
            y: i16,
            wheel: i16,
            pan: i16,
            task: Option<EnqueueTask>,
        | #[trigger]
            call_ensures(
                send_hid_mouse_report,
                (queues, active, ble_state, buttons, x, y, wheel, pan),
                task,
            ) ==> {
                &&& task is Some <==> (*queues).destination(active, ble_state) is Some
                &&& task matches Some(sending) ==> Some(sending.transport)
                    == (*queues).destination(active, ble_state) && sending.full_retries == 0 && (
                sending.report.payload matches QueuedReportPayload::WideMouse(mouse)
                    && mouse.buttons == buttons && mouse.x == x && mouse.y == y && mouse.wheel
                    == wheel && mouse.pan == pan)
            },
        forall|
            queues: &ReportQueues,
            active: Option<ConnectionType>,
            ble_state: BleState,
            report: Report,
            task: Option<EnqueueTask>,
        | #[trigger]
            call_ensures(send_hid_report, (queues, active, ble_state, report), task) ==> {
                &&& task is Some <==> (*queues).destination(active, ble_state) is Some
                &&& task matches Some(sending) ==> Some(sending.transport)
                    == (*queues).destination(active, ble_state) && sending.full_retries == 0
                    && sending.report.payload == QueuedReportPayload::Hid(report)
            },
{
}

/// A host queue takes up to four packets at its end and gives them out from its
/// start.
pub proof fn law_host_queue_is_first_in_first_out()
    ensures
        forall|queue: &mut HostQueue, packet: HostPacket, sent: bool| #[trigger]
            call_ensures(HostQueue::try_send, (queue, packet), sent) ==> {
                &&& sent <==> (*queue)@.len() < 4
                &&& sent ==> final(queue)@ == (*queue)@.push(packet)
                &&& !sent ==> final(queue)@ == (*queue)@
            },
        forall|queue: &mut HostQueue, packet: Option<HostPacket>| #[trigger]
            call_ensures(HostQueue::try_receive, (queue,), packet) ==> {
                &&& (*queue)@.len() == 0 ==> packet is None && final(queue)@ == (*queue)@
                &&& (*queue)@.len() > 0 ==> packet == Some((*queue)@[0]) && final(queue)@
                    == (*queue)@.drop_first()
            },
{
}

/// A reply goes to the queue of the transport that the request came in on,
/// tagged with its endpoint, and never to the other.
pub proof fn law_reply_returns_to_its_transport(transport: HostTransport, reply: [u8; 32])
    ensures
        forall|queues: &mut HostReplyQueues, sent: bool| #[trigger]
            call_ensures(HostReplyQueues::try_send_host_reply, (queues, transport, reply), sent)
                ==> {
                let (mine, after) = if transport == HostTransport::Usb {
                    ((*queues).usb, final(queues).usb)
                } else {
                    ((*queues).ble, final(queues).ble)
                };
                &&& transport == HostTransport::Usb ==> final(queues).ble == (*queues).ble
                &&& transport != HostTransport::Usb ==> final(queues).usb == (*queues).usb
                &&& sent <==> mine is Some && mine->0@.len() < 4
                &&& after is Some <==> mine is Some
                &&& sent ==> after->0@.len() == mine->0@.len() + 1 && after->0@.last().data == reply
                    && after->0@.last().transport == transport
                &&& mine is Some && !sent ==> after->0@ == mine->0@
            },
{
}

/// A queued item hands out what it was made of.
pub proof fn law_queued_items_hand_out_their_parts()
    ensures
        forall|report: Report, queued: QueuedReport| #[trigger]
            call_ensures(QueuedReport::new, (report,), queued) ==> queued.payload
                == QueuedReportPayload::Hid(report),
        forall|buttons: u8, x: i16, y: i16, wheel: i16, pan: i16, queued: QueuedReport| #[trigger]
            call_ensures(QueuedReport::new_wide_mouse, (buttons, x, y, wheel, pan), queued) ==> (
            queued.payload matches QueuedReportPayload::WideMouse(mouse) && mouse.buttons == buttons
                && mouse.x == x && mouse.y == y && mouse.wheel == wheel && mouse.pan == pan),
        forall|queued: &QueuedReport, report: &Report| #[trigger]
            call_ensures(QueuedReport::report, (queued,), report) ==> (*queued).payload
                == QueuedReportPayload::Hid(*report),
        forall|queued: QueuedReport, report: Report| #[trigger]
            call_ensures(QueuedReport::into_report, (queued,), report) ==> queued.payload
                == QueuedReportPayload::Hid(report),
        forall|queued: &QueuedReport, payload: &QueuedReportPayload| #[trigger]
            call_ensures(QueuedReport::payload, (queued,), payload) ==> *payload
                == (*queued).payload,
        forall|queued: QueuedReport, payload: QueuedReportPayload| #[trigger]
            call_ensures(QueuedReport::into_payload, (queued,), payload) ==> payload
                == queued.payload,
        forall|queued: &QueuedReport, at: Instant| #[trigger]
            call_ensures(QueuedReport::enqueued_at, (queued,), at) ==> at == (*queued).enqueued_at,
{
}

/// The queues of a build start empty, one for each transport that it has, and
/// each takes and counts its own reports.
pub proof fn law_transports_have_their_own_queues(transport: ConnectionType)
    ensures
        forall|with_usb: bool, with_ble: bool, queues: ReportQueues| #[trigger]
            call_ensures(ReportQueues::new, (with_usb, with_ble), queues) ==> {
                &&& queues.usb is Some <==> with_usb
                &&& queues.ble is Some <==> with_ble
                &&& with_usb ==> queues.usb->0@.len() == 0
                &&& with_ble ==> queues.ble->0@.len() == 0
            },
        forall|queues: &mut ReportQueues, report: QueuedReport, result: Result<(), QueuedReport>|
         #[trigger]
            call_ensures(ReportQueues::try_send_to, (queues, transport, report), result) ==> {
                let before = (*queues).queued(transport);
                let after = final(queues).queued(transport);
                &&& before.len() < 16 ==> result is Ok && after == before.push(report)
                &&& before.len() >= 16 ==> result is Err && result->Err_0 == report && after
                    == before
                &&& transport == ConnectionType::Usb ==> final(queues).ble == (*queues).ble
                &&& transport == ConnectionType::Ble ==> final(queues).usb == (*queues).usb
            },
        forall|queues: &ReportQueues, count: usize| #[trigger]
            call_ensures(ReportQueues::len_of, (queues, transport), count) ==> {
                &&& transport == ConnectionType::Usb ==> count == (*queues).usb->0@.len()
                &&& transport == ConnectionType::Ble ==> count == (*queues).ble->0@.len()
            },
        forall|queue: HostQueue| #[trigger]
            call_ensures(HostQueue::new, (), queue) ==> queue@.len() == 0,
{
}

/// The queue of a transport is its own.
pub proof fn law_queues_are_told_apart(queues: ReportQueues)
    ensures
        queues.has(ConnectionType::Usb) <==> queues.usb is Some,
        queues.has(ConnectionType::Ble) <==> queues.ble is Some,
        queues.queued(ConnectionType::Usb) == queues.usb->0@,
        queues.queued(ConnectionType::Ble) == queues.ble->0@,
{
}

} // verus!
