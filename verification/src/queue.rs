//! Bounded queues from `embassy-sync`.

use embassy_sync::blocking_mutex::raw::NoopRawMutex;
use embassy_sync::channel::{Channel, TrySendError};
use vstd::prelude::*;

use crate::channel::{HostPacket, QueuedReport};

verus! {

/// Reports that one transport can have queued.
pub const REPORT_CHANNEL_SIZE: usize = 16;

/// Host packets that one endpoint can have queued.
pub const VIAL_CHANNEL_SIZE: usize = 4;

/// A bounded channel of `embassy-sync` for the reports of one transport.
#[verifier::external_body]
pub struct ReportChannel {
    channel: Channel<NoopRawMutex, QueuedReport, REPORT_CHANNEL_SIZE>,
}

/// A bounded channel of `embassy-sync` for host packets.
#[verifier::external_body]
pub struct PacketChannel {
    channel: Channel<NoopRawMutex, HostPacket, VIAL_CHANNEL_SIZE>,
}

/// The reports in a channel, the oldest first.
pub uninterp spec fn queued_reports(channel: ReportChannel) -> Seq<QueuedReport>;

/// Calls `embassy_sync::channel::Channel::new`: a channel without reports.
#[verifier::external_body]
pub(crate) fn new_report_channel() -> (channel: ReportChannel)
    ensures
        queued_reports(channel) == Seq::<QueuedReport>::empty(),
{
    ReportChannel { channel: Channel::new() }
}

/// Calls `embassy_sync::channel::Channel::try_send`: the report goes to the end
/// of a channel with room, and comes back from a full one.
#[verifier::external_body]
pub(crate) fn try_send_report(
    channel: &mut ReportChannel,
    report: QueuedReport,
) -> (result: Result<(), QueuedReport>)
    ensures
        queued_reports(*old(channel)).len() < REPORT_CHANNEL_SIZE ==> result is Ok
            && queued_reports(*final(channel)) == queued_reports(*old(channel)).push(report),
        queued_reports(*old(channel)).len() >= REPORT_CHANNEL_SIZE ==> result is Err
            && result->Err_0 == report && queued_reports(*final(channel)) == queued_reports(
            *old(channel),
        ),
{
    match channel.channel.try_send(report) {
        Ok(()) => Ok(()),
        Err(TrySendError::Full(report)) => Err(report),
    }
}

/// Calls `embassy_sync::channel::Channel::try_receive`: the oldest report
/// leaves the channel, where there is one.
#[verifier::external_body]
pub(crate) fn try_receive_report(channel: &mut ReportChannel) -> (report:
    Option<QueuedReport>)
    ensures
        queued_reports(*old(channel)).len() > 0 ==> report == Some(
            queued_reports(*old(channel)).first(),
        ) && queued_reports(*final(channel)) == queued_reports(*old(channel)).drop_first(),
        queued_reports(*old(channel)).len() == 0 ==> report is None && queued_reports(
            *final(channel),
        ) == queued_reports(*old(channel)),
{
    channel.channel.try_receive().ok()
}

/// Calls `embassy_sync::channel::Channel::clear`: every report leaves.
#[verifier::external_body]
pub(crate) fn clear_reports(channel: &mut ReportChannel)
    ensures
        queued_reports(*final(channel)) == Seq::<QueuedReport>::empty(),
{
    channel.channel.clear()
}

/// Calls `embassy_sync::channel::Channel::len`: the number of reports.
#[verifier::external_body]
pub(crate) fn report_count(channel: &ReportChannel) -> (count: usize)
    ensures
        count == queued_reports(*channel).len(),
{
    channel.channel.len()
}

/// The host packets in a channel, the oldest first.
pub uninterp spec fn queued_packets(channel: PacketChannel) -> Seq<HostPacket>;

/// Calls `embassy_sync::channel::Channel::new`: a channel without packets.
#[verifier::external_body]
pub(crate) fn new_packet_channel() -> (channel: PacketChannel)
    ensures
        queued_packets(channel) == Seq::<HostPacket>::empty(),
{
    PacketChannel { channel: Channel::new() }
}

/// Calls `embassy_sync::channel::Channel::try_send`: the packet goes to the end
/// of a channel with room, and is refused by a full one.
#[verifier::external_body]
pub(crate) fn try_send_packet(
    channel: &mut PacketChannel,
    packet: HostPacket,
) -> (sent: bool)
    ensures
        sent == (queued_packets(*old(channel)).len() < VIAL_CHANNEL_SIZE),
        queued_packets(*final(channel)) == (if sent {
            queued_packets(*old(channel)).push(packet)
        } else {
            queued_packets(*old(channel))
        }),
{
    channel.channel.try_send(packet).is_ok()
}

/// Calls `embassy_sync::channel::Channel::try_receive`: the oldest packet
/// leaves the channel, where there is one.
#[verifier::external_body]
pub(crate) fn try_receive_packet(channel: &mut PacketChannel) -> (packet:
    Option<HostPacket>)
    ensures
        queued_packets(*old(channel)).len() > 0 ==> packet == Some(
            queued_packets(*old(channel)).first(),
        ) && queued_packets(*final(channel)) == queued_packets(*old(channel)).drop_first(),
        queued_packets(*old(channel)).len() == 0 ==> packet is None && queued_packets(
            *final(channel),
        ) == queued_packets(*old(channel)),
{
    channel.channel.try_receive().ok()
}

} // verus!
