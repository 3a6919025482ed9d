//! What GATT requests and connection events of a host lead to.

use vstd::prelude::*;

use crate::ble_status::{BleState, BleStatusCell};
use crate::channel::{BleHostTransport, HostPacket, HostTransport};

verus! {

/// ATT error: the link must be encrypted first.
pub const INSUFFICIENT_ENCRYPTION: u8 = 0x0f;

/// HID control point: the host suspends.
pub const HID_CTRL_SUSPEND: u8 = 0;

/// HID control point: the host is awake again.
pub const HID_CTRL_EXIT_SUSPEND: u8 = 1;

pub const HOST_PACKET_LEN: usize = 32;

/// Attribute handles of the Vial endpoints.
#[derive(Clone, Copy, Debug, PartialEq, Eq, Structural)]
pub struct VialHandles {
    pub hid_output: u16,
    pub gatt_output: u16,
    pub hid_input_cccd: u16,
    pub gatt_input_cccd: u16,
}

/// Attribute handles that the keyboard reacts to.
#[derive(Clone, Copy, Debug, PartialEq, Eq, Structural)]
pub struct GattHandles {
    pub output_keyboard: u16,
    pub hid_control_point: u16,
    pub input_keyboard_cccd: u16,
    pub mouse_cccd: u16,
    pub media_cccd: u16,
    pub system_cccd: u16,
    pub battery_level_cccd: u16,
    /// In builds with a host service.
    pub vial: Option<VialHandles>,
}

#[derive(Clone, Copy, Debug, PartialEq, Eq, Structural)]
pub enum GattRequest {
    Read,
    Write { handle: u16 },
    Other,
    NotAllowed,
}

/// What a write means to the keyboard.
#[derive(Clone, Copy, Debug, PartialEq, Eq, Structural)]
pub enum WriteEffect {
    Ignored,
    /// The host set the LED indicators.
    Leds(u8),
    /// A client changed a notification subscription.
    CccdUpdated,
    /// The host suspends.
    RequestSleep,
    /// The host is active again.
    ReportActivity,
    /// A Vial request came in on an endpoint. It counts as activity.
    HostPacket(BleHostTransport),
}

#[derive(Clone, Copy, Debug, PartialEq, Eq, Structural)]
pub enum GattReply {
    Accept,
    Reject(u8),
}

/// What a request leads to: its effect, and the reply, unless the security
/// level of the link could not be read, which ends the session.
#[derive(Clone, Copy, Debug, PartialEq, Eq, Structural)]
pub struct GattOutcome {
    pub effect: WriteEffect,
    pub reply: Option<GattReply>,
}

impl GattHandles {
    pub open spec fn is_cccd(self, handle: u16) -> bool {
        handle == self.input_keyboard_cccd || handle == self.mouse_cccd || handle
            == self.media_cccd || handle == self.system_cccd || handle == self.battery_level_cccd
    }

    /// The effect of a write to an attribute that only the host service knows.
    pub open spec fn vial_effect(self, handle: u16, data: Seq<u8>) -> WriteEffect {
        match self.vial {
            None => WriteEffect::Ignored,
            Some(vial) => if handle == vial.hid_output || handle == vial.gatt_output {
                if data.len() != 32 {
                    WriteEffect::Ignored
                } else if handle == vial.gatt_output {
                    WriteEffect::HostPacket(BleHostTransport::VendorGatt)
                } else {
                    WriteEffect::HostPacket(BleHostTransport::Hid)
                }
            } else if handle == vial.hid_input_cccd || handle == vial.gatt_input_cccd {
                WriteEffect::CccdUpdated
            } else {
                WriteEffect::Ignored
            },
        }
    }

    /// The effect of a write of `data`. Writes of the wrong length have none.
    pub open spec fn effect(self, handle: u16, data: Seq<u8>) -> WriteEffect {
        if handle == self.output_keyboard {
            if data.len() == 1 {
                WriteEffect::Leds(data[0])
            } else {
                WriteEffect::Ignored
            }
        } else if self.is_cccd(handle) {
            WriteEffect::CccdUpdated
        } else if handle == self.hid_control_point {
            if data.len() == 1 && data[0] == HID_CTRL_SUSPEND {
                WriteEffect::RequestSleep
            } else if data.len() == 1 && data[0] == HID_CTRL_EXIT_SUSPEND {
                WriteEffect::ReportActivity
            } else {
                WriteEffect::Ignored
            }
        } else {
            self.vial_effect(handle, data)
        }
    }

    fn vial_write_effect(&self, handle: u16, data: &[u8]) -> (effect: WriteEffect)
        ensures
            effect == self.vial_effect(handle, data@),
    {
        match self.vial {
            None => WriteEffect::Ignored,
            Some(vial) => {
                if handle == vial.hid_output || handle == vial.gatt_output {
                    if data.len() != HOST_PACKET_LEN {
                        WriteEffect::Ignored
                    } else if handle == vial.gatt_output {
                        WriteEffect::HostPacket(BleHostTransport::VendorGatt)
                    } else {
                        WriteEffect::HostPacket(BleHostTransport::Hid)
                    }
                } else if handle == vial.hid_input_cccd || handle == vial.gatt_input_cccd {
                    WriteEffect::CccdUpdated
                } else {
                    WriteEffect::Ignored
                }
            },
        }
    }

    pub fn write_effect(&self, handle: u16, data: &[u8]) -> (effect: WriteEffect)
        ensures
            effect == self.effect(handle, data@),
    {
        if handle == self.output_keyboard {
            if data.len() == 1 {
                return WriteEffect::Leds(data[0]);
            }
            return WriteEffect::Ignored;
        }
        if handle == self.input_keyboard_cccd || handle == self.mouse_cccd || handle
            == self.media_cccd || handle == self.system_cccd || handle == self.battery_level_cccd {
            return WriteEffect::CccdUpdated;
        }
        if handle == self.hid_control_point {
            if data.len() == 1 {
                if data[0] == HID_CTRL_SUSPEND {
                    return WriteEffect::RequestSleep;
                }
                if data[0] == HID_CTRL_EXIT_SUSPEND {
                    return WriteEffect::ReportActivity;
                }
            }
            return WriteEffect::Ignored;
        }
        self.vial_write_effect(handle, data)
    }

    /// What a request that brought `data` means to the keyboard. Only writes
    /// mean anything.
    pub open spec fn effect_of(self, request: GattRequest, data: Seq<u8>) -> WriteEffect {
        match request {
            GattRequest::Write { handle } => self.effect(handle, data),
            _ => WriteEffect::Ignored,
        }
    }

    /// The outcome of a request on a link whose encryption is known or not.
    pub open spec fn outcome(
        self,
        request: GattRequest,
        data: Seq<u8>,
        encrypted: Option<bool>,
    ) -> GattOutcome {
        GattOutcome { effect: self.effect_of(request, data), reply: reply_to(request, encrypted) }
    }

    /// The effect of a request, which comes before its reply.
    pub fn request_effect(&self, request: GattRequest, data: &[u8]) -> (effect: WriteEffect)
        ensures
            effect == self.effect_of(request, data@),
    {
        match request {
            GattRequest::Write { handle } => self.write_effect(handle, data),
            _ => WriteEffect::Ignored,
        }
    }

    /// Decides on a request. `data` is what a write brought.
    pub fn handle_request(&self, request: GattRequest, data: &[u8], encrypted: Option<bool>) -> (
        outcome: GattOutcome)
        ensures
            outcome == self.outcome(request, data@, encrypted),
    {
        GattOutcome {
            effect: self.request_effect(request, data),
            reply: request_reply(request, encrypted),
        }
    }
}

/// The reply to a request: reads and writes need an encrypted link. There is
/// none where the encryption of the link is not known.
pub open spec fn reply_to(request: GattRequest, encrypted: Option<bool>) -> Option<GattReply> {
    match request {
        GattRequest::Read | GattRequest::Write { .. } => match encrypted {
            Some(true) => Some(GattReply::Accept),
            Some(false) => Some(GattReply::Reject(INSUFFICIENT_ENCRYPTION)),
            None => None,
        },
        _ => Some(GattReply::Accept),
    }
}

/// The reply to a request, given the encryption of the link once the effect of
/// the request is served.
pub fn request_reply(request: GattRequest, encrypted: Option<bool>) -> (reply: Option<GattReply>)
    ensures
        reply == reply_to(request, encrypted),
{
    match request {
        GattRequest::Read | GattRequest::Write { .. } => match encrypted {
            Some(encrypted) => if encrypted {
                Some(GattReply::Accept)
            } else {
                Some(GattReply::Reject(INSUFFICIENT_ENCRYPTION))
            },
            None => None,
        },
        _ => Some(GattReply::Accept),
    }
}

/// The packet of a Vial request, tagged with its endpoint.
pub fn host_packet(endpoint: BleHostTransport, data: &[u8]) -> (packet: HostPacket)
    requires
        data@.len() == 32,
    ensures
        packet.transport == HostTransport::Ble(endpoint),
        packet.data@ == data@,
{
    let mut copy: [u8; 32] = [0;32];
    let mut i: usize = 0;
    while i < 32
        invariant
            i <= 32,
            data@.len() == 32,
            copy@.len() == 32,
            forall|k: int| 0 <= k < i ==> copy@[k] == data@[k],
        decreases 32 - i,
    {
        copy[i] = data[i];
        i = i + 1;
    }
    assert(copy@ =~= data@);
    HostPacket { transport: HostTransport::Ble(endpoint), data: copy }
}

// Connection events

/// How the build handles passkey entry.
#[derive(Clone, Copy, Debug, PartialEq, Eq, Structural)]
pub enum PasskeyEntry {
    /// The build cannot enter passkeys.
    Absent,
    /// It can, but the configuration forbids it.
    Disabled,
    Enabled,
}

#[derive(Clone, Copy, Debug, PartialEq, Eq, Structural)]
pub enum ConnectionEvent {
    Disconnected,
    /// Pairing succeeded, and left a bond or not.
    PairingComplete { bonded: bool },
    PairingFailed,
    Encrypted,
    PassKeyInput,
    /// Anything that is only logged.
    Notice,
}

#[derive(Clone, Copy, Debug, PartialEq, Eq, Structural)]
pub enum SessionAction {
    Continue,
    /// The session is over.
    End,
    /// Store the bond under this profile.
    SaveBond { profile: u8 },
    CancelPasskey,
}

/// The GATT session of one connection.
#[derive(Clone, Copy, Debug, PartialEq, Eq, Structural)]
pub struct GattSession {
    pub passkey_entry: PasskeyEntry,
    /// A passkey is being entered.
    pub entering_passkey: bool,
}

impl GattSession {
    pub fn new(passkey_entry: PasskeyEntry) -> (session: GattSession)
        ensures
            session == (GattSession { passkey_entry, entering_passkey: false }),
    {
        GattSession { passkey_entry, entering_passkey: false }
    }

    /// Whether a passkey is being entered after an event.
    pub open spec fn entering_after(self, event: ConnectionEvent) -> bool {
        match event {
            ConnectionEvent::Disconnected | ConnectionEvent::PairingComplete { .. }
            | ConnectionEvent::PairingFailed => false,
            ConnectionEvent::PassKeyInput => self.entering_passkey || self.passkey_entry
                == PasskeyEntry::Enabled,
            _ => self.entering_passkey,
        }
    }

    pub open spec fn action_on(self, event: ConnectionEvent, profile: u8) -> SessionAction {
        match event {
            ConnectionEvent::Disconnected => SessionAction::End,
            ConnectionEvent::PairingComplete { bonded: true } => SessionAction::SaveBond {
                profile,
            },
            ConnectionEvent::PassKeyInput => if self.passkey_entry == PasskeyEntry::Disabled {
                SessionAction::CancelPasskey
            } else {
                SessionAction::Continue
            },
            _ => SessionAction::Continue,
        }
    }

    /// Takes a connection event. Only an encrypted link counts as connected.
    pub fn take_event(&mut self, event: ConnectionEvent, status: &mut BleStatusCell) -> (action:
        SessionAction)
        ensures
            action == old(self).action_on(event, old(status).status.profile),
            *final(self) == (GattSession {
                entering_passkey: old(self).entering_after(event),
                ..*old(self)
            }),
            final(status).status.profile == old(status).status.profile,
            final(status).advertising_mode == old(status).advertising_mode,
            final(status).status.state == (if event == ConnectionEvent::Encrypted {
                BleState::Connected
            } else {
                old(status).status.state
            }),
    {
        match event {
            ConnectionEvent::Disconnected => {
                self.entering_passkey = false;
                SessionAction::End
            },
            ConnectionEvent::PairingComplete { bonded } => {
                self.entering_passkey = false;
                if bonded {
                    SessionAction::SaveBond { profile: status.current_ble_status().profile }
                } else {
                    SessionAction::Continue
                }
            },
            ConnectionEvent::PairingFailed => {
                self.entering_passkey = false;
                SessionAction::Continue
            },
            ConnectionEvent::Encrypted => {
                status.set_ble_state(BleState::Connected);
                SessionAction::Continue
            },
            ConnectionEvent::PassKeyInput => {
                match self.passkey_entry {
                    PasskeyEntry::Enabled => {
                        self.entering_passkey = true;
                        SessionAction::Continue
                    },
                    PasskeyEntry::Disabled => SessionAction::CancelPasskey,
                    PasskeyEntry::Absent => SessionAction::Continue,
                }
            },
            ConnectionEvent::Notice => SessionAction::Continue,
        }
    }
}

// Laws

/// Every read and write on an unencrypted link is answered with the error that
/// makes a host encrypt, and on an encrypted link it is accepted.
pub proof fn law_unencrypted_access_is_refused(
    handles: GattHandles,
    request: GattRequest,
    data: Seq<u8>,
)
    requires
        request is Read || request is Write,
    ensures
        handles.outcome(request, data, Some(false)).reply == Some(
            GattReply::Reject(INSUFFICIENT_ENCRYPTION),
        ),
        handles.outcome(request, data, None).reply is None,
        handles.outcome(request, data, Some(true)).reply == Some(GattReply::Accept),
{
}

/// Writes of the wrong length are ignored: LEDs and the control point take one
/// byte, Vial endpoints take whole packets.
pub proof fn law_malformed_writes_have_no_effect(handles: GattHandles, handle: u16, data: Seq<u8>)
    requires
        !handles.is_cccd(handle),
        handles.vial matches Some(vial) ==> handle != vial.hid_input_cccd && handle
            != vial.gatt_input_cccd,
        data.len() != 1,
        data.len() != 32,
    ensures
        handles.effect(handle, data) == WriteEffect::Ignored,
{
}

/// A Vial request is tagged with the endpoint that it came in on, so that the
/// reply can go back there.
pub proof fn law_vial_requests_keep_their_endpoint(handles: GattHandles, data: Seq<u8>)
    requires
        handles.vial matches Some(vial) && vial.hid_output != vial.gatt_output && handles.effect(
            vial.hid_output,
            data,
        ) is HostPacket && handles.effect(vial.gatt_output, data) is HostPacket,
    ensures
        handles.effect(handles.vial->0.hid_output, data) == WriteEffect::HostPacket(
            BleHostTransport::Hid,
        ),
        handles.effect(handles.vial->0.gatt_output, data) == WriteEffect::HostPacket(
            BleHostTransport::VendorGatt,
        ),
{
}

/// The LED output takes one byte and nothing else.
pub proof fn law_led_output_takes_one_byte(handles: GattHandles, data: Seq<u8>)
    ensures
        ({
            let effect = handles.effect(handles.output_keyboard, data);
            &&& data.len() == 1 ==> effect == WriteEffect::Leds(data[0])
            &&& data.len() != 1 ==> effect == WriteEffect::Ignored
        }),
{
}

/// A write to a subscription of the keyboard, the mouse, the media keys, the
/// system keys or the battery level is a changed subscription, whatever it
/// brings.
pub proof fn law_subscriptions_are_noticed(handles: GattHandles, handle: u16, data: Seq<u8>)
    requires
        handle != handles.output_keyboard,
        handle == handles.input_keyboard_cccd || handle == handles.mouse_cccd || handle
            == handles.media_cccd || handle == handles.system_cccd || handle
            == handles.battery_level_cccd,
    ensures
        handles.effect(handle, data) == WriteEffect::CccdUpdated,
{
}

/// The control point takes one byte: zero asks the keyboard to sleep and one
/// says that the host is awake. Anything else is ignored.
pub proof fn law_control_point_suspends_and_resumes(handles: GattHandles, data: Seq<u8>)
    requires
        ({
            let point = handles.hid_control_point;
            &&& point != handles.output_keyboard && point != handles.input_keyboard_cccd
            &&& point != handles.mouse_cccd && point != handles.media_cccd
            &&& point != handles.system_cccd && point != handles.battery_level_cccd
        }),
    ensures
        ({
            let effect = handles.effect(handles.hid_control_point, data);
            &&& effect == WriteEffect::RequestSleep <==> data.len() == 1 && data[0] == 0
            &&& effect == WriteEffect::ReportActivity <==> data.len() == 1 && data[0] == 1
            &&& effect == WriteEffect::Ignored <==> data.len() != 1 || data[0] > 1
        }),
{
}

/// The host service takes whole packets of 32 bytes on its two outputs, and
/// notices changed subscriptions on its two inputs. Without the service, and on
/// any other attribute, a write is ignored.
pub proof fn law_host_service_takes_whole_packets(
    handles: GattHandles,
    handle: u16,
    data: Seq<u8>,
)
    requires
        handle != handles.output_keyboard && handle != handles.input_keyboard_cccd,
        handle != handles.mouse_cccd && handle != handles.media_cccd,
        handle != handles.system_cccd && handle != handles.battery_level_cccd,
        handle != handles.hid_control_point,
    ensures
        ({
            let effect = handles.effect(handle, data);
            &&& handles.vial is None ==> effect == WriteEffect::Ignored
            &&& handles.vial matches Some(vial) ==> {
                let output = handle == vial.hid_output || handle == vial.gatt_output;
                let input = handle == vial.hid_input_cccd || handle == vial.gatt_input_cccd;
                &&& handle == vial.gatt_output && data.len() == 32 ==> effect
                    == WriteEffect::HostPacket(BleHostTransport::VendorGatt)
                &&& handle == vial.hid_output && handle != vial.gatt_output && data.len() == 32
                    ==> effect == WriteEffect::HostPacket(BleHostTransport::Hid)
                &&& output && data.len() != 32 ==> effect == WriteEffect::Ignored
                &&& !output && input ==> effect == WriteEffect::CccdUpdated
                &&& !output && !input ==> effect == WriteEffect::Ignored
            }
        }),
{
}

/// Only writes mean anything to the keyboard, and they mean the same on every
/// link. Reads and writes are answered by the encryption of the link: accepted
/// on an encrypted one, refused with error 15 on another, and not at all where
/// it is not known. Every other request is accepted.
pub proof fn law_requests_are_answered_by_encryption(
    handles: GattHandles,
    request: GattRequest,
    data: Seq<u8>,
    encrypted: Option<bool>,
)
    ensures
        ({
            let outcome = handles.outcome(request, data, encrypted);
            let guarded = request is Read || request is Write;
            &&& request matches GattRequest::Write { handle } ==> outcome.effect == handles.effect(
                handle,
                data,
            )
            &&& !(request is Write) ==> outcome.effect == WriteEffect::Ignored
            &&& !guarded ==> outcome.reply == Some(GattReply::Accept)
            &&& guarded && encrypted is None ==> outcome.reply is None
            &&& guarded && encrypted == Some(true) ==> outcome.reply == Some(GattReply::Accept)
            &&& guarded && encrypted == Some(false) ==> outcome.reply == Some(GattReply::Reject(15))
        }),
{
}

/// A passkey is being entered from the request for it, in a build that may take
/// one, until the pairing or the connection ends.
pub proof fn law_passkey_entry_ends_with_the_pairing(session: GattSession, event: ConnectionEvent)
    ensures
        ({
            let ends = event is Disconnected || event is PairingComplete || event is PairingFailed;
            &&& ends ==> !session.entering_after(event)
            &&& event is PassKeyInput && session.passkey_entry == PasskeyEntry::Enabled
                ==> session.entering_after(event)
            &&& !ends && !(event is PassKeyInput && session.passkey_entry == PasskeyEntry::Enabled)
                ==> session.entering_after(event) == session.entering_passkey
        }),
{
}

/// A session ends with the connection, stores a bond under the profile in force
/// when pairing left one, and cancels a passkey that the configuration forbids.
/// Nothing else asks for an action.
pub proof fn law_session_acts_for_a_reason(
    session: GattSession,
    event: ConnectionEvent,
    profile: u8,
)
    ensures
        ({
            let action = session.action_on(event, profile);
            &&& action == SessionAction::End <==> event is Disconnected
            &&& action is SaveBond <==> event == (ConnectionEvent::PairingComplete { bonded: true })
            &&& action matches SessionAction::SaveBond { profile: stored } ==> stored == profile
            &&& action == SessionAction::CancelPasskey <==> event is PassKeyInput
                && session.passkey_entry == PasskeyEntry::Disabled
        }),
{
}

/// Taking an event answers with the action that it asks for under the profile in
/// force, keeps track of the passkey, and counts the link as connected only once
/// it is encrypted.
pub proof fn law_only_encryption_connects()
    ensures
        forall|
            session: &mut GattSession,
            event: ConnectionEvent,
            status: &mut BleStatusCell,
            action: SessionAction,
        | #[trigger]
            call_ensures(GattSession::take_event, (session, event, status), action) ==> {
                &&& action == (*session).action_on(event, (*status).status.profile)
                &&& final(session).entering_passkey == (*session).entering_after(event)
                &&& final(session).passkey_entry == (*session).passkey_entry
                &&& event is Encrypted ==> final(status).status.state == BleState::Connected
                &&& !(event is Encrypted) ==> final(status).status.state == (*status).status.state
                &&& final(status).status.profile == (*status).status.profile
                &&& final(status).advertising_mode == (*status).advertising_mode
            },
{
}

/// What the handlers decide on is what they return.
pub proof fn law_handlers_return_their_decision()
    ensures
        forall|handles: &GattHandles, handle: u16, data: &[u8], effect: WriteEffect| #[trigger]
            call_ensures(GattHandles::write_effect, (handles, handle, data), effect) ==> effect
                == (*handles).effect(handle, data@),
        forall|
            handles: &GattHandles,
            request: GattRequest,
            data: &[u8],
            encrypted: Option<bool>,
            outcome: GattOutcome,
        | #[trigger]
            call_ensures(GattHandles::handle_request, (handles, request, data, encrypted), outcome)
                ==> outcome == (*handles).outcome(request, data@, encrypted),
        forall|handles: &GattHandles, request: GattRequest, data: &[u8], effect: WriteEffect|
         #[trigger]
            call_ensures(GattHandles::request_effect, (handles, request, data), effect) ==> effect
                == (*handles).outcome(request, data@, None).effect,
        forall|request: GattRequest, encrypted: Option<bool>, reply: Option<GattReply>| #[trigger]
            call_ensures(request_reply, (request, encrypted), reply) ==> reply == reply_to(
                request,
                encrypted,
            ),
{
}

/// A packet carries its request and the endpoint that it came in on.
pub proof fn law_packet_carries_its_request()
    ensures
        forall|endpoint: BleHostTransport, data: &[u8], packet: HostPacket| #[trigger]
            call_ensures(host_packet, (endpoint, data), packet) ==> packet.data@ == data@
                && packet.transport == HostTransport::Ble(endpoint),
{
}

} // verus!
