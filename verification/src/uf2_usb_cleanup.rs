//! Remove USB/POWER state left behind when the UF2 bootloader jumps directly
//! into the split-peripheral application.
//!
//! The right half does not own a USB device driver. If the bootloader leaves
//! USBD or POWER USB interrupts armed, removing VBUS can therefore dispatch an
//! interrupt into the application's default handler. A hardware Reset clears
//! the same state, which is why the failure disappears after a manual Reset.

use vstd::prelude::*;

verus! {

pub const POWER_EVENTS_USBDETECTED: u32 = 0x4000_011c;

pub const POWER_EVENTS_USBREMOVED: u32 = 0x4000_0120;

pub const POWER_EVENTS_USBPWRRDY: u32 = 0x4000_0124;

pub const POWER_INTENCLR: u32 = 0x4000_0308;

/// Bits 7, 8 and 9: the USB sources of the POWER peripheral.
pub const POWER_USB_INTERRUPT_MASK: u32 = 0x380;

pub const USBD_EVENTS_USBRESET: u32 = 0x4002_7100;

pub const USBD_EVENTS_STARTED: u32 = 0x4002_7104;

pub const USBD_EVENTS_ENDEPIN0: u32 = 0x4002_7108;

pub const USBD_EVENTS_EP0DATADONE: u32 = 0x4002_7128;

pub const USBD_EVENTS_ENDISOIN: u32 = 0x4002_712c;

pub const USBD_EVENTS_ENDEPOUT0: u32 = 0x4002_7130;

pub const USBD_EVENTS_ENDISOOUT: u32 = 0x4002_7150;

pub const USBD_EVENTS_SOF: u32 = 0x4002_7154;

pub const USBD_EVENTS_USBEVENT: u32 = 0x4002_7158;

pub const USBD_EVENTS_EP0SETUP: u32 = 0x4002_715c;

pub const USBD_EVENTS_EPDATA: u32 = 0x4002_7160;

pub const USBD_SHORTS: u32 = 0x4002_7200;

pub const USBD_INTENCLR: u32 = 0x4002_7308;

pub const USBD_EVENTCAUSE: u32 = 0x4002_7400;

pub const USBD_ENABLE: u32 = 0x4002_7500;

pub const USBD_USBPULLUP: u32 = 0x4002_7504;

pub const NVIC_ICER0: u32 = 0xe000_e180;

pub const NVIC_ICER1: u32 = 0xe000_e184;

pub const NVIC_ICPR0: u32 = 0xe000_e280;

pub const NVIC_ICPR1: u32 = 0xe000_e284;

pub const CLOCK_POWER_IRQ_BIT: u32 = 0x1;

/// Interrupt 39, in the second bank of 32.
pub const USBD_IRQ_BIT_IN_BANK1: u32 = 0x80;

pub const ALL_BITS: u32 = 0xffff_ffff;

/// A store to a peripheral register.
#[derive(Clone, Copy, Debug, PartialEq, Eq, Structural)]
pub struct RegisterWrite {
    pub address: u32,
    pub value: u32,
}

/// Number of stores of the cleanup.
pub const CLEANUP_WRITES: usize = 37;

pub open spec fn store(address: u32, value: u32) -> RegisterWrite {
    RegisterWrite { address, value }
}

/// The stores that clear the end-of-transfer events of one endpoint.
pub open spec fn endpoint_store(i: int) -> RegisterWrite {
    if i % 2 == 0 {
        store((USBD_EVENTS_ENDEPIN0 + (i / 2) * 4) as u32, 0)
    } else {
        store((USBD_EVENTS_ENDEPOUT0 + (i / 2) * 4) as u32, 0)
    }
}

/// The cleanup, in order: every interrupt source off, the peripheral off, all
/// event latches cleared, and last the pending bits.
pub open spec fn cleanup_script() -> Seq<RegisterWrite> {
    seq![
        store(USBD_INTENCLR, ALL_BITS),
        store(POWER_INTENCLR, POWER_USB_INTERRUPT_MASK),
        store(NVIC_ICER1, USBD_IRQ_BIT_IN_BANK1),
        store(USBD_USBPULLUP, 0),
        store(USBD_SHORTS, 0),
        store(USBD_ENABLE, 0),
        store(USBD_EVENTS_USBRESET, 0),
        store(USBD_EVENTS_STARTED, 0),
    ] + Seq::new(16, |i: int| endpoint_store(i)) + seq![
        store(USBD_EVENTS_EP0DATADONE, 0),
        store(USBD_EVENTS_ENDISOIN, 0),
        store(USBD_EVENTS_ENDISOOUT, 0),
        store(USBD_EVENTS_SOF, 0),
        store(USBD_EVENTS_USBEVENT, 0),
        store(USBD_EVENTS_EP0SETUP, 0),
        store(USBD_EVENTS_EPDATA, 0),
        store(USBD_EVENTCAUSE, ALL_BITS),
        store(POWER_EVENTS_USBDETECTED, 0),
        store(POWER_EVENTS_USBREMOVED, 0),
        store(POWER_EVENTS_USBPWRRDY, 0),
        store(NVIC_ICPR1, USBD_IRQ_BIT_IN_BANK1),
        store(NVIC_ICPR0, CLOCK_POWER_IRQ_BIT),
    ]
}

/// The store number `step` of the cleanup, or `None` past its end.
pub fn cleanup_write(step: usize) -> (write: Option<RegisterWrite>)
    ensures
        write == (if step < cleanup_script().len() {
            Some(cleanup_script()[step as int])
        } else {
            None
        }),
        cleanup_script().len() == CLEANUP_WRITES,
{
    if step >= CLEANUP_WRITES {
        return None;
    }
    if step >= 8 && step < 24 {
        let endpoint: u32 = ((step - 8) / 2) as u32;
        let address: u32 = if step % 2 == 0 {
            USBD_EVENTS_ENDEPIN0 + endpoint * 4
        } else {
            USBD_EVENTS_ENDEPOUT0 + endpoint * 4
        };
        return Some(RegisterWrite { address, value: 0 });
    }
    let (address, value): (u32, u32) = match step {
        0 => (USBD_INTENCLR, ALL_BITS),
        1 => (POWER_INTENCLR, POWER_USB_INTERRUPT_MASK),
        2 => (NVIC_ICER1, USBD_IRQ_BIT_IN_BANK1),
        3 => (USBD_USBPULLUP, 0),
        4 => (USBD_SHORTS, 0),
        5 => (USBD_ENABLE, 0),
        6 => (USBD_EVENTS_USBRESET, 0),
        7 => (USBD_EVENTS_STARTED, 0),
        24 => (USBD_EVENTS_EP0DATADONE, 0),
        25 => (USBD_EVENTS_ENDISOIN, 0),
        26 => (USBD_EVENTS_ENDISOOUT, 0),
        27 => (USBD_EVENTS_SOF, 0),
        28 => (USBD_EVENTS_USBEVENT, 0),
        29 => (USBD_EVENTS_EP0SETUP, 0),
        30 => (USBD_EVENTS_EPDATA, 0),
        31 => (USBD_EVENTCAUSE, ALL_BITS),
        32 => (POWER_EVENTS_USBDETECTED, 0),
        33 => (POWER_EVENTS_USBREMOVED, 0),
        34 => (POWER_EVENTS_USBPWRRDY, 0),
        35 => (NVIC_ICPR1, USBD_IRQ_BIT_IN_BANK1),
        _ => (NVIC_ICPR0, CLOCK_POWER_IRQ_BIT),
    };
    Some(RegisterWrite { address, value })
}

/// An event latch of the USB device or of its power detection.
pub open spec fn is_event_latch(address: u32) -> bool {
    ||| USBD_EVENTS_USBRESET <= address <= USBD_EVENTS_EPDATA
    ||| POWER_EVENTS_USBDETECTED <= address <= POWER_EVENTS_USBPWRRDY
}

/// No event latch is touched before every interrupt source is off.
pub proof fn law_sources_are_off_before_events_are_touched(step: int)
    requires
        0 <= step < cleanup_script().len(),
        is_event_latch(cleanup_script()[step].address),
    ensures
        step > 2,
        cleanup_script()[0] == store(USBD_INTENCLR, ALL_BITS),
        cleanup_script()[1] == store(POWER_INTENCLR, POWER_USB_INTERRUPT_MASK),
        cleanup_script()[2] == store(NVIC_ICER1, USBD_IRQ_BIT_IN_BANK1),
{
}

/// The shared POWER/CLOCK interrupt stays enabled for the radio stack: its bank
/// of interrupt enables is never written.
pub proof fn law_radio_interrupt_is_left_alone(step: int)
    requires
        0 <= step < cleanup_script().len(),
    ensures
        cleanup_script()[step].address != NVIC_ICER0,
{
}

/// Every event latch of the USB device is cleared.
pub proof fn law_every_latch_is_cleared(address: u32)
    requires
        is_event_latch(address),
        address % 4 == 0,
    ensures
        cleanup_script().contains(store(address, 0)),
{
    let script = cleanup_script();
    if address == USBD_EVENTS_USBRESET {
        assert(script[6] == store(address, 0));
    } else if address == USBD_EVENTS_STARTED {
        assert(script[7] == store(address, 0));
    } else if USBD_EVENTS_ENDEPIN0 <= address < USBD_EVENTS_EP0DATADONE {
        let endpoint: int = (address - USBD_EVENTS_ENDEPIN0) / 4;
        assert(script[8 + 2 * endpoint] == store(address, 0));
    } else if address == USBD_EVENTS_EP0DATADONE {
        assert(script[24] == store(address, 0));
    } else if address == USBD_EVENTS_ENDISOIN {
        assert(script[25] == store(address, 0));
    } else if USBD_EVENTS_ENDEPOUT0 <= address < USBD_EVENTS_ENDISOOUT {
        let endpoint: int = (address - USBD_EVENTS_ENDEPOUT0) / 4;
        assert(script[9 + 2 * endpoint] == store(address, 0));
    } else if address == USBD_EVENTS_ENDISOOUT {
        assert(script[26] == store(address, 0));
    } else if address == USBD_EVENTS_SOF {
        assert(script[27] == store(address, 0));
    } else if address == USBD_EVENTS_USBEVENT {
        assert(script[28] == store(address, 0));
    } else if address == USBD_EVENTS_EP0SETUP {
        assert(script[29] == store(address, 0));
    } else if address == USBD_EVENTS_EPDATA {
        assert(script[30] == store(address, 0));
    } else if address == POWER_EVENTS_USBDETECTED {
        assert(script[32] == store(address, 0));
    } else if address == POWER_EVENTS_USBREMOVED {
        assert(script[33] == store(address, 0));
    } else {
        assert(script[34] == store(address, 0));
    }
}

/// The cleanup switches the USB interrupts off at the device, at the power
/// detection and at the processor before it disconnects and disables the device.
pub proof fn law_cleanup_disarms_first()
    ensures
        ({
            let script = cleanup_script();
            &&& script.len() == 37
            &&& script[0] == (RegisterWrite { address: 0x4002_7308, value: 0xffff_ffff })
            &&& script[1] == (RegisterWrite { address: 0x4000_0308, value: 0x380 })
            &&& script[2] == (RegisterWrite { address: 0xe000_e184, value: 0x80 })
            &&& script[3] == (RegisterWrite { address: 0x4002_7504, value: 0 })
            &&& script[4] == (RegisterWrite { address: 0x4002_7200, value: 0 })
            &&& script[5] == (RegisterWrite { address: 0x4002_7500, value: 0 })
        }),
{
}

/// Every word of the device's event registers from reset to endpoint data, and
/// of the power events, is written with zero, and the event causes with ones.
pub proof fn law_cleanup_clears_every_event(address: u32)
    requires
        address % 4 == 0,
        0x4002_7100 <= address <= 0x4002_7160 || 0x4000_011c <= address <= 0x4000_0124,
    ensures
        exists|step: int|
            6 <= step < 35 && #[trigger] cleanup_script()[step] == (RegisterWrite {
                address,
                value: 0,
            }),
        cleanup_script()[31] == (RegisterWrite { address: 0x4002_7400, value: 0xffff_ffff }),
{
    law_every_latch_is_cleared(address);
    let step = choose|step: int|
        0 <= step < cleanup_script().len() && cleanup_script()[step] == store(address, 0);
    assert(cleanup_script()[step] == (RegisterWrite { address, value: 0 }));
}

/// Pending interrupts are cleared last, once nothing can raise them again.
pub proof fn law_cleanup_clears_pending_last()
    ensures
        cleanup_script()[35] == (RegisterWrite { address: 0xe000_e284, value: 0x80 }),
        cleanup_script()[36] == (RegisterWrite { address: 0xe000_e280, value: 0x1 }),
{
}

/// The cleanup is written step by step and ends after the last one.
pub proof fn law_cleanup_is_written_in_order()
    ensures
        forall|step: usize, write: Option<RegisterWrite>| #[trigger]
            call_ensures(cleanup_write, (step,), write) ==> {
                &&& step < 37 ==> write == Some(cleanup_script()[step as int])
                &&& step >= 37 ==> write is None
            },
{
}

} // verus!
