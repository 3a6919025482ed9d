//! The layer and status LED of a K:04 half.

use vstd::prelude::*;

use crate::battery::BatteryStatus;
use crate::split_event::SplitConnectionState;
use crate::time::{Duration, Instant};

verus! {

pub const SPLIT_BLINK_PERIOD_MS: u64 = 360;

pub const SPLIT_BLINK_ON_MS: u64 = 180;

pub const CONNECTED_INDICATOR_MS: u64 = 1_000;

pub const CHARGED_BATTERY_MIN: u8 = 95;

/// PWM word of a short pulse, a zero bit, with inverted polarity.
pub const PWM_T0H: u16 = 0x8006;

/// PWM word of a long pulse, a one bit, with inverted polarity.
pub const PWM_T1H: u16 = 0x800d;

/// Bits of one colour.
pub const COLOR_BITS: usize = 24;

/// Words of a frame: one colour, and silence that latches it.
pub const FRAME_WORDS: usize = 104;

#[derive(Clone, Copy, Debug, PartialEq, Eq, Structural)]
pub struct Rgb {
    pub r: u8,
    pub g: u8,
    pub b: u8,
}

/// USB power as the charger sees it.
#[derive(Clone, Copy, Debug, PartialEq, Eq, Structural)]
pub struct VbusStatus {
    pub vbus: bool,
    pub output_ready: bool,
}

/// Why the LED shows what it shows.
#[derive(Clone, Copy, Debug, PartialEq, Eq, Structural)]
pub enum LedReason {
    Off,
    Searching,
    JustConnected,
    Charging,
    Layer,
}

/// What the LED depends on besides its own state.
#[derive(Clone, Copy, Debug, PartialEq, Eq, Structural)]
pub struct RenderContext {
    pub now: Instant,
    /// The sticky snapshot of the split state.
    pub split_state: SplitConnectionState,
    pub vbus: VbusStatus,
    pub brightness: u8,
    pub charge_indicator: bool,
    /// The configured colour of the current layer.
    pub layer_color: Rgb,
}

// Colours

pub open spec fn scaled(value: u8, brightness: u8) -> u8 {
    ((value * brightness) / 255) as u8
}

pub open spec fn scaled_color(color: Rgb, brightness: u8) -> Rgb {
    Rgb {
        r: scaled(color.r, brightness),
        g: scaled(color.g, brightness),
        b: scaled(color.b, brightness),
    }
}

pub open spec fn off() -> Rgb {
    Rgb { r: 0, g: 0, b: 0 }
}

pub open spec fn yellow(brightness: u8) -> Rgb {
    scaled_color(Rgb { r: 255, g: 180, b: 0 }, brightness)
}

pub open spec fn green(brightness: u8) -> Rgb {
    scaled_color(Rgb { r: 0, g: 255, b: 0 }, brightness)
}

/// A channel at a brightness, the full channel at full brightness.
pub fn scale(value: u8, brightness: u8) -> (result: u8)
    ensures
        result == scaled(value, brightness),
        result <= value,
        brightness == 255 ==> result == value,
        brightness == 0 ==> result == 0,
{
    assert(value * brightness <= value * 255 && value * 255 <= 65_025) by (nonlinear_arith)
        requires
            value <= 255,
            brightness <= 255,
    ;
    assert(brightness == 0 ==> value * brightness == 0) by (nonlinear_arith);
    ((value as u16 * brightness as u16) / 255) as u8
}

pub fn scale_color(color: Rgb, brightness: u8) -> (result: Rgb)
    ensures
        result == scaled_color(color, brightness),
{
    Rgb {
        r: scale(color.r, brightness),
        g: scale(color.g, brightness),
        b: scale(color.b, brightness),
    }
}

fn color_yellow(brightness: u8) -> (color: Rgb)
    ensures
        color == yellow(brightness),
{
    scale_color(Rgb { r: 255, g: 180, b: 0 }, brightness)
}

fn color_green(brightness: u8) -> (color: Rgb)
    ensures
        color == green(brightness),
{
    scale_color(Rgb { r: 0, g: 255, b: 0 }, brightness)
}

fn color_off() -> (color: Rgb)
    ensures
        color == off(),
{
    Rgb { r: 0, g: 0, b: 0 }
}

/// The LED of one half, apart from its driver.
#[derive(Clone, Copy, Debug, PartialEq, Eq, Structural)]
pub struct LayerLed {
    pub side: u8,
    pub current_layer: Option<u8>,
    /// The colour that was sent last.
    pub current_color: Option<Rgb>,
    pub split_state: SplitConnectionState,
    pub sleeping: bool,
    pub phase_started: Instant,
    pub connected_until: Option<Instant>,
    pub latest_battery: Option<u8>,
    pub last_vbus_status: Option<VbusStatus>,
}

impl LayerLed {
    /// The current phase does not start in the future, and a clock reading can
    /// be extended by the connected indication.
    pub open spec fn renderable(self, now: Instant) -> bool {
        self.phase_started.ticks <= now.ticks && now.ticks + 1_000_000 <= u64::MAX
    }

    /// A change of the split state starts a new phase.
    pub open spec fn with_split_state(self, state: SplitConnectionState, now: Instant) -> LayerLed {
        if self.split_state == state {
            self
        } else {
            LayerLed {
                split_state: state,
                phase_started: now,
                connected_until: if state == SplitConnectionState::Connected {
                    Some(Instant { ticks: (now.ticks + 1_000_000) as u64 })
                } else {
                    None
                },
                ..self
            }
        }
    }

    /// The colour to show, and why. Split acquisition is more important than
    /// charging: USB power must not turn the searching blink into a misleading
    /// solid indication.
    pub open spec fn shown(self, context: RenderContext) -> (Rgb, LedReason) {
        let now = context.now;
        if self.sleeping || self.split_state == SplitConnectionState::Idle {
            (off(), LedReason::Off)
        } else if self.split_state == SplitConnectionState::Searching {
            let elapsed_ms = (now.ticks - self.phase_started.ticks) / 1_000;
            (
                if elapsed_ms % 360 < 180 {
                    yellow(context.brightness)
                } else {
                    off()
                },
                LedReason::Searching,
            )
        } else if self.connected_until matches Some(until) && now.ticks < until.ticks {
            (green(context.brightness), LedReason::JustConnected)
        } else if self.current_layer == Some(0u8) && context.vbus.vbus
            && context.charge_indicator {
            (
                if self.latest_battery matches Some(level) && level >= CHARGED_BATTERY_MIN {
                    green(context.brightness)
                } else {
                    yellow(context.brightness)
                },
                LedReason::Charging,
            )
        } else {
            (
                match self.current_layer {
                    Some(_) => scaled_color(context.layer_color, context.brightness),
                    None => off(),
                },
                LedReason::Layer,
            )
        }
    }

    /// The LED after a rendering, and the colour to send where it changed.
    pub open spec fn rendered(self, context: RenderContext) -> (LayerLed, Option<Rgb>) {
        let reconciled = LayerLed {
            last_vbus_status: Some(context.vbus),
            ..self.with_split_state(context.split_state, context.now)
        };
        let (color, _) = reconciled.shown(context);
        if self.current_color == Some(color) {
            (reconciled, None)
        } else {
            (LayerLed { current_color: Some(color), ..reconciled }, Some(color))
        }
    }

    pub fn new(side: u8, split_state: SplitConnectionState, now: Instant) -> (led: LayerLed)
        ensures
            led == (LayerLed {
                side,
                current_layer: Some(0u8),
                current_color: None,
                split_state,
                sleeping: false,
                phase_started: now,
                connected_until: None,
                latest_battery: None,
                last_vbus_status: None,
            }),
    {
        LayerLed {
            side,
            current_layer: Some(0),
            current_color: None,
            split_state,
            sleeping: false,
            phase_started: now,
            connected_until: None,
            latest_battery: None,
            last_vbus_status: None,
        }
    }

    pub fn apply_split_state(&mut self, state: SplitConnectionState, now: Instant)
        requires
            now.ticks + 1_000_000 <= u64::MAX,
        ensures
            *final(self) == old(self).with_split_state(state, now),
    {
        if self.split_state == state {
            return;
        }
        self.split_state = state;
        self.phase_started = now;
        self.connected_until = if state == SplitConnectionState::Connected {
            Some(now.plus(Duration::from_millis(CONNECTED_INDICATOR_MS)))
        } else {
            None
        };
    }

    pub fn display_color(&self, context: &RenderContext) -> (shown: (Rgb, LedReason))
        requires
            self.phase_started.ticks <= context.now.ticks,
        ensures
            shown == self.shown(*context),
    {
        let now = context.now;
        if self.sleeping || self.split_state == SplitConnectionState::Idle {
            return (color_off(), LedReason::Off);
        }
        if self.split_state == SplitConnectionState::Searching {
            let elapsed_ms: u64 = now.duration_since(self.phase_started).as_millis();
            return if elapsed_ms % SPLIT_BLINK_PERIOD_MS < SPLIT_BLINK_ON_MS {
                (color_yellow(context.brightness), LedReason::Searching)
            } else {
                (color_off(), LedReason::Searching)
            };
        }
        if let Some(until) = self.connected_until {
            if now.ticks < until.ticks {
                return (color_green(context.brightness), LedReason::JustConnected);
            }
        }
        let base_layer: bool = match self.current_layer {
            Some(layer) => layer == 0,
            None => false,
        };
        if base_layer && context.vbus.vbus && context.charge_indicator {
            let charged: bool = match self.latest_battery {
                Some(level) => level >= CHARGED_BATTERY_MIN,
                None => false,
            };
            return if charged {
                (color_green(context.brightness), LedReason::Charging)
            } else {
                (color_yellow(context.brightness), LedReason::Charging)
            };
        }
        match self.current_layer {
            Some(_) => (scale_color(context.layer_color, context.brightness), LedReason::Layer),
            None => (color_off(), LedReason::Layer),
        }
    }

    /// Reconciles with the sticky split state, in case a change was published
    /// before the LED subscribed to it, and returns the colour to send where it
    /// changed.
    pub fn render(&mut self, context: &RenderContext) -> (color: Option<Rgb>)
        requires
            old(self).renderable(context.now),
        ensures
            (*final(self), color) == old(self).rendered(*context),
            final(self).renderable(context.now),
    {
        self.apply_split_state(context.split_state, context.now);
        self.last_vbus_status = Some(context.vbus);
        let (color, _) = self.display_color(context);
        if let Some(current) = self.current_color {
            if current == color {
                return None;
            }
        }
        self.current_color = Some(color);
        Some(color)
    }

    pub fn on_layer_change_event(&mut self, layer: u8, context: &RenderContext) -> (color: Option<
        Rgb,
    >)
        requires
            old(self).renderable(context.now),
        ensures
            (*final(self), color) == (LayerLed {
                current_layer: Some(layer),
                ..*old(self)
            }).rendered(*context),
    {
        self.current_layer = Some(layer);
        self.render(context)
    }

    /// A split state that was published at `at`, before the rendering.
    pub fn on_split_connection_state_event(
        &mut self,
        state: SplitConnectionState,
        at: Instant,
        context: &RenderContext,
    ) -> (color: Option<Rgb>)
        requires
            old(self).renderable(context.now),
            at.ticks <= context.now.ticks,
        ensures
            (*final(self), color) == old(self).with_split_state(state, at).rendered(*context),
    {
        self.apply_split_state(state, at);
        self.render(context)
    }

    pub fn on_sleep_state_event(&mut self, sleeping: bool, context: &RenderContext) -> (color:
        Option<Rgb>)
        requires
            old(self).renderable(context.now),
        ensures
            (*final(self), color) == (LayerLed { sleeping, ..*old(self) }).rendered(*context),
    {
        self.sleeping = sleeping;
        self.render(context)
    }

    pub fn on_battery_status_event(&mut self, status: BatteryStatus, context: &RenderContext) -> (
        color: Option<Rgb>)
        requires
            old(self).renderable(context.now),
        ensures
            (*final(self), color) == (LayerLed {
                latest_battery: match status {
                    BatteryStatus::Available { level, .. } => level,
                    BatteryStatus::Unavailable => None,
                },
                ..*old(self)
            }).rendered(*context),
    {
        self.latest_battery = match status {
            BatteryStatus::Available { level, .. } => level,
            BatteryStatus::Unavailable => None,
        };
        self.render(context)
    }
}

// Frames

/// Bit `bit` of a byte is one.
pub open spec fn bit_set(byte: u8, bit: u8) -> bool {
    byte & (1u8 << bit) != 0
}

/// Word `i` of the frame of a colour: green, red and blue, each from the
/// highest bit on, and then silence.
pub open spec fn frame_word(color: Rgb, i: int) -> u16 {
    let byte = if i < 8 {
        color.g
    } else if i < 16 {
        color.r
    } else {
        color.b
    };
    if i >= 24 {
        0
    } else if bit_set(byte, (7 - i % 8) as u8) {
        PWM_T1H
    } else {
        PWM_T0H
    }
}

/// The PWM words that show a colour.
pub fn color_frame(color: Rgb) -> (words: [u16; 104])
    ensures
        forall|i: int| 0 <= i < 104 ==> words@[i] == frame_word(color, i),
{
    let mut words: [u16; FRAME_WORDS] = [0;FRAME_WORDS];
    let mut i: usize = 0;
    while i < COLOR_BITS
        invariant
            i <= 24,
            words@.len() == 104,
            forall|k: int| 0 <= k < i ==> words@[k] == frame_word(color, k),
            forall|k: int| i <= k < 104 ==> words@[k] == 0,
        decreases 24 - i,
    {
        let byte: u8 = if i < 8 {
            color.g
        } else if i < 16 {
            color.r
        } else {
            color.b
        };
        let bit: u8 = 7 - (i % 8) as u8;
        words[i] = if byte & (1u8 << bit) != 0 {
            PWM_T1H
        } else {
            PWM_T0H
        };
        i = i + 1;
    }
    words
}

proof fn lemma_bits_tell_bytes_apart(a: u8, b: u8)
    requires
        forall|bit: u8| bit < 8 ==> bit_set(a, bit) == bit_set(b, bit),
    ensures
        a == b,
{
    assert(bit_set(a, 0) == bit_set(b, 0));
    assert(bit_set(a, 1) == bit_set(b, 1));
    assert(bit_set(a, 2) == bit_set(b, 2));
    assert(bit_set(a, 3) == bit_set(b, 3));
    assert(bit_set(a, 4) == bit_set(b, 4));
    assert(bit_set(a, 5) == bit_set(b, 5));
    assert(bit_set(a, 6) == bit_set(b, 6));
    assert(bit_set(a, 7) == bit_set(b, 7));
    assert(a == b) by (bit_vector)
        requires
            (a & (1u8 << 0u8) != 0) == (b & (1u8 << 0u8) != 0),
            (a & (1u8 << 1u8) != 0) == (b & (1u8 << 1u8) != 0),
            (a & (1u8 << 2u8) != 0) == (b & (1u8 << 2u8) != 0),
            (a & (1u8 << 3u8) != 0) == (b & (1u8 << 3u8) != 0),
            (a & (1u8 << 4u8) != 0) == (b & (1u8 << 4u8) != 0),
            (a & (1u8 << 5u8) != 0) == (b & (1u8 << 5u8) != 0),
            (a & (1u8 << 6u8) != 0) == (b & (1u8 << 6u8) != 0),
            (a & (1u8 << 7u8) != 0) == (b & (1u8 << 7u8) != 0),
    ;
}

/// A frame says exactly which colour it shows: two colours with the same words
/// are the same.
pub proof fn law_frames_tell_colors_apart(a: Rgb, b: Rgb)
    requires
        forall|i: int| 0 <= i < 24 ==> frame_word(a, i) == frame_word(b, i),
    ensures
        a == b,
{
    assert forall|bit: u8| bit < 8 implies bit_set(a.g, bit) == bit_set(b.g, bit) by {
        assert(frame_word(a, 7 - bit) == frame_word(b, 7 - bit));
    }
    lemma_bits_tell_bytes_apart(a.g, b.g);
    assert forall|bit: u8| bit < 8 implies bit_set(a.r, bit) == bit_set(b.r, bit) by {
        assert(frame_word(a, 15 - bit) == frame_word(b, 15 - bit));
    }
    lemma_bits_tell_bytes_apart(a.r, b.r);
    assert forall|bit: u8| bit < 8 implies bit_set(a.b, bit) == bit_set(b.b, bit) by {
        assert(frame_word(a, 23 - bit) == frame_word(b, 23 - bit));
    }
    lemma_bits_tell_bytes_apart(a.b, b.b);
}

// Laws

/// Rendering never starts a status phase after its own timestamp, so a later
/// rendering never looks into the past of a phase that has not begun.
pub proof fn law_phases_never_start_after_their_rendering(
    led: LayerLed,
    context: RenderContext,
    later: Instant,
)
    requires
        led.renderable(context.now),
        context.now.ticks <= later.ticks,
    ensures
        led.rendered(context).0.phase_started.ticks <= later.ticks,
{
}

/// While the half searches for its peer, the LED blinks whatever the charger
/// says: charging never hides the search.
pub proof fn law_searching_hides_charging(led: LayerLed, context: RenderContext, vbus: VbusStatus)
    requires
        led.split_state == SplitConnectionState::Searching,
    ensures
        led.shown(context) == led.shown(RenderContext { vbus, ..context }),
        !led.sleeping ==> led.shown(context).1 == LedReason::Searching,
{
}

/// A sleeping or idle half is dark.
pub proof fn law_sleep_is_dark(led: LayerLed, context: RenderContext)
    requires
        led.sleeping || led.split_state == SplitConnectionState::Idle,
    ensures
        led.shown(context).0 == off(),
{
}

/// The LED is written only when its colour changes: rendering twice at the same
/// moment writes nothing the second time.
pub proof fn law_unchanged_color_is_not_sent_again(led: LayerLed, context: RenderContext)
    requires
        led.renderable(context.now),
    ensures
        led.rendered(context).0.rendered(context).1 is None,
{
}

/// Whatever is shown obeys the brightness setting: at brightness zero the LED is
/// dark for every reason.
pub proof fn law_zero_brightness_is_dark(led: LayerLed, context: RenderContext)
    requires
        context.brightness == 0,
    ensures
        led.shown(context).0 == (Rgb { r: 0, g: 0, b: 0 }),
{
    let color = context.layer_color;
    assert(color.r * 0 == 0 && color.g * 0 == 0 && color.b * 0 == 0);
}

/// A connected, awake half past the connected indication that shows no charging
/// shows the colour of its layer, each channel in proportion to the brightness,
/// and is dark where it knows of no layer.
pub proof fn law_layer_color_obeys_the_brightness(led: LayerLed, context: RenderContext)
    requires
        !led.sleeping,
        led.split_state == SplitConnectionState::Connected,
        led.connected_until matches Some(until) ==> until.ticks <= context.now.ticks,
        !(led.current_layer == Some(0u8) && context.vbus.vbus && context.charge_indicator),
    ensures
        ({
            let (color, reason) = led.shown(context);
            &&& reason == LedReason::Layer
            &&& led.current_layer is Some ==> {
                &&& color.r == context.layer_color.r * context.brightness / 255
                &&& color.g == context.layer_color.g * context.brightness / 255
                &&& color.b == context.layer_color.b * context.brightness / 255
            }
            &&& led.current_layer is None ==> color.r == 0 && color.g == 0 && color.b == 0
        }),
{
    lemma_scaled_channel(context.layer_color.r, context.brightness);
    lemma_scaled_channel(context.layer_color.g, context.brightness);
    lemma_scaled_channel(context.layer_color.b, context.brightness);
}

proof fn lemma_scaled_channel(value: u8, brightness: u8)
    ensures
        scaled(value, brightness) == value * brightness / 255,
        0 <= value * brightness / 255 <= value,
{
    assert(0 <= value * brightness <= value * 255) by (nonlinear_arith)
        requires
            0 <= value <= 255,
            0 <= brightness <= 255,
    ;
}

/// A half that searches for its peer blinks yellow in proportion to the
/// brightness: on for the first 180 ms of every 360 ms of the search, and dark
/// for the rest.
pub proof fn law_searching_half_blinks(led: LayerLed, context: RenderContext)
    requires
        !led.sleeping,
        led.split_state == SplitConnectionState::Searching,
        led.phase_started.ticks <= context.now.ticks,
    ensures
        ({
            let (color, reason) = led.shown(context);
            let elapsed = context.now.ticks - led.phase_started.ticks;
            &&& reason == LedReason::Searching
            &&& elapsed % 360_000 < 180_000 ==> color.r == context.brightness && color.g == 180
                * context.brightness / 255 && color.b == 0
            &&& elapsed % 360_000 >= 180_000 ==> color.r == 0 && color.g == 0 && color.b == 0
        }),
{
    let elapsed = context.now.ticks - led.phase_started.ticks;
    assert((elapsed / 1_000) % 360 == (elapsed % 360_000) / 1_000);
    lemma_scaled_channel(180, context.brightness);
    lemma_scaled_channel(0, context.brightness);
    lemma_scaled_channel(255, context.brightness);
    assert(255 * context.brightness / 255 == context.brightness);
    assert(0 * context.brightness / 255 == 0);
}

/// A half that just found its peer shows green in proportion to the brightness,
/// whatever its layer and the charger say, until the indication ends.
pub proof fn law_found_peer_is_green(led: LayerLed, context: RenderContext)
    requires
        !led.sleeping,
        led.split_state == SplitConnectionState::Connected,
        led.connected_until matches Some(until) && context.now.ticks < until.ticks,
    ensures
        led.shown(context) == (
            Rgb { r: 0, g: context.brightness, b: 0 },
            LedReason::JustConnected,
        ),
{
    lemma_scaled_channel(0, context.brightness);
    lemma_scaled_channel(255, context.brightness);
    assert(255 * context.brightness / 255 == context.brightness);
    assert(0 * context.brightness / 255 == 0);
}

/// On the base layer, a connected half with USB power and the indicator switched
/// on shows its charge: green from 95 percent on, and yellow below or where the
/// level is not known.
pub proof fn law_charge_is_shown_on_the_base_layer(led: LayerLed, context: RenderContext)
    requires
        !led.sleeping,
        led.split_state == SplitConnectionState::Connected,
        led.connected_until matches Some(until) ==> until.ticks <= context.now.ticks,
        led.current_layer == Some(0u8),
        context.vbus.vbus,
        context.charge_indicator,
    ensures
        ({
            let (color, reason) = led.shown(context);
            let charged = led.latest_battery matches Some(level) && level >= 95;
            &&& reason == LedReason::Charging
            &&& charged ==> color.r == 0 && color.g == context.brightness && color.b == 0
            &&& !charged ==> color.r == context.brightness && color.g == 180 * context.brightness
                / 255 && color.b == 0
        }),
{
    lemma_scaled_channel(0, context.brightness);
    lemma_scaled_channel(180, context.brightness);
    lemma_scaled_channel(255, context.brightness);
    assert(255 * context.brightness / 255 == context.brightness);
    assert(0 * context.brightness / 255 == 0);
}

/// A half that sleeps or has no split link is dark, and says so.
pub proof fn law_dark_half_says_so(led: LayerLed, context: RenderContext)
    ensures
        led.sleeping || led.split_state == SplitConnectionState::Idle ==> led.shown(context) == (
            Rgb { r: 0, g: 0, b: 0 },
            LedReason::Off,
        ),
        led.shown(context).1 == LedReason::Off ==> led.sleeping || led.split_state
            == SplitConnectionState::Idle,
{
}

/// A colour never gets brighter than its setting, and a brighter setting never
/// makes it darker.
pub proof fn law_brightness_is_monotone(value: u8, dim: u8, bright: u8)
    requires
        dim <= bright,
    ensures
        scaled(value, dim) <= scaled(value, bright) <= value,
        scaled(value, 255) == value,
        255 * scaled(value, dim) <= value * dim < 255 * scaled(value, dim) + 255,
{
    lemma_scaled_channel(value, dim);
    lemma_scaled_channel(value, bright);
    lemma_scaled_channel(value, 255);
    assert(value * dim <= value * bright) by (nonlinear_arith)
        requires
            0 <= value,
            dim <= bright,
    ;
}

/// A change of the split state starts a phase at its own time. Becoming
/// connected is shown for one second from then on, and any other state ends
/// that indication. The same state again changes nothing.
pub proof fn law_split_state_starts_a_phase(
    led: LayerLed,
    state: SplitConnectionState,
    now: Instant,
)
    requires
        now.ticks + 1_000_000 <= u64::MAX,
    ensures
        ({
            let rest = led.with_split_state(state, now);
            &&& led.split_state == state ==> rest == led
            &&& led.split_state != state ==> rest.split_state == state && rest.phase_started == now
            &&& led.split_state != state && state == SplitConnectionState::Connected ==> (
            rest.connected_until matches Some(until) && until.ticks == now.ticks + 1_000_000)
            &&& led.split_state != state && state != SplitConnectionState::Connected
                ==> rest.connected_until is None
            &&& rest.side == led.side && rest.current_layer == led.current_layer
            &&& rest.current_color == led.current_color && rest.sleeping == led.sleeping
            &&& rest.latest_battery == led.latest_battery
            &&& rest.last_vbus_status == led.last_vbus_status
        }),
{
}

/// Rendering follows the split state that is in force, remembers the USB power
/// that it saw, and sends the colour that the LED is to show exactly where it
/// is not the one sent last.
pub proof fn law_rendering_sends_what_changed(led: LayerLed, context: RenderContext)
    requires
        context.now.ticks + 1_000_000 <= u64::MAX,
    ensures
        ({
            let (rest, sent) = led.rendered(context);
            let wanted = rest.shown(context).0;
            &&& rest.split_state == context.split_state
            &&& rest.last_vbus_status == Some(context.vbus)
            &&& rest.current_color == Some(wanted)
            &&& led.current_color == Some(wanted) ==> sent is None
            &&& led.current_color != Some(wanted) ==> sent == Some(wanted)
            &&& rest.side == led.side && rest.current_layer == led.current_layer
            &&& rest.sleeping == led.sleeping && rest.latest_battery == led.latest_battery
            &&& led.split_state == context.split_state ==> rest.phase_started == led.phase_started
                && rest.connected_until == led.connected_until
            &&& led.split_state != context.split_state ==> rest.phase_started == context.now
            &&& led.split_state != context.split_state && context.split_state
                == SplitConnectionState::Connected ==> (rest.connected_until matches Some(until)
                && until.ticks == context.now.ticks + 1_000_000)
            &&& led.split_state != context.split_state && context.split_state
                != SplitConnectionState::Connected ==> rest.connected_until is None
        }),
{
}

/// Read with a long pulse for a one and a short pulse for a zero, from the
/// highest bit on, the words of a frame are the green, the red and the blue
/// byte. The rest of a frame is silent.
pub proof fn law_frame_spells_the_color(color: Rgb, i: int)
    requires
        0 <= i < 104,
    ensures
        i < 8 ==> frame_word(color, i) == (if (color.g as int / vstd::arithmetic::power2::pow2((7 - i) as nat) as int) % 2 == 1 {
            0x800du16
        } else {
            0x8006u16
        }),
        8 <= i < 16 ==> frame_word(color, i) == (if (color.r as int / vstd::arithmetic::power2::pow2((15 - i) as nat) as int) % 2 == 1 {
            0x800du16
        } else {
            0x8006u16
        }),
        16 <= i < 24 ==> frame_word(color, i) == (if (color.b as int / vstd::arithmetic::power2::pow2((23 - i) as nat) as int) % 2 == 1 {
            0x800du16
        } else {
            0x8006u16
        }),
        i >= 24 ==> frame_word(color, i) == 0,
{
    if i < 8 {
        lemma_bit_is_a_digit(color.g, (7 - i) as u8);
    } else if i < 16 {
        lemma_bit_is_a_digit(color.r, (15 - i) as u8);
    } else if i < 24 {
        lemma_bit_is_a_digit(color.b, (23 - i) as u8);
    }
}

proof fn lemma_bit_is_a_digit(byte: u8, bit: u8)
    requires
        bit < 8,
    ensures
        bit_set(byte, bit) == ((byte as int / vstd::arithmetic::power2::pow2(bit as nat) as int) % 2
            == 1),
{
    vstd::arithmetic::power2::lemma2_to64();
    assert(byte & (1u8 << 0u8) != 0 <==> byte % 2 == 1) by (bit_vector);
    assert(byte & (1u8 << 1u8) != 0 <==> (byte / 2) % 2 == 1) by (bit_vector);
    assert(byte & (1u8 << 2u8) != 0 <==> (byte / 4) % 2 == 1) by (bit_vector);
    assert(byte & (1u8 << 3u8) != 0 <==> (byte / 8) % 2 == 1) by (bit_vector);
    assert(byte & (1u8 << 4u8) != 0 <==> (byte / 16) % 2 == 1) by (bit_vector);
    assert(byte & (1u8 << 5u8) != 0 <==> (byte / 32) % 2 == 1) by (bit_vector);
    assert(byte & (1u8 << 6u8) != 0 <==> (byte / 64) % 2 == 1) by (bit_vector);
    assert(byte & (1u8 << 7u8) != 0 <==> (byte / 128) % 2 == 1) by (bit_vector);
    let place = vstd::arithmetic::power2::pow2(bit as nat);
    assert(bit == 0 ==> place == 1);
    assert(bit == 1 ==> place == 2);
    assert(bit == 2 ==> place == 4);
    assert(bit == 3 ==> place == 8);
    assert(bit == 4 ==> place == 16);
    assert(bit == 5 ==> place == 32);
    assert(bit == 6 ==> place == 64);
    assert(bit == 7 ==> place == 128);
}

/// A new LED is on the base layer of a half that is awake, shows nothing yet and
/// knows of no battery level.
pub proof fn law_new_led_is_on_the_base_layer()
    ensures
        forall|side: u8, state: SplitConnectionState, now: Instant, led: LayerLed| #[trigger]
            call_ensures(LayerLed::new, (side, state, now), led) ==> {
                &&& led.side == side && led.split_state == state && led.phase_started == now
                &&& led.current_layer == Some(0u8) && led.current_color is None
                &&& !led.sleeping && led.connected_until is None
                &&& led.latest_battery is None && led.last_vbus_status is None
            },
{
}

/// Every event changes the one thing that it is about, and the LED is rendered
/// anew.
pub proof fn law_events_are_rendered()
    ensures
        forall|led: &mut LayerLed, context: &RenderContext, sent: Option<Rgb>| #[trigger]
            call_ensures(LayerLed::render, (led, context), sent) ==> (*final(led), sent)
                == (*led).rendered(*context),
        forall|led: &mut LayerLed, layer: u8, context: &RenderContext, sent: Option<Rgb>|
         #[trigger]
            call_ensures(LayerLed::on_layer_change_event, (led, layer, context), sent) ==> (
                *final(led),
                sent,
            ) == (LayerLed { current_layer: Some(layer), ..*led }).rendered(*context),
        forall|led: &mut LayerLed, sleeping: bool, context: &RenderContext, sent: Option<Rgb>|
         #[trigger]
            call_ensures(LayerLed::on_sleep_state_event, (led, sleeping, context), sent) ==> (
                *final(led),
                sent,
            ) == (LayerLed { sleeping, ..*led }).rendered(*context),
        forall|
            led: &mut LayerLed,
            state: SplitConnectionState,
            at: Instant,
            context: &RenderContext,
            sent: Option<Rgb>,
        | #[trigger]
            call_ensures(
                LayerLed::on_split_connection_state_event,
                (led, state, at, context),
                sent,
            ) ==> (*final(led), sent) == (*led).with_split_state(state, at).rendered(*context),
        forall|led: &mut LayerLed, status: BatteryStatus, context: &RenderContext, sent: Option<Rgb>|
         #[trigger]
            call_ensures(LayerLed::on_battery_status_event, (led, status, context), sent) ==> {
                let level = match status {
                    BatteryStatus::Available { level: known, .. } => known,
                    BatteryStatus::Unavailable => None,
                };
                (*final(led), sent) == (LayerLed { latest_battery: level, ..*led }).rendered(
                    *context,
                )
            },
        forall|led: &mut LayerLed, state: SplitConnectionState, now: Instant| #[trigger]
            call_ensures(LayerLed::apply_split_state, (led, state, now), ()) ==> *final(led)
                == (*led).with_split_state(state, now),
        forall|led: &LayerLed, context: &RenderContext, shown: (Rgb, LedReason)| #[trigger]
            call_ensures(LayerLed::display_color, (led, context), shown) ==> shown
                == (*led).shown(*context),
{
}

/// A channel is scaled in proportion to the brightness, and so is each channel
/// of a colour.
pub proof fn law_colors_are_scaled()
    ensures
        forall|value: u8, brightness: u8, result: u8| #[trigger]
            call_ensures(scale, (value, brightness), result) ==> result == value * brightness / 255,
        forall|color: Rgb, brightness: u8, result: Rgb| #[trigger]
            call_ensures(scale_color, (color, brightness), result) ==> result.r == color.r
                * brightness / 255 && result.g == color.g * brightness / 255 && result.b == color.b
                * brightness / 255,
{
    assert forall|value: u8, brightness: u8, result: u8| #[trigger]
        call_ensures(scale, (value, brightness), result) implies result == value * brightness
        / 255 by {
        lemma_scaled_channel(value, brightness);
    }
    assert forall|color: Rgb, brightness: u8, result: Rgb| #[trigger]
        call_ensures(scale_color, (color, brightness), result) implies result.r == color.r
        * brightness / 255 && result.g == color.g * brightness / 255 && result.b == color.b
        * brightness / 255 by {
        lemma_scaled_channel(color.r, brightness);
        lemma_scaled_channel(color.g, brightness);
        lemma_scaled_channel(color.b, brightness);
    }
}

} // verus!
