use base64::Engine;
use vstd::prelude::*;

verus! {

/// Data common to every event.
pub struct EventMetadata {
    /// UTC time of capture, in microseconds since the Unix epoch.
    pub timestamp_micros: i64,
    pub session_id: String,
    pub device_id: String,
}

/// A point on screen. Each coordinate is held as the bit pattern of an IEEE 754
/// binary64 value (`f64::to_bits`), so that it is carried exactly.
#[derive(Clone, Copy, PartialEq, Eq, Structural)]
pub struct Position {
    pub x_bits: u64,
    pub y_bits: u64,
}

/// A wheel movement, held as `Position` holds its coordinates.
#[derive(Clone, Copy, PartialEq, Eq, Structural)]
pub struct ScrollDelta {
    pub x_bits: u64,
    pub y_bits: u64,
}

#[derive(Clone, Copy, PartialEq, Eq, Structural)]
pub enum MouseButton {
    Left,
    Right,
    Middle,
    Unknown,
}

/// One captured activity.
pub enum InputEvent {
    KeyPress { metadata: EventMetadata, key: String, modifiers: Vec<String> },
    KeyRelease { metadata: EventMetadata, key: String, modifiers: Vec<String> },
    MouseClick { metadata: EventMetadata, button: MouseButton, position: Position },
    MouseMove { metadata: EventMetadata, position: Position },
    MouseScroll { metadata: EventMetadata, delta: ScrollDelta, position: Position },
    /// `data` is the base64 text of the encoded image, `format` its kind.
    Screenshot { metadata: EventMetadata, data: String, format: String },
}

impl InputEvent {
    pub fn new_key_press(metadata: EventMetadata, key: String, modifiers: Vec<String>) -> (r: Self)
        ensures
            r == (InputEvent::KeyPress { metadata, key, modifiers }),
    {
        InputEvent::KeyPress { metadata, key, modifiers }
    }

    pub fn new_key_release(metadata: EventMetadata, key: String, modifiers: Vec<String>) -> (r:
        Self)
        ensures
            r == (InputEvent::KeyRelease { metadata, key, modifiers }),
    {
        InputEvent::KeyRelease { metadata, key, modifiers }
    }

    /// A click at the point whose coordinates have the bit patterns `x_bits`, `y_bits`.
    pub fn new_mouse_click(metadata: EventMetadata, button: MouseButton, x_bits: u64, y_bits: u64) -> (r: Self)
        ensures
            r == (InputEvent::MouseClick {
                metadata,
                button,
                position: Position { x_bits, y_bits },
            }),
    {
        InputEvent::MouseClick { metadata, button, position: Position { x_bits, y_bits } }
    }

    pub fn new_mouse_move(metadata: EventMetadata, x_bits: u64, y_bits: u64) -> (r: Self)
        ensures
            r == (InputEvent::MouseMove { metadata, position: Position { x_bits, y_bits } }),
    {
        InputEvent::MouseMove { metadata, position: Position { x_bits, y_bits } }
    }

    pub fn new_mouse_scroll(
        metadata: EventMetadata,
        delta_x_bits: u64,
        delta_y_bits: u64,
        x_bits: u64,
        y_bits: u64,
    ) -> (r: Self)
        ensures
            r == (InputEvent::MouseScroll {
                metadata,
                delta: ScrollDelta { x_bits: delta_x_bits, y_bits: delta_y_bits },
                position: Position { x_bits, y_bits },
            }),
    {
        InputEvent::MouseScroll {
            metadata,
            delta: ScrollDelta { x_bits: delta_x_bits, y_bits: delta_y_bits },
            position: Position { x_bits, y_bits },
        }
    }

    pub fn new_screenshot(metadata: EventMetadata, data: String, format: String) -> (r: Self)
        ensures
            r == (InputEvent::Screenshot { metadata, data, format }),
    {
        InputEvent::Screenshot { metadata, data, format }
    }

    /// A screen capture of the PNG bytes `png`, carried as base64 text.
    pub fn screenshot_from_png(metadata: EventMetadata, png: &Vec<u8>) -> (r: Self)
        requires
            4 * ((png@.len() + 2) / 3) <= usize::MAX,
        ensures
            r matches InputEvent::Screenshot { metadata: m, data, format } && m == metadata
                && data@ == base64_of(png@) && format@ == "png"@,
    {
        let data = encode_base64(png);
        InputEvent::Screenshot { metadata, data, format: "png".to_string() }
    }
}

/// The standard, padded base64 text of a byte string.
pub uninterp spec fn base64_of(b: Seq<u8>) -> Seq<char>;

/// Relies on base64's `general_purpose::STANDARD.encode`: the padded standard
/// alphabet encoding, four characters for each started group of three bytes.
/// It panics when that length overflows `usize`.
#[verifier::external_body]
fn encode_base64(b: &Vec<u8>) -> (r: String)
    requires
        4 * ((b@.len() + 2) / 3) <= usize::MAX,
    ensures
        r@ == base64_of(b@),
        r@.len() == 4 * ((b@.len() + 2) / 3),
{
    base64::engine::general_purpose::STANDARD.encode(b.as_slice())
}

/// Relies on chrono's `Utc::now` and `DateTime::timestamp_micros`: the current
/// UTC time in microseconds since the Unix epoch. Nothing is promised of it.
#[verifier::external_body]
fn now_micros() -> (r: i64) {
    chrono::Utc::now().timestamp_micros()
}

/// The identifier used when none is configured for the session.
pub open spec fn default_session() -> Seq<char> {
    "default_session"@
}

/// The identifier used when none is configured for the device.
pub open spec fn default_device() -> Seq<char> {
    "default_device"@
}

/// The configured identifier, or `fallback` when none is configured.
pub open spec fn id_or(configured: Option<String>, fallback: Seq<char>) -> Seq<char> {
    match configured {
        Some(s) => s@,
        None => fallback,
    }
}

/// The session identifier: the configured one, else `"default_session"`.
pub fn get_session_id(configured: Option<String>) -> (r: String)
    ensures
        r@ == id_or(configured, default_session()),
{
    match configured {
        Some(s) => s,
        None => "default_session".to_string(),
    }
}

/// The device identifier: the configured one, else `"default_device"`.
pub fn get_device_id(configured: Option<String>) -> (r: String)
    ensures
        r@ == id_or(configured, default_device()),
{
    match configured {
        Some(s) => s,
        None => "default_device".to_string(),
    }
}

impl EventMetadata {
    /// Metadata stamped with the current time and the resolved identifiers.
    pub fn new(session: Option<String>, device: Option<String>) -> (r: Self)
        ensures
            r.session_id@ == id_or(session, default_session()),
            r.device_id@ == id_or(device, default_device()),
    {
        EventMetadata {
            timestamp_micros: now_micros(),
            session_id: get_session_id(session),
            device_id: get_device_id(device),
        }
    }
}

} // verus!
