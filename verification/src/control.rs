//! The MIDI control surface: parsing raw three-byte MIDI messages from
//! the controller into control events, the small state machine for its
//! shift layers, and the note/color arithmetic for lighting its buttons.
//! Writing the light messages to the device is left to the caller; this
//! module only decides bytes and state.

use vstd::prelude::*;
use vstd::string::StringExecFns;

verus! {

/// Left shift button note.
pub const LSHIFT: u8 = 0x0c;

/// Right shift button note.
pub const RSHIFT: u8 = 0x0f;

/// Bottom-left encoder push note.
pub const LENC: u8 = 0x0d;

/// Bottom-right encoder push note.
pub const RENC: u8 = 0x0e;

/// Status byte of a note-on message on the controller's channel.
pub const NOTEON: u8 = 0x9e;

/// Status byte of a note-off message on the controller's channel.
pub const NOTEOFF: u8 = 0x8e;

/// Status byte of a control-change message on the controller's channel.
pub const CONTROLCHANGE: u8 = 0xbe;

/// A button light color of the controller.
#[derive(Clone, Copy, PartialEq, Eq, Structural, Debug)]
pub enum Color {
    Red,
    Amber,
    Green,
}

/// The note offset that selects a color: the controller lights a button
/// in red, amber or green depending on which of three note numbers is
/// sent for it.
pub open spec fn color_offset_spec(c: Color) -> u8 {
    match c {
        Color::Red => 0,
        Color::Amber => 4,
        Color::Green => 8,
    }
}

impl Color {
    /// The note offset that selects this color.
    pub fn offset(&self) -> (r: u8)
        ensures
            r == color_offset_spec(*self),
    {
        match self {
            Color::Red => 0,
            Color::Amber => 4,
            Color::Green => 8,
        }
    }
}

/// Adjust a note number to light its button in the given color.
pub fn apply_color(note: u8, color: Color) -> (r: u8)
    requires
        note + color_offset_spec(color) <= u8::MAX,
    ensures
        r == note + color_offset_spec(color),
{
    note + color.offset()
}

/// The shift layer cycled by the right shift button.
#[derive(Clone, Copy, PartialOrd, Ord, PartialEq, Eq, Structural, Debug)]
pub enum Shift {
    Off,
    Red,
    Amber,
    Green,
}

/// The next layer in the cycle off, red, amber, green, off.
pub open spec fn shift_next_spec(s: Shift) -> Shift {
    match s {
        Shift::Off => Shift::Red,
        Shift::Red => Shift::Amber,
        Shift::Amber => Shift::Green,
        Shift::Green => Shift::Off,
    }
}

impl Shift {
    /// Cycle to the next shift layer.
    pub fn next(&self) -> (r: Shift)
        ensures
            r == shift_next_spec(*self),
    {
        match self {
            Shift::Off => Shift::Red,
            Shift::Red => Shift::Amber,
            Shift::Amber => Shift::Green,
            Shift::Green => Shift::Off,
        }
    }
}

/// The light color of a shift layer; layers without one fall back to red.
pub open spec fn shift_to_color_spec(s: Shift) -> Color {
    match s {
        Shift::Red => Color::Red,
        Shift::Amber => Color::Amber,
        Shift::Green => Color::Green,
        Shift::Off => Color::Red,
    }
}

/// The light color of a shift layer.
pub fn shift_to_color(shift: &Shift) -> (r: Color)
    ensures
        r == shift_to_color_spec(*shift),
{
    match shift {
        Shift::Red => Color::Red,
        Shift::Amber => Color::Amber,
        Shift::Green => Color::Green,
        Shift::Off => Color::Red,
    }
}

/// Which way an endless encoder was turned.
#[derive(Clone, Copy, PartialEq, Eq, Structural, Debug)]
pub enum EncoderDirection {
    Clockwise,
    CounterClockwise,
}

/// One control event parsed from a raw MIDI message.
#[derive(Clone, Copy, PartialEq, Eq, Structural, Debug)]
pub enum ControlType {
    Encoder(u8, EncoderDirection),
    Fader(u8, u8),
    Knob(u8, u8),
    Button(u8, bool),
}

/// A control event translated for the rest of the system. Fader and knob
/// levels are the raw seven-bit MIDI values; scaling them for display is
/// the consumer's concern.
#[derive(Clone, Copy, PartialEq, Eq, Structural, Debug)]
pub enum XoneMessage {
    Fader { id: u8, level: u8 },
    Encoder { id: u8, direction: EncoderDirection },
    Button { id: u8, pressed: bool },
    Knob { id: u8, level: u8 },
}

/// One three-byte light command for the controller.
#[derive(Clone, Copy, PartialEq, Eq, Structural, Debug)]
pub struct MidiBytes {
    pub status: u8,
    pub note: u8,
    pub velocity: u8,
}

/// What a raw MIDI message means. Control-change messages carry encoder
/// turns (the four top encoders by their own note numbers, the two bottom
/// encoders by dedicated notes), fader moves and knob turns; note-on and
/// note-off messages carry button presses. Anything else is ignored.
pub open spec fn parse_midi_spec(bytes: Seq<u8>) -> Option<ControlType> {
    if bytes.len() != 3 {
        None
    } else {
        let status = bytes[0];
        let note = bytes[1];
        let level = bytes[2];
        if status == CONTROLCHANGE {
            if note <= 0x03 {
                if level == 0x01 {
                    Some(ControlType::Encoder(note, EncoderDirection::Clockwise))
                } else if level == 0x7f {
                    Some(ControlType::Encoder(note, EncoderDirection::CounterClockwise))
                } else {
                    None
                }
            } else if note == 0x15 {
                if level == 0x01 {
                    Some(ControlType::Encoder(RENC, EncoderDirection::Clockwise))
                } else if level == 0x7f {
                    Some(ControlType::Encoder(RENC, EncoderDirection::CounterClockwise))
                } else {
                    None
                }
            } else if note == 0x14 {
                if level == 0x01 {
                    Some(ControlType::Encoder(LENC, EncoderDirection::Clockwise))
                } else if level == 0x7f {
                    Some(ControlType::Encoder(LENC, EncoderDirection::CounterClockwise))
                } else {
                    None
                }
            } else if 0x10 <= note && note <= 0x13 {
                Some(ControlType::Fader(note, level))
            } else if 0x04 <= note && note <= 0x0f {
                Some(ControlType::Knob(note, level))
            } else {
                None
            }
        } else if status == NOTEON {
            if level == 0x7f {
                Some(ControlType::Button(note, true))
            } else if level == 0x00 {
                Some(ControlType::Button(note, false))
            } else {
                None
            }
        } else if status == NOTEOFF {
            Some(ControlType::Button(note, false))
        } else {
            None
        }
    }
}

/// The control surface's state: which shift layer is active and which
/// encoder or shift buttons are held, plus the device name it was opened
/// for. The MIDI ports themselves live with the caller.
pub struct XoneK2 {
    pub shift: Shift,
    pub bottom_left_encoder_shift: bool,
    pub bottom_right_encoder_shift: bool,
    pub top_left_encoder_shift: bool,
    pub top_mid_left_encoder_shift: bool,
    pub top_mid_right_encoder_shift: bool,
    pub top_right_encoder_shift: bool,
    pub device: String,
}

/// What a button event does to the surface state, and what it emits: the
/// translated message, and a light command when the shift layer cycled.
pub open spec fn button_spec(s: XoneK2, id: u8, pressed: bool) -> (
    XoneK2,
    Option<XoneMessage>,
    Option<MidiBytes>,
) {
    if id == RENC {
        (
            XoneK2 { bottom_right_encoder_shift: pressed, ..s },
            Some(XoneMessage::Button { id, pressed }),
            None,
        )
    } else if id == LENC {
        (
            XoneK2 { bottom_left_encoder_shift: pressed, ..s },
            Some(XoneMessage::Button { id, pressed }),
            None,
        )
    } else if id == RSHIFT {
        if pressed {
            let next = shift_next_spec(s.shift);
            let light = if next == Shift::Off {
                MidiBytes { status: NOTEOFF, note: RSHIFT, velocity: 0x00 }
            } else {
                MidiBytes {
                    status: NOTEON,
                    note: (RSHIFT + color_offset_spec(shift_to_color_spec(next))) as u8,
                    velocity: 0x7f,
                }
            };
            (
                XoneK2 { shift: next, ..s },
                Some(XoneMessage::Button { id, pressed }),
                Some(light),
            )
        } else {
            (s, Some(XoneMessage::Button { id, pressed }), None)
        }
    } else if (0x18 <= id && id <= 0x37) || id == LSHIFT {
        (s, Some(XoneMessage::Button { id, pressed }), None)
    } else {
        (s, None, None)
    }
}

impl XoneK2 {
    /// A fresh surface state for the named device: no shift layer, no
    /// held buttons.
    pub fn new(device: &str) -> (r: XoneK2)
        ensures
            r.shift == Shift::Off,
            !r.bottom_left_encoder_shift,
            !r.bottom_right_encoder_shift,
            !r.top_left_encoder_shift,
            !r.top_mid_left_encoder_shift,
            !r.top_mid_right_encoder_shift,
            !r.top_right_encoder_shift,
            r.device@ == device@,
    {
        XoneK2 {
            shift: Shift::Off,
            bottom_left_encoder_shift: false,
            bottom_right_encoder_shift: false,
            top_left_encoder_shift: false,
            top_mid_left_encoder_shift: false,
            top_mid_right_encoder_shift: false,
            top_right_encoder_shift: false,
            device: String::from_str(device),
        }
    }

    /// Parse one raw MIDI message into a control event.
    pub fn parse_midi_message(&self, message: &[u8]) -> (r: Option<ControlType>)
        ensures
            r == parse_midi_spec(message@),
    {
        if message.len() != 3 {
            return None;
        }
        let status = message[0];
        let note = message[1];
        let level = message[2];
        if status == CONTROLCHANGE {
            if note <= 0x03 {
                if level == 0x01 {
                    Some(ControlType::Encoder(note, EncoderDirection::Clockwise))
                } else if level == 0x7f {
                    Some(ControlType::Encoder(note, EncoderDirection::CounterClockwise))
                } else {
                    None
                }
            } else if note == 0x15 {
                if level == 0x01 {
                    Some(ControlType::Encoder(RENC, EncoderDirection::Clockwise))
                } else if level == 0x7f {
                    Some(ControlType::Encoder(RENC, EncoderDirection::CounterClockwise))
                } else {
                    None
                }
            } else if note == 0x14 {
                if level == 0x01 {
                    Some(ControlType::Encoder(LENC, EncoderDirection::Clockwise))
                } else if level == 0x7f {
                    Some(ControlType::Encoder(LENC, EncoderDirection::CounterClockwise))
                } else {
                    None
                }
            } else if 0x10 <= note && note <= 0x13 {
                Some(ControlType::Fader(note, level))
            } else if 0x04 <= note && note <= 0x0f {
                Some(ControlType::Knob(note, level))
            } else {
                None
            }
        } else if status == NOTEON {
            if level == 0x7f {
                Some(ControlType::Button(note, true))
            } else if level == 0x00 {
                Some(ControlType::Button(note, false))
            } else {
                None
            }
        } else if status == NOTEOFF {
            Some(ControlType::Button(note, false))
        } else {
            None
        }
    }

    /// Translate an encoder turn. Every known encoder forwards its turn;
    /// unknown identifiers are ignored.
    pub fn handle_encoder(&mut self, id: u8, direction: EncoderDirection) -> (r: Option<
        XoneMessage,
    >)
        ensures
            *final(self) == *old(self),
            r == if id <= 0x03 || id == LENC || id == RENC {
                Some(XoneMessage::Encoder { id, direction })
            } else {
                None::<XoneMessage>
            },
    {
        if id <= 0x03 || id == LENC || id == RENC {
            Some(XoneMessage::Encoder { id, direction })
        } else {
            None
        }
    }

    /// Translate a fader move; the level is the raw seven-bit value.
    pub fn handle_fader(&mut self, id: u8, level: u8) -> (r: Option<XoneMessage>)
        ensures
            *final(self) == *old(self),
            r == if 0x10 <= id && id <= 0x13 {
                Some(XoneMessage::Fader { id, level })
            } else {
                None::<XoneMessage>
            },
    {
        if 0x10 <= id && id <= 0x13 {
            Some(XoneMessage::Fader { id, level })
        } else {
            None
        }
    }

    /// Translate a knob turn; the level is the raw seven-bit value.
    pub fn handle_knob(&mut self, id: u8, level: u8) -> (r: Option<XoneMessage>)
        ensures
            *final(self) == *old(self),
            r == if 0x04 <= id && id <= 0x0f {
                Some(XoneMessage::Knob { id, level })
            } else {
                None::<XoneMessage>
            },
    {
        if 0x04 <= id && id <= 0x0f {
            Some(XoneMessage::Knob { id, level })
        } else {
            None
        }
    }

    /// Apply a button event: encoder pushes hold their shift, the right
    /// shift button cycles the layer and asks for its light to change,
    /// the button grid forwards presses.
    pub fn handle_button(&mut self, id: u8, pressed: bool) -> (r: (
        Option<XoneMessage>,
        Option<MidiBytes>,
    ))
        ensures
            (*final(self), r.0, r.1) == button_spec(*old(self), id, pressed),
    {
        if id == RENC {
            self.bottom_right_encoder_shift = pressed;
            (Some(XoneMessage::Button { id, pressed }), None)
        } else if id == LENC {
            self.bottom_left_encoder_shift = pressed;
            (Some(XoneMessage::Button { id, pressed }), None)
        } else if id == RSHIFT {
            if pressed {
                self.shift = self.shift.next();
                let light = if self.shift == Shift::Off {
                    MidiBytes { status: NOTEOFF, note: RSHIFT, velocity: 0x00 }
                } else {
                    let color = shift_to_color(&self.shift);
                    MidiBytes { status: NOTEON, note: apply_color(RSHIFT, color), velocity: 0x7f }
                };
                (Some(XoneMessage::Button { id, pressed }), Some(light))
            } else {
                (Some(XoneMessage::Button { id, pressed }), None)
            }
        } else if (0x18 <= id && id <= 0x37) || id == LSHIFT {
            (Some(XoneMessage::Button { id, pressed }), None)
        } else {
            (None, None)
        }
    }

    /// Dispatch one parsed control event, returning the translated
    /// message and any light command it caused.
    pub fn handle_control(&mut self, control: ControlType) -> (r: (
        Option<XoneMessage>,
        Option<MidiBytes>,
    ))
        ensures
            match control {
                ControlType::Button(id, pressed) => (*final(self), r.0, r.1) == button_spec(
                    *old(self),
                    id,
                    pressed,
                ),
                _ => *final(self) == *old(self) && r.1 is None,
            },
    {
        match control {
            ControlType::Encoder(id, direction) => (self.handle_encoder(id, direction), None),
            ControlType::Fader(id, level) => (self.handle_fader(id, level), None),
            ControlType::Knob(id, level) => (self.handle_knob(id, level), None),
            ControlType::Button(id, pressed) => self.handle_button(id, pressed),
        }
    }
}

/// How many lightable buttons the surface has: the two shift buttons and
/// the contiguous thirty-two-note grid (four top encoders, twelve pot
/// buttons, sixteen bottom buttons).
pub const BUTTON_COUNT: usize = 34;

/// The note of the `i`-th lightable button, in ascending note order: the
/// left and right shift buttons, then the grid from its lowest note on.
pub open spec fn button_note_at(i: int) -> u8 {
    if i == 0 {
        LSHIFT
    } else if i == 1 {
        RSHIFT
    } else {
        (0x18 + (i - 2)) as u8
    }
}

/// The light command that darkens a button.
pub open spec fn note_off_msg(note: u8) -> MidiBytes {
    MidiBytes { status: NOTEOFF, note, velocity: 0x00 }
}

/// The light command that lights a button in the given color.
pub open spec fn note_on_msg(note: u8, color: Color) -> MidiBytes
    recommends
        note + color_offset_spec(color) <= u8::MAX,
{
    MidiBytes {
        status: NOTEON,
        note: (note + color_offset_spec(color)) as u8,
        velocity: 0x7f,
    }
}

/// Every lightable button note, in ascending order.
pub fn all_button_notes() -> (r: Vec<u8>)
    ensures
        r@.len() == BUTTON_COUNT,
        forall|i: int| 0 <= i < r@.len() ==> r@[i] == button_note_at(i),
{
    let mut notes: Vec<u8> = Vec::new();
    notes.push(LSHIFT);
    notes.push(RSHIFT);
    let mut n: u8 = 0x18;
    while n <= 0x37
        invariant
            0x18 <= n <= 0x38,
            notes@.len() == 2 + n - 0x18,
            forall|i: int| 0 <= i < notes@.len() ==> notes@[i] == button_note_at(i),
        decreases 0x38 - n,
    {
        notes.push(n);
        n = n + 1;
    }
    notes
}

/// The commands that darken every button, in ascending note order. The
/// caller writes them to the device, pacing between messages.
pub fn all_notes_off_messages() -> (r: Vec<MidiBytes>)
    ensures
        r@.len() == BUTTON_COUNT,
        forall|i: int| 0 <= i < r@.len() ==> r@[i] == note_off_msg(button_note_at(i)),
{
    let notes = all_button_notes();
    let mut out: Vec<MidiBytes> = Vec::new();
    let mut i: usize = 0;
    while i < notes.len()
        invariant
            notes@.len() == BUTTON_COUNT,
            forall|j: int| 0 <= j < notes@.len() ==> notes@[j] == button_note_at(j),
            i <= notes@.len(),
            out@.len() == i,
            forall|j: int| 0 <= j < i ==> out@[j] == note_off_msg(button_note_at(j)),
        decreases notes@.len() - i,
    {
        out.push(MidiBytes { status: NOTEOFF, note: notes[i], velocity: 0x00 });
        i = i + 1;
    }
    out
}

/// The red-lit first half of one sweep group: buttons `4g` up to `4g + k`.
pub open spec fn sweep_on_prefix(g: int, k: int) -> Seq<MidiBytes> {
    Seq::new(k as nat, |i: int| note_on_msg(button_note_at(4 * g + i), Color::Red))
}

/// The darkening second half of one sweep group.
pub open spec fn sweep_off_prefix(g: int, k: int) -> Seq<MidiBytes> {
    Seq::new(k as nat, |i: int| note_off_msg(button_note_at(4 * g + i)))
}

/// How many buttons sweep group `g` covers: four, or what is left.
pub open spec fn sweep_group_size(g: int) -> int {
    if 4 * g + 4 <= BUTTON_COUNT {
        4int
    } else {
        BUTTON_COUNT - 4 * g
    }
}

/// One group of the power-on light sweep: its buttons lit red, then
/// darkened, in note order.
pub open spec fn sweep_group(g: int) -> Seq<MidiBytes> {
    sweep_on_prefix(g, sweep_group_size(g)) + sweep_off_prefix(g, sweep_group_size(g))
}

/// The first `g` groups of the sweep, concatenated.
pub open spec fn sweep_upto(g: int) -> Seq<MidiBytes>
    decreases g,
{
    if g <= 0 {
        Seq::empty()
    } else {
        sweep_upto(g - 1) + sweep_group(g - 1)
    }
}

/// The commands of the power-on light sweep: the buttons in groups of
/// four, each group first lit red and then darkened, in ascending note
/// order. The caller writes them to the device with its own pacing.
pub fn light_sweep_messages() -> (r: Vec<MidiBytes>)
    ensures
        r@ == sweep_upto(9),
{
    let notes = all_button_notes();
    let mut out: Vec<MidiBytes> = Vec::new();
    let mut g: usize = 0;
    while g < 9
        invariant
            notes@.len() == BUTTON_COUNT,
            forall|j: int| 0 <= j < notes@.len() ==> notes@[j] == button_note_at(j),
            g <= 9,
            out@ == sweep_upto(g as int),
        decreases 9 - g,
    {
        let start: usize = 4 * g;
        let size: usize = if start + 4 <= BUTTON_COUNT {
            4
        } else {
            BUTTON_COUNT - start
        };
        let mut i: usize = 0;
        while i < size
            invariant
                notes@.len() == BUTTON_COUNT,
                forall|j: int| 0 <= j < notes@.len() ==> notes@[j] == button_note_at(j),
                g < 9,
                start == 4 * g,
                size == sweep_group_size(g as int),
                start + size <= BUTTON_COUNT,
                i <= size,
                out@ == sweep_upto(g as int) + sweep_on_prefix(g as int, i as int),
            decreases size - i,
        {
            let note = notes[start + i];
            out.push(MidiBytes { status: NOTEON, note: apply_color(note, Color::Red), velocity: 0x7f });
            proof {
                assert(out@ =~= sweep_upto(g as int) + sweep_on_prefix(g as int, i + 1));
            }
            i = i + 1;
        }
        let mut i: usize = 0;
        while i < size
            invariant
                notes@.len() == BUTTON_COUNT,
                forall|j: int| 0 <= j < notes@.len() ==> notes@[j] == button_note_at(j),
                g < 9,
                start == 4 * g,
                size == sweep_group_size(g as int),
                start + size <= BUTTON_COUNT,
                i <= size,
                out@ == sweep_upto(g as int) + sweep_on_prefix(g as int, size as int)
                    + sweep_off_prefix(g as int, i as int),
            decreases size - i,
        {
            out.push(MidiBytes { status: NOTEOFF, note: notes[start + i], velocity: 0x00 });
            proof {
                assert(out@ =~= sweep_upto(g as int) + sweep_on_prefix(g as int, size as int)
                    + sweep_off_prefix(g as int, i + 1));
            }
            i = i + 1;
        }
        proof {
            assert(out@ =~= sweep_upto(g + 1));
        }
        g = g + 1;
    }
    out
}

} // verus!
