use vstd::prelude::*;

verus! {

/// What a MIDI control is bound to.
#[derive(PartialEq, Eq, Structural, Clone, Copy, Debug)]
pub enum MidiAction {
    MidiNone,
    MidiVfoA,
    MidiVfoB,
}

/// A request that the MIDI thread sends to the application thread.
#[derive(PartialEq, Eq, Structural, Clone, Copy, Debug)]
pub enum MidiMessage {
    UpdateMox(bool),
    StepFrequencyA(i32),
    StepFrequencyB(i32),
}

impl Default for MidiMessage {
    fn default() -> (r: MidiMessage)
        ensures
            r == MidiMessage::StepFrequencyA(0),
    {
        MidiMessage::StepFrequencyA(0)
    }
}

/// The kind of a MIDI control.
#[derive(PartialEq, Eq, Structural, Clone, Copy, Debug)]
pub enum MidiType {
    MidiUnknown,
    /// Note on/off.
    MidiButton,
    /// A value between 0 and 127.
    MidiKnob,
    /// A direction and a speed.
    MidiWheel,
}

/// The binding of one MIDI control number.
#[derive(PartialEq, Eq, Structural, Clone, Copy, Debug)]
pub struct MidiFunction {
    pub midi_type: MidiType,
    pub midi_action: MidiAction,
}

impl Default for MidiFunction {
    fn default() -> (r: MidiFunction)
        ensures
            r.midi_type == MidiType::MidiUnknown,
            r.midi_action == MidiAction::MidiNone,
    {
        MidiFunction { midi_type: MidiType::MidiUnknown, midi_action: MidiAction::MidiNone }
    }
}

/// The number of MIDI control numbers.
pub const MIDI_CONTROLS: usize = 256;

/// A MIDI control surface: its device name and the binding of each control.
#[derive(Debug)]
pub struct MIDI {
    pub device: String,
    pub functions: Vec<MidiFunction>,
}

/// The message that a MIDI event asks for: a control change (status 0xBn) on
/// an unbound control steps VFO A by its value less 64; note on and off, bound
/// controls and other events ask for nothing.
pub open spec fn midi_message_of(functions: Seq<MidiFunction>, m: Seq<u8>) -> Option<MidiMessage> {
    if m.len() >= 3 && m[0] / 16 == 0xB && functions[m[1] as int].midi_type == MidiType::MidiUnknown {
        Some(MidiMessage::StepFrequencyA((m[2] - 64) as i32))
    } else {
        None
    }
}

impl MIDI {
    pub open spec fn wf(&self) -> bool {
        self.functions@.len() == MIDI_CONTROLS
    }

    /// A control surface on device `d`, with every control unbound.
    pub fn new(d: String) -> (r: MIDI)
        ensures
            r.wf(),
            r.device == d,
            forall|i: int| 0 <= i < MIDI_CONTROLS ==> (#[trigger] r.functions@[i]).midi_type
                == MidiType::MidiUnknown,
    {
        let mut functions: Vec<MidiFunction> = Vec::new();
        while functions.len() < MIDI_CONTROLS
            invariant
                functions@.len() <= MIDI_CONTROLS,
                forall|i: int| 0 <= i < functions@.len() ==> (#[trigger] functions@[i]).midi_type
                    == MidiType::MidiUnknown,
            decreases MIDI_CONTROLS - functions@.len(),
        {
            functions.push(MidiFunction { midi_type: MidiType::MidiUnknown, midi_action: MidiAction::MidiNone });
        }
        MIDI { device: d, functions }
    }

    /// The message that one MIDI event (status, control number, value) asks for.
    pub fn decode(&self, message: &Vec<u8>) -> (r: Option<MidiMessage>)
        requires
            self.wf(),
        ensures
            r == midi_message_of(self.functions@, message@),
    {
        if message.len() < 3 {
            return None;
        }
        let index = message[1] as usize;
        if message[0] / 16 == 0xB && self.functions[index].midi_type == MidiType::MidiUnknown {
            Some(MidiMessage::StepFrequencyA(message[2] as i32 - 64))
        } else {
            None
        }
    }
}

} // verus!
