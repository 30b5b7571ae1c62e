use crate::engine::{convert, spec_convert_value};
use crate::error::ConversionError;
use crate::parse::{literal_value, parses_as_i32};
use crate::units::Temperature;
use vstd::prelude::*;

verus! {

/// A user event from the GUI shell: an edit of the text field, a pick in
/// one of the two unit selectors, or a press of the Calculate button.
#[derive(Clone, Debug)]
pub enum Message {
    ChangeTextInput(String),
    FromSelected(Temperature),
    ToSelected(Temperature),
    Calculate,
}

/// The state of the single window: the raw input text, the two selected
/// scales, and the last computed result.
pub struct Converter {
    pub input: String,
    pub from: Temperature,
    pub to: Temperature,
    pub result: i64,
}

impl Converter {
    /// The fresh state: empty text, both selectors unspecified, result 0.
    pub fn new() -> (c: Converter)
        ensures
            c.input@ == Seq::<char>::empty(),
            c.from == Temperature::Unspecified,
            c.to == Temperature::Unspecified,
            c.result == 0,
    {
        Converter {
            input: String::new(),
            from: Temperature::Unspecified,
            to: Temperature::Unspecified,
            result: 0,
        }
    }

    /// The window title.
    pub fn title(&self) -> (t: String)
        ensures
            t@ == "Temperature Converter"@,
    {
        "Temperature Converter".to_owned()
    }

    /// Applies one user event. Edits and selections only record the new
    /// text or scale; Calculate converts the recorded text between the
    /// recorded scales and stores the value. Text that does not parse
    /// leaves the state as it was and reports the recoverable error.
    pub fn update(&mut self, message: Message) -> (r: Result<(), ConversionError>)
        ensures
            match message {
                Message::ChangeTextInput(value) => {
                    &&& r is Ok
                    &&& final(self).input == value
                    &&& final(self).from == old(self).from
                    &&& final(self).to == old(self).to
                    &&& final(self).result == old(self).result
                },
                Message::FromSelected(t) => {
                    &&& r is Ok
                    &&& final(self).input == old(self).input
                    &&& final(self).from == t
                    &&& final(self).to == old(self).to
                    &&& final(self).result == old(self).result
                },
                Message::ToSelected(t) => {
                    &&& r is Ok
                    &&& final(self).input == old(self).input
                    &&& final(self).from == old(self).from
                    &&& final(self).to == t
                    &&& final(self).result == old(self).result
                },
                Message::Calculate => {
                    &&& final(self).input == old(self).input
                    &&& final(self).from == old(self).from
                    &&& final(self).to == old(self).to
                    &&& if parses_as_i32(old(self).input@) {
                        &&& r is Ok
                        &&& final(self).result == spec_convert_value(
                            literal_value(old(self).input@),
                            old(self).from,
                            old(self).to,
                        )
                    } else {
                        &&& r is Err
                        &&& r->Err_0 == ConversionError::InvalidInputError
                        &&& final(self).result == old(self).result
                    }
                },
            },
    {
        match message {
            Message::ChangeTextInput(value) => {
                self.input = value;
                Ok(())
            },
            Message::FromSelected(t) => {
                self.from = t;
                Ok(())
            },
            Message::ToSelected(t) => {
                self.to = t;
                Ok(())
            },
            Message::Calculate => {
                match convert(self.input.as_str(), self.from, self.to) {
                    Ok(v) => {
                        self.result = v;
                        Ok(())
                    },
                    Err(e) => Err(e),
                }
            },
        }
    }
}

} // verus!
