//! The synthesis parameter selected in the parameter table.

use vstd::prelude::*;

verus! {

/// A synthesis parameter that the operator can select and edit.
#[derive(Debug, Copy, Clone, PartialEq, Eq, Structural)]
pub enum Parameter {
    Frequency,
    Amplitude,
    Waveform,
    PhaseOffset,
    DcOffset,
    Pan,
}

impl Default for Parameter {
    fn default() -> (r: Self)
        ensures
            r == Parameter::Frequency,
    {
        Parameter::Frequency
    }
}

/// Position of a parameter in the table order.
pub open spec fn parameter_index(p: Parameter) -> int {
    match p {
        Parameter::Frequency => 0,
        Parameter::Amplitude => 1,
        Parameter::Waveform => 2,
        Parameter::PhaseOffset => 3,
        Parameter::DcOffset => 4,
        Parameter::Pan => 5,
    }
}

/// The parameter at a table position (positions 0 to 5).
pub open spec fn parameter_at(i: int) -> Parameter {
    if i == 0 {
        Parameter::Frequency
    } else if i == 1 {
        Parameter::Amplitude
    } else if i == 2 {
        Parameter::Waveform
    } else if i == 3 {
        Parameter::PhaseOffset
    } else if i == 4 {
        Parameter::DcOffset
    } else {
        Parameter::Pan
    }
}

impl Parameter {
    /// How many parameters the table shows.
    pub fn count() -> (n: usize)
        ensures
            n == 6,
    {
        6
    }

    /// The parameter at a table position, if the position is in range.
    pub fn from_index(value: usize) -> (r: Option<Parameter>)
        ensures
            match r {
                Some(p) => value < 6 && parameter_index(p) == value,
                None => value >= 6,
            },
    {
        match value {
            0 => Some(Parameter::Frequency),
            1 => Some(Parameter::Amplitude),
            2 => Some(Parameter::Waveform),
            3 => Some(Parameter::PhaseOffset),
            4 => Some(Parameter::DcOffset),
            5 => Some(Parameter::Pan),
            _ => None,
        }
    }

    /// This parameter's position in the table order.
    pub fn index(&self) -> (i: usize)
        ensures
            i == parameter_index(*self),
    {
        match self {
            Parameter::Frequency => 0,
            Parameter::Amplitude => 1,
            Parameter::Waveform => 2,
            Parameter::PhaseOffset => 3,
            Parameter::DcOffset => 4,
            Parameter::Pan => 5,
        }
    }

    /// The next parameter in table order, wrapping past the last.
    pub fn next(&self) -> (r: Self)
        ensures
            r == parameter_at((parameter_index(*self) + 1) % 6),
            parameter_index(r) == (parameter_index(*self) + 1) % 6,
    {
        let value = (self.index() + 1) % 6;
        match Parameter::from_index(value) {
            Some(p) => p,
            None => Parameter::Frequency,
        }
    }

    /// The previous parameter in table order, wrapping before the first.
    pub fn previous(&self) -> (r: Self)
        ensures
            r == parameter_at((parameter_index(*self) + 5) % 6),
            parameter_index(r) == (parameter_index(*self) + 5) % 6,
    {
        let index = self.index();
        let value = if index > 0 {
            index - 1
        } else {
            5
        };
        match Parameter::from_index(value) {
            Some(p) => p,
            None => Parameter::Frequency,
        }
    }
}

} // verus!
