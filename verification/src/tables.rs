//! Byte classes, machine states, actions and the transition relation.

use vstd::prelude::*;

verus! {

/// The state of the byte-fed machine.
#[derive(Clone, Copy, Debug, PartialEq, Eq, Structural)]
pub enum State {
    Ground,
    Escape,
    EscapeIntermediate,
    CsiEntry,
    CsiParam,
    CsiIntermediate,
    CsiIgnore,
    DcsEntry,
    DcsParam,
    DcsIntermediate,
    DcsPassthrough,
    DcsIgnore,
    OscString,
    SosPmApcString,
}

/// What the machine does with a byte while it moves to the next state.
#[derive(Clone, Copy, Debug, PartialEq, Eq, Structural)]
pub enum Action {
    /// Nothing is done with the byte.
    Pass,
    Ignore,
    Print,
    Execute,
    Clear,
    Collect,
    Param,
    EscDispatch,
    CsiDispatch,
    Hook,
    Put,
    Unhook,
    OscStart,
    OscPut,
    OscEnd,
}

/// The structural role of an input byte.
#[derive(Clone, Copy, Debug, PartialEq, Eq, Structural)]
pub enum ByteClass {
    /// C0 controls other than ESC, and DEL.
    Exe,
    /// Bytes with the high bit set.
    Print,
    /// Digits and `:;<=>?`.
    Param,
    /// Space and `!"#$%&'()*+,-./`.
    Inter,
    /// `[`.
    CsiEntry,
    /// ESC.
    Esc,
    /// Final bytes that have no class of their own.
    Disp,
    /// `]`.
    Osc,
    /// `X`, `^` and `_`, which open SOS, PM and APC strings.
    Sos,
    /// `P`.
    DcsEntry,
}

/// A next state and an action packed into one byte: the state in the high
/// nibble, the action in the low one.
pub type TableEntry = u8;

impl State {
    /// The number of the state, from 0 for `Ground` to 13 for `SosPmApcString`.
    pub open spec fn code(self) -> int {
        match self {
            State::Ground => 0,
            State::Escape => 1,
            State::EscapeIntermediate => 2,
            State::CsiEntry => 3,
            State::CsiParam => 4,
            State::CsiIntermediate => 5,
            State::CsiIgnore => 6,
            State::DcsEntry => 7,
            State::DcsParam => 8,
            State::DcsIntermediate => 9,
            State::DcsPassthrough => 10,
            State::DcsIgnore => 11,
            State::OscString => 12,
            State::SosPmApcString => 13,
        }
    }

    /// The state with the given number, if there is one.
    pub open spec fn of_code(code: int) -> Option<State> {
        if code == 0 {
            Some(State::Ground)
        } else if code == 1 {
            Some(State::Escape)
        } else if code == 2 {
            Some(State::EscapeIntermediate)
        } else if code == 3 {
            Some(State::CsiEntry)
        } else if code == 4 {
            Some(State::CsiParam)
        } else if code == 5 {
            Some(State::CsiIntermediate)
        } else if code == 6 {
            Some(State::CsiIgnore)
        } else if code == 7 {
            Some(State::DcsEntry)
        } else if code == 8 {
            Some(State::DcsParam)
        } else if code == 9 {
            Some(State::DcsIntermediate)
        } else if code == 10 {
            Some(State::DcsPassthrough)
        } else if code == 11 {
            Some(State::DcsIgnore)
        } else if code == 12 {
            Some(State::OscString)
        } else if code == 13 {
            Some(State::SosPmApcString)
        } else {
            None
        }
    }

    /// Computes the number of the state.
    pub fn to_u8(self) -> (code: u8)
        ensures
            code == self.code(),
            code < 14,
    {
        match self {
            State::Ground => 0,
            State::Escape => 1,
            State::EscapeIntermediate => 2,
            State::CsiEntry => 3,
            State::CsiParam => 4,
            State::CsiIntermediate => 5,
            State::CsiIgnore => 6,
            State::DcsEntry => 7,
            State::DcsParam => 8,
            State::DcsIntermediate => 9,
            State::DcsPassthrough => 10,
            State::DcsIgnore => 11,
            State::OscString => 12,
            State::SosPmApcString => 13,
        }
    }

    /// Finds the state with the given number.
    pub fn from_u8(code: u8) -> (state: Option<State>)
        ensures
            state == State::of_code(code as int),
            state is Some <==> code < 14,
            state matches Some(s) ==> s.code() == code,
    {
        match code {
            0 => Some(State::Ground),
            1 => Some(State::Escape),
            2 => Some(State::EscapeIntermediate),
            3 => Some(State::CsiEntry),
            4 => Some(State::CsiParam),
            5 => Some(State::CsiIntermediate),
            6 => Some(State::CsiIgnore),
            7 => Some(State::DcsEntry),
            8 => Some(State::DcsParam),
            9 => Some(State::DcsIntermediate),
            10 => Some(State::DcsPassthrough),
            11 => Some(State::DcsIgnore),
            12 => Some(State::OscString),
            13 => Some(State::SosPmApcString),
            _ => None,
        }
    }
}

impl Action {
    /// The number of the action, from 0 for `Pass` to 14 for `OscEnd`.
    pub open spec fn code(self) -> int {
        match self {
            Action::Pass => 0,
            Action::Ignore => 1,
            Action::Print => 2,
            Action::Execute => 3,
            Action::Clear => 4,
            Action::Collect => 5,
            Action::Param => 6,
            Action::EscDispatch => 7,
            Action::CsiDispatch => 8,
            Action::Hook => 9,
            Action::Put => 10,
            Action::Unhook => 11,
            Action::OscStart => 12,
            Action::OscPut => 13,
            Action::OscEnd => 14,
        }
    }

    /// The action with the given number, if there is one.
    pub open spec fn of_code(code: int) -> Option<Action> {
        if code == 0 {
            Some(Action::Pass)
        } else if code == 1 {
            Some(Action::Ignore)
        } else if code == 2 {
            Some(Action::Print)
        } else if code == 3 {
            Some(Action::Execute)
        } else if code == 4 {
            Some(Action::Clear)
        } else if code == 5 {
            Some(Action::Collect)
        } else if code == 6 {
            Some(Action::Param)
        } else if code == 7 {
            Some(Action::EscDispatch)
        } else if code == 8 {
            Some(Action::CsiDispatch)
        } else if code == 9 {
            Some(Action::Hook)
        } else if code == 10 {
            Some(Action::Put)
        } else if code == 11 {
            Some(Action::Unhook)
        } else if code == 12 {
            Some(Action::OscStart)
        } else if code == 13 {
            Some(Action::OscPut)
        } else if code == 14 {
            Some(Action::OscEnd)
        } else {
            None
        }
    }

    /// Computes the number of the action.
    pub fn to_u8(self) -> (code: u8)
        ensures
            code == self.code(),
            code < 15,
    {
        match self {
            Action::Pass => 0,
            Action::Ignore => 1,
            Action::Print => 2,
            Action::Execute => 3,
            Action::Clear => 4,
            Action::Collect => 5,
            Action::Param => 6,
            Action::EscDispatch => 7,
            Action::CsiDispatch => 8,
            Action::Hook => 9,
            Action::Put => 10,
            Action::Unhook => 11,
            Action::OscStart => 12,
            Action::OscPut => 13,
            Action::OscEnd => 14,
        }
    }

    /// Finds the action with the given number.
    pub fn from_u8(code: u8) -> (action: Option<Action>)
        ensures
            action == Action::of_code(code as int),
            action is Some <==> code < 15,
            action matches Some(a) ==> a.code() == code,
    {
        match code {
            0 => Some(Action::Pass),
            1 => Some(Action::Ignore),
            2 => Some(Action::Print),
            3 => Some(Action::Execute),
            4 => Some(Action::Clear),
            5 => Some(Action::Collect),
            6 => Some(Action::Param),
            7 => Some(Action::EscDispatch),
            8 => Some(Action::CsiDispatch),
            9 => Some(Action::Hook),
            10 => Some(Action::Put),
            11 => Some(Action::Unhook),
            12 => Some(Action::OscStart),
            13 => Some(Action::OscPut),
            14 => Some(Action::OscEnd),
            _ => None,
        }
    }
}

/// The entry that stands for a next state and an action.
pub open spec fn packed(state: State, action: Action) -> int {
    16 * state.code() + action.code()
}

/// Packs a next state and an action into one table entry.
pub fn pack(state: State, action: Action) -> (entry: TableEntry)
    ensures
        entry == packed(state, action),
{
    let s: u8 = state.to_u8();
    let a: u8 = action.to_u8();
    assert((s << 4) | a == 16 * s + a) by (bit_vector)
        requires
            s < 14,
            a < 15,
    ;
    (s << 4) | a
}

/// Splits a table entry into its next state and its action. Entries whose
/// nibbles name no state or no action give `None`.
pub fn unpack(entry: TableEntry) -> (pair: Option<(State, Action)>)
    ensures
        pair matches Some((state, action)) ==> entry == packed(state, action),
        pair is None <==> (entry / 16 >= 14 || entry % 16 >= 15),
        forall|state: State, action: Action|
            entry == packed(state, action) ==> pair == Some((state, action)),
{
    let hi: u8 = entry >> 4;
    let lo: u8 = entry & 0x0F;
    assert(entry >> 4 == entry / 16 && entry & 0x0F == entry % 16) by (bit_vector);
    match (State::from_u8(hi), Action::from_u8(lo)) {
        (Some(state), Some(action)) => Some((state, action)),
        _ => None,
    }
}

/// The class of a byte.
pub open spec fn class_of(byte: u8) -> ByteClass {
    if byte == 0x1B {
        ByteClass::Esc
    } else if byte <= 0x1F || byte == 0x7F {
        ByteClass::Exe
    } else if byte <= 0x2F {
        ByteClass::Inter
    } else if byte <= 0x3F {
        ByteClass::Param
    } else if byte >= 0x80 {
        ByteClass::Print
    } else if byte == 0x50 {
        ByteClass::DcsEntry
    } else if byte == 0x5B {
        ByteClass::CsiEntry
    } else if byte == 0x5D {
        ByteClass::Osc
    } else if byte == 0x58 || byte == 0x5E || byte == 0x5F {
        ByteClass::Sos
    } else {
        ByteClass::Disp
    }
}

/// Classifies a byte.
pub fn classify(byte: u8) -> (class: ByteClass)
    ensures
        class == class_of(byte),
{
    match byte {
        0x1B => ByteClass::Esc,
        0x00..=0x1F | 0x7F => ByteClass::Exe,
        0x20..=0x2F => ByteClass::Inter,
        0x30..=0x3F => ByteClass::Param,
        0x50 => ByteClass::DcsEntry,
        0x5B => ByteClass::CsiEntry,
        0x5D => ByteClass::Osc,
        0x58 | 0x5E | 0x5F => ByteClass::Sos,
        0x40..=0x7E => ByteClass::Disp,
        _ => ByteClass::Print,
    }
}

/// The transition relation: the next state and the action for a state and the
/// class of the byte that arrives in it, one row for each state.
pub open spec fn transition(state: State, class: ByteClass) -> (State, Action) {
    match state {
        State::Ground => match class {
            ByteClass::Exe => (State::Ground, Action::Execute),
            ByteClass::Print => (State::Ground, Action::Print),
            ByteClass::Param => (State::Ground, Action::Print),
            ByteClass::Inter => (State::Ground, Action::Print),
            ByteClass::CsiEntry => (State::Ground, Action::Print),
            ByteClass::Esc => (State::Escape, Action::Clear),
            ByteClass::Disp => (State::Ground, Action::Print),
            ByteClass::Osc => (State::Ground, Action::Print),
            ByteClass::Sos => (State::Ground, Action::Print),
            ByteClass::DcsEntry => (State::Ground, Action::Print),
        },
        State::Escape => match class {
            ByteClass::Exe => (State::Escape, Action::Execute),
            ByteClass::Print => (State::Ground, Action::EscDispatch),
            ByteClass::Param => (State::Ground, Action::EscDispatch),
            ByteClass::Inter => (State::EscapeIntermediate, Action::Collect),
            ByteClass::CsiEntry => (State::CsiEntry, Action::Clear),
            ByteClass::Esc => (State::Escape, Action::Clear),
            ByteClass::Disp => (State::Ground, Action::EscDispatch),
            ByteClass::Osc => (State::OscString, Action::OscStart),
            ByteClass::Sos => (State::SosPmApcString, Action::Pass),
            ByteClass::DcsEntry => (State::DcsEntry, Action::Clear),
        },
        State::EscapeIntermediate => match class {
            ByteClass::Exe => (State::EscapeIntermediate, Action::Execute),
            ByteClass::Print => (State::Ground, Action::EscDispatch),
            ByteClass::Param => (State::Ground, Action::EscDispatch),
            ByteClass::Inter => (State::EscapeIntermediate, Action::Collect),
            ByteClass::CsiEntry => (State::Ground, Action::EscDispatch),
            ByteClass::Esc => (State::Escape, Action::Clear),
            ByteClass::Disp => (State::Ground, Action::EscDispatch),
            ByteClass::Osc => (State::Ground, Action::Ignore),
            ByteClass::Sos => (State::Ground, Action::Ignore),
            ByteClass::DcsEntry => (State::Ground, Action::EscDispatch),
        },
        State::CsiEntry => match class {
            ByteClass::Exe => (State::CsiEntry, Action::Execute),
            ByteClass::Print => (State::CsiIgnore, Action::Pass),
            ByteClass::Param => (State::CsiParam, Action::Param),
            ByteClass::Inter => (State::CsiIntermediate, Action::Collect),
            ByteClass::CsiEntry => (State::CsiIgnore, Action::Pass),
            ByteClass::Esc => (State::Escape, Action::Clear),
            ByteClass::Disp => (State::Ground, Action::CsiDispatch),
            ByteClass::Osc => (State::CsiIgnore, Action::Pass),
            ByteClass::Sos => (State::CsiIgnore, Action::Pass),
            ByteClass::DcsEntry => (State::Ground, Action::CsiDispatch),
        },
        State::CsiParam => match class {
            ByteClass::Exe => (State::CsiParam, Action::Execute),
            ByteClass::Print => (State::CsiIgnore, Action::Pass),
            ByteClass::Param => (State::CsiParam, Action::Param),
            ByteClass::Inter => (State::CsiIntermediate, Action::Collect),
            ByteClass::CsiEntry => (State::CsiIgnore, Action::Pass),
            ByteClass::Esc => (State::Escape, Action::Clear),
            ByteClass::Disp => (State::Ground, Action::CsiDispatch),
            ByteClass::Osc => (State::CsiIgnore, Action::Pass),
            ByteClass::Sos => (State::CsiIgnore, Action::Pass),
            ByteClass::DcsEntry => (State::Ground, Action::CsiDispatch),
        },
        State::CsiIntermediate => match class {
            ByteClass::Exe => (State::CsiIntermediate, Action::Execute),
            ByteClass::Print => (State::CsiIgnore, Action::Pass),
            ByteClass::Param => (State::CsiIgnore, Action::Param),
            ByteClass::Inter => (State::CsiIntermediate, Action::Collect),
            ByteClass::CsiEntry => (State::CsiIgnore, Action::Pass),
            ByteClass::Esc => (State::Escape, Action::Clear),
            ByteClass::Disp => (State::Ground, Action::CsiDispatch),
            ByteClass::Osc => (State::CsiIgnore, Action::Pass),
            ByteClass::Sos => (State::CsiIgnore, Action::Pass),
            ByteClass::DcsEntry => (State::Ground, Action::CsiDispatch),
        },
        State::CsiIgnore => match class {
            ByteClass::Exe => (State::CsiIgnore, Action::Execute),
            ByteClass::Print => (State::CsiIgnore, Action::Ignore),
            ByteClass::Param => (State::CsiIgnore, Action::Ignore),
            ByteClass::Inter => (State::CsiIgnore, Action::Ignore),
            ByteClass::CsiEntry => (State::CsiIgnore, Action::Ignore),
            ByteClass::Esc => (State::Escape, Action::Clear),
            ByteClass::Disp => (State::Ground, Action::Ignore),
            ByteClass::Osc => (State::CsiIgnore, Action::Ignore),
            ByteClass::Sos => (State::CsiIgnore, Action::Ignore),
            ByteClass::DcsEntry => (State::Ground, Action::Ignore),
        },
        State::DcsEntry => match class {
            ByteClass::Exe => (State::DcsEntry, Action::Execute),
            ByteClass::Print => (State::DcsIgnore, Action::Ignore),
            ByteClass::Param => (State::DcsParam, Action::Param),
            ByteClass::Inter => (State::DcsIntermediate, Action::Collect),
            ByteClass::CsiEntry => (State::DcsIgnore, Action::Ignore),
            ByteClass::Esc => (State::Escape, Action::Clear),
            ByteClass::Disp => (State::DcsPassthrough, Action::Hook),
            ByteClass::Osc => (State::DcsIgnore, Action::Ignore),
            ByteClass::Sos => (State::DcsIgnore, Action::Ignore),
            ByteClass::DcsEntry => (State::DcsPassthrough, Action::Hook),
        },
        State::DcsParam => match class {
            ByteClass::Exe => (State::DcsParam, Action::Execute),
            ByteClass::Print => (State::DcsIgnore, Action::Ignore),
            ByteClass::Param => (State::DcsParam, Action::Param),
            ByteClass::Inter => (State::DcsIntermediate, Action::Collect),
            ByteClass::CsiEntry => (State::DcsIgnore, Action::Ignore),
            ByteClass::Esc => (State::Escape, Action::Clear),
            ByteClass::Disp => (State::DcsPassthrough, Action::Hook),
            ByteClass::Osc => (State::DcsIgnore, Action::Ignore),
            ByteClass::Sos => (State::DcsIgnore, Action::Ignore),
            ByteClass::DcsEntry => (State::DcsPassthrough, Action::Hook),
        },
        State::DcsIntermediate => match class {
            ByteClass::Exe => (State::DcsIntermediate, Action::Execute),
            ByteClass::Print => (State::DcsIgnore, Action::Ignore),
            ByteClass::Param => (State::DcsIgnore, Action::Param),
            ByteClass::Inter => (State::DcsIntermediate, Action::Collect),
            ByteClass::CsiEntry => (State::DcsIgnore, Action::Ignore),
            ByteClass::Esc => (State::Escape, Action::Clear),
            ByteClass::Disp => (State::DcsPassthrough, Action::Hook),
            ByteClass::Osc => (State::DcsIgnore, Action::Ignore),
            ByteClass::Sos => (State::DcsIgnore, Action::Ignore),
            ByteClass::DcsEntry => (State::DcsPassthrough, Action::Hook),
        },
        State::DcsPassthrough => match class {
            ByteClass::Exe => (State::DcsPassthrough, Action::Put),
            ByteClass::Print => (State::DcsPassthrough, Action::Put),
            ByteClass::Param => (State::DcsPassthrough, Action::Put),
            ByteClass::Inter => (State::DcsPassthrough, Action::Put),
            ByteClass::CsiEntry => (State::DcsPassthrough, Action::Put),
            ByteClass::Esc => (State::Escape, Action::Unhook),
            ByteClass::Disp => (State::DcsPassthrough, Action::Put),
            ByteClass::Osc => (State::DcsPassthrough, Action::Put),
            ByteClass::Sos => (State::DcsPassthrough, Action::Put),
            ByteClass::DcsEntry => (State::DcsPassthrough, Action::Put),
        },
        State::DcsIgnore => match class {
            ByteClass::Exe => (State::DcsIgnore, Action::Ignore),
            ByteClass::Print => (State::DcsIgnore, Action::Ignore),
            ByteClass::Param => (State::DcsIgnore, Action::Ignore),
            ByteClass::Inter => (State::DcsIgnore, Action::Ignore),
            ByteClass::CsiEntry => (State::DcsIgnore, Action::Ignore),
            ByteClass::Esc => (State::Escape, Action::Clear),
            ByteClass::Disp => (State::Ground, Action::Unhook),
            ByteClass::Osc => (State::DcsIgnore, Action::Ignore),
            ByteClass::Sos => (State::DcsIgnore, Action::Ignore),
            ByteClass::DcsEntry => (State::Ground, Action::Unhook),
        },
        State::OscString => match class {
            ByteClass::Exe => (State::Ground, Action::OscEnd),
            ByteClass::Print => (State::OscString, Action::OscPut),
            ByteClass::Param => (State::OscString, Action::OscPut),
            ByteClass::Inter => (State::OscString, Action::OscPut),
            ByteClass::CsiEntry => (State::OscString, Action::OscPut),
            ByteClass::Esc => (State::Escape, Action::OscEnd),
            ByteClass::Disp => (State::OscString, Action::OscPut),
            ByteClass::Osc => (State::OscString, Action::OscPut),
            ByteClass::Sos => (State::OscString, Action::OscPut),
            ByteClass::DcsEntry => (State::OscString, Action::OscPut),
        },
        State::SosPmApcString => match class {
            ByteClass::Exe => (State::SosPmApcString, Action::Ignore),
            ByteClass::Print => (State::SosPmApcString, Action::Ignore),
            ByteClass::Param => (State::SosPmApcString, Action::Ignore),
            ByteClass::Inter => (State::SosPmApcString, Action::Ignore),
            ByteClass::CsiEntry => (State::SosPmApcString, Action::Ignore),
            ByteClass::Esc => (State::Escape, Action::Clear),
            ByteClass::Disp => (State::SosPmApcString, Action::Ignore),
            ByteClass::Osc => (State::SosPmApcString, Action::Ignore),
            ByteClass::Sos => (State::SosPmApcString, Action::Ignore),
            ByteClass::DcsEntry => (State::SosPmApcString, Action::Ignore),
        },
    }
}

/// Looks up the packed entry for a state and a byte class.
pub fn table_entry(state: State, class: ByteClass) -> (entry: TableEntry)
    ensures
        entry == packed(transition(state, class).0, transition(state, class).1),
{
    match state {
        State::Ground => match class {
            ByteClass::Exe => pack(State::Ground, Action::Execute),
            ByteClass::Esc => pack(State::Escape, Action::Clear),
            _ => pack(State::Ground, Action::Print),
        },
        State::Escape => match class {
            ByteClass::Exe => pack(State::Escape, Action::Execute),
            ByteClass::Inter => pack(State::EscapeIntermediate, Action::Collect),
            ByteClass::CsiEntry => pack(State::CsiEntry, Action::Clear),
            ByteClass::Esc => pack(State::Escape, Action::Clear),
            ByteClass::Osc => pack(State::OscString, Action::OscStart),
            ByteClass::Sos => pack(State::SosPmApcString, Action::Pass),
            ByteClass::DcsEntry => pack(State::DcsEntry, Action::Clear),
            _ => pack(State::Ground, Action::EscDispatch),
        },
        State::EscapeIntermediate => match class {
            ByteClass::Exe => pack(State::EscapeIntermediate, Action::Execute),
            ByteClass::Inter => pack(State::EscapeIntermediate, Action::Collect),
            ByteClass::Esc => pack(State::Escape, Action::Clear),
            ByteClass::Osc => pack(State::Ground, Action::Ignore),
            ByteClass::Sos => pack(State::Ground, Action::Ignore),
            _ => pack(State::Ground, Action::EscDispatch),
        },
        State::CsiEntry => match class {
            ByteClass::Exe => pack(State::CsiEntry, Action::Execute),
            ByteClass::Param => pack(State::CsiParam, Action::Param),
            ByteClass::Inter => pack(State::CsiIntermediate, Action::Collect),
            ByteClass::Esc => pack(State::Escape, Action::Clear),
            ByteClass::Disp => pack(State::Ground, Action::CsiDispatch),
            ByteClass::DcsEntry => pack(State::Ground, Action::CsiDispatch),
            _ => pack(State::CsiIgnore, Action::Pass),
        },
        State::CsiParam => match class {
            ByteClass::Exe => pack(State::CsiParam, Action::Execute),
            ByteClass::Param => pack(State::CsiParam, Action::Param),
            ByteClass::Inter => pack(State::CsiIntermediate, Action::Collect),
            ByteClass::Esc => pack(State::Escape, Action::Clear),
            ByteClass::Disp => pack(State::Ground, Action::CsiDispatch),
            ByteClass::DcsEntry => pack(State::Ground, Action::CsiDispatch),
            _ => pack(State::CsiIgnore, Action::Pass),
        },
        State::CsiIntermediate => match class {
            ByteClass::Exe => pack(State::CsiIntermediate, Action::Execute),
            ByteClass::Param => pack(State::CsiIgnore, Action::Param),
            ByteClass::Inter => pack(State::CsiIntermediate, Action::Collect),
            ByteClass::Esc => pack(State::Escape, Action::Clear),
            ByteClass::Disp => pack(State::Ground, Action::CsiDispatch),
            ByteClass::DcsEntry => pack(State::Ground, Action::CsiDispatch),
            _ => pack(State::CsiIgnore, Action::Pass),
        },
        State::CsiIgnore => match class {
            ByteClass::Exe => pack(State::CsiIgnore, Action::Execute),
            ByteClass::Esc => pack(State::Escape, Action::Clear),
            ByteClass::Disp => pack(State::Ground, Action::Ignore),
            ByteClass::DcsEntry => pack(State::Ground, Action::Ignore),
            _ => pack(State::CsiIgnore, Action::Ignore),
        },
        State::DcsEntry => match class {
            ByteClass::Exe => pack(State::DcsEntry, Action::Execute),
            ByteClass::Param => pack(State::DcsParam, Action::Param),
            ByteClass::Inter => pack(State::DcsIntermediate, Action::Collect),
            ByteClass::Esc => pack(State::Escape, Action::Clear),
            ByteClass::Disp => pack(State::DcsPassthrough, Action::Hook),
            ByteClass::DcsEntry => pack(State::DcsPassthrough, Action::Hook),
            _ => pack(State::DcsIgnore, Action::Ignore),
        },
        State::DcsParam => match class {
            ByteClass::Exe => pack(State::DcsParam, Action::Execute),
            ByteClass::Param => pack(State::DcsParam, Action::Param),
            ByteClass::Inter => pack(State::DcsIntermediate, Action::Collect),
            ByteClass::Esc => pack(State::Escape, Action::Clear),
            ByteClass::Disp => pack(State::DcsPassthrough, Action::Hook),
            ByteClass::DcsEntry => pack(State::DcsPassthrough, Action::Hook),
            _ => pack(State::DcsIgnore, Action::Ignore),
        },
        State::DcsIntermediate => match class {
            ByteClass::Exe => pack(State::DcsIntermediate, Action::Execute),
            ByteClass::Param => pack(State::DcsIgnore, Action::Param),
            ByteClass::Inter => pack(State::DcsIntermediate, Action::Collect),
            ByteClass::Esc => pack(State::Escape, Action::Clear),
            ByteClass::Disp => pack(State::DcsPassthrough, Action::Hook),
            ByteClass::DcsEntry => pack(State::DcsPassthrough, Action::Hook),
            _ => pack(State::DcsIgnore, Action::Ignore),
        },
        State::DcsPassthrough => match class {
            ByteClass::Esc => pack(State::Escape, Action::Unhook),
            _ => pack(State::DcsPassthrough, Action::Put),
        },
        State::DcsIgnore => match class {
            ByteClass::Esc => pack(State::Escape, Action::Clear),
            ByteClass::Disp => pack(State::Ground, Action::Unhook),
            ByteClass::DcsEntry => pack(State::Ground, Action::Unhook),
            _ => pack(State::DcsIgnore, Action::Ignore),
        },
        State::OscString => match class {
            ByteClass::Exe => pack(State::Ground, Action::OscEnd),
            ByteClass::Esc => pack(State::Escape, Action::OscEnd),
            _ => pack(State::OscString, Action::OscPut),
        },
        State::SosPmApcString => match class {
            ByteClass::Esc => pack(State::Escape, Action::Clear),
            _ => pack(State::SosPmApcString, Action::Ignore),
        },
    }
}

} // verus!
