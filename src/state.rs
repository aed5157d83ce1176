use vstd::prelude::*;

verus! {

/// Where a container process stands in its lifecycle.
///
/// The states are ordered `Initial < Created < Started < Stopped < Crashed(_)`;
/// `Stopped` and `Crashed` are terminal.
#[derive(Debug, Clone, Copy, PartialEq, Eq, Structural, PartialOrd, Ord)]
pub enum ChildState {
    Initial,
    Created,
    Started,
    Stopped,
    Crashed(isize),
}

/// A `Crashed` state, which no small unsigned number stands for.
#[derive(Debug, Clone, Copy, PartialEq, Eq, Structural)]
pub struct EncodeError {
    pub status: isize,
}

/// An integer that is no encoding of a `ChildState`: its low four bits hold
/// a tag outside `0..=4`.
#[derive(Debug, Clone, Copy, PartialEq, Eq, Structural)]
pub struct DecodeError {
    pub value: isize,
}

/// The tag that the low four bits of an encoded state carry.
pub open spec fn tag(s: ChildState) -> isize {
    match s {
        ChildState::Initial => 0,
        ChildState::Created => 1,
        ChildState::Started => 2,
        ChildState::Stopped => 3,
        ChildState::Crashed(_) => 4,
    }
}

/// The integer that stands for `s` in the state word: the tag alone, or for
/// `Crashed(status)` the status shifted left by four bits with tag 4 below it.
pub open spec fn encoding(s: ChildState) -> isize {
    match s {
        ChildState::Crashed(status) => (status << 4usize) | 4,
        _ => tag(s),
    }
}

/// The state that an integer stands for, if any: the tag is read from the
/// low four bits; a crash status is recovered with an arithmetic shift.
pub open spec fn decoding(v: isize) -> Option<ChildState> {
    let t = v & 15;
    if t == 0 {
        Some(ChildState::Initial)
    } else if t == 1 {
        Some(ChildState::Created)
    } else if t == 2 {
        Some(ChildState::Started)
    } else if t == 3 {
        Some(ChildState::Stopped)
    } else if t == 4 {
        Some(ChildState::Crashed(v >> 4usize))
    } else {
        None
    }
}

/// The state as a small unsigned number, for the states without payload.
pub open spec fn plain_number(s: ChildState) -> Option<u8> {
    match s {
        ChildState::Crashed(_) => None,
        _ => Some(tag(s) as u8),
    }
}

/// The payload-free state that a small unsigned number stands for.
pub open spec fn plain_state(v: u8) -> Option<ChildState> {
    if v == 0 {
        Some(ChildState::Initial)
    } else if v == 1 {
        Some(ChildState::Created)
    } else if v == 2 {
        Some(ChildState::Started)
    } else if v == 3 {
        Some(ChildState::Stopped)
    } else {
        None
    }
}

/// A crash status survives the encoding: shifting it left by four bits
/// loses none of its bits.
pub open spec fn status_fits(status: isize) -> bool {
    (status << 4usize) >> 4usize == status
}

/// A state that the state word can hold without loss.
pub open spec fn representable(s: ChildState) -> bool {
    match s {
        ChildState::Crashed(status) => status_fits(status),
        _ => true,
    }
}

impl ChildState {
    /// The integer that stands for this state in the state word.
    pub fn encode(self) -> (r: isize)
        ensures
            r == encoding(self),
    {
        match self {
            ChildState::Initial => 0,
            ChildState::Created => 1,
            ChildState::Started => 2,
            ChildState::Stopped => 3,
            ChildState::Crashed(status) => (status << 4usize) | 4,
        }
    }

    /// The state that `v` stands for; an error where its low four bits hold
    /// a tag from 5 to 15.
    pub fn decode(v: isize) -> (r: Result<ChildState, DecodeError>)
        ensures
            decoding(v) matches Some(s) ==> r == Ok::<ChildState, DecodeError>(s),
            decoding(v) is None ==> r == Err::<ChildState, DecodeError>(DecodeError { value: v }),
            r is Err <==> 5 <= v & 15,
    {
        assert(0 <= v & 15 <= 15) by (bit_vector);
        let t = v & 15;
        if t == 0 {
            Ok(ChildState::Initial)
        } else if t == 1 {
            Ok(ChildState::Created)
        } else if t == 2 {
            Ok(ChildState::Started)
        } else if t == 3 {
            Ok(ChildState::Stopped)
        } else if t == 4 {
            Ok(ChildState::Crashed(v >> 4usize))
        } else {
            Err(DecodeError { value: v })
        }
    }

    /// The state as a number from 0 to 3; an error for `Crashed`.
    pub fn to_u8(self) -> (r: Result<u8, EncodeError>)
        ensures
            plain_number(self) matches Some(n) ==> r == Ok::<u8, EncodeError>(n),
            self matches ChildState::Crashed(status) ==> r == Err::<u8, EncodeError>(
                EncodeError { status },
            ),
    {
        match self {
            ChildState::Initial => Ok(0),
            ChildState::Created => Ok(1),
            ChildState::Started => Ok(2),
            ChildState::Stopped => Ok(3),
            ChildState::Crashed(status) => Err(EncodeError { status }),
        }
    }

    /// The state that a number from 0 to 3 stands for; an error for any
    /// other number.
    pub fn from_u8(v: u8) -> (r: Result<ChildState, DecodeError>)
        ensures
            plain_state(v) matches Some(s) ==> r == Ok::<ChildState, DecodeError>(s),
            plain_state(v) is None ==> r == Err::<ChildState, DecodeError>(
                DecodeError { value: v as isize },
            ),
    {
        match v {
            0 => Ok(ChildState::Initial),
            1 => Ok(ChildState::Created),
            2 => Ok(ChildState::Started),
            3 => Ok(ChildState::Stopped),
            _ => Err(DecodeError { value: v as isize }),
        }
    }

    /// Whether a crash status survives the encoding.
    pub fn status_fits(status: isize) -> (r: bool)
        ensures
            r == status_fits(status),
    {
        (status << 4usize) >> 4usize == status
    }
}

impl From<ChildState> for isize {
    fn from(value: ChildState) -> (r: isize) {
        value.encode()
    }
}

impl vstd::std_specs::convert::FromSpecImpl<ChildState> for isize {
    open spec fn obeys_from_spec() -> bool {
        true
    }

    open spec fn from_spec(v: ChildState) -> isize {
        encoding(v)
    }
}

impl TryFrom<isize> for ChildState {
    type Error = DecodeError;

    fn try_from(value: isize) -> (r: Result<ChildState, DecodeError>) {
        ChildState::decode(value)
    }
}

impl vstd::std_specs::convert::TryFromSpecImpl<isize> for ChildState {
    open spec fn obeys_try_from_spec() -> bool {
        true
    }

    open spec fn try_from_spec(v: isize) -> Result<ChildState, DecodeError> {
        match decoding(v) {
            Some(s) => Ok(s),
            None => Err(DecodeError { value: v }),
        }
    }
}

impl TryFrom<u8> for ChildState {
    type Error = DecodeError;

    fn try_from(value: u8) -> (r: Result<ChildState, DecodeError>) {
        ChildState::from_u8(value)
    }
}

impl vstd::std_specs::convert::TryFromSpecImpl<u8> for ChildState {
    open spec fn obeys_try_from_spec() -> bool {
        true
    }

    open spec fn try_from_spec(v: u8) -> Result<ChildState, DecodeError> {
        match plain_state(v) {
            Some(s) => Ok(s),
            None => Err(DecodeError { value: v as isize }),
        }
    }
}

impl TryFrom<ChildState> for u8 {
    type Error = EncodeError;

    fn try_from(value: ChildState) -> (r: Result<u8, EncodeError>) {
        value.to_u8()
    }
}

impl vstd::std_specs::convert::TryFromSpecImpl<ChildState> for u8 {
    open spec fn obeys_try_from_spec() -> bool {
        true
    }

    open spec fn try_from_spec(v: ChildState) -> Result<u8, EncodeError> {
        match v {
            ChildState::Crashed(status) => Err(EncodeError { status }),
            _ => Ok(tag(v) as u8),
        }
    }
}

/// Decoding undoes encoding, for every state that the word can hold,
/// crash statuses below zero included.
pub proof fn lemma_round_trip(s: ChildState)
    requires
        representable(s),
    ensures
        decoding(encoding(s)) == Some(s),
{
    if let ChildState::Crashed(status) = s {
        assert(((status << 4usize) | 4) & 15 == 4) by (bit_vector);
        assert(((status << 4usize) | 4) >> 4usize == status) by (bit_vector)
            requires
                (status << 4usize) >> 4usize == status,
        ;
    } else {
        assert(0isize & 15 == 0 && 1isize & 15 == 1 && 2isize & 15 == 2 && 3isize & 15 == 3)
            by (bit_vector);
    }
}

/// Every integer whose low four bits hold a tag from 5 to 15 decodes to no
/// state.
pub proof fn lemma_invalid_tag(v: isize)
    requires
        5 <= v & 15,
    ensures
        decoding(v) is None,
{
}

/// A crash status that fits is stored as sixteen times the status plus four.
pub proof fn lemma_crash_encoding_value(status: isize)
    requires
        status_fits(status),
    ensures
        encoding(ChildState::Crashed(status)) as int == 16 * status + 4,
{
    assert(((status << 4usize) | 4) == status * 16 + 4) by (bit_vector)
        requires
            (status << 4usize) >> 4usize == status,
    ;
}

} // verus!
