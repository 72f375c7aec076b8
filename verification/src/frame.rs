//! CAN identifiers and classic frames of up to eight data bytes.

use crate::hal::{CanError, CanFrame};
use embedded_can::{ExtendedId, StandardId};
use vstd::array::array_as_slice;
use vstd::prelude::*;
use vstd::slice::slice_subrange;

verus! {

/// Highest standard (11-bit) identifier.
pub const STANDARD_ID_MAX: u16 = 0x7FF;

/// Highest extended (29-bit) identifier.
pub const EXTENDED_ID_MAX: u32 = 0x1FFF_FFFF;

/// Most data bytes in a classic frame.
pub const MAX_DATA_LENGTH: usize = 8;

/// Bit of a mailbox identifier word that marks an extended identifier.
pub const MAILBOX_EXTENDED: u32 = 0x4000_0000;

/// Asks `embedded_can::StandardId::new` whether `raw` is a standard
/// identifier. That function accepts the numbers up to `0x7FF` and hands each
/// back unchanged through `as_raw`.
#[verifier::external_body]
fn checked_standard_id(raw: u16) -> (checked: Option<u16>)
    ensures
        checked == if raw <= STANDARD_ID_MAX {
            Some(raw)
        } else {
            None::<u16>
        },
{
    match StandardId::new(raw) {
        Some(id) => Some(id.as_raw()),
        None => None,
    }
}

/// Asks `embedded_can::ExtendedId::new` whether `raw` is an extended
/// identifier. That function accepts the numbers up to `0x1FFF_FFFF` and hands
/// each back unchanged through `as_raw`.
#[verifier::external_body]
fn checked_extended_id(raw: u32) -> (checked: Option<u32>)
    ensures
        checked == if raw <= EXTENDED_ID_MAX {
            Some(raw)
        } else {
            None::<u32>
        },
{
    match ExtendedId::new(raw) {
        Some(id) => Some(id.as_raw()),
        None => None,
    }
}

/// A CAN identifier, standard or extended, as a number.
#[derive(Debug, Clone, Copy, PartialEq, Eq, Structural)]
pub enum FrameId {
    Standard(u16),
    Extended(u32),
}

impl FrameId {
    /// Whether the number fits the kind of identifier.
    pub open spec fn in_range(self) -> bool {
        match self {
            FrameId::Standard(raw) => raw <= STANDARD_ID_MAX,
            FrameId::Extended(raw) => raw <= EXTENDED_ID_MAX,
        }
    }

    /// The identifier as a number.
    pub open spec fn raw(self) -> u32 {
        match self {
            FrameId::Standard(raw) => raw as u32,
            FrameId::Extended(raw) => raw,
        }
    }

    /// The identifier that a mailbox identifier word holds: with the extended
    /// bit set its low 29 bits, else its low 11 bits.
    pub open spec fn of_mailbox(word: u32) -> FrameId {
        if word & MAILBOX_EXTENDED != 0 {
            FrameId::Extended(word & EXTENDED_ID_MAX)
        } else {
            FrameId::Standard((word & 0x7FF) as u16)
        }
    }

    /// The mailbox identifier word that sends this identifier: the identifier
    /// as a number, whatever its kind.
    pub open spec fn mailbox_word(self) -> u32 {
        self.raw()
    }

    /// What a receiver makes of the mailbox identifier word that sends this
    /// identifier: its low 11 bits as a standard identifier.
    pub open spec fn as_received(self) -> FrameId {
        FrameId::Standard((self.raw() & 0x7FF) as u16)
    }

    /// The standard identifier `raw`, if there is one.
    pub fn standard(raw: u16) -> (id: Option<FrameId>)
        ensures
            id == if raw <= STANDARD_ID_MAX {
                Some(FrameId::Standard(raw))
            } else {
                None::<FrameId>
            },
    {
        match checked_standard_id(raw) {
            Some(raw) => Some(FrameId::Standard(raw)),
            None => None,
        }
    }

    /// The extended identifier `raw`, if there is one.
    pub fn extended(raw: u32) -> (id: Option<FrameId>)
        ensures
            id == if raw <= EXTENDED_ID_MAX {
                Some(FrameId::Extended(raw))
            } else {
                None::<FrameId>
            },
    {
        match checked_extended_id(raw) {
            Some(raw) => Some(FrameId::Extended(raw)),
            None => None,
        }
    }

    /// Tells whether the number fits the kind of identifier.
    pub fn is_valid(&self) -> (valid: bool)
        ensures
            valid == self.in_range(),
    {
        match self {
            FrameId::Standard(raw) => checked_standard_id(*raw).is_some(),
            FrameId::Extended(raw) => checked_extended_id(*raw).is_some(),
        }
    }

    /// Tells whether this is an extended identifier.
    pub fn is_extended(&self) -> (extended: bool)
        ensures
            extended == (*self is Extended),
    {
        match self {
            FrameId::Standard(_) => false,
            FrameId::Extended(_) => true,
        }
    }

    /// The identifier as a number.
    pub fn as_raw(&self) -> (raw: u32)
        ensures
            raw == self.raw(),
    {
        match self {
            FrameId::Standard(raw) => *raw as u32,
            FrameId::Extended(raw) => *raw,
        }
    }

    /// The identifier that a mailbox identifier word holds.
    pub fn from_mailbox(word: u32) -> (id: FrameId)
        ensures
            id.in_range(),
            id == FrameId::of_mailbox(word),
    {
        if word & MAILBOX_EXTENDED != 0 {
            let raw: u32 = word & EXTENDED_ID_MAX;
            assert(word & 0x1FFF_FFFF <= 0x1FFF_FFFF) by (bit_vector);
            match FrameId::extended(raw) {
                Some(id) => id,
                None => FrameId::Extended(0),
            }
        } else {
            assert(word & 0x7FF <= 0x7FF) by (bit_vector);
            let raw: u16 = (word & 0x7FF) as u16;
            match FrameId::standard(raw) {
                Some(id) => id,
                None => FrameId::Standard(0),
            }
        }
    }

    /// The mailbox identifier word that sends this identifier.
    pub fn to_mailbox(&self) -> (word: u32)
        ensures
            word == self.mailbox_word(),
    {
        self.as_raw()
    }

    /// A standard identifier that went into a mailbox word comes out of it
    /// unchanged. An extended one is sent without a mark of its kind, so it
    /// comes out as the standard identifier of its low 11 bits.
    pub proof fn lemma_mailbox_round_trip(self)
        requires
            self.in_range(),
        ensures
            FrameId::of_mailbox(self.mailbox_word()) == self.as_received(),
            self is Standard ==> self.as_received() == self,
    {
        let word = self.raw();
        assert(word <= 0x1FFF_FFFF ==> word & 0x4000_0000 == 0) by (bit_vector);
        match self {
            FrameId::Standard(raw) => {
                let wide = raw as u32;
                assert(wide <= 0x7FF ==> wide & 0x7FF == wide) by (bit_vector);
            },
            FrameId::Extended(raw) => {},
        }
    }
}

/// A classic frame: an identifier and up to eight data bytes, or a request for
/// that many.
#[derive(Debug, Clone, Copy, PartialEq, Eq)]
pub struct S32K118Frame {
    id: FrameId,
    data: [u8; 8],
    dlc: usize,
    remote: bool,
}

impl S32K118Frame {
    #[verifier::type_invariant]
    spec fn well_formed(self) -> bool {
        &&& self.id.in_range()
        &&& self.dlc <= MAX_DATA_LENGTH
        &&& forall|i: int| self.dlc <= i < 8 ==> self.data@[i] == 0
        &&& self.remote ==> forall|i: int| 0 <= i < 8 ==> self.data@[i] == 0
    }

    /// The identifier.
    pub closed spec fn identifier(&self) -> FrameId {
        self.id
    }

    /// The data bytes, as many as the data length code says. Those of a remote
    /// frame are zero.
    pub closed spec fn payload(&self) -> Seq<u8> {
        self.data@.take(self.dlc as int)
    }

    /// The data length code.
    pub closed spec fn length_code(&self) -> nat {
        self.dlc as nat
    }

    /// Whether the frame asks for data instead of carrying it.
    pub closed spec fn remote(&self) -> bool {
        self.remote
    }

    /// A data frame. There is none for more than eight bytes or for an
    /// identifier that is out of range.
    pub fn new(id: FrameId, data: &[u8]) -> (frame: Option<Self>)
        ensures
            frame is Some <==> id.in_range() && data@.len() <= MAX_DATA_LENGTH,
            frame matches Some(f) ==> f.identifier() == id && f.payload() == data@
                && f.length_code() == data@.len() && !f.remote(),
    {
        if data.len() > MAX_DATA_LENGTH || !id.is_valid() {
            return None;
        }
        let mut frame_data: [u8; 8] = [0u8; 8];
        let mut i: usize = 0;
        while i < data.len()
            invariant
                i <= data@.len() <= 8,
                forall|j: int| 0 <= j < i ==> frame_data@[j] == data@[j],
                forall|j: int| i <= j < 8 ==> frame_data@[j] == 0,
            decreases data@.len() - i,
        {
            frame_data[i] = data[i];
            i += 1;
        }
        let frame = Self { id, data: frame_data, dlc: data.len(), remote: false };
        assert(frame.payload() =~= data@);
        Some(frame)
    }

    /// A remote frame that asks for `dlc` bytes. There is none for more than
    /// eight bytes or for an identifier that is out of range.
    pub fn new_remote(id: FrameId, dlc: usize) -> (frame: Option<Self>)
        ensures
            frame is Some <==> id.in_range() && dlc <= MAX_DATA_LENGTH,
            frame matches Some(f) ==> f.identifier() == id && f.payload() == Seq::new(
                dlc as nat,
                |i: int| 0u8,
            ) && f.length_code() == dlc && f.remote(),
    {
        if dlc > MAX_DATA_LENGTH || !id.is_valid() {
            return None;
        }
        let frame = Self { id, data: [0u8; 8], dlc, remote: true };
        assert(frame.payload() =~= Seq::new(dlc as nat, |i: int| 0u8));
        Some(frame)
    }

    /// The classic frame that carries what `frame` carries. There is none for
    /// an identifier above `EXTENDED_ID_MAX` (`InvalidId`) or for more than
    /// eight bytes (`InvalidLength`). An identifier up to `STANDARD_ID_MAX` is
    /// taken as a standard one.
    pub fn from_can_frame(frame: &CanFrame) -> (r: Result<Self, CanError>)
        ensures
            frame.id > EXTENDED_ID_MAX ==> r == Err::<Self, CanError>(CanError::InvalidId),
            frame.id <= EXTENDED_ID_MAX && frame.data@.len() > MAX_DATA_LENGTH ==> r == Err::<
                Self,
                CanError,
            >(CanError::InvalidLength),
            frame.id <= EXTENDED_ID_MAX && frame.data@.len() <= MAX_DATA_LENGTH ==> (r matches Ok(
                f,
            ) && f.identifier() == (if frame.id <= STANDARD_ID_MAX {
                FrameId::Standard(frame.id as u16)
            } else {
                FrameId::Extended(frame.id)
            }) && f.payload() == frame.data@ && !f.remote()),
    {
        let id = if frame.id <= STANDARD_ID_MAX as u32 {
            FrameId::Standard(frame.id as u16)
        } else {
            FrameId::Extended(frame.id)
        };
        if !id.is_valid() {
            return Err(CanError::InvalidId);
        }
        match S32K118Frame::new(id, frame.data.as_slice()) {
            Some(classic) => Ok(classic),
            None => Err(CanError::InvalidLength),
        }
    }

    /// Tells whether the frame asks for data instead of carrying it.
    pub fn is_remote_frame(&self) -> (remote: bool)
        ensures
            remote == self.remote(),
    {
        self.remote
    }

    /// Tells whether the identifier is an extended one.
    pub fn is_extended(&self) -> (extended: bool)
        ensures
            extended == (self.identifier() is Extended),
    {
        self.id.is_extended()
    }

    /// The identifier.
    pub fn id(&self) -> (id: FrameId)
        ensures
            id == self.identifier(),
            id.in_range(),
    {
        proof {
            use_type_invariant(self);
        }
        self.id
    }

    /// The data length code.
    pub fn dlc(&self) -> (dlc: usize)
        ensures
            dlc == self.length_code(),
            dlc <= MAX_DATA_LENGTH,
    {
        proof {
            use_type_invariant(self);
        }
        self.dlc
    }

    /// The data bytes, as many as the data length code says. Those of a remote
    /// frame are zero.
    pub fn data(&self) -> (data: &[u8])
        ensures
            data@ == self.payload(),
            data@.len() == self.length_code(),
            data@.len() <= MAX_DATA_LENGTH,
    {
        proof {
            use_type_invariant(self);
        }
        slice_subrange(array_as_slice(&self.data), 0, self.dlc)
    }

    /// The frame as the protocol takes it: the identifier as a number, and the
    /// data bytes.
    pub fn to_can_frame(&self) -> (frame: CanFrame)
        ensures
            frame@ == (self.identifier().raw(), self.payload()),
    {
        let bytes = self.data();
        let mut data: Vec<u8> = Vec::new();
        let mut i: usize = 0;
        while i < bytes.len()
            invariant
                i <= bytes@.len(),
                data@ == bytes@.take(i as int),
            decreases bytes@.len() - i,
        {
            data.push(bytes[i]);
            assert(bytes@.take(i + 1) == bytes@.take(i as int).push(bytes@[i as int]));
            i += 1;
        }
        assert(bytes@.take(i as int) == bytes@);
        CanFrame { id: self.id.as_raw(), data }
    }
}

} // verus!
