//! What the registers of the CAN controller hold: the status flags, and the
//! layout of a message buffer.

use crate::frame::{FrameId, S32K118Frame};
use crate::hal::{CanError, CanFrame};
use crate::utils::{bytes_to_u32, le_bytes, le_value, lemma_le_bytes_of_le_value, u32_to_bytes};
use vstd::array::array_as_slice;
use vstd::prelude::*;
use vstd::slice::slice_subrange;

verus! {

/// Status flag: loss of arbitration.
pub const STAT1_LACK: u32 = 0x0000_0001;

/// Status flag: wake-up after loss of arbitration, pending.
pub const STAT1_LACK_INT: u32 = 0x0000_0002;

/// Status flag: transmit warning, pending.
pub const STAT1_TWRN_INT: u32 = 0x0000_0004;

/// Status flag: receive warning, pending.
pub const STAT1_RWRN_INT: u32 = 0x0000_0008;

/// Status flag: bus off, pending.
pub const STAT1_BOFF_INT: u32 = 0x0000_0010;

/// Status flag: error, pending.
pub const STAT1_ERR_INT: u32 = 0x0000_0020;

/// Status flag: synchronised with the bus.
pub const STAT1_SYNC_OK: u32 = 0x0000_0040;

/// Status flag: error in the data phase of a fast frame.
pub const STAT1_ERR_FAST: u32 = 0x0000_0080;

/// Status flag: error passive.
pub const STAT1_ERR_PASSIVE: u32 = 0x0000_0100;

/// Status flag: taking part in bus traffic.
pub const STAT1_CAN_ACTIVE: u32 = 0x0000_0200;

/// Status flag: code of the last error.
pub const STAT1_LAST_ERROR_CODE: u32 = 0x0000_1C00;

/// Status flag: fault confinement state.
pub const STAT1_FLT_CONF: u32 = 0x0000_2000;

/// Status flag: transmitting.
pub const STAT1_TX: u32 = 0x0000_4000;

/// Status flag: receiving.
pub const STAT1_RX: u32 = 0x0000_8000;

/// Status flag: bus idle.
pub const STAT1_IDLE: u32 = 0x0001_0000;

/// Status flag: acknowledgment error.
pub const STAT1_AERR: u32 = 0x0002_0000;

/// Status flag: bit error.
pub const STAT1_BERR: u32 = 0x0004_0000;

/// Status flag: stuffing error.
pub const STAT1_STER: u32 = 0x0008_0000;

/// Status flag: form error.
pub const STAT1_FERR: u32 = 0x0010_0000;

/// Status flag: checksum error.
pub const STAT1_CERR: u32 = 0x0020_0000;

/// Every bit of the status register that is a flag.
pub const STAT1_ALL: u32 = 0x003F_FFFF;

/// The bits of a control word that hold the code of the buffer.
pub const MAILBOX_CODE_MASK: u32 = 0x0000_000F;

/// Code of a buffer that is free.
pub const MAILBOX_CODE_INACTIVE: u32 = 0x0000_0000;

/// Code of a buffer that holds a received frame.
pub const MAILBOX_CODE_RX_FULL: u32 = 0x0000_0004;

/// Code of a buffer that is to send its frame.
pub const MAILBOX_CODE_TRANSMIT: u32 = 0x0000_000F;

/// A value of the status register.
#[derive(Debug, Clone, Copy, PartialEq, Eq, Structural)]
pub struct Stat1 {
    bits: u32,
}

impl Stat1 {
    /// The flags as one number.
    pub closed spec fn value(self) -> u32 {
        self.bits
    }

    /// Whether every bit of `flags` is set.
    pub open spec fn has(self, flags: u32) -> bool {
        self.value() & flags == flags
    }

    /// The flags among `bits`; bits that are no flag are dropped.
    pub fn from_bits_truncate(bits: u32) -> (status: Self)
        ensures
            status.value() == bits & STAT1_ALL,
    {
        Self { bits: bits & STAT1_ALL }
    }

    /// The flags as one number.
    pub fn bits(&self) -> (bits: u32)
        ensures
            bits == self.value(),
    {
        self.bits
    }

    /// Tells whether every bit of `flags` is set.
    pub fn contains(&self, flags: u32) -> (set: bool)
        ensures
            set == self.has(flags),
    {
        self.bits & flags == flags
    }
}

/// The failure that a status value stands for: the first of bit error, stuff
/// error, form error, acknowledgment error, bus off, wake-up, transmit and
/// receive whose flag is set, and `Unknown` where none is.
pub open spec fn status_error(status: Stat1) -> CanError {
    if status.has(STAT1_BERR) {
        CanError::BitError
    } else if status.has(STAT1_STER) {
        CanError::StuffError
    } else if status.has(STAT1_FERR) {
        CanError::FormError
    } else if status.has(STAT1_AERR) {
        CanError::AcknowledgmentError
    } else if status.has(STAT1_BOFF_INT) {
        CanError::BusOff
    } else if status.has(STAT1_LACK_INT) {
        CanError::Wakeup
    } else if status.has(STAT1_TX) {
        CanError::TransmitError
    } else if status.has(STAT1_RX) {
        CanError::ReceiveError
    } else {
        CanError::Unknown
    }
}

impl CanError {
    /// The failure that `status` stands for.
    pub fn from_status(status: Stat1) -> (error: Option<Self>)
        ensures
            error == Some(status_error(status)),
    {
        if status.contains(STAT1_BERR) {
            Some(CanError::BitError)
        } else if status.contains(STAT1_STER) {
            Some(CanError::StuffError)
        } else if status.contains(STAT1_FERR) {
            Some(CanError::FormError)
        } else if status.contains(STAT1_AERR) {
            Some(CanError::AcknowledgmentError)
        } else if status.contains(STAT1_BOFF_INT) {
            Some(CanError::BusOff)
        } else if status.contains(STAT1_LACK_INT) {
            Some(CanError::Wakeup)
        } else if status.contains(STAT1_TX) {
            Some(CanError::TransmitError)
        } else if status.contains(STAT1_RX) {
            Some(CanError::ReceiveError)
        } else {
            Some(CanError::Unknown)
        }
    }
}

/// The four words of a message buffer.
#[derive(Debug, Clone, Copy, PartialEq, Eq, Structural)]
pub struct Mailbox {
    /// Code in the low four bits, data length from bit 16.
    pub cs: u32,
    /// Identifier, with `MAILBOX_EXTENDED` set for an extended one.
    pub id: u32,
    /// Data bytes 0 to 3, little-endian.
    pub word0: u32,
    /// Data bytes 4 to 7, little-endian.
    pub word1: u32,
}

/// The data length that a control word holds.
pub open spec fn mailbox_length(cs: u32) -> u32 {
    (cs >> 16) & 0x0F
}

/// The code that a control word holds.
pub open spec fn mailbox_code(cs: u32) -> u32 {
    cs & MAILBOX_CODE_MASK
}

/// The control word of a buffer that is to send `length` bytes.
pub open spec fn transmit_control(length: u32) -> u32 {
    MAILBOX_CODE_TRANSMIT | length << 16
}

/// `data` followed by zeros up to eight bytes.
pub open spec fn padded(data: Seq<u8>) -> Seq<u8> {
    Seq::new(
        8,
        |i: int|
            if i < data.len() {
                data[i]
            } else {
                0u8
            },
    )
}

/// The eight data bytes that the two data words hold.
pub open spec fn mailbox_data(mailbox: Mailbox) -> Seq<u8> {
    le_bytes(mailbox.word0) + le_bytes(mailbox.word1)
}

/// The message buffer that sends the frame with identifier `id` and the bytes
/// `data`: the code and the number of bytes in the control word, the
/// identifier as a number, and the bytes, with zeros after them, in the two
/// data words.
pub open spec fn packed(id: FrameId, data: Seq<u8>) -> Mailbox {
    Mailbox {
        cs: transmit_control(data.len() as u32),
        id: id.mailbox_word(),
        word0: le_value(padded(data).subrange(0, 4)) as u32,
        word1: le_value(padded(data).subrange(4, 8)) as u32,
    }
}

/// Lays out a frame as the message buffer that sends it.
pub fn pack_frame(frame: &S32K118Frame) -> (mailbox: Mailbox)
    ensures
        mailbox == packed(frame.identifier(), frame.payload()),
{
    let data = frame.data();
    let mut bytes: [u8; 8] = [0u8; 8];
    let mut i: usize = 0;
    while i < data.len()
        invariant
            i <= data@.len() <= 8,
            forall|j: int| 0 <= j < i ==> bytes@[j] == data@[j],
            forall|j: int| i <= j < 8 ==> bytes@[j] == 0,
        decreases data@.len() - i,
    {
        bytes[i] = data[i];
        i += 1;
    }
    assert(bytes@ =~= padded(data@));
    let word0 = bytes_to_u32(slice_subrange(array_as_slice(&bytes), 0, 4));
    let word1 = bytes_to_u32(slice_subrange(array_as_slice(&bytes), 4, 8));
    let length: u32 = data.len() as u32;
    Mailbox { cs: MAILBOX_CODE_TRANSMIT | length << 16, id: frame.id().to_mailbox(), word0, word1 }
}

/// Reads the frame that a message buffer has received. `RxFifoEmpty` where
/// the buffer is not full, `InvalidLength` where it claims more than eight
/// bytes.
pub fn unpack_frame(mailbox: &Mailbox) -> (r: Result<S32K118Frame, CanError>)
    ensures
        mailbox_code(mailbox.cs) != MAILBOX_CODE_RX_FULL ==> r == Err::<S32K118Frame, CanError>(
            CanError::RxFifoEmpty,
        ),
        mailbox_code(mailbox.cs) == MAILBOX_CODE_RX_FULL && mailbox_length(mailbox.cs) > 8 ==> r
            == Err::<S32K118Frame, CanError>(CanError::InvalidLength),
        mailbox_code(mailbox.cs) == MAILBOX_CODE_RX_FULL && mailbox_length(mailbox.cs) <= 8 ==> (r
            matches Ok(frame) && frame.identifier() == FrameId::of_mailbox(mailbox.id)
            && frame.payload() == mailbox_data(*mailbox).take(mailbox_length(mailbox.cs) as int)
            && !frame.remote()),
{
    let cs: u32 = mailbox.cs;
    if cs & MAILBOX_CODE_MASK != MAILBOX_CODE_RX_FULL {
        return Err(CanError::RxFifoEmpty);
    }
    let length: u32 = (cs >> 16) & 0x0F;
    assert(length <= 0x0F) by (bit_vector)
        requires
            length == (cs >> 16) & 0x0F,
    ;
    if length > 8 {
        return Err(CanError::InvalidLength);
    }
    let low = u32_to_bytes(mailbox.word0);
    let high = u32_to_bytes(mailbox.word1);
    let data: [u8; 8] = [low[0], low[1], low[2], low[3], high[0], high[1], high[2], high[3]];
    assert(data@ =~= mailbox_data(*mailbox));
    let id = FrameId::from_mailbox(mailbox.id);
    match S32K118Frame::new(id, slice_subrange(array_as_slice(&data), 0, length as usize)) {
        Some(frame) => Ok(frame),
        None => Err(CanError::InvalidId),
    }
}

/// What `pack_frame` lays out, `unpack_frame` reads back once the buffer is
/// marked full: the length, every data byte, and the identifier as far as a
/// receiver can tell it, which is in full for a standard one.
pub proof fn lemma_mailbox_round_trip(id: FrameId, data: Seq<u8>)
    requires
        id.in_range(),
        data.len() <= 8,
    ensures
        FrameId::of_mailbox(packed(id, data).id) == id.as_received(),
        id is Standard ==> id.as_received() == id,
        mailbox_length(packed(id, data).cs) == data.len(),
        mailbox_data(packed(id, data)).take(data.len() as int) == data,
{
    id.lemma_mailbox_round_trip();
    let length = data.len() as u32;
    assert(length <= 8 ==> ((0x0Fu32 | length << 16) >> 16) & 0x0F == length) by (bit_vector);
    let low = padded(data).subrange(0, 4);
    let high = padded(data).subrange(4, 8);
    lemma_le_bytes_of_le_value(low);
    lemma_le_bytes_of_le_value(high);
    assert(mailbox_data(packed(id, data)) =~= padded(data));
    assert(padded(data).take(data.len() as int) =~= data);
}

/// Number of message buffers that the controller has.
pub const MAILBOX_COUNT: usize = 16;

/// Whether buffer `index` is the first among `buffers` whose code is `code`.
pub open spec fn is_first_with(buffers: Seq<Mailbox>, code: u32, index: int) -> bool {
    &&& 0 <= index < buffers.len()
    &&& mailbox_code(buffers[index].cs) == code
    &&& forall|j: int| 0 <= j < index ==> mailbox_code(#[trigger] buffers[j].cs) != code
}

/// Whether no buffer among `buffers` has the code `code`.
pub open spec fn none_with(buffers: Seq<Mailbox>, code: u32) -> bool {
    forall|j: int| 0 <= j < buffers.len() ==> mailbox_code(#[trigger] buffers[j].cs) != code
}

/// Finds the first buffer whose code is `code`.
pub fn find_buffer(buffers: &[Mailbox; 16], code: u32) -> (found: Option<usize>)
    ensures
        match found {
            Some(index) => is_first_with(buffers@, code, index as int),
            None => none_with(buffers@, code),
        },
{
    let mut i: usize = 0;
    while i < MAILBOX_COUNT
        invariant
            i <= MAILBOX_COUNT,
            buffers@.len() == MAILBOX_COUNT,
            forall|j: int| 0 <= j < i ==> mailbox_code(#[trigger] buffers@[j].cs) != code,
        decreases MAILBOX_COUNT - i,
    {
        if buffers[i].cs & MAILBOX_CODE_MASK == code {
            return Some(i);
        }
        i += 1;
    }
    None
}

/// Puts `frame` into the first free buffer and tells which one that is. With
/// the controller not ready to transmit, or with no buffer free, nothing
/// changes and the result is `TransmitError`.
pub fn place_frame(status: Stat1, buffers: &mut [Mailbox; 16], frame: &S32K118Frame) -> (r:
    Result<usize, CanError>)
    ensures
        r is Ok <==> status.has(STAT1_TX) && !none_with(old(buffers)@, MAILBOX_CODE_INACTIVE),
        r matches Ok(index) ==> is_first_with(old(buffers)@, MAILBOX_CODE_INACTIVE, index as int)
            && final(buffers)@ == old(buffers)@.update(
            index as int,
            packed(frame.identifier(), frame.payload()),
        ),
        r matches Err(e) ==> e == CanError::TransmitError && final(buffers)@ == old(buffers)@,
{
    if !status.contains(STAT1_TX) {
        return Err(CanError::TransmitError);
    }
    match find_buffer(buffers, MAILBOX_CODE_INACTIVE) {
        None => Err(CanError::TransmitError),
        Some(index) => {
            buffers[index] = pack_frame(frame);
            Ok(index)
        },
    }
}

/// What taking the frame out of the buffer `taken` gives: the frame that
/// `unpack_frame` reads, and `ReceiveError` where it reads none.
pub open spec fn taken_from(taken: Mailbox, r: Result<(usize, S32K118Frame), CanError>) -> bool {
    if mailbox_length(taken.cs) > 8 {
        r == Err::<(usize, S32K118Frame), CanError>(CanError::ReceiveError)
    } else {
        r matches Ok((_, frame)) && frame.identifier() == FrameId::of_mailbox(taken.id)
            && frame.payload() == mailbox_data(taken).take(mailbox_length(taken.cs) as int)
            && !frame.remote()
    }
}

/// Takes the frame out of the first full buffer, frees that buffer, and tells
/// which one it is. With the controller holding nothing received, or with no
/// buffer full, nothing changes and the result is `ReceiveError`.
pub fn take_frame(status: Stat1, buffers: &mut [Mailbox; 16]) -> (r: Result<
    (usize, S32K118Frame),
    CanError,
>)
    ensures
        !status.has(STAT1_RX) || none_with(old(buffers)@, MAILBOX_CODE_RX_FULL) ==> r == Err::<
            (usize, S32K118Frame),
            CanError,
        >(CanError::ReceiveError) && final(buffers)@ == old(buffers)@,
        status.has(STAT1_RX) && !none_with(old(buffers)@, MAILBOX_CODE_RX_FULL) ==> exists|
            index: int,
        |
            #![trigger is_first_with(old(buffers)@, MAILBOX_CODE_RX_FULL, index)]
            is_first_with(old(buffers)@, MAILBOX_CODE_RX_FULL, index) && final(buffers)@ == old(
                buffers,
            )@.update(
                index,
                (Mailbox { cs: MAILBOX_CODE_INACTIVE, ..old(buffers)@[index] }),
            ) && taken_from(old(buffers)@[index], r) && (r matches Ok((told, _)) ==> told
                == index),
{
    if !status.contains(STAT1_RX) {
        return Err(CanError::ReceiveError);
    }
    match find_buffer(buffers, MAILBOX_CODE_RX_FULL) {
        None => Err(CanError::ReceiveError),
        Some(index) => {
            let taken: Mailbox = buffers[index];
            buffers[index] = Mailbox {
                cs: MAILBOX_CODE_INACTIVE,
                id: taken.id,
                word0: taken.word0,
                word1: taken.word1,
            };
            let r = match unpack_frame(&taken) {
                Ok(frame) => Ok((index, frame)),
                Err(_) => Err(CanError::ReceiveError),
            };
            assert(is_first_with(old(buffers)@, MAILBOX_CODE_RX_FULL, index as int));
            r
        },
    }
}

/// One step of a bounded wait for a frame.
#[derive(Debug, Clone, PartialEq, Eq)]
pub enum Wait {
    /// The frame has arrived.
    Deliver(CanFrame),
    /// The wait is over without a frame.
    Fail(CanError),
    /// Nothing yet: wait another millisecond and look again.
    Again,
}

/// Decides how a wait for a frame goes on after `waited_ms` of `timeout_ms`
/// milliseconds, where the last look gave `taken`. A frame ends the wait. With
/// nothing received the wait goes on until the timeout, and ends in
/// `RxFifoEmpty` then. Any other failure ends it at once.
pub fn receive_step(
    taken: &Result<S32K118Frame, CanError>,
    waited_ms: u32,
    timeout_ms: u32,
) -> (step: Wait)
    ensures
        match *taken {
            Ok(frame) => step matches Wait::Deliver(delivered) && delivered@ == (
                frame.identifier().raw(),
                frame.payload(),
            ),
            Err(CanError::ReceiveError) => step == if waited_ms >= timeout_ms {
                Wait::Fail(CanError::RxFifoEmpty)
            } else {
                Wait::Again
            },
            Err(e) => step == Wait::Fail(e),
        },
{
    match taken {
        Ok(frame) => Wait::Deliver(frame.to_can_frame()),
        Err(CanError::ReceiveError) => {
            if waited_ms >= timeout_ms {
                Wait::Fail(CanError::RxFifoEmpty)
            } else {
                Wait::Again
            }
        },
        Err(e) => Wait::Fail(*e),
    }
}

} // verus!
