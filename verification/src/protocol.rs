//! The command protocol: what a command frame means, which commands the
//! session holds back until programming is enabled, and what each one does to
//! flash.

use crate::hal::{
    behaves_alike, erased, lemma_programming_stored_bytes, programmed, same_outside, CanError,
    CanFrame, EmbeddedCan, HalError, S32KHal,
};
use crate::memory::{MemoryManagementError, MemoryManager};
use crate::utils::{
    bytes_to_u32, le_bytes, le_value, lemma_le_value_bound, lemma_pow256_small, u32_to_bytes,
    xor_checksum, zeroed,
};
use crate::validator::{checksum_refusal, FirmwareValidator};
use vstd::prelude::*;
use vstd::slice::slice_subrange;

verus! {

/// Identifier of the frames that carry commands to the bootloader.
pub const COMMAND_ID: u32 = 0x7E0;

/// Identifier of the frames that carry the bootloader's responses.
pub const RESPONSE_ID: u32 = 0x7E8;

/// First of the three bytes that answer `GetProtocolVersion`.
pub const PROTOCOL_VERSION_MAJOR: u8 = 1;

/// Second of the three bytes that answer `GetProtocolVersion`.
pub const PROTOCOL_VERSION_MINOR: u8 = 0;

/// Third of the three bytes that answer `GetProtocolVersion`.
pub const PROTOCOL_VERSION_PATCH: u8 = 0;

/// Most bytes that one `ReadData` returns.
pub const READ_BUFFER_SIZE: u32 = 8;

/// Most bytes that one response frame carries.
pub const MAX_RESPONSE_SIZE: usize = 8;

/// How long `receive_command` waits unless told otherwise, in milliseconds.
pub const DEFAULT_TIMEOUT_MS: u32 = 1000;

/// Bytes that hold the address and the length of a range-addressed command.
pub const RANGE_SIZE: usize = 8;

/// First byte of a response that acknowledges a command.
pub const STATUS_OK: u8 = 0x00;

/// First byte of a response that refuses a command.
pub const STATUS_REFUSED: u8 = 0xFF;

/// Why a command was not carried out, or not answered.
#[derive(Debug, Clone, PartialEq, Eq)]
pub enum ProtocolError {
    InvalidCommand,
    InvalidLength,
    ProgrammingNotEnabled,
    VerificationFailed,
    CommunicationError,
    Timeout,
    MemoryError(MemoryManagementError),
}

impl ProtocolError {
    /// The byte that names this error in a refusal.
    pub open spec fn code(self) -> u8 {
        match self {
            ProtocolError::InvalidCommand => 0x01,
            ProtocolError::InvalidLength => 0x02,
            ProtocolError::ProgrammingNotEnabled => 0x03,
            ProtocolError::VerificationFailed => 0x04,
            ProtocolError::CommunicationError => 0x05,
            ProtocolError::Timeout => 0x06,
            ProtocolError::MemoryError(MemoryManagementError::InvalidRegion) => 0x10,
            ProtocolError::MemoryError(MemoryManagementError::RegionOverlap) => 0x11,
            ProtocolError::MemoryError(MemoryManagementError::RegionNotAligned) => 0x12,
            ProtocolError::MemoryError(MemoryManagementError::Hardware(_)) => 0x13,
            ProtocolError::MemoryError(MemoryManagementError::ProtectedRegionAccess) => 0x14,
        }
    }

    /// The payload of the frame that refuses a command with this error.
    pub open spec fn encoding(self) -> Seq<u8> {
        seq![STATUS_REFUSED, self.code()]
    }

    /// Whether this error passes on a failure that the hardware reported.
    pub open spec fn reports_hardware(self) -> bool {
        self matches ProtocolError::MemoryError(e) && e.reports_hardware()
    }

    /// The text of the message that describes this error.
    pub open spec fn message_text(self) -> Seq<char> {
        match self {
            ProtocolError::InvalidCommand => "Invalid command"@,
            ProtocolError::InvalidLength => "Invalid data length"@,
            ProtocolError::ProgrammingNotEnabled => "Programming not enabled"@,
            ProtocolError::VerificationFailed => "Verification failed"@,
            ProtocolError::CommunicationError => "CAN communication error"@,
            ProtocolError::Timeout => "Protocol timeout"@,
            ProtocolError::MemoryError(e) => e.message_text(),
        }
    }

    /// Describes this error in words.
    pub fn message(&self) -> (text: String)
        ensures
            text@ == self.message_text(),
    {
        match self {
            ProtocolError::InvalidCommand => "Invalid command".to_owned(),
            ProtocolError::InvalidLength => "Invalid data length".to_owned(),
            ProtocolError::ProgrammingNotEnabled => "Programming not enabled".to_owned(),
            ProtocolError::VerificationFailed => "Verification failed".to_owned(),
            ProtocolError::CommunicationError => "CAN communication error".to_owned(),
            ProtocolError::Timeout => "Protocol timeout".to_owned(),
            ProtocolError::MemoryError(e) => e.message(),
        }
    }

    /// Builds the payload of the frame that refuses a command with this error.
    pub fn encode(&self) -> (bytes: Vec<u8>)
        ensures
            bytes@ == self.encoding(),
    {
        let code: u8 = match self {
            ProtocolError::InvalidCommand => 0x01,
            ProtocolError::InvalidLength => 0x02,
            ProtocolError::ProgrammingNotEnabled => 0x03,
            ProtocolError::VerificationFailed => 0x04,
            ProtocolError::CommunicationError => 0x05,
            ProtocolError::Timeout => 0x06,
            ProtocolError::MemoryError(MemoryManagementError::InvalidRegion) => 0x10,
            ProtocolError::MemoryError(MemoryManagementError::RegionOverlap) => 0x11,
            ProtocolError::MemoryError(MemoryManagementError::RegionNotAligned) => 0x12,
            ProtocolError::MemoryError(MemoryManagementError::Hardware(_)) => 0x13,
            ProtocolError::MemoryError(MemoryManagementError::ProtectedRegionAccess) => 0x14,
        };
        let mut bytes: Vec<u8> = Vec::new();
        bytes.push(STATUS_REFUSED);
        bytes.push(code);
        assert(bytes@ =~= self.encoding());
        bytes
    }
}

/// The operations that a host can ask for.
#[derive(Debug, Clone, Copy, PartialEq, Eq, Structural)]
pub enum Command {
    GetProtocolVersion,
    SetProgrammingEnabled,
    GetProgrammingEnabled,
    EraseMemory,
    WriteData,
    ReadData,
    GetChecksum,
    Reboot,
}

impl Command {
    /// The byte that names this command on the wire.
    pub open spec fn code(self) -> u8 {
        match self {
            Command::GetProtocolVersion => 0x01,
            Command::SetProgrammingEnabled => 0x02,
            Command::GetProgrammingEnabled => 0x03,
            Command::EraseMemory => 0x04,
            Command::WriteData => 0x05,
            Command::ReadData => 0x06,
            Command::GetChecksum => 0x07,
            Command::Reboot => 0x08,
        }
    }

    /// The command that `code` names, if it names one.
    pub open spec fn named_by(code: u8) -> Option<Command> {
        if code == 0x01 {
            Some(Command::GetProtocolVersion)
        } else if code == 0x02 {
            Some(Command::SetProgrammingEnabled)
        } else if code == 0x03 {
            Some(Command::GetProgrammingEnabled)
        } else if code == 0x04 {
            Some(Command::EraseMemory)
        } else if code == 0x05 {
            Some(Command::WriteData)
        } else if code == 0x06 {
            Some(Command::ReadData)
        } else if code == 0x07 {
            Some(Command::GetChecksum)
        } else if code == 0x08 {
            Some(Command::Reboot)
        } else {
            None
        }
    }

    /// Whether this command is served only while programming is enabled.
    pub open spec fn needs_programming(self) -> bool {
        self == Command::EraseMemory || self == Command::WriteData || self == Command::ReadData
            || self == Command::GetChecksum
    }

    /// The command that `code` names; `InvalidCommand` where it names none.
    pub fn from_code(code: u8) -> (r: Result<Command, ProtocolError>)
        ensures
            r == match Command::named_by(code) {
                Some(command) => Ok::<Command, ProtocolError>(command),
                None => Err::<Command, ProtocolError>(ProtocolError::InvalidCommand),
            },
    {
        match code {
            0x01 => Ok(Command::GetProtocolVersion),
            0x02 => Ok(Command::SetProgrammingEnabled),
            0x03 => Ok(Command::GetProgrammingEnabled),
            0x04 => Ok(Command::EraseMemory),
            0x05 => Ok(Command::WriteData),
            0x06 => Ok(Command::ReadData),
            0x07 => Ok(Command::GetChecksum),
            0x08 => Ok(Command::Reboot),
            _ => Err(ProtocolError::InvalidCommand),
        }
    }

    /// The byte that names this command on the wire.
    pub fn to_code(&self) -> (code: u8)
        ensures
            code == self.code(),
    {
        match self {
            Command::GetProtocolVersion => 0x01,
            Command::SetProgrammingEnabled => 0x02,
            Command::GetProgrammingEnabled => 0x03,
            Command::EraseMemory => 0x04,
            Command::WriteData => 0x05,
            Command::ReadData => 0x06,
            Command::GetChecksum => 0x07,
            Command::Reboot => 0x08,
        }
    }

    /// Tells whether this command is served only while programming is enabled.
    pub fn requires_programming(&self) -> (needed: bool)
        ensures
            needed == self.needs_programming(),
    {
        match self {
            Command::EraseMemory | Command::WriteData | Command::ReadData
            | Command::GetChecksum => true,
            _ => false,
        }
    }

    /// Every command is the one that its own code names.
    pub proof fn lemma_code_names_command(self)
        ensures
            Command::named_by(self.code()) == Some(self),
    {
    }
}

/// What a command that was carried out sends back.
#[derive(Debug, Clone, PartialEq, Eq)]
pub enum Response {
    Version,
    Acknowledged,
    ProgrammingEnabled(bool),
    Data(Vec<u8>),
    Checksum(u32),
}

impl Response {
    /// The payload of the frame that carries this response.
    pub open spec fn encoding(self) -> Seq<u8> {
        match self {
            Response::Version => seq![
                PROTOCOL_VERSION_MAJOR,
                PROTOCOL_VERSION_MINOR,
                PROTOCOL_VERSION_PATCH,
            ],
            Response::Acknowledged => seq![STATUS_OK],
            Response::ProgrammingEnabled(enabled) => seq![
                if enabled {
                    1u8
                } else {
                    0u8
                },
            ],
            Response::Data(data) => data@,
            Response::Checksum(checksum) => le_bytes(checksum),
        }
    }

    /// Builds the payload of the frame that carries this response.
    pub fn encode(&self) -> (bytes: Vec<u8>)
        ensures
            bytes@ == self.encoding(),
    {
        let mut bytes: Vec<u8> = Vec::new();
        match self {
            Response::Version => {
                bytes.push(PROTOCOL_VERSION_MAJOR);
                bytes.push(PROTOCOL_VERSION_MINOR);
                bytes.push(PROTOCOL_VERSION_PATCH);
            },
            Response::Acknowledged => {
                bytes.push(STATUS_OK);
            },
            Response::ProgrammingEnabled(enabled) => {
                bytes.push(
                    if *enabled {
                        1
                    } else {
                        0
                    },
                );
            },
            Response::Data(data) => {
                let mut i: usize = 0;
                while i < data.len()
                    invariant
                        i <= data@.len(),
                        bytes@ == data@.take(i as int),
                    decreases data@.len() - i,
                {
                    bytes.push(data[i]);
                    assert(data@.take(i + 1) == data@.take(i as int).push(data@[i as int]));
                    i += 1;
                }
                assert(data@.take(i as int) == data@);
            },
            Response::Checksum(checksum) => {
                let word = u32_to_bytes(*checksum);
                bytes.push(word[0]);
                bytes.push(word[1]);
                bytes.push(word[2]);
                bytes.push(word[3]);
            },
        }
        assert(bytes@ =~= self.encoding());
        bytes
    }
}

/// The address that a range-addressed payload starts with.
pub open spec fn range_address(payload: Seq<u8>) -> u32 {
    le_value(payload.subrange(0, 4)) as u32
}

/// The length that follows the address in a range-addressed payload.
pub open spec fn range_length(payload: Seq<u8>) -> u32 {
    le_value(payload.subrange(4, 8)) as u32
}

/// Reads the address and the length that a range-addressed payload starts
/// with; `InvalidLength` where it is shorter than `RANGE_SIZE`.
pub fn parse_range(payload: &[u8]) -> (r: Result<(u32, u32), ProtocolError>)
    ensures
        r == if payload@.len() < RANGE_SIZE {
            Err::<(u32, u32), ProtocolError>(ProtocolError::InvalidLength)
        } else {
            Ok::<(u32, u32), ProtocolError>((range_address(payload@), range_length(payload@)))
        },
{
    if payload.len() < RANGE_SIZE {
        return Err(ProtocolError::InvalidLength);
    }
    let address = bytes_to_u32(slice_subrange(payload, 0, 4));
    let length = bytes_to_u32(slice_subrange(payload, 4, 8));
    proof {
        lemma_pow256_small();
        lemma_le_value_bound(payload@.subrange(0, 4));
        lemma_le_value_bound(payload@.subrange(4, 8));
    }
    Ok((address, length))
}

/// What a frame asks for: the command that its first byte names. A frame for
/// another identifier is no command (`Timeout`), an empty one is too short
/// (`InvalidLength`), and an unknown first byte is `InvalidCommand`.
pub open spec fn frame_command(id: u32, data: Seq<u8>) -> Result<Command, ProtocolError> {
    if id != COMMAND_ID {
        Err(ProtocolError::Timeout)
    } else if data.len() == 0 {
        Err(ProtocolError::InvalidLength)
    } else {
        match Command::named_by(data[0]) {
            Some(command) => Ok(command),
            None => Err(ProtocolError::InvalidCommand),
        }
    }
}

/// Decides what `frame` asks for.
pub fn decode_frame(frame: &CanFrame) -> (r: Result<Command, ProtocolError>)
    ensures
        r == frame_command(frame.id, frame.data@),
{
    if frame.id != COMMAND_ID {
        return Err(ProtocolError::Timeout);
    }
    if frame.data.len() == 0 {
        return Err(ProtocolError::InvalidLength);
    }
    Command::from_code(frame.data[0])
}

/// Tells whether two byte strings are the same.
pub fn same_bytes(left: &[u8], right: &[u8]) -> (same: bool)
    ensures
        same == (left@ == right@),
{
    if left.len() != right.len() {
        return false;
    }
    let mut i: usize = 0;
    while i < left.len()
        invariant
            left@.len() == right@.len(),
            i <= left@.len(),
            forall|j: int| 0 <= j < i ==> left@[j] == right@[j],
        decreases left@.len() - i,
    {
        if left[i] != right[i] {
            return false;
        }
        i += 1;
    }
    assert(left@ =~= right@);
    true
}

/// Whether `r` hands on what the device reported: a response where `failure`
/// names no failure, and otherwise the memory error that passes that failure
/// on.
pub open spec fn passes_on(failure: Option<HalError>, r: Result<Response, ProtocolError>) -> bool {
    match failure {
        None => r is Ok,
        Some(e) => r is Err && r->Err_0 is MemoryError && r->Err_0->MemoryError_0.reports(e),
    }
}

/// What `EraseMemory` with `payload` may leave behind: the memory manager
/// `before` and `after` it, and the result `r`.
pub open spec fn erase_outcome<H: S32KHal>(
    before: MemoryManager<H>,
    after: MemoryManager<H>,
    payload: Seq<u8>,
    r: Result<Response, ProtocolError>,
) -> bool {
    if payload.len() < RANGE_SIZE {
        r == Err::<Response, ProtocolError>(ProtocolError::InvalidLength) && after == before
    } else {
        let address = range_address(payload);
        let length = range_length(payload);
        match before.erase_refusal(address, length) {
            Some(e) => r == Err::<Response, ProtocolError>(ProtocolError::MemoryError(e))
                && after == before,
            None => {
                &&& behaves_alike(&before.device(), &after.device())
                &&& passes_on(before.device().erase_failure(address, length), r)
                &&& r is Ok ==> r == Ok::<Response, ProtocolError>(Response::Acknowledged)
                    && after.flash() == erased(before.flash(), address as int, length as int)
                &&& r matches Err(e) ==> e.reports_hardware()
                &&& same_outside(before.flash(), after.flash(), address as int, length as int)
            },
        }
    }
}

/// The bytes that `WriteData` with `payload` is to store: the `range_length`
/// bytes that follow the range.
pub open spec fn write_data(payload: Seq<u8>) -> Seq<u8> {
    payload.subrange(RANGE_SIZE as int, RANGE_SIZE + range_length(payload))
}

/// What a write of `data` at `address` that the memory manager admits comes
/// to. Where the device fails to program, its failure is passed on. Else flash
/// holds what programming leaves and the range is read back: where the device
/// fails to give it up, that failure is passed on; else the write is
/// acknowledged where the range holds `data`, and is `VerificationFailed`
/// where it does not.
pub open spec fn written<H: S32KHal>(
    before: MemoryManager<H>,
    after: MemoryManager<H>,
    address: u32,
    data: Seq<u8>,
    r: Result<Response, ProtocolError>,
) -> bool {
    let stored = after.flash().subrange(address as int, address + data.len());
    let programming = before.device().program_failure(address, data);
    let reading = after.device().read_failure(address, data.len() as usize);
    if programming is Some {
        passes_on(programming, r)
    } else if reading is Some {
        after.flash() == programmed(before.flash(), address as int, data) && passes_on(reading, r)
    } else {
        after.flash() == programmed(before.flash(), address as int, data) && r == if stored
            == data {
            Ok::<Response, ProtocolError>(Response::Acknowledged)
        } else {
            Err::<Response, ProtocolError>(ProtocolError::VerificationFailed)
        }
    }
}

/// What `WriteData` with `payload` may leave behind. It is acknowledged only
/// where the range reads back as the bytes that were to be stored.
pub open spec fn write_outcome<H: S32KHal>(
    before: MemoryManager<H>,
    after: MemoryManager<H>,
    payload: Seq<u8>,
    r: Result<Response, ProtocolError>,
) -> bool {
    if payload.len() < RANGE_SIZE || payload.len() - RANGE_SIZE < range_length(payload) {
        r == Err::<Response, ProtocolError>(ProtocolError::InvalidLength) && after == before
    } else {
        let address = range_address(payload);
        let data = write_data(payload);
        let stored = after.flash().subrange(address as int, address + data.len());
        match before.write_refusal(address, data.len()) {
            Some(e) => r == Err::<Response, ProtocolError>(ProtocolError::MemoryError(e))
                && after == before,
            None => {
                &&& behaves_alike(&before.device(), &after.device())
                &&& written(before, after, address, data, r)
                &&& r is Ok ==> r == Ok::<Response, ProtocolError>(Response::Acknowledged)
                    && stored == data
                &&& r is Ok || r == Err::<Response, ProtocolError>(
                    ProtocolError::VerificationFailed,
                ) ==> after.flash() == programmed(before.flash(), address as int, data)
                &&& r == Err::<Response, ProtocolError>(ProtocolError::VerificationFailed)
                    ==> stored != data
                &&& r matches Err(e) ==> e == ProtocolError::VerificationFailed
                    || e.reports_hardware()
                &&& same_outside(
                    before.flash(),
                    after.flash(),
                    address as int,
                    data.len() as int,
                )
            },
        }
    }
}

/// Writing to a range the bytes that it already holds cannot fail
/// verification, and where it is acknowledged flash is as it was. So the same
/// `WriteData` sent again after an acknowledged one is acknowledged again,
/// unless the hardware reports a failure.
pub proof fn lemma_rewrite_passes_verification<H: S32KHal>(
    before: MemoryManager<H>,
    after: MemoryManager<H>,
    payload: Seq<u8>,
    r: Result<Response, ProtocolError>,
)
    requires
        range_address(payload) + range_length(payload) <= before.flash().len(),
        payload.len() >= RANGE_SIZE,
        payload.len() - RANGE_SIZE >= range_length(payload),
        before.write_refusal(range_address(payload), write_data(payload).len()) is None,
        before.flash().subrange(
            range_address(payload) as int,
            range_address(payload) + range_length(payload),
        ) == write_data(payload),
        write_outcome(before, after, payload, r),
    ensures
        r != Err::<Response, ProtocolError>(ProtocolError::VerificationFailed),
        r is Ok ==> after.flash() == before.flash(),
{
    let address = range_address(payload);
    let data = write_data(payload);
    lemma_programming_stored_bytes(before.flash(), address as int, data);
}

/// How many bytes `ReadData` returns where `length` were asked for.
pub open spec fn read_count(length: u32) -> u32 {
    if length < READ_BUFFER_SIZE {
        length
    } else {
        READ_BUFFER_SIZE
    }
}

/// What `ReadData` with `payload` returns. Only the application region can be
/// read this way.
pub open spec fn read_outcome<H: S32KHal>(
    memory: MemoryManager<H>,
    payload: Seq<u8>,
    r: Result<Response, ProtocolError>,
) -> bool {
    if payload.len() < RANGE_SIZE {
        r == Err::<Response, ProtocolError>(ProtocolError::InvalidLength)
    } else {
        let address = range_address(payload);
        let count = read_count(range_length(payload));
        match memory.change_refusal(address as int, count as int) {
            Some(e) => r == Err::<Response, ProtocolError>(ProtocolError::MemoryError(e)),
            None => {
                &&& passes_on(memory.device().read_failure(address, count as usize), r)
                &&& r matches Ok(response) ==> response matches Response::Data(data) && data@
                    == memory.flash().subrange(address as int, address + count)
                &&& r matches Err(e) ==> e.reports_hardware()
            },
        }
    }
}

/// What `GetChecksum` with `payload` returns.
pub open spec fn checksum_outcome<H: S32KHal>(
    memory: MemoryManager<H>,
    payload: Seq<u8>,
    r: Result<Response, ProtocolError>,
) -> bool {
    if payload.len() < RANGE_SIZE {
        r == Err::<Response, ProtocolError>(ProtocolError::InvalidLength)
    } else {
        let address = range_address(payload);
        let length = range_length(payload);
        match checksum_refusal(&memory, address, length) {
            Some(e) => r == Err::<Response, ProtocolError>(ProtocolError::MemoryError(e)),
            None => {
                &&& passes_on(memory.device().read_failure(address, length as usize), r)
                &&& r matches Ok(response) ==> response == Response::Checksum(
                    xor_checksum(memory.flash().subrange(address as int, address + length)),
                )
                &&& r matches Err(e) ==> e.reports_hardware()
            },
        }
    }
}

/// What carrying out `command` with `payload` may leave behind: the session
/// and the memory manager before and after it, and the result `r`.
///
/// A command that the session blocks changes nothing, reaches no hardware, and
/// is refused with `ProgrammingNotEnabled`. Any other command does what its own outcome says.
pub open spec fn session_outcome<H: S32KHal>(
    session: ProtocolSession,
    session_after: ProtocolSession,
    before: MemoryManager<H>,
    after: MemoryManager<H>,
    command: Command,
    payload: Seq<u8>,
    r: Result<Response, ProtocolError>,
) -> bool {
    &&& session_after.response_id() == session.response_id()
    &&& if session.blocks(command) {
        &&& r == Err::<Response, ProtocolError>(ProtocolError::ProgrammingNotEnabled)
        &&& after == before
        &&& session_after == session
    } else {
        match command {
            Command::GetProtocolVersion => {
                &&& r == Ok::<Response, ProtocolError>(Response::Version)
                &&& after == before
                &&& session_after == session
            },
            Command::SetProgrammingEnabled => {
                &&& r == Ok::<Response, ProtocolError>(Response::Acknowledged)
                &&& after == before
                &&& session_after.programming_enabled()
            },
            Command::GetProgrammingEnabled => {
                &&& r == Ok::<Response, ProtocolError>(
                    Response::ProgrammingEnabled(session.programming_enabled()),
                )
                &&& after == before
                &&& session_after == session
            },
            Command::EraseMemory => {
                &&& erase_outcome(before, after, payload, r)
                &&& session_after == session
            },
            Command::WriteData => {
                &&& write_outcome(before, after, payload, r)
                &&& session_after == session
            },
            Command::ReadData => {
                &&& read_outcome(before, payload, r)
                &&& after == before
                &&& session_after == session
            },
            Command::GetChecksum => {
                &&& checksum_outcome(before, payload, r)
                &&& after == before
                &&& session_after == session
            },
            Command::Reboot => {
                &&& r == Ok::<Response, ProtocolError>(Response::Acknowledged)
                &&& after == before
                &&& !session_after.programming_enabled()
            },
        }
    }
}

/// Programming is enabled by `SetProgrammingEnabled` and by nothing else.
pub proof fn lemma_only_the_command_enables_programming<H: S32KHal>(
    session: ProtocolSession,
    session_after: ProtocolSession,
    before: MemoryManager<H>,
    after: MemoryManager<H>,
    command: Command,
    payload: Seq<u8>,
    r: Result<Response, ProtocolError>,
)
    requires
        session_outcome(session, session_after, before, after, command, payload, r),
        !session.programming_enabled(),
        session_after.programming_enabled(),
    ensures
        command == Command::SetProgrammingEnabled,
{
}

/// What lasts from one command to the next: whether programming is enabled,
/// and the identifier that responses go out on, which is `RESPONSE_ID`.
#[derive(Debug, Clone, Copy, PartialEq, Eq, Structural)]
pub struct ProtocolSession {
    programming_enabled: bool,
    response_id: u32,
}

impl ProtocolSession {
    #[verifier::type_invariant]
    spec fn answers_on_response_id(self) -> bool {
        self.response_id == RESPONSE_ID
    }

    /// Whether programming is enabled.
    pub closed spec fn programming_enabled(self) -> bool {
        self.programming_enabled
    }

    /// The identifier that responses go out on.
    pub closed spec fn response_id(self) -> u32 {
        self.response_id
    }

    /// The session after reset: programming disabled, responses on
    /// `RESPONSE_ID`.
    pub fn new() -> (session: Self)
        ensures
            !session.programming_enabled(),
            session.response_id() == RESPONSE_ID,
    {
        ProtocolSession { programming_enabled: false, response_id: RESPONSE_ID }
    }

    /// Tells whether programming is enabled.
    pub fn is_programming_enabled(&self) -> (enabled: bool)
        ensures
            enabled == self.programming_enabled(),
    {
        self.programming_enabled
    }

    /// The identifier that responses go out on: `RESPONSE_ID`.
    pub fn get_response_id(&self) -> (id: u32)
        ensures
            id == self.response_id(),
            id == RESPONSE_ID,
    {
        proof {
            use_type_invariant(self);
        }
        self.response_id
    }

    /// Whether this session holds `command` back: it needs programming enabled,
    /// and programming is not.
    pub open spec fn blocks(self, command: Command) -> bool {
        command.needs_programming() && !self.programming_enabled()
    }

    /// Carries out `command` with `payload`, the bytes that followed the
    /// command byte.
    pub fn handle_command<H: S32KHal>(
        &mut self,
        memory: &mut MemoryManager<H>,
        command: Command,
        payload: &[u8],
    ) -> (r: Result<Response, ProtocolError>)
        ensures
            final(memory).same_layout(old(memory)),
            old(memory).keeps_protected(old(memory).flash(), final(memory).flash()),
            old(self).blocks(command) ==> r == Err::<Response, ProtocolError>(
                ProtocolError::ProgrammingNotEnabled,
            ) && *final(memory) == *old(memory) && *final(self) == *old(self),
            session_outcome(
                *old(self),
                *final(self),
                *old(memory),
                *final(memory),
                command,
                payload@,
                r,
            ),
    {
        proof {
            use_type_invariant(&*self);
        }
        if command.requires_programming() && !self.programming_enabled {
            return Err(ProtocolError::ProgrammingNotEnabled);
        }
        match command {
            Command::GetProtocolVersion => Ok(Response::Version),
            Command::SetProgrammingEnabled => {
                self.programming_enabled = true;
                Ok(Response::Acknowledged)
            },
            Command::GetProgrammingEnabled => Ok(
                Response::ProgrammingEnabled(self.programming_enabled),
            ),
            Command::EraseMemory => handle_erase(memory, payload),
            Command::WriteData => handle_write(memory, payload),
            Command::ReadData => handle_read(memory, payload),
            Command::GetChecksum => handle_checksum(memory, payload),
            Command::Reboot => {
                self.programming_enabled = false;
                Ok(Response::Acknowledged)
            },
        }
    }
}

/// Carries out `EraseMemory`.
fn handle_erase<H: S32KHal>(memory: &mut MemoryManager<H>, payload: &[u8]) -> (r: Result<
    Response,
    ProtocolError,
>)
    ensures
        final(memory).same_layout(old(memory)),
        old(memory).keeps_protected(old(memory).flash(), final(memory).flash()),
        erase_outcome(*old(memory), *final(memory), payload@, r),
{
    let (address, length) = match parse_range(payload) {
        Ok(range) => range,
        Err(e) => {
            return Err(e);
        },
    };
    match memory.erase(address, length) {
        Ok(()) => Ok(Response::Acknowledged),
        Err(e) => Err(ProtocolError::MemoryError(e)),
    }
}

/// Carries out `WriteData`: programs the bytes, reads the range back and
/// compares.
fn handle_write<H: S32KHal>(memory: &mut MemoryManager<H>, payload: &[u8]) -> (r: Result<
    Response,
    ProtocolError,
>)
    ensures
        final(memory).same_layout(old(memory)),
        old(memory).keeps_protected(old(memory).flash(), final(memory).flash()),
        write_outcome(*old(memory), *final(memory), payload@, r),
{
    let (address, length) = match parse_range(payload) {
        Ok(range) => range,
        Err(e) => {
            return Err(e);
        },
    };
    if payload.len() - RANGE_SIZE < length as usize {
        return Err(ProtocolError::InvalidLength);
    }
    let data = slice_subrange(payload, RANGE_SIZE, RANGE_SIZE + length as usize);
    if let Err(e) = memory.write(address, data) {
        return Err(ProtocolError::MemoryError(e));
    }
    let mut stored = zeroed(length as usize);
    proof {
        assert(memory.read_refusal(address, length as nat) is None);
    }
    match memory.read(address, stored.as_mut_slice()) {
        Err(e) => Err(ProtocolError::MemoryError(e)),
        Ok(()) => {
            if same_bytes(stored.as_slice(), data) {
                Ok(Response::Acknowledged)
            } else {
                Err(ProtocolError::VerificationFailed)
            }
        },
    }
}

/// Carries out `ReadData`.
fn handle_read<H: S32KHal>(memory: &MemoryManager<H>, payload: &[u8]) -> (r: Result<
    Response,
    ProtocolError,
>)
    ensures
        read_outcome(*memory, payload@, r),
{
    let (address, length) = match parse_range(payload) {
        Ok(range) => range,
        Err(e) => {
            return Err(e);
        },
    };
    let count: u32 = if length < READ_BUFFER_SIZE {
        length
    } else {
        READ_BUFFER_SIZE
    };
    if let Some(e) = memory.check_change(address, count as usize) {
        return Err(ProtocolError::MemoryError(e));
    }
    let mut data = zeroed(count as usize);
    match memory.read(address, data.as_mut_slice()) {
        Err(e) => Err(ProtocolError::MemoryError(e)),
        Ok(()) => Ok(Response::Data(data)),
    }
}

/// Carries out `GetChecksum`.
fn handle_checksum<H: S32KHal>(memory: &MemoryManager<H>, payload: &[u8]) -> (r: Result<
    Response,
    ProtocolError,
>)
    ensures
        checksum_outcome(*memory, payload@, r),
{
    let (address, length) = match parse_range(payload) {
        Ok(range) => range,
        Err(e) => {
            return Err(e);
        },
    };
    match FirmwareValidator::calculate_checksum(memory, address, length) {
        Ok(checksum) => Ok(Response::Checksum(checksum)),
        Err(e) => Err(ProtocolError::MemoryError(e)),
    }
}

/// What the outcome of waiting for a frame means to the protocol: a frame
/// is what `frame_command` says, an empty receive queue is a `Timeout`, and
/// any other failure is a `CommunicationError`.
pub open spec fn reception_command(received: Result<CanFrame, CanError>) -> Result<
    Command,
    ProtocolError,
> {
    match received {
        Ok(frame) => frame_command(frame.id, frame.data@),
        Err(CanError::RxFifoEmpty) => Err(ProtocolError::Timeout),
        Err(_) => Err(ProtocolError::CommunicationError),
    }
}

/// Decides what the outcome of waiting for a frame means to the protocol.
pub fn interpret_reception(received: &Result<CanFrame, CanError>) -> (r: Result<
    Command,
    ProtocolError,
>)
    ensures
        r == reception_command(*received),
{
    match received {
        Ok(frame) => decode_frame(frame),
        Err(CanError::RxFifoEmpty) => Err(ProtocolError::Timeout),
        Err(_) => Err(ProtocolError::CommunicationError),
    }
}

/// One end of the command protocol: the CAN interface, the session, and the
/// payload of the command that was received last.
pub struct Protocol<C: EmbeddedCan> {
    can: C,
    timeout_ms: u32,
    session: ProtocolSession,
    payload: Vec<u8>,
}

impl<C: EmbeddedCan> Protocol<C> {
    /// The CAN interface.
    pub closed spec fn bus(&self) -> C {
        self.can
    }

    /// The session.
    pub closed spec fn session(&self) -> ProtocolSession {
        self.session
    }

    /// How long `receive_command` waits, in milliseconds.
    pub closed spec fn timeout(&self) -> u32 {
        self.timeout_ms
    }

    /// The bytes that followed the command byte of the last command.
    pub closed spec fn payload(&self) -> Seq<u8> {
        self.payload@
    }

    /// A protocol on `can` with a new session and the default timeout.
    pub fn new(can: C) -> (protocol: Self)
        ensures
            protocol.bus() == can,
            protocol.timeout() == DEFAULT_TIMEOUT_MS,
            !protocol.session().programming_enabled(),
            protocol.session().response_id() == RESPONSE_ID,
            protocol.payload() == Seq::<u8>::empty(),
    {
        Self {
            can,
            timeout_ms: DEFAULT_TIMEOUT_MS,
            session: ProtocolSession::new(),
            payload: Vec::new(),
        }
    }

    /// Starts the session over: programming disabled, no payload held.
    pub fn init(&mut self) -> (r: Result<(), ProtocolError>)
        ensures
            r is Ok,
            final(self).bus() == old(self).bus(),
            final(self).timeout() == old(self).timeout(),
            !final(self).session().programming_enabled(),
            final(self).session().response_id() == RESPONSE_ID,
            final(self).payload() == Seq::<u8>::empty(),
    {
        self.session = ProtocolSession::new();
        self.payload = Vec::new();
        Ok(())
    }

    /// Sets how long `receive_command` waits, in milliseconds.
    pub fn set_timeout(&mut self, timeout_ms: u32)
        ensures
            final(self).timeout() == timeout_ms,
            final(self).bus() == old(self).bus(),
            final(self).session() == old(self).session(),
            final(self).payload() == old(self).payload(),
    {
        self.timeout_ms = timeout_ms;
    }

    /// How long `receive_command` waits, in milliseconds.
    pub fn get_timeout(&self) -> (timeout_ms: u32)
        ensures
            timeout_ms == self.timeout(),
    {
        self.timeout_ms
    }

    /// The session.
    pub fn get_session(&self) -> (session: ProtocolSession)
        ensures
            session == self.session(),
            session.response_id() == RESPONSE_ID,
    {
        proof {
            use_type_invariant(&self.session);
        }
        self.session
    }

    /// The bytes that followed the command byte of the last command.
    pub fn get_payload(&self) -> (payload: &[u8])
        ensures
            payload@ == self.payload(),
    {
        self.payload.as_slice()
    }

    /// The CAN interface.
    pub fn get_can(&self) -> (can: &C)
        ensures
            *can == self.bus(),
    {
        &self.can
    }

    /// The CAN interface, to reach what lies behind it.
    pub fn get_can_mut(&mut self) -> (can: &mut C)
        ensures
            *can == old(self).bus(),
            final(self).bus() == *final(can),
            final(self).timeout() == old(self).timeout(),
            final(self).session() == old(self).session(),
            final(self).payload() == old(self).payload(),
    {
        &mut self.can
    }

    /// Waits for a frame and decides what it asks for. The bytes that follow the
    /// command byte of a command are kept as the payload.
    pub fn receive_command(&mut self) -> (r: Result<Command, ProtocolError>)
        ensures
            final(self).bus().accepted() == old(self).bus().accepted(),
            final(self).timeout() == old(self).timeout(),
            final(self).session() == old(self).session(),
            exists|received: Result<CanFrame, CanError>|
                r == reception_command(received) && (r is Ok ==> received is Ok
                    && final(self).payload() == received->Ok_0.data@.skip(1)),
            r is Err ==> final(self).payload() == old(self).payload(),
    {
        let received = self.can.receive(self.timeout_ms);
        let command = match interpret_reception(&received) {
            Ok(command) => command,
            Err(e) => {
                return Err(e);
            },
        };
        match &received {
            Err(_) => Err(ProtocolError::CommunicationError),
            Ok(frame) => {
                let mut payload: Vec<u8> = Vec::new();
                let mut i: usize = 1;
                while i < frame.data.len()
                    invariant
                        1 <= i <= frame.data@.len(),
                        payload@ == frame.data@.subrange(1, i as int),
                    decreases frame.data@.len() - i,
                {
                    payload.push(frame.data[i]);
                    assert(frame.data@.subrange(1, i + 1) == frame.data@.subrange(
                        1,
                        i as int,
                    ).push(frame.data@[i as int]));
                    i += 1;
                }
                assert(payload@ == frame.data@.skip(1));
                self.payload = payload;
                Ok(command)
            },
        }
    }

    /// Sends `data` on `RESPONSE_ID`. More than `MAX_RESPONSE_SIZE`
    /// bytes do not fit a frame (`InvalidLength`); a frame that the interface
    /// does not take is a `CommunicationError`.
    pub fn send_response(&mut self, data: &[u8]) -> (r: Result<(), ProtocolError>)
        ensures
            final(self).timeout() == old(self).timeout(),
            final(self).session() == old(self).session(),
            final(self).payload() == old(self).payload(),
            data@.len() > MAX_RESPONSE_SIZE ==> r == Err::<(), ProtocolError>(
                ProtocolError::InvalidLength,
            ),
            data@.len() <= MAX_RESPONSE_SIZE ==> r is Ok || r == Err::<(), ProtocolError>(
                ProtocolError::CommunicationError,
            ),
            final(self).bus().accepted() == if r is Ok {
                old(self).bus().accepted().push((RESPONSE_ID, data@))
            } else {
                old(self).bus().accepted()
            },
    {
        if data.len() > MAX_RESPONSE_SIZE {
            return Err(ProtocolError::InvalidLength);
        }
        let mut bytes: Vec<u8> = Vec::new();
        let mut i: usize = 0;
        while i < data.len()
            invariant
                i <= data@.len(),
                bytes@ == data@.take(i as int),
            decreases data@.len() - i,
        {
            bytes.push(data[i]);
            assert(data@.take(i + 1) == data@.take(i as int).push(data@[i as int]));
            i += 1;
        }
        assert(data@.take(i as int) == data@);
        let frame = CanFrame { id: self.session.get_response_id(), data: bytes };
        match self.can.transmit(&frame) {
            Ok(()) => Ok(()),
            Err(_) => Err(ProtocolError::CommunicationError),
        }
    }

    /// Carries out `command` with the payload that `receive_command` kept.
    pub fn handle_command<H: S32KHal>(
        &mut self,
        memory: &mut MemoryManager<H>,
        command: Command,
    ) -> (r: Result<Response, ProtocolError>)
        ensures
            final(self).bus() == old(self).bus(),
            final(self).timeout() == old(self).timeout(),
            final(self).payload() == old(self).payload(),
            final(memory).same_layout(old(memory)),
            old(memory).keeps_protected(old(memory).flash(), final(memory).flash()),
            session_outcome(
                old(self).session(),
                final(self).session(),
                *old(memory),
                *final(memory),
                command,
                old(self).payload(),
                r,
            ),
    {
        self.session.handle_command(memory, command, self.payload.as_slice())
    }
}

} // verus!
