//! The control protocol: what clients ask and what the supervisor answers,
//! as values and as bytes.
//!
//! A request names a service and an operation; a stop may carry a timeout
//! in milliseconds and a force flag. A response is a status snapshot, the
//! list of all services, or an error with its kind and a message. Both
//! travel as the payload of one frame each: eight bytes of payload length,
//! least significant first, then the payload.
//!
//! Request payload: the operation (one byte), the timeout (a zero byte, or
//! a one byte and eight bytes little-endian), the force flag (0 absent,
//! 1 false, 2 true), then the service name in UTF-8 to the end.
//!
//! Response payload: a tag byte, then for a snapshot (tag 0) the status and
//! eight bytes of time; for a list (tag 1) eight bytes of count and for each
//! service a snapshot, eight bytes of name length and the name; for an error
//! (tag 2) the kind and the message in UTF-8 to the end.

use vstd::prelude::*;
use vstd::bytes::{spec_u64_from_le_bytes, spec_u64_to_le_bytes, u64_from_le_bytes, u64_to_le_bytes};
use vstd::slice::{slice_subrange, slice_to_vec};
use vstd::utf8::{decode_utf8, encode_utf8, valid_utf8};
use crate::registry::{EntryModel, ServiceEntry};
use crate::service_worker::{ServiceStatus, StatusReport};

verus! {

/// What a client asks for.
#[derive(Debug, Clone, Copy, PartialEq, Eq, Structural)]
pub enum Operation {
    Start,
    Stop,
    Status,
    List,
}

/// One request of a client.
#[derive(Debug)]
pub struct Request {
    pub service: String,
    pub op: Operation,
    pub stop_timeout_ms: Option<u64>,
    pub force: Option<bool>,
}

/// What a request is, as a mathematical value.
pub struct RequestModel {
    pub service: Seq<char>,
    pub op: Operation,
    pub stop_timeout_ms: Option<u64>,
    pub force: Option<bool>,
}

impl View for Request {
    type V = RequestModel;

    open spec fn view(&self) -> RequestModel {
        RequestModel {
            service: self.service@,
            op: self.op,
            stop_timeout_ms: self.stop_timeout_ms,
            force: self.force,
        }
    }
}

/// Why a payload is not a request.
#[derive(Debug, Clone, Copy, PartialEq, Eq, Structural)]
pub enum ProtocolError {
    /// The payload ends before the request does.
    Truncated,
    /// The operation byte names no operation.
    UnknownOperation,
    /// A presence or force byte has a value that means nothing.
    UnknownFlag,
    /// The service name is not UTF-8.
    InvalidText,
    /// The frame announces a longer payload than is accepted.
    Oversized,
}

/// The kind of an error in a response.
#[derive(Debug, Clone, Copy, PartialEq, Eq, Structural)]
pub enum ErrorKind {
    AlreadyRunning,
    NotRunning,
    Busy,
    ScriptNotSpecified,
    ProcessSpawnFailed,
    ProcessWaitFailed,
    KillFailed,
    StartFailed,
    UnknownService,
    ProtocolError,
}

/// One response of the supervisor.
#[derive(Debug)]
pub enum Response {
    /// The snapshot of the service that the request named.
    Status(StatusReport),
    /// The snapshots of all services.
    List(Vec<ServiceEntry>),
    /// The request failed.
    Error { kind: ErrorKind, message: String },
}

/// What a response is, as a mathematical value.
pub enum ResponseModel {
    Status(StatusReport),
    List(Seq<EntryModel>),
    Error { kind: ErrorKind, message: Seq<char> },
}

impl View for Response {
    type V = ResponseModel;

    open spec fn view(&self) -> ResponseModel {
        match self {
            Response::Status(report) => ResponseModel::Status(*report),
            Response::List(entries) => ResponseModel::List(entries.deep_view()),
            Response::Error { kind, message } => ResponseModel::Error {
                kind: *kind,
                message: message@,
            },
        }
    }
}

/// The byte that stands for an operation.
pub open spec fn operation_code(op: Operation) -> u8 {
    match op {
        Operation::Start => 0,
        Operation::Stop => 1,
        Operation::Status => 2,
        Operation::List => 3,
    }
}

/// The operation that a byte stands for.
pub open spec fn operation_of(code: u8) -> Option<Operation> {
    if code == 0 {
        Some(Operation::Start)
    } else if code == 1 {
        Some(Operation::Stop)
    } else if code == 2 {
        Some(Operation::Status)
    } else if code == 3 {
        Some(Operation::List)
    } else {
        None
    }
}

/// The byte that stands for a force flag: absent, false or true.
pub open spec fn force_code(force: Option<bool>) -> u8 {
    match force {
        None => 0,
        Some(false) => 1,
        Some(true) => 2,
    }
}

/// The force flag that a byte stands for.
pub open spec fn force_of(code: u8) -> Option<Option<bool>> {
    if code == 0 {
        Some(None)
    } else if code == 1 {
        Some(Some(false))
    } else if code == 2 {
        Some(Some(true))
    } else {
        None
    }
}

/// The byte that stands for a status.
pub open spec fn status_code(status: ServiceStatus) -> u8 {
    match status {
        ServiceStatus::Stopped => 0,
        ServiceStatus::Starting => 1,
        ServiceStatus::Running => 2,
        ServiceStatus::Stopping => 3,
    }
}

/// The status that a byte stands for.
pub open spec fn status_of(code: u8) -> Option<ServiceStatus> {
    if code == 0 {
        Some(ServiceStatus::Stopped)
    } else if code == 1 {
        Some(ServiceStatus::Starting)
    } else if code == 2 {
        Some(ServiceStatus::Running)
    } else if code == 3 {
        Some(ServiceStatus::Stopping)
    } else {
        None
    }
}

/// The byte that stands for a kind of error.
pub open spec fn kind_code(kind: ErrorKind) -> u8 {
    match kind {
        ErrorKind::AlreadyRunning => 0,
        ErrorKind::NotRunning => 1,
        ErrorKind::Busy => 2,
        ErrorKind::ScriptNotSpecified => 3,
        ErrorKind::ProcessSpawnFailed => 4,
        ErrorKind::ProcessWaitFailed => 5,
        ErrorKind::KillFailed => 6,
        ErrorKind::StartFailed => 7,
        ErrorKind::UnknownService => 8,
        ErrorKind::ProtocolError => 9,
    }
}

/// The kind of error that a byte stands for.
pub open spec fn kind_of(code: u8) -> Option<ErrorKind> {
    if code == 0 {
        Some(ErrorKind::AlreadyRunning)
    } else if code == 1 {
        Some(ErrorKind::NotRunning)
    } else if code == 2 {
        Some(ErrorKind::Busy)
    } else if code == 3 {
        Some(ErrorKind::ScriptNotSpecified)
    } else if code == 4 {
        Some(ErrorKind::ProcessSpawnFailed)
    } else if code == 5 {
        Some(ErrorKind::ProcessWaitFailed)
    } else if code == 6 {
        Some(ErrorKind::KillFailed)
    } else if code == 7 {
        Some(ErrorKind::StartFailed)
    } else if code == 8 {
        Some(ErrorKind::UnknownService)
    } else if code == 9 {
        Some(ErrorKind::ProtocolError)
    } else {
        None
    }
}

/// The bytes of an optional timeout.
pub open spec fn timeout_bytes(timeout: Option<u64>) -> Seq<u8> {
    match timeout {
        None => seq![0u8],
        Some(t) => seq![1u8] + spec_u64_to_le_bytes(t),
    }
}

/// The payload that carries a request.
pub open spec fn encode_request(request: RequestModel) -> Seq<u8> {
    seq![operation_code(request.op)] + timeout_bytes(request.stop_timeout_ms) + seq![
        force_code(request.force),
    ] + encode_utf8(request.service)
}

/// Where the force byte of a request stands, given its timeout flag.
pub open spec fn force_position(flag: u8) -> int {
    if flag == 1 {
        10
    } else {
        2
    }
}

/// The request that a payload carries, or why it carries none.
pub open spec fn decode_request(bytes: Seq<u8>) -> Result<RequestModel, ProtocolError> {
    if bytes.len() < 2 {
        Err(ProtocolError::Truncated)
    } else if operation_of(bytes[0]) is None {
        Err(ProtocolError::UnknownOperation)
    } else if bytes[1] > 1 {
        Err(ProtocolError::UnknownFlag)
    } else {
        let at = force_position(bytes[1]);
        if bytes.len() <= at {
            Err(ProtocolError::Truncated)
        } else if force_of(bytes[at]) is None {
            Err(ProtocolError::UnknownFlag)
        } else if !valid_utf8(bytes.skip(at + 1)) {
            Err(ProtocolError::InvalidText)
        } else {
            Ok(
                RequestModel {
                    service: decode_utf8(bytes.skip(at + 1)),
                    op: operation_of(bytes[0])->0,
                    stop_timeout_ms: if bytes[1] == 1 {
                        Some(spec_u64_from_le_bytes(bytes.subrange(2, 10)))
                    } else {
                        None
                    },
                    force: force_of(bytes[at])->0,
                },
            )
        }
    }
}

/// The bytes of a snapshot: the status and the time in it.
pub open spec fn encode_report(report: StatusReport) -> Seq<u8> {
    seq![status_code(report.status)] + spec_u64_to_le_bytes(report.time_in_state)
}

/// The bytes of one line of the list.
pub open spec fn encode_entry(entry: EntryModel) -> Seq<u8> {
    encode_report(entry.report) + spec_u64_to_le_bytes(encode_utf8(entry.name).len() as u64)
        + encode_utf8(entry.name)
}

/// The bytes of the lines of the list, one after the other.
pub open spec fn encode_entries(entries: Seq<EntryModel>) -> Seq<u8>
    decreases entries.len(),
{
    if entries.len() == 0 {
        Seq::empty()
    } else {
        encode_entries(entries.drop_last()) + encode_entry(entries.last())
    }
}

/// The payload that carries a response.
pub open spec fn encode_response(response: ResponseModel) -> Seq<u8> {
    match response {
        ResponseModel::Status(report) => seq![0u8] + encode_report(report),
        ResponseModel::List(entries) => seq![1u8] + spec_u64_to_le_bytes(entries.len() as u64)
            + encode_entries(entries),
        ResponseModel::Error { kind, message } => seq![2u8, kind_code(kind)] + encode_utf8(
            message,
        ),
    }
}

/// Whether the lengths in a response fit the eight bytes they travel in.
/// Every response held in memory does.
pub open spec fn response_fits(response: ResponseModel) -> bool {
    match response {
        ResponseModel::List(entries) => {
            &&& entries.len() <= u64::MAX
            &&& forall|i: int|
                0 <= i < entries.len() ==> encode_utf8((#[trigger] entries[i]).name).len()
                    <= u64::MAX
        },
        _ => true,
    }
}

/// The snapshot that nine bytes carry.
pub open spec fn decode_report(bytes: Seq<u8>) -> Option<StatusReport> {
    if bytes.len() != 9 || status_of(bytes[0]) is None {
        None
    } else {
        Some(
            StatusReport {
                status: status_of(bytes[0])->0,
                time_in_state: spec_u64_from_le_bytes(bytes.subrange(1, 9)),
            },
        )
    }
}

/// The lines that precede the lines of `rest`, if there are any.
pub open spec fn preceded_by(done: Seq<EntryModel>, rest: Option<Seq<EntryModel>>) -> Option<
    Seq<EntryModel>,
> {
    match rest {
        Some(r) => Some(done + r),
        None => None,
    }
}

/// The `count` lines of a list that fill `bytes` exactly.
pub open spec fn decode_entries(bytes: Seq<u8>, count: nat) -> Option<Seq<EntryModel>>
    decreases count,
{
    if count == 0 {
        if bytes.len() == 0 {
            Some(Seq::empty())
        } else {
            None
        }
    } else if bytes.len() < 17 {
        None
    } else {
        let report = decode_report(bytes.subrange(0, 9));
        let length = spec_u64_from_le_bytes(bytes.subrange(9, 17));
        if report is None || bytes.len() - 17 < length || !valid_utf8(
            bytes.subrange(17, 17 + length),
        ) {
            None
        } else {
            preceded_by(
                seq![
                    EntryModel {
                        name: decode_utf8(bytes.subrange(17, 17 + length)),
                        report: report->0,
                    },
                ],
                decode_entries(bytes.skip(17 + length), (count - 1) as nat),
            )
        }
    }
}

/// The response that a payload carries, if it carries one.
pub open spec fn decode_response(bytes: Seq<u8>) -> Option<ResponseModel> {
    if bytes.len() == 0 {
        None
    } else if bytes[0] == 0 {
        match decode_report(bytes.skip(1)) {
            Some(report) => Some(ResponseModel::Status(report)),
            None => None,
        }
    } else if bytes[0] == 1 {
        if bytes.len() < 9 {
            None
        } else {
            match decode_entries(
                bytes.skip(9),
                spec_u64_from_le_bytes(bytes.subrange(1, 9)) as nat,
            ) {
                Some(entries) => Some(ResponseModel::List(entries)),
                None => None,
            }
        }
    } else if bytes[0] == 2 {
        if bytes.len() < 2 || kind_of(bytes[1]) is None || !valid_utf8(bytes.skip(2)) {
            None
        } else {
            Some(
                ResponseModel::Error {
                    kind: kind_of(bytes[1])->0,
                    message: decode_utf8(bytes.skip(2)),
                },
            )
        }
    } else {
        None
    }
}

/// The model of what decoding a response returns.
pub open spec fn response_option_model(decoded: Option<Response>) -> Option<ResponseModel> {
    match decoded {
        Some(response) => Some(response@),
        None => None,
    }
}

/// The longest request payload that a server reads, in bytes.
pub const MAX_REQUEST_LENGTH: usize = 65536;

/// The frame that carries a payload: its length in eight bytes, then the
/// payload.
pub open spec fn frame_of(payload: Seq<u8>) -> Seq<u8> {
    spec_u64_to_le_bytes(payload.len() as u64) + payload
}

/// The payload length that the header of a frame announces. A header that
/// is not eight bytes is truncated; a length over the limit is oversized.
pub open spec fn announced_length(header: Seq<u8>, limit: usize) -> Result<usize, ProtocolError> {
    if header.len() != 8 {
        Err(ProtocolError::Truncated)
    } else if spec_u64_from_le_bytes(header) > limit {
        Err(ProtocolError::Oversized)
    } else {
        Ok(spec_u64_from_le_bytes(header) as usize)
    }
}

/// The model of what decoding a request returns.
pub open spec fn decoded_model(decoded: Result<Request, ProtocolError>) -> Result<
    RequestModel,
    ProtocolError,
> {
    match decoded {
        Ok(request) => Ok(request@),
        Err(error) => Err(error),
    }
}

/// `String::from_utf8` of the standard library, which is trusted here and
/// not proved: it succeeds exactly on bytes that are valid UTF-8, and the
/// string it then returns holds the characters that the bytes encode.
#[verifier::external_body]
fn string_from_utf8(bytes: Vec<u8>) -> (text: Option<String>)
    ensures
        text is Some <==> valid_utf8(bytes@),
        text matches Some(s) ==> s@ == decode_utf8(bytes@),
{
    match String::from_utf8(bytes) {
        Ok(s) => Some(s),
        Err(_) => None,
    }
}

/// Appends `bytes` to `buffer`.
fn append_bytes(buffer: &mut Vec<u8>, bytes: &[u8])
    ensures
        final(buffer)@ == old(buffer)@ + bytes@,
{
    let mut i: usize = 0;
    while i < bytes.len()
        invariant
            i <= bytes.len(),
            buffer@ == old(buffer)@ + bytes@.take(i as int),
        decreases bytes.len() - i,
    {
        buffer.push(bytes[i]);
        i += 1;
        assert(buffer@ =~= old(buffer)@ + bytes@.take(i as int));
    }
    assert(bytes@.take(bytes.len() as int) =~= bytes@);
}

/// Appends the eight bytes of `value`, least significant first.
fn append_u64(buffer: &mut Vec<u8>, value: u64)
    ensures
        final(buffer)@ == old(buffer)@ + spec_u64_to_le_bytes(value),
{
    let bytes = u64_to_le_bytes(value);
    append_bytes(buffer, bytes.as_slice());
}

/// Appends the UTF-8 bytes of `text`.
fn append_text(buffer: &mut Vec<u8>, text: &String)
    ensures
        final(buffer)@ == old(buffer)@ + encode_utf8(text@),
{
    append_bytes(buffer, text.as_str().as_bytes());
}

/// The frame that carries `payload`.
pub fn frame(payload: &[u8]) -> (bytes: Vec<u8>)
    ensures
        bytes@ == frame_of(payload@),
{
    let mut bytes: Vec<u8> = Vec::new();
    append_u64(&mut bytes, payload.len() as u64);
    append_bytes(&mut bytes, payload);
    bytes
}

/// The length of the payload that follows `header`. A header that is not
/// eight bytes is refused as truncated, one that announces more than
/// `limit` bytes as oversized.
pub fn frame_length(header: &[u8], limit: usize) -> (length: Result<usize, ProtocolError>)
    ensures
        length == announced_length(header@, limit),
{
    if header.len() != 8 {
        return Err(ProtocolError::Truncated);
    }
    let announced = u64_from_le_bytes(header);
    if announced > limit as u64 {
        Err(ProtocolError::Oversized)
    } else {
        Ok(announced as usize)
    }
}

impl Operation {
    /// The byte that stands for the operation.
    pub fn code(self) -> (code: u8)
        ensures
            code == operation_code(self),
    {
        match self {
            Operation::Start => 0,
            Operation::Stop => 1,
            Operation::Status => 2,
            Operation::List => 3,
        }
    }

    /// The operation that a byte stands for.
    pub fn from_code(code: u8) -> (op: Option<Operation>)
        ensures
            op == operation_of(code),
    {
        if code == 0 {
            Some(Operation::Start)
        } else if code == 1 {
            Some(Operation::Stop)
        } else if code == 2 {
            Some(Operation::Status)
        } else if code == 3 {
            Some(Operation::List)
        } else {
            None
        }
    }
}

impl ErrorKind {
    /// The byte that stands for the kind.
    pub fn code(self) -> (code: u8)
        ensures
            code == kind_code(self),
    {
        match self {
            ErrorKind::AlreadyRunning => 0,
            ErrorKind::NotRunning => 1,
            ErrorKind::Busy => 2,
            ErrorKind::ScriptNotSpecified => 3,
            ErrorKind::ProcessSpawnFailed => 4,
            ErrorKind::ProcessWaitFailed => 5,
            ErrorKind::KillFailed => 6,
            ErrorKind::StartFailed => 7,
            ErrorKind::UnknownService => 8,
            ErrorKind::ProtocolError => 9,
        }
    }

    /// The kind that a byte stands for.
    pub fn from_code(code: u8) -> (kind: Option<ErrorKind>)
        ensures
            kind == kind_of(code),
    {
        if code == 0 {
            Some(ErrorKind::AlreadyRunning)
        } else if code == 1 {
            Some(ErrorKind::NotRunning)
        } else if code == 2 {
            Some(ErrorKind::Busy)
        } else if code == 3 {
            Some(ErrorKind::ScriptNotSpecified)
        } else if code == 4 {
            Some(ErrorKind::ProcessSpawnFailed)
        } else if code == 5 {
            Some(ErrorKind::ProcessWaitFailed)
        } else if code == 6 {
            Some(ErrorKind::KillFailed)
        } else if code == 7 {
            Some(ErrorKind::StartFailed)
        } else if code == 8 {
            Some(ErrorKind::UnknownService)
        } else if code == 9 {
            Some(ErrorKind::ProtocolError)
        } else {
            None
        }
    }
}

/// The byte that stands for a status.
pub fn status_byte(status: ServiceStatus) -> (code: u8)
    ensures
        code == status_code(status),
{
    match status {
        ServiceStatus::Stopped => 0,
        ServiceStatus::Starting => 1,
        ServiceStatus::Running => 2,
        ServiceStatus::Stopping => 3,
    }
}

/// The status that a byte stands for.
pub fn status_from_byte(code: u8) -> (status: Option<ServiceStatus>)
    ensures
        status == status_of(code),
{
    if code == 0 {
        Some(ServiceStatus::Stopped)
    } else if code == 1 {
        Some(ServiceStatus::Starting)
    } else if code == 2 {
        Some(ServiceStatus::Running)
    } else if code == 3 {
        Some(ServiceStatus::Stopping)
    } else {
        None
    }
}

/// The snapshot that nine bytes carry.
fn read_report(bytes: &[u8]) -> (report: Option<StatusReport>)
    ensures
        report == decode_report(bytes@),
{
    if bytes.len() != 9 {
        return None;
    }
    match status_from_byte(bytes[0]) {
        None => None,
        Some(status) => Some(
            StatusReport { status, time_in_state: u64_from_le_bytes(slice_subrange(bytes, 1, 9)) },
        ),
    }
}

/// Appends the bytes of a snapshot.
fn append_report(buffer: &mut Vec<u8>, report: &StatusReport)
    ensures
        final(buffer)@ == old(buffer)@ + encode_report(*report),
{
    buffer.push(status_byte(report.status));
    append_u64(buffer, report.time_in_state);
    assert(buffer@ =~= old(buffer)@ + encode_report(*report));
}

impl Request {
    /// The payload that carries the request.
    pub fn encode(&self) -> (bytes: Vec<u8>)
        ensures
            bytes@ == encode_request(self@),
    {
        let mut bytes: Vec<u8> = Vec::new();
        bytes.push(self.op.code());
        match self.stop_timeout_ms {
            None => {
                bytes.push(0);
            },
            Some(timeout) => {
                bytes.push(1);
                append_u64(&mut bytes, timeout);
            },
        }
        let force: u8 = match self.force {
            None => 0,
            Some(false) => 1,
            Some(true) => 2,
        };
        bytes.push(force);
        assert(bytes@ =~= seq![operation_code(self.op)] + timeout_bytes(self.stop_timeout_ms)
            + seq![force_code(self.force)]);
        append_text(&mut bytes, &self.service);
        bytes
    }

    /// The request that the payload carries. A payload that is too short,
    /// names no operation, holds an unknown flag or a name that is not
    /// UTF-8 is refused with the reason.
    pub fn decode(bytes: &[u8]) -> (decoded: Result<Request, ProtocolError>)
        ensures
            decoded_model(decoded) == decode_request(bytes@),
    {
        if bytes.len() < 2 {
            return Err(ProtocolError::Truncated);
        }
        let op = match Operation::from_code(bytes[0]) {
            Some(op) => op,
            None => {
                return Err(ProtocolError::UnknownOperation);
            },
        };
        if bytes[1] > 1 {
            return Err(ProtocolError::UnknownFlag);
        }
        let at: usize = if bytes[1] == 1 {
            10
        } else {
            2
        };
        if bytes.len() <= at {
            return Err(ProtocolError::Truncated);
        }
        let force = if bytes[at] == 0 {
            None
        } else if bytes[at] == 1 {
            Some(false)
        } else if bytes[at] == 2 {
            Some(true)
        } else {
            return Err(ProtocolError::UnknownFlag);
        };
        let stop_timeout_ms = if bytes[1] == 1 {
            Some(u64_from_le_bytes(slice_subrange(bytes, 2, 10)))
        } else {
            None
        };
        let name = slice_to_vec(slice_subrange(bytes, at + 1, bytes.len()));
        assert(name@ == bytes@.skip(at + 1));
        match string_from_utf8(name) {
            None => Err(ProtocolError::InvalidText),
            Some(service) => Ok(Request { service, op, stop_timeout_ms, force }),
        }
    }
}

impl Response {
    /// The payload that carries the response.
    pub fn encode(&self) -> (bytes: Vec<u8>)
        ensures
            bytes@ == encode_response(self@),
            response_fits(self@),
    {
        let mut bytes: Vec<u8> = Vec::new();
        match self {
            Response::Status(report) => {
                bytes.push(0);
                append_report(&mut bytes, report);
                assert(bytes@ =~= seq![0u8] + encode_report(*report));
            },
            Response::List(entries) => {
                bytes.push(1);
                append_u64(&mut bytes, entries.len() as u64);
                let ghost head = bytes@;
                let ghost all = entries.deep_view();
                let mut i: usize = 0;
                while i < entries.len()
                    invariant
                        i <= entries.len(),
                        all == entries.deep_view(),
                        bytes@ == head + encode_entries(all.take(i as int)),
                        forall|k: int|
                            0 <= k < i ==> encode_utf8((#[trigger] all[k]).name).len()
                                <= u64::MAX,
                    decreases entries.len() - i,
                {
                    let ghost before = bytes@;
                    let entry = &entries[i];
                    append_report(&mut bytes, &entry.report);
                    append_u64(&mut bytes, entry.name.as_str().as_bytes().len() as u64);
                    append_text(&mut bytes, &entry.name);
                    i += 1;
                    proof {
                        assert(all.take(i as int).drop_last() =~= all.take(i - 1));
                        assert(all.take(i as int).last() == entry@);
                        assert(bytes@ =~= before + encode_entry(entry@));
                        assert(bytes@ =~= head + encode_entries(all.take(i as int)));
                    }
                }
                assert(all.take(entries.len() as int) =~= all);
            },
            Response::Error { kind, message } => {
                bytes.push(2);
                bytes.push(kind.code());
                assert(bytes@ =~= seq![2u8, kind_code(*kind)]);
                append_text(&mut bytes, message);
            },
        }
        bytes
    }
    /// The response that the payload carries, or `None` where the payload
    /// is not the encoding of a response.
    pub fn decode(bytes: &[u8]) -> (decoded: Option<Response>)
        ensures
            response_option_model(decoded) == decode_response(bytes@),
    {
        if bytes.len() == 0 {
            return None;
        }
        let tag = bytes[0];
        if tag == 0 {
            match read_report(slice_subrange(bytes, 1, bytes.len())) {
                Some(report) => Some(Response::Status(report)),
                None => None,
            }
        } else if tag == 1 {
            if bytes.len() < 9 {
                return None;
            }
            let count = u64_from_le_bytes(slice_subrange(bytes, 1, 9));
            let mut entries: Vec<ServiceEntry> = Vec::new();
            let mut at: usize = 9;
            let mut i: u64 = 0;
            assert(preceded_by(entries.deep_view(), decode_entries(bytes@.skip(9), count as nat))
                == decode_entries(bytes@.skip(9), count as nat)) by {
                match decode_entries(bytes@.skip(9), count as nat) {
                    Some(rest) => {
                        assert(entries.deep_view() + rest =~= rest);
                    },
                    None => {},
                }
            }
            while i < count
                invariant
                    9 <= at <= bytes.len(),
                    i <= count,
                    bytes@[0] == 1,
                    count == spec_u64_from_le_bytes(bytes@.subrange(1, 9)),
                    decode_entries(bytes@.skip(9), count as nat) == preceded_by(
                        entries.deep_view(),
                        decode_entries(bytes@.skip(at as int), (count - i) as nat),
                    ),
                decreases count - i,
            {
                let ghost rest = bytes@.skip(at as int);
                let ghost done = entries.deep_view();
                if bytes.len() - at < 17 {
                    assert(decode_entries(rest, (count - i) as nat) is None);
                    return None;
                }
                let report = read_report(slice_subrange(bytes, at, at + 9));
                let length = u64_from_le_bytes(slice_subrange(bytes, at + 9, at + 17));
                assert(bytes@.subrange(at as int, at + 9) == rest.subrange(0, 9));
                assert(bytes@.subrange(at + 9, at + 17) == rest.subrange(9, 17));
                let report = match report {
                    Some(report) => report,
                    None => {
                        assert(decode_entries(rest, (count - i) as nat) is None);
                        return None;
                    },
                };
                if ((bytes.len() - at - 17) as u64) < length {
                    assert(decode_entries(rest, (count - i) as nat) is None);
                    return None;
                }
                let length = length as usize;
                let text = slice_to_vec(slice_subrange(bytes, at + 17, at + 17 + length));
                assert(text@ == rest.subrange(17, 17 + length));
                let name = match string_from_utf8(text) {
                    Some(name) => name,
                    None => {
                        assert(decode_entries(rest, (count - i) as nat) is None);
                        return None;
                    },
                };
                let entry = ServiceEntry { name, report };
                proof {
                    let tail = decode_entries(rest.skip(17 + length), (count - i - 1) as nat);
                    assert(rest.skip(17 + length) == bytes@.skip(at + 17 + length));
                    assert(decode_entries(rest, (count - i) as nat) == preceded_by(
                        seq![entry@],
                        tail,
                    ));
                    match tail {
                        Some(t) => {
                            assert(done + (seq![entry@] + t) =~= done.push(entry@) + t);
                        },
                        None => {},
                    }
                }
                entries.push(entry);
                assert(entries.deep_view() =~= done.push(entry@));
                at = at + 17 + length;
                i += 1;
            }
            if at != bytes.len() {
                return None;
            }
            assert(bytes@.skip(at as int).len() == 0);
            assert(entries.deep_view() + Seq::<EntryModel>::empty() =~= entries.deep_view());
            Some(Response::List(entries))
        } else if tag == 2 {
            if bytes.len() < 2 {
                return None;
            }
            let kind = match ErrorKind::from_code(bytes[1]) {
                Some(kind) => kind,
                None => {
                    return None;
                },
            };
            let text = slice_to_vec(slice_subrange(bytes, 2, bytes.len()));
            assert(text@ == bytes@.skip(2));
            match string_from_utf8(text) {
                Some(message) => Some(Response::Error { kind, message }),
                None => None,
            }
        } else {
            None
        }
    }
}

} // verus!
