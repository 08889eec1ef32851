//! What holds of the control protocol: what is encoded can be decoded, and
//! comes back as it was.

use vstd::prelude::*;
use vstd::bytes::{lemma_auto_spec_u64_to_from_le_bytes, spec_u64_to_le_bytes};
use vstd::utf8::{encode_utf8, encode_utf8_decode_utf8, encode_utf8_valid_utf8};
use crate::protocol::{
    announced_length,
    decode_entries,
    decode_report,
    decode_request,
    decode_response,
    encode_entries,
    encode_entry,
    encode_report,
    encode_request,
    encode_response,
    force_code,
    force_of,
    frame_of,
    kind_code,
    kind_of,
    operation_code,
    operation_of,
    response_fits,
    status_code,
    status_of,
    ProtocolError,
    RequestModel,
    ResponseModel,
};
use crate::registry::EntryModel;
use crate::service_worker::StatusReport;

verus! {

/// Every request travels unharmed: the payload that carries it is a
/// well-formed payload, and decoding it gives the request back.
pub proof fn lemma_request_round_trip(request: RequestModel)
    ensures
        decode_request(encode_request(request)) == Ok::<RequestModel, ProtocolError>(request),
{
    lemma_auto_spec_u64_to_from_le_bytes();
    encode_utf8_valid_utf8(request.service);
    encode_utf8_decode_utf8(request.service);
    let bytes = encode_request(request);
    let text = encode_utf8(request.service);
    assert(operation_of(operation_code(request.op)) == Some(request.op));
    assert(force_of(force_code(request.force)) == Some(request.force));
    match request.stop_timeout_ms {
        None => {
            assert(bytes.skip(3) =~= text);
        },
        Some(t) => {
            assert(spec_u64_to_le_bytes(t).len() == 8);
            assert(bytes.subrange(2, 10) =~= spec_u64_to_le_bytes(t));
            assert(bytes.skip(11) =~= text);
        },
    }
}

/// A snapshot comes back from its nine bytes.
pub proof fn lemma_report_round_trip(report: StatusReport)
    ensures
        encode_report(report).len() == 9,
        decode_report(encode_report(report)) == Some(report),
{
    lemma_auto_spec_u64_to_from_le_bytes();
    let bytes = encode_report(report);
    assert(status_of(status_code(report.status)) == Some(report.status));
    assert(bytes.subrange(1, 9) =~= spec_u64_to_le_bytes(report.time_in_state));
}

/// The bytes of a list begin with the bytes of its first line.
pub proof fn lemma_encode_entries_front(first: EntryModel, rest: Seq<EntryModel>)
    ensures
        encode_entries(seq![first] + rest) == encode_entry(first) + encode_entries(rest),
    decreases rest.len(),
{
    let all = seq![first] + rest;
    if rest.len() == 0 {
        assert(all.drop_last() =~= Seq::<EntryModel>::empty());
        assert(all.last() == first);
        assert(encode_entries(Seq::<EntryModel>::empty()) =~= Seq::<u8>::empty());
        assert(encode_entries(rest) =~= Seq::<u8>::empty());
        assert(encode_entries(all) =~= encode_entry(first));
        assert(encode_entry(first) + encode_entries(rest) =~= encode_entry(first));
    } else {
        lemma_encode_entries_front(first, rest.drop_last());
        assert(all.drop_last() =~= seq![first] + rest.drop_last());
        assert(all.last() == rest.last());
        assert(encode_entries(all) =~= encode_entry(first) + encode_entries(rest));
    }
}

/// The lines of a list come back from their bytes.
pub proof fn lemma_entries_round_trip(entries: Seq<EntryModel>)
    requires
        forall|i: int|
            0 <= i < entries.len() ==> encode_utf8((#[trigger] entries[i]).name).len()
                <= u64::MAX,
    ensures
        decode_entries(encode_entries(entries), entries.len()) == Some(entries),
    decreases entries.len(),
{
    if entries.len() > 0 {
        let first = entries[0];
        let rest = entries.drop_first();
        assert(entries =~= seq![first] + rest);
        lemma_encode_entries_front(first, rest);
        assert forall|i: int| 0 <= i < rest.len() implies encode_utf8(
            (#[trigger] rest[i]).name,
        ).len() <= u64::MAX by {
            assert(rest[i] == entries[i + 1]);
        }
        lemma_entries_round_trip(rest);
        lemma_auto_spec_u64_to_from_le_bytes();
        lemma_report_round_trip(first.report);
        encode_utf8_valid_utf8(first.name);
        encode_utf8_decode_utf8(first.name);
        let text = encode_utf8(first.name);
        let length = text.len() as u64;
        let bytes = encode_entries(entries);
        assert(bytes == encode_report(first.report) + spec_u64_to_le_bytes(length) + text
            + encode_entries(rest));
        assert(bytes.subrange(0, 9) =~= encode_report(first.report));
        assert(bytes.subrange(9, 17) =~= spec_u64_to_le_bytes(length));
        assert(bytes.subrange(17, 17 + length) =~= text);
        assert(bytes.skip(17 + length) =~= encode_entries(rest));
        assert(seq![first] + rest =~= entries);
    }
}

/// Every response travels unharmed: the payload that carries it is the
/// encoding of a response, and decoding it gives the response back.
pub proof fn lemma_response_round_trip(response: ResponseModel)
    requires
        response_fits(response),
    ensures
        decode_response(encode_response(response)) == Some(response),
{
    let bytes = encode_response(response);
    match response {
        ResponseModel::Status(report) => {
            lemma_report_round_trip(report);
            assert(bytes.skip(1) =~= encode_report(report));
        },
        ResponseModel::List(entries) => {
            lemma_auto_spec_u64_to_from_le_bytes();
            lemma_entries_round_trip(entries);
            let count = entries.len() as u64;
            assert(bytes.subrange(1, 9) =~= spec_u64_to_le_bytes(count));
            assert(bytes.skip(9) =~= encode_entries(entries));
        },
        ResponseModel::Error { kind, message } => {
            encode_utf8_valid_utf8(message);
            encode_utf8_decode_utf8(message);
            assert(kind_of(kind_code(kind)) == Some(kind));
            assert(bytes.skip(2) =~= encode_utf8(message));
        },
    }
}

/// A frame announces the length of its payload, and the payload follows
/// its eight bytes of header unchanged.
pub proof fn lemma_frame_round_trip(payload: Seq<u8>, limit: usize)
    requires
        payload.len() <= limit,
    ensures
        frame_of(payload).len() == payload.len() + 8,
        announced_length(frame_of(payload).subrange(0, 8), limit) == Ok::<usize, ProtocolError>(
            payload.len() as usize,
        ),
        frame_of(payload).skip(8) == payload,
{
    lemma_auto_spec_u64_to_from_le_bytes();
    let length = payload.len() as u64;
    assert(frame_of(payload).subrange(0, 8) =~= spec_u64_to_le_bytes(length));
    assert(frame_of(payload).skip(8) =~= payload);
}

} // verus!
