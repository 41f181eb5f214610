//! The two envelopes a request body travels in: the raw header for
//! fixed-layout bodies and the protobuf header for protobuf bodies.
use vstd::prelude::*;
use crate::wire::{
    lemma_u16_round_trip, lemma_u32_round_trip, lemma_u64_round_trip, push_bytes, push_u16_le,
    push_u32_le, push_u64_le, u16_from_le, u16_le, u32_from_le, u32_le, u64_from_le, u64_le,
};

verus! {

/// The target job id of every envelope: this library never replies to a job.
pub const JOBID_NONE: u64 = 0xffff_ffff_ffff_ffff;

/// The format version written at the start of every raw envelope.
pub const RAW_VERSION: u16 = 1;

/// The number of bytes in front of the body of a raw envelope.
pub const RAW_HEADER_LEN: usize = 18;

/// The bit that marks a message tag as carrying a protobuf envelope.
pub const PROTO_FLAG: u32 = 0x8000_0000;

/// Why a request could not be encoded.
#[derive(Debug, Clone, Copy, PartialEq, Eq, Structural)]
pub enum EncodeError {
    /// The protobuf library refused to serialize a message.
    Message,
    /// The protobuf header is longer than its 32-bit length field can state.
    HeaderTooLong,
}

/// A raw envelope: version, no target job, the source job, then the body.
pub open spec fn raw_envelope(source_job_id: u64, body: Seq<u8>) -> Seq<u8> {
    u16_le(RAW_VERSION) + u64_le(JOBID_NONE) + u64_le(source_job_id) + body
}

/// The tag word at the start of a protobuf envelope.
pub open spec fn proto_tag(msg_type: u32) -> u32 {
    msg_type | PROTO_FLAG
}

/// A protobuf envelope: flagged tag, header length, header, then the body.
pub open spec fn proto_envelope(msg_type: u32, header: Seq<u8>, body: Seq<u8>) -> Seq<u8>
    recommends
        header.len() <= u32::MAX,
{
    u32_le(proto_tag(msg_type)) + u32_le(header.len() as u32) + header + body
}

/// Wraps `body` in a raw envelope sent as job `source_job_id`.
pub fn encode_raw(source_job_id: u64, body: &[u8]) -> (r: Vec<u8>)
    ensures
        r@ == raw_envelope(source_job_id, body@),
        r@.len() == RAW_HEADER_LEN + body@.len(),
        u16_from_le(r@.subrange(0, 2)) == RAW_VERSION,
        u64_from_le(r@.subrange(2, 10)) == JOBID_NONE,
        u64_from_le(r@.subrange(10, 18)) == source_job_id,
{
    proof {
        lemma_raw_envelope_layout(source_job_id, body@);
    }
    let mut out: Vec<u8> = Vec::new();
    push_u16_le(&mut out, RAW_VERSION);
    push_u64_le(&mut out, JOBID_NONE);
    push_u64_le(&mut out, source_job_id);
    push_bytes(&mut out, body);
    out
}

/// Wraps a protobuf `body` behind the protobuf `header` and the flagged tag of
/// `msg_type`. Fails exactly when the header length does not fit in 32 bits.
pub fn encode_proto(msg_type: u32, header: &[u8], body: &[u8]) -> (r: Result<Vec<u8>, EncodeError>)
    ensures
        r is Ok <==> header@.len() <= u32::MAX,
        r matches Ok(v) ==> v@ == proto_envelope(msg_type, header@, body@),
        r matches Err(e) ==> e == EncodeError::HeaderTooLong,
        r is Ok && msg_type & PROTO_FLAG == 0 ==> u32_from_le(r->Ok_0@.subrange(0, 4))
            & !PROTO_FLAG == msg_type,
{
    if header.len() <= 0xffff_ffffusize && msg_type & PROTO_FLAG == 0 {
        proof {
            lemma_proto_tag_recovered(msg_type, header@, body@);
        }
    }
    if header.len() > 0xffff_ffffusize {
        return Err(EncodeError::HeaderTooLong);
    }
    let mut out: Vec<u8> = Vec::new();
    push_u32_le(&mut out, msg_type | PROTO_FLAG);
    push_u32_le(&mut out, header.len() as u32);
    push_bytes(&mut out, header);
    push_bytes(&mut out, body);
    Ok(out)
}

/// A raw envelope is the 18-byte header followed by the body; its first
/// 18 bytes decode to version 1, no target job, and the source job.
pub proof fn lemma_raw_envelope_layout(source_job_id: u64, body: Seq<u8>)
    ensures
        raw_envelope(source_job_id, body).len() == RAW_HEADER_LEN + body.len(),
        u16_from_le(raw_envelope(source_job_id, body).subrange(0, 2)) == RAW_VERSION,
        u64_from_le(raw_envelope(source_job_id, body).subrange(2, 10)) == JOBID_NONE,
        u64_from_le(raw_envelope(source_job_id, body).subrange(10, 18)) == source_job_id,
        raw_envelope(source_job_id, body).subrange(18, 18 + body.len() as int) == body,
{
    let e = raw_envelope(source_job_id, body);
    lemma_u16_round_trip(RAW_VERSION);
    lemma_u64_round_trip(JOBID_NONE);
    lemma_u64_round_trip(source_job_id);
    assert(e.subrange(0, 2) =~= u16_le(RAW_VERSION));
    assert(e.subrange(2, 10) =~= u64_le(JOBID_NONE));
    assert(e.subrange(10, 18) =~= u64_le(source_job_id));
    assert(e.subrange(18, 18 + body.len() as int) =~= body);
}

/// Masking the protobuf flag out of the first four bytes of a protobuf
/// envelope gives back the message tag, and the flag itself is set.
pub proof fn lemma_proto_tag_recovered(msg_type: u32, header: Seq<u8>, body: Seq<u8>)
    requires
        msg_type & PROTO_FLAG == 0,
        header.len() <= u32::MAX,
    ensures
        u32_from_le(proto_envelope(msg_type, header, body).subrange(0, 4)) & !PROTO_FLAG
            == msg_type,
        u32_from_le(proto_envelope(msg_type, header, body).subrange(0, 4)) & PROTO_FLAG
            == PROTO_FLAG,
        u32_from_le(proto_envelope(msg_type, header, body).subrange(4, 8)) == header.len(),
        proto_envelope(msg_type, header, body).len() == 8 + header.len() + body.len(),
{
    let e = proto_envelope(msg_type, header, body);
    let t = msg_type | PROTO_FLAG;
    lemma_u32_round_trip(t);
    lemma_u32_round_trip(header.len() as u32);
    assert(e.subrange(0, 4) =~= u32_le(t));
    assert(e.subrange(4, 8) =~= u32_le(header.len() as u32));
    assert((msg_type | 0x8000_0000u32) & !0x8000_0000u32 == msg_type) by (bit_vector)
        requires
            msg_type & 0x8000_0000u32 == 0,
    ;
    assert((msg_type | 0x8000_0000u32) & 0x8000_0000u32 == 0x8000_0000u32) by (bit_vector);
}

/// Two raw envelopes of one body sent as different jobs differ only in the
/// source job field, bytes 10 to 17.
pub proof fn lemma_raw_envelopes_differ_only_in_source(first: u64, second: u64, body: Seq<u8>)
    ensures
        raw_envelope(first, body).len() == raw_envelope(second, body).len(),
        forall|i: int|
            0 <= i < raw_envelope(first, body).len() && !(10 <= i < 18) ==> raw_envelope(
                first,
                body,
            )[i] == #[trigger] raw_envelope(second, body)[i],
        u64_from_le(raw_envelope(first, body).subrange(10, 18)) == first,
        u64_from_le(raw_envelope(second, body).subrange(10, 18)) == second,
{
    lemma_raw_envelope_layout(first, body);
    lemma_raw_envelope_layout(second, body);
}

} // verus!
