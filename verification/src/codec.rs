//! Wire codec: serialize and deserialize the four message variants.
//!
//! Layout.  A message travels as one frame: an 8-byte big-endian length
//! followed by the payload.  The payload is a one-byte variant tag followed
//! by the variant's body.  Integer fields are 8-byte big-endian; byte-string
//! fields are an 8-byte big-endian length followed by that many bytes.  Tag
//! values are fixed across versions: schema evolution must add new tags, not
//! repurpose old payload shapes.
//!
//! Errors.  `MalformedMessage` reports a violated frame (missing or wrong
//! length prefix, missing or unrecognized tag); `SchemaMismatch` reports a
//! recognized tag whose payload does not have the shape this version
//! understands (truncated body, inconsistent inner length, trailing bytes).

use vstd::prelude::*;

use crate::message::{
    CattleInitialConnect, CattleUpdate, InitialConnectView, Message, MessageType, MessageView,
    UpdateView,
};

verus! {

/// Tag byte of `SendPublicKey`.
pub const TAG_SEND_PUBLIC_KEY: u8 = 0;

/// Tag byte of `RequestUpdate`.
pub const TAG_REQUEST_UPDATE: u8 = 1;

/// Tag byte of `SendUpdate`.
pub const TAG_SEND_UPDATE: u8 = 2;

/// Tag byte of `SendInitialInfo`.
pub const TAG_SEND_INITIAL_INFO: u8 = 3;

/// Why a byte sequence failed to decode.
#[derive(Clone, Copy, Debug, PartialEq, Eq, Structural)]
pub enum CodecError {
    /// The frame itself is broken: wrong framing length, or no known tag.
    MalformedMessage,
    /// A known tag carries a payload shape this version does not understand.
    SchemaMismatch,
}

/// The eight big-endian bytes of `x`.
pub open spec fn be64(x: u64) -> Seq<u8> {
    seq![
        (x >> 56) as u8,
        (x >> 48) as u8,
        (x >> 40) as u8,
        (x >> 32) as u8,
        (x >> 24) as u8,
        (x >> 16) as u8,
        (x >> 8) as u8,
        x as u8,
    ]
}

/// The value whose big-endian bytes are `s`.
pub open spec fn from_be64(s: Seq<u8>) -> u64
    recommends
        s.len() == 8,
{
    ((s[0] as u64) << 56) | ((s[1] as u64) << 48) | ((s[2] as u64) << 40)
        | ((s[3] as u64) << 32) | ((s[4] as u64) << 24) | ((s[5] as u64) << 16)
        | ((s[6] as u64) << 8) | (s[7] as u64)
}

/// Whether a length fits the 8-byte length fields of the wire format.
pub open spec fn fits_u64(n: nat) -> bool {
    n < 0x10000000000000000
}

/// `s` preceded by its length as eight big-endian bytes.
pub open spec fn length_prefixed(s: Seq<u8>) -> Seq<u8>
    recommends
        fits_u64(s.len()),
{
    be64(s.len() as u64) + s
}

/// Body bytes of a `SendUpdate` payload.
pub open spec fn update_bytes(u: UpdateView) -> Seq<u8> {
    be64(u.cpu_utilization) + be64(u.available_memory_bytes)
        + be64(u.available_disk_bytes) + be64(u.running_processes)
        + length_prefixed(u.most_intense_process_name)
        + length_prefixed(u.most_intense_process_owner)
}

/// Body bytes of a `SendInitialInfo` payload.
pub open spec fn initial_bytes(i: InitialConnectView) -> Seq<u8> {
    length_prefixed(i.name) + length_prefixed(i.id) + length_prefixed(i.os_name)
        + length_prefixed(i.os_version) + length_prefixed(i.os_version_long)
        + be64(i.ram_bytes) + be64(i.disk_bytes) + be64(i.cpu_count)
        + length_prefixed(i.cpu_brand) + length_prefixed(i.cpu_name)
        + be64(i.uptime_seconds)
}

/// Payload of a message: its tag byte followed by its body.
pub open spec fn payload_bytes(m: MessageView) -> Seq<u8> {
    match m {
        MessageView::SendPublicKey(k) => seq![TAG_SEND_PUBLIC_KEY] + length_prefixed(k),
        MessageView::RequestUpdate => seq![TAG_REQUEST_UPDATE],
        MessageView::SendUpdate(u) => seq![TAG_SEND_UPDATE] + update_bytes(u),
        MessageView::SendInitialInfo(i) => seq![TAG_SEND_INITIAL_INFO] + initial_bytes(i),
    }
}

/// The full frame of a message: length prefix, then payload.
pub open spec fn encoded_bytes(m: MessageView) -> Seq<u8> {
    length_prefixed(payload_bytes(m))
}

/// Whether every length field of `m` fits the wire format's 8-byte lengths.
/// Every message held in memory satisfies this; only sequences of
/// mathematical length 2^64 or more are excluded.
pub open spec fn message_wf(m: MessageView) -> bool {
    &&& match m {
        MessageView::SendPublicKey(k) => fits_u64(k.len()),
        MessageView::RequestUpdate => true,
        MessageView::SendUpdate(u) => {
            &&& fits_u64(u.most_intense_process_name.len())
            &&& fits_u64(u.most_intense_process_owner.len())
        },
        MessageView::SendInitialInfo(i) => {
            &&& fits_u64(i.name.len())
            &&& fits_u64(i.id.len())
            &&& fits_u64(i.os_name.len())
            &&& fits_u64(i.os_version.len())
            &&& fits_u64(i.os_version_long.len())
            &&& fits_u64(i.cpu_brand.len())
            &&& fits_u64(i.cpu_name.len())
        },
    }
    &&& fits_u64(payload_bytes(m).len())
}

/// Every length a `Vec` can have fits the wire format's 8-byte lengths.
fn note_len(v: &Vec<u8>)
    ensures
        fits_u64(v@.len()),
{
    let _n: usize = v.len();
}

/// Append the eight big-endian bytes of `x`.
fn push_be64(out: &mut Vec<u8>, x: u64)
    ensures
        final(out)@ == old(out)@ + be64(x),
{
    out.push(#[verifier::truncate] ((x >> 56) as u8));
    out.push(#[verifier::truncate] ((x >> 48) as u8));
    out.push(#[verifier::truncate] ((x >> 40) as u8));
    out.push(#[verifier::truncate] ((x >> 32) as u8));
    out.push(#[verifier::truncate] ((x >> 24) as u8));
    out.push(#[verifier::truncate] ((x >> 16) as u8));
    out.push(#[verifier::truncate] ((x >> 8) as u8));
    out.push(#[verifier::truncate] (x as u8));
    assert(out@ =~= old(out)@ + be64(x));
}

/// Append a copy of `data`.
fn push_bytes(out: &mut Vec<u8>, data: &Vec<u8>)
    ensures
        final(out)@ == old(out)@ + data@,
{
    let n: usize = data.len();
    let mut i: usize = 0;
    while i < n
        invariant
            i <= n,
            n == data@.len(),
            out@ == old(out)@ + data@.take(i as int),
        decreases n - i,
    {
        out.push(data[i]);
        assert(out@ =~= old(out)@ + data@.take(i as int + 1));
        i = i + 1;
    }
    assert(out@ =~= old(out)@ + data@);
}

/// Append `data` with its 8-byte big-endian length prefix.
fn push_block(out: &mut Vec<u8>, data: &Vec<u8>)
    ensures
        final(out)@ == old(out)@ + length_prefixed(data@),
{
    push_be64(out, data.len() as u64);
    push_bytes(out, data);
    assert(out@ =~= old(out)@ + length_prefixed(data@));
}

/// Append the body of a `SendUpdate` payload.
fn push_update(out: &mut Vec<u8>, u: &CattleUpdate)
    ensures
        final(out)@ == old(out)@ + update_bytes(u@),
{
    push_be64(out, u.cpu_utilization);
    push_be64(out, u.available_memory_bytes);
    push_be64(out, u.available_disk_bytes);
    push_be64(out, u.running_processes);
    push_block(out, &u.most_intense_process_name);
    push_block(out, &u.most_intense_process_owner);
    assert(out@ =~= old(out)@ + update_bytes(u@));
}

/// Append the body of a `SendInitialInfo` payload.
fn push_initial(out: &mut Vec<u8>, i: &CattleInitialConnect)
    ensures
        final(out)@ == old(out)@ + initial_bytes(i@),
{
    push_block(out, &i.name);
    push_block(out, &i.id);
    push_block(out, &i.os_name);
    push_block(out, &i.os_version);
    push_block(out, &i.os_version_long);
    push_be64(out, i.ram_bytes);
    push_be64(out, i.disk_bytes);
    push_be64(out, i.cpu_count);
    push_block(out, &i.cpu_brand);
    push_block(out, &i.cpu_name);
    push_be64(out, i.uptime_seconds);
    assert(out@ =~= old(out)@ + initial_bytes(i@));
}

/// Encode a message as one length-prefixed frame.
/// Never fails for well-formed inputs: total, no panic.
pub fn encode(m: &Message) -> (r: Vec<u8>)
    ensures
        r@ == encoded_bytes(m@),
        message_wf(m@),
{
    let mut payload: Vec<u8> = Vec::new();
    match &m.0 {
        MessageType::SendPublicKey(k) => {
            payload.push(TAG_SEND_PUBLIC_KEY);
            push_block(&mut payload, k);
            note_len(k);
        },
        MessageType::RequestUpdate => {
            payload.push(TAG_REQUEST_UPDATE);
        },
        MessageType::SendUpdate(u) => {
            payload.push(TAG_SEND_UPDATE);
            push_update(&mut payload, u);
            note_len(&u.most_intense_process_name);
            note_len(&u.most_intense_process_owner);
        },
        MessageType::SendInitialInfo(i) => {
            payload.push(TAG_SEND_INITIAL_INFO);
            push_initial(&mut payload, i);
            note_len(&i.name);
            note_len(&i.id);
            note_len(&i.os_name);
            note_len(&i.os_version);
            note_len(&i.os_version_long);
            note_len(&i.cpu_brand);
            note_len(&i.cpu_name);
        },
    }
    assert(payload@ =~= payload_bytes(m@));
    note_len(&payload);
    assert(message_wf(m@));
    let mut out: Vec<u8> = Vec::new();
    push_be64(&mut out, payload.len() as u64);
    push_bytes(&mut out, &payload);
    assert(out@ =~= encoded_bytes(m@));
    out
}

/// Take one 8-byte big-endian integer off the front of `s`.
pub open spec fn take_u64(s: Seq<u8>) -> Option<(u64, Seq<u8>)> {
    if s.len() >= 8 {
        Some((from_be64(s.take(8)), s.skip(8)))
    } else {
        None
    }
}

/// Take one length-prefixed byte string off the front of `s`.
pub open spec fn take_block(s: Seq<u8>) -> Option<(Seq<u8>, Seq<u8>)> {
    match take_u64(s) {
        Some((n, rest)) => {
            if n <= rest.len() {
                Some((rest.take(n as int), rest.skip(n as int)))
            } else {
                None
            }
        },
        None => None,
    }
}

/// Parse the body of a `SendUpdate` payload; `None` is a shape mismatch.
#[verifier::opaque]
pub open spec fn parse_update(body: Seq<u8>) -> Option<UpdateView> {
    match take_u64(body) {
        None => None,
        Some((cpu, r1)) => match take_u64(r1) {
            None => None,
            Some((mem, r2)) => match take_u64(r2) {
                None => None,
                Some((disk, r3)) => match take_u64(r3) {
                    None => None,
                    Some((run, r4)) => match take_block(r4) {
                        None => None,
                        Some((name, r5)) => match take_block(r5) {
                            None => None,
                            Some((owner, r6)) => {
                                if r6.len() == 0 {
                                    Some(UpdateView {
                                        cpu_utilization: cpu,
                                        available_memory_bytes: mem,
                                        available_disk_bytes: disk,
                                        running_processes: run,
                                        most_intense_process_name: name,
                                        most_intense_process_owner: owner,
                                    })
                                } else {
                                    None
                                }
                            },
                        },
                    },
                },
            },
        },
    }
}

/// First half of an initial-info body: the five leading byte-string fields.
#[verifier::opaque]
pub open spec fn parse_initial_front(body: Seq<u8>) -> Option<((Seq<u8>, Seq<u8>, Seq<u8>, Seq<u8>, Seq<u8>), Seq<u8>)> {
    match take_block(body) {
        None => None,
        Some((name, r1)) => match take_block(r1) {
            None => None,
            Some((id, r2)) => match take_block(r2) {
                None => None,
                Some((os_name, r3)) => match take_block(r3) {
                    None => None,
                    Some((os_version, r4)) => match take_block(r4) {
                        None => None,
                        Some((os_version_long, r5)) => Some((
                            (name, id, os_name, os_version, os_version_long),
                            r5,
                        )),
                    },
                },
            },
        },
    }
}

/// Second half of an initial-info body: the numeric and CPU fields, which
/// must consume the rest of the payload exactly.
#[verifier::opaque]
pub open spec fn parse_initial_back(rest: Seq<u8>) -> Option<(u64, u64, u64, Seq<u8>, Seq<u8>, u64)> {
    match take_u64(rest) {
        None => None,
        Some((ram, r6)) => match take_u64(r6) {
            None => None,
            Some((disk, r7)) => match take_u64(r7) {
                None => None,
                Some((cpu_count, r8)) => match take_block(r8) {
                    None => None,
                    Some((cpu_brand, r9)) => match take_block(r9) {
                        None => None,
                        Some((cpu_name, r10)) => match take_u64(r10) {
                            None => None,
                            Some((uptime, r11)) => {
                                if r11.len() == 0 {
                                    Some((ram, disk, cpu_count, cpu_brand, cpu_name, uptime))
                                } else {
                                    None
                                }
                            },
                        },
                    },
                },
            },
        },
    }
}

/// Parse the body of a `SendInitialInfo` payload; `None` is a shape mismatch.
pub open spec fn parse_initial(body: Seq<u8>) -> Option<InitialConnectView> {
    match parse_initial_front(body) {
        None => None,
        Some((f, rest)) => match parse_initial_back(rest) {
            None => None,
            Some(bk) => Some(InitialConnectView {
                name: f.0,
                id: f.1,
                os_name: f.2,
                os_version: f.3,
                os_version_long: f.4,
                ram_bytes: bk.0,
                disk_bytes: bk.1,
                cpu_count: bk.2,
                cpu_brand: bk.3,
                cpu_name: bk.4,
                uptime_seconds: bk.5,
            }),
        },
    }
}

/// Parse a payload: its tag byte, then its body.
pub open spec fn parse_payload(p: Seq<u8>) -> Result<MessageView, CodecError>
    recommends
        p.len() >= 1,
{
    let tag = p[0];
    let body = p.skip(1);
    if tag == TAG_SEND_PUBLIC_KEY {
        match take_block(body) {
            Some((k, rest)) => {
                if rest.len() == 0 {
                    Ok(MessageView::SendPublicKey(k))
                } else {
                    Err(CodecError::SchemaMismatch)
                }
            },
            None => Err(CodecError::SchemaMismatch),
        }
    } else if tag == TAG_REQUEST_UPDATE {
        if body.len() == 0 {
            Ok(MessageView::RequestUpdate)
        } else {
            Err(CodecError::SchemaMismatch)
        }
    } else if tag == TAG_SEND_UPDATE {
        match parse_update(body) {
            Some(u) => Ok(MessageView::SendUpdate(u)),
            None => Err(CodecError::SchemaMismatch),
        }
    } else if tag == TAG_SEND_INITIAL_INFO {
        match parse_initial(body) {
            Some(i) => Ok(MessageView::SendInitialInfo(i)),
            None => Err(CodecError::SchemaMismatch),
        }
    } else {
        Err(CodecError::MalformedMessage)
    }
}

/// What a byte sequence decodes to: the message, or the exact error.
/// The frame is rejected as `MalformedMessage` when it is shorter than its
/// own length prefix, longer (trailing bytes break stream framing), or
/// carries no tag; an unrecognized tag is `MalformedMessage` too.
pub open spec fn decoded_message(b: Seq<u8>) -> Result<MessageView, CodecError> {
    if b.len() < 8 {
        Err(CodecError::MalformedMessage)
    } else {
        let n = from_be64(b.take(8));
        if b.len() - 8 != n {
            Err(CodecError::MalformedMessage)
        } else if n == 0 {
            Err(CodecError::MalformedMessage)
        } else {
            parse_payload(b.skip(8))
        }
    }
}

/// Read the 8-byte big-endian integer at `off`.
fn read_be64(b: &Vec<u8>, off: usize) -> (r: u64)
    requires
        off + 8 <= b@.len(),
    ensures
        r == from_be64(b@.subrange(off as int, off as int + 8)),
{
    let total: usize = b.len();
    let r: u64 = ((b[off] as u64) << 56) | ((b[off + 1] as u64) << 48)
        | ((b[off + 2] as u64) << 40) | ((b[off + 3] as u64) << 32)
        | ((b[off + 4] as u64) << 24) | ((b[off + 5] as u64) << 16)
        | ((b[off + 6] as u64) << 8) | (b[off + 7] as u64);
    proof {
        let s = b@.subrange(off as int, off as int + 8);
        assert(s[0] == b@[off as int]);
        assert(s[1] == b@[off as int + 1]);
        assert(s[2] == b@[off as int + 2]);
        assert(s[3] == b@[off as int + 3]);
        assert(s[4] == b@[off as int + 4]);
        assert(s[5] == b@[off as int + 5]);
        assert(s[6] == b@[off as int + 6]);
        assert(s[7] == b@[off as int + 7]);
    }
    r
}

/// Copy the `n` bytes of `b` that start at `off`.
fn read_bytes(b: &Vec<u8>, off: usize, n: usize) -> (r: Vec<u8>)
    requires
        off + n <= b@.len(),
    ensures
        r@ == b@.subrange(off as int, off as int + n as int),
{
    let total: usize = b.len();
    let mut out: Vec<u8> = Vec::new();
    let mut i: usize = 0;
    while i < n
        invariant
            i <= n,
            off + n <= b@.len(),
            total == b@.len(),
            out@ == b@.subrange(off as int, off as int + i as int),
        decreases n - i,
    {
        out.push(b[off + i]);
        assert(out@ =~= b@.subrange(off as int, off as int + i as int + 1));
        i = i + 1;
    }
    out
}

/// Consume one 8-byte big-endian integer at the cursor, if enough bytes remain.
fn try_take_u64(b: &Vec<u8>, off: &mut usize) -> (r: Option<u64>)
    requires
        *old(off) <= b@.len(),
    ensures
        match take_u64(b@.skip(*old(off) as int)) {
            Some(p) => {
                &&& r == Some(p.0)
                &&& *final(off) == *old(off) + 8
                &&& *final(off) <= b@.len()
                &&& p.1 == b@.skip(*final(off) as int)
            },
            None => r is None && *final(off) == *old(off),
        },
{
    let ghost rest = b@.skip(*old(off) as int);
    if b.len() - *off < 8 {
        return None;
    }
    let v = read_be64(b, *off);
    proof {
        assert(rest.take(8) =~= b@.subrange(*old(off) as int, *old(off) as int + 8));
        assert(rest.skip(8) =~= b@.skip(*old(off) as int + 8));
    }
    *off = *off + 8;
    Some(v)
}

/// Consume one length-prefixed byte string at the cursor, if its declared
/// length is available.
fn try_take_block(b: &Vec<u8>, off: &mut usize) -> (r: Option<Vec<u8>>)
    requires
        *old(off) <= b@.len(),
    ensures
        match take_block(b@.skip(*old(off) as int)) {
            Some(p) => {
                &&& r matches Some(d) && d@ == p.0
                &&& *final(off) <= b@.len()
                &&& p.1 == b@.skip(*final(off) as int)
            },
            None => r is None,
        },
{
    let n: u64 = match try_take_u64(b, off) {
        Some(v) => v,
        None => {
            return None;
        },
    };
    let avail: usize = b.len() - *off;
    if n > avail as u64 {
        return None;
    }
    let data = read_bytes(b, *off, n as usize);
    proof {
        let rest = b@.skip(*off as int);
        assert(rest.take(n as int) =~= b@.subrange(*off as int, *off as int + n as int));
        assert(rest.skip(n as int) =~= b@.skip(*off as int + n as int));
    }
    *off = *off + n as usize;
    Some(data)
}

/// Parse the body of a `SendUpdate` payload starting at `start`.
fn parse_update_exec(b: &Vec<u8>, start: usize) -> (r: Result<CattleUpdate, CodecError>)
    requires
        start <= b@.len(),
    ensures
        match parse_update(b@.skip(start as int)) {
            Some(u) => r matches Ok(x) && x@ == u,
            None => r == Err::<CattleUpdate, CodecError>(CodecError::SchemaMismatch),
        },
{
    proof {
        reveal(parse_update);
    }
    let mut off: usize = start;
    let cpu: u64 = match try_take_u64(b, &mut off) {
        Some(v) => v,
        None => {
            return Err(CodecError::SchemaMismatch);
        },
    };
    let mem: u64 = match try_take_u64(b, &mut off) {
        Some(v) => v,
        None => {
            return Err(CodecError::SchemaMismatch);
        },
    };
    let disk: u64 = match try_take_u64(b, &mut off) {
        Some(v) => v,
        None => {
            return Err(CodecError::SchemaMismatch);
        },
    };
    let run: u64 = match try_take_u64(b, &mut off) {
        Some(v) => v,
        None => {
            return Err(CodecError::SchemaMismatch);
        },
    };
    let name: Vec<u8> = match try_take_block(b, &mut off) {
        Some(v) => v,
        None => {
            return Err(CodecError::SchemaMismatch);
        },
    };
    let owner: Vec<u8> = match try_take_block(b, &mut off) {
        Some(v) => v,
        None => {
            return Err(CodecError::SchemaMismatch);
        },
    };
    if off != b.len() {
        return Err(CodecError::SchemaMismatch);
    }
    let x = CattleUpdate {
        cpu_utilization: cpu,
        available_memory_bytes: mem,
        available_disk_bytes: disk,
        running_processes: run,
        most_intense_process_name: name,
        most_intense_process_owner: owner,
    };
    assert(parse_update(b@.skip(start as int)) matches Some(u) && x@ =~= u);
    Ok(x)
}

/// Parse the five leading byte-string fields of an initial-info body.
#[verifier::rlimit(60)]
fn parse_initial_front_exec(b: &Vec<u8>, off: &mut usize) -> (r: Option<(Vec<u8>, Vec<u8>, Vec<u8>, Vec<u8>, Vec<u8>)>)
    requires
        *old(off) <= b@.len(),
    ensures
        match parse_initial_front(b@.skip(*old(off) as int)) {
            Some(p) => {
                &&& r matches Some(t) && t.0@ == p.0.0 && t.1@ == p.0.1 && t.2@ == p.0.2
                    && t.3@ == p.0.3 && t.4@ == p.0.4
                &&& *final(off) <= b@.len()
                &&& p.1 == b@.skip(*final(off) as int)
            },
            None => r is None,
        },
{
    proof {
        reveal(parse_initial_front);
    }
    let name: Vec<u8> = match try_take_block(b, off) {
        Some(v) => v,
        None => {
            return None;
        },
    };
    let id: Vec<u8> = match try_take_block(b, off) {
        Some(v) => v,
        None => {
            return None;
        },
    };
    let os_name: Vec<u8> = match try_take_block(b, off) {
        Some(v) => v,
        None => {
            return None;
        },
    };
    let os_version: Vec<u8> = match try_take_block(b, off) {
        Some(v) => v,
        None => {
            return None;
        },
    };
    let os_version_long: Vec<u8> = match try_take_block(b, off) {
        Some(v) => v,
        None => {
            return None;
        },
    };
    Some((name, id, os_name, os_version, os_version_long))
}

/// Parse the numeric and CPU fields that end an initial-info body.
#[verifier::rlimit(60)]
fn parse_initial_back_exec(b: &Vec<u8>, off: &mut usize) -> (r: Option<(u64, u64, u64, Vec<u8>, Vec<u8>, u64)>)
    requires
        *old(off) <= b@.len(),
    ensures
        match parse_initial_back(b@.skip(*old(off) as int)) {
            Some(p) => {
                &&& r matches Some(t) && t.0 == p.0 && t.1 == p.1 && t.2 == p.2
                    && t.3@ == p.3 && t.4@ == p.4 && t.5 == p.5
            },
            None => r is None,
        },
{
    proof {
        reveal(parse_initial_back);
    }
    let ram: u64 = match try_take_u64(b, off) {
        Some(v) => v,
        None => {
            return None;
        },
    };
    let disk: u64 = match try_take_u64(b, off) {
        Some(v) => v,
        None => {
            return None;
        },
    };
    let cpu_count: u64 = match try_take_u64(b, off) {
        Some(v) => v,
        None => {
            return None;
        },
    };
    let cpu_brand: Vec<u8> = match try_take_block(b, off) {
        Some(v) => v,
        None => {
            return None;
        },
    };
    let cpu_name: Vec<u8> = match try_take_block(b, off) {
        Some(v) => v,
        None => {
            return None;
        },
    };
    let uptime: u64 = match try_take_u64(b, off) {
        Some(v) => v,
        None => {
            return None;
        },
    };
    if *off != b.len() {
        return None;
    }
    Some((ram, disk, cpu_count, cpu_brand, cpu_name, uptime))
}

/// Parse the body of a `SendInitialInfo` payload starting at `start`.
fn parse_initial_exec(b: &Vec<u8>, start: usize) -> (r: Result<CattleInitialConnect, CodecError>)
    requires
        start <= b@.len(),
    ensures
        match parse_initial(b@.skip(start as int)) {
            Some(i) => r matches Ok(x) && x@ == i,
            None => r == Err::<CattleInitialConnect, CodecError>(CodecError::SchemaMismatch),
        },
{
    let mut off: usize = start;
    let front = match parse_initial_front_exec(b, &mut off) {
        Some(v) => v,
        None => {
            return Err(CodecError::SchemaMismatch);
        },
    };
    let back = match parse_initial_back_exec(b, &mut off) {
        Some(v) => v,
        None => {
            return Err(CodecError::SchemaMismatch);
        },
    };
    let (name, id, os_name, os_version, os_version_long) = front;
    let (ram, disk, cpu_count, cpu_brand, cpu_name, uptime) = back;
    let x = CattleInitialConnect {
        name: name,
        id: id,
        os_name: os_name,
        os_version: os_version,
        os_version_long: os_version_long,
        ram_bytes: ram,
        disk_bytes: disk,
        cpu_count: cpu_count,
        cpu_brand: cpu_brand,
        cpu_name: cpu_name,
        uptime_seconds: uptime,
    };
    assert(parse_initial(b@.skip(start as int)) matches Some(i) && x@ =~= i);
    Ok(x)
}

proof fn lemma_from_be64_of_be64(x: u64)
    ensures
        from_be64(be64(x)) == x,
{
    let s = be64(x);
    assert(((((x >> 56) as u8) as u64) << 56) | ((((x >> 48) as u8) as u64) << 48)
        | ((((x >> 40) as u8) as u64) << 40) | ((((x >> 32) as u8) as u64) << 32)
        | ((((x >> 24) as u8) as u64) << 24) | ((((x >> 16) as u8) as u64) << 16)
        | ((((x >> 8) as u8) as u64) << 8) | (((x as u8)) as u64) == x) by (bit_vector);
}

proof fn lemma_take_u64_prefix(x: u64, rest: Seq<u8>)
    ensures
        take_u64(be64(x) + rest) == Some((x, rest)),
{
    let s = be64(x) + rest;
    assert(s.take(8) =~= be64(x));
    assert(s.skip(8) =~= rest);
    lemma_from_be64_of_be64(x);
}

proof fn lemma_take_block_prefix(d: Seq<u8>, rest: Seq<u8>)
    requires
        fits_u64(d.len()),
    ensures
        take_block(length_prefixed(d) + rest) == Some((d, rest)),
{
    let s = length_prefixed(d) + rest;
    assert(s =~= be64(d.len() as u64) + (d + rest));
    lemma_take_u64_prefix(d.len() as u64, d + rest);
    let n = d.len() as u64;
    assert((d + rest).take(n as int) =~= d);
    assert((d + rest).skip(n as int) =~= rest);
}

#[verifier::rlimit(60)]
proof fn lemma_parse_update_of_bytes(u: UpdateView)
    requires
        fits_u64(u.most_intense_process_name.len()),
        fits_u64(u.most_intense_process_owner.len()),
    ensures
        parse_update(update_bytes(u)) == Some(u),
{
    reveal(parse_update);
    let empty = Seq::<u8>::empty();
    let rest5 = length_prefixed(u.most_intense_process_owner);
    let rest4 = length_prefixed(u.most_intense_process_name) + rest5;
    let rest3 = be64(u.running_processes) + rest4;
    let rest2 = be64(u.available_disk_bytes) + rest3;
    let rest1 = be64(u.available_memory_bytes) + rest2;
    assert(update_bytes(u) =~= be64(u.cpu_utilization) + rest1);
    lemma_take_u64_prefix(u.cpu_utilization, rest1);
    lemma_take_u64_prefix(u.available_memory_bytes, rest2);
    lemma_take_u64_prefix(u.available_disk_bytes, rest3);
    lemma_take_u64_prefix(u.running_processes, rest4);
    lemma_take_block_prefix(u.most_intense_process_name, rest5);
    assert(rest5 =~= length_prefixed(u.most_intense_process_owner) + empty);
    lemma_take_block_prefix(u.most_intense_process_owner, empty);
    assert(parse_update(update_bytes(u)) matches Some(v) && v =~= u);
}

#[verifier::rlimit(60)]
proof fn lemma_parse_initial_front_of_bytes(i: InitialConnectView, rest: Seq<u8>)
    requires
        fits_u64(i.name.len()),
        fits_u64(i.id.len()),
        fits_u64(i.os_name.len()),
        fits_u64(i.os_version.len()),
        fits_u64(i.os_version_long.len()),
    ensures
        parse_initial_front(
            length_prefixed(i.name) + length_prefixed(i.id) + length_prefixed(i.os_name)
                + length_prefixed(i.os_version) + length_prefixed(i.os_version_long) + rest,
        ) == Some(((i.name, i.id, i.os_name, i.os_version, i.os_version_long), rest)),
{
    reveal(parse_initial_front);
    let r4 = length_prefixed(i.os_version_long) + rest;
    let r3 = length_prefixed(i.os_version) + r4;
    let r2 = length_prefixed(i.os_name) + r3;
    let r1 = length_prefixed(i.id) + r2;
    let body = length_prefixed(i.name) + length_prefixed(i.id) + length_prefixed(i.os_name)
        + length_prefixed(i.os_version) + length_prefixed(i.os_version_long) + rest;
    assert(body =~= length_prefixed(i.name) + r1);
    lemma_take_block_prefix(i.name, r1);
    lemma_take_block_prefix(i.id, r2);
    lemma_take_block_prefix(i.os_name, r3);
    lemma_take_block_prefix(i.os_version, r4);
    lemma_take_block_prefix(i.os_version_long, rest);
}

#[verifier::spinoff_prover]
#[verifier::rlimit(100)]
proof fn lemma_parse_initial_back_of_bytes(i: InitialConnectView)
    requires
        fits_u64(i.cpu_brand.len()),
        fits_u64(i.cpu_name.len()),
    ensures
        parse_initial_back(
            be64(i.ram_bytes) + be64(i.disk_bytes) + be64(i.cpu_count)
                + length_prefixed(i.cpu_brand) + length_prefixed(i.cpu_name)
                + be64(i.uptime_seconds),
        ) == Some((i.ram_bytes, i.disk_bytes, i.cpu_count, i.cpu_brand, i.cpu_name, i.uptime_seconds)),
{
    reveal(parse_initial_back);
    let empty = Seq::<u8>::empty();
    let r10 = be64(i.uptime_seconds);
    let r9 = length_prefixed(i.cpu_name) + r10;
    let r8 = length_prefixed(i.cpu_brand) + r9;
    let r7 = be64(i.cpu_count) + r8;
    let r6 = be64(i.disk_bytes) + r7;
    let body = be64(i.ram_bytes) + be64(i.disk_bytes) + be64(i.cpu_count)
        + length_prefixed(i.cpu_brand) + length_prefixed(i.cpu_name) + be64(i.uptime_seconds);
    assert(body =~= be64(i.ram_bytes) + r6);
    lemma_take_u64_prefix(i.ram_bytes, r6);
    assert(take_u64(body) == Some((i.ram_bytes, r6)));
    lemma_take_u64_prefix(i.disk_bytes, r7);
    assert(take_u64(r6) == Some((i.disk_bytes, r7)));
    lemma_take_u64_prefix(i.cpu_count, r8);
    assert(take_u64(r7) == Some((i.cpu_count, r8)));
    lemma_take_block_prefix(i.cpu_brand, r9);
    assert(take_block(r8) == Some((i.cpu_brand, r9)));
    lemma_take_block_prefix(i.cpu_name, r10);
    assert(take_block(r9) == Some((i.cpu_name, r10)));
    assert(r10 =~= be64(i.uptime_seconds) + empty);
    lemma_take_u64_prefix(i.uptime_seconds, empty);
    assert(take_u64(r10) == Some((i.uptime_seconds, empty)));
    assert(empty.len() == 0);
}

proof fn lemma_parse_initial_of_bytes(i: InitialConnectView)
    requires
        fits_u64(i.name.len()),
        fits_u64(i.id.len()),
        fits_u64(i.os_name.len()),
        fits_u64(i.os_version.len()),
        fits_u64(i.os_version_long.len()),
        fits_u64(i.cpu_brand.len()),
        fits_u64(i.cpu_name.len()),
    ensures
        parse_initial(initial_bytes(i)) == Some(i),
{
    let back = be64(i.ram_bytes) + be64(i.disk_bytes) + be64(i.cpu_count)
        + length_prefixed(i.cpu_brand) + length_prefixed(i.cpu_name) + be64(i.uptime_seconds);
    assert(initial_bytes(i) =~= length_prefixed(i.name) + length_prefixed(i.id)
        + length_prefixed(i.os_name) + length_prefixed(i.os_version)
        + length_prefixed(i.os_version_long) + back);
    lemma_parse_initial_front_of_bytes(i, back);
    lemma_parse_initial_back_of_bytes(i);
    assert(parse_initial(initial_bytes(i)) matches Some(v) && v =~= i);
}

/// Round trip: decoding an encoded message yields that message back,
/// for every message variant whose length fields fit the wire format —
/// which every message held in memory does.
pub proof fn lemma_decode_of_encode(m: MessageView)
    requires
        message_wf(m),
    ensures
        decoded_message(encoded_bytes(m)) == Ok::<MessageView, CodecError>(m),
{
    let p = payload_bytes(m);
    let b = encoded_bytes(m);
    assert(b.take(8) =~= be64(p.len() as u64));
    assert(b.skip(8) =~= p);
    lemma_from_be64_of_be64(p.len() as u64);
    let empty = Seq::<u8>::empty();
    match m {
        MessageView::SendPublicKey(k) => {
            assert(p[0] == TAG_SEND_PUBLIC_KEY);
            assert(p.skip(1) =~= length_prefixed(k) + empty);
            lemma_take_block_prefix(k, empty);
        },
        MessageView::RequestUpdate => {
            assert(p[0] == TAG_REQUEST_UPDATE);
            assert(p.skip(1).len() == 0);
        },
        MessageView::SendUpdate(u) => {
            assert(p[0] == TAG_SEND_UPDATE);
            assert(p.skip(1) =~= update_bytes(u));
            lemma_parse_update_of_bytes(u);
        },
        MessageView::SendInitialInfo(i) => {
            assert(p[0] == TAG_SEND_INITIAL_INFO);
            assert(p.skip(1) =~= initial_bytes(i));
            lemma_parse_initial_of_bytes(i);
        },
    }
}

/// Decode one length-prefixed frame into a message, or say exactly why not.
/// `MalformedMessage`: bad framing length or no recognized tag.
/// `SchemaMismatch`: recognized tag, but the payload shape is not understood.
#[verifier::rlimit(100)]
pub fn decode(b: &Vec<u8>) -> (r: Result<Message, CodecError>)
    ensures
        match decoded_message(b@) {
            Ok(v) => r matches Ok(m) && m@ == v,
            Err(e) => r == Err::<Message, CodecError>(e),
        },
{
    if b.len() < 8 {
        return Err(CodecError::MalformedMessage);
    }
    let n = read_be64(b, 0);
    proof {
        assert(b@.take(8) =~= b@.subrange(0, 8));
    }
    if n != (b.len() - 8) as u64 {
        return Err(CodecError::MalformedMessage);
    }
    if n == 0 {
        return Err(CodecError::MalformedMessage);
    }
    let tag: u8 = b[8];
    proof {
        let p = b@.skip(8);
        assert(p[0] == b@[8]);
        assert(p.skip(1) =~= b@.skip(9));
    }
    if tag == TAG_SEND_PUBLIC_KEY {
        let mut off: usize = 9;
        match try_take_block(b, &mut off) {
            Some(k) => {
                if off == b.len() {
                    Ok(Message(MessageType::SendPublicKey(k)))
                } else {
                    Err(CodecError::SchemaMismatch)
                }
            },
            None => Err(CodecError::SchemaMismatch),
        }
    } else if tag == TAG_REQUEST_UPDATE {
        if b.len() == 9 {
            Ok(Message(MessageType::RequestUpdate))
        } else {
            Err(CodecError::SchemaMismatch)
        }
    } else if tag == TAG_SEND_UPDATE {
        match parse_update_exec(b, 9) {
            Ok(u) => Ok(Message(MessageType::SendUpdate(u))),
            Err(e) => Err(e),
        }
    } else if tag == TAG_SEND_INITIAL_INFO {
        match parse_initial_exec(b, 9) {
            Ok(i) => Ok(Message(MessageType::SendInitialInfo(i))),
            Err(e) => Err(e),
        }
    } else {
        Err(CodecError::MalformedMessage)
    }
}

} // verus!
