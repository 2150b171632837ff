//! Wire codec for the command envelope.
//!
//! One frame on the stream is one encoded `Envelope`: a tag/length-delimited
//! binary layout in the usual varint style. Field 1 carries the correlation
//! token as a varint; the payload is a one-of: field 2 is a `Target` message
//! (throttle `x` in its field 1, steering `roll` in its field 2, both signed
//! 32-bit values carried as sign-extended 64-bit varints), field 3 is an
//! empty acknowledgement message. The encoder always writes the token first
//! and exactly one payload field; the decoder rejects anything else as
//! malformed. This layout is the hard compatibility boundary between the two
//! ends: both peers must produce and accept it byte for byte.

use vstd::prelude::*;

verus! {

/// Tag byte of the correlation token field (field 1, varint).
pub const TAG_SYNC: u8 = 0x08;

/// Tag byte of the target payload (field 2, length-delimited).
pub const TAG_TARGET: u8 = 0x12;

/// Tag byte of the acknowledgement payload (field 3, length-delimited).
pub const TAG_ACK: u8 = 0x1a;

/// Tag byte of the throttle value inside a target (field 1, varint).
pub const TAG_X: u8 = 0x08;

/// Tag byte of the steering value inside a target (field 2, varint).
pub const TAG_ROLL: u8 = 0x10;

/// The payload of one envelope: either a fresh motion target (also used,
/// with the arbitrated values, as the vehicle's motion report) or an empty
/// acknowledgement.
#[derive(Clone, Copy, Debug, PartialEq, Eq, Structural)]
pub enum Payload {
    /// A throttle/steering target, or the echoed post-arbitration motion.
    Target { x: i32, roll: i32 },
    /// Acknowledgement carrying no new command data.
    Ack,
}

/// The unit exchanged over the stream: a correlation token and a payload.
/// A vehicle report answers a command by echoing its `sync` token exactly.
#[derive(Clone, Copy, Debug, PartialEq, Eq, Structural)]
pub struct Envelope {
    pub sync: u64,
    pub payload: Payload,
}

/// Decoding failure: the bytes do not parse as a well-formed envelope.
#[derive(Clone, Copy, Debug, PartialEq, Eq, Structural)]
pub enum CodecError {
    MalformedEnvelope,
}

/// Little-endian base-128 encoding of `v`: each byte holds seven bits, the
/// high bit marks a continuation.
pub open spec fn spec_varint(v: nat) -> Seq<u8>
    decreases v,
{
    if v < 128 {
        seq![v as u8]
    } else {
        seq![(v % 128 + 128) as u8] + spec_varint(v / 128)
    }
}

/// 128 to the power `k`: the bound under which a varint fits in `k` bytes.
pub open spec fn pow128(k: nat) -> nat
    decreases k,
{
    if k == 0 {
        1
    } else {
        128 * pow128((k - 1) as nat)
    }
}

proof fn lemma_varint_len_pow(v: nat, k: nat)
    requires
        1 <= k,
        v < pow128(k),
    ensures
        spec_varint(v).len() <= k,
    decreases k,
{
    if v < 128 {
    } else {
        assert(pow128(1) == 128 * pow128(0));
        if k == 1 {
            assert(false);
        }
        assert(pow128(k) == 128 * pow128((k - 1) as nat));
        assert(v == 128 * (v / 128) + v % 128) by {
            vstd::arithmetic::div_mod::lemma_fundamental_div_mod(v as int, 128);
        }
        assert(v / 128 < pow128((k - 1) as nat));
        lemma_varint_len_pow(v / 128, (k - 1) as nat);
    }
}

/// The varint of any 64-bit value takes at most ten bytes.
proof fn lemma_varint_len10(v: nat)
    requires
        v < 0x1_0000_0000_0000_0000,
    ensures
        spec_varint(v).len() <= 10,
{
    reveal_with_fuel(pow128, 11);
    assert(pow128(0) == 1);
    assert(pow128(1) == 128);
    assert(pow128(2) == 0x4000);
    assert(pow128(3) == 0x20_0000);
    assert(pow128(4) == 0x1000_0000);
    assert(pow128(5) == 0x8_0000_0000);
    assert(pow128(6) == 0x400_0000_0000);
    assert(pow128(7) == 0x2_0000_0000_0000);
    assert(pow128(8) == 0x100_0000_0000_0000);
    assert(pow128(9) == 0x8000_0000_0000_0000);
    assert(pow128(10) == 0x40_0000_0000_0000_0000);
    lemma_varint_len_pow(v, 10);
}

/// The unsigned 64-bit wire value of a signed 32-bit field: nonnegative
/// values are carried as themselves, negative ones sign-extended.
pub open spec fn spec_i32_wire(x: int) -> nat {
    if x >= 0 {
        x as nat
    } else {
        (x + 0x1_0000_0000_0000_0000) as nat
    }
}

/// The body of an encoded target payload: the two signed fields, each a
/// tagged varint.
pub open spec fn spec_encode_target(x: int, roll: int) -> Seq<u8> {
    seq![TAG_X] + spec_varint(spec_i32_wire(x)) + seq![TAG_ROLL] + spec_varint(spec_i32_wire(roll))
}

/// The encoded form of an envelope: the tagged token varint, then exactly
/// one tagged, length-prefixed payload field.
pub open spec fn spec_encode(e: Envelope) -> Seq<u8> {
    seq![TAG_SYNC] + spec_varint(e.sync as nat) + match e.payload {
        Payload::Target { x, roll } => {
            let body = spec_encode_target(x as int, roll as int);
            seq![TAG_TARGET, body.len() as u8] + body
        },
        Payload::Ack => seq![TAG_ACK, 0u8],
    }
}

fn push_varint(out: &mut Vec<u8>, v: u64)
    ensures
        final(out)@ == old(out)@ + spec_varint(v as nat),
    decreases v,
{
    if v < 128 {
        out.push(v as u8);
    } else {
        out.push((v % 128 + 128) as u8);
        push_varint(out, v / 128);
        assert(out@ =~= old(out)@ + spec_varint(v as nat));
    }
}

fn i32_wire(x: i32) -> (v: u64)
    ensures
        v as nat == spec_i32_wire(x as int),
{
    if x >= 0 {
        x as u64
    } else {
        let m = (-(x as i64)) as u64;
        (u64::MAX - m) + 1
    }
}

fn encode_target_body(x: i32, roll: i32) -> (body: Vec<u8>)
    ensures
        body@ == spec_encode_target(x as int, roll as int),
        body@.len() <= 22,
{
    let mut body: Vec<u8> = Vec::new();
    body.push(TAG_X);
    push_varint(&mut body, i32_wire(x));
    body.push(TAG_ROLL);
    push_varint(&mut body, i32_wire(roll));
    proof {
        lemma_varint_len10(spec_i32_wire(x as int));
        lemma_varint_len10(spec_i32_wire(roll as int));
        assert(body@ =~= spec_encode_target(x as int, roll as int));
    }
    body
}

/// Encodes `e` into the fixed wire layout. Pure transform: the bytes are a
/// function of the envelope alone.
pub fn encode(e: &Envelope) -> (out: Vec<u8>)
    ensures
        out@ == spec_encode(*e),
{
    let mut out: Vec<u8> = Vec::new();
    out.push(TAG_SYNC);
    push_varint(&mut out, e.sync);
    match e.payload {
        Payload::Target { x, roll } => {
            let mut body = encode_target_body(x, roll);
            out.push(TAG_TARGET);
            out.push(body.len() as u8);
            out.append(&mut body);
            proof {
                assert(out@ =~= spec_encode(*e));
            }
        },
        Payload::Ack => {
            out.push(TAG_ACK);
            out.push(0);
            proof {
                assert(out@ =~= spec_encode(*e));
            }
        },
    }
    out
}

/// Parses one varint at the head of `s`: the value (as an unbounded
/// natural, so that oversized encodings are still given a meaning) and the
/// number of bytes consumed; nothing if the bytes run out mid-varint.
pub open spec fn spec_parse_varint(s: Seq<u8>) -> Option<(nat, int)>
    decreases s.len(),
{
    if s.len() == 0 {
        None
    } else if s[0] < 128 {
        Some((s[0] as nat, 1))
    } else {
        match spec_parse_varint(s.drop_first()) {
            Some((v, n)) => Some(((s[0] - 128 + 128 * v) as nat, n + 1)),
            None => None,
        }
    }
}

proof fn lemma_parse_varint_bounds(s: Seq<u8>)
    ensures
        spec_parse_varint(s) matches Some((v, n)) ==> 1 <= n <= s.len(),
    decreases s.len(),
{
    if s.len() != 0 && s[0] >= 128 {
        lemma_parse_varint_bounds(s.drop_first());
    }
}

/// The signed 32-bit value a 64-bit wire value stands for, if it is the
/// sign extension of one; anything else does not name a signed field.
pub open spec fn spec_wire_i32(v: nat) -> Option<int> {
    if v < 0x8000_0000 {
        Some(v as int)
    } else if 0xffff_ffff_8000_0000 <= v < 0x1_0000_0000_0000_0000 {
        Some(v - 0x1_0000_0000_0000_0000)
    } else {
        None
    }
}

/// Parses the body of a target payload: the two tagged signed varints, and
/// nothing after them.
pub open spec fn spec_parse_target(s: Seq<u8>) -> Option<(int, int)> {
    if s.len() < 1 || s[0] != TAG_X {
        None
    } else {
        match spec_parse_varint(s.skip(1)) {
            None => None,
            Some((vx, nx)) => match spec_wire_i32(vx) {
                None => None,
                Some(x) => {
                    let i = 1 + nx;
                    if i >= s.len() || s[i] != TAG_ROLL {
                        None
                    } else {
                        match spec_parse_varint(s.skip(i + 1)) {
                            None => None,
                            Some((vr, nr)) => match spec_wire_i32(vr) {
                                None => None,
                                Some(roll) => if i + 1 + nr == s.len() {
                                    Some((x, roll))
                                } else {
                                    None
                                },
                            },
                        }
                    }
                },
            },
        }
    }
}

/// Parses one frame: the tagged token varint, then exactly one payload
/// field, then the end of the frame. Anything else is malformed: a missing
/// or misplaced token field, a truncated varint or length, a payload tag
/// beyond the two defined, or trailing bytes.
pub open spec fn spec_decode(s: Seq<u8>) -> Option<Envelope> {
    if s.len() < 1 || s[0] != TAG_SYNC {
        None
    } else {
        match spec_parse_varint(s.skip(1)) {
            None => None,
            Some((vs, ns)) => {
                if vs >= 0x1_0000_0000_0000_0000 {
                    None
                } else {
                    let i = 1 + ns;
                    if i + 2 > s.len() {
                        None
                    } else if s[i] == TAG_TARGET {
                        let l = s[i + 1] as int;
                        if l >= 128 || i + 2 + l != s.len() {
                            None
                        } else {
                            match spec_parse_target(s.skip(i + 2)) {
                                None => None,
                                Some((x, roll)) => Some(
                                    Envelope {
                                        sync: vs as u64,
                                        payload: Payload::Target { x: x as i32, roll: roll as i32 },
                                    },
                                ),
                            }
                        }
                    } else if s[i] == TAG_ACK {
                        if s[i + 1] == 0 && i + 2 == s.len() {
                            Some(Envelope { sync: vs as u64, payload: Payload::Ack })
                        } else {
                            None
                        }
                    } else {
                        None
                    }
                }
            },
        }
    }
}

fn parse_varint(s: &Vec<u8>, i: usize) -> (r: Option<(u64, usize)>)
    requires
        i <= s.len(),
    ensures
        match r {
            Some(p) => {
                &&& spec_parse_varint(s@.skip(i as int)) == Some((p.0 as nat, p.1 - i as int))
                &&& i < p.1 <= s.len()
            },
            None => !(spec_parse_varint(s@.skip(i as int)) matches Some((v, _))
                && v < 0x1_0000_0000_0000_0000),
        },
    decreases s.len() - i,
{
    if i == s.len() {
        return None;
    }
    let b = s[i];
    proof {
        assert(s@.skip(i as int)[0] == b);
    }
    if b < 128 {
        Some((b as u64, i + 1))
    } else {
        proof {
            assert(s@.skip(i as int).drop_first() =~= s@.skip(i as int + 1));
        }
        match parse_varint(s, i + 1) {
            None => None,
            Some((v, j)) => {
                if v >= 0x0200_0000_0000_0000 {
                    None
                } else {
                    Some(((b - 128) as u64 + 128 * v, j))
                }
            },
        }
    }
}

fn wire_to_i32(v: u64) -> (r: Option<i32>)
    ensures
        match spec_wire_i32(v as nat) {
            Some(x) => r matches Some(xr) && xr as int == x,
            None => r is None,
        },
{
    if v < 0x8000_0000 {
        Some(v as i32)
    } else if v >= 0xffff_ffff_8000_0000 {
        let m = (u64::MAX - v) + 1;
        Some((-(m as i64)) as i32)
    } else {
        None
    }
}

fn parse_target(s: &Vec<u8>, start: usize) -> (r: Option<(i32, i32)>)
    requires
        start <= s.len(),
    ensures
        match r {
            Some(p) => spec_parse_target(s@.skip(start as int)) == Some((p.0 as int, p.1 as int)),
            None => spec_parse_target(s@.skip(start as int)) is None,
        },
{
    let ghost t = s@.skip(start as int);
    if s.len() - start < 1 || s[start] != TAG_X {
        return None;
    }
    proof {
        assert(t[0] == s@[start as int]);
        assert(t.skip(1) =~= s@.skip(start as int + 1));
    }
    let vx = match parse_varint(s, start + 1) {
        None => {
            return None;
        },
        Some(p) => p,
    };
    let x = match wire_to_i32(vx.0) {
        None => {
            return None;
        },
        Some(x) => x,
    };
    let i = vx.1;
    proof {
        if i < s.len() {
            assert(t[i - start] == s@[i as int]);
        }
    }
    if i == s.len() || s[i] != TAG_ROLL {
        return None;
    }
    proof {
        assert(t.skip(i - start + 1) =~= s@.skip(i as int + 1));
    }
    let vr = match parse_varint(s, i + 1) {
        None => {
            return None;
        },
        Some(p) => p,
    };
    let roll = match wire_to_i32(vr.0) {
        None => {
            return None;
        },
        Some(r) => r,
    };
    if vr.1 == s.len() {
        Some((x, roll))
    } else {
        None
    }
}

/// Decodes one frame. Succeeds exactly on the byte sequences the fixed
/// layout admits and returns the envelope they spell; every other input
/// fails with `MalformedEnvelope`.
pub fn decode(s: &Vec<u8>) -> (r: Result<Envelope, CodecError>)
    ensures
        match r {
            Ok(e) => spec_decode(s@) == Some(e),
            Err(err) => spec_decode(s@) is None && err == CodecError::MalformedEnvelope,
        },
{
    if s.len() < 1 || s[0] != TAG_SYNC {
        return Err(CodecError::MalformedEnvelope);
    }
    let vs = match parse_varint(s, 1) {
        None => {
            return Err(CodecError::MalformedEnvelope);
        },
        Some(p) => p,
    };
    let sync = vs.0;
    let i = vs.1;
    if s.len() - i < 2 {
        return Err(CodecError::MalformedEnvelope);
    }
    if s[i] == TAG_TARGET {
        let l = s[i + 1];
        if l >= 128 || s.len() - (i + 2) != l as usize {
            return Err(CodecError::MalformedEnvelope);
        }
        match parse_target(s, i + 2) {
            None => Err(CodecError::MalformedEnvelope),
            Some((x, roll)) => Ok(Envelope { sync, payload: Payload::Target { x, roll } }),
        }
    } else if s[i] == TAG_ACK {
        if s[i + 1] == 0 && i + 2 == s.len() {
            Ok(Envelope { sync, payload: Payload::Ack })
        } else {
            Err(CodecError::MalformedEnvelope)
        }
    } else {
        Err(CodecError::MalformedEnvelope)
    }
}

proof fn lemma_varint_round_trip(v: nat, rest: Seq<u8>)
    ensures
        spec_parse_varint(spec_varint(v) + rest) == Some((v, spec_varint(v).len() as int)),
    decreases v,
{
    let e = spec_varint(v);
    if v < 128 {
        assert((e + rest)[0] == v as u8);
    } else {
        assert((e + rest)[0] == (v % 128 + 128) as u8);
        assert((e + rest).drop_first() =~= spec_varint(v / 128) + rest);
        lemma_varint_round_trip(v / 128, rest);
        vstd::arithmetic::div_mod::lemma_fundamental_div_mod(v as int, 128);
    }
}

proof fn lemma_target_round_trip(x: int, roll: int)
    requires
        -0x8000_0000 <= x < 0x8000_0000,
        -0x8000_0000 <= roll < 0x8000_0000,
    ensures
        spec_parse_target(spec_encode_target(x, roll)) == Some((x, roll)),
{
    let wx = spec_i32_wire(x);
    let wr = spec_i32_wire(roll);
    let ex = spec_varint(wx);
    let er = spec_varint(wr);
    let s = spec_encode_target(x, roll);
    assert(s[0] == TAG_X);
    assert(s.skip(1) =~= ex + (seq![TAG_ROLL] + er));
    lemma_varint_round_trip(wx, seq![TAG_ROLL] + er);
    let i = 1 + ex.len() as int;
    assert(s[i] == TAG_ROLL);
    assert(s.skip(i + 1) =~= er + Seq::<u8>::empty());
    lemma_varint_round_trip(wr, Seq::<u8>::empty());
    assert(spec_wire_i32(wx) == Some(x));
    assert(spec_wire_i32(wr) == Some(roll));
    assert(i + 1 + er.len() as int == s.len() as int);
}

/// Round-trip law of the codec: decoding an encoded envelope yields that
/// envelope back, for every envelope value.
pub proof fn lemma_round_trip(e: Envelope)
    ensures
        spec_decode(spec_encode(e)) == Some(e),
{
    let es = spec_varint(e.sync as nat);
    let s = spec_encode(e);
    let i = 1 + es.len() as int;
    match e.payload {
        Payload::Target { x, roll } => {
            lemma_varint_len10(spec_i32_wire(x as int));
            lemma_varint_len10(spec_i32_wire(roll as int));
            let body = spec_encode_target(x as int, roll as int);
            let hdr = seq![TAG_TARGET, body.len() as u8];
            assert(s[0] == TAG_SYNC);
            assert(s.skip(1) =~= es + (hdr + body));
            lemma_varint_round_trip(e.sync as nat, hdr + body);
            assert(s[i] == TAG_TARGET);
            assert(s[i + 1] == body.len() as u8);
            assert(s.skip(i + 2) =~= body);
            lemma_target_round_trip(x as int, roll as int);
            assert(spec_decode(s) == Some(e));
        },
        Payload::Ack => {
            assert(s[0] == TAG_SYNC);
            assert(s.skip(1) =~= es + seq![TAG_ACK, 0u8]);
            lemma_varint_round_trip(e.sync as nat, seq![TAG_ACK, 0u8]);
            assert(s[i] == TAG_ACK);
            assert(s[i + 1] == 0);
            assert(spec_decode(s) == Some(e));
        },
    }
}

} // verus!
