use vstd::prelude::*;
use vstd::utf8::*;

use crate::bytes::{
    extend_bytes, le8, le8_value, lemma_le8_round_trip, lemma_le8_value_round_trip, read_u64_le,
};
use crate::error::PostError;
use crate::message::{
    ClipboardData, Envelope, HeartbeatData, MessageData, MessageType, NodeDiscoveryData, Payload,
    PostMessage, unsigned,
};

verus! {

// ---------------------------------------------------------------------------
// The canonical byte form of an envelope.
//
//   envelope  = version(1) type-tag(1) payload bytes(signature)
//   payload   = 0 str(content) u64(timestamp) str(source) u64(sequence)
//             | 1 str(source) u64(timestamp) bytes(public_key) bytes(signing_public_key)
//             | 2 str(source) u64(timestamp)
//   bytes(b)  = u64(len b) b
//   str(s)    = bytes(utf8 s)
//   u64(x)    = eight little-endian bytes
// ---------------------------------------------------------------------------

/// A length-prefixed byte string.
pub open spec fn enc_bytes(b: Seq<u8>) -> Seq<u8> {
    le8(b.len() as u64) + b
}

/// A length-prefixed UTF-8 string.
pub open spec fn enc_str(s: Seq<char>) -> Seq<u8> {
    enc_bytes(encode_utf8(s))
}

/// The tag of a message type.
pub open spec fn type_tag(t: MessageType) -> u8 {
    match t {
        MessageType::ClipboardUpdate => 0,
        MessageType::NodeDiscovery => 1,
        MessageType::Heartbeat => 2,
    }
}

/// The canonical bytes of a payload.
pub open spec fn enc_payload(p: Payload) -> Seq<u8> {
    match p {
        Payload::Clipboard { content, timestamp, source_node, sequence } => seq![0u8] + enc_str(
            content,
        ) + le8(timestamp) + enc_str(source_node) + le8(sequence),
        Payload::Discovery { source_node, timestamp, public_key, signing_public_key } => seq![1u8]
            + enc_str(source_node) + le8(timestamp) + enc_bytes(public_key) + enc_bytes(
            signing_public_key,
        ),
        Payload::Heartbeat { source_node, timestamp } => seq![2u8] + enc_str(source_node) + le8(
            timestamp,
        ),
    }
}

/// The canonical bytes of an envelope.
pub open spec fn canonical(e: Envelope) -> Seq<u8> {
    seq![e.version, type_tag(e.message_type)] + enc_payload(e.data) + enc_bytes(e.signature)
}

/// The bytes that are signed: the canonical form with the signature cleared.
pub open spec fn signing_bytes(e: Envelope) -> Seq<u8> {
    canonical(unsigned(e))
}

/// Whether an envelope can be represented: discovery keys are 32 bytes.
pub open spec fn well_formed(e: Envelope) -> bool {
    match e.data {
        Payload::Discovery { public_key, signing_public_key, .. } => public_key.len() == 32
            && signing_public_key.len() == 32,
        _ => true,
    }
}

fn push_u64(out: &mut Vec<u8>, x: u64)
    ensures
        final(out)@ == old(out)@ + le8(x),
{
    let b = crate::bytes::u64_le_bytes(x);
    extend_bytes(out, b.as_slice());
}

fn push_bytes(out: &mut Vec<u8>, b: &[u8])
    ensures
        final(out)@ == old(out)@ + enc_bytes(b@),
{
    push_u64(out, b.len() as u64);
    extend_bytes(out, b);
    assert(final(out)@ =~= old(out)@ + enc_bytes(b@));
}

fn push_str(out: &mut Vec<u8>, s: &str)
    ensures
        final(out)@ == old(out)@ + enc_str(s@),
{
    push_bytes(out, s.as_bytes());
}

fn push_payload(out: &mut Vec<u8>, data: &MessageData)
    ensures
        final(out)@ == old(out)@ + enc_payload(data@),
{
    match data {
        MessageData::ClipboardUpdate(d) => {
            out.push(0u8);
            push_str(out, d.content.as_str());
            push_u64(out, d.timestamp);
            push_str(out, d.source_node.as_str());
            push_u64(out, d.sequence);
        },
        MessageData::NodeDiscovery(d) => {
            out.push(1u8);
            push_str(out, d.source_node.as_str());
            push_u64(out, d.timestamp);
            push_bytes(out, d.public_key.as_slice());
            push_bytes(out, d.signing_public_key.as_slice());
        },
        MessageData::Heartbeat(d) => {
            out.push(2u8);
            push_str(out, d.source_node.as_str());
            push_u64(out, d.timestamp);
        },
    }
    assert(final(out)@ =~= old(out)@ + enc_payload(data@));
}

fn message_type_tag(t: MessageType) -> (r: u8)
    ensures
        r == type_tag(t),
{
    match t {
        MessageType::ClipboardUpdate => 0,
        MessageType::NodeDiscovery => 1,
        MessageType::Heartbeat => 2,
    }
}

fn encode_with_signature(message: &PostMessage, signature: &[u8]) -> (r: Vec<u8>)
    ensures
        r@ == canonical(Envelope { signature: signature@, ..message@ }),
{
    let mut out: Vec<u8> = Vec::new();
    out.push(message.version);
    out.push(message_type_tag(message.message_type));
    push_payload(&mut out, &message.data);
    push_bytes(&mut out, signature);
    assert(out@ =~= canonical(Envelope { signature: signature@, ..message@ }));
    out
}

/// The canonical bytes of a message.
pub fn encode_message(message: &PostMessage) -> (r: Vec<u8>)
    ensures
        r@ == canonical(message@),
{
    let r = encode_with_signature(message, message.signature.as_slice());
    assert(Envelope { signature: message.signature@, ..message@ } == message@);
    r
}

/// The bytes that the signature of a message covers.
pub fn message_signing_bytes(message: &PostMessage) -> (r: Vec<u8>)
    ensures
        r@ == signing_bytes(message@),
{
    let empty: Vec<u8> = Vec::new();
    encode_with_signature(message, empty.as_slice())
}

// ---------------------------------------------------------------------------
// Reading the canonical form back.
// ---------------------------------------------------------------------------

/// The integer at `pos`, and the position after it.
pub open spec fn read_u64_spec(b: Seq<u8>, pos: int) -> Option<(u64, int)> {
    if 0 <= pos && pos + 8 <= b.len() {
        Some((le8_value(b.subrange(pos, pos + 8)), pos + 8))
    } else {
        None
    }
}

/// The length-prefixed byte string at `pos`, and the position after it.
pub open spec fn read_bytes_spec(b: Seq<u8>, pos: int) -> Option<(Seq<u8>, int)> {
    match read_u64_spec(b, pos) {
        Some((n, p)) => if n <= b.len() - p {
            Some((b.subrange(p, p + n), p + n))
        } else {
            None
        },
        None => None,
    }
}

/// The length-prefixed 32-byte key at `pos`, and the position after it.
pub open spec fn read_key_spec(b: Seq<u8>, pos: int) -> Option<(Seq<u8>, int)> {
    match read_bytes_spec(b, pos) {
        Some((k, p)) => if k.len() == 32 {
            Some((k, p))
        } else {
            None
        },
        None => None,
    }
}

/// The length-prefixed UTF-8 string at `pos`, and the position after it.
pub open spec fn read_str_spec(b: Seq<u8>, pos: int) -> Option<(Seq<char>, int)> {
    match read_bytes_spec(b, pos) {
        Some((v, p)) => if valid_utf8(v) {
            Some((decode_utf8(v), p))
        } else {
            None
        },
        None => None,
    }
}

/// The payload that starts at `pos`, and the position after it.
pub open spec fn read_payload_spec(b: Seq<u8>, pos: int) -> Option<(Payload, int)> {
    if !(0 <= pos < b.len()) {
        None
    } else if b[pos] == 0 {
        match read_str_spec(b, pos + 1) {
            Some((content, at1)) => match read_u64_spec(b, at1) {
                Some((timestamp, at2)) => match read_str_spec(b, at2) {
                    Some((source_node, at3)) => match read_u64_spec(b, at3) {
                        Some((sequence, at4)) => Some(
                            (Payload::Clipboard { content, timestamp, source_node, sequence }, at4),
                        ),
                        None => None,
                    },
                    None => None,
                },
                None => None,
            },
            None => None,
        }
    } else if b[pos] == 1 {
        match read_str_spec(b, pos + 1) {
            Some((source_node, at1)) => match read_u64_spec(b, at1) {
                Some((timestamp, at2)) => match read_key_spec(b, at2) {
                    Some((public_key, at3)) => match read_key_spec(b, at3) {
                        Some((signing_public_key, at4)) => Some(
                            (
                                Payload::Discovery {
                                    source_node,
                                    timestamp,
                                    public_key,
                                    signing_public_key,
                                },
                                at4,
                            ),
                        ),
                        None => None,
                    },
                    None => None,
                },
                None => None,
            },
            None => None,
        }
    } else if b[pos] == 2 {
        match read_str_spec(b, pos + 1) {
            Some((source_node, at1)) => match read_u64_spec(b, at1) {
                Some((timestamp, at2)) => Some((Payload::Heartbeat { source_node, timestamp }, at2)),
                None => None,
            },
            None => None,
        }
    } else {
        None
    }
}

/// The message type of a tag.
pub open spec fn type_of_tag(t: u8) -> Option<MessageType> {
    if t == 0 {
        Some(MessageType::ClipboardUpdate)
    } else if t == 1 {
        Some(MessageType::NodeDiscovery)
    } else if t == 2 {
        Some(MessageType::Heartbeat)
    } else {
        None
    }
}

/// The envelope that `b` holds, if it holds exactly one.
pub open spec fn parse_spec(b: Seq<u8>) -> Option<Envelope> {
    if b.len() < 2 {
        None
    } else {
        match type_of_tag(b[1]) {
            Some(message_type) => match read_payload_spec(b, 2) {
                Some((data, p)) => match read_bytes_spec(b, p) {
                    Some((signature, q)) => if q == b.len() {
                        Some(Envelope { version: b[0], message_type, data, signature })
                    } else {
                        None
                    },
                    None => None,
                },
                None => None,
            },
            None => None,
        }
    }
}

proof fn lemma_read_u64(b: Seq<u8>, pos: int, x: u64, rest: Seq<u8>)
    requires
        0 <= pos <= b.len(),
        b.subrange(pos, b.len() as int) == le8(x) + rest,
    ensures
        read_u64_spec(b, pos) == Some((x, pos + 8)),
        b.subrange(pos + 8, b.len() as int) == rest,
{
    let t = b.subrange(pos, b.len() as int);
    assert(t.len() == 8 + rest.len());
    assert(b.subrange(pos, pos + 8) =~= t.subrange(0, 8));
    assert(t.subrange(0, 8) =~= le8(x));
    lemma_le8_round_trip(x);
    assert(b.subrange(pos + 8, b.len() as int) =~= t.subrange(8, t.len() as int));
    assert(t.subrange(8, t.len() as int) =~= rest);
}

proof fn lemma_read_bytes(b: Seq<u8>, pos: int, x: Seq<u8>, rest: Seq<u8>)
    requires
        0 <= pos <= b.len(),
        b.len() <= u64::MAX,
        b.subrange(pos, b.len() as int) == enc_bytes(x) + rest,
    ensures
        read_bytes_spec(b, pos) == Some((x, pos + 8 + x.len())),
        b.subrange(pos + 8 + x.len(), b.len() as int) == rest,
{
    let t = b.subrange(pos, b.len() as int);
    assert(t =~= le8(x.len() as u64) + (x + rest));
    lemma_read_u64(b, pos, x.len() as u64, x + rest);
    let p: int = pos + 8;
    let u = b.subrange(p, b.len() as int);
    assert(u == x + rest);
    assert(b.subrange(p, p + x.len()) =~= u.subrange(0, x.len() as int));
    assert(u.subrange(0, x.len() as int) =~= x);
    assert(b.subrange(p + x.len(), b.len() as int) =~= u.subrange(x.len() as int, u.len() as int));
    assert(u.subrange(x.len() as int, u.len() as int) =~= rest);
}

proof fn lemma_read_str(b: Seq<u8>, pos: int, s: Seq<char>, rest: Seq<u8>)
    requires
        0 <= pos <= b.len(),
        b.len() <= u64::MAX,
        b.subrange(pos, b.len() as int) == enc_str(s) + rest,
    ensures
        read_str_spec(b, pos) == Some((s, pos + enc_str(s).len())),
        b.subrange(pos + enc_str(s).len(), b.len() as int) == rest,
{
    lemma_read_bytes(b, pos, encode_utf8(s), rest);
    encode_utf8_valid_utf8(s);
    encode_utf8_decode_utf8(s);
}

proof fn lemma_parse_tail(b: Seq<u8>, e: Envelope, p: int)
    requires
        b.len() >= 3,
        b.len() <= u64::MAX,
        b[0] == e.version,
        b[1] == type_tag(e.message_type),
        2 <= p <= b.len(),
        read_payload_spec(b, 2) == Some((e.data, p)),
        b.subrange(p, b.len() as int) == enc_bytes(e.signature),
    ensures
        parse_spec(b) == Some(e),
{
    assert(enc_bytes(e.signature) =~= enc_bytes(e.signature) + Seq::<u8>::empty());
    lemma_read_bytes(b, p, e.signature, Seq::empty());
    assert(type_of_tag(b[1]) == Some(e.message_type));
}

#[verifier::rlimit(40)]
proof fn lemma_parse_clipboard(e: Envelope)
    requires
        e.data is Clipboard,
        canonical(e).len() <= u64::MAX,
    ensures
        parse_spec(canonical(e)) == Some(e),
{
    let b = canonical(e);
    let sig = enc_bytes(e.signature);
    let content = e.data->Clipboard_content;
    let timestamp = e.data->Clipboard_timestamp;
    let source_node = e.data->Clipboard_source_node;
    let sequence = e.data->Clipboard_sequence;
    let (s1, l1, s2, l2) = (enc_str(content), le8(timestamp), enc_str(source_node), le8(sequence));
    assert(b =~= seq![e.version, type_tag(e.message_type), 0u8] + (s1 + (l1 + (s2 + (l2 + sig)))));
    assert(b.subrange(3, b.len() as int) =~= s1 + (l1 + (s2 + (l2 + sig))));
    lemma_read_str(b, 3, content, l1 + (s2 + (l2 + sig)));
    let at1: int = 3 + s1.len() as int;
    lemma_read_u64(b, at1, timestamp, s2 + (l2 + sig));
    lemma_read_str(b, at1 + 8, source_node, l2 + sig);
    let at3: int = at1 + 8 + s2.len() as int;
    lemma_read_u64(b, at3, sequence, sig);
    assert(b[2] == 0);
    assert(read_str_spec(b, 3) == Some((content, at1)));
    assert(read_u64_spec(b, at1) == Some((timestamp, at1 + 8)));
    assert(read_str_spec(b, at1 + 8) == Some((source_node, at3)));
    assert(read_u64_spec(b, at3) == Some((sequence, at3 + 8)));
    assert(read_payload_spec(b, 2) == Some((e.data, at3 + 8)));
    lemma_parse_tail(b, e, at3 + 8);
}

#[verifier::rlimit(40)]
proof fn lemma_parse_discovery(e: Envelope)
    requires
        e.data is Discovery,
        well_formed(e),
        canonical(e).len() <= u64::MAX,
    ensures
        parse_spec(canonical(e)) == Some(e),
{
    let b = canonical(e);
    let sig = enc_bytes(e.signature);
    let source_node = e.data->Discovery_source_node;
    let timestamp = e.data->Discovery_timestamp;
    let public_key = e.data->Discovery_public_key;
    let signing_public_key = e.data->Discovery_signing_public_key;
    let s1 = enc_str(source_node);
    let l1 = le8(timestamp);
    let k1 = enc_bytes(public_key);
    let k2 = enc_bytes(signing_public_key);
    assert(b =~= seq![e.version, type_tag(e.message_type), 1u8] + (s1 + (l1 + (k1 + (k2 + sig)))));
    assert(b.subrange(3, b.len() as int) =~= s1 + (l1 + (k1 + (k2 + sig))));
    lemma_read_str(b, 3, source_node, l1 + (k1 + (k2 + sig)));
    let at1: int = 3 + s1.len() as int;
    lemma_read_u64(b, at1, timestamp, k1 + (k2 + sig));
    lemma_read_bytes(b, at1 + 8, public_key, k2 + sig);
    let at3: int = at1 + 8 + 8 + 32;
    lemma_read_bytes(b, at3, signing_public_key, sig);
    assert(b[2] == 1);
    assert(read_str_spec(b, 3) == Some((source_node, at1)));
    assert(read_u64_spec(b, at1) == Some((timestamp, at1 + 8)));
    assert(read_key_spec(b, at1 + 8) == Some((public_key, at3)));
    assert(read_key_spec(b, at3) == Some((signing_public_key, at3 + 40)));
    assert(read_payload_spec(b, 2) == Some((e.data, at3 + 40)));
    lemma_parse_tail(b, e, at3 + 40);
}

proof fn lemma_parse_heartbeat(e: Envelope)
    requires
        e.data is Heartbeat,
        canonical(e).len() <= u64::MAX,
    ensures
        parse_spec(canonical(e)) == Some(e),
{
    let b = canonical(e);
    let sig = enc_bytes(e.signature);
    let source_node = e.data->Heartbeat_source_node;
    let timestamp = e.data->Heartbeat_timestamp;
    let (s1, l1) = (enc_str(source_node), le8(timestamp));
    assert(b =~= seq![e.version, type_tag(e.message_type), 2u8] + (s1 + (l1 + sig)));
    assert(b.subrange(3, b.len() as int) =~= s1 + (l1 + sig));
    lemma_read_str(b, 3, source_node, l1 + sig);
    let at1: int = 3 + s1.len() as int;
    lemma_read_u64(b, at1, timestamp, sig);
    assert(b[2] == 2);
    assert(read_payload_spec(b, 2) == Some((e.data, at1 + 8)));
    lemma_parse_tail(b, e, at1 + 8);
}

/// Reading the canonical form of a well-formed envelope gives the envelope back.
pub proof fn lemma_parse_canonical(e: Envelope)
    requires
        well_formed(e),
        canonical(e).len() <= u64::MAX,
    ensures
        parse_spec(canonical(e)) == Some(e),
{
    match e.data {
        Payload::Clipboard { .. } => lemma_parse_clipboard(e),
        Payload::Discovery { .. } => lemma_parse_discovery(e),
        Payload::Heartbeat { .. } => lemma_parse_heartbeat(e),
    }
}

proof fn lemma_read_u64_sound(b: Seq<u8>, pos: int)
    requires
        read_u64_spec(b, pos) is Some,
    ensures
        ({
            let (x, p) = read_u64_spec(b, pos)->0;
            p == pos + 8 && p <= b.len() && b.subrange(pos, p) == le8(x)
        }),
{
    lemma_le8_value_round_trip(b.subrange(pos, pos + 8));
}

proof fn lemma_read_bytes_sound(b: Seq<u8>, pos: int)
    requires
        read_bytes_spec(b, pos) is Some,
    ensures
        ({
            let (x, p) = read_bytes_spec(b, pos)->0;
            pos <= p <= b.len() && b.subrange(pos, p) == enc_bytes(x)
        }),
{
    lemma_read_u64_sound(b, pos);
    let (x, p) = read_bytes_spec(b, pos)->0;
    assert(b.subrange(pos, p) =~= b.subrange(pos, pos + 8) + b.subrange(pos + 8, p));
}

proof fn lemma_read_str_sound(b: Seq<u8>, pos: int)
    requires
        read_str_spec(b, pos) is Some,
    ensures
        ({
            let (s, p) = read_str_spec(b, pos)->0;
            pos <= p <= b.len() && b.subrange(pos, p) == enc_str(s)
        }),
{
    lemma_read_bytes_sound(b, pos);
    let (v, p) = read_bytes_spec(b, pos)->0;
    decode_utf8_encode_utf8(v);
}

proof fn lemma_join(b: Seq<u8>, i: int, j: int, k: int)
    requires
        0 <= i <= j <= k <= b.len(),
    ensures
        b.subrange(i, k) == b.subrange(i, j) + b.subrange(j, k),
{
    assert(b.subrange(i, k) =~= b.subrange(i, j) + b.subrange(j, k));
}

proof fn lemma_payload_sound(b: Seq<u8>, pos: int)
    requires
        read_payload_spec(b, pos) is Some,
    ensures
        ({
            let (d, p) = read_payload_spec(b, pos)->0;
            pos < p <= b.len() && b.subrange(pos, p) == enc_payload(d) && match d {
                Payload::Discovery { public_key, signing_public_key, .. } => public_key.len() == 32
                    && signing_public_key.len() == 32,
                _ => true,
            }
        }),
{
    let (d, p) = read_payload_spec(b, pos)->0;
    if b[pos] == 0 {
        lemma_read_str_sound(b, pos + 1);
        let (_, at1) = read_str_spec(b, pos + 1)->0;
        lemma_read_u64_sound(b, at1);
        let at2 = at1 + 8;
        lemma_read_str_sound(b, at2);
        let (_, at3) = read_str_spec(b, at2)->0;
        lemma_read_u64_sound(b, at3);
        lemma_join(b, pos, pos + 1, at1);
        lemma_join(b, pos, at1, at2);
        lemma_join(b, pos, at2, at3);
        lemma_join(b, pos, at3, p);
        assert(b.subrange(pos, pos + 1) =~= seq![0u8]);
    } else if b[pos] == 1 {
        lemma_read_str_sound(b, pos + 1);
        let (_, at1) = read_str_spec(b, pos + 1)->0;
        lemma_read_u64_sound(b, at1);
        let at2 = at1 + 8;
        lemma_read_bytes_sound(b, at2);
        let (_, at3) = read_bytes_spec(b, at2)->0;
        lemma_read_bytes_sound(b, at3);
        lemma_join(b, pos, pos + 1, at1);
        lemma_join(b, pos, at1, at2);
        lemma_join(b, pos, at2, at3);
        lemma_join(b, pos, at3, p);
        assert(b.subrange(pos, pos + 1) =~= seq![1u8]);
    } else {
        lemma_read_str_sound(b, pos + 1);
        let (_, at1) = read_str_spec(b, pos + 1)->0;
        lemma_read_u64_sound(b, at1);
        lemma_join(b, pos, pos + 1, at1);
        lemma_join(b, pos, at1, p);
        assert(b.subrange(pos, pos + 1) =~= seq![2u8]);
    }
}

/// What reads as an envelope is that envelope's canonical form.
pub proof fn lemma_parse_sound(b: Seq<u8>)
    requires
        parse_spec(b) is Some,
    ensures
        canonical(parse_spec(b)->0) == b,
        well_formed(parse_spec(b)->0),
{
    let e = parse_spec(b)->0;
    lemma_payload_sound(b, 2);
    let (_, p) = read_payload_spec(b, 2)->0;
    lemma_read_bytes_sound(b, p);
    lemma_join(b, 0, 2, p);
    lemma_join(b, 0, p, b.len() as int);
    assert(b.subrange(0, 2) =~= seq![e.version, type_tag(e.message_type)]);
    assert(b.subrange(0, b.len() as int) =~= b);
}

/// Relies on std's `String::from_utf8`: it succeeds exactly on valid UTF-8,
/// and returns the characters that the bytes encode.
#[verifier::external_body]
fn string_from_utf8(bytes: Vec<u8>) -> (r: Option<String>)
    ensures
        r is Some <==> valid_utf8(bytes@),
        r matches Some(s) ==> s@ == decode_utf8(bytes@),
{
    String::from_utf8(bytes).ok()
}

fn read_u64_at(b: &[u8], pos: usize) -> (r: Option<(u64, usize)>)
    ensures
        match r {
            Some((x, p)) => read_u64_spec(b@, pos as int) == Some((x, p as int)),
            None => read_u64_spec(b@, pos as int) is None,
        },
{
    if pos > b.len() || b.len() - pos < 8 {
        return None;
    }
    Some((read_u64_le(b, pos), pos + 8))
}

fn read_bytes_at(b: &[u8], pos: usize) -> (r: Option<(Vec<u8>, usize)>)
    ensures
        match r {
            Some((x, p)) => read_bytes_spec(b@, pos as int) == Some((x@, p as int)),
            None => read_bytes_spec(b@, pos as int) is None,
        },
{
    let (n, p) = match read_u64_at(b, pos) {
        Some(v) => v,
        None => return None,
    };
    if n > (b.len() - p) as u64 {
        return None;
    }
    let end = p + n as usize;
    let mut out: Vec<u8> = Vec::new();
    let mut i: usize = p;
    while i < end
        invariant
            p <= i <= end <= b@.len(),
            out@ == b@.subrange(p as int, i as int),
        decreases end - i,
    {
        out.push(b[i]);
        i = i + 1;
        assert(out@ =~= b@.subrange(p as int, i as int));
    }
    Some((out, end))
}

fn read_key_at(b: &[u8], pos: usize) -> (r: Option<([u8; 32], usize)>)
    ensures
        match r {
            Some((x, p)) => read_key_spec(b@, pos as int) == Some((x@, p as int)),
            None => read_key_spec(b@, pos as int) is None,
        },
{
    let (v, p) = match read_bytes_at(b, pos) {
        Some(x) => x,
        None => return None,
    };
    if v.len() != 32 {
        return None;
    }
    Some((crate::bytes::to_array32(v.as_slice()), p))
}

fn read_str_at(b: &[u8], pos: usize) -> (r: Option<(String, usize)>)
    ensures
        match r {
            Some((x, p)) => read_str_spec(b@, pos as int) == Some((x@, p as int)),
            None => read_str_spec(b@, pos as int) is None,
        },
{
    let (v, p) = match read_bytes_at(b, pos) {
        Some(x) => x,
        None => return None,
    };
    match string_from_utf8(v) {
        Some(s) => Some((s, p)),
        None => None,
    }
}

fn read_payload_at(b: &[u8], pos: usize) -> (r: Option<(MessageData, usize)>)
    requires
        pos <= b@.len(),
    ensures
        match r {
            Some((d, p)) => read_payload_spec(b@, pos as int) == Some((d@, p as int)),
            None => read_payload_spec(b@, pos as int) is None,
        },
{
    if pos >= b.len() {
        return None;
    }
    let tag = b[pos];
    if tag == 0 {
        let (content, at1) = match read_str_at(b, pos + 1) {
            Some(x) => x,
            None => return None,
        };
        let (timestamp, at2) = match read_u64_at(b, at1) {
            Some(x) => x,
            None => return None,
        };
        let (source_node, at3) = match read_str_at(b, at2) {
            Some(x) => x,
            None => return None,
        };
        let (sequence, at4) = match read_u64_at(b, at3) {
            Some(x) => x,
            None => return None,
        };
        Some((MessageData::ClipboardUpdate(ClipboardData { content, timestamp, source_node, sequence }), at4))
    } else if tag == 1 {
        let (source_node, at1) = match read_str_at(b, pos + 1) {
            Some(x) => x,
            None => return None,
        };
        let (timestamp, at2) = match read_u64_at(b, at1) {
            Some(x) => x,
            None => return None,
        };
        let (public_key, at3) = match read_key_at(b, at2) {
            Some(x) => x,
            None => return None,
        };
        let (signing_public_key, at4) = match read_key_at(b, at3) {
            Some(x) => x,
            None => return None,
        };
        Some(
            (
                MessageData::NodeDiscovery(
                    NodeDiscoveryData { source_node, timestamp, public_key, signing_public_key },
                ),
                at4,
            ),
        )
    } else if tag == 2 {
        let (source_node, at1) = match read_str_at(b, pos + 1) {
            Some(x) => x,
            None => return None,
        };
        let (timestamp, at2) = match read_u64_at(b, at1) {
            Some(x) => x,
            None => return None,
        };
        Some((MessageData::Heartbeat(HeartbeatData { source_node, timestamp }), at2))
    } else {
        None
    }
}

fn parse_message(b: &[u8]) -> (r: Option<PostMessage>)
    ensures
        match r {
            Some(m) => parse_spec(b@) == Some(m@),
            None => parse_spec(b@) is None,
        },
{
    if b.len() < 2 {
        return None;
    }
    let message_type = if b[1] == 0 {
        MessageType::ClipboardUpdate
    } else if b[1] == 1 {
        MessageType::NodeDiscovery
    } else if b[1] == 2 {
        MessageType::Heartbeat
    } else {
        return None;
    };
    let (data, p) = match read_payload_at(b, 2) {
        Some(x) => x,
        None => return None,
    };
    let (signature, q) = match read_bytes_at(b, p) {
        Some(x) => x,
        None => return None,
    };
    if q != b.len() {
        return None;
    }
    Some(PostMessage { version: b[0], message_type, data, signature })
}

/// Reads a message from its canonical bytes. Exactly the canonical forms of
/// well-formed envelopes are accepted, each as the envelope it encodes.
pub fn decode_message(b: &[u8]) -> (r: Result<PostMessage, PostError>)
    ensures
        r matches Ok(m) ==> canonical(m@) == b@ && well_formed(m@),
        forall|e: Envelope|
            well_formed(e) && #[trigger] canonical(e) == b@ ==> (r matches Ok(m) && m@ == e),
        r matches Err(err) ==> err is Serialization,
{
    let r = parse_message(b);
    let n = b.len();
    proof {
        if r is Some {
            lemma_parse_sound(b@);
        }
        assert(usize::MAX == 0xffff_ffff || usize::MAX == 0xffff_ffff_ffff_ffff);
        assert(n as int <= u64::MAX);
        assert forall|e: Envelope| well_formed(e) && #[trigger] canonical(e) == b@ implies parse_spec(
            b@,
        ) == Some(e) by {
            lemma_parse_canonical(e);
        }
    }
    match r {
        Some(m) => Ok(m),
        None => Err(PostError::Serialization("Malformed message".to_string())),
    }
}

} // verus!
