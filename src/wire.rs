use vstd::prelude::*;

use crate::bytes::copy_range;
use crate::codec::{canonical, decode_message, encode_message, well_formed};

use crate::error::PostError;
use crate::message::{Envelope, PostMessage};

verus! {

// ---------------------------------------------------------------------------
// Frames: the lowercase hex of the canonical bytes, then a newline.
// ---------------------------------------------------------------------------

/// The newline that ends every frame.
pub const NEWLINE: u8 = 10;

/// The lowercase hex digit of a value below sixteen.
pub open spec fn hex_digit(n: u8) -> u8 {
    if n < 10 {
        (48 + n) as u8
    } else {
        (87 + n) as u8
    }
}

/// The value of a lowercase hex digit.
pub open spec fn hex_value(c: u8) -> Option<u8> {
    if 48 <= c <= 57 {
        Some((c - 48) as u8)
    } else if 97 <= c <= 102 {
        Some((c - 87) as u8)
    } else {
        None
    }
}

/// Two lowercase hex digits for each byte, high half first.
pub open spec fn hex_of(b: Seq<u8>) -> Seq<u8>
    decreases b.len(),
{
    if b.len() == 0 {
        Seq::empty()
    } else {
        hex_of(b.drop_last()) + seq![hex_digit(b.last() / 16), hex_digit(b.last() % 16)]
    }
}

/// The frame of an envelope.
pub open spec fn frame_of(e: Envelope) -> Seq<u8> {
    hex_of(canonical(e)).push(NEWLINE)
}

/// Whether `c` is ASCII whitespace.
pub open spec fn is_space(c: u8) -> bool {
    c == 32 || (9 <= c <= 13)
}

proof fn lemma_hex_index(v: Seq<u8>, k: int)
    requires
        0 <= k < v.len(),
    ensures
        hex_of(v).len() == 2 * v.len(),
        hex_of(v)[2 * k] == hex_digit(v[k] / 16),
        hex_of(v)[2 * k + 1] == hex_digit(v[k] % 16),
    decreases v.len(),
{
    lemma_hex_len(v);
    if k < v.len() - 1 {
        lemma_hex_index(v.drop_last(), k);
    }
}

proof fn lemma_hex_len(v: Seq<u8>)
    ensures
        hex_of(v).len() == 2 * v.len(),
    decreases v.len(),
{
    if v.len() > 0 {
        lemma_hex_len(v.drop_last());
    }
}

proof fn lemma_hex_digit(n: u8)
    requires
        n < 16,
    ensures
        hex_value(hex_digit(n)) == Some(n),
{
}

proof fn lemma_hex_injective(a: Seq<u8>, b: Seq<u8>)
    requires
        hex_of(a) == hex_of(b),
    ensures
        a == b,
{
    lemma_hex_len(a);
    lemma_hex_len(b);
    assert forall|k: int| 0 <= k < a.len() implies a[k] == b[k] by {
        lemma_hex_index(a, k);
        lemma_hex_index(b, k);
        lemma_hex_digit(a[k] / 16);
        lemma_hex_digit(b[k] / 16);
        lemma_hex_digit(a[k] % 16);
        lemma_hex_digit(b[k] % 16);
    }
    assert(a =~= b);
}

fn hex_digit_of(n: u8) -> (r: u8)
    requires
        n < 16,
    ensures
        r == hex_digit(n),
{
    if n < 10 {
        48 + n
    } else {
        87 + n
    }
}

fn hex_value_of(c: u8) -> (r: Option<u8>)
    ensures
        r == hex_value(c),
{
    if 48 <= c && c <= 57 {
        Some(c - 48)
    } else if 97 <= c && c <= 102 {
        Some(c - 87)
    } else {
        None
    }
}

/// The lowercase hex of `b`.
pub fn hex_encode(b: &[u8]) -> (r: Vec<u8>)
    ensures
        r@ == hex_of(b@),
{
    let mut out: Vec<u8> = Vec::new();
    let mut i: usize = 0;
    while i < b.len()
        invariant
            i <= b@.len(),
            out@ == hex_of(b@.subrange(0, i as int)),
        decreases b@.len() - i,
    {
        let x = b[i];
        out.push(hex_digit_of(x / 16));
        out.push(hex_digit_of(x % 16));
        assert(b@.subrange(0, i + 1).drop_last() =~= b@.subrange(0, i as int));
        i = i + 1;
        assert(out@ =~= hex_of(b@.subrange(0, i as int)));
    }
    assert(b@.subrange(0, b@.len() as int) =~= b@);
    out
}

/// The bytes whose lowercase hex is `s`; `None` when `s` is no such hex.
pub fn hex_decode(s: &[u8]) -> (r: Option<Vec<u8>>)
    ensures
        r matches Some(v) ==> hex_of(v@) == s@,
        forall|v: Seq<u8>| #[trigger] hex_of(v) == s@ ==> (r matches Some(w) && w@ == v),
{
    let ghost target: Option<Seq<u8>> = if exists|v: Seq<u8>| #[trigger] hex_of(v) == s@ {
        Some(choose|v: Seq<u8>| #[trigger] hex_of(v) == s@)
    } else {
        None
    };
    proof {
        if let Some(v) = target {
            lemma_hex_len(v);
        }
    }
    if s.len() % 2 != 0 {
        return None;
    }
    let mut out: Vec<u8> = Vec::new();
    let mut i: usize = 0;
    while i < s.len()
        invariant
            s@.len() % 2 == 0,
            i % 2 == 0,
            i <= s@.len(),
            out@.len() * 2 == i,
            hex_of(out@) == s@.subrange(0, i as int),
            target matches Some(v) ==> hex_of(v) == s@ && v.len() * 2 == s@.len() && out@
                == v.subrange(0, out@.len() as int),
            target is None ==> !(exists|v: Seq<u8>| #[trigger] hex_of(v) == s@),
        decreases s@.len() - i,
    {
        let k: usize = i / 2;
        proof {
            if let Some(v) = target {
                lemma_hex_index(v, k as int);
                lemma_hex_digit(v[k as int] / 16);
                lemma_hex_digit(v[k as int] % 16);
            }
        }
        let hi = match hex_value_of(s[i]) {
            Some(d) => d,
            None => return None,
        };
        let lo = match hex_value_of(s[i + 1]) {
            Some(d) => d,
            None => return None,
        };
        let x: u8 = hi * 16 + lo;
        proof {
            assert(x / 16 == hi && x % 16 == lo);
            assert(hex_digit(hi) == s@[i as int] && hex_digit(lo) == s@[i + 1]);
        }
        let ghost before = out@;
        out.push(x);
        assert(out@.drop_last() =~= before);
        i = i + 2;
        assert(hex_of(out@) =~= s@.subrange(0, i as int));
        proof {
            if let Some(v) = target {
                assert(out@ =~= v.subrange(0, out@.len() as int));
            }
        }
    }
    assert(s@.subrange(0, s@.len() as int) =~= s@);
    proof {
        if let Some(v) = target {
            assert(out@ =~= v);
        }
        assert forall|v: Seq<u8>| #[trigger] hex_of(v) == s@ implies out@ == v by {
            lemma_hex_injective(out@, v);
        }
    }
    Some(out)
}

/// `f` without its leading whitespace.
pub open spec fn trim_start(f: Seq<u8>) -> Seq<u8>
    decreases f.len(),
{
    if f.len() > 0 && is_space(f[0]) {
        trim_start(f.subrange(1, f.len() as int))
    } else {
        f
    }
}

/// `f` without its trailing whitespace.
pub open spec fn trim_end(f: Seq<u8>) -> Seq<u8>
    decreases f.len(),
{
    if f.len() > 0 && is_space(f.last()) {
        trim_end(f.drop_last())
    } else {
        f
    }
}

/// `f` without leading and trailing whitespace.
pub open spec fn trimmed(f: Seq<u8>) -> Seq<u8> {
    trim_end(trim_start(f))
}

/// The frame of `message`: the hex of its canonical bytes and a newline.
pub fn encode_frame(message: &PostMessage) -> (r: Vec<u8>)
    ensures
        r@ == frame_of(message@),
{
    let bytes = encode_message(message);
    let mut out = hex_encode(bytes.as_slice());
    out.push(NEWLINE);
    out
}

/// Takes the first complete frame, without its newline, off the front of
/// `buffer`; `None`, leaving the buffer alone, when no newline has arrived.
pub fn take_frame(buffer: &mut Vec<u8>) -> (r: Option<Vec<u8>>)
    ensures
        match r {
            Some(f) => old(buffer)@ == f@ + seq![NEWLINE] + final(buffer)@ && !f@.contains(NEWLINE),
            None => !old(buffer)@.contains(NEWLINE) && final(buffer)@ == old(buffer)@,
        },
{
    let mut i: usize = 0;
    while i < buffer.len()
        invariant
            i <= buffer@.len(),
            buffer@ == old(buffer)@,
            forall|k: int| 0 <= k < i ==> buffer@[k] != NEWLINE,
        decreases buffer@.len() - i,
    {
        if buffer[i] == NEWLINE {
            let frame = copy_range(buffer.as_slice(), 0, i);
            let rest = copy_range(buffer.as_slice(), i + 1, buffer.len());
            let ghost whole = buffer@;
            *buffer = rest;
            assert(whole =~= frame@ + seq![NEWLINE] + buffer@);
            return Some(frame);
        }
        i = i + 1;
    }
    None
}

fn is_space_byte(c: u8) -> (r: bool)
    ensures
        r == is_space(c),
{
    c == 32 || (9 <= c && c <= 13)
}

/// The bounds of `f` without leading and trailing whitespace.
fn trim_bounds(f: &[u8]) -> (r: (usize, usize))
    ensures
        r.0 <= r.1 <= f@.len(),
        f@.subrange(r.0 as int, r.1 as int) == trimmed(f@),
{
    let n = f.len();
    let mut i: usize = 0;
    assert(f@.subrange(0, n as int) =~= f@);
    while i < n && is_space_byte(f[i])
        invariant
            i <= n == f@.len(),
            trim_start(f@) == trim_start(f@.subrange(i as int, n as int)),
        decreases n - i,
    {
        assert(f@.subrange(i as int, n as int).subrange(1, (n - i) as int) =~= f@.subrange(
            i + 1,
            n as int,
        ));
        i = i + 1;
    }
    assert(trim_start(f@) == f@.subrange(i as int, n as int));
    let mut j: usize = n;
    while j > i && is_space_byte(f[j - 1])
        invariant
            i <= j <= n == f@.len(),
            trimmed(f@) == trim_end(f@.subrange(i as int, j as int)),
        decreases j,
    {
        assert(f@.subrange(i as int, j as int).drop_last() =~= f@.subrange(i as int, j - 1));
        j = j - 1;
    }
    (i, j)
}

/// Reads one frame, without its newline: surrounding whitespace is ignored,
/// a blank frame is `None`, and the rest must be the lowercase hex of the
/// canonical bytes of a well-formed envelope.
pub fn parse_frame(frame: &[u8]) -> (r: Result<Option<PostMessage>, PostError>)
    ensures
        trimmed(frame@).len() == 0 ==> r matches Ok(None),
        r matches Ok(Some(m)) ==> hex_of(canonical(m@)) == trimmed(frame@) && well_formed(m@),
        forall|e: Envelope|
            well_formed(e) && #[trigger] hex_of(canonical(e)) == trimmed(frame@) ==> (r matches Ok(
                Some(m),
            ) && m@ == e),
        r matches Err(err) ==> err is Serialization,
{
    let (i, j) = trim_bounds(frame);
    if i == j {
        proof {
            assert forall|e: Envelope|
                well_formed(e) && #[trigger] hex_of(canonical(e)) == trimmed(frame@) implies false by {
                lemma_hex_len(canonical(e));
            }
        }
        return Ok(None);
    }
    let body = copy_range(frame, i, j);
    let bytes = match hex_decode(body.as_slice()) {
        Some(b) => b,
        None => return Err(PostError::Serialization("Frame is not hex".to_string())),
    };
    match decode_message(bytes.as_slice()) {
        Ok(m) => Ok(Some(m)),
        Err(e) => Err(e),
    }
}

/// A frame survives the trip: with its newline taken off, trimming leaves the
/// hex of the canonical bytes whole, so `parse_frame` gives back the envelope
/// that `encode_frame` sent.
pub proof fn lemma_frame_round_trip(e: Envelope)
    requires
        well_formed(e),
    ensures
        frame_of(e).drop_last() == hex_of(canonical(e)),
        trimmed(hex_of(canonical(e))) == hex_of(canonical(e)),
{
    let b = canonical(e);
    let h = hex_of(b);
    assert(frame_of(e).drop_last() =~= h);
    lemma_hex_index(b, 0);
    lemma_hex_index(b, b.len() - 1);
    assert(!is_space(h[0]));
    assert(trim_start(h) == h);
    assert(h.last() == h[2 * (b.len() - 1) + 1]);
    assert(!is_space(h.last()));
    assert(trim_end(h) == h);
}

} // verus!
