//! Frame Codec: the lowest layer of the transport. A frame is a payload
//! carried between boundary bytes, with delimiter-valued payload bytes
//! escaped (SLIP-style byte stuffing). Encoding never fails for payloads
//! within the size limit; decoding either completes a frame, asks for
//! more bytes, or rejects the stream as malformed (broken escape) or
//! too large (payload over the limit, detected before the frame ends).

use vstd::prelude::*;

verus! {

/// Boundary byte that opens and closes every frame.
pub const END: u8 = 0xC0;

/// Escape byte introducing a two-byte escape sequence.
pub const ESC: u8 = 0xDB;

/// Second byte of the escape sequence standing for a payload `END`.
pub const ESC_END: u8 = 0xDC;

/// Second byte of the escape sequence standing for a payload `ESC`.
pub const ESC_ESC: u8 = 0xDD;

/// A well-formed frame's payload never exceeds this many bytes.
pub const MAX_FRAME_SIZE: usize = 1024;

/// What decoding a byte stream produced.
#[derive(Debug, Clone, PartialEq, Eq)]
pub enum DecodeOutcome {
    /// A complete frame: its payload, and how many bytes of the stream
    /// the frame occupied (boundary bytes included).
    Complete { payload: Vec<u8>, consumed: usize },
    /// The stream ends before the frame does: keep reading.
    Incomplete,
    /// The framing convention is violated: the caller must resynchronize.
    Malformed,
    /// The payload exceeds [`MAX_FRAME_SIZE`] before the frame ends:
    /// the caller must resynchronize.
    TooLarge,
}

/// The mathematical counterpart of [`DecodeOutcome`].
pub enum DecodeModel {
    Complete { payload: Seq<u8>, consumed: int },
    Incomplete,
    Malformed,
    TooLarge,
}

/// How one payload byte appears on the wire.
pub open spec fn stuff_byte(b: u8) -> Seq<u8> {
    if b == END {
        seq![ESC, ESC_END]
    } else if b == ESC {
        seq![ESC, ESC_ESC]
    } else {
        seq![b]
    }
}

/// How a whole payload appears on the wire, boundary bytes excluded.
pub open spec fn stuff(p: Seq<u8>) -> Seq<u8>
    decreases p.len(),
{
    if p.len() == 0 {
        Seq::empty()
    } else {
        stuff_byte(p[0]) + stuff(p.skip(1))
    }
}

/// The full wire form of a payload: boundary, stuffed bytes, boundary.
pub open spec fn encode_model(p: Seq<u8>) -> Seq<u8> {
    seq![END] + stuff(p) + seq![END]
}

/// Scan the stream from position `i` with the payload bytes unstuffed so
/// far in `acc`: the meaning of decoding a frame body.
pub open spec fn scan(s: Seq<u8>, i: int, acc: Seq<u8>) -> DecodeModel
    decreases s.len() - i,
{
    if acc.len() > MAX_FRAME_SIZE as nat {
        DecodeModel::TooLarge
    } else if i < 0 || i >= s.len() {
        DecodeModel::Incomplete
    } else if s[i] == END {
        DecodeModel::Complete { payload: acc, consumed: i + 1 }
    } else if s[i] == ESC {
        if i + 1 >= s.len() {
            DecodeModel::Incomplete
        } else if s[i + 1] == ESC_END {
            scan(s, i + 2, acc.push(END))
        } else if s[i + 1] == ESC_ESC {
            scan(s, i + 2, acc.push(ESC))
        } else {
            DecodeModel::Malformed
        }
    } else {
        scan(s, i + 1, acc.push(s[i]))
    }
}

/// The meaning of decoding a byte stream that starts at a frame boundary.
pub open spec fn decode_model(s: Seq<u8>) -> DecodeModel {
    if s.len() == 0 {
        DecodeModel::Incomplete
    } else if s[0] != END {
        DecodeModel::Malformed
    } else {
        scan(s, 1, Seq::empty())
    }
}

/// The executable outcome agrees with the model.
pub open spec fn outcome_matches(r: DecodeOutcome, m: DecodeModel) -> bool {
    match m {
        DecodeModel::Complete { payload, consumed } => (r matches DecodeOutcome::Complete {
            payload: rp,
            consumed: rc,
        } && rp@ == payload && rc == consumed),
        DecodeModel::Incomplete => r is Incomplete,
        DecodeModel::Malformed => r is Malformed,
        DecodeModel::TooLarge => r is TooLarge,
    }
}

/// Appending a byte to the payload appends its wire form to the stuffing.
pub proof fn lemma_stuff_push(p: Seq<u8>, b: u8)
    ensures
        stuff(p.push(b)) == stuff(p) + stuff_byte(b),
    decreases p.len(),
{
    if p.len() == 0 {
        assert(p.push(b)[0] == b);
        assert(p.push(b).skip(1) =~= Seq::<u8>::empty());
        assert(stuff(p.push(b)) =~= stuff_byte(b) + stuff(Seq::<u8>::empty()));
        assert(stuff_byte(b) + Seq::<u8>::empty() =~= stuff_byte(b));
        assert(stuff(p) + stuff_byte(b) =~= stuff_byte(b));
    } else {
        assert(p.push(b).skip(1) =~= p.skip(1).push(b));
        lemma_stuff_push(p.skip(1), b);
        assert(stuff(p.push(b)) =~= stuff(p) + stuff_byte(b));
    }
}

/// Encode a payload into its framed wire form.
///
/// Never fails: every payload within the size limit has a wire form, and
/// the result is exactly the model's, so a decoder yields the payload back.
pub fn encode(payload: &[u8]) -> (r: Vec<u8>)
    requires
        payload@.len() <= MAX_FRAME_SIZE as nat,
    ensures
        r@ == encode_model(payload@),
{
    let mut out: Vec<u8> = Vec::new();
    out.push(END);
    let mut i: usize = 0;
    while i < payload.len()
        invariant
            0 <= i <= payload@.len(),
            out@ == seq![END] + stuff(payload@.take(i as int)),
        decreases payload@.len() - i,
    {
        let b = payload[i];
        proof {
            assert(payload@.take(i + 1) =~= payload@.take(i as int).push(payload@[i as int]));
            lemma_stuff_push(payload@.take(i as int), payload@[i as int]);
        }
        if b == END {
            out.push(ESC);
            out.push(ESC_END);
        } else if b == ESC {
            out.push(ESC);
            out.push(ESC_ESC);
        } else {
            out.push(b);
        }
        assert(out@ =~= seq![END] + stuff(payload@.take(i + 1)));
        i = i + 1;
    }
    assert(payload@.take(payload@.len() as int) =~= payload@);
    out.push(END);
    assert(out@ =~= encode_model(payload@));
    out
}

/// Decode the leading frame of a byte stream.
///
/// The stream must begin at a frame boundary; anything else is malformed
/// and the caller resynchronizes. The outcome is exactly the model's:
/// a complete frame with its payload and consumed length, a request for
/// more bytes, a framing violation, or an oversized payload, the latter
/// detected before the frame ends and before any interpretation.
pub fn decode(stream: &[u8]) -> (r: DecodeOutcome)
    ensures
        outcome_matches(r, decode_model(stream@)),
{
    if stream.len() == 0 {
        return DecodeOutcome::Incomplete;
    }
    if stream[0] != END {
        return DecodeOutcome::Malformed;
    }
    let mut i: usize = 1;
    let mut acc: Vec<u8> = Vec::new();
    while i < stream.len()
        invariant
            1 <= i,
            acc@.len() <= MAX_FRAME_SIZE as nat,
            stream@.len() > 0,
            stream@[0] == END,
            scan(stream@, 1, Seq::empty()) == scan(stream@, i as int, acc@),
        decreases stream@.len() - i,
    {
        let b = stream[i];
        if b == END {
            assert(scan(stream@, i as int, acc@) == (DecodeModel::Complete {
                payload: acc@,
                consumed: i + 1,
            }));
            return DecodeOutcome::Complete { payload: acc, consumed: i + 1 };
        } else if b == ESC {
            if i + 1 >= stream.len() {
                return DecodeOutcome::Incomplete;
            }
            let e = stream[i + 1];
            if e == ESC_END {
                acc.push(END);
            } else if e == ESC_ESC {
                acc.push(ESC);
            } else {
                return DecodeOutcome::Malformed;
            }
            i = i + 2;
        } else {
            acc.push(b);
            i = i + 1;
        }
        if acc.len() > MAX_FRAME_SIZE {
            assert(scan(stream@, i as int, acc@) == DecodeModel::TooLarge);
            return DecodeOutcome::TooLarge;
        }
    }
    DecodeOutcome::Incomplete
}

/// Scanning a stuffed payload followed by a boundary byte completes the
/// frame with that payload appended to what was unstuffed before it.
proof fn lemma_scan_stuffed(s: Seq<u8>, i: int, acc: Seq<u8>, p: Seq<u8>)
    requires
        0 <= i,
        i + stuff(p).len() + 1 <= s.len(),
        s.subrange(i, i + stuff(p).len() as int) == stuff(p),
        s[i + stuff(p).len() as int] == END,
        acc.len() + p.len() <= MAX_FRAME_SIZE as nat,
    ensures
        scan(s, i, acc) == (DecodeModel::Complete {
            payload: acc + p,
            consumed: i + stuff(p).len() + 1,
        }),
    decreases p.len(),
{
    if p.len() == 0 {
        assert(stuff(p).len() == 0);
        assert(s[i] == END);
        assert(acc + p =~= acc);
    } else {
        let b = p[0];
        let rest = p.skip(1);
        assert(stuff(p) == stuff_byte(b) + stuff(rest));
        let k = stuff_byte(b).len() as int;
        assert(s.subrange(i + k, i + stuff(p).len() as int) =~= stuff(rest)) by {
            assert forall|j: int| 0 <= j < stuff(rest).len() implies s.subrange(
                i + k,
                i + stuff(p).len() as int,
            )[j] == stuff(rest)[j] by {
                assert(s[i + k + j] == s.subrange(i, i + stuff(p).len() as int)[k + j]);
            }
        }
        assert(acc.push(b) + rest =~= acc + p);
        if b == END {
            assert(s[i] == stuff(p)[0]);
            assert(s[i + 1] == stuff(p)[1]);
            assert(s[i] == ESC && s[i + 1] == ESC_END);
            lemma_scan_stuffed(s, i + 2, acc.push(b), rest);
        } else if b == ESC {
            assert(s[i] == stuff(p)[0]);
            assert(s[i + 1] == stuff(p)[1]);
            assert(s[i] == ESC && s[i + 1] == ESC_ESC);
            lemma_scan_stuffed(s, i + 2, acc.push(b), rest);
        } else {
            assert(s[i] == stuff(p)[0]);
            assert(s[i] == b);
            lemma_scan_stuffed(s, i + 1, acc.push(b), rest);
        }
    }
}

/// Round trip: decoding the wire form of any payload within the size
/// limit yields exactly that payload, consuming the whole wire form.
/// Delimiter-valued payload bytes survive unchanged.
pub proof fn lemma_round_trip(p: Seq<u8>)
    requires
        p.len() <= MAX_FRAME_SIZE as nat,
    ensures
        decode_model(encode_model(p)) == (DecodeModel::Complete {
            payload: p,
            consumed: encode_model(p).len() as int,
        }),
{
    let s = encode_model(p);
    assert(s[0] == END);
    assert(s.subrange(1, 1 + stuff(p).len() as int) =~= stuff(p));
    assert(s[1 + stuff(p).len() as int] == END);
    lemma_scan_stuffed(s, 1, Seq::empty(), p);
    assert(Seq::empty() + p =~= p);
}

/// A byte that decodes as itself: neither a boundary nor an escape byte.
pub open spec fn plain_byte(b: u8) -> bool {
    b != END && b != ESC
}

/// A run of plain bytes is unstuffed one byte at a time.
proof fn lemma_scan_plain_run(s: Seq<u8>, i: int, acc: Seq<u8>, k: int)
    requires
        0 <= i <= k,
        k <= s.len(),
        forall|j: int| i <= j < k ==> plain_byte(s[j]),
        acc.len() + (k - i) <= MAX_FRAME_SIZE as nat + 1,
    ensures
        scan(s, i, acc) == scan(s, k, acc + s.subrange(i, k)),
    decreases k - i,
{
    if i == k {
        assert(acc + s.subrange(i, k) =~= acc);
    } else {
        assert(plain_byte(s[i]));
        lemma_scan_plain_run(s, i + 1, acc.push(s[i]), k);
        assert(acc.push(s[i]) + s.subrange(i + 1, k) =~= acc + s.subrange(i, k));
    }
}

/// A broken escape sequence is rejected as malformed: after any run of
/// plain bytes within the size limit, an escape byte followed by anything
/// but the two legal escape codes makes the whole stream malformed.
pub proof fn lemma_broken_escape_malformed(p: Seq<u8>, bad: u8, rest: Seq<u8>)
    requires
        forall|j: int| 0 <= j < p.len() ==> plain_byte(p[j]),
        p.len() <= MAX_FRAME_SIZE as nat,
        bad != ESC_END,
        bad != ESC_ESC,
    ensures
        decode_model(seq![END] + p + seq![ESC, bad] + rest) == DecodeModel::Malformed,
{
    let s = seq![END] + p + seq![ESC, bad] + rest;
    assert(s[0] == END);
    let k = 1 + p.len() as int;
    assert(forall|j: int| 1 <= j < k ==> plain_byte(s[j]));
    lemma_scan_plain_run(s, 1, Seq::empty(), k);
    assert(Seq::empty() + s.subrange(1, k) =~= p);
    assert(s[k] == ESC);
    assert(s[k + 1] == bad);
    assert(scan(s, k, p) == DecodeModel::Malformed);
}

/// A stream whose implied payload exceeds the size limit is rejected as
/// too large before the frame ends, whatever follows in the stream.
pub proof fn lemma_oversized_too_large(p: Seq<u8>, rest: Seq<u8>)
    requires
        forall|j: int| 0 <= j < p.len() ==> plain_byte(p[j]),
        p.len() > MAX_FRAME_SIZE as nat,
    ensures
        decode_model(seq![END] + p + rest) == DecodeModel::TooLarge,
{
    let s = seq![END] + p + rest;
    assert(s[0] == END);
    let k = 1 + MAX_FRAME_SIZE as int + 1;
    assert(forall|j: int| 1 <= j < k ==> plain_byte(s[j]));
    lemma_scan_plain_run(s, 1, Seq::empty(), k);
    assert((Seq::empty() + s.subrange(1, k)).len() == MAX_FRAME_SIZE as nat + 1);
    assert(scan(s, k, Seq::empty() + s.subrange(1, k)) == DecodeModel::TooLarge);
}

} // verus!
