use crate::request::TtsRequest;
use crate::subseq::contains_seq;
use crate::subseq::lemma_contains_at;
use vstd::prelude::*;
use vstd::utf8::encode_utf8;

verus! {

/// The byte of the hexadecimal digit (lower case) for `d`.
pub open spec fn hex_digit(d: int) -> u8 {
    if d < 10 {
        (0x30 + d) as u8
    } else {
        (0x57 + d) as u8
    }
}

/// The JSON string-escape of one byte of UTF-8 text.  Quote and backslash get
/// a two-byte escape, the common control characters their short form, the
/// remaining control characters their \u00XX form, and every other byte
/// stands for itself (bytes of a multi-byte UTF-8 sequence pass through).
pub open spec fn escape_byte(b: u8) -> Seq<u8> {
    if b == 0x22 {
        seq![0x5cu8, 0x22u8]
    } else if b == 0x5c {
        seq![0x5cu8, 0x5cu8]
    } else if b == 0x08 {
        seq![0x5cu8, 0x62u8]
    } else if b == 0x09 {
        seq![0x5cu8, 0x74u8]
    } else if b == 0x0a {
        seq![0x5cu8, 0x6eu8]
    } else if b == 0x0c {
        seq![0x5cu8, 0x66u8]
    } else if b == 0x0d {
        seq![0x5cu8, 0x72u8]
    } else if b < 0x20 {
        seq![0x5cu8, 0x75u8, 0x30u8, 0x30u8, hex_digit(b as int / 16), hex_digit(b as int % 16)]
    } else {
        seq![b]
    }
}

/// The JSON string-escape of a sequence of UTF-8 text bytes.
pub open spec fn escape_bytes(s: Seq<u8>) -> Seq<u8>
    decreases s.len(),
{
    if s.len() == 0 {
        Seq::empty()
    } else {
        escape_byte(s[0]) + escape_bytes(s.drop_first())
    }
}

/// Escaping distributes over appending one byte.
pub proof fn lemma_escape_bytes_push(s: Seq<u8>, b: u8)
    ensures
        escape_bytes(s.push(b)) == escape_bytes(s) + escape_byte(b),
    decreases s.len(),
{
    if s.len() == 0 {
        assert(s.push(b)[0] == b);
        assert(s.push(b).drop_first() =~= Seq::<u8>::empty());
        assert(escape_bytes(s.push(b)) == escape_byte(b) + escape_bytes(Seq::<u8>::empty()));
        assert(escape_bytes(s.push(b)) =~= escape_bytes(s) + escape_byte(b));
    } else {
        assert(s.push(b).drop_first() =~= s.drop_first().push(b));
        lemma_escape_bytes_push(s.drop_first(), b);
        assert(escape_bytes(s.push(b)) =~= escape_bytes(s) + escape_byte(b));
    }
}

/// The byte of the hexadecimal digit (lower case) for `d`.
fn hex_digit_byte(d: u8) -> (r: u8)
    requires
        d < 16,
    ensures
        r == hex_digit(d as int),
{
    if d < 10 {
        0x30 + d
    } else {
        0x57 + d
    }
}

/// Appends the JSON escape of `b` to `out`.
fn push_escaped_byte(out: &mut Vec<u8>, b: u8)
    ensures
        final(out)@ == old(out)@ + escape_byte(b),
{
    if b == 0x22 {
        out.push(0x5c);
        out.push(0x22);
    } else if b == 0x5c {
        out.push(0x5c);
        out.push(0x5c);
    } else if b == 0x08 {
        out.push(0x5c);
        out.push(0x62);
    } else if b == 0x09 {
        out.push(0x5c);
        out.push(0x74);
    } else if b == 0x0a {
        out.push(0x5c);
        out.push(0x6e);
    } else if b == 0x0c {
        out.push(0x5c);
        out.push(0x66);
    } else if b == 0x0d {
        out.push(0x5c);
        out.push(0x72);
    } else if b < 0x20 {
        out.push(0x5c);
        out.push(0x75);
        out.push(0x30);
        out.push(0x30);
        out.push(hex_digit_byte(b / 16));
        out.push(hex_digit_byte(b % 16));
    } else {
        out.push(b);
    }
    proof {
        assert(out@ =~= old(out)@ + escape_byte(b));
    }
}

/// Appends the bytes of `bytes` to `out` unchanged.
fn append_bytes(out: &mut Vec<u8>, bytes: &[u8])
    ensures
        final(out)@ == old(out)@ + bytes@,
{
    let n: usize = bytes.len();
    let mut i: usize = 0;
    proof {
        assert(out@ =~= old(out)@ + bytes@.subrange(0, 0));
    }
    while i < n
        invariant
            n == bytes@.len(),
            i <= n,
            out@ == old(out)@ + bytes@.subrange(0, i as int),
        decreases n - i,
    {
        out.push(bytes[i]);
        proof {
            assert(bytes@.subrange(0, i as int).push(bytes@[i as int]) =~= bytes@.subrange(
                0,
                i as int + 1,
            ));
            assert(out@ =~= old(out)@ + bytes@.subrange(0, i as int + 1));
        }
        i = i + 1;
    }
    proof {
        assert(bytes@.subrange(0, n as int) =~= bytes@);
    }
}

/// Appends the JSON escape of every UTF-8 byte of `s` to `out`.
fn push_escaped(out: &mut Vec<u8>, s: &str)
    ensures
        final(out)@ == old(out)@ + escape_bytes(encode_utf8(s@)),
{
    let bytes: &[u8] = s.as_bytes();
    let n: usize = bytes.len();
    let mut i: usize = 0;
    proof {
        assert(out@ =~= old(out)@ + escape_bytes(bytes@.subrange(0, 0)));
    }
    while i < n
        invariant
            n == bytes@.len(),
            i <= n,
            out@ == old(out)@ + escape_bytes(bytes@.subrange(0, i as int)),
        decreases n - i,
    {
        push_escaped_byte(out, bytes[i]);
        proof {
            assert(bytes@.subrange(0, i as int).push(bytes@[i as int]) =~= bytes@.subrange(
                0,
                i as int + 1,
            ));
            lemma_escape_bytes_push(bytes@.subrange(0, i as int), bytes@[i as int]);
            assert(out@ =~= old(out)@ + escape_bytes(bytes@.subrange(0, i as int + 1)));
        }
        i = i + 1;
    }
    proof {
        assert(bytes@.subrange(0, n as int) =~= bytes@);
    }
}

/// The bytes of the outbound JSON body for the three transmitted fields, each
/// given as the UTF-8 bytes of its text: the fields stand in order, each
/// JSON-escaped, inside a fixed frame.
pub open spec fn spec_tts_body(text: Seq<u8>, reference_id: Seq<u8>, format: Seq<u8>) -> Seq<u8> {
    encode_utf8("{\"text\":\""@) + escape_bytes(text) + encode_utf8("\",\"reference_id\":\""@)
        + escape_bytes(reference_id) + encode_utf8("\",\"format\":\""@) + escape_bytes(format)
        + encode_utf8("\"}"@)
}

/// Builds the outbound JSON body for `req`.  The model field is accepted in
/// the request but not transmitted; the credential travels only in the
/// Authorization header.
pub fn build_tts_body(req: &TtsRequest) -> (r: Vec<u8>)
    ensures
        r@ == spec_tts_body(
            encode_utf8(req.text@),
            encode_utf8(req.reference_id@),
            encode_utf8(req.format@),
        ),
{
    let mut out: Vec<u8> = Vec::new();
    append_bytes(&mut out, "{\"text\":\"".as_bytes());
    push_escaped(&mut out, req.text.as_str());
    append_bytes(&mut out, "\",\"reference_id\":\"".as_bytes());
    push_escaped(&mut out, req.reference_id.as_str());
    append_bytes(&mut out, "\",\"format\":\"".as_bytes());
    push_escaped(&mut out, req.format.as_str());
    append_bytes(&mut out, "\"}".as_bytes());
    proof {
        assert(out@ =~= spec_tts_body(
            encode_utf8(req.text@),
            encode_utf8(req.reference_id@),
            encode_utf8(req.format@),
        ));
    }
    out
}

/// The format a request asks for is propagated into the outbound body: its
/// escaped bytes stand contiguously in the built body.
pub proof fn lemma_body_contains_format(text: Seq<u8>, reference_id: Seq<u8>, format: Seq<u8>)
    ensures
        contains_seq(spec_tts_body(text, reference_id, format), escape_bytes(format)),
{
    let body = spec_tts_body(text, reference_id, format);
    let prefix = encode_utf8("{\"text\":\""@) + escape_bytes(text) + encode_utf8(
        "\",\"reference_id\":\""@,
    ) + escape_bytes(reference_id) + encode_utf8("\",\"format\":\""@);
    let at = prefix.len() as int;
    assert(body.subrange(at, at + escape_bytes(format).len()) =~= escape_bytes(format));
    lemma_contains_at(body, escape_bytes(format), at);
}

} // verus!
