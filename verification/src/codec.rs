//! Wire framing of the echo messages.
//!
//! Both echo message types hold a single free-text field, so one frame
//! serves both: a tag byte (field one, length-delimited), a one-byte
//! length, then the text's bytes. The empty message is framed as no
//! bytes at all — an absent field stands for the default value. The
//! text is kept under 128 bytes so that the length always fits the one
//! byte; the benchmark's payloads are far shorter.

use vstd::prelude::*;

verus! {

/// Tag of the message field: field number one, length-delimited.
pub const MESSAGE_FIELD_TAG: u8 = 0x0a;

/// Longest text, in bytes, that the one-byte length can frame.
pub const MAX_TEXT_LEN: usize = 127;

/// The frame of a message whose text is `m`.
pub open spec fn encoded(m: Seq<u8>) -> Seq<u8>
    recommends
        m.len() <= MAX_TEXT_LEN,
{
    if m.len() == 0 {
        Seq::empty()
    } else {
        seq![MESSAGE_FIELD_TAG, m.len() as u8] + m
    }
}

/// Whether `d` is the frame of some message.
pub open spec fn well_framed(d: Seq<u8>) -> bool {
    ||| d.len() == 0
    ||| (d.len() >= 3 && d[0] == MESSAGE_FIELD_TAG && 1 <= d[1] <= MAX_TEXT_LEN && d.len() == 2
        + d[1])
}

/// The text inside a well-formed frame.
pub open spec fn decoded_text(d: Seq<u8>) -> Seq<u8>
    recommends
        well_framed(d),
{
    if d.len() == 0 {
        Seq::empty()
    } else {
        d.subrange(2, d.len() as int)
    }
}

/// A frame that does not parse.
#[derive(Clone, Copy, Debug, PartialEq, Eq, Structural)]
pub enum DecodeError {
    /// The bytes are not the frame of any message.
    Malformed,
}

/// Frame a message text.
pub fn encode_message(text: &Vec<u8>) -> (r: Vec<u8>)
    requires
        text@.len() <= MAX_TEXT_LEN,
    ensures
        r@ == encoded(text@),
{
    let mut out: Vec<u8> = Vec::new();
    if text.len() == 0 {
        proof {
            assert(out@ =~= encoded(text@));
        }
        return out;
    }
    out.push(MESSAGE_FIELD_TAG);
    out.push(text.len() as u8);
    let mut k: usize = 0;
    while k < text.len()
        invariant
            k <= text@.len() <= MAX_TEXT_LEN,
            out@.len() == 2 + k,
            out@[0] == MESSAGE_FIELD_TAG,
            out@[1] == text@.len() as u8,
            forall|i: int| 0 <= i < k ==> out@[2 + i] == text@[i],
        decreases text@.len() - k,
    {
        out.push(text[k]);
        k = k + 1;
    }
    proof {
        assert(out@ =~= encoded(text@));
    }
    out
}

/// Parse a frame back into its message text. Exactly the well-formed
/// frames parse; everything else is malformed.
pub fn decode_message(data: &Vec<u8>) -> (r: Result<Vec<u8>, DecodeError>)
    ensures
        r is Ok <==> well_framed(data@),
        r is Ok ==> r->Ok_0@ == decoded_text(data@),
{
    if data.len() == 0 {
        let out: Vec<u8> = Vec::new();
        proof {
            assert(out@ =~= decoded_text(data@));
        }
        return Ok(out);
    }
    if data.len() < 3 || data[0] != MESSAGE_FIELD_TAG {
        return Err(DecodeError::Malformed);
    }
    let len = data[1] as usize;
    if len < 1 || len > MAX_TEXT_LEN || data.len() != 2 + len {
        return Err(DecodeError::Malformed);
    }
    let mut text: Vec<u8> = Vec::new();
    let mut k: usize = 0;
    while k < len
        invariant
            k <= len <= MAX_TEXT_LEN,
            data@.len() == 2 + len,
            text@.len() == k,
            forall|i: int| 0 <= i < k ==> text@[i] == data@[2 + i],
        decreases len - k,
    {
        text.push(data[2 + k]);
        k = k + 1;
    }
    proof {
        assert(text@ =~= decoded_text(data@));
    }
    Ok(text)
}

/// Framing loses nothing: every message below the length bound comes
/// back unchanged from its own frame.
pub proof fn lemma_frame_round_trip(m: Seq<u8>)
    requires
        m.len() <= MAX_TEXT_LEN,
    ensures
        well_framed(encoded(m)),
        decoded_text(encoded(m)) == m,
{
    if m.len() > 0 {
        assert(encoded(m).subrange(2, encoded(m).len() as int) =~= m);
    }
}

/// The echo service, seen at the wire: parse the request's frame, apply
/// the echo rule — the response's text is the request's text — and
/// frame the response. On every well-formed request the reply bytes
/// equal the request bytes; nothing else is answered.
pub fn serve_echo_frame(request: &Vec<u8>) -> (r: Result<Vec<u8>, DecodeError>)
    ensures
        r is Ok <==> well_framed(request@),
        r is Ok ==> r->Ok_0@ == request@,
{
    let text = match decode_message(request) {
        Ok(text) => text,
        Err(e) => {
            return Err(e);
        },
    };
    let reply = encode_message(&text);
    proof {
        lemma_frame_round_trip(decoded_text(request@));
        if request@.len() > 0 {
            assert(encoded(decoded_text(request@)) =~= request@);
        }
    }
    Ok(reply)
}

} // verus!
