//! The OSC 52 escape sequence that asks the terminal to put text on the
//! system clipboard: `ESC ] 52 ; c ; <base64 of the UTF-8 bytes> BEL`.
use vstd::prelude::*;
use vstd::string::*;
use base64ct::{Base64, Encoding};
use crate::base64::{base64_decoding, base64_encoding, lemma_base64_round_trip};

verus! {

/// `<Base64 as Encoding>::encode_string` of base64ct: the claim is that the
/// result is the standard padded Base64 of `input` (RFC 4648, section 4),
/// as `base64_encoding` spells it out. base64ct panics when
/// `4 * input.len()` overflows, which `requires` rules out.
#[verifier::external_body]
fn base64_encode_string(input: &[u8]) -> (s: String)
    requires
        input@.len() <= usize::MAX / 4,
    ensures
        s@ == base64_encoding(input@),
{
    Base64::encode_string(input)
}

/// The OSC 52 sequence around an already encoded payload.
pub open spec fn osc52_text(encoded: Seq<char>) -> Seq<char> {
    seq!['\x1b', ']', '5', '2', ';', 'c', ';'] + encoded + seq!['\x07']
}

/// Wraps an encoded payload into the OSC 52 clipboard sequence.
pub fn osc52_frame(encoded: &str) -> (s: String)
    ensures
        s@ == osc52_text(encoded@),
{
    proof {
        reveal_strlit("\x1b]52;c;");
        reveal_strlit("\x07");
    }
    let mut s = String::from_str("\x1b]52;c;");
    s.append(encoded);
    s.append("\x07");
    assert(s@ =~= osc52_text(encoded@));
    s
}

/// The OSC 52 sequence that sets the clipboard to `payload`: its UTF-8
/// bytes are Base64-encoded and framed.
pub fn osc52_sequence(payload: &str) -> (s: String)
    requires
        payload.spec_bytes().len() <= usize::MAX / 4,
    ensures
        s@ == osc52_text(base64_encoding(payload.spec_bytes())),
{
    let bytes = payload.as_bytes();
    let encoded = base64_encode_string(bytes);
    osc52_frame(encoded.as_str())
}

/// The clipboard sequence starts with `ESC ] 52 ; c ;`, ends with BEL, and
/// what stands between decodes to the payload's bytes.
pub proof fn lemma_osc52_payload_decodes(payload: Seq<u8>)
    ensures
        ({
            let t = osc52_text(base64_encoding(payload));
            &&& t.len() >= 8
            &&& t.subrange(0, 7) == seq!['\x1b', ']', '5', '2', ';', 'c', ';']
            &&& t[t.len() - 1] == '\x07'
            &&& base64_decoding(t.subrange(7, t.len() - 1)) == payload
        }),
{
    let e = base64_encoding(payload);
    let t = osc52_text(e);
    lemma_base64_round_trip(payload);
    assert(t.subrange(0, 7) =~= seq!['\x1b', ']', '5', '2', ';', 'c', ';']);
    assert(t.subrange(7, t.len() - 1) =~= e);
}

} // verus!
