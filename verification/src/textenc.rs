use vstd::prelude::*;

verus! {

/// The character sequence that lossy UTF-8 decoding assigns to a byte
/// sequence. It is a function of the bytes alone.
pub uninterp spec fn utf8_lossy_of(b: Seq<u8>) -> Seq<char>;

/// Whether every byte is plain ASCII.
pub open spec fn ascii_bytes(b: Seq<u8>) -> bool {
    forall|k: int| 0 <= k < b.len() ==> #[trigger] b[k] < 128
}

/// Relies on String::from_utf8_lossy: decodes captured engine output to
/// text, substituting the replacement character for invalid sequences. The
/// result depends on the bytes alone; an empty input decodes to empty text;
/// and valid UTF-8 — in particular plain ASCII — is returned unchanged, each
/// byte as its character.
#[verifier::external_body]
pub fn utf8_lossy(b: &[u8]) -> (r: String)
    ensures
        r@ == utf8_lossy_of(b@),
        b@.len() == 0 ==> r@.len() == 0,
        ascii_bytes(b@) ==> r@ == b@.map_values(|x: u8| x as char),
{
    String::from_utf8_lossy(b).into_owned()
}

} // verus!
