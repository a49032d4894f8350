use vstd::prelude::*;

verus! {

/// The lowercase hexadecimal digit for `n`, which is below 16.
pub open spec fn hex_digit(n: u8) -> char {
    seq!['0', '1', '2', '3', '4', '5', '6', '7', '8', '9', 'a', 'b', 'c', 'd', 'e', 'f'][n as int]
}

/// `bytes` written in lowercase hexadecimal, two digits per byte, the high
/// half of each byte first.
pub open spec fn hex_of(bytes: Seq<u8>) -> Seq<char>
    decreases bytes.len(),
{
    if bytes.len() == 0 {
        Seq::empty()
    } else {
        seq![hex_digit(bytes[0] / 16), hex_digit(bytes[0] % 16)] + hex_of(bytes.drop_first())
    }
}

/// Relies on hex::encode: each byte becomes two lowercase hex digits, high
/// half first, in the order of the bytes.
#[verifier::external_body]
fn encode_hex(bytes: &Vec<u8>) -> (r: String)
    ensures
        r@ == hex_of(bytes@),
{
    hex::encode(bytes)
}

/// The label a program is shown under: its digest in lowercase hexadecimal.
pub fn hash_label(digest: &Vec<u8>) -> (r: String)
    ensures
        r@ == hex_of(digest@),
        r@.len() == 2 * digest@.len(),
{
    let r = encode_hex(digest);
    proof {
        lemma_hex_len(digest@);
    }
    r
}

/// Hexadecimal text is twice as long as the bytes it encodes.
pub proof fn lemma_hex_len(bytes: Seq<u8>)
    ensures
        hex_of(bytes).len() == 2 * bytes.len(),
    decreases bytes.len(),
{
    if bytes.len() > 0 {
        lemma_hex_len(bytes.drop_first());
    }
}

} // verus!
