//! Turning a program image of little-endian 16-bit words into memory words.

use vstd::prelude::*;

verus! {

/// The word stored little-endian in bytes `lo`, `hi`.
pub open spec fn le_word(lo: u8, hi: u8) -> u16 {
    (lo as int + 256 * (hi as int)) as u16
}

/// The words of an image, in file order; a trailing odd byte is no word.
pub open spec fn image_words(content: Seq<u8>) -> Seq<u16> {
    Seq::new(content.len() / 2, |i: int| le_word(content[2 * i], content[2 * i + 1]))
}

/// Reads consecutive little-endian word pairs from `content`. A trailing
/// odd byte is dropped.
pub fn transform_bytes_to_program_code(content: &[u8]) -> (r: Vec<u16>)
    ensures
        r@ == image_words(content@),
{
    let mut program_code: Vec<u16> = Vec::new();
    let n = content.len() / 2;
    let mut i: usize = 0;
    while i < n
        invariant
            n == content@.len() / 2,
            content@.len() <= usize::MAX,
            i <= n,
            program_code@ == image_words(content@).take(i as int),
        decreases n - i,
    {
        assert(2 * i + 1 < content@.len());
        let lo = content[2 * i];
        let hi = content[2 * i + 1];
        program_code.push(lo as u16 + 256 * (hi as u16));
        i = i + 1;
        assert(program_code@ =~= image_words(content@).take(i as int));
    }
    assert(program_code@ =~= image_words(content@));
    program_code
}

} // verus!
