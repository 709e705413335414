use vstd::prelude::*;

verus! {

/// Byte `i` of `word`, counted from the lowest.
pub open spec fn byte_of(word: u32, i: int) -> u8 {
    ((word as int / if i == 0 {
        1
    } else if i == 1 {
        0x100
    } else if i == 2 {
        0x1_0000
    } else {
        0x100_0000
    }) % 0x100) as u8
}

/// The bytes of `words`, each from its lowest byte up.
pub open spec fn little_endian(words: Seq<u32>) -> Seq<u8> {
    Seq::new(4 * words.len(), |i: int| byte_of(words[i / 4], i % 4))
}

/// The bytes of `words`, each from its highest byte down.
pub open spec fn big_endian(words: Seq<u32>) -> Seq<u8> {
    Seq::new(4 * words.len(), |i: int| byte_of(words[i / 4], 3 - i % 4))
}

/// Whether `bytes` are those of `words`, one word after the other and all in one byte order.
pub open spec fn stored_words(words: Seq<u32>, bytes: Seq<u8>) -> bool {
    bytes == little_endian(words) || bytes == big_endian(words)
}

/// Calls `bytemuck::cast_slice` from `u32` to `u8` and copies the slice that it hands back: the
/// bytes of the words as they lie in memory. Which byte order that is depends on the machine,
/// so only that it is one of the two is said.
#[verifier::external_body]
pub(crate) fn cast_words(words: &[u32]) -> (r: Vec<u8>)
    ensures
        stored_words(words@, r@),
{
    bytemuck::cast_slice::<u32, u8>(words).to_vec()
}

} // verus!
