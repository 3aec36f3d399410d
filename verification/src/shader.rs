use vstd::prelude::*;

verus! {

/// The first word of every SPIR-V module.
pub const SPIRV_MAGIC_NUMBER: u32 = 0x0723_0203;

/// Why bytes are not a SPIR-V module.
#[derive(Clone, Copy, PartialEq, Eq, Structural, Debug)]
pub enum ShaderError {
    /// The byte count is not a whole number of words.
    LengthNotMultipleOfFour,
    /// The first word is not the SPIR-V magic number in either byte order.
    MissingMagicNumber,
}

#[verifier::external_type_specification]
#[verifier::external_body]
pub struct ExIoError(std::io::Error);

/// Word `i` of `bytes`, least significant byte first.
pub open spec fn le_word(bytes: Seq<u8>, i: int) -> u32 {
    (bytes[4 * i] as u32) | ((bytes[4 * i + 1] as u32) << 8u32) | ((bytes[4 * i + 2] as u32)
        << 16u32) | ((bytes[4 * i + 3] as u32) << 24u32)
}

/// Word `i` of `bytes`, most significant byte first.
pub open spec fn be_word(bytes: Seq<u8>, i: int) -> u32 {
    ((bytes[4 * i] as u32) << 24u32) | ((bytes[4 * i + 1] as u32) << 16u32) | ((bytes[4 * i
        + 2] as u32) << 8u32) | (bytes[4 * i + 3] as u32)
}

/// All whole words of `bytes`, least significant byte first.
pub open spec fn le_words(bytes: Seq<u8>) -> Seq<u32> {
    Seq::new(bytes.len() / 4, |i: int| le_word(bytes, i))
}

/// All whole words of `bytes`, most significant byte first.
pub open spec fn be_words(bytes: Seq<u8>) -> Seq<u32> {
    Seq::new(bytes.len() / 4, |i: int| be_word(bytes, i))
}

/// The words of a SPIR-V module stored in `bytes`: the byte order is the one
/// in which the first word reads as the magic number. `None` where the
/// length is not a positive multiple of four or no byte order gives the
/// magic number.
pub open spec fn spirv_words(bytes: Seq<u8>) -> Option<Seq<u32>> {
    if bytes.len() % 4 != 0 || bytes.len() == 0 {
        None
    } else if le_word(bytes, 0) == SPIRV_MAGIC_NUMBER {
        Some(le_words(bytes))
    } else if be_word(bytes, 0) == SPIRV_MAGIC_NUMBER {
        Some(be_words(bytes))
    } else {
        None
    }
}

/// Calls `ash::util::read_spv` on the bytes. As its source shows, it fails
/// on a length that is not a multiple of four, reads the words in the
/// machine's byte order, swaps every word where the first reads as the
/// byte-swapped magic number, and fails unless the first word is then the
/// magic number. On either byte order of the machine this gives the words in
/// the byte order in which the first word is the magic number.
#[verifier::external_body]
fn read_spv_bytes(bytes: &[u8]) -> (r: Result<Vec<u32>, std::io::Error>)
    ensures
        match r {
            Ok(words) => spirv_words(bytes@) == Some(words@),
            Err(_) => spirv_words(bytes@) is None,
        },
{
    ash::util::read_spv(&mut std::io::Cursor::new(bytes))
}

/// Decodes a compiled shader: the SPIR-V words of `bytes`, in whichever
/// byte order they were written.
pub fn read_shader_from_bytes(bytes: &[u8]) -> (r: Result<Vec<u32>, ShaderError>)
    ensures
        match r {
            Ok(words) => spirv_words(bytes@) == Some(words@),
            Err(e) => {
                &&& spirv_words(bytes@) is None
                &&& (e is LengthNotMultipleOfFour <==> bytes@.len() % 4 != 0)
            },
        },
{
    match read_spv_bytes(bytes) {
        Ok(words) => Ok(words),
        Err(_) => {
            if bytes.len() % 4 != 0 {
                Err(ShaderError::LengthNotMultipleOfFour)
            } else {
                Err(ShaderError::MissingMagicNumber)
            }
        },
    }
}

/// Byte `j` of `w`, counting from the least significant.
pub open spec fn word_byte(w: u32, j: int) -> u8 {
    if j == 0 {
        w as u8
    } else if j == 1 {
        (w >> 8u32) as u8
    } else if j == 2 {
        (w >> 16u32) as u8
    } else {
        (w >> 24u32) as u8
    }
}

/// `words` written least significant byte first.
pub open spec fn le_bytes(words: Seq<u32>) -> Seq<u8> {
    Seq::new(4 * words.len(), |k: int| word_byte(words[k / 4], k % 4))
}

/// `words` written most significant byte first.
pub open spec fn be_bytes(words: Seq<u32>) -> Seq<u8> {
    Seq::new(4 * words.len(), |k: int| word_byte(words[k / 4], 3 - k % 4))
}

proof fn lemma_word_from_bytes(w: u32)
    by (bit_vector)
    ensures
        ((w as u8) as u32) | ((((w >> 8u32) as u8) as u32) << 8u32) | ((((w >> 16u32) as u8) as u32)
            << 16u32) | ((((w >> 24u32) as u8) as u32) << 24u32) == w,
{
}

proof fn lemma_word_from_bytes_msb_first(w: u32)
    by (bit_vector)
    ensures
        ((((w >> 24u32) as u8) as u32) << 24u32) | ((((w >> 16u32) as u8) as u32) << 16u32) | ((((w
            >> 8u32) as u8) as u32) << 8u32) | ((w as u8) as u32) == w,
{
}

proof fn lemma_swapped_magic_is_not_magic(w: u32)
    by (bit_vector)
    requires
        w == 0x0723_0203u32,
    ensures
        ((((w >> 24u32) as u8) as u32) | ((((w >> 16u32) as u8) as u32) << 8u32) | ((((w
            >> 8u32) as u8) as u32) << 16u32) | (((w as u8) as u32) << 24u32)) != 0x0723_0203u32,
{
}

proof fn lemma_byte_index(i: int, j: int)
    requires
        0 <= j < 4,
    ensures
        (4 * i + j) / 4 == i,
        (4 * i + j) % 4 == j,
{
    assert((4 * i + j) / 4 == i && (4 * i + j) % 4 == j) by (nonlinear_arith)
        requires
            0 <= j < 4,
    ;
}

proof fn lemma_le_word_of_le_bytes(words: Seq<u32>, i: int)
    requires
        0 <= i < words.len(),
    ensures
        le_word(le_bytes(words), i) == words[i],
        be_word(be_bytes(words), i) == words[i],
{
    lemma_byte_index(i, 0);
    lemma_byte_index(i, 1);
    lemma_byte_index(i, 2);
    lemma_byte_index(i, 3);
    lemma_word_from_bytes(words[i]);
    lemma_word_from_bytes_msb_first(words[i]);
}

/// Reading the bytes of a SPIR-V module, written in either byte order,
/// gives back its words.
pub proof fn lemma_spirv_round_trip(words: Seq<u32>)
    requires
        words.len() > 0,
        words[0] == SPIRV_MAGIC_NUMBER,
    ensures
        spirv_words(le_bytes(words)) == Some(words),
        spirv_words(be_bytes(words)) == Some(words),
{
    let le = le_bytes(words);
    let be = be_bytes(words);
    assert(le.len() / 4 == words.len() && le.len() % 4 == 0) by (nonlinear_arith)
        requires
            le.len() == 4 * words.len(),
    ;
    assert(be.len() / 4 == words.len() && be.len() % 4 == 0) by (nonlinear_arith)
        requires
            be.len() == 4 * words.len(),
    ;
    assert forall|i: int| 0 <= i < words.len() implies le_word(le, i) == words[i] && be_word(
        be,
        i,
    ) == words[i] by {
        lemma_le_word_of_le_bytes(words, i);
    }
    assert(le_words(le) =~= words);
    assert(be_words(be) =~= words);
    lemma_byte_index(0, 0);
    lemma_byte_index(0, 1);
    lemma_byte_index(0, 2);
    lemma_byte_index(0, 3);
    lemma_swapped_magic_is_not_magic(words[0]);
}

} // verus!
