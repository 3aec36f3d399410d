use vkjam::shader::{read_shader_from_bytes, ShaderError, SPIRV_MAGIC_NUMBER};

fn le(words: &[u32]) -> Vec<u8> {
    words.iter().flat_map(|w| w.to_le_bytes()).collect()
}

fn be(words: &[u32]) -> Vec<u8> {
    words.iter().flat_map(|w| w.to_be_bytes()).collect()
}

#[test]
fn magic_number_value() {
    assert_eq!(SPIRV_MAGIC_NUMBER, 0x0723_0203);
}

#[test]
fn little_endian_module_is_read() {
    let words = [SPIRV_MAGIC_NUMBER, 0x0001_0000, 0xDEAD_BEEF];
    assert_eq!(read_shader_from_bytes(&le(&words)), Ok(words.to_vec()));
}

#[test]
fn big_endian_module_gives_the_same_words() {
    let words = [SPIRV_MAGIC_NUMBER, 0x0001_0000, 0xDEAD_BEEF];
    assert_eq!(read_shader_from_bytes(&be(&words)), Ok(words.to_vec()));
    assert_eq!(read_shader_from_bytes(&be(&words)), read_shader_from_bytes(&le(&words)));
}

#[test]
fn explicit_bytes_in_both_orders() {
    let lsb = [0x03, 0x02, 0x23, 0x07, 0x01, 0x00, 0x00, 0x00];
    let msb = [0x07, 0x23, 0x02, 0x03, 0x00, 0x00, 0x00, 0x01];
    assert_eq!(read_shader_from_bytes(&lsb), Ok(vec![SPIRV_MAGIC_NUMBER, 1]));
    assert_eq!(read_shader_from_bytes(&msb), Ok(vec![SPIRV_MAGIC_NUMBER, 1]));
}

#[test]
fn length_not_multiple_of_four_is_refused() {
    let mut bytes = le(&[SPIRV_MAGIC_NUMBER, 5]);
    bytes.push(0);
    assert_eq!(read_shader_from_bytes(&bytes), Err(ShaderError::LengthNotMultipleOfFour));
    assert_eq!(read_shader_from_bytes(&[0x03, 0x02, 0x23]), Err(ShaderError::LengthNotMultipleOfFour));
}

#[test]
fn missing_magic_number_is_refused() {
    assert_eq!(read_shader_from_bytes(&[]), Err(ShaderError::MissingMagicNumber));
    assert_eq!(read_shader_from_bytes(&le(&[1, SPIRV_MAGIC_NUMBER])), Err(ShaderError::MissingMagicNumber));
}
