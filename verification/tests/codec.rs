use vectdb::codec::{bytes_to_vector, vector_to_bytes};

fn to_bits(v: &[f32]) -> Vec<u32> {
    v.iter().map(|x| x.to_bits()).collect()
}

fn from_bits(v: &[u32]) -> Vec<f32> {
    v.iter().map(|x| f32::from_bits(*x)).collect()
}

#[test]
fn test_vector_conversion() {
    let original = vec![1.0, 2.5, -3.15, 0.0];
    let bytes = vector_to_bytes(&to_bits(&original));
    let converted = from_bits(&bytes_to_vector(&bytes));

    assert_eq!(original.len(), converted.len());
    for (a, b) in original.iter().zip(converted.iter()) {
        assert!((a - b).abs() < 0.0001);
    }
}

#[test]
fn test_codec_layout_little_endian() {
    // 1.0f32 is 0x3F800000: little-endian bytes 00 00 80 3F, no header.
    let bytes = vector_to_bytes(&to_bits(&[1.0]));
    assert_eq!(bytes, vec![0x00, 0x00, 0x80, 0x3F]);

    let bytes = vector_to_bytes(&to_bits(&[1.0, -2.0]));
    assert_eq!(bytes.len(), 8);
    assert_eq!(&bytes[4..], &[0x00, 0x00, 0x00, 0xC0]);
}

#[test]
fn test_codec_round_trip_exact_bits() {
    // Negative zero, a NaN pattern, subnormals and infinities all come
    // back bit for bit.
    let patterns: Vec<u32> = vec![
        0x0000_0000, // 0.0
        0x8000_0000, // -0.0
        0x7FC0_0000, // a NaN
        0x0000_0001, // smallest subnormal
        0x7F80_0000, // infinity
        0xFF80_0000, // -infinity
        0x3F80_0000, // 1.0
        0xDEAD_BEEF,
    ];
    let bytes = vector_to_bytes(&patterns);
    assert_eq!(bytes.len(), 4 * patterns.len());
    assert_eq!(bytes_to_vector(&bytes), patterns);
}

#[test]
fn test_codec_empty_vector() {
    let bytes = vector_to_bytes(&Vec::new());
    assert_eq!(bytes.len(), 0);
    assert_eq!(bytes_to_vector(&bytes).len(), 0);
}
