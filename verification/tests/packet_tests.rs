use ns_core::packet::{EncodeStyle, Packet};
use ns_core::scalar::Real;

#[test]
fn test_default_packet() {
    let p = Packet::default();
    let size: f64 = p.encode_size().repr.parse().unwrap();
    assert_eq!(size, 9.5);
    let t: f64 = p.decode_time(&Real::from_repr("10")).repr.parse().unwrap();
    assert_eq!(t, 0.95); // ms
}

#[test]
fn test_setting_packet() {
    // compression to 0.8, decoding boosted 1.8 times
    let encode = EncodeStyle::part_compress(Real::from_repr("0.8"), Real::from_repr("1.8"));
    let p = Packet::new(encode, 10);
    let size: f64 = p.encode_size().repr.parse().unwrap();
    assert_eq!(size, 8.0);
    let t: f64 = p.decode_time(&Real::from_repr("10")).repr.parse().unwrap();
    assert_eq!(t, 0.4444444444444444);
}
