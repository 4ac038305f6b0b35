use rathole::{
    encode_keypair, generate_noise_keypair, handshake_pattern, noise_pattern, KeypairError, NoiseCurve,
    DEFAULT_NOISE_CURVE,
};

#[test]
fn pattern_names_the_curve() {
    assert_eq!(handshake_pattern(NoiseCurve::X25519), "Noise_KK_25519_ChaChaPoly_BLAKE2s");
    assert_eq!(handshake_pattern(NoiseCurve::X448), "Noise_KK_448_ChaChaPoly_BLAKE2s");
    assert_eq!(DEFAULT_NOISE_CURVE, NoiseCurve::X25519);
}

#[test]
fn encode_keypair_is_standard_base64() {
    let (private, public) = encode_keypair(b"hello world", &[0xfb, 0xff]);
    assert_eq!(private, "aGVsbG8gd29ybGQ=");
    assert_eq!(public, "+/8=");
    let (empty, _) = encode_keypair(&[], &[]);
    assert_eq!(empty, "");
}

#[test]
fn default_curve_gives_32_byte_keys() {
    let (private, public) = generate_noise_keypair(None).unwrap();
    assert_eq!(private.len(), 44);
    assert_eq!(public.len(), 44);
    assert_ne!(private, public);
    let (p2, _) = generate_noise_keypair(Some(NoiseCurve::X25519)).unwrap();
    assert_ne!(private, p2);
}

#[test]
fn unsupported_curve_fails_to_generate() {
    assert_eq!(generate_noise_keypair(Some(NoiseCurve::X448)), Err(KeypairError::Generate));
}

#[test]
fn absent_curve_requests_default_pattern() {
    assert_eq!(noise_pattern(None), "Noise_KK_25519_ChaChaPoly_BLAKE2s");
    assert_eq!(noise_pattern(Some(NoiseCurve::X25519)), "Noise_KK_25519_ChaChaPoly_BLAKE2s");
    assert_eq!(noise_pattern(Some(NoiseCurve::X448)), "Noise_KK_448_ChaChaPoly_BLAKE2s");
}
