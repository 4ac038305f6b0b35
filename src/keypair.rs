use vstd::prelude::*;

use crate::options::NoiseCurve;
use snowstorm::{Builder, NoiseParams};

verus! {

#[verifier::external_type_specification]
#[verifier::external_body]
pub struct ExNoiseParams(NoiseParams);

#[verifier::external_type_specification]
#[verifier::external_body]
pub struct ExBuilder<'builder>(Builder<'builder>);

#[verifier::external_type_specification]
#[verifier::external_body]
pub struct ExSnowError(snowstorm::snow::Error);

/// The standard padded base64 text of some bytes.
pub uninterp spec fn base64_of(b: Seq<u8>) -> Seq<char>;

/// Relies on base64::encode: the standard alphabet with padding, a function
/// of the bytes alone.
#[verifier::external_body]
fn base64_encode(b: &[u8]) -> (r: String)
    ensures
        r@ == base64_of(b@),
{
    base64::encode(b)
}

/// Relies on snow's `FromStr` for `NoiseParams`: parses a handshake pattern
/// name, or fails with snow's error. The two names built here are made of
/// parts that snow's parser knows (`Noise`, `KK`, `25519` or `448`,
/// `ChaChaPoly`, `BLAKE2s`), so they parse.
#[verifier::external_body]
fn parse_pattern(pattern: &str) -> (r: Result<NoiseParams, snowstorm::snow::Error>)
    ensures
        pattern@ == pattern_of(NoiseCurve::X25519) || pattern@ == pattern_of(NoiseCurve::X448)
            ==> r is Ok,
{
    pattern.parse()
}

pub assume_specification<'builder>[ Builder::<'builder>::new ](params: NoiseParams) -> Builder<
    'builder,
>;

/// Relies on snow::Builder::generate_keypair: a fresh random key pair for the
/// pattern's curve, handed out as (private, public) bytes, or snow's error
/// when no implementation of the curve is available.
#[verifier::external_body]
fn generate_keypair(builder: &Builder) -> (r: Result<(Vec<u8>, Vec<u8>), snowstorm::snow::Error>) {
    builder.generate_keypair().map(|k| (k.private, k.public))
}

/// The curve used when none is asked for.
pub const DEFAULT_NOISE_CURVE: NoiseCurve = NoiseCurve::X25519;

/// Why no key pair was made.
#[derive(Clone, Copy, Debug, PartialEq, Eq, Structural)]
pub enum KeypairError {
    /// The handshake pattern for the curve was rejected.
    Pattern,
    /// The key pair could not be generated for the curve.
    Generate,
}

/// The name of the one-time handshake pattern built for `curve`.
pub open spec fn pattern_of(curve: NoiseCurve) -> Seq<char> {
    match curve {
        NoiseCurve::X25519 => "Noise_KK_25519_ChaChaPoly_BLAKE2s"@,
        NoiseCurve::X448 => "Noise_KK_448_ChaChaPoly_BLAKE2s"@,
    }
}

/// The handshake pattern name for `curve`.
pub fn handshake_pattern(curve: NoiseCurve) -> (r: &'static str)
    ensures
        r@ == pattern_of(curve),
{
    match curve {
        NoiseCurve::X25519 => {
            proof {
                reveal_strlit("Noise_KK_25519_ChaChaPoly_BLAKE2s");
            }
            "Noise_KK_25519_ChaChaPoly_BLAKE2s"
        },
        NoiseCurve::X448 => {
            proof {
                reveal_strlit("Noise_KK_448_ChaChaPoly_BLAKE2s");
            }
            "Noise_KK_448_ChaChaPoly_BLAKE2s"
        },
    }
}

/// The curve asked for, or the default curve when none is.
pub open spec fn curve_or_default(curve: Option<NoiseCurve>) -> NoiseCurve {
    match curve {
        Some(c) => c,
        None => NoiseCurve::X25519,
    }
}

/// The handshake pattern name requested for `curve`, the default curve when
/// none is given.
pub fn noise_pattern(curve: Option<NoiseCurve>) -> (r: &'static str)
    ensures
        r@ == pattern_of(curve_or_default(curve)),
{
    let curve = match curve {
        Some(c) => c,
        None => DEFAULT_NOISE_CURVE,
    };
    handshake_pattern(curve)
}

/// Encodes a generated key pair as (private, public) base64 text.
pub fn encode_keypair(private: &[u8], public: &[u8]) -> (r: (String, String))
    ensures
        r.0@ == base64_of(private@),
        r.1@ == base64_of(public@),
{
    (base64_encode(private), base64_encode(public))
}

/// Generates a fresh handshake key pair on `curve` (the default curve when
/// none is given) and returns its (private, public) halves as base64 text.
pub fn generate_noise_keypair(curve: Option<NoiseCurve>) -> (r: Result<
    (String, String),
    KeypairError,
>)
    ensures
        r is Ok ==> exists|private: Seq<u8>, public: Seq<u8>|
            r->Ok_0.0@ == base64_of(private) && r->Ok_0.1@ == base64_of(public),
        r is Err ==> r->Err_0 == KeypairError::Generate,
{
    let params = match parse_pattern(noise_pattern(curve)) {
        Ok(p) => p,
        Err(_) => {
            return Err(KeypairError::Pattern);
        },
    };
    let builder = Builder::new(params);
    match generate_keypair(&builder) {
        Ok((private, public)) => {
            let r = encode_keypair(private.as_slice(), public.as_slice());
            Ok(r)
        },
        Err(_) => Err(KeypairError::Generate),
    }
}

} // verus!
