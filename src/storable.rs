use vstd::prelude::*;

verus! {

/// A value that occupies storage slots and is kept there as bytes.
///
/// The types given here are leaves: each takes exactly one slot and is
/// stored in the SCALE encoding.
pub trait Storable: Sized {
    /// The number of key slots a value of this type occupies.
    spec fn spec_footprint() -> u64;

    /// The bytes that store `self`.
    spec fn spec_encode(&self) -> Seq<u8>;

    /// The value that `bytes` decode to, or `None` when they do not decode.
    spec fn spec_decode(bytes: Seq<u8>) -> Option<Self>;

    fn footprint() -> (r: u64)
        ensures
            r == Self::spec_footprint(),
            r >= 1,
    ;

    fn encode(&self) -> (r: Vec<u8>)
        ensures
            r@ == self.spec_encode(),
    ;

    fn decode(bytes: &[u8]) -> (r: Option<Self>)
        ensures
            r == Self::spec_decode(bytes@),
    ;

    /// Decoding what a value encodes to gives the value back.
    proof fn lemma_round_trip(v: Self)
        ensures
            Self::spec_decode(v.spec_encode()) == Some(v),
    ;
}

/// The four little-endian bytes of `v` in two's complement.
pub open spec fn i32_le_bytes(v: i32) -> Seq<u8> {
    let u: int = if v >= 0 {
        v as int
    } else {
        v + 0x1_0000_0000
    };
    seq![
        (u % 0x100) as u8,
        (u / 0x100 % 0x100) as u8,
        (u / 0x1_0000 % 0x100) as u8,
        (u / 0x100_0000 % 0x100) as u8,
    ]
}

/// The `i32` whose two's complement little-endian bytes are `b[0..4]`.
pub open spec fn i32_from_le(b: Seq<u8>) -> i32 {
    let u: int = b[0] + 0x100 * b[1] + 0x1_0000 * b[2] + 0x100_0000 * b[3];
    if u < 0x8000_0000 {
        u as i32
    } else {
        (u - 0x1_0000_0000) as i32
    }
}

/// Relies on `parity_scale_codec::Encode` for `u8`: the byte itself.
#[verifier::external_body]
fn scale_encode_u8(v: u8) -> (r: Vec<u8>)
    ensures
        r@ == seq![v],
{
    parity_scale_codec::Encode::encode(&v)
}

/// Relies on `parity_scale_codec::Decode` for `u8`: the first byte, when
/// there is one.
#[verifier::external_body]
fn scale_decode_u8(bytes: &[u8]) -> (r: Option<u8>)
    ensures
        r == if bytes@.len() >= 1 {
            Some(bytes@[0])
        } else {
            None::<u8>
        },
{
    <u8 as parity_scale_codec::Decode>::decode(&mut &bytes[..]).ok()
}

/// Relies on `parity_scale_codec::Encode` for `i32`: its four
/// little-endian bytes.
#[verifier::external_body]
fn scale_encode_i32(v: i32) -> (r: Vec<u8>)
    ensures
        r@ == i32_le_bytes(v),
{
    parity_scale_codec::Encode::encode(&v)
}

/// Relies on `parity_scale_codec::Decode` for `i32`: the number that the
/// first four bytes give little-endian, when there are four.
#[verifier::external_body]
fn scale_decode_i32(bytes: &[u8]) -> (r: Option<i32>)
    ensures
        r == if bytes@.len() >= 4 {
            Some(i32_from_le(bytes@))
        } else {
            None::<i32>
        },
{
    <i32 as parity_scale_codec::Decode>::decode(&mut &bytes[..]).ok()
}

/// Relies on `parity_scale_codec::Encode` for `Option<u8>`: a `0` byte for
/// `None`, a `1` byte and the value for `Some`.
#[verifier::external_body]
fn scale_encode_opt_u8(v: Option<u8>) -> (r: Vec<u8>)
    ensures
        r@ == match v {
            None => seq![0u8],
            Some(x) => seq![1u8, x],
        },
{
    parity_scale_codec::Encode::encode(&v)
}

/// The `Option<u8>` that SCALE decodes from the front of `b`, if any.
pub open spec fn opt_u8_from(b: Seq<u8>) -> Option<Option<u8>> {
    if b.len() >= 1 && b[0] == 0 {
        Some(None)
    } else if b.len() >= 2 && b[0] == 1 {
        Some(Some(b[1]))
    } else {
        None
    }
}

/// Relies on `parity_scale_codec::Decode` for `Option<u8>`: a leading `0`
/// gives `None`, a leading `1` and one more byte gives `Some`, anything else
/// fails.
#[verifier::external_body]
fn scale_decode_opt_u8(bytes: &[u8]) -> (r: Option<Option<u8>>)
    ensures
        r == opt_u8_from(bytes@),
{
    <Option<u8> as parity_scale_codec::Decode>::decode(&mut &bytes[..]).ok()
}

impl Storable for u8 {
    open spec fn spec_footprint() -> u64 {
        1
    }

    open spec fn spec_encode(&self) -> Seq<u8> {
        seq![*self]
    }

    open spec fn spec_decode(bytes: Seq<u8>) -> Option<u8> {
        if bytes.len() >= 1 {
            Some(bytes[0])
        } else {
            None
        }
    }

    fn footprint() -> (r: u64) {
        1
    }

    fn encode(&self) -> (r: Vec<u8>) {
        scale_encode_u8(*self)
    }

    fn decode(bytes: &[u8]) -> (r: Option<u8>) {
        scale_decode_u8(bytes)
    }

    proof fn lemma_round_trip(v: u8) {
    }
}

impl Storable for i32 {
    open spec fn spec_footprint() -> u64 {
        1
    }

    open spec fn spec_encode(&self) -> Seq<u8> {
        i32_le_bytes(*self)
    }

    open spec fn spec_decode(bytes: Seq<u8>) -> Option<i32> {
        if bytes.len() >= 4 {
            Some(i32_from_le(bytes))
        } else {
            None
        }
    }

    fn footprint() -> (r: u64) {
        1
    }

    fn encode(&self) -> (r: Vec<u8>) {
        scale_encode_i32(*self)
    }

    fn decode(bytes: &[u8]) -> (r: Option<i32>) {
        scale_decode_i32(bytes)
    }

    proof fn lemma_round_trip(v: i32) {
        let u: int = if v >= 0 {
            v as int
        } else {
            v + 0x1_0000_0000
        };
        let b = i32_le_bytes(v);
        assert(b[0] + 0x100 * b[1] + 0x1_0000 * b[2] + 0x100_0000 * b[3] == u);
    }
}

impl Storable for Option<u8> {
    open spec fn spec_footprint() -> u64 {
        1
    }

    open spec fn spec_encode(&self) -> Seq<u8> {
        match *self {
            None => seq![0u8],
            Some(x) => seq![1u8, x],
        }
    }

    open spec fn spec_decode(bytes: Seq<u8>) -> Option<Option<u8>> {
        opt_u8_from(bytes)
    }

    fn footprint() -> (r: u64) {
        1
    }

    fn encode(&self) -> (r: Vec<u8>) {
        scale_encode_opt_u8(*self)
    }

    fn decode(bytes: &[u8]) -> (r: Option<Option<u8>>) {
        scale_decode_opt_u8(bytes)
    }

    proof fn lemma_round_trip(v: Option<u8>) {
    }
}

} // verus!
