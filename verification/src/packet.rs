use vstd::prelude::*;
use crate::scalar::{Real, mul_real, div_real};
use crate::strnum::{dec_spec, dec_of_u64};

verus! {

// A packet is the smallest unit the transport layer moves: what matters
// to the model is its size (MB), how its encoding shrinks it, and what
// decoding it costs (computing capacity is read as MB/ms).

/// How a packet is encoded: a compression ratio and a decode-cost
/// coefficient.
pub enum EncodeStyle {
    /// Full compression: the smallest wire size, the full decode cost.
    FullCompress(Real, Real),
    /// Partial compression: trades wire size for decode time.
    PartCompress(Real, Real),
}

/// The compression ratio of a style.
pub open spec fn ratio_spec(s: EncodeStyle) -> Seq<char> {
    match s {
        EncodeStyle::FullCompress(r, _) => r@,
        EncodeStyle::PartCompress(r, _) => r@,
    }
}

/// The decode-cost coefficient of a style.
pub open spec fn coefficient_spec(s: EncodeStyle) -> Seq<char> {
    match s {
        EncodeStyle::FullCompress(_, c) => c@,
        EncodeStyle::PartCompress(_, c) => c@,
    }
}

impl EncodeStyle {
    /// The default encoding: full compression to 95 percent, decoding at
    /// one times the decode capacity.
    pub fn default_compress() -> (s: Self)
        ensures
            s matches EncodeStyle::FullCompress(r, c) && r@ == "0.95"@ && c@ == "1"@,
    {
        Self::FullCompress(Real::from_repr("0.95"), Real::from_repr("1"))
    }

    /// A partial compression with the given ratio and decode coefficient.
    pub fn part_compress(compress_ratio: Real, decode_ratio: Real) -> (s: Self)
        ensures
            s matches EncodeStyle::PartCompress(r, c) && r@ == compress_ratio@ && c@
                == decode_ratio@,
    {
        Self::PartCompress(compress_ratio, decode_ratio)
    }
}

impl Default for EncodeStyle {
    fn default() -> (s: Self)
        ensures
            s matches EncodeStyle::FullCompress(r, c) && r@ == "0.95"@ && c@ == "1"@,
    {
        EncodeStyle::default_compress()
    }
}

/// The mathematical value of a packet.
pub ghost struct PacketV {
    pub size: nat,
    pub ratio: Seq<char>,
    pub coefficient: Seq<char>,
}

/// A packet: a size in MB and an encoding style.
pub struct Packet {
    size: usize,
    encode_style: EncodeStyle,
}

impl View for Packet {
    type V = PacketV;

    closed spec fn view(&self) -> PacketV {
        PacketV {
            size: self.size as nat,
            ratio: ratio_spec(self.encode_style),
            coefficient: coefficient_spec(self.encode_style),
        }
    }
}

/// The encoded size: `size * ratio`.
pub open spec fn encode_size_spec(p: PacketV) -> Seq<char> {
    mul_real(dec_spec(p.size), p.ratio)
}

/// The decode time: `encoded size / (decode ability * coefficient)`.
pub open spec fn decode_time_spec(p: PacketV, decode_ability: Seq<char>) -> Seq<char> {
    div_real(encode_size_spec(p), mul_real(decode_ability, p.coefficient))
}

impl Packet {
    /// A packet of the given size and encoding.
    pub fn new(encode_style: EncodeStyle, size: usize) -> (p: Self)
        ensures
            p@.size == size,
            p@.ratio == ratio_spec(encode_style),
            p@.coefficient == coefficient_spec(encode_style),
    {
        Self { size, encode_style }
    }

    /// The size on the wire after encoding: the size scaled by the
    /// compression ratio.
    pub fn encode_size(&self) -> (r: Real)
        ensures
            r@ == encode_size_spec(self@),
    {
        let ratio = match &self.encode_style {
            EncodeStyle::FullCompress(r, _) => r,
            EncodeStyle::PartCompress(r, _) => r,
        };
        Real { repr: dec_of_u64(self.size as u64) }.mul(ratio)
    }

    /// How long decoding takes under the given decode ability: the
    /// encoded size over the ability scaled by the coefficient.
    pub fn decode_time(&self, decode_ability: &Real) -> (r: Real)
        ensures
            r@ == decode_time_spec(self@, decode_ability@),
    {
        let coefficient = match &self.encode_style {
            EncodeStyle::FullCompress(_, c) => c,
            EncodeStyle::PartCompress(_, c) => c,
        };
        self.encode_size().div(&decode_ability.mul(coefficient))
    }
}

impl Default for Packet {
    /// A ten-megabyte packet under the default encoding.
    fn default() -> (p: Self)
        ensures
            p@.size == 10,
            p@.ratio == "0.95"@,
            p@.coefficient == "1"@,
    {
        Self { size: 10, encode_style: EncodeStyle::default_compress() }
    }
}

} // verus!
