//! Register values on the wire.
//!
//! A register of `width` bytes travels least significant byte first. The
//! encoding is defined over natural numbers, so that one definition serves
//! every register width.

use vstd::prelude::*;

verus! {

/// `256^n`: the number of values that `n` bytes can hold.
pub open spec fn pow256(n: nat) -> nat
    decreases n,
{
    if n == 0 {
        1
    } else {
        256 * pow256((n - 1) as nat)
    }
}

/// The `width` little-endian bytes of `value`.
///
/// Bytes of `value` beyond `width` are dropped.
pub open spec fn le_bytes(value: nat, width: nat) -> Seq<u8>
    decreases width,
{
    if width == 0 {
        Seq::empty()
    } else {
        seq![(value % 256) as u8] + le_bytes(value / 256, (width - 1) as nat)
    }
}

/// The number that `bytes` hold in little-endian order.
pub open spec fn le_value(bytes: Seq<u8>) -> nat
    decreases bytes.len(),
{
    if bytes.len() == 0 {
        0
    } else {
        bytes[0] as nat + 256 * le_value(bytes.drop_first())
    }
}

/// `pow256` on the widths that fit a machine word.
pub proof fn lemma_pow256_values()
    ensures
        pow256(0) == 1,
        pow256(1) == 0x100,
        pow256(2) == 0x1_0000,
        pow256(3) == 0x100_0000,
        pow256(4) == 0x1_0000_0000,
        pow256(5) == 0x100_0000_0000,
        pow256(6) == 0x1_0000_0000_0000,
        pow256(7) == 0x100_0000_0000_0000,
        pow256(8) == 0x1_0000_0000_0000_0000,
{
    reveal_with_fuel(pow256, 9);
}

/// `pow256` never decreases.
pub proof fn lemma_pow256_monotonic(a: nat, b: nat)
    requires
        a <= b,
    ensures
        1 <= pow256(a) <= pow256(b),
    decreases b,
{
    if b > 0 {
        if a < b {
            lemma_pow256_monotonic(a, (b - 1) as nat);
        } else {
            lemma_pow256_monotonic((a - 1) as nat, (b - 1) as nat);
        }
    }
}

/// An encoding has exactly `width` bytes.
pub proof fn lemma_le_bytes_len(value: nat, width: nat)
    ensures
        le_bytes(value, width).len() == width,
    decreases width,
{
    if width > 0 {
        lemma_le_bytes_len(value / 256, (width - 1) as nat);
    }
}

/// Byte `i` of an encoding is digit `i` of the value in base 256.
pub proof fn lemma_le_bytes_index(value: nat, width: nat, i: nat)
    requires
        i < width,
    ensures
        le_bytes(value, width)[i as int] == ((value / pow256(i)) % 256) as u8,
    decreases width,
{
    let rest = le_bytes(value / 256, (width - 1) as nat);
    lemma_le_bytes_len(value / 256, (width - 1) as nat);
    assert(le_bytes(value, width) == seq![(value % 256) as u8] + rest);
    if i > 0 {
        lemma_le_bytes_index(value / 256, (width - 1) as nat, (i - 1) as nat);
        assert(le_bytes(value, width)[i as int] == rest[i - 1]);
        let p = pow256((i - 1) as nat);
        lemma_pow256_monotonic(0, (i - 1) as nat);
        assert(pow256(i) == 256 * p);
        assert(value / 256 / p == value / (256 * p)) by (nonlinear_arith)
            requires
                p > 0,
        ;
    } else {
        assert(pow256(0) == 1);
        assert(le_bytes(value, width)[0] == (value % 256) as u8);
    }
}

/// The bytes of `n` bytes hold a number below `256^n`.
pub proof fn lemma_le_value_bound(bytes: Seq<u8>)
    ensures
        le_value(bytes) < pow256(bytes.len()),
    decreases bytes.len(),
{
    if bytes.len() > 0 {
        lemma_le_value_bound(bytes.drop_first());
    }
}

/// Decoding an encoding gives the value back, for every value that the width
/// can hold.
pub proof fn lemma_decode_encode(value: nat, width: nat)
    requires
        value < pow256(width),
    ensures
        le_value(le_bytes(value, width)) == value,
    decreases width,
{
    if width > 0 {
        let rest = le_bytes(value / 256, (width - 1) as nat);
        lemma_decode_encode(value / 256, (width - 1) as nat);
        assert(le_bytes(value, width).drop_first() =~= rest);
    }
}

/// Encoding a decoded byte sequence at its own length gives the bytes back.
pub proof fn lemma_encode_decode(bytes: Seq<u8>)
    ensures
        le_bytes(le_value(bytes), bytes.len()) == bytes,
    decreases bytes.len(),
{
    if bytes.len() > 0 {
        let tail = bytes.drop_first();
        lemma_encode_decode(tail);
        let value = le_value(bytes);
        assert(value % 256 == bytes[0] as nat);
        assert(value / 256 == le_value(tail));
        assert(le_bytes(value, bytes.len()) =~= bytes);
    } else {
        assert(le_bytes(le_value(bytes), bytes.len()) =~= bytes);
    }
}

/// Encodes `value` in `width` little-endian bytes.
pub fn encode_le(value: u64, width: usize) -> (bytes: Vec<u8>)
    ensures
        bytes@ == le_bytes(value as nat, width as nat),
{
    let mut bytes: Vec<u8> = Vec::new();
    let mut rest: u64 = value;
    let mut i: usize = 0;
    while i < width
        invariant
            i <= width,
            bytes@.len() == i,
            bytes@ + le_bytes(rest as nat, (width - i) as nat) == le_bytes(
                value as nat,
                width as nat,
            ),
        decreases width - i,
    {
        let ghost before = bytes@;
        let ghost tail = le_bytes((rest / 256) as nat, (width - i - 1) as nat);
        bytes.push((rest % 256) as u8);
        proof {
            assert(le_bytes(rest as nat, (width - i) as nat) == seq![(rest % 256) as u8] + tail);
            assert(bytes@ + tail =~= before + (seq![(rest % 256) as u8] + tail));
        }
        rest = rest / 256;
        i = i + 1;
    }
    assert(bytes@ + Seq::<u8>::empty() =~= bytes@);
    bytes
}

/// Decodes up to eight little-endian bytes.
///
/// Longer input does not fit a 64-bit value and gives `None`.
pub fn decode_le(bytes: &[u8]) -> (value: Option<u64>)
    ensures
        bytes@.len() <= 8 ==> value == Some(le_value(bytes@) as u64),
        bytes@.len() <= 8 ==> le_value(bytes@) <= u64::MAX,
        bytes@.len() > 8 ==> value is None,
{
    let n = bytes.len();
    if n > 8 {
        return None;
    }
    let mut value: u64 = 0;
    let mut i: usize = n;
    proof {
        lemma_pow256_values();
        assert(bytes@.subrange(n as int, n as int) =~= Seq::<u8>::empty());
    }
    while i > 0
        invariant
            n == bytes@.len(),
            n <= 8,
            i <= n,
            value == le_value(bytes@.subrange(i as int, n as int)),
            value < pow256((n - i) as nat),
            pow256(8) == 0x1_0000_0000_0000_0000,
        decreases i,
    {
        i = i - 1;
        proof {
            let suffix = bytes@.subrange(i as int, n as int);
            assert(suffix.drop_first() =~= bytes@.subrange(i + 1, n as int));
            assert(suffix[0] == bytes@[i as int]);
            lemma_le_value_bound(suffix);
            lemma_pow256_monotonic((n - i) as nat, 8);
        }
        value = value * 256 + bytes[i] as u64;
    }
    proof {
        assert(bytes@.subrange(0, n as int) =~= bytes@);
        lemma_le_value_bound(bytes@);
        lemma_pow256_monotonic(n as nat, 8);
    }
    Some(value)
}

/// An unsigned integer that has a fixed width on the wire.
pub trait ToLeVec: Copy {
    /// Number of bytes of the encoding.
    spec fn wire_width() -> nat;

    /// The encoded number.
    spec fn wire_value(self) -> nat;

    /// Every value fits the width of its type.
    proof fn lemma_wire_value_fits(self)
        ensures
            self.wire_value() < pow256(Self::wire_width()),
    ;

    /// The little-endian bytes of `self`.
    fn to_le_vec(self) -> (bytes: Vec<u8>)
        ensures
            bytes@ == le_bytes(self.wire_value(), Self::wire_width()),
    ;
}

/// Decoding the bytes that a value of any register width is encoded in gives
/// the value back.
pub proof fn lemma_round_trip<B: ToLeVec>(value: B)
    ensures
        le_bytes(value.wire_value(), B::wire_width()).len() == B::wire_width(),
        le_value(le_bytes(value.wire_value(), B::wire_width())) == value.wire_value(),
{
    value.lemma_wire_value_fits();
    lemma_le_bytes_len(value.wire_value(), B::wire_width());
    lemma_decode_encode(value.wire_value(), B::wire_width());
}

/// An unsigned integer that can be read back from its wire bytes.
pub trait FromLeSlice: ToLeVec {
    /// Decodes `bytes`, which must have exactly the width of `Self`.
    fn from_le_slice(bytes: &[u8]) -> (value: Option<Self>)
        ensures
            bytes@.len() == Self::wire_width() ==> value.is_some() && value.unwrap().wire_value()
                == le_value(bytes@),
            bytes@.len() != Self::wire_width() ==> value.is_none(),
    ;
}

impl ToLeVec for u8 {
    open spec fn wire_width() -> nat {
        1
    }

    open spec fn wire_value(self) -> nat {
        self as nat
    }

    proof fn lemma_wire_value_fits(self) {
        lemma_pow256_values();
    }

    #[inline]
    fn to_le_vec(self) -> (bytes: Vec<u8>) {
        encode_le(self as u64, 1)
    }
}

impl ToLeVec for u16 {
    open spec fn wire_width() -> nat {
        2
    }

    open spec fn wire_value(self) -> nat {
        self as nat
    }

    proof fn lemma_wire_value_fits(self) {
        lemma_pow256_values();
    }

    #[inline]
    fn to_le_vec(self) -> (bytes: Vec<u8>) {
        encode_le(self as u64, 2)
    }
}

impl ToLeVec for u32 {
    open spec fn wire_width() -> nat {
        4
    }

    open spec fn wire_value(self) -> nat {
        self as nat
    }

    proof fn lemma_wire_value_fits(self) {
        lemma_pow256_values();
    }

    #[inline]
    fn to_le_vec(self) -> (bytes: Vec<u8>) {
        encode_le(self as u64, 4)
    }
}

impl ToLeVec for u64 {
    open spec fn wire_width() -> nat {
        8
    }

    open spec fn wire_value(self) -> nat {
        self as nat
    }

    proof fn lemma_wire_value_fits(self) {
        lemma_pow256_values();
    }

    #[inline]
    fn to_le_vec(self) -> (bytes: Vec<u8>) {
        encode_le(self, 8)
    }
}

impl FromLeSlice for u8 {
    fn from_le_slice(bytes: &[u8]) -> (value: Option<Self>) {
        if bytes.len() != 1 {
            return None;
        }
        proof {
            lemma_le_value_bound(bytes@);
            lemma_pow256_values();
        }
        match decode_le(bytes) {
            Some(v) => Some(v as u8),
            None => None,
        }
    }
}

impl FromLeSlice for u16 {
    fn from_le_slice(bytes: &[u8]) -> (value: Option<Self>) {
        if bytes.len() != 2 {
            return None;
        }
        proof {
            lemma_le_value_bound(bytes@);
            lemma_pow256_values();
        }
        match decode_le(bytes) {
            Some(v) => Some(v as u16),
            None => None,
        }
    }
}

impl FromLeSlice for u32 {
    fn from_le_slice(bytes: &[u8]) -> (value: Option<Self>) {
        if bytes.len() != 4 {
            return None;
        }
        proof {
            lemma_le_value_bound(bytes@);
            lemma_pow256_values();
        }
        match decode_le(bytes) {
            Some(v) => Some(v as u32),
            None => None,
        }
    }
}

impl FromLeSlice for u64 {
    fn from_le_slice(bytes: &[u8]) -> (value: Option<Self>) {
        if bytes.len() != 8 {
            return None;
        }
        decode_le(bytes)
    }
}

} // verus!
