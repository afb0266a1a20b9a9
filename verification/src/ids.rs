//! Trace and span identifiers, and their spellings: as bytes, most
//! significant first, and as lower-case hexadecimal text.
//!
//! A trace identifier has 128 bits and a span identifier 64. In both, all-zero
//! bits is the invalid identifier, which stands for "none".

use crate::hex::{
    hex_text, hex_value, lemma_hex_range_fits, lemma_hex_text_len, lemma_hex_value_bound,
    lemma_hex_value_none, lemma_hex_value_of_hex_text, parse_hex, push_hex,
};
use vstd::arithmetic::div_mod::{lemma_breakdown, lemma_div_denominator};
use vstd::prelude::*;

verus! {

/// The value that the bytes `bytes` spell as a big-endian unsigned integer.
pub open spec fn be_value(bytes: Seq<u8>) -> nat
    decreases bytes.len(),
{
    if bytes.len() == 0 {
        0
    } else {
        be_value(bytes.drop_last()) * 256 + bytes.last() as nat
    }
}

/// The `width` low-order bytes of `value`, most significant first.
pub open spec fn be_bytes(value: nat, width: nat) -> Seq<u8>
    decreases width,
{
    if width == 0 {
        Seq::<u8>::empty()
    } else {
        be_bytes(value / 256, (width - 1) as nat).push((value % 256) as u8)
    }
}

/// 256 to the power `width`: how many values `width` bytes can spell.
pub open spec fn byte_range(width: nat) -> nat
    decreases width,
{
    if width == 0 {
        1
    } else {
        256 * byte_range((width - 1) as nat)
    }
}

/// The number of values that eight bytes can spell, 2 to the power 64.
pub const LOW_HALF_RANGE: u128 = 0x1_0000_0000_0000_0000;

/// Any number of bytes can spell at least one value.
pub proof fn lemma_byte_range_positive(width: nat)
    ensures
        byte_range(width) > 0,
    decreases width,
{
    if width > 0 {
        lemma_byte_range_positive((width - 1) as nat);
    }
}

/// Eight bytes spell the values below 2 to the power 64, sixteen bytes those
/// below 2 to the power 128.
pub proof fn lemma_byte_range_eight()
    ensures
        byte_range(8) == LOW_HALF_RANGE,
        byte_range(16) == LOW_HALF_RANGE * LOW_HALF_RANGE,
{
    reveal_with_fuel(byte_range, 17);
}

/// The `width` low-order bytes of a value are `width` bytes.
pub proof fn lemma_be_bytes_len(value: nat, width: nat)
    ensures
        be_bytes(value, width).len() == width,
    decreases width,
{
    if width > 0 {
        lemma_be_bytes_len(value / 256, (width - 1) as nat);
    }
}

/// Reading back the `width` low-order bytes of `value` gives `value` reduced
/// to what `width` bytes can spell.
pub proof fn lemma_be_value_of_be_bytes(value: nat, width: nat)
    ensures
        be_value(be_bytes(value, width)) == value % byte_range(width),
    decreases width,
{
    if width > 0 {
        let rest = be_bytes(value / 256, (width - 1) as nat);
        let all = be_bytes(value, width);
        lemma_be_value_of_be_bytes(value / 256, (width - 1) as nat);
        lemma_byte_range_positive((width - 1) as nat);
        assert(all.drop_last() =~= rest);
        assert(all.last() == (value % 256) as u8);
        lemma_breakdown(value as int, 256, byte_range((width - 1) as nat) as int);
    }
}

/// The last `low` of the `width` low-order bytes of `value` are the `low`
/// low-order bytes of `value`.
pub proof fn lemma_be_bytes_tail(value: nat, width: nat, low: nat)
    requires
        low <= width,
    ensures
        be_bytes(value, width).len() == width,
        be_bytes(value, width).subrange(width - low, width as int) == be_bytes(value, low),
    decreases low,
{
    lemma_be_bytes_len(value, width);
    lemma_be_bytes_len(value, low);
    if low > 0 {
        lemma_be_bytes_tail(value / 256, (width - 1) as nat, (low - 1) as nat);
        lemma_be_bytes_len(value / 256, (width - 1) as nat);
        lemma_be_bytes_len(value / 256, (low - 1) as nat);
        assert(be_bytes(value, width).subrange(width - low, width as int) =~= be_bytes(
            value / 256,
            (width - 1) as nat,
        ).subrange(width - low, width - 1).push((value % 256) as u8));
    } else {
        assert(be_bytes(value, width).subrange(width - low, width as int) =~= be_bytes(value, low));
    }
}

/// A 128-bit trace identifier. All-zero bits is the invalid identifier, which
/// stands for "no trace".
#[derive(Clone, Copy, Debug, PartialEq, Eq, Structural)]
pub struct TraceId(pub u128);

/// A 64-bit span identifier. All-zero bits is the invalid identifier.
#[derive(Clone, Copy, Debug, PartialEq, Eq, Structural)]
pub struct SpanId(pub u64);

/// A 64-bit identifier as the trace-collection agent reads it.
#[derive(Clone, Copy, Debug, PartialEq, Eq, Structural)]
pub struct DatadogId(pub u64);

impl TraceId {
    /// The invalid trace identifier.
    pub fn invalid() -> (id: TraceId)
        ensures
            id == TraceId(0),
    {
        TraceId(0)
    }

    /// The sixteen bytes of the identifier, most significant first.
    pub open spec fn bytes(self) -> Seq<u8> {
        be_bytes(self.0 as nat, 16)
    }

    /// Whether this is an identifier of a trace, not the invalid one.
    pub open spec fn spec_is_valid(self) -> bool {
        self.0 != 0
    }

    /// Whether this is an identifier of a trace, not the invalid one.
    #[verifier::when_used_as_spec(spec_is_valid)]
    pub fn is_valid(self) -> (valid: bool)
        ensures
            valid == self.spec_is_valid(),
    {
        self.0 != 0
    }

    /// The identifier that `text` spells: 32 lower-case hexadecimal digits.
    pub open spec fn spec_from_hex(text: Seq<char>) -> Option<TraceId> {
        match hex_value(text) {
            Some(value) if text.len() == 32 => Some(TraceId(value as u128)),
            _ => None,
        }
    }

    /// Reads an identifier written as 32 lower-case hexadecimal digits.
    pub fn from_hex(text: &str) -> (id: Option<TraceId>)
        ensures
            id == Self::spec_from_hex(text@),
    {
        match parse_hex_digits(text, 32) {
            Some(value) => Some(TraceId(value)),
            None => None,
        }
    }

    /// Writes the identifier as 32 lower-case hexadecimal digits.
    pub fn to_hex(self) -> (text: String)
        ensures
            text@ == hex_text(self.0 as nat, 32),
            Self::spec_from_hex(text@) == Some(self),
    {
        let mut text = String::new();
        push_hex(&mut text, self.0, 32);
        proof {
            assert(text@ =~= hex_text(self.0 as nat, 32));
            lemma_hex_text_len(self.0 as nat, 32);
            lemma_hex_value_of_hex_text(self.0 as nat, 32);
            lemma_hex_range_fits();
        }
        text
    }

    /// The identifier that sixteen bytes spell, most significant first.
    pub fn from_bytes(bytes: [u8; 16]) -> (id: TraceId)
        ensures
            id.0 == be_value(bytes@),
            id.bytes() == bytes@,
    {
        let mut value: u128 = 0;
        let mut i: usize = 0;
        while i < 16
            invariant
                i <= 16,
                value == be_value(bytes@.take(i as int)),
                value < byte_range(i as nat),
            decreases 16 - i,
        {
            proof {
                lemma_byte_range_eight();
                lemma_byte_range_monotonic((i + 1) as nat, 16);
                assert(bytes@.take(i + 1).drop_last() =~= bytes@.take(i as int));
            }
            value = value * 256 + bytes[i] as u128;
            i = i + 1;
        }
        proof {
            assert(bytes@.take(16) =~= bytes@);
            lemma_be_bytes_of_be_value(bytes@);
        }
        TraceId(value)
    }

    /// The sixteen bytes of the identifier, most significant first.
    pub fn to_bytes(self) -> (bytes: [u8; 16])
        ensures
            bytes@ == self.bytes(),
    {
        let mut bytes: [u8; 16] = [0u8; 16];
        let mut rest: u128 = self.0;
        let mut i: usize = 16;
        proof {
            let one = byte_range(0);
            assert(one == 1);
            assert(self.0 as nat / one == self.0 as nat);
        }
        while i > 0
            invariant
                i <= 16,
                bytes@.len() == 16,
                rest == self.0 as nat / byte_range((16 - i) as nat),
                bytes@.subrange(i as int, 16) == be_bytes(self.0 as nat, (16 - i) as nat),
            decreases i,
        {
            let low: u128 = rest % 256;
            let ghost before = bytes@;
            i = i - 1;
            bytes[i] = low as u8;
            proof {
                let done = (15 - i) as nat;
                lemma_byte_range_positive(done);
                lemma_be_bytes_push_front(self.0 as nat, done);
                assert(bytes@.subrange(i as int, 16) =~= seq![low as u8] + before.subrange(
                    i + 1,
                    16,
                ));
                lemma_div_denominator(self.0 as int, byte_range(done) as int, 256);
            }
            rest = rest / 256;
        }
        proof {
            assert(bytes@.subrange(0, 16) =~= bytes@);
        }
        bytes
    }
}

impl SpanId {
    /// The invalid span identifier.
    pub fn invalid() -> (id: SpanId)
        ensures
            id == SpanId(0),
    {
        SpanId(0)
    }

    /// The eight bytes of the identifier, most significant first.
    pub open spec fn bytes(self) -> Seq<u8> {
        be_bytes(self.0 as nat, 8)
    }

    /// The identifier that `text` spells: 16 lower-case hexadecimal digits.
    pub open spec fn spec_from_hex(text: Seq<char>) -> Option<SpanId> {
        match hex_value(text) {
            Some(value) if text.len() == 16 => Some(SpanId(value as u64)),
            _ => None,
        }
    }

    /// Reads an identifier written as 16 lower-case hexadecimal digits.
    pub fn from_hex(text: &str) -> (id: Option<SpanId>)
        ensures
            id == Self::spec_from_hex(text@),
    {
        match parse_hex_digits(text, 16) {
            Some(value) => {
                proof {
                    lemma_hex_value_bound(text@);
                    lemma_hex_range_fits();
                }
                Some(SpanId(value as u64))
            },
            None => None,
        }
    }

    /// Writes the identifier as 16 lower-case hexadecimal digits.
    pub fn to_hex(self) -> (text: String)
        ensures
            text@ == hex_text(self.0 as nat, 16),
            Self::spec_from_hex(text@) == Some(self),
    {
        let mut text = String::new();
        push_hex(&mut text, self.0 as u128, 16);
        proof {
            assert(text@ =~= hex_text(self.0 as nat, 16));
            lemma_hex_text_len(self.0 as nat, 16);
            lemma_hex_value_of_hex_text(self.0 as nat, 16);
            lemma_hex_range_fits();
        }
        text
    }

    /// Whether this is an identifier of a span, not the invalid one.
    pub open spec fn spec_is_valid(self) -> bool {
        self.0 != 0
    }

    /// Whether this is an identifier of a span, not the invalid one.
    #[verifier::when_used_as_spec(spec_is_valid)]
    pub fn is_valid(self) -> (valid: bool)
        ensures
            valid == self.spec_is_valid(),
    {
        self.0 != 0
    }
}

/// More bytes spell no fewer values.
pub proof fn lemma_byte_range_monotonic(low: nat, high: nat)
    requires
        low <= high,
    ensures
        byte_range(low) <= byte_range(high),
    decreases high,
{
    if low < high {
        lemma_byte_range_monotonic(low, (high - 1) as nat);
    }
}

/// Spelling the value of `bytes` with as many bytes gives `bytes` back.
pub proof fn lemma_be_bytes_of_be_value(bytes: Seq<u8>)
    ensures
        be_value(bytes) < byte_range(bytes.len()),
        be_bytes(be_value(bytes), bytes.len()) == bytes,
    decreases bytes.len(),
{
    if bytes.len() > 0 {
        lemma_be_bytes_of_be_value(bytes.drop_last());
        let high = be_value(bytes.drop_last());
        let last = bytes.last() as nat;
        assert((high * 256 + last) / 256 == high && (high * 256 + last) % 256 == last);
        assert(be_bytes(be_value(bytes), bytes.len()) =~= bytes);
    } else {
        assert(be_bytes(be_value(bytes), bytes.len()) =~= bytes);
    }
}

/// One more byte in front: the `width + 1` low-order bytes of `value` are the
/// byte above the `width` low-order ones, followed by those.
pub proof fn lemma_be_bytes_push_front(value: nat, width: nat)
    ensures
        be_bytes(value, width + 1) == seq![((value / byte_range(width)) % 256) as u8] + be_bytes(
            value,
            width,
        ),
    decreases width,
{
    if width == 0 {
        assert(be_bytes(value, 1) =~= seq![(value % 256) as u8]) by {
            reveal_with_fuel(be_bytes, 2);
        }
        assert(be_bytes(value, 0) =~= Seq::<u8>::empty());
        assert(byte_range(0) == 1);
        assert(be_bytes(value, 1) =~= seq![((value / byte_range(0)) % 256) as u8] + be_bytes(
            value,
            0,
        ));
    } else {
        lemma_be_bytes_push_front(value / 256, (width - 1) as nat);
        lemma_byte_range_positive((width - 1) as nat);
        lemma_div_denominator(value as int, 256, byte_range((width - 1) as nat) as int);
        assert(be_bytes(value, width + 1) =~= seq![((value / byte_range(width)) % 256) as u8]
            + be_bytes(value, width));
    }
}

/// The number that `text` spells, where it is exactly `width` lower-case
/// hexadecimal digits.
fn parse_hex_digits(text: &str, width: usize) -> (value: Option<u128>)
    requires
        width <= 32,
    ensures
        value == match hex_value(text@) {
            Some(n) if text@.len() == width => Some(n as u128),
            _ => None,
        },
        value matches Some(n) ==> hex_value(text@) == Some(n as nat),
{
    if !text.is_ascii() {
        proof {
            let i = choose|i: int|
                0 <= i < text@.len() && !('\0' <= #[trigger] text@[i] <= '\u{7f}');
            lemma_hex_value_none(text@, i);
        }
        return None;
    }
    proof {
        vstd::string::is_ascii_spec_bytes(text);
    }
    if text.as_bytes().len() != width {
        return None;
    }
    assert(text@.subrange(0, width as int) =~= text@);
    parse_hex(text, 0, width)
}

} // verus!
