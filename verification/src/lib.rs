//! Decoder for the `misa` control/status register: the machine's native word
//! width and the one-bit-per-letter bitmap of implemented instruction-set
//! extensions.
//!
//! A `Misa` value is an immutable snapshot of the raw register contents,
//! taken against an explicit decode width (`MXL`), since the position of the
//! width field depends on the word width the decoder is built for. A raw
//! value of zero means the register is hardwired to zero, i.e. not
//! implemented, and no snapshot is produced for it.

use vstd::prelude::*;

verus! {

/// Machine XLEN: a native machine word width.
///
/// Used both as the width class reported by the register's width field and as
/// the decode target's own word width, which fixes where that field sits.
#[derive(Clone, Copy, Debug, PartialEq, Eq, Structural)]
pub enum MXL {
    XLEN32,
    XLEN64,
    XLEN128,
}

/// Whether a raw register value fits in a word of the given width.
pub open spec fn fits(bits: u128, x: MXL) -> bool {
    match x {
        MXL::XLEN32 => bits < 0x1_0000_0000,
        MXL::XLEN64 => bits < 0x1_0000_0000_0000_0000,
        MXL::XLEN128 => true,
    }
}

/// Amount the raw bits are shifted right by to isolate the width field: the
/// field occupies the top two bits of the native word.
pub open spec fn width_shift(x: MXL) -> u128 {
    match x {
        MXL::XLEN32 => 30,
        MXL::XLEN64 => 62,
        MXL::XLEN128 => 126,
    }
}

/// The two-bit width field of a raw register value, for the given decode
/// width: the top two bits of the native word.
pub open spec fn width_field(bits: u128, x: MXL) -> u128 {
    bits >> width_shift(x)
}

/// The width class a raw register value encodes: field value 1, 2 or 3 means
/// a 32-, 64- or 128-bit machine. Field value 0 never occurs on a present
/// register.
pub open spec fn decode_width(bits: u128, x: MXL) -> MXL
    recommends
        width_field(bits, x) != 0,
{
    if width_field(bits, x) == 1 {
        MXL::XLEN32
    } else if width_field(bits, x) == 2 {
        MXL::XLEN64
    } else {
        MXL::XLEN128
    }
}

/// Whether a character names an extension: the bitmap has one bit per
/// uppercase letter, `'A'` through `'Z'`.
pub open spec fn is_extension_letter(c: char) -> bool {
    65 <= c as u32 <= 90
}

/// Bit index of an extension letter in the bitmap: its alphabetic rank,
/// `'A'` = 0 through `'Z'` = 25.
pub open spec fn extension_bit(c: char) -> u128
    recommends
        is_extension_letter(c),
{
    (c as u32 - 65) as u128
}

/// Whether a raw register value implements the extension a character names:
/// false for anything but an uppercase letter, else the letter's bit in the
/// low 26 bits of the register.
pub open spec fn has_extension_spec(bits: u128, c: char) -> bool {
    is_extension_letter(c) && bits & (1u128 << extension_bit(c)) != 0
}

/// Snapshot of the `misa` register: the raw bits together with the decode
/// target's word width.
#[derive(Clone, Copy, Debug)]
pub struct Misa {
    bits: u128,
    xlen: MXL,
}

impl Misa {
    /// The raw register contents, as a mathematical value.
    pub closed spec fn spec_bits(self) -> u128 {
        self.bits
    }

    /// The decode target's word width.
    pub closed spec fn spec_xlen(self) -> MXL {
        self.xlen
    }

    /// A well-formed snapshot: nonzero (a zero register is never wrapped)
    /// and within the decode target's word width.
    pub open spec fn wf(self) -> bool {
        &&& self.spec_bits() != 0
        &&& fits(self.spec_bits(), self.spec_xlen())
    }

    /// Wraps a captured raw register value for the given decode width.
    ///
    /// A register hardwired to zero is not implemented, so a zero raw value
    /// yields `None`; every nonzero raw value yields a snapshot holding it
    /// unchanged.
    pub fn from_raw(xlen: MXL, raw: u128) -> (r: Option<Misa>)
        requires
            fits(raw, xlen),
        ensures
            raw == 0 <==> r is None,
            raw != 0 ==> (r matches Some(m)
                && m.spec_bits() == raw
                && m.spec_xlen() == xlen
                && m.wf()),
    {
        if raw == 0 {
            None
        } else {
            Some(Misa { bits: raw, xlen })
        }
    }

    /// Returns the machine xlen: the width class encoded in the register's
    /// width field.
    ///
    /// A field value of zero cannot occur on a present register; a snapshot
    /// whose field reads zero signals a platform-assumption bug and is ruled
    /// out here rather than decoded to a made-up width.
    pub fn mxl(&self) -> (r: MXL)
        requires
            self.wf(),
            width_field(self.spec_bits(), self.spec_xlen()) != 0,
        ensures
            r == decode_width(self.spec_bits(), self.spec_xlen()),
    {
        let shift: u128 = match self.xlen {
            MXL::XLEN32 => 30,
            MXL::XLEN64 => 62,
            MXL::XLEN128 => 126,
        };
        let value: u128 = self.bits >> shift;
        if value == 1 {
            MXL::XLEN32
        } else if value == 2 {
            MXL::XLEN64
        } else {
            MXL::XLEN128
        }
    }

    /// Returns true when the extension the character names is implemented:
    /// bit `'A'` = 0 through bit `'Z'` = 25 of the register. Any other
    /// character names no extension and yields false.
    pub fn has_extension(&self, extension: char) -> (r: bool)
        ensures
            r == has_extension_spec(self.spec_bits(), extension),
    {
        let code: u32 = extension as u32;
        if code < 65 || code > 90 {
            return false;
        }
        let bit: u128 = (code - 65) as u128;
        self.bits & (1u128 << bit) != 0
    }

    /// Returns the contents of the register as raw bits.
    pub fn bits(&self) -> (r: u128)
        ensures
            r == self.spec_bits(),
    {
        self.bits
    }
}

/// The width field alone decides the width class: field values 1, 2 and 3
/// decode to 32-, 64- and 128-bit, whatever the other bits of the register
/// hold.
pub proof fn lemma_width_field_decides(bits: u128, x: MXL)
    ensures
        width_field(bits, x) == 1 ==> decode_width(bits, x) == MXL::XLEN32,
        width_field(bits, x) == 2 ==> decode_width(bits, x) == MXL::XLEN64,
        width_field(bits, x) == 3 ==> decode_width(bits, x) == MXL::XLEN128,
{
}

/// The extension bitmap starts at bit 0 and ends at bit 25: for every raw
/// value, `'A'` is implemented exactly when bit 0 is set and `'Z'` exactly
/// when bit 25 is set.
pub proof fn lemma_extension_endpoints(bits: u128)
    ensures
        has_extension_spec(bits, 'A') <==> bits & 0x1 != 0,
        has_extension_spec(bits, 'Z') <==> bits & 0x200_0000 != 0,
{
    assert(extension_bit('A') == 0 && extension_bit('Z') == 25);
    assert(bits & (1u128 << 0u128) != 0 <==> bits & 0x1 != 0) by (bit_vector);
    assert(bits & (1u128 << 25u128) != 0 <==> bits & 0x200_0000 != 0) by (bit_vector);
}

/// A character that is not an uppercase letter names no extension: the test
/// is false for it on every raw value, all-ones included.
pub proof fn lemma_non_letter_has_no_extension(bits: u128, c: char)
    requires
        !is_extension_letter(c),
    ensures
        !has_extension_spec(bits, c),
{
}

/// A snapshot is immutable and every accessor is a pure function of it: any
/// two results that meet one accessor's contract on the same snapshot are
/// equal, so repeated calls return identical results.
pub proof fn lemma_accessors_deterministic(
    m: Misa,
    c: char,
    b1: u128,
    b2: u128,
    w1: MXL,
    w2: MXL,
    e1: bool,
    e2: bool,
)
    requires
        b1 == m.spec_bits(),
        b2 == m.spec_bits(),
        w1 == decode_width(m.spec_bits(), m.spec_xlen()),
        w2 == decode_width(m.spec_bits(), m.spec_xlen()),
        e1 == has_extension_spec(m.spec_bits(), c),
        e2 == has_extension_spec(m.spec_bits(), c),
    ensures
        b1 == b2,
        w1 == w2,
        e1 == e2,
{
}

} // verus!
