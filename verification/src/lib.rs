//! Register file of an eight-bit CPU core.
//!
//! The register file owns all CPU-visible register state: six eight-bit data
//! registers (`a`, `f`, `b`, `c`, `d`, `e`) and two sixteen-bit registers
//! (`sp`, `pc`). The `f` register holds the four condition flags in its high
//! nibble; its low nibble is always zero. Certain instructions address two
//! eight-bit registers as one sixteen-bit pair, first-named register in the
//! high byte: `a`+`f`, `b`+`c`, `d`+`e`.

use vstd::prelude::*;

verus! {

/// One of the four condition flags stored in the high nibble of the `f`
/// register.
#[derive(Clone, Copy, PartialEq, Eq, Structural, Debug)]
pub enum Flag {
    /// Bit 7: the result of the last operation was zero.
    Zero,
    /// Bit 6: the addition/subtraction flag, recording which of the two the
    /// last operation was.
    Addition,
    /// Bit 5: the last operation carried out of the low nibble.
    HalfCarry,
    /// Bit 4: the last operation carried out of the high bit.
    Carry,
}

/// The single bit of the `f` register that a flag occupies. This mapping is
/// part of the hardware contract and never changes: bit 7 is `Zero`, bit 6 is
/// `Addition`, bit 5 is `HalfCarry`, bit 4 is `Carry`.
pub open spec fn flag_mask(flag: Flag) -> u8 {
    match flag {
        Flag::Zero => 0x80,
        Flag::Addition => 0x40,
        Flag::HalfCarry => 0x20,
        Flag::Carry => 0x10,
    }
}

/// Whether `flag` reads as set in the flags byte `f`.
pub open spec fn flag_set_in(f: u8, flag: Flag) -> bool {
    f & flag_mask(flag) != 0
}

/// The flags byte after writing `is_on` to `flag`: exactly the flag's own bit
/// changes, every other bit of `f` is kept.
pub open spec fn with_flag(f: u8, flag: Flag, is_on: bool) -> u8 {
    if is_on {
        f | flag_mask(flag)
    } else {
        f & !flag_mask(flag)
    }
}

/// Two eight-bit registers read as one sixteen-bit value, the first-named
/// register in the high byte.
pub open spec fn pair_value(hi: u8, lo: u8) -> u16 {
    (hi * 256 + lo) as u16
}

/// The high byte of a sixteen-bit value.
pub open spec fn high_byte(v: u16) -> u8 {
    (v / 256) as u8
}

/// The low byte of a sixteen-bit value.
pub open spec fn low_byte(v: u16) -> u8 {
    (v % 256) as u8
}

/// The mathematical model of a register file: each register as a plain value.
pub ghost struct RegistersView {
    pub a: u8,
    pub f: u8,
    pub b: u8,
    pub c: u8,
    pub d: u8,
    pub e: u8,
    pub sp: u16,
    pub pc: u16,
}

/// The CPU register file. All registers are eight bits wide except the stack
/// pointer and the program counter; some instructions combine two eight-bit
/// registers into a sixteen-bit pair.
pub struct Registers {
    /// The accumulator, the common target register of arithmetic and logic
    /// instructions.
    a: u8,
    /// The flags register. Bits 7 to 4 hold the `Zero`, `Addition`,
    /// `HalfCarry` and `Carry` flags; bits 3 to 0 are unused and always zero.
    f: u8,
    b: u8,
    c: u8,
    d: u8,
    e: u8,
    /// The stack pointer.
    sp: u16,
    /// The program counter.
    pc: u16,
}

impl View for Registers {
    type V = RegistersView;

    closed spec fn view(&self) -> RegistersView {
        RegistersView {
            a: self.a,
            f: self.f,
            b: self.b,
            c: self.c,
            d: self.d,
            e: self.e,
            sp: self.sp,
            pc: self.pc,
        }
    }
}

impl Registers {
    /// The register file's invariant: the low nibble of the flags register is
    /// zero. Construction establishes it and every operation keeps it.
    pub open spec fn wf(self) -> bool {
        self@.f & 0x0F == 0
    }

    /// Constructs a register file in its defined initial state: every
    /// register zero.
    pub fn new() -> (r: Self)
        ensures
            r@ == (RegistersView { a: 0, f: 0, b: 0, c: 0, d: 0, e: 0, sp: 0, pc: 0 }),
            r.wf(),
    {
        let r = Registers { a: 0, f: 0, b: 0, c: 0, d: 0, e: 0, sp: 0, pc: 0 };
        proof {
            assert(0u8 & 0x0F == 0) by (bit_vector);
        }
        r
    }

    /// Sets or clears exactly the bit of `f` that `flag` occupies; every
    /// other bit of `f`, the always-zero low nibble included, and every other
    /// register are left untouched. Total: no input fails.
    pub fn set_flag(&mut self, flag: Flag, is_on: bool)
        ensures
            final(self)@.f == with_flag(old(self)@.f, flag, is_on),
            flag_set_in(final(self)@.f, flag) == is_on,
            forall|other: Flag|
                other != flag ==> flag_set_in(final(self)@.f, other) == flag_set_in(
                    old(self)@.f,
                    other,
                ),
            final(self)@.f & 0x0F == old(self)@.f & 0x0F,
            old(self).wf() ==> final(self).wf(),
            final(self)@.a == old(self)@.a,
            final(self)@.b == old(self)@.b,
            final(self)@.c == old(self)@.c,
            final(self)@.d == old(self)@.d,
            final(self)@.e == old(self)@.e,
            final(self)@.sp == old(self)@.sp,
            final(self)@.pc == old(self)@.pc,
    {
        let bitmask: u8 = match flag {
            Flag::Zero => 0x80,
            Flag::Addition => 0x40,
            Flag::HalfCarry => 0x20,
            Flag::Carry => 0x10,
        };

        self.f = if is_on {
            self.f | bitmask
        } else {
            self.f & !bitmask
        };

        proof {
            lemma_set_then_get(old(self)@.f, flag, is_on);
            lemma_set_flag_low_nibble(old(self)@.f, flag, is_on);
            assert forall|other: Flag| other != flag implies flag_set_in(self@.f, other)
                == flag_set_in(old(self)@.f, other) by {
                lemma_set_flag_noninterference(old(self)@.f, flag, other, is_on);
            }
        }
    }

    /// Reads whether the bit of `f` that `flag` occupies is set.
    pub fn get_flag(&self, flag: Flag) -> (r: bool)
        ensures
            r == flag_set_in(self@.f, flag),
    {
        let bitmask: u8 = match flag {
            Flag::Zero => 0x80,
            Flag::Addition => 0x40,
            Flag::HalfCarry => 0x20,
            Flag::Carry => 0x10,
        };
        (self.f & bitmask) != 0
    }

    /// Reads the accumulator.
    pub fn a(&self) -> (r: u8)
        ensures
            r == self@.a,
    {
        self.a
    }

    /// Reads the flags register.
    pub fn f(&self) -> (r: u8)
        ensures
            r == self@.f,
    {
        self.f
    }

    /// Reads the `b` register.
    pub fn b(&self) -> (r: u8)
        ensures
            r == self@.b,
    {
        self.b
    }

    /// Reads the `c` register.
    pub fn c(&self) -> (r: u8)
        ensures
            r == self@.c,
    {
        self.c
    }

    /// Reads the `d` register.
    pub fn d(&self) -> (r: u8)
        ensures
            r == self@.d,
    {
        self.d
    }

    /// Reads the `e` register.
    pub fn e(&self) -> (r: u8)
        ensures
            r == self@.e,
    {
        self.e
    }

    /// Reads the stack pointer.
    pub fn sp(&self) -> (r: u16)
        ensures
            r == self@.sp,
    {
        self.sp
    }

    /// Reads the program counter.
    pub fn pc(&self) -> (r: u16)
        ensures
            r == self@.pc,
    {
        self.pc
    }

    /// Reads `a` and `f` as the sixteen-bit pair `af`, `a` in the high byte.
    pub fn af(&self) -> (r: u16)
        ensures
            r == pair_value(self@.a, self@.f),
    {
        (self.a as u16) * 256 + (self.f as u16)
    }

    /// Reads `b` and `c` as the sixteen-bit pair `bc`, `b` in the high byte.
    pub fn bc(&self) -> (r: u16)
        ensures
            r == pair_value(self@.b, self@.c),
    {
        (self.b as u16) * 256 + (self.c as u16)
    }

    /// Reads `d` and `e` as the sixteen-bit pair `de`, `d` in the high byte.
    pub fn de(&self) -> (r: u16)
        ensures
            r == pair_value(self@.d, self@.e),
    {
        (self.d as u16) * 256 + (self.e as u16)
    }

    /// Writes the sixteen-bit pair `af`: the high byte goes to `a`, the low
    /// byte to `f` with its low nibble masked out, so the flags invariant
    /// holds afterwards whatever value is written.
    pub fn set_af(&mut self, v: u16)
        ensures
            final(self)@.a == high_byte(v),
            final(self)@.f == low_byte(v) & 0xF0,
            final(self).wf(),
            final(self)@.b == old(self)@.b,
            final(self)@.c == old(self)@.c,
            final(self)@.d == old(self)@.d,
            final(self)@.e == old(self)@.e,
            final(self)@.sp == old(self)@.sp,
            final(self)@.pc == old(self)@.pc,
    {
        self.a = (v / 256) as u8;
        self.f = ((v % 256) as u8) & 0xF0;
        proof {
            let lo: u8 = low_byte(v);
            assert((lo & 0xF0) & 0x0F == 0) by (bit_vector);
        }
    }

    /// Writes the sixteen-bit pair `bc`: the high byte goes to `b`, the low
    /// byte to `c`.
    pub fn set_bc(&mut self, v: u16)
        ensures
            final(self)@.b == high_byte(v),
            final(self)@.c == low_byte(v),
            final(self)@.a == old(self)@.a,
            final(self)@.f == old(self)@.f,
            final(self)@.d == old(self)@.d,
            final(self)@.e == old(self)@.e,
            final(self)@.sp == old(self)@.sp,
            final(self)@.pc == old(self)@.pc,
            old(self).wf() ==> final(self).wf(),
    {
        self.b = (v / 256) as u8;
        self.c = (v % 256) as u8;
    }

    /// Writes the sixteen-bit pair `de`: the high byte goes to `d`, the low
    /// byte to `e`.
    pub fn set_de(&mut self, v: u16)
        ensures
            final(self)@.d == high_byte(v),
            final(self)@.e == low_byte(v),
            final(self)@.a == old(self)@.a,
            final(self)@.f == old(self)@.f,
            final(self)@.b == old(self)@.b,
            final(self)@.c == old(self)@.c,
            final(self)@.sp == old(self)@.sp,
            final(self)@.pc == old(self)@.pc,
            old(self).wf() ==> final(self).wf(),
    {
        self.d = (v / 256) as u8;
        self.e = (v % 256) as u8;
    }
}

/// The mask of every flag is one of the four high-nibble bits.
proof fn lemma_mask_is_one_bit(flag: Flag)
    ensures
        flag_mask(flag) == 0x80 || flag_mask(flag) == 0x40 || flag_mask(flag) == 0x20
            || flag_mask(flag) == 0x10,
{
}

/// Law: writing a flag then reading that same flag gives back the written
/// value, whatever the rest of the flags byte holds.
pub proof fn lemma_set_then_get(f: u8, flag: Flag, is_on: bool)
    ensures
        flag_set_in(with_flag(f, flag, is_on), flag) == is_on,
{
    let m: u8 = flag_mask(flag);
    lemma_mask_is_one_bit(flag);
    if is_on {
        assert((f | m) & m != 0) by (bit_vector)
            requires
                m == 0x80 || m == 0x40 || m == 0x20 || m == 0x10,
        ;
    } else {
        assert((f & !m) & m == 0) by (bit_vector);
    }
}

/// Law (non-interference): writing one flag never changes how any other flag
/// reads.
pub proof fn lemma_set_flag_noninterference(f: u8, written: Flag, other: Flag, is_on: bool)
    requires
        written != other,
    ensures
        flag_set_in(with_flag(f, written, is_on), other) == flag_set_in(f, other),
{
    let m1: u8 = flag_mask(written);
    let m2: u8 = flag_mask(other);
    lemma_mask_is_one_bit(written);
    lemma_mask_is_one_bit(other);
    assert(m1 != m2);
    assert((f | m1) & m2 == f & m2 && (f & !m1) & m2 == f & m2) by (bit_vector)
        requires
            (m1 == 0x80 || m1 == 0x40 || m1 == 0x20 || m1 == 0x10) && (m2 == 0x80 || m2 == 0x40
                || m2 == 0x20 || m2 == 0x10) && m1 != m2,
    ;
}

/// Law: writing a flag leaves the low nibble of the flags byte as it was, so
/// a low nibble that starts zero stays zero through any sequence of writes.
pub proof fn lemma_set_flag_low_nibble(f: u8, flag: Flag, is_on: bool)
    ensures
        with_flag(f, flag, is_on) & 0x0F == f & 0x0F,
{
    let m: u8 = flag_mask(flag);
    lemma_mask_is_one_bit(flag);
    assert((f | m) & 0x0F == f & 0x0F && (f & !m) & 0x0F == f & 0x0F) by (bit_vector)
        requires
            m == 0x80 || m == 0x40 || m == 0x20 || m == 0x10,
    ;
}

/// Law (idempotence): writing the same value to the same flag twice leaves
/// the flags byte exactly as one write does.
pub proof fn lemma_set_flag_idempotent(f: u8, flag: Flag, is_on: bool)
    ensures
        with_flag(with_flag(f, flag, is_on), flag, is_on) == with_flag(f, flag, is_on),
{
    let m: u8 = flag_mask(flag);
    assert(((f | m) | m) == (f | m) && ((f & !m) & !m) == (f & !m)) by (bit_vector);
}

/// Law (round trip): splitting a sixteen-bit value into its bytes and
/// recombining them, high byte first, gives the value back.
pub proof fn lemma_pair_round_trip(v: u16)
    ensures
        pair_value(high_byte(v), low_byte(v)) == v,
{
    assert(pair_value(high_byte(v), low_byte(v)) == v) by (bit_vector);
}

/// Law (round trip): combining two bytes into a pair and splitting it again
/// reproduces the original high and low bytes exactly.
pub proof fn lemma_pair_split(hi: u8, lo: u8)
    ensures
        high_byte(pair_value(hi, lo)) == hi,
        low_byte(pair_value(hi, lo)) == lo,
{
    assert(high_byte(pair_value(hi, lo)) == hi && low_byte(pair_value(hi, lo)) == lo)
        by (bit_vector);
}

/// Law (round trip through `af`): a sixteen-bit value whose low nibble is
/// zero survives a write to the `af` pair unchanged, even though the write
/// masks the low nibble of `f`.
pub proof fn lemma_af_pair_round_trip(v: u16)
    requires
        v & 0x0F == 0,
    ensures
        pair_value(high_byte(v), low_byte(v) & 0xF0) == v,
{
    assert(pair_value(high_byte(v), low_byte(v) & 0xF0) == v) by (bit_vector)
        requires
            v & 0x0F == 0,
    ;
}

} // verus!
