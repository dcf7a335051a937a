use core::marker::PhantomData;
use vstd::prelude::*;

use crate::bus::RegWrite;

verus! {

/// The word whose low `width` bits are set.
pub open spec fn low_bits(width: usize) -> usize {
    ((1usize << width) - 1) as usize
}

/// A memory-mapped register at a fixed address; `T` tags the register so that
/// its fields and bits cannot be applied to another one.
pub struct Register<T>(usize, PhantomData<T>);

impl<T> Clone for Register<T> {
    fn clone(&self) -> (r: Self)
        ensures
            r == *self,
    {
        Self(self.0, PhantomData)
    }
}

impl<T> Copy for Register<T> {}

impl<T> Register<T> {
    pub closed spec fn addr_spec(&self) -> usize {
        self.0
    }

    pub fn new(addr: usize) -> (r: Self)
        ensures
            r.addr_spec() == addr,
    {
        Self(addr, PhantomData)
    }

    pub fn addr(&self) -> (r: usize)
        ensures
            r == self.addr_spec(),
    {
        self.0
    }

    /// The store of `val` to this register.
    pub fn write(&self, val: usize) -> (r: RegWrite)
        ensures
            r == (RegWrite { addr: self.addr_spec(), value: val }),
    {
        RegWrite { addr: self.0, value: val }
    }
}

/// A bit field of register `T`: `width` bits starting at bit `shift`.
pub struct Field<T> {
    shift: usize,
    width: usize,
    _marker: PhantomData<T>,
}

impl<T> Clone for Field<T> {
    fn clone(&self) -> (r: Self)
        ensures
            r == *self,
    {
        *self
    }
}

impl<T> Copy for Field<T> {}

impl<T> Field<T> {
    #[verifier::type_invariant]
    closed spec fn fits(self) -> bool {
        self.shift < usize::BITS && self.width < usize::BITS && self.shift + self.width
            <= usize::BITS
    }

    pub closed spec fn shift(&self) -> usize {
        self.shift
    }

    pub closed spec fn width(&self) -> usize {
        self.width
    }

    /// The bits of the register that belong to the field.
    pub open spec fn spec_mask(&self) -> usize {
        low_bits(self.width()) << self.shift()
    }

    /// The value that the field holds in `reg`.
    pub open spec fn get(&self, reg: usize) -> usize {
        (reg >> self.shift()) & low_bits(self.width())
    }

    pub fn new(shift: usize, width: usize) -> (r: Self)
        requires
            shift < usize::BITS,
            width < usize::BITS,
            shift + width <= usize::BITS,
        ensures
            r.shift() == shift,
            r.width() == width,
    {
        Self { shift, width, _marker: PhantomData }
    }

    pub fn mask(&self) -> (r: usize)
        ensures
            r == self.spec_mask(),
    {
        proof {
            use_type_invariant(self);
            lemma_low_bits_fit(self.width);
        }
        ((1usize << self.width) - 1) << self.shift
    }

    /// Whether any bit of the field is set in `reg`.
    pub fn is_set(&self, reg: usize) -> (r: bool)
        ensures
            r == (self.get(reg) != 0),
    {
        proof {
            use_type_invariant(self);
            lemma_field_any(reg, self.shift, self.width);
        }
        reg & self.mask() != 0
    }

    /// `reg` with the field replaced by the low `width` bits of `val`.
    pub fn set(&self, reg: usize, val: usize) -> (r: usize)
        ensures
            self.get(r) == val & low_bits(self.width()),
            r & !self.spec_mask() == reg & !self.spec_mask(),
    {
        proof {
            use_type_invariant(self);
            lemma_low_bits_fit(self.width);
            lemma_field_set(reg, val, self.shift, self.width);
        }
        (reg & !self.mask()) | ((val & ((1usize << self.width) - 1)) << self.shift)
    }

    /// `reg` with every bit of the field cleared.
    pub fn clear(&self, reg: usize) -> (r: usize)
        ensures
            self.get(r) == 0,
            r & !self.spec_mask() == reg & !self.spec_mask(),
    {
        proof {
            use_type_invariant(self);
            lemma_field_set(reg, 0, self.shift, self.width);
            assert(0usize & low_bits(self.width) == 0) by (bit_vector);
        }
        reg & !self.mask()
    }
}

/// A single bit of register `T`, at position `shift`.
pub struct Bit<T> {
    shift: usize,
    _marker: PhantomData<T>,
}

impl<T> Clone for Bit<T> {
    fn clone(&self) -> (r: Self)
        ensures
            r == *self,
    {
        *self
    }
}

impl<T> Copy for Bit<T> {}

impl<T> Bit<T> {
    #[verifier::type_invariant]
    closed spec fn fits(self) -> bool {
        self.shift < usize::BITS
    }

    pub closed spec fn shift(&self) -> usize {
        self.shift
    }

    pub open spec fn spec_mask(&self) -> usize {
        1usize << self.shift()
    }

    /// Whether the bit is set in `reg`.
    pub open spec fn get(&self, reg: usize) -> bool {
        (reg >> self.shift()) & 1 == 1
    }

    pub fn new(shift: usize) -> (r: Self)
        requires
            shift < usize::BITS,
        ensures
            r.shift() == shift,
    {
        Self { shift, _marker: PhantomData }
    }

    pub fn mask(&self) -> (r: usize)
        ensures
            r == self.spec_mask(),
    {
        proof {
            use_type_invariant(self);
        }
        1usize << self.shift
    }

    pub fn is_set(&self, reg: usize) -> (r: bool)
        ensures
            r == self.get(reg),
    {
        proof {
            use_type_invariant(self);
            lemma_bit_ops(reg, self.shift);
        }
        reg & self.mask() != 0
    }

    /// `reg` with the bit set.
    pub fn set(&self, reg: usize) -> (r: usize)
        ensures
            self.get(r),
            r & !self.spec_mask() == reg & !self.spec_mask(),
    {
        proof {
            use_type_invariant(self);
            lemma_bit_ops(reg, self.shift);
        }
        reg | self.mask()
    }

    /// `reg` with the bit cleared.
    pub fn clear(&self, reg: usize) -> (r: usize)
        ensures
            !self.get(r),
            r & !self.spec_mask() == reg & !self.spec_mask(),
    {
        proof {
            use_type_invariant(self);
            lemma_bit_ops(reg, self.shift);
        }
        reg & !self.mask()
    }
}

/// A value of register `T` being composed or inspected field by field.
pub struct RegisterValue<T> {
    bits: usize,
    _marker: PhantomData<T>,
}

impl<T> RegisterValue<T> {
    pub closed spec fn bits(&self) -> usize {
        self.bits
    }

    pub fn new(bits: usize) -> (r: Self)
        ensures
            r.bits() == bits,
    {
        Self { bits, _marker: PhantomData }
    }

    pub fn set_field(&mut self, field: Field<T>, value: usize) -> (r: &mut Self)
        ensures
            field.get(r.bits()) == value & low_bits(field.width()),
            r.bits() & !field.spec_mask() == old(self).bits() & !field.spec_mask(),
            *final(self) == *final(r),
    {
        self.bits = field.set(self.bits, value);
        self
    }

    pub fn set_bit(&mut self, bit: Bit<T>) -> (r: &mut Self)
        ensures
            bit.get(r.bits()),
            r.bits() & !bit.spec_mask() == old(self).bits() & !bit.spec_mask(),
            *final(self) == *final(r),
    {
        self.bits = bit.set(self.bits);
        self
    }

    pub fn clear_bit(&mut self, bit: Bit<T>) -> (r: &mut Self)
        ensures
            !bit.get(r.bits()),
            r.bits() & !bit.spec_mask() == old(self).bits() & !bit.spec_mask(),
            *final(self) == *final(r),
    {
        self.bits = bit.clear(self.bits);
        self
    }

    pub fn is_set_field(&self, field: Field<T>) -> (r: bool)
        ensures
            r == (field.get(self.bits()) != 0),
    {
        field.is_set(self.bits)
    }

    pub fn is_set_bit(&self, bit: Bit<T>) -> (r: bool)
        ensures
            r == bit.get(self.bits()),
    {
        bit.is_set(self.bits)
    }

    pub fn raw(&self) -> (r: usize)
        ensures
            r == self.bits(),
    {
        self.bits
    }
}

proof fn lemma_bit_ops(reg: usize, s: usize)
    requires
        s < usize::BITS,
    ensures
        (reg & (1usize << s) != 0) == ((reg >> s) & 1 == 1),
        ((reg | (1usize << s)) >> s) & 1 == 1,
        (reg | (1usize << s)) & !(1usize << s) == reg & !(1usize << s),
        ((reg & !(1usize << s)) >> s) & 1 != 1,
        (reg & !(1usize << s)) & !(1usize << s) == reg & !(1usize << s),
{
    assert((reg & (1usize << s) != 0) == ((reg >> s) & 1 == 1)) by (bit_vector)
        requires
            s < usize::BITS,
    ;
    assert(((reg | (1usize << s)) >> s) & 1 == 1) by (bit_vector)
        requires
            s < usize::BITS,
    ;
    assert((reg | (1usize << s)) & !(1usize << s) == reg & !(1usize << s)) by (bit_vector);
    assert(((reg & !(1usize << s)) >> s) & 1 != 1) by (bit_vector)
        requires
            s < usize::BITS,
    ;
    assert((reg & !(1usize << s)) & !(1usize << s) == reg & !(1usize << s)) by (bit_vector);
}

proof fn lemma_low_bits_fit(w: usize)
    requires
        w < usize::BITS,
    ensures
        (1usize << w) >= 1,
{
    assert((1usize << w) >= 1) by (bit_vector)
        requires
            w < usize::BITS,
    ;
}

proof fn lemma_field_any(reg: usize, s: usize, w: usize)
    requires
        s < usize::BITS,
        w < usize::BITS,
        s + w <= usize::BITS,
    ensures
        (reg & (low_bits(w) << s) != 0) == ((reg >> s) & low_bits(w) != 0),
{
    assert((reg & ((((1usize << w) - 1) as usize) << s) != 0) == ((reg >> s) & (((1usize
        << w) - 1) as usize) != 0)) by (bit_vector)
        requires
            s < usize::BITS,
            w < usize::BITS,
            s + w <= usize::BITS,
    ;
}

proof fn lemma_field_set(reg: usize, val: usize, s: usize, w: usize)
    requires
        s < usize::BITS,
        w < usize::BITS,
        s + w <= usize::BITS,
    ensures
        ({
            let m = low_bits(w) << s;
            let r = (reg & !m) | ((val & low_bits(w)) << s);
            &&& (r >> s) & low_bits(w) == val & low_bits(w)
            &&& r & !m == reg & !m
            &&& reg & !m == (reg & !m) | ((0usize & low_bits(w)) << s)
        }),
{
    assert({
        let l = ((1usize << w) - 1) as usize;
        let m = l << s;
        let r = (reg & !m) | ((val & l) << s);
        &&& (r >> s) & l == val & l
        &&& r & !m == reg & !m
        &&& reg & !m == (reg & !m) | ((0usize & l) << s)
    }) by (bit_vector)
        requires
            s < usize::BITS,
            w < usize::BITS,
            s + w <= usize::BITS,
    ;
}

} // verus!
