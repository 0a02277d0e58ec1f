//! Fixed-point amounts tagged with the precision of the asset they belong to.

use vstd::arithmetic::power::{lemma_pow_increases, pow};
use vstd::prelude::*;
use vstd::std_specs::ops::AddSpec;

verus! {

/// Count of the smallest indivisible units of an asset.
pub type AtomicValue = u64;

/// Largest precision whose decimal scale `10^bits` fits in 64 bits.
pub const MAX_DECIMAL_BITS: u8 = 19;

/// A decimal quantity in exact form: `whole + fraction / 10^bits`, for the
/// precision `bits` it is read with.
#[derive(Clone, Copy, PartialEq, Eq, Structural, Debug)]
pub struct AccountingValue {
    pub whole: u64,
    pub fraction: u64,
}

/// An amount of an asset: atomic units together with the precision tag of
/// the asset.
#[derive(Clone, Copy, PartialEq, Eq, Structural, Hash, Debug)]
pub struct AccountingAmount {
    pub atomic_value: AtomicValue,
    pub fractional_bits: u8,
}

/// `10^bits` as a mathematical integer.
pub open spec fn decimal_scale_of(bits: u8) -> int {
    pow(10, bits as nat)
}

/// Part of `atomic` above the lowest `bits` bits.
pub open spec fn whole_part(atomic: u64, bits: u8) -> u64 {
    atomic >> bits
}

/// What is left of `atomic` once its whole part is struck out.
pub open spec fn fraction_part(atomic: u64, bits: u8) -> u64 {
    atomic ^ (whole_part(atomic, bits) << bits)
}

pub proof fn lemma_decimal_scale_fits(bits: u8)
    requires
        bits <= MAX_DECIMAL_BITS,
    ensures
        1 <= decimal_scale_of(bits) <= 10_000_000_000_000_000_000,
        decimal_scale_of(bits) <= u64::MAX,
{
    lemma_pow_increases(10, 0, bits as nat);
    lemma_pow_increases(10, bits as nat, 19);
    assert(pow(10, 0) == 1) by {
        reveal_with_fuel(pow, 1);
    }
    assert(pow(10, 19) == 10_000_000_000_000_000_000) by {
        reveal_with_fuel(pow, 20);
    }
}

/// The decimal scale `10^bits` by which the fractional part of a decimal
/// value of precision `bits` is multiplied.
pub fn decimal_scale(bits: u8) -> (scale: u64)
    requires
        bits <= MAX_DECIMAL_BITS,
    ensures
        scale == decimal_scale_of(bits),
{
    let mut scale: u64 = 1;
    let mut done: u8 = 0;
    assert(pow(10, 0) == 1) by {
        reveal_with_fuel(pow, 1);
    }
    while done < bits
        invariant
            done <= bits <= MAX_DECIMAL_BITS,
            scale == pow(10, done as nat),
        decreases bits - done,
    {
        proof {
            lemma_decimal_scale_fits((done + 1) as u8);
            assert(pow(10, (done + 1) as nat) == 10 * pow(10, done as nat)) by {
                reveal_with_fuel(pow, 1);
            }
        }
        scale = scale * 10;
        done = done + 1;
    }
    scale
}

impl Default for AccountingAmount {
    fn default() -> (r: Self)
        ensures
            r == (AccountingAmount { atomic_value: 0, fractional_bits: 0 }),
    {
        AccountingAmount { atomic_value: 0, fractional_bits: 0 }
    }
}

impl AccountingAmount {
    /// The amount of `atomic_value` units at precision `fractional_bits`.
    pub fn from_fractioned_atomic_value(fractional_bits: u8, atomic_value: AtomicValue) -> (r: Self)
        ensures
            r == (AccountingAmount { atomic_value, fractional_bits }),
    {
        AccountingAmount { atomic_value, fractional_bits }
    }

    /// The amount that a decimal value stands for at precision
    /// `fractional_bits`: the whole part is taken as it is and the scaled
    /// fraction is added to it, not shifted.
    pub fn from_fractioned_accounting_value(
        fractional_bits: u8,
        accounting_value: AccountingValue,
    ) -> (r: Self)
        requires
            accounting_value.whole + accounting_value.fraction <= u64::MAX,
        ensures
            r.fractional_bits == fractional_bits,
            r.atomic_value == accounting_value.whole + accounting_value.fraction,
    {
        AccountingAmount {
            atomic_value: accounting_value.whole + accounting_value.fraction,
            fractional_bits,
        }
    }

    /// The atomic value that a decimal value stands for at precision
    /// `fractional_bits`.
    pub fn transmutate(fractional_bits: u8, accounting_value: AccountingValue) -> (r: AtomicValue)
        requires
            accounting_value.whole + accounting_value.fraction <= u64::MAX,
        ensures
            r == accounting_value.whole + accounting_value.fraction,
    {
        Self::from_fractioned_accounting_value(fractional_bits, accounting_value).atomic_value()
    }

    /// The decimal value of the amount: the whole part is the atomic value
    /// shifted right by the precision, the fraction is what the atomic value
    /// holds beside the whole part shifted back.
    pub fn accounting_value(&self) -> (r: AccountingValue)
        requires
            self.fractional_bits < 64,
        ensures
            r.whole == whole_part(self.atomic_value, self.fractional_bits),
            r.fraction == fraction_part(self.atomic_value, self.fractional_bits),
    {
        let whole: u64 = self.atomic_value >> self.fractional_bits;
        let fraction: u64 = self.atomic_value ^ (whole << self.fractional_bits);
        AccountingValue { whole, fraction }
    }

    pub fn atomic_value(&self) -> (r: AtomicValue)
        ensures
            r == self.atomic_value,
    {
        self.atomic_value
    }

    pub fn fractional_bits(&self) -> (r: u8)
        ensures
            r == self.fractional_bits,
    {
        self.fractional_bits
    }

    /// Whether `self + rhs` is defined: both carry one precision and the sum
    /// of the atomic values is representable.
    pub open spec fn can_add(self, rhs: Self) -> bool {
        &&& self.fractional_bits == rhs.fractional_bits
        &&& self.atomic_value + rhs.atomic_value <= u64::MAX
    }

    /// The sum of two amounts of one precision.
    pub open spec fn sum(self, rhs: Self) -> Self {
        AccountingAmount {
            atomic_value: (self.atomic_value + rhs.atomic_value) as u64,
            fractional_bits: self.fractional_bits,
        }
    }

    /// The sum, or `None` where the precisions differ or the sum of the atomic
    /// values is not representable.
    pub fn checked_add(self, rhs: Self) -> (r: Option<Self>)
        ensures
            r == if self.can_add(rhs) {
                Some(self.sum(rhs))
            } else {
                None
            },
    {
        if self.fractional_bits != rhs.fractional_bits {
            return None;
        }
        match self.atomic_value.checked_add(rhs.atomic_value) {
            Some(atomic_value) => Some(
                AccountingAmount { atomic_value, fractional_bits: self.fractional_bits },
            ),
            None => None,
        }
    }

    /// Adds `rhs` to the amount in place.
    pub fn add_assign(&mut self, rhs: Self)
        requires
            old(self).can_add(rhs),
        ensures
            *final(self) == old(self).sum(rhs),
    {
        self.atomic_value = self.atomic_value + rhs.atomic_value;
    }
}

impl core::ops::Add for AccountingAmount {
    type Output = AccountingAmount;

    fn add(self, rhs: Self) -> (r: AccountingAmount) {
        AccountingAmount::from_fractioned_atomic_value(
            self.fractional_bits,
            self.atomic_value + rhs.atomic_value,
        )
    }
}

impl vstd::std_specs::ops::AddSpecImpl for AccountingAmount {
    open spec fn obeys_add_spec() -> bool {
        true
    }

    open spec fn add_req(self, rhs: Self) -> bool {
        self.can_add(rhs)
    }

    open spec fn add_spec(self, rhs: Self) -> AccountingAmount {
        self.sum(rhs)
    }
}

/// Whether reading back the amount made from the decimal value `value` at
/// precision `bits` gives `value` again.
pub open spec fn reads_back(bits: u8, value: AccountingValue) -> bool {
    let atomic = (value.whole + value.fraction) as u64;
    &&& whole_part(atomic, bits) == value.whole
    &&& fraction_part(atomic, bits) == value.fraction
}

/// A decimal value survives the way into an amount and back exactly when its
/// fraction fits below the binary point and either the precision is zero or
/// the value has no whole part: the whole part is added on the way in and
/// shifted on the way out.
pub proof fn lemma_accounting_value_round_trip(bits: u8, value: AccountingValue)
    requires
        bits < 64,
        value.whole + value.fraction <= u64::MAX,
    ensures
        reads_back(bits, value) <==> (bits == 0 || value.whole == 0) && value.fraction >> bits
            == 0,
{
    let w = value.whole;
    let f = value.fraction;
    let a = (w + f) as u64;
    assert(a == w + f && bits < 64 ==> ((a >> bits == w && a ^ ((a >> bits) << bits) == f) <==> (
    bits == 0 || w == 0) && f >> bits == 0)) by (bit_vector);
}

/// `+`, `add_assign` and `checked_add` are defined on the same operands,
/// those of one precision whose atomic values have a representable sum, and
/// give the same amount there: the exact sum of the atomic values at the
/// precision of both operands.
pub proof fn lemma_add_exact(a: AccountingAmount, b: AccountingAmount)
    ensures
        a.add_req(b) == a.can_add(b),
        a.add_req(b) ==> {
            &&& a.add_spec(b) == a.sum(b)
            &&& a.add_spec(b).atomic_value == a.atomic_value + b.atomic_value
            &&& a.add_spec(b).fractional_bits == a.fractional_bits
            &&& a.add_spec(b).fractional_bits == b.fractional_bits
        },
{
}

/// Amounts of differing precision have no sum, whatever their atomic
/// values: neither `+` nor `add_assign` admits them, in either order.
pub proof fn lemma_add_needs_one_precision(a: AccountingAmount, b: AccountingAmount)
    requires
        a.fractional_bits != b.fractional_bits,
    ensures
        !a.add_req(b),
        !b.add_req(a),
        !a.can_add(b),
        !b.can_add(a),
{
}

/// Addition of amounts of one precision does not depend on the order of the
/// operands, and neither does whether it is defined.
pub proof fn lemma_add_commutative(a: AccountingAmount, b: AccountingAmount)
    ensures
        a.add_req(b) == b.add_req(a),
        a.add_req(b) ==> a.add_spec(b) == b.add_spec(a),
{
}

/// Addition of amounts of one precision does not depend on how the operands
/// are grouped, and neither does whether it is defined.
pub proof fn lemma_add_associative(a: AccountingAmount, b: AccountingAmount, c: AccountingAmount)
    ensures
        (a.add_req(b) && a.add_spec(b).add_req(c)) == (b.add_req(c) && a.add_req(b.add_spec(c))),
        a.add_req(b) && a.add_spec(b).add_req(c) ==> a.add_spec(b).add_spec(c) == a.add_spec(
            b.add_spec(c),
        ),
{
}

} // verus!
