//! The scalar numeric capability that point and vector components satisfy,
//! with implementations for the primitive signed integer scalars, and a
//! verified decimal rendering used by the point types' text output.

use vstd::prelude::*;
use vstd::string::StringExecFns;

verus! {

/// The character standing for one decimal digit.
pub open spec fn digit_char(d: nat) -> char {
    if d == 0 {
        '0'
    } else if d == 1 {
        '1'
    } else if d == 2 {
        '2'
    } else if d == 3 {
        '3'
    } else if d == 4 {
        '4'
    } else if d == 5 {
        '5'
    } else if d == 6 {
        '6'
    } else if d == 7 {
        '7'
    } else if d == 8 {
        '8'
    } else {
        '9'
    }
}

/// Decimal digits of a natural number, most significant first, no leading
/// zeros (a single `'0'` for zero).
pub open spec fn dec_nat(n: nat) -> Seq<char>
    decreases n,
{
    if n < 10 {
        seq![digit_char(n)]
    } else {
        dec_nat(n / 10).push(digit_char(n % 10))
    }
}

/// Decimal rendering of an integer: a leading `'-'` for negative values.
pub open spec fn dec_int(x: int) -> Seq<char> {
    if x < 0 {
        seq!['-'] + dec_nat((-x) as nat)
    } else {
        dec_nat(x as nat)
    }
}

/// The one-character text of a decimal digit.
fn digit_text(d: u64) -> (r: &'static str)
    requires
        d < 10,
    ensures
        r@ == seq![digit_char(d as nat)],
{
    let r: &'static str = match d {
        0 => "0",
        1 => "1",
        2 => "2",
        3 => "3",
        4 => "4",
        5 => "5",
        6 => "6",
        7 => "7",
        8 => "8",
        _ => "9",
    };
    proof {
        reveal_strlit("0");
        reveal_strlit("1");
        reveal_strlit("2");
        reveal_strlit("3");
        reveal_strlit("4");
        reveal_strlit("5");
        reveal_strlit("6");
        reveal_strlit("7");
        reveal_strlit("8");
        reveal_strlit("9");
        assert(r@ =~= seq![digit_char(d as nat)]);
    }
    r
}

/// Decimal text of an unsigned machine word.
fn dec_u64(n: u64) -> (s: String)
    ensures
        s@ == dec_nat(n as nat),
    decreases n,
{
    if n < 10 {
        digit_text(n).to_owned()
    } else {
        let mut s = dec_u64(n / 10);
        s.append(digit_text(n % 10));
        proof {
            assert(dec_nat(n as nat) =~= dec_nat((n as nat) / 10) + seq![
                digit_char((n as nat) % 10),
            ]);
        }
        s
    }
}

/// Decimal text of a signed machine word, with a leading minus sign for
/// negative values.
pub fn signed_text(x: i64) -> (s: String)
    ensures
        s@ == dec_int(x as int),
{
    if x >= 0 {
        dec_u64(x as u64)
    } else {
        let wide: i128 = x as i128;
        let m: u64 = (-wide) as u64;
        proof {
            assert(m as nat == (-(x as int)) as nat);
            reveal_strlit("-");
        }
        let mut s = "-".to_owned();
        let tail = dec_u64(m);
        s.append(tail.as_str());
        proof {
            assert(s@ =~= dec_int(x as int));
        }
        s
    }
}

/// The numeric capability a component scalar provides: additive and
/// multiplicative identities, arithmetic with explicit domains, and the
/// algebraic facts the point laws rest on.
///
/// Each arithmetic operation comes in three parts: a `*_ok` spec function
/// saying on which operands the operation is defined (no overflow, no
/// division by zero), a `*_spec` function giving the mathematical result on
/// those operands, and an executable method proved against them.
pub trait Scalar: Sized + Copy {
    /// The additive identity.
    spec fn zero_spec() -> Self;

    /// The multiplicative identity.
    spec fn one_spec() -> Self;

    /// Whether `self + rhs` is defined (does not overflow).
    spec fn add_ok(self, rhs: Self) -> bool;

    /// The sum, meaningful when `add_ok` holds.
    spec fn add_spec(self, rhs: Self) -> Self;

    /// Whether `self - rhs` is defined.
    spec fn sub_ok(self, rhs: Self) -> bool;

    /// The difference, meaningful when `sub_ok` holds.
    spec fn sub_spec(self, rhs: Self) -> Self;

    /// Whether `self * rhs` is defined.
    spec fn mul_ok(self, rhs: Self) -> bool;

    /// The product, meaningful when `mul_ok` holds.
    spec fn mul_spec(self, rhs: Self) -> Self;

    /// Whether `self / rhs` is defined (nonzero divisor, no overflow).
    spec fn div_ok(self, rhs: Self) -> bool;

    /// The quotient the scalar type's own division yields.
    spec fn div_spec(self, rhs: Self) -> Self;

    /// Whether `self % rhs` is defined.
    spec fn rem_ok(self, rhs: Self) -> bool;

    /// The remainder the scalar type's own remainder operation yields.
    spec fn rem_spec(self, rhs: Self) -> Self;

    /// Decimal text of the scalar.
    spec fn digits(self) -> Seq<char>;

    fn zero() -> (r: Self)
        ensures
            r == Self::zero_spec(),
    ;

    fn one() -> (r: Self)
        ensures
            r == Self::one_spec(),
    ;

    fn add_val(self, rhs: Self) -> (r: Self)
        requires
            self.add_ok(rhs),
        ensures
            r == self.add_spec(rhs),
    ;

    fn sub_val(self, rhs: Self) -> (r: Self)
        requires
            self.sub_ok(rhs),
        ensures
            r == self.sub_spec(rhs),
    ;

    fn mul_val(self, rhs: Self) -> (r: Self)
        requires
            self.mul_ok(rhs),
        ensures
            r == self.mul_spec(rhs),
    ;

    fn div_val(self, rhs: Self) -> (r: Self)
        requires
            self.div_ok(rhs),
        ensures
            r == self.div_spec(rhs),
    ;

    fn rem_val(self, rhs: Self) -> (r: Self)
        requires
            self.rem_ok(rhs),
        ensures
            r == self.rem_spec(rhs),
    ;

    fn to_digits(self) -> (r: String)
        ensures
            r@ == self.digits(),
    ;

    /// Adding back a difference recovers the minuend: whenever `a - b` is
    /// defined, `b + (a - b)` is defined and equals `a`.
    proof fn sub_then_add(a: Self, b: Self)
        requires
            a.sub_ok(b),
        ensures
            b.add_ok(a.sub_spec(b)),
            b.add_spec(a.sub_spec(b)) == a,
    ;

    /// Division by the multiplicative identity is defined and is the
    /// identity.
    proof fn div_by_one(a: Self)
        ensures
            a.div_ok(Self::one_spec()),
            a.div_spec(Self::one_spec()) == a,
    ;
}

impl Scalar for i64 {
    open spec fn zero_spec() -> i64 {
        0
    }

    open spec fn one_spec() -> i64 {
        1
    }

    open spec fn add_ok(self, rhs: i64) -> bool {
        i64::MIN <= self + rhs <= i64::MAX
    }

    open spec fn add_spec(self, rhs: i64) -> i64 {
        (self + rhs) as i64
    }

    open spec fn sub_ok(self, rhs: i64) -> bool {
        i64::MIN <= self - rhs <= i64::MAX
    }

    open spec fn sub_spec(self, rhs: i64) -> i64 {
        (self - rhs) as i64
    }

    open spec fn mul_ok(self, rhs: i64) -> bool {
        i64::MIN <= self * rhs <= i64::MAX
    }

    open spec fn mul_spec(self, rhs: i64) -> i64 {
        (self * rhs) as i64
    }

    open spec fn div_ok(self, rhs: i64) -> bool {
        rhs != 0 && !(self == i64::MIN && rhs == -1)
    }

    open spec fn div_spec(self, rhs: i64) -> i64 {
        if self >= 0 {
            (self / rhs) as i64
        } else {
            (-((-self) / (rhs as int))) as i64
        }
    }

    open spec fn rem_ok(self, rhs: i64) -> bool {
        rhs != 0 && !(self == i64::MIN && rhs == -1)
    }

    open spec fn rem_spec(self, rhs: i64) -> i64 {
        if self >= 0 {
            (self % rhs) as i64
        } else {
            (-((-self) % (rhs as int))) as i64
        }
    }

    open spec fn digits(self) -> Seq<char> {
        dec_int(self as int)
    }

    fn zero() -> i64 {
        0
    }

    fn one() -> i64 {
        1
    }

    fn add_val(self, rhs: i64) -> i64 {
        self + rhs
    }

    fn sub_val(self, rhs: i64) -> i64 {
        self - rhs
    }

    fn mul_val(self, rhs: i64) -> i64 {
        self * rhs
    }

    fn div_val(self, rhs: i64) -> i64 {
        self / rhs
    }

    fn rem_val(self, rhs: i64) -> i64 {
        self % rhs
    }

    fn to_digits(self) -> String {
        signed_text(self)
    }

    proof fn sub_then_add(a: i64, b: i64) {
    }

    proof fn div_by_one(a: i64) {
    }
}

impl Scalar for i32 {
    open spec fn zero_spec() -> i32 {
        0
    }

    open spec fn one_spec() -> i32 {
        1
    }

    open spec fn add_ok(self, rhs: i32) -> bool {
        i32::MIN <= self + rhs <= i32::MAX
    }

    open spec fn add_spec(self, rhs: i32) -> i32 {
        (self + rhs) as i32
    }

    open spec fn sub_ok(self, rhs: i32) -> bool {
        i32::MIN <= self - rhs <= i32::MAX
    }

    open spec fn sub_spec(self, rhs: i32) -> i32 {
        (self - rhs) as i32
    }

    open spec fn mul_ok(self, rhs: i32) -> bool {
        i32::MIN <= self * rhs <= i32::MAX
    }

    open spec fn mul_spec(self, rhs: i32) -> i32 {
        (self * rhs) as i32
    }

    open spec fn div_ok(self, rhs: i32) -> bool {
        rhs != 0 && !(self == i32::MIN && rhs == -1)
    }

    open spec fn div_spec(self, rhs: i32) -> i32 {
        if self >= 0 {
            (self / rhs) as i32
        } else {
            (-((-self) / (rhs as int))) as i32
        }
    }

    open spec fn rem_ok(self, rhs: i32) -> bool {
        rhs != 0 && !(self == i32::MIN && rhs == -1)
    }

    open spec fn rem_spec(self, rhs: i32) -> i32 {
        if self >= 0 {
            (self % rhs) as i32
        } else {
            (-((-self) % (rhs as int))) as i32
        }
    }

    open spec fn digits(self) -> Seq<char> {
        dec_int(self as int)
    }

    fn zero() -> i32 {
        0
    }

    fn one() -> i32 {
        1
    }

    fn add_val(self, rhs: i32) -> i32 {
        self + rhs
    }

    fn sub_val(self, rhs: i32) -> i32 {
        self - rhs
    }

    fn mul_val(self, rhs: i32) -> i32 {
        self * rhs
    }

    fn div_val(self, rhs: i32) -> i32 {
        self / rhs
    }

    fn rem_val(self, rhs: i32) -> i32 {
        self % rhs
    }

    fn to_digits(self) -> String {
        let r = signed_text(self as i64);
        proof {
            assert(dec_int((self as i64) as int) == dec_int(self as int));
        }
        r
    }

    proof fn sub_then_add(a: i32, b: i32) {
    }

    proof fn div_by_one(a: i32) {
    }
}

} // verus!
