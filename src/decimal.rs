//! Fixed-point decimal values with a precision of at most 38 digits.

use vstd::prelude::*;
use vstd::string::*;
use crate::error::IcebergError;

verus! {

/// The number of decimal digits of `n` (zero has none).
pub open spec fn dec_digits(n: nat) -> nat
    decreases n,
{
    if n == 0 { 0 } else { 1 + dec_digits(n / 10) }
}

/// Two to the power `e`.
pub open spec fn two_pow(e: nat) -> nat
    decreases e,
{
    if e == 0 { 1 } else { 2 * two_pow((e - 1) as nat) }
}

/// The magnitude bytes, most significant first, without leading zero bytes.
pub open spec fn significant(m: Seq<u8>) -> Seq<u8>
    decreases m.len(),
{
    if m.len() > 0 && m[0] == 0 { significant(m.drop_first()) } else { m }
}

/// The number of bytes that a magnitude needs, `ceil(bits / 8)`: its bytes
/// without the leading zero bytes.
pub open spec fn byte_width(magnitude: Seq<u8>) -> nat {
    significant(magnitude).len()
}

/// The most decimal digits that a signed value of `len` bytes always holds:
/// `floor(log10(2^(8 len - 1) - 1))`, and zero for no bytes.
pub open spec fn max_precision(len: nat) -> nat {
    if len == 0 {
        0
    } else {
        (dec_digits((two_pow((8 * len - 1) as nat) - 1) as nat) - 1) as nat
    }
}

/// Whether `Decimal::new` accepts a value of these magnitude bytes.
pub open spec fn decimal_valid(magnitude: Seq<u8>, precision: nat, scale: nat) -> bool {
    &&& precision <= 38
    &&& scale <= precision
    &&& max_precision(byte_width(magnitude)) >= precision
}

/// A decimal: an unscaled integer of any size, held as a sign and its
/// magnitude in big-endian bytes, with its precision and scale.
#[derive(Debug, PartialEq, Eq, Clone)]
pub struct Decimal {
    negative: bool,
    magnitude: Vec<u8>,
    precision: u8,
    scale: u32,
}

impl Decimal {
    /// The magnitude bytes of the unscaled value.
    pub closed spec fn spec_magnitude(&self) -> Seq<u8> {
        self.magnitude@
    }

    /// Whether the unscaled value is negative.
    pub closed spec fn spec_negative(&self) -> bool {
        self.negative
    }

    /// The number of digits.
    pub closed spec fn spec_precision(&self) -> nat {
        self.precision as nat
    }

    /// The number of digits right of the point.
    pub closed spec fn spec_scale(&self) -> nat {
        self.scale as nat
    }

    /// Create a decimal whose unscaled value has sign `negative` and the
    /// big-endian `magnitude`. The precision must be at most 38, the scale at
    /// most the precision, and the bytes the magnitude needs must be able to
    /// hold the precision.
    pub fn new(negative: bool, magnitude: Vec<u8>, precision: u8, scale: u32) -> (r: Result<Decimal, IcebergError>)
        requires
            magnitude@.len() <= usize::MAX / 8,
        ensures
            r is Ok <==> decimal_valid(magnitude@, precision as nat, scale as nat),
            r is Ok ==> r->Ok_0.spec_negative() == negative && r->Ok_0.spec_magnitude() == magnitude@
                && r->Ok_0.spec_precision() == precision && r->Ok_0.spec_scale() == scale,
            r is Err ==> r->Err_0 is Validation,
    {
        if precision > 38 {
            return Err(IcebergError::Validation(String::from_str("Precision must be 38 or less")));
        }
        if scale > precision as u32 {
            return Err(IcebergError::Validation(String::from_str("Scale is greater than the precision")));
        }
        let bytes = magnitude_width(&magnitude);
        if max_prec_for_len(bytes) < precision as usize {
            return Err(IcebergError::Validation(
                String::from_str("The number of bytes can not hold this precision"),
            ));
        }
        Ok(Decimal { negative, magnitude, precision, scale })
    }

    /// Whether the unscaled value is negative.
    pub fn is_negative(&self) -> (r: bool)
        ensures
            r == self.spec_negative(),
    {
        self.negative
    }

    /// The magnitude of the unscaled value, in big-endian bytes.
    pub fn magnitude(&self) -> (r: &[u8])
        ensures
            r@ == self.spec_magnitude(),
    {
        self.magnitude.as_slice()
    }

    /// The number of digits.
    pub fn precision(&self) -> (r: u8)
        ensures
            r == self.spec_precision(),
    {
        self.precision
    }

    /// The number of digits right of the point.
    pub fn scale(&self) -> (r: u32)
        ensures
            r == self.spec_scale(),
    {
        self.scale
    }
}

/// The number of bytes that a magnitude needs.
fn magnitude_width(m: &Vec<u8>) -> (r: usize)
    ensures
        r == byte_width(m@),
        r <= m@.len(),
{
    let n = m.len();
    let mut i: usize = 0;
    assert(m@.subrange(0, n as int) =~= m@);
    while i < n && m[i] == 0
        invariant
            n == m@.len(),
            i <= n,
            significant(m@) == significant(m@.subrange(i as int, n as int)),
        decreases n - i,
    {
        assert(m@.subrange(i as int, n as int).drop_first() =~= m@.subrange(i + 1, n as int));
        i = i + 1;
    }
    n - i
}

proof fn lemma_two_pow_pos(a: nat)
    ensures
        1 <= two_pow(a),
    decreases a,
{
    if a > 0 {
        lemma_two_pow_pos((a - 1) as nat);
    }
}

proof fn lemma_two_pow_mono(a: nat, b: nat)
    requires
        a <= b,
    ensures
        1 <= two_pow(a) <= two_pow(b),
    decreases b,
{
    lemma_two_pow_pos(a);
    if b > a {
        lemma_two_pow_mono(a, (b - 1) as nat);
    }
}

/// Ten to the power `e`.
pub open spec fn ten_pow(e: nat) -> nat
    decreases e,
{
    if e == 0 { 1 } else { 10 * ten_pow((e - 1) as nat) }
}

/// The number that decimal digits denote, least significant first.
pub open spec fn digits_num(d: Seq<u8>) -> nat
    decreases d.len(),
{
    if d.len() == 0 {
        0
    } else {
        digits_num(d.drop_last()) + d.last() as nat * ten_pow((d.len() - 1) as nat)
    }
}

/// Whether every entry is a decimal digit.
pub open spec fn all_decimal(d: Seq<u8>) -> bool {
    forall|i: int| 0 <= i < d.len() ==> #[trigger] d[i] < 10
}

proof fn lemma_ten_pow_pos(e: nat)
    ensures
        ten_pow(e) >= 1,
    decreases e,
{
    if e > 0 {
        lemma_ten_pow_pos((e - 1) as nat);
    }
}

proof fn lemma_digits_num_bounds(d: Seq<u8>)
    requires
        all_decimal(d),
    ensures
        digits_num(d) < ten_pow(d.len()),
        d.len() > 0 && d.last() != 0 ==> digits_num(d) >= ten_pow((d.len() - 1) as nat),
    decreases d.len(),
{
    if d.len() > 0 {
        let t = d.drop_last();
        assert forall|i: int| 0 <= i < t.len() implies #[trigger] t[i] < 10 by {
            assert(t[i] == d[i]);
        }
        lemma_digits_num_bounds(t);
        let p = ten_pow((d.len() - 1) as nat);
        assert(d[d.len() - 1] < 10);
        let x = digits_num(t);
        let l = d.last() as nat;
        assert(x + l * p < 10 * p) by (nonlinear_arith)
            requires
                x < p,
                l < 10;
        assert(l >= 1 ==> x + l * p >= p) by (nonlinear_arith);
    }
}

proof fn lemma_dec_digits_exact(x: nat, n: nat)
    requires
        n >= 1,
        ten_pow((n - 1) as nat) <= x < ten_pow(n),
    ensures
        dec_digits(x) == n,
    decreases n,
{
    if n == 1 {
        assert(ten_pow(0) == 1);
        assert(ten_pow(1) == 10);
        assert(x / 10 == 0);
        assert(dec_digits(0) == 0);
        assert(dec_digits(x) == 1 + dec_digits(x / 10));
    } else {
        let p = ten_pow((n - 2) as nat);
        lemma_ten_pow_pos((n - 2) as nat);
        assert(ten_pow((n - 1) as nat) == 10 * p);
        assert(ten_pow(n) == 10 * (10 * p));
        assert(p <= x / 10 < 10 * p) by (nonlinear_arith)
            requires
                10 * p <= x < 10 * (10 * p);
        lemma_dec_digits_exact(x / 10, (n - 1) as nat);
        assert(dec_digits(x) == 1 + dec_digits(x / 10));
    }
}

/// Twice the number, plus one, in decimal digits.
fn double_plus_one(d: &Vec<u8>) -> (r: Vec<u8>)
    requires
        all_decimal(d@),
        d@.len() > 0 ==> d@.last() != 0,
    ensures
        all_decimal(r@),
        r@.len() > 0,
        r@.last() != 0,
        r@.len() <= d@.len() + 1,
        digits_num(r@) == 2 * digits_num(d@) + 1,
{
    let n = d.len();
    let mut out: Vec<u8> = Vec::new();
    let mut c: u8 = 1;
    let mut i: usize = 0;
    while i < n
        invariant
            n == d@.len(),
            all_decimal(d@),
            i <= n,
            out@.len() == i,
            all_decimal(out@),
            c <= 1,
            digits_num(out@) + c as nat * ten_pow(i as nat) == 2 * digits_num(d@.subrange(0, i as int)) + 1,
            i > 0 && d@[i - 1] != 0 && c == 0 ==> out@[i - 1] != 0,
        decreases n - i,
    {
        let x = d[i];
        assert(d@[i as int] < 10);
        let t = 2 * x + c;
        let e = t % 10;
        let c2 = t / 10;
        let ghost before = out@;
        out.push(e);
        proof {
            let p = ten_pow(i as nat);
            assert(out@.drop_last() =~= before);
            assert(digits_num(out@) == digits_num(before) + e as nat * p);
            let pre = d@.subrange(0, i as int);
            let post = d@.subrange(0, i + 1);
            assert(post.drop_last() =~= pre);
            assert(digits_num(post) == digits_num(pre) + x as nat * p);
            assert(ten_pow((i + 1) as nat) == 10 * p);
            assert(t as nat == e as nat + 10 * c2 as nat);
            assert(e as nat * p + c2 as nat * (10 * p) == (2 * x as nat + c as nat) * p) by (nonlinear_arith)
                requires
                    t as nat == e as nat + 10 * c2 as nat,
                    t as nat == 2 * x as nat + c as nat;
            assert forall|k: int| 0 <= k < out@.len() implies #[trigger] out@[k] < 10 by {
                if k < i {
                    assert(out@[k] == before[k]);
                }
            }
            assert((2 * x as nat + c as nat) * p == 2 * (x as nat * p) + c as nat * p) by (nonlinear_arith);
            assert(digits_num(out@) + c2 as nat * ten_pow((i + 1) as nat) == 2 * digits_num(post) + 1);
        }
        c = c2;
        i = i + 1;
    }
    assert(d@.subrange(0, n as int) =~= d@);
    if c == 1 {
        let ghost before = out@;
        out.push(1);
        proof {
            assert(out@.drop_last() =~= before);
            assert forall|k: int| 0 <= k < out@.len() implies #[trigger] out@[k] < 10 by {
                if k < n {
                    assert(out@[k] == before[k]);
                }
            }
        }
    }
    out
}

/// The most decimal digits that a signed value of `len` bytes always holds.
pub fn max_prec_for_len(len: usize) -> (r: usize)
    requires
        len <= usize::MAX / 8,
    ensures
        r == max_precision(len as nat),
{
    if len == 0 {
        return 0;
    }
    let k: usize = 8 * len - 1;
    let mut d: Vec<u8> = Vec::new();
    let mut j: usize = 0;
    while j < k
        invariant
            j <= k,
            all_decimal(d@),
            d@.len() > 0 ==> d@.last() != 0,
            d@.len() <= j,
            digits_num(d@) + 1 == two_pow(j as nat),
        decreases k - j,
    {
        let next = double_plus_one(&d);
        assert(two_pow((j + 1) as nat) == 2 * two_pow(j as nat));
        d = next;
        j = j + 1;
    }
    proof {
        assert(d@.len() > 0) by {
            if d@.len() == 0 {
                lemma_two_pow_mono(1, k as nat);
                reveal_with_fuel(two_pow, 2);
            }
        }
        lemma_digits_num_bounds(d@);
        lemma_dec_digits_exact(digits_num(d@), d@.len());
    }
    d.len() - 1
}

} // verus!
