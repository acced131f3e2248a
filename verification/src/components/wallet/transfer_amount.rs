//! The amount step of a token transfer: reading the amount the user typed
//! as a decimal number, and the checks made before the confirmation step.
use vstd::prelude::*;

verus! {

/// A decimal amount as `rust_decimal::Decimal` holds it: the value is
/// `mantissa / 10^scale`.
#[derive(Debug, Clone, Copy, PartialEq, Eq, Structural)]
pub struct Amount {
    pub mantissa: i128,
    pub scale: u32,
}

/// `10^n`.
pub open spec fn pow10(n: nat) -> int
    decreases n,
{
    if n == 0 {
        1
    } else {
        10 * pow10((n - 1) as nat)
    }
}

/// `2^96`, the bound on a decimal's mantissa.
pub open spec fn mantissa_bound() -> int {
    0x1_0000_0000_0000_0000_0000_0000
}

impl Amount {
    /// The amounts a `Decimal` can hold: `-2^96 < mantissa < 2^96` and a
    /// scale from 0 to 28.
    pub open spec fn wf(self) -> bool {
        &&& -mantissa_bound() < self.mantissa < mantissa_bound()
        &&& self.scale <= 28
    }
}

/// `a` is smaller than `b` as numbers: `a.m / 10^a.s < b.m / 10^b.s`,
/// with both sides multiplied by `10^(a.s + b.s)`.
pub open spec fn amount_lt(a: Amount, b: Amount) -> bool {
    a.mantissa * pow10(b.scale as nat) < b.mantissa * pow10(a.scale as nat)
}

/// The smallest amount that may be sent: 0.000001.
pub open spec fn min_transfer_amount() -> Amount {
    Amount { mantissa: 1, scale: 6 }
}

/// What `str::parse::<rust_decimal::Decimal>` yields for `s`, as
/// `(mantissa, scale)`; `None` when `s` is not a decimal number.
pub uninterp spec fn decimal_parse(s: Seq<char>) -> Option<(i128, u32)>;

/// The `(mantissa, scale)` pair of an optional amount.
pub open spec fn amount_parts(a: Option<Amount>) -> Option<(i128, u32)> {
    match a {
        Some(x) => Some((x.mantissa, x.scale)),
        None => None,
    }
}

/// `str::parse::<rust_decimal::Decimal>`, the result taken apart by
/// `Decimal::mantissa` and `Decimal::scale`. The result is a function of
/// the text; as the crate documents, a decimal's mantissa lies strictly
/// between `-2^96` and `2^96` and its scale between 0 and 28.
#[verifier::external_body]
fn parse_decimal(text: &str) -> (r: Option<Amount>)
    ensures
        amount_parts(r) == decimal_parse(text@),
        r matches Some(a) ==> a.wf(),
{
    match text.parse::<rust_decimal::Decimal>() {
        Ok(d) => Some(Amount { mantissa: d.mantissa(), scale: d.scale() }),
        Err(_) => None,
    }
}

/// Read the amount typed into the transfer form.
pub fn parse_amount(text: &str) -> (r: Option<Amount>)
    ensures
        amount_parts(r) == decimal_parse(text@),
        r matches Some(a) ==> a.wf(),
{
    parse_decimal(text)
}

proof fn lemma_pow10_positive(n: nat)
    ensures
        pow10(n) >= 1,
    decreases n,
{
    if n > 0 {
        lemma_pow10_positive((n - 1) as nat);
    }
}

proof fn lemma_pow10_add(a: nat, b: nat)
    ensures
        pow10(a + b) == pow10(a) * pow10(b),
    decreases b,
{
    if b > 0 {
        lemma_pow10_add(a, (b - 1) as nat);
        assert(pow10(a + b) == 10 * pow10((a + b - 1) as nat));
        assert(pow10(a) * pow10(b) == pow10(a) * (10 * pow10((b - 1) as nat)));
        assert(pow10(a) * (10 * pow10((b - 1) as nat)) == 10 * (pow10(a) * pow10(
            (b - 1) as nat,
        ))) by (nonlinear_arith);
    }
}

/// A number at least `2^96` in size keeps its sign and size when scaled
/// up by a power of ten.
proof fn lemma_scaled_beyond(x: int, p: int)
    requires
        p >= 1,
    ensures
        x >= 0 ==> x * p >= x,
        x <= 0 ==> x * p <= x,
{
    if x >= 0 {
        assert(x * p >= x * 1) by (nonlinear_arith)
            requires
                x >= 0,
                p >= 1,
        ;
    } else {
        assert(x * p <= x * 1) by (nonlinear_arith)
            requires
                x <= 0,
                p >= 1,
        ;
    }
}

/// Whether `x * 10^d < y` (`lt`) or `x * 10^d > y` (`!lt`), for mantissas
/// below `2^96` in size.
fn scaled_compare(x0: i128, d: u32, y: i128, lt: bool) -> (r: bool)
    requires
        -mantissa_bound() < x0 < mantissa_bound(),
        -mantissa_bound() < y < mantissa_bound(),
        d <= 28,
    ensures
        r == if lt {
            x0 * pow10(d as nat) < y
        } else {
            x0 * pow10(d as nat) > y
        },
{
    let bound: i128 = 0x1_0000_0000_0000_0000_0000_0000;
    let mut x: i128 = x0;
    let mut k: u32 = 0;
    while k < d
        invariant
            k <= d,
            d <= 28,
            bound == mantissa_bound(),
            x == x0 * pow10(k as nat),
            -10 * bound < x < 10 * bound,
            -bound < y < bound,
        decreases d - k,
    {
        if x >= bound || x <= -bound {
            proof {
                lemma_pow10_add(k as nat, (d - k) as nat);
                lemma_pow10_positive((d - k) as nat);
                let p = pow10((d - k) as nat);
                assert(x0 * pow10(d as nat) == x * p) by {
                    assert((k + (d - k)) as nat == d as nat);
                    assert(x0 * (pow10(k as nat) * p) == (x0 * pow10(k as nat)) * p)
                        by (nonlinear_arith);
                }
                lemma_scaled_beyond(x as int, p);
            }
            return if lt {
                x < 0
            } else {
                x > 0
            };
        }
        proof {
            assert(x * 10 == x0 * pow10((k + 1) as nat)) by {
                assert(pow10((k + 1) as nat) == 10 * pow10(k as nat));
                assert(x0 * (10 * pow10(k as nat)) == (x0 * pow10(k as nat)) * 10)
                    by (nonlinear_arith);
            }
        }
        x = x * 10;
        k = k + 1;
    }
    if lt {
        x < y
    } else {
        x > y
    }
}

/// Whether `a < b` as numbers.
pub fn amount_less_than(a: Amount, b: Amount) -> (r: bool)
    requires
        a.wf(),
        b.wf(),
    ensures
        r == amount_lt(a, b),
{
    let ghost pa = pow10(a.scale as nat);
    let ghost pb = pow10(b.scale as nat);
    if a.scale <= b.scale {
        let d = b.scale - a.scale;
        let r = scaled_compare(a.mantissa, d, b.mantissa, true);
        proof {
            lemma_pow10_add(a.scale as nat, d as nat);
            lemma_pow10_positive(a.scale as nat);
            let q = pow10(d as nat);
            assert(pb == pa * q);
            let am = a.mantissa as int;
            let bm = b.mantissa as int;
            assert(am * pb == (am * q) * pa) by (nonlinear_arith)
                requires
                    pb == pa * q,
            ;
            assert((am * q < bm) == ((am * q) * pa < bm * pa)) by (nonlinear_arith)
                requires
                    pa >= 1,
            ;
        }
        r
    } else {
        let d = a.scale - b.scale;
        let r = scaled_compare(b.mantissa, d, a.mantissa, false);
        proof {
            lemma_pow10_add(b.scale as nat, d as nat);
            lemma_pow10_positive(b.scale as nat);
            let q = pow10(d as nat);
            assert(pa == pb * q);
            let am = a.mantissa as int;
            let bm = b.mantissa as int;
            assert(bm * pa == (bm * q) * pb) by (nonlinear_arith)
                requires
                    pa == pb * q,
            ;
            assert((bm * q > am) == (am * pb < (bm * q) * pb)) by (nonlinear_arith)
                requires
                    pb >= 1,
            ;
        }
        r
    }
}

/// The first check the amount step fails, as the message shown for it;
/// `None` when the confirmation step may follow. `total` is the amount
/// with the transfer fees added.
pub open spec fn spec_transfer_amount_error(
    amount: Option<Amount>,
    total: Amount,
    balance: Amount,
    message: Seq<char>,
) -> Option<Seq<char>> {
    match amount {
        None => Some("Please enter a valid amount"@),
        Some(a) => if amount_lt(a, min_transfer_amount()) {
            Some("Minimum amount is 0.000001"@)
        } else if amount_lt(balance, total) {
            Some("Insufficient balance"@)
        } else if message.len() > 500 {
            Some("Message exceeds 500 characters"@)
        } else {
            None
        },
    }
}

/// "Continue" on the amount step: the typed amount must be a number of at
/// least 0.000001, the total with fees must not exceed the balance, and
/// the message must fit in 500 characters.
pub fn transfer_amount_error(
    amount: Option<Amount>,
    total: Amount,
    balance: Amount,
    message: &str,
) -> (r: Option<&'static str>)
    requires
        amount matches Some(a) ==> a.wf(),
        total.wf(),
        balance.wf(),
    ensures
        match r {
            Some(m) => spec_transfer_amount_error(amount, total, balance, message@) == Some(m@),
            None => spec_transfer_amount_error(amount, total, balance, message@) is None,
        },
{
    let a = match amount {
        None => {
            return Some("Please enter a valid amount");
        },
        Some(a) => a,
    };
    if amount_less_than(a, Amount { mantissa: 1, scale: 6 }) {
        return Some("Minimum amount is 0.000001");
    }
    if amount_less_than(balance, total) {
        return Some("Insufficient balance");
    }
    if message.unicode_len() > 500 {
        return Some("Message exceeds 500 characters");
    }
    None
}

/// What the amount step lets through, over all inputs: an unreadable
/// amount is refused first; an amount below 0.000001 is refused; an
/// amount at least that large whose total with fees exceeds the balance,
/// comparing the numbers `mantissa / 10^scale`, is refused as
/// "Insufficient balance"; a message over 500 characters is refused. So
/// an amount that passes was readable, is at least 0.000001, has a total
/// no larger than the balance, and comes with a message of at most 500
/// characters.
pub proof fn lemma_transfer_amount_checks(
    amount: Option<Amount>,
    total: Amount,
    balance: Amount,
    message: Seq<char>,
)
    ensures
        amount is None ==> spec_transfer_amount_error(amount, total, balance, message) == Some(
            "Please enter a valid amount"@,
        ),
        amount matches Some(a) ==> (a.mantissa * pow10(6) < pow10(a.scale as nat) ==> spec_transfer_amount_error(
            amount,
            total,
            balance,
            message,
        ) == Some("Minimum amount is 0.000001"@)),
        amount matches Some(a) ==> (a.mantissa * pow10(6) >= pow10(a.scale as nat)
            && total.mantissa * pow10(balance.scale as nat) > balance.mantissa * pow10(
            total.scale as nat,
        ) ==> spec_transfer_amount_error(amount, total, balance, message) == Some(
            "Insufficient balance"@,
        )),
        spec_transfer_amount_error(amount, total, balance, message) is None ==> (amount matches Some(
            a,
        ) && a.mantissa * pow10(6) >= pow10(a.scale as nat) && total.mantissa * pow10(
            balance.scale as nat,
        ) <= balance.mantissa * pow10(total.scale as nat) && message.len() <= 500),
{
    assert(pow10(0) == 1);
}

} // verus!
