use vstd::prelude::*;
use vstd::string::*;
use crate::milestone::{check_milestone_crossed, first_crossed, milestone_thresholds_spec};

verus! {

/// Decimal places of the amount unit: one unit is a ten-thousandth of an HBD.
pub const UNIT_DECIMALS: u32 = 4;

/// The text of a desktop notification.
pub struct NoticeText {
    pub summary: String,
    pub body: String,
}

pub open spec fn pow10(k: nat) -> nat
    decreases k,
{
    if k == 0 {
        1
    } else {
        10 * pow10((k - 1) as nat)
    }
}

pub open spec fn digit_char(d: nat) -> char {
    seq!['0', '1', '2', '3', '4', '5', '6', '7', '8', '9'][d as int]
}

/// The decimal digits of `n`, without leading zeros (`0` is one digit).
pub open spec fn decimal_digits(n: nat) -> Seq<char>
    decreases n,
{
    if n < 10 {
        seq![digit_char(n)]
    } else {
        decimal_digits(n / 10).push(digit_char(n % 10))
    }
}

/// The last `width` decimal digits of `n`, zero-padded on the left.
pub open spec fn padded_digits(n: nat, width: nat) -> Seq<char>
    decreases width,
{
    if width == 0 {
        Seq::empty()
    } else {
        padded_digits(n / 10, (width - 1) as nat).push(digit_char(n % 10))
    }
}

pub open spec fn magnitude(units: int) -> nat {
    if units < 0 {
        (-units) as nat
    } else {
        units as nat
    }
}

/// The magnitude of an amount in units of `10^-decimals` HBD, halves rounded up.
pub open spec fn rounded_magnitude(units: int, decimals: nat) -> nat {
    let scale = pow10((UNIT_DECIMALS - decimals) as nat);
    (magnitude(units) + scale / 2) / scale
}

/// An amount written in HBD with `decimals` places: a minus sign for a
/// negative amount, the whole part, then a point and the fraction.
pub open spec fn amount_text_of(units: int, decimals: nat) -> Seq<char> {
    let q = rounded_magnitude(units, decimals);
    let sign = if units < 0 {
        "-"@
    } else {
        Seq::empty()
    };
    let fraction = if decimals == 0 {
        Seq::empty()
    } else {
        "."@ + padded_digits(q % pow10(decimals), decimals)
    };
    sign + decimal_digits(q / pow10(decimals)) + fraction
}

pub open spec fn max_amount(a: i64, b: i64) -> i64 {
    if a >= b {
        a
    } else {
        b
    }
}

/// Relies on String::push: the character is appended at the end.
#[verifier::external_body]
fn push_char(s: &mut String, c: char)
    ensures
        final(s)@ == old(s)@.push(c),
{
    s.push(c)
}

fn digit(d: u64) -> (c: char)
    requires
        d < 10,
    ensures
        c == digit_char(d as nat),
{
    let table: [char; 10] = ['0', '1', '2', '3', '4', '5', '6', '7', '8', '9'];
    assert(table@ =~= seq!['0', '1', '2', '3', '4', '5', '6', '7', '8', '9']);
    table[d as usize]
}

fn power_of_ten(k: u32) -> (r: u64)
    requires
        k <= UNIT_DECIMALS,
    ensures
        r == pow10(k as nat),
        1 <= r <= 10000,
{
    proof {
        reveal_with_fuel(pow10, 5);
    }
    if k == 0 {
        1
    } else if k == 1 {
        10
    } else if k == 2 {
        100
    } else if k == 3 {
        1000
    } else {
        10000
    }
}

fn push_decimal(s: &mut String, n: u64)
    ensures
        final(s)@ == old(s)@ + decimal_digits(n as nat),
    decreases n,
{
    if n >= 10 {
        push_decimal(s, n / 10);
    }
    push_char(s, digit(n % 10));
    assert(final(s)@ =~= old(s)@ + decimal_digits(n as nat));
}

fn push_padded(s: &mut String, n: u64, width: u32)
    ensures
        final(s)@ == old(s)@ + padded_digits(n as nat, width as nat),
    decreases width,
{
    if width > 0 {
        push_padded(s, n / 10, width - 1);
        push_char(s, digit(n % 10));
    }
    assert(final(s)@ =~= old(s)@ + padded_digits(n as nat, width as nat));
}

/// Writes an amount, given in ten-thousandths of an HBD, with `decimals`
/// decimal places; halves are rounded away from zero.
pub fn amount_text(units: i64, decimals: u32) -> (r: String)
    requires
        decimals <= UNIT_DECIMALS,
    ensures
        r@ == amount_text_of(units as int, decimals as nat),
{
    let m: u64 = if units < 0 {
        ((-(units + 1)) as u64) + 1
    } else {
        units as u64
    };
    let scale = power_of_ten(UNIT_DECIMALS - decimals);
    let q = (m + scale / 2) / scale;
    let unit = power_of_ten(decimals);
    let mut r = String::new();
    if units < 0 {
        r.append("-");
    }
    push_decimal(&mut r, q / unit);
    if decimals > 0 {
        r.append(".");
        push_padded(&mut r, q % unit, decimals);
    }
    assert(r@ =~= amount_text_of(units as int, decimals as nat));
    r
}

/// The notice for a reward-granting challenge: the amount with four decimals.
pub fn challenge_notice(amount_units: i64) -> (r: NoticeText)
    ensures
        r.summary@ == "PoA Challenge Passed!"@,
        r.body@ == "+"@ + amount_text_of(amount_units as int, 4) + " HBD earned"@,
{
    let mut body = String::from_str("+");
    body.append(amount_text(amount_units, 4).as_str());
    body.append(" HBD earned");
    NoticeText { summary: String::from_str("PoA Challenge Passed!"), body }
}

/// The notice for a crossed milestone. It shows the larger of the milestone
/// and the total, with two decimals, so that the amount shown is never
/// below the milestone reached.
pub fn milestone_notice(total_earned: i64, milestone: i64) -> (r: NoticeText)
    ensures
        r.summary@ == "Milestone Reached!"@,
        r.body@ == "Total earned: "@ + amount_text_of(max_amount(milestone, total_earned) as int, 2)
            + " HBD"@,
{
    let shown = if milestone >= total_earned {
        milestone
    } else {
        total_earned
    };
    let mut body = String::from_str("Total earned: ");
    body.append(amount_text(shown, 2).as_str());
    body.append(" HBD");
    NoticeText { summary: String::from_str("Milestone Reached!"), body }
}

/// The daily summary notice: the day's earnings with four decimals and the
/// number of challenges.
pub fn daily_summary_notice(daily_earnings: i64, challenge_count: u64) -> (r: NoticeText)
    ensures
        r.summary@ == "Daily Earnings Summary"@,
        r.body@ == "Daily earnings: "@ + amount_text_of(daily_earnings as int, 4) + " HBD from "@
            + decimal_digits(challenge_count as nat) + " challenges"@,
{
    let mut body = String::from_str("Daily earnings: ");
    body.append(amount_text(daily_earnings, 4).as_str());
    body.append(" HBD from ");
    push_decimal(&mut body, challenge_count);
    body.append(" challenges");
    NoticeText { summary: String::from_str("Daily Earnings Summary"), body }
}

/// The milestone notice owed when cumulative earnings move from `old_total`
/// to `new_total`: one for the lowest milestone crossed, or none.
pub fn milestone_notice_on_update(old_total: i64, new_total: i64) -> (r: Option<NoticeText>)
    ensures
        first_crossed(milestone_thresholds_spec(), old_total, new_total) is None <==> r is None,
        first_crossed(milestone_thresholds_spec(), old_total, new_total) matches Some(m) ==> (
        r matches Some(n) && n.summary@ == "Milestone Reached!"@ && n.body@ == "Total earned: "@
            + amount_text_of(max_amount(m, new_total) as int, 2) + " HBD"@),
{
    match check_milestone_crossed(old_total, new_total) {
        Some(m) => Some(milestone_notice(new_total, m)),
        None => None,
    }
}

} // verus!
