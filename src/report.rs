use vstd::prelude::*;

use crate::account::{Account, Transaction};

verus! {

/// The decimal digit character for `d`, where `d < 10`.
pub open spec fn digit_char(d: nat) -> char {
    if d == 0 { '0' }
    else if d == 1 { '1' }
    else if d == 2 { '2' }
    else if d == 3 { '3' }
    else if d == 4 { '4' }
    else if d == 5 { '5' }
    else if d == 6 { '6' }
    else if d == 7 { '7' }
    else if d == 8 { '8' }
    else { '9' }
}

/// The decimal digits of `n`, most significant first, without leading zeros.
pub open spec fn digits(n: nat) -> Seq<char>
    decreases n,
{
    if n < 10 {
        seq![digit_char(n)]
    } else {
        digits(n / 10).push(digit_char(n % 10))
    }
}

/// `n` written in decimal, with a leading `-` when negative.
pub open spec fn decimal(n: int) -> Seq<char> {
    if n < 0 {
        seq!['-'] + digits((-n) as nat)
    } else {
        digits(n as nat)
    }
}

fn digit_str(d: u64) -> (r: &'static str)
    requires
        d < 10,
    ensures
        r@ == seq![digit_char(d as nat)],
{
    proof {
        reveal_strlit("0");
        reveal_strlit("1");
        reveal_strlit("2");
        reveal_strlit("3");
        reveal_strlit("4");
        reveal_strlit("5");
        reveal_strlit("6");
        reveal_strlit("7");
        reveal_strlit("8");
        reveal_strlit("9");
    }
    match d {
        0 => "0",
        1 => "1",
        2 => "2",
        3 => "3",
        4 => "4",
        5 => "5",
        6 => "6",
        7 => "7",
        8 => "8",
        _ => "9",
    }
}

fn push_digits(s: &mut String, n: u64)
    ensures
        final(s)@ == old(s)@ + digits(n as nat),
    decreases n,
{
    if n >= 10 {
        push_digits(s, n / 10);
    }
    s.append(digit_str(n % 10));
    assert(final(s)@ =~= old(s)@ + digits(n as nat));
}

/// Appends `n` in decimal to `s`.
pub fn push_decimal(s: &mut String, n: i64)
    ensures
        final(s)@ == old(s)@ + decimal(n as int),
{
    if n < 0 {
        s.append("-");
        proof { reveal_strlit("-"); }
        let magnitude: u64 = (-(n as i128)) as u64;
        push_digits(s, magnitude);
    } else {
        push_digits(s, n as u64);
    }
    assert(final(s)@ =~= old(s)@ + decimal(n as int));
}

impl Account {
    /// The summary line for this account with the given balance:
    /// `Balance of account <id> is <balance>`.
    pub fn summary_line(&self, balance: i64) -> (r: String)
        ensures
            r@ == "Balance of account "@ + self.id@ + " is "@ + decimal(balance as int),
    {
        let mut s = String::new();
        s.append("Balance of account ");
        s.append(self.id.as_str());
        s.append(" is ");
        push_decimal(&mut s, balance);
        s
    }
}

impl Transaction {
    /// The line that reports this transaction:
    /// `Spent <amount> credits on transaction <id>`.
    pub fn spent_line(&self) -> (r: String)
        ensures
            r@ == "Spent "@ + decimal(self.amount as int) + " credits on transaction "@ + self.id@,
    {
        let mut s = String::new();
        s.append("Spent ");
        push_decimal(&mut s, self.amount);
        s.append(" credits on transaction ");
        s.append(self.id.as_str());
        s
    }
}

} // verus!
