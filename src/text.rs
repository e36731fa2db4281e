use vstd::prelude::*;

verus! {

/// The decimal digit character for `d` (taken modulo ten).
pub open spec fn digit_char(d: nat) -> char {
    let d: nat = d % 10;
    if d == 0 { '0' }
    else if d == 1 { '1' }
    else if d == 2 { '2' }
    else if d == 3 { '3' }
    else if d == 4 { '4' }
    else if d == 5 { '5' }
    else if d == 6 { '6' }
    else if d == 7 { '7' }
    else if d == 8 { '8' }
    else { '9' }
}

/// The decimal numeral of `n`, without leading zeros.
pub open spec fn decimal(n: nat) -> Seq<char>
    decreases n,
{
    if n < 10 {
        seq![digit_char(n)]
    } else {
        decimal(n / 10).push(digit_char(n % 10))
    }
}

/// The one-character text of the last decimal digit of `d`.
fn digit_text(d: u16) -> (r: &'static str)
    ensures
        r@ == seq![digit_char(d as nat)],
{
    let d: u16 = d % 10;
    if d == 0 {
        proof { reveal_strlit("0"); }
        "0"
    } else if d == 1 {
        proof { reveal_strlit("1"); }
        "1"
    } else if d == 2 {
        proof { reveal_strlit("2"); }
        "2"
    } else if d == 3 {
        proof { reveal_strlit("3"); }
        "3"
    } else if d == 4 {
        proof { reveal_strlit("4"); }
        "4"
    } else if d == 5 {
        proof { reveal_strlit("5"); }
        "5"
    } else if d == 6 {
        proof { reveal_strlit("6"); }
        "6"
    } else if d == 7 {
        proof { reveal_strlit("7"); }
        "7"
    } else if d == 8 {
        proof { reveal_strlit("8"); }
        "8"
    } else {
        proof { reveal_strlit("9"); }
        "9"
    }
}

/// Writes `n` in decimal.
pub fn decimal_text(n: u16) -> (r: String)
    ensures
        r@ == decimal(n as nat),
{
    let mut m: u16 = n / 10;
    let mut acc = digit_text(n).to_owned();
    proof {
        assert(acc@ == seq![digit_char((n % 10) as nat)]);
        if n >= 10 {
            assert(decimal(n as nat) == decimal((n / 10) as nat).push(digit_char((n % 10) as nat)));
            assert(decimal(n as nat) =~= decimal(m as nat) + acc@);
        } else {
            assert(decimal(n as nat) =~= acc@);
        }
    }
    while m > 0
        invariant
            m > 0 ==> decimal(n as nat) == decimal(m as nat) + acc@,
            m == 0 ==> decimal(n as nat) == acc@,
        decreases m,
    {
        let d = digit_text(m);
        let ghost old_acc = acc@;
        acc = d.to_owned().concat(acc.as_str());
        proof {
            if m >= 10 {
                assert(decimal(m as nat) == decimal((m / 10) as nat).push(digit_char((m % 10) as nat)));
                assert(decimal(n as nat) =~= decimal((m / 10) as nat) + acc@);
            } else {
                assert(decimal(m as nat) == seq![digit_char(m as nat)]);
                assert(digit_char(m as nat) == digit_char((m % 10) as nat));
                assert(decimal(n as nat) =~= acc@);
            }
        }
        m = m / 10;
    }
    acc
}

/// `c` equals `t`, where an upper-case ASCII letter also matches its
/// lower-case form `t`.
pub open spec fn ascii_eq_ignore_case(c: char, t: char) -> bool {
    c == t || (97 <= (t as u32) <= 122 && (c as u32) + 32 == (t as u32))
}

/// `s` equals the lower-case `t` up to ASCII case.
pub open spec fn eq_ignore_ascii_case(s: Seq<char>, t: Seq<char>) -> bool {
    s.len() == t.len() && forall|i: int| 0 <= i < s.len() ==> ascii_eq_ignore_case(#[trigger] s[i], t[i])
}

/// Compares `s` with the lower-case `t`, ignoring ASCII case in `s`.
pub fn matches_ignore_ascii_case(s: &str, t: &str) -> (r: bool)
    ensures
        r == eq_ignore_ascii_case(s@, t@),
{
    let n: usize = s.unicode_len();
    if n != t.unicode_len() {
        return false;
    }
    let mut i: usize = 0;
    while i < n
        invariant
            n == s@.len() == t@.len(),
            i <= n,
            forall|k: int| 0 <= k < i ==> ascii_eq_ignore_case(#[trigger] s@[k], t@[k]),
        decreases n - i,
    {
        let c = s.get_char(i);
        let d = t.get_char(i);
        let tv: u32 = d as u32;
        if !(c == d || (97 <= tv && tv <= 122 && c as u32 == tv - 32)) {
            return false;
        }
        i = i + 1;
    }
    true
}

} // verus!
