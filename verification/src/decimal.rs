//! Decimal rendering and parsing of unsigned integers.
//!
//! The protocol writes lengths, nonces and session-id indices in plain
//! base-ten notation; heartbeat payloads carry a base-ten nonce back.
//! `dec_rep` is the specification of the rendered digit string and
//! `dec_val` the value of a digit string; the executable functions are
//! proved against them.

use vstd::prelude::*;

verus! {

/// The character for one digit value.
pub open spec fn digit_char(d: nat) -> char {
    (d + 48) as char
}

/// The numeric value of one digit character.
pub open spec fn char_digit(c: char) -> nat {
    (c as nat - 48) as nat
}

/// Whether `c` is a decimal digit.
pub open spec fn is_digit(c: char) -> bool {
    '0' <= c && c <= '9'
}

/// The base-ten rendering of `n`, most significant digit first,
/// without leading zeros (`0` renders as `"0"`).
pub open spec fn dec_rep(n: nat) -> Seq<char>
    decreases n,
{
    if n < 10 {
        seq![digit_char(n)]
    } else {
        dec_rep(n / 10).push(digit_char(n % 10))
    }
}

/// The value of a digit string, most significant digit first.
pub open spec fn dec_val(s: Seq<char>) -> nat
    decreases s.len(),
{
    if s.len() == 0 {
        0
    } else {
        dec_val(s.drop_last()) * 10 + char_digit(s.last())
    }
}

/// Whether every character of `s` is a decimal digit.
pub open spec fn all_digits(s: Seq<char>) -> bool {
    forall|i: int| 0 <= i < s.len() ==> is_digit(#[trigger] s[i])
}

/// The digit characters of `rest`, read back to front.
spec fn rev_digit_chars(rest: Seq<u64>) -> Seq<char> {
    Seq::new(rest.len(), |i: int| digit_char(rest[rest.len() - 1 - i] as nat))
}

fn digit_str(d: u64) -> (r: &'static str)
    requires
        d < 10,
    ensures
        r@ =~= seq![digit_char(d as nat)],
{
    proof {
        reveal_strlit("0");
        reveal_strlit("1");
        reveal_strlit("2");
        reveal_strlit("3");
        reveal_strlit("4");
        reveal_strlit("5");
        reveal_strlit("6");
        reveal_strlit("7");
        reveal_strlit("8");
        reveal_strlit("9");
    }
    match d {
        0 => "0",
        1 => "1",
        2 => "2",
        3 => "3",
        4 => "4",
        5 => "5",
        6 => "6",
        7 => "7",
        8 => "8",
        _ => "9",
    }
}

/// Renders `n` in base ten.
pub fn u64_to_decimal_string(n: u64) -> (r: String)
    ensures
        r@ == dec_rep(n as nat),
        all_digits(r@),
        r@.len() >= 1,
{
    let mut rest: Vec<u64> = Vec::new();
    rest.push(n % 10);
    let mut m: u64 = n / 10;
    proof {
        assert(rev_digit_chars(rest@) =~= seq![digit_char((n % 10) as nat)]);
        if n < 10 {
            assert(dec_rep(n as nat) =~= Seq::<char>::empty() + rev_digit_chars(rest@));
        } else {
            assert(dec_rep(n as nat) =~= dec_rep(m as nat) + rev_digit_chars(rest@));
        }
    }
    while m > 0
        invariant
            rest@.len() >= 1,
            forall|k: int| 0 <= k < rest@.len() ==> #[trigger] rest@[k] < 10,
            dec_rep(n as nat) =~= (if m > 0 {
                dec_rep(m as nat)
            } else {
                Seq::<char>::empty()
            }) + rev_digit_chars(rest@),
        decreases m,
    {
        let d: u64 = m % 10;
        let m2: u64 = m / 10;
        proof {
            let prev = rest@;
            let stepped = prev.push(d);
            assert(rev_digit_chars(stepped) =~= seq![digit_char(d as nat)] + rev_digit_chars(
                prev,
            ));
            if m < 10 {
                assert(dec_rep(m as nat) =~= seq![digit_char(d as nat)]);
            } else {
                assert(dec_rep(m as nat) =~= dec_rep(m2 as nat) + seq![digit_char(d as nat)]);
            }
            assert(dec_rep(n as nat) =~= (if m2 > 0 {
                dec_rep(m2 as nat)
            } else {
                Seq::<char>::empty()
            }) + rev_digit_chars(stepped));
        }
        rest.push(d);
        m = m2;
    }
    let mut r: String = String::new();
    let ghost target = rev_digit_chars(rest@);
    proof {
        assert(dec_rep(n as nat) =~= target);
    }
    let mut j: usize = rest.len();
    while j > 0
        invariant
            j <= rest@.len(),
            forall|k: int| 0 <= k < rest@.len() ==> #[trigger] rest@[k] < 10,
            target == rev_digit_chars(rest@),
            r@ =~= target.take(rest@.len() - j),
        decreases j,
    {
        j = j - 1;
        let s = digit_str(rest[j]);
        r.append(s);
        proof {
            assert(r@ =~= target.take(rest@.len() - j));
        }
    }
    proof {
        assert(r@ =~= target);
        assert(all_digits(dec_rep(n as nat))) by {
            lemma_dec_rep_digits(n as nat);
        }
    }
    r
}

/// Every character of a rendering is a digit, and a rendering is never empty.
pub proof fn lemma_dec_rep_digits(n: nat)
    ensures
        all_digits(dec_rep(n)),
        dec_rep(n).len() >= 1,
    decreases n,
{
    if n < 10 {
    } else {
        lemma_dec_rep_digits(n / 10);
        assert forall|i: int| 0 <= i < dec_rep(n).len() implies is_digit(#[trigger] dec_rep(n)[i]) by {
            if i < dec_rep(n / 10).len() {
                assert(dec_rep(n)[i] == dec_rep(n / 10)[i]);
            }
        }
    }
}

/// Rendering and reading back are inverse: the value of `n`'s
/// rendering is `n`.
pub proof fn lemma_dec_round_trip(n: nat)
    ensures
        dec_val(dec_rep(n)) == n,
    decreases n,
{
    lemma_dec_rep_digits(n);
    if n < 10 {
        assert(dec_rep(n).drop_last() =~= Seq::<char>::empty());
        assert(dec_rep(n).last() == digit_char(n));
        assert(char_digit(digit_char(n)) == n);
        assert(dec_val(dec_rep(n)) == dec_val(dec_rep(n).drop_last()) * 10 + char_digit(
            dec_rep(n).last(),
        ));
    } else {
        lemma_dec_round_trip(n / 10);
        assert(dec_rep(n).drop_last() =~= dec_rep(n / 10));
        assert(dec_rep(n).last() == digit_char(n % 10));
        assert(char_digit(digit_char(n % 10)) == n % 10);
        assert(dec_val(dec_rep(n)) == dec_val(dec_rep(n).drop_last()) * 10 + char_digit(
            dec_rep(n).last(),
        ));
        assert(dec_val(dec_rep(n / 10)) * 10 + n % 10 == n) by (nonlinear_arith)
            requires
                dec_val(dec_rep(n / 10)) == n / 10,
                n >= 10,
        ;
    }
}

/// A digit string value grows (weakly) with every digit appended.
proof fn lemma_dec_val_take_le(s: Seq<char>, i: int)
    requires
        0 <= i <= s.len(),
    ensures
        dec_val(s.take(i)) <= dec_val(s),
    decreases s.len() - i,
{
    if i < s.len() {
        assert(s.take(i + 1).drop_last() =~= s.take(i));
        assert(dec_val(s.take(i + 1)) == dec_val(s.take(i)) * 10 + char_digit(s.take(i + 1).last()));
        lemma_dec_val_take_le(s, i + 1);
        assert(s.take(s.len() as int) =~= s);
    } else {
        assert(s.take(i) =~= s);
    }
}

/// Parses a non-empty all-digit string as a `u64`.
///
/// Returns `None` exactly when the string is empty, contains a
/// non-digit, or denotes a value above `u64::MAX`.
pub fn parse_u64_decimal(s: &str) -> (r: Option<u64>)
    ensures
        match r {
            Some(v) => s@.len() >= 1 && all_digits(s@) && v as nat == dec_val(s@),
            None => s@.len() == 0 || !all_digits(s@) || dec_val(s@) > u64::MAX,
        },
{
    let len = s.unicode_len();
    if len == 0 {
        return None;
    }
    let mut acc: u64 = 0;
    let mut i: usize = 0;
    while i < len
        invariant
            i <= len,
            len == s@.len(),
            all_digits(s@.take(i as int)),
            acc as nat == dec_val(s@.take(i as int)),
        decreases len - i,
    {
        let c = s.get_char(i);
        if c < '0' || c > '9' {
            return None;
        }
        let d: u64 = (c as u32 as u64) - 48;
        if acc > (u64::MAX - d) / 10 {
            proof {
                assert(s@.take(i + 1).drop_last() =~= s@.take(i as int));
                assert(dec_val(s@.take(i + 1)) == acc as nat * 10 + d as nat);
                assert(acc as nat * 10 + d as nat > u64::MAX) by (nonlinear_arith)
                    requires
                        acc > (u64::MAX - d) / 10,
                        d < 10,
                ;
                lemma_dec_val_take_le(s@, i + 1);
            }
            return None;
        }
        proof {
            assert(s@.take(i + 1).drop_last() =~= s@.take(i as int));
            assert(acc as nat * 10 + d as nat <= u64::MAX) by (nonlinear_arith)
                requires
                    acc <= (u64::MAX - d) / 10,
                    d < 10,
            ;
        }
        acc = acc * 10 + d;
        i = i + 1;
    }
    proof {
        assert(s@.take(len as int) =~= s@);
    }
    Some(acc)
}

} // verus!
