//! Small verified text helpers: decimal rendering, NUL detection and
//! space-joining, used by the program-assembly code.

use vstd::prelude::*;
use vstd::string::*;

verus! {

/// The character for one decimal digit.
pub open spec fn digit_char(d: int) -> char {
    if d == 0 {
        '0'
    } else if d == 1 {
        '1'
    } else if d == 2 {
        '2'
    } else if d == 3 {
        '3'
    } else if d == 4 {
        '4'
    } else if d == 5 {
        '5'
    } else if d == 6 {
        '6'
    } else if d == 7 {
        '7'
    } else if d == 8 {
        '8'
    } else {
        '9'
    }
}

/// Decimal digits of `n`, most significant first, with no leading zeros.
pub open spec fn dec_digits(n: nat) -> Seq<char>
    decreases n,
{
    if n < 10 {
        seq![digit_char(n as int)]
    } else {
        dec_digits(n / 10).push(digit_char((n % 10) as int))
    }
}

/// Decimal rendering of a signed value: a leading '-' for negatives.
pub open spec fn dec_int(n: int) -> Seq<char> {
    if n < 0 {
        seq!['-'] + dec_digits((-n) as nat)
    } else {
        dec_digits(n as nat)
    }
}

/// The digit characters of `ds` read back to front.
spec fn rev_digit_chars(ds: Seq<u64>) -> Seq<char> {
    Seq::new(ds.len(), |i: int| digit_char(ds[ds.len() - 1 - i] as int))
}

proof fn lemma_rev_digit_chars_push(ds: Seq<u64>, d: u64)
    ensures
        rev_digit_chars(ds.push(d)) =~= seq![digit_char(d as int)] + rev_digit_chars(ds),
{
}

/// Appends the character for one decimal digit.
fn push_digit(s: &mut String, d: u64)
    requires
        d < 10,
    ensures
        final(s)@ == old(s)@.push(digit_char(d as int)),
{
    if d == 0 {
        s.append("0");
        proof {
            reveal_strlit("0");
            assert(s@ =~= old(s)@.push('0'));
        }
    } else if d == 1 {
        s.append("1");
        proof {
            reveal_strlit("1");
            assert(s@ =~= old(s)@.push('1'));
        }
    } else if d == 2 {
        s.append("2");
        proof {
            reveal_strlit("2");
            assert(s@ =~= old(s)@.push('2'));
        }
    } else if d == 3 {
        s.append("3");
        proof {
            reveal_strlit("3");
            assert(s@ =~= old(s)@.push('3'));
        }
    } else if d == 4 {
        s.append("4");
        proof {
            reveal_strlit("4");
            assert(s@ =~= old(s)@.push('4'));
        }
    } else if d == 5 {
        s.append("5");
        proof {
            reveal_strlit("5");
            assert(s@ =~= old(s)@.push('5'));
        }
    } else if d == 6 {
        s.append("6");
        proof {
            reveal_strlit("6");
            assert(s@ =~= old(s)@.push('6'));
        }
    } else if d == 7 {
        s.append("7");
        proof {
            reveal_strlit("7");
            assert(s@ =~= old(s)@.push('7'));
        }
    } else if d == 8 {
        s.append("8");
        proof {
            reveal_strlit("8");
            assert(s@ =~= old(s)@.push('8'));
        }
    } else {
        s.append("9");
        proof {
            reveal_strlit("9");
            assert(s@ =~= old(s)@.push('9'));
        }
    }
}

/// Renders `n` in decimal.
pub fn u64_to_string(n: u64) -> (s: String)
    ensures
        s@ == dec_digits(n as nat),
{
    let mut digits: Vec<u64> = Vec::new();
    let mut m: u64 = n;
    loop
        invariant_except_break
            dec_digits(n as nat) =~= dec_digits(m as nat) + rev_digit_chars(digits@),
        invariant
            forall|i: int| 0 <= i < digits@.len() ==> digits@[i] < 10,
        ensures
            dec_digits(n as nat) =~= rev_digit_chars(digits@),
        decreases m,
    {
        let d: u64 = m % 10;
        proof {
            lemma_rev_digit_chars_push(digits@, d);
        }
        digits.push(d);
        if m < 10 {
            proof {
                assert(dec_digits(n as nat) =~= rev_digit_chars(digits@));
            }
            break ;
        }
        m = m / 10;
    }
    let count = digits.len();
    let mut s = String::new();
    let mut k: usize = 0;
    while k < count
        invariant
            count == digits@.len(),
            k <= count,
            forall|i: int| 0 <= i < digits@.len() ==> digits@[i] < 10,
            s@ =~= rev_digit_chars(digits@).take(k as int),
            dec_digits(n as nat) =~= rev_digit_chars(digits@),
        decreases count - k,
    {
        push_digit(&mut s, digits[count - 1 - k]);
        proof {
            assert(rev_digit_chars(digits@).take(k + 1 as int) =~= rev_digit_chars(
                digits@,
            ).take(k as int).push(rev_digit_chars(digits@)[k as int]));
        }
        k = k + 1;
    }
    proof {
        assert(s@ =~= dec_digits(n as nat));
    }
    s
}

/// Renders `n` in decimal, with a leading '-' when negative.
pub fn i32_to_string(n: i32) -> (s: String)
    ensures
        s@ == dec_int(n as int),
{
    if n < 0 {
        let magnitude: u64 = (-(n as i64)) as u64;
        let mut s = String::from_str("-");
        proof {
            reveal_strlit("-");
        }
        let rendered = u64_to_string(magnitude);
        s.append(rendered.as_str());
        proof {
            assert(s@ =~= seq!['-'] + dec_digits(magnitude as nat));
        }
        s
    } else {
        u64_to_string(n as u64)
    }
}

/// True exactly when `s` holds an embedded NUL character.
pub fn str_contains_nul(s: &str) -> (b: bool)
    ensures
        b == s@.contains('\0'),
{
    let n = s.unicode_len();
    let mut i: usize = 0;
    while i < n
        invariant
            n == s@.len(),
            i <= n,
            forall|j: int| 0 <= j < i ==> s@[j] != '\0',
        decreases n - i,
    {
        if s.get_char(i) == '\0' {
            proof {
                assert(s@.contains('\0')) by {
                    assert(s@[i as int] == '\0');
                }
            }
            return true;
        }
        i = i + 1;
    }
    false
}

/// The tokens of `toks` joined by single spaces.
pub open spec fn join_spaced(toks: Seq<Seq<char>>) -> Seq<char>
    decreases toks.len(),
{
    if toks.len() == 0 {
        Seq::empty()
    } else if toks.len() == 1 {
        toks[0]
    } else {
        join_spaced(toks.drop_last()) + seq![' '] + toks.last()
    }
}

/// Joins `tokens` with single spaces.
pub fn join_with_spaces(tokens: &Vec<String>) -> (s: String)
    ensures
        s@ == join_spaced(tokens.deep_view()),
{
    let mut s = String::new();
    let count = tokens.len();
    let mut i: usize = 0;
    while i < count
        invariant
            count == tokens@.len(),
            i <= count,
            tokens.deep_view().len() == count,
            s@ =~= join_spaced(tokens.deep_view().take(i as int)),
        decreases count - i,
    {
        if i > 0 {
            s.append(" ");
            proof {
                reveal_strlit(" ");
            }
        }
        s.append(tokens[i].as_str());
        proof {
            let full = tokens.deep_view();
            assert(full.take(i + 1 as int).drop_last() =~= full.take(i as int));
            assert(full.take(i + 1 as int).last() == full[i as int]);
            if i > 0 {
                assert(s@ =~= join_spaced(full.take(i as int)) + seq![' '] + full[i as int]);
            } else {
                assert(s@ =~= full[0]);
            }
            assert(s@ =~= join_spaced(full.take(i + 1 as int)));
        }
        i = i + 1;
    }
    proof {
        assert(tokens.deep_view().take(count as int) =~= tokens.deep_view());
    }
    s
}

} // verus!
