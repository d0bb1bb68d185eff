use vstd::prelude::*;

use crate::error::AcqError;

verus! {

/// The address prefix of a workshop item page, as plain text.
pub open spec fn workshop_prefix() -> Seq<char> {
    "https://steamcommunity.com/sharedfiles/filedetails/?id="@
}

/// The same prefix as a regular expression, its `.` and `?` escaped.
pub open spec fn workshop_pattern() -> Seq<char> {
    "https://steamcommunity\\.com/sharedfiles/filedetails/\\?id="@
}

/// `s` with its leftmost occurrence of `p` removed, or `s` itself when `p`
/// does not occur in it.
pub open spec fn remove_first(s: Seq<char>, p: Seq<char>) -> Seq<char>
    decreases s.len(),
{
    if s.len() < p.len() || s.len() == 0 {
        s
    } else if s.take(p.len() as int) == p {
        s.skip(p.len() as int)
    } else {
        seq![s[0]] + remove_first(s.drop_first(), p)
    }
}

pub open spec fn is_digit(c: char) -> bool {
    '0' <= c <= '9'
}

pub open spec fn all_digits(s: Seq<char>) -> bool {
    forall|i: int| 0 <= i < s.len() ==> is_digit(#[trigger] s[i])
}

/// The number that a string of decimal digits denotes.
pub open spec fn digits_value(s: Seq<char>) -> nat
    decreases s.len(),
{
    if s.len() == 0 {
        0
    } else {
        digits_value(s.drop_last()) * 10 + (s.last() as nat - '0' as nat) as nat
    }
}

/// The digits of an unsigned decimal: the text without one leading `+`.
pub open spec fn unsigned_digits(s: Seq<char>) -> Seq<char> {
    if s.len() > 0 && s[0] == '+' {
        s.drop_first()
    } else {
        s
    }
}

/// The `u64` that `s` spells in decimal, with an optional leading `+`, if any.
pub open spec fn decimal_u64(s: Seq<char>) -> Option<u64> {
    let d = unsigned_digits(s);
    if d.len() > 0 && all_digits(d) && digits_value(d) <= u64::MAX {
        Some(digits_value(d) as u64)
    } else {
        None
    }
}

/// The id that an input denotes: the workshop address prefix is removed where
/// it occurs, and what is left must be an unsigned decimal.
pub open spec fn workshop_id_of(input: Seq<char>) -> Option<u64> {
    decimal_u64(remove_first(input, workshop_prefix()))
}

/// Relies on regex::Regex::new to compile the workshop address pattern (a
/// fixed string whose only special characters are escaped, so it compiles
/// and matches exactly the plain prefix), and on regex::Regex::replace, which
/// replaces the leftmost match, here with nothing.
#[verifier::external_body]
fn remove_pattern(pattern: &str, s: &str) -> (r: String)
    requires
        pattern@ == workshop_pattern(),
    ensures
        r@ == remove_first(s@, workshop_prefix()),
{
    regex::Regex::new(pattern).unwrap().replace(s, "").into_owned()
}

proof fn lemma_prefix_value_grows(s: Seq<char>, k: int)
    requires
        0 <= k <= s.len(),
        all_digits(s),
    ensures
        digits_value(s.take(k)) <= digits_value(s),
    decreases s.len() - k,
{
    if k < s.len() {
        lemma_prefix_value_grows(s, k + 1);
        assert(s.take(k + 1).drop_last() =~= s.take(k));
        assert(is_digit(s[k]));
    } else {
        assert(s.take(k) =~= s);
    }
}

/// Reads an unsigned decimal `u64`, with an optional leading `+`.
pub fn parse_decimal_u64(s: &str) -> (r: Option<u64>)
    ensures
        r == decimal_u64(s@),
{
    let ghost d = unsigned_digits(s@);
    let mut value: u64 = 0;
    let mut any_digit: bool = false;
    let mut at_start: bool = true;
    let ghost mut count: int = 0;
    for c in it: s.chars()
        invariant
            it.seq() == s@,
            at_start <==> it.index() == 0,
            count == it.index() - (if s@.len() > 0 && s@[0] == '+' && it.index() > 0 {
                1int
            } else {
                0
            }),
            0 <= count <= d.len(),
            any_digit <==> count > 0,
            d == (if s@.len() > 0 && s@[0] == '+' { s@.drop_first() } else { s@ }),
            all_digits(d.take(count)),
            value == digits_value(d.take(count)),
    {
        if at_start && c == '+' {
            at_start = false;
        } else {
            at_start = false;
            proof {
                assert(d[count] == c);
            }
            if !('0' <= c && c <= '9') {
                return None;
            }
            let digit: u64 = (c as u32 - '0' as u32) as u64;
            proof {
                assert(d.take(count + 1).drop_last() =~= d.take(count));
            }
            if value > (u64::MAX - digit) / 10 {
                proof {
                    assert(digits_value(d.take(count + 1)) > u64::MAX) by (nonlinear_arith)
                        requires
                            digits_value(d.take(count + 1)) == value * 10 + digit,
                            value > (u64::MAX - digit) / 10,
                            digit <= 9,
                    ;
                    if all_digits(d) {
                        lemma_prefix_value_grows(d, count + 1);
                    }
                }
                return None;
            }
            value = value * 10 + digit;
            any_digit = true;
            proof {
                count = count + 1;
                assert forall|i: int| 0 <= i < count implies is_digit(
                    #[trigger] d.take(count)[i],
                ) by {
                    if i < count - 1 {
                        assert(d.take(count)[i] == d.take(count - 1)[i]);
                    }
                }
            }
        }
    }
    proof {
        assert(d.take(count) =~= d);
    }
    if !any_digit {
        None
    } else {
        Some(value)
    }
}

/// Turns the user's input (an item page address or a bare id) into the item
/// id.
pub fn parse_workshop_id(input: &str) -> (r: Result<u64, AcqError>)
    ensures
        match workshop_id_of(input@) {
            Some(id) => r == Ok::<u64, AcqError>(id),
            None => r == Err::<u64, AcqError>(AcqError::Input),
        },
{
    let pattern = "https://steamcommunity\\.com/sharedfiles/filedetails/\\?id=";
    proof {
        reveal_strlit("https://steamcommunity\\.com/sharedfiles/filedetails/\\?id=");
    }
    let rest = remove_pattern(pattern, input);
    match parse_decimal_u64(rest.as_str()) {
        Some(id) => Ok(id),
        None => Err(AcqError::Input),
    }
}

} // verus!
