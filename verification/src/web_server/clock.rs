//! The wall clock, read for the timestamps of log entries.
use vstd::prelude::*;

verus! {

/// A decimal digit.
pub open spec fn is_digit(c: char) -> bool {
    '0' <= c <= '9'
}

/// Two decimal digits at `i` and `i + 1`.
pub open spec fn two_digits(s: Seq<char>, i: int) -> bool {
    is_digit(s[i]) && is_digit(s[i + 1])
}

/// The shape of a time written with `"%Y-%m-%d %H:%M:%S"`: the year, of at least
/// four digits and with a sign before years outside 0 to 9999, then
/// `-MM-DD HH:MM:SS` with two-digit fields.
pub open spec fn timestamp_shape(s: Seq<char>) -> bool {
    let k = s.len() - 15;
    &&& s.len() >= 19
    &&& forall|i: int|
        0 <= i < k ==> is_digit(#[trigger] s[i]) || (i == 0 && (s[0] == '+' || s[0] == '-'))
    &&& s[k] == '-'
    &&& two_digits(s, k + 1)
    &&& s[k + 3] == '-'
    &&& two_digits(s, k + 4)
    &&& s[k + 6] == ' '
    &&& two_digits(s, k + 7)
    &&& s[k + 9] == ':'
    &&& two_digits(s, k + 10)
    &&& s[k + 12] == ':'
    &&& two_digits(s, k + 13)
}

/// `chrono::Utc::now()` formatted with `"%Y-%m-%d %H:%M:%S"`. Which time comes back
/// depends on the moment of the call; what is stated is the shape that chrono's
/// format documents for these fields: the year zero-padded to four digits, with a
/// sign when outside 0 to 9999, and month, day, hour, minute and second
/// zero-padded to two digits.
#[verifier::external_body]
pub(crate) fn utc_timestamp() -> (r: String)
    ensures
        timestamp_shape(r@),
{
    chrono::Utc::now().format("%Y-%m-%d %H:%M:%S").to_string()
}

/// Law: a timestamp holds neither tab nor newline, so it stays one field of a
/// log line.
pub proof fn law_timestamp_one_field(s: Seq<char>)
    requires
        timestamp_shape(s),
    ensures
        forall|i: int| 0 <= i < s.len() ==> s[i] != '\t' && s[i] != '\n',
{
    let k = s.len() - 15;
    assert forall|i: int| 0 <= i < s.len() implies s[i] != '\t' && s[i] != '\n' by {
        if i < k {
            assert(is_digit(s[i]) || (i == 0 && (s[0] == '+' || s[0] == '-')));
        }
    }
}

} // verus!
