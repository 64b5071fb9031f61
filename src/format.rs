use vstd::prelude::*;

verus! {

/// Whether every character of `s` is a decimal digit.
pub open spec fn all_digits(s: Seq<char>) -> bool {
    forall|i: int| 0 <= i < s.len() ==> '0' <= #[trigger] s[i] && s[i] <= '9'
}

/// The number that the decimal digits `s` write.
pub open spec fn digits_value(s: Seq<char>) -> int
    decreases s.len(),
{
    if s.len() == 0 {
        0
    } else {
        digits_value(s.drop_last()) * 10 + (s.last() as int - '0' as int)
    }
}

/// What `u64`'s `FromStr` accepts: an optional `+` and then one or more
/// decimal digits, whose value fits.
pub open spec fn spec_parse_u64(s: Seq<char>) -> Option<u64> {
    let d = if s.len() > 0 && s[0] == '+' {
        s.drop_first()
    } else {
        s
    };
    if d.len() > 0 && all_digits(d) && digits_value(d) <= u64::MAX {
        Some(digits_value(d) as u64)
    } else {
        None
    }
}

/// Relies on `str::parse::<u64>`: an optional `+` followed by decimal
/// digits whose value fits, and nothing else, is a number.
#[verifier::external_body]
fn parse_u64(s: &str) -> (r: Option<u64>)
    ensures
        r == spec_parse_u64(s@),
{
    s.parse::<u64>().ok()
}

/// What `humansize::format_size` with the `BINARY` options writes for `n`
/// bytes.
pub uninterp spec fn binary_size_text(n: u64) -> Seq<char>;

/// Relies on `humansize::format_size(n, humansize::BINARY)`: the text
/// depends on `n` alone.
#[verifier::external_body]
fn format_binary_size(n: u64) -> (r: String)
    ensures
        r@ == binary_size_text(n),
{
    humansize::format_size(n, humansize::BINARY)
}

/// A byte count given as text, written with binary units; "unknown" when
/// the text is not a count.
pub fn humanize_str_bytes(s: &str) -> (r: String)
    ensures
        r@ == (match spec_parse_u64(s@) {
            Some(n) => binary_size_text(n),
            None => "unknown"@,
        }),
{
    match parse_u64(s) {
        Some(n) => format_binary_size(n),
        None => {
            let u = "unknown".to_owned();
            proof {
                reveal_strlit("unknown");
            }
            u
        },
    }
}

} // verus!
