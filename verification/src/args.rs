//! Command-line options: `--key value` pairs and bare `--flag`s.

use vstd::prelude::*;

verus! {

/// The value following the first occurrence of `key` at or after position
/// `i` that has a successor.
pub open spec fn spec_arg_value_from(args: Seq<Seq<char>>, key: Seq<char>, i: int) -> Option<
    Seq<char>,
>
    decreases args.len() - i,
{
    if i < 0 || i + 1 >= args.len() {
        None
    } else if args[i] == key {
        Some(args[i + 1])
    } else {
        spec_arg_value_from(args, key, i + 1)
    }
}

/// The value of option `key`: the argument right after its first occurrence
/// (an occurrence as the very last argument has no value).
pub open spec fn spec_arg_value(args: Seq<Seq<char>>, key: Seq<char>) -> Option<Seq<char>> {
    spec_arg_value_from(args, key, 0)
}

/// The text of option `key`: the argument following the first occurrence of
/// `key`, or `None` when `key` is absent or only the last argument.
pub fn parse_arg(args: &Vec<String>, key: &str) -> (r: Option<String>)
    ensures
        match r {
            Some(v) => spec_arg_value(args.deep_view(), key@) == Some(v@),
            None => spec_arg_value(args.deep_view(), key@) is None,
        },
{
    let key_text = key.to_owned();
    let n = args.len();
    if n < 2 {
        return None;
    }
    let mut i: usize = 0;
    while i < n - 1
        invariant
            2 <= n == args@.len(),
            i <= n - 1,
            key_text@ == key@,
            spec_arg_value(args.deep_view(), key@) == spec_arg_value_from(
                args.deep_view(),
                key@,
                i as int,
            ),
        decreases n - i,
    {
        if args[i] == key_text {
            return Some(args[i + 1].clone());
        }
        i += 1;
    }
    None
}

/// Whether the bare flag `flag` occurs among the arguments.
pub fn has_flag(args: &Vec<String>, flag: &str) -> (r: bool)
    ensures
        r == args.deep_view().contains(flag@),
{
    let flag_text = flag.to_owned();
    let mut i: usize = 0;
    while i < args.len()
        invariant
            i <= args@.len(),
            flag_text@ == flag@,
            forall|j: int| 0 <= j < i ==> args.deep_view()[j] != flag@,
        decreases args@.len() - i,
    {
        if args[i] == flag_text {
            assert(args.deep_view()[i as int] == flag@);
            return true;
        }
        i += 1;
    }
    false
}

/// An ASCII decimal digit.
pub open spec fn is_digit(c: char) -> bool {
    '0' <= c && c <= '9'
}

/// A non-empty run of ASCII decimal digits.
pub open spec fn all_digits(s: Seq<char>) -> bool {
    s.len() > 0 && forall|i: int| 0 <= i < s.len() ==> is_digit(#[trigger] s[i])
}

/// The number written by a run of decimal digits.
pub open spec fn digits_value(s: Seq<char>) -> int
    decreases s.len(),
{
    if s.len() == 0 {
        0
    } else {
        digits_value(s.drop_last()) * 10 + (s.last() as int - '0' as int)
    }
}

/// Reading of `s` as an unsigned decimal number at most `max`: an optional
/// `+` followed by digits only.
pub open spec fn spec_parse_unsigned(s: Seq<char>, max: int) -> Option<int> {
    let d = if s.len() > 0 && s[0] == '+' { s.drop_first() } else { s };
    if all_digits(d) && digits_value(d) <= max {
        Some(digits_value(d))
    } else {
        None
    }
}

/// Reading of `s` as a signed decimal number in `min..=max`: an optional `+`
/// or `-` followed by digits only.
pub open spec fn spec_parse_signed(s: Seq<char>, min: int, max: int) -> Option<int> {
    let neg = s.len() > 0 && s[0] == '-';
    let d = if s.len() > 0 && (s[0] == '+' || s[0] == '-') { s.drop_first() } else { s };
    let v = if neg { -digits_value(d) } else { digits_value(d) };
    if all_digits(d) && min <= v <= max {
        Some(v)
    } else {
        None
    }
}

/// The error of integer parsing in `core::num`.
#[verifier::external_type_specification]
#[verifier::external_body]
pub struct ExParseIntError(core::num::ParseIntError);

/// `str::parse::<u64>` (`u64::from_str`): documented to accept an optional
/// `+` followed by ASCII digits only, and to fail on anything else, on an
/// empty string and on a value above `u64::MAX`.
#[verifier::external_body]
fn parse_u64_text(s: &str) -> (r: Result<u64, core::num::ParseIntError>)
    ensures
        match spec_parse_unsigned(s@, u64::MAX as int) {
            Some(v) => r == Ok::<u64, core::num::ParseIntError>(v as u64),
            None => r is Err,
        },
{
    s.parse::<u64>()
}

/// `str::parse::<u32>` (`u32::from_str`): as for `u64`, with bound
/// `u32::MAX`.
#[verifier::external_body]
fn parse_u32_text(s: &str) -> (r: Result<u32, core::num::ParseIntError>)
    ensures
        match spec_parse_unsigned(s@, u32::MAX as int) {
            Some(v) => r == Ok::<u32, core::num::ParseIntError>(v as u32),
            None => r is Err,
        },
{
    s.parse::<u32>()
}

/// `str::parse::<usize>` (`usize::from_str`): as for `u64`, with bound
/// `usize::MAX`.
#[verifier::external_body]
fn parse_usize_text(s: &str) -> (r: Result<usize, core::num::ParseIntError>)
    ensures
        match spec_parse_unsigned(s@, usize::MAX as int) {
            Some(v) => r == Ok::<usize, core::num::ParseIntError>(v as usize),
            None => r is Err,
        },
{
    s.parse::<usize>()
}

/// `str::parse::<i32>` (`i32::from_str`): documented to accept an optional
/// `+` or `-` followed by ASCII digits only, and to fail on anything else, on
/// an empty string and on a value outside `i32::MIN..=i32::MAX`.
#[verifier::external_body]
fn parse_i32_text(s: &str) -> (r: Result<i32, core::num::ParseIntError>)
    ensures
        match spec_parse_signed(s@, i32::MIN as int, i32::MAX as int) {
            Some(v) => r == Ok::<i32, core::num::ParseIntError>(v as i32),
            None => r is Err,
        },
{
    s.parse::<i32>()
}

/// Option `key` read as a `u64`.
pub open spec fn spec_arg_u64(args: Seq<Seq<char>>, key: Seq<char>) -> Option<u64> {
    match spec_arg_value(args, key) {
        Some(v) => match spec_parse_unsigned(v, u64::MAX as int) {
            Some(n) => Some(n as u64),
            None => None,
        },
        None => None,
    }
}

/// Option `key` read as a `u32`.
pub open spec fn spec_arg_u32(args: Seq<Seq<char>>, key: Seq<char>) -> Option<u32> {
    match spec_arg_value(args, key) {
        Some(v) => match spec_parse_unsigned(v, u32::MAX as int) {
            Some(n) => Some(n as u32),
            None => None,
        },
        None => None,
    }
}

/// Option `key` read as a `usize`.
pub open spec fn spec_arg_usize(args: Seq<Seq<char>>, key: Seq<char>) -> Option<usize> {
    match spec_arg_value(args, key) {
        Some(v) => match spec_parse_unsigned(v, usize::MAX as int) {
            Some(n) => Some(n as usize),
            None => None,
        },
        None => None,
    }
}

/// Option `key` read as an `i32`.
pub open spec fn spec_arg_i32(args: Seq<Seq<char>>, key: Seq<char>) -> Option<i32> {
    match spec_arg_value(args, key) {
        Some(v) => match spec_parse_signed(v, i32::MIN as int, i32::MAX as int) {
            Some(n) => Some(n as i32),
            None => None,
        },
        None => None,
    }
}

/// The value of option `key` as a `u64`; `None` when the option is missing
/// or its text is not a `u64`.
pub fn parse_arg_u64(args: &Vec<String>, key: &str) -> (r: Option<u64>)
    ensures
        r == spec_arg_u64(args.deep_view(), key@),
{
    match parse_arg(args, key) {
        Some(v) => match parse_u64_text(v.as_str()) {
            Ok(n) => Some(n),
            Err(_) => None,
        },
        None => None,
    }
}

/// The value of option `key` as a `u32`.
pub fn parse_arg_u32(args: &Vec<String>, key: &str) -> (r: Option<u32>)
    ensures
        r == spec_arg_u32(args.deep_view(), key@),
{
    match parse_arg(args, key) {
        Some(v) => match parse_u32_text(v.as_str()) {
            Ok(n) => Some(n),
            Err(_) => None,
        },
        None => None,
    }
}

/// The value of option `key` as a `usize`.
pub fn parse_arg_usize(args: &Vec<String>, key: &str) -> (r: Option<usize>)
    ensures
        r == spec_arg_usize(args.deep_view(), key@),
{
    match parse_arg(args, key) {
        Some(v) => match parse_usize_text(v.as_str()) {
            Ok(n) => Some(n),
            Err(_) => None,
        },
        None => None,
    }
}

/// The value of option `key` as an `i32`.
pub fn parse_arg_i32(args: &Vec<String>, key: &str) -> (r: Option<i32>)
    ensures
        r == spec_arg_i32(args.deep_view(), key@),
{
    match parse_arg(args, key) {
        Some(v) => match parse_i32_text(v.as_str()) {
            Ok(n) => Some(n),
            Err(_) => None,
        },
        None => None,
    }
}

/// The first occurrence of an option wins: when `key` does not occur among
/// the leading arguments `pre`, the value after `pre ++ [key, v]` is `v`,
/// whatever follows.
pub proof fn lemma_first_occurrence_wins(
    pre: Seq<Seq<char>>,
    key: Seq<char>,
    v: Seq<char>,
    rest: Seq<Seq<char>>,
)
    requires
        !pre.contains(key),
    ensures
        spec_arg_value(pre + seq![key, v] + rest, key) == Some(v),
{
    lemma_scan_reaches(pre, key, v, rest, pre.len() as int);
}

proof fn lemma_scan_reaches(pre: Seq<Seq<char>>, key: Seq<char>, v: Seq<char>, rest: Seq<Seq<char>>, i: int)
    requires
        !pre.contains(key),
        0 <= i <= pre.len(),
    ensures
        spec_arg_value_from(pre + seq![key, v] + rest, key, pre.len() - i) == Some(v),
    decreases i,
{
    let args = pre + seq![key, v] + rest;
    if i == 0 {
        assert(args[pre.len() as int] == key);
        assert(args[pre.len() as int + 1] == v);
    } else {
        lemma_scan_reaches(pre, key, v, rest, i - 1);
        let j = pre.len() - i;
        assert(args[j] == pre[j]);
        assert(pre[j] != key);
    }
}

} // verus!
