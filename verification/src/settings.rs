//! Settings read from the environment: numbers and flags with their
//! defaults, the verbosity switch, prefix caching, paged attention and
//! in-situ quantization. The caller reads the variables; these functions
//! decide what their values mean.

use vstd::prelude::*;

use crate::text::{decimal, digit_char, owned, replace, replace_all, same_text};

verus! {

/// A decimal digit.
pub open spec fn is_digit(c: char) -> bool {
    '0' <= c && c <= '9'
}

/// Every character is a decimal digit.
pub open spec fn all_digits(s: Seq<char>) -> bool {
    forall|i: int| 0 <= i < s.len() ==> is_digit(#[trigger] s[i])
}

/// The number that a string of decimal digits writes.
pub open spec fn digits_value(s: Seq<char>) -> nat
    decreases s.len(),
{
    if s.len() == 0 {
        0
    } else {
        digits_value(s.drop_last()) * 10 + ((s.last() as int - '0' as int) as nat)
    }
}

/// What `usize::from_str` gives: an optional '+', then one or more
/// decimal digits whose value fits in a `usize`.
pub open spec fn spec_parse_usize(s: Seq<char>) -> Option<nat> {
    let d = if s.len() > 0 && s[0] == '+' {
        s.drop_first()
    } else {
        s
    };
    if d.len() > 0 && all_digits(d) && digits_value(d) <= usize::MAX {
        Some(digits_value(d))
    } else {
        None
    }
}

proof fn lemma_digits_value_grows(s: Seq<char>, i: int)
    requires
        0 <= i <= s.len(),
        all_digits(s),
    ensures
        digits_value(s.take(i)) <= digits_value(s),
    decreases s.len() - i,
{
    if i < s.len() {
        lemma_digits_value_grows(s, i + 1);
        assert(s.take(i + 1).drop_last() =~= s.take(i));
        assert(s.take(i + 1).last() == s[i]);
        assert(is_digit(s[i]));
    } else {
        assert(s.take(i) =~= s);
    }
}

/// The value of a decimal number, as `usize::from_str` reads it.
pub fn parse_usize(s: &str) -> (r: Option<usize>)
    ensures
        match r {
            Some(v) => spec_parse_usize(s@) == Some(v as nat),
            None => spec_parse_usize(s@) is None,
        },
{
    let n = s.unicode_len();
    let start: usize = if n > 0 && s.get_char(0) == '+' {
        1
    } else {
        0
    };
    let ghost d = if s@.len() > 0 && s@[0] == '+' {
        s@.drop_first()
    } else {
        s@
    };
    assert(d =~= s@.skip(start as int));
    if start >= n {
        return None;
    }
    let mut v: usize = 0;
    let mut i: usize = start;
    while i < n
        invariant
            start <= i <= n,
            n == s@.len(),
            d == s@.skip(start as int),
            d == (if s@.len() > 0 && s@[0] == '+' {
                s@.drop_first()
            } else {
                s@
            }),
            start < n,
            all_digits(d.take(i - start)),
            v as nat == digits_value(d.take(i - start)),
        decreases n - i,
    {
        let c = s.get_char(i);
        assert(d[i - start] == c);
        assert(d.take(i - start + 1).drop_last() =~= d.take(i - start));
        assert(d.take(i - start + 1).last() == c);
        if !('0' <= c && c <= '9') {
            assert(!is_digit(d[i - start]));
            assert(!all_digits(d));
            assert(spec_parse_usize(s@) is None);
            return None;
        }
        let digit = (c as u32 - '0' as u32) as usize;
        assert(digit as int == c as int - '0' as int);
        assert(digits_value(d.take(i - start + 1)) == digits_value(d.take(i - start)) * 10 + digit);
        let next = match v.checked_mul(10) {
            Some(t) => t.checked_add(digit),
            None => None,
        };
        match next {
            Some(t) => {
                v = t;
            },
            None => {
                proof {
                    assert(all_digits(d.take(i - start + 1)));
                    if all_digits(d) {
                        lemma_digits_value_grows(d, i - start + 1);
                    }
                    assert(spec_parse_usize(s@) is None);
                }
                return None;
            },
        }
        i = i + 1;
    }
    assert(d.take(n - start) =~= d);
    Some(v)
}

proof fn lemma_decimal_digits(n: nat)
    ensures
        all_digits(decimal(n)),
        digits_value(decimal(n)) == n,
        decimal(n).len() > 0,
        decimal(n)[0] != '+',
    decreases n,
{
    if n < 10 {
        assert(digit_char(n) as int == 48 + n);
        assert(decimal(n) == seq![digit_char(n)]);
        assert(seq![digit_char(n)].drop_last() =~= Seq::<char>::empty());
        assert(seq![digit_char(n)].last() == digit_char(n));
        assert('0' as int == 48);
        assert(digits_value(Seq::<char>::empty()) == 0);
        assert(digits_value(seq![digit_char(n)].drop_last()) == 0);
        assert(digits_value(seq![digit_char(n)]) == n);
    } else {
        lemma_decimal_digits(n / 10);
        let d = decimal(n / 10);
        let c = digit_char(n % 10);
        assert(c as int == 48 + n % 10);
        assert(decimal(n) == d.push(c));
        assert(d.push(c).drop_last() =~= d);
        assert(d.push(c).last() == c);
        assert(d.push(c)[0] == d[0]);
        assert((n / 10) * 10 + n % 10 == n) by (nonlinear_arith);
        assert('0' as int == 48);
        assert(digits_value(d.push(c)) == digits_value(d) * 10 + ((c as int - '0' as int) as nat));
        assert forall|i: int| 0 <= i < d.push(c).len() implies is_digit(#[trigger] d.push(c)[i]) by {
            if i < d.len() {
                assert(d.push(c)[i] == d[i]);
            }
        }
    }
}

/// Reading back the decimal representation of a number that fits in a
/// `usize` gives the number.
pub proof fn law_parse_decimal_roundtrip(n: nat)
    requires
        n <= usize::MAX,
    ensures
        spec_parse_usize(decimal(n)) == Some(n),
{
    lemma_decimal_digits(n);
}

/// What `bool::from_str` gives: "true" and "false", and nothing else.
pub open spec fn spec_parse_bool(s: Seq<char>) -> Option<bool> {
    if s == "true"@ {
        Some(true)
    } else if s == "false"@ {
        Some(false)
    } else {
        None
    }
}

/// The value of a flag, as `bool::from_str` reads it.
pub fn parse_bool(s: &str) -> (r: Option<bool>)
    ensures
        r == spec_parse_bool(s@),
{
    if same_text(s, "true") {
        Some(true)
    } else if same_text(s, "false") {
        Some(false)
    } else {
        None
    }
}

/// A number read from the environment: its value when the variable is
/// set to one, else the default.
pub fn number_or(value: Option<&str>, default: usize) -> (r: usize)
    ensures
        r == match value {
            Some(v) => match spec_parse_usize(v@) {
                Some(x) => x,
                None => default as nat,
            },
            None => default as nat,
        },
{
    match value {
        Some(v) => match parse_usize(v) {
            Some(x) => x,
            None => default,
        },
        None => default,
    }
}

/// A flag read from the environment: its value when the variable is set
/// to "true" or "false", else the default.
pub fn flag_or(value: Option<&str>, default: bool) -> (r: bool)
    ensures
        r == match value {
            Some(v) => match spec_parse_bool(v@) {
                Some(x) => x,
                None => default,
            },
            None => default,
        },
{
    match value {
        Some(v) => match parse_bool(v) {
            Some(x) => x,
            None => default,
        },
        None => default,
    }
}

/// What `str::to_lowercase` gives for a text (Unicode lower case).
pub uninterp spec fn lowercase_of(s: Seq<char>) -> Seq<char>;

/// What `str::to_uppercase` gives for a text (Unicode upper case).
pub uninterp spec fn uppercase_of(s: Seq<char>) -> Seq<char>;

/// `str::to_lowercase`: the text in lower case, as Unicode defines it.
#[verifier::external_body]
pub(crate) fn to_lowercase(s: &str) -> (r: String)
    ensures
        r@ == lowercase_of(s@),
{
    s.to_lowercase()
}

/// `str::to_uppercase`: the text in upper case, as Unicode defines it.
#[verifier::external_body]
pub(crate) fn to_uppercase(s: &str) -> (r: String)
    ensures
        r@ == uppercase_of(s@),
{
    s.to_uppercase()
}

/// The verbosity switch, given its value in lower case and as set:
/// on for "true" (in any case) or "1".
pub fn verbose_from(lowered: &str, raw: &str) -> (r: bool)
    ensures
        r == (lowered@ == "true"@ || raw@ == "1"@),
{
    same_text(lowered, "true") || same_text(raw, "1")
}

/// Whether diagnostics are printed (`MISTRALRS_VERBOSE`): when the
/// variable is "true" in any case, or "1".
pub fn should_enable_logging(value: Option<&str>) -> (r: bool)
    ensures
        r == match value {
            Some(v) => lowercase_of(v@) == "true"@ || v@ == "1"@,
            None => false,
        },
{
    match value {
        Some(v) => {
            let lowered = to_lowercase(v);
            verbose_from(lowered.as_str(), v)
        },
        None => false,
    }
}

/// A character in lower case when it is an ASCII letter.
pub open spec fn ascii_lower(c: char) -> char {
    if 'A' <= c && c <= 'Z' {
        ((c as u32) + 32) as char
    } else {
        c
    }
}

/// The texts are equal when ASCII letters are compared without case
/// (what `str::eq_ignore_ascii_case` decides).
pub open spec fn same_ignoring_ascii_case(a: Seq<char>, b: Seq<char>) -> bool {
    a.len() == b.len() && forall|i: int| 0 <= i < a.len() ==> ascii_lower(#[trigger] a[i]) == ascii_lower(b[i])
}

fn lower_char(c: char) -> (r: char)
    ensures
        r == ascii_lower(c),
{
    if 'A' <= c && c <= 'Z' {
        ((c as u8) + 32) as char
    } else {
        c
    }
}

/// Whether the texts are equal when ASCII letters are compared without case.
pub fn eq_ignore_ascii_case(a: &str, b: &str) -> (r: bool)
    ensures
        r == same_ignoring_ascii_case(a@, b@),
{
    let n = a.unicode_len();
    if n != b.unicode_len() {
        return false;
    }
    let mut i: usize = 0;
    while i < n
        invariant
            n == a@.len(),
            n == b@.len(),
            i <= n,
            forall|k: int| 0 <= k < i ==> ascii_lower(#[trigger] a@[k]) == ascii_lower(b@[k]),
        decreases n - i,
    {
        if lower_char(a.get_char(i)) != lower_char(b.get_char(i)) {
            return false;
        }
        i = i + 1;
    }
    true
}

/// Whether the local backend logs its device choice (`SPNL_LOG`): when
/// the variable is "1", or "true" in any ASCII case.
pub fn spnl_log_enabled(value: Option<&str>) -> (r: bool)
    ensures
        r == match value {
            Some(v) => v@ == "1"@ || same_ignoring_ascii_case(v@, "true"@),
            None => false,
        },
{
    match value {
        Some(v) => same_text(v, "1") || eq_ignore_ascii_case(v, "true"),
        None => false,
    }
}

/// The number of parallel tasks (`SPNL_NUM_PARALLEL`), 2 by default.
pub fn max_parallel(value: Option<&str>) -> (r: usize)
    ensures
        r == match value {
            Some(v) => match spec_parse_usize(v@) {
                Some(x) => x,
                None => 2,
            },
            None => 2,
        },
{
    number_or(value, 2)
}

/// The prefix cache size, given the variable's value in lower case and
/// as set: none when it is "false" (in any case) or "0", its number when
/// it is one, else 16.
pub fn prefix_cache_from(lowered: &str, raw: &str) -> (r: Option<usize>)
    ensures
        r == if lowered@ == "false"@ || raw@ == "0"@ {
            None
        } else {
            match spec_parse_usize(raw@) {
                Some(x) => Some(x as usize),
                None => Some(16usize),
            }
        },
{
    if same_text(lowered, "false") || same_text(raw, "0") {
        None
    } else {
        match parse_usize(raw) {
            Some(x) => Some(x),
            None => Some(16),
        }
    }
}

/// How many sequences the prefix cache keeps (`MISTRALRS_PREFIX_CACHE_N`):
/// none when disabled, 16 when unset or not a number.
pub fn prefix_cache_n(value: Option<&str>) -> (r: Option<usize>)
    ensures
        r == match value {
            Some(v) => if lowercase_of(v@) == "false"@ || v@ == "0"@ {
                None
            } else {
                match spec_parse_usize(v@) {
                    Some(x) => Some(x as usize),
                    None => Some(16usize),
                }
            },
            None => Some(16usize),
        },
{
    match value {
        Some(v) => {
            let lowered = to_lowercase(v);
            prefix_cache_from(lowered.as_str(), v)
        },
        None => Some(16),
    }
}

/// The paged-attention block size, given the switch's value in lower
/// case, whether the platform supports it, and the block size variable:
/// none when the switch is "false" or "0" or the platform lacks support,
/// else the block size, 32 by default.
pub fn paged_attn_from(enabled_lowered: &str, supported: bool, block_size: Option<&str>) -> (r:
    Option<usize>)
    ensures
        r == if enabled_lowered@ == "false"@ || enabled_lowered@ == "0"@ || !supported {
            None
        } else {
            Some(
                match block_size {
                    Some(v) => match spec_parse_usize(v@) {
                        Some(x) => x as usize,
                        None => 32usize,
                    },
                    None => 32usize,
                },
            )
        },
{
    if same_text(enabled_lowered, "false") || same_text(enabled_lowered, "0") || !supported {
        None
    } else {
        Some(number_or(block_size, 32))
    }
}

/// The paged-attention block size (`MISTRALRS_PAGED_ATTN`, off unless
/// set; `MISTRALRS_PAGED_ATTN_BLOCK_SIZE`, 32 by default), or none when
/// paged attention is off or not supported.
pub fn paged_attn_block_size(enabled: Option<&str>, supported: bool, block_size: Option<&str>) -> (r:
    Option<usize>)
    ensures
        r == match enabled {
            Some(e) => if lowercase_of(e@) == "false"@ || lowercase_of(e@) == "0"@ || !supported {
                None
            } else {
                Some(
                    match block_size {
                        Some(v) => match spec_parse_usize(v@) {
                            Some(x) => x as usize,
                            None => 32usize,
                        },
                        None => 32usize,
                    },
                )
            },
            None => None,
        },
{
    match enabled {
        Some(e) => {
            let lowered = to_lowercase(e);
            paged_attn_from(lowered.as_str(), supported, block_size)
        },
        None => None,
    }
}

/// The in-situ quantization types.
#[derive(Debug, Clone, Copy, PartialEq, Eq)]
pub enum IsqType {
    Q2K,
    Q3K,
    Q4K,
    Q4_0,
    Q4_1,
    Q5K,
    Q5_0,
    Q5_1,
    Q6K,
    Q8_0,
    Q8_1,
}

/// An unknown in-situ quantization type, as it was given.
#[derive(Debug, Clone, PartialEq, Eq)]
pub struct InvalidIsqType {
    pub value: String,
}

/// The quantization type that a normalized name selects.
pub open spec fn isq_of_normalized(n: Seq<char>) -> Option<IsqType> {
    if n == "Q4K"@ || n == "Q4_K"@ {
        Some(IsqType::Q4K)
    } else if n == "Q4_0"@ || n == "Q40"@ {
        Some(IsqType::Q4_0)
    } else if n == "Q4_1"@ || n == "Q41"@ {
        Some(IsqType::Q4_1)
    } else if n == "Q5K"@ || n == "Q5_K"@ {
        Some(IsqType::Q5K)
    } else if n == "Q5_0"@ || n == "Q50"@ {
        Some(IsqType::Q5_0)
    } else if n == "Q5_1"@ || n == "Q51"@ {
        Some(IsqType::Q5_1)
    } else if n == "Q8_0"@ || n == "Q80"@ || n == "Q8"@ {
        Some(IsqType::Q8_0)
    } else if n == "Q8_1"@ || n == "Q81"@ {
        Some(IsqType::Q8_1)
    } else if n == "Q2K"@ || n == "Q2_K"@ {
        Some(IsqType::Q2K)
    } else if n == "Q3K"@ || n == "Q3_K"@ {
        Some(IsqType::Q3K)
    } else if n == "Q6K"@ || n == "Q6_K"@ {
        Some(IsqType::Q6K)
    } else {
        None
    }
}

/// A quantization name in upper case with the size suffixes "_M", "_S"
/// and "_L" taken out (in that order).
pub open spec fn normalized_isq(upper: Seq<char>) -> Seq<char> {
    replace_all(replace_all(replace_all(upper, "_M"@, ""@), "_S"@, ""@), "_L"@, ""@)
}

fn same_as_any(s: &str, a: &str, b: &str) -> (r: bool)
    ensures
        r == (s@ == a@ || s@ == b@),
{
    same_text(s, a) || same_text(s, b)
}

/// The quantization type for a name already in upper case (see
/// [`parse_isq_type`]); `given` is the name as it was given, for the error.
pub fn isq_from_upper(upper: &str, given: &str) -> (r: Result<IsqType, InvalidIsqType>)
    ensures
        match r {
            Ok(t) => isq_of_normalized(normalized_isq(upper@)) == Some(t),
            Err(e) => isq_of_normalized(normalized_isq(upper@)) is None && e.value@ == given@,
        },
{
    proof {
        reveal_strlit("_M");
        reveal_strlit("_S");
        reveal_strlit("_L");
    }
    let a = replace(upper, "_M", "");
    let b = replace(a.as_str(), "_S", "");
    let n = replace(b.as_str(), "_L", "");
    let s = n.as_str();
    if same_as_any(s, "Q4K", "Q4_K") {
        Ok(IsqType::Q4K)
    } else if same_as_any(s, "Q4_0", "Q40") {
        Ok(IsqType::Q4_0)
    } else if same_as_any(s, "Q4_1", "Q41") {
        Ok(IsqType::Q4_1)
    } else if same_as_any(s, "Q5K", "Q5_K") {
        Ok(IsqType::Q5K)
    } else if same_as_any(s, "Q5_0", "Q50") {
        Ok(IsqType::Q5_0)
    } else if same_as_any(s, "Q5_1", "Q51") {
        Ok(IsqType::Q5_1)
    } else if same_as_any(s, "Q8_0", "Q80") || same_text(s, "Q8") {
        Ok(IsqType::Q8_0)
    } else if same_as_any(s, "Q8_1", "Q81") {
        Ok(IsqType::Q8_1)
    } else if same_as_any(s, "Q2K", "Q2_K") {
        Ok(IsqType::Q2K)
    } else if same_as_any(s, "Q3K", "Q3_K") {
        Ok(IsqType::Q3K)
    } else if same_as_any(s, "Q6K", "Q6_K") {
        Ok(IsqType::Q6K)
    } else {
        Err(InvalidIsqType { value: owned(given) })
    }
}

/// The in-situ quantization type that a name selects: the name is put in
/// upper case and the size suffixes "_M", "_S", "_L" are taken out, so
/// that "q4_k_m" selects `Q4K`. Unknown names are refused.
pub fn parse_isq_type(isq_str: &str) -> (r: Result<IsqType, InvalidIsqType>)
    ensures
        match r {
            Ok(t) => isq_of_normalized(normalized_isq(uppercase_of(isq_str@))) == Some(t),
            Err(e) => isq_of_normalized(normalized_isq(uppercase_of(isq_str@))) is None
                && e.value@ == isq_str@,
        },
{
    let upper = to_uppercase(isq_str);
    isq_from_upper(upper.as_str(), isq_str)
}

/// The in-situ quantization to apply (`MISTRALRS_ISQ`): none when unset,
/// "false" or "none" (in any case), or not a known type.
pub fn isq_setting(value: Option<&str>) -> (r: Option<IsqType>)
    ensures
        r == match value {
            Some(v) => if lowercase_of(v@) == "false"@ || lowercase_of(v@) == "none"@ {
                None
            } else {
                isq_of_normalized(normalized_isq(uppercase_of(v@)))
            },
            None => None,
        },
{
    match value {
        Some(v) => {
            let lowered = to_lowercase(v);
            if same_as_any(lowered.as_str(), "false", "none") {
                None
            } else {
                match parse_isq_type(v) {
                    Ok(t) => Some(t),
                    Err(_) => None,
                }
            }
        },
        None => None,
    }
}

} // verus!
