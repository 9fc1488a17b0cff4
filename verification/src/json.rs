//! The crate's own JSON handling, both directions.
//!
//! Inbound frames are scanned byte-wise by a tolerant top-level-field
//! scanner: it walks the members of the outermost object, skips nested
//! values by bracket counting, and keeps the value span of the *last*
//! occurrence of a key — the console is known to repeat keys inside one
//! object, and the last occurrence wins. Typed accessors then read a
//! boolean, an integer or a raw string out of a span.
//!
//! Outbound frames are built as `String`s by verified appenders for
//! literals, decimal integers and escaped strings.
//!
//! Every scanner is written twice, as a spec function and as an executable
//! mirror proved equal to it; the spec functions are the crate's grammar.

use vstd::prelude::*;

verus! {

/// JSON insignificant whitespace.
pub open spec fn spec_is_ws(b: u8) -> bool {
    b == 32 || b == 9 || b == 10 || b == 13
}

/// The first index at or after `i` holding a non-whitespace byte (or the
/// end of the input).
pub open spec fn spec_skip_ws(s: Seq<u8>, i: int) -> int
    decreases s.len() - i,
{
    if 0 <= i < s.len() && spec_is_ws(s[i]) {
        spec_skip_ws(s, i + 1)
    } else {
        i
    }
}

/// The index just past the closing quote of a string whose opening quote
/// stands at `i - 1`: escape pairs are stepped over, an unterminated string
/// is refused.
pub open spec fn spec_skip_string_rest(s: Seq<u8>, i: int) -> Option<int>
    decreases s.len() - i,
{
    if i < 0 || i >= s.len() {
        None
    } else if s[i] == 34 {
        Some(i + 1)
    } else if s[i] == 92 {
        if i + 2 <= s.len() {
            spec_skip_string_rest(s, i + 2)
        } else {
            None
        }
    } else {
        spec_skip_string_rest(s, i + 1)
    }
}

/// The index just past one JSON value starting at `i`, found by bracket
/// counting: `depth` open brackets are pending, and while `in_string` the
/// scanner is inside a string literal (`escaped` directly after its
/// backslash). A primitive ends before the delimiter that follows it; a
/// value that runs off the input is refused.
pub open spec fn spec_scan_value(
    s: Seq<u8>,
    i: int,
    depth: int,
    in_string: bool,
    escaped: bool,
) -> Option<int>
    decreases s.len() - i,
{
    if i < 0 || i >= s.len() {
        None
    } else if in_string {
        if escaped {
            spec_scan_value(s, i + 1, depth, true, false)
        } else if s[i] == 92 {
            spec_scan_value(s, i + 1, depth, true, true)
        } else if s[i] == 34 {
            if depth == 0 {
                Some(i + 1)
            } else {
                spec_scan_value(s, i + 1, depth, false, false)
            }
        } else {
            spec_scan_value(s, i + 1, depth, true, false)
        }
    } else if s[i] == 123 || s[i] == 91 {
        spec_scan_value(s, i + 1, depth + 1, false, false)
    } else if s[i] == 125 || s[i] == 93 {
        if depth <= 0 {
            Some(i)
        } else if depth == 1 {
            Some(i + 1)
        } else {
            spec_scan_value(s, i + 1, depth - 1, false, false)
        }
    } else if s[i] == 34 {
        spec_scan_value(s, i + 1, depth, true, false)
    } else if depth == 0 && (spec_is_ws(s[i]) || s[i] == 44) {
        Some(i)
    } else {
        spec_scan_value(s, i + 1, depth, false, false)
    }
}

/// Walks the members of the outermost object from `i` (just inside the
/// opening brace) and yields the value span of the last member whose key
/// equals `key` — `found` carries the best span so far. The whole object
/// must scan cleanly to its closing brace; `fuel` bounds the member count
/// and is in practice never exhausted before the input ends.
pub open spec fn spec_scan_members(
    s: Seq<u8>,
    i: int,
    key: Seq<u8>,
    found: Option<(int, int)>,
    fuel: nat,
) -> Option<Option<(int, int)>>
    decreases fuel,
{
    if fuel == 0 {
        None
    } else {
        let j = spec_skip_ws(s, i);
        if j < 0 || j >= s.len() {
            None
        } else if s[j] == 125 {
            Some(found)
        } else if s[j] == 34 {
            match spec_skip_string_rest(s, j + 1) {
                None => None,
                Some(kend) => {
                    let j2 = spec_skip_ws(s, kend);
                    if 0 <= j2 < s.len() && s[j2] == 58 {
                        let vstart = spec_skip_ws(s, j2 + 1);
                        match spec_scan_value(s, vstart, 0, false, false) {
                            None => None,
                            Some(vend) => {
                                let hit = s.subrange(j + 1, kend - 1) == key;
                                let best = if hit {
                                    Some((vstart, vend))
                                } else {
                                    found
                                };
                                let j3 = spec_skip_ws(s, vend);
                                if 0 <= j3 < s.len() && s[j3] == 44 {
                                    spec_scan_members(s, j3 + 1, key, best, (fuel - 1) as nat)
                                } else if 0 <= j3 < s.len() && s[j3] == 125 {
                                    Some(best)
                                } else {
                                    None
                                }
                            },
                        }
                    } else {
                        None
                    }
                },
            }
        } else {
            None
        }
    }
}

/// The value span of the last top-level member of `s` whose key equals
/// `key`, provided `s` is one object that scans cleanly; `None` otherwise.
pub open spec fn spec_find_field(s: Seq<u8>, key: Seq<u8>) -> Option<(int, int)> {
    let i = spec_skip_ws(s, 0);
    if 0 <= i < s.len() && s[i] == 123 {
        match spec_scan_members(s, i + 1, key, None, s.len()) {
            Some(found) => found,
            None => None,
        }
    } else {
        None
    }
}

/// The first non-whitespace index at or after `i`.
pub fn skip_ws(s: &[u8], i: usize) -> (r: usize)
    requires
        i <= s@.len(),
    ensures
        r == spec_skip_ws(s@, i as int),
        i <= r <= s@.len(),
    decreases s@.len() - i,
{
    if i < s.len() && (s[i] == 32 || s[i] == 9 || s[i] == 10 || s[i] == 13) {
        skip_ws(s, i + 1)
    } else {
        i
    }
}

/// The index past the closing quote of a string opened just before `i`.
pub fn skip_string_rest(s: &[u8], i: usize) -> (r: Option<usize>)
    requires
        i <= s@.len(),
    ensures
        r matches Some(v) ==> spec_skip_string_rest(s@, i as int) == Some(v as int) && i < v
            <= s@.len(),
        r is None ==> spec_skip_string_rest(s@, i as int) is None,
    decreases s@.len() - i,
{
    if i >= s.len() {
        None
    } else if s[i] == 34 {
        Some(i + 1)
    } else if s[i] == 92 {
        if i + 1 < s.len() {
            skip_string_rest(s, i + 2)
        } else {
            None
        }
    } else {
        skip_string_rest(s, i + 1)
    }
}

/// The index past one JSON value starting at `i`, by bracket counting.
pub fn scan_value(s: &[u8], i: usize, depth: usize, in_string: bool, escaped: bool) -> (r: Option<
    usize,
>)
    requires
        depth <= i <= s@.len(),
    ensures
        r matches Some(v) ==> spec_scan_value(s@, i as int, depth as int, in_string, escaped)
            == Some(v as int) && i <= v <= s@.len(),
        r is None ==> spec_scan_value(s@, i as int, depth as int, in_string, escaped) is None,
    decreases s@.len() - i,
{
    if i >= s.len() {
        None
    } else if in_string {
        if escaped {
            scan_value(s, i + 1, depth, true, false)
        } else if s[i] == 92 {
            scan_value(s, i + 1, depth, true, true)
        } else if s[i] == 34 {
            if depth == 0 {
                Some(i + 1)
            } else {
                scan_value(s, i + 1, depth, false, false)
            }
        } else {
            scan_value(s, i + 1, depth, true, false)
        }
    } else if s[i] == 123 || s[i] == 91 {
        scan_value(s, i + 1, depth + 1, false, false)
    } else if s[i] == 125 || s[i] == 93 {
        if depth == 0 {
            Some(i)
        } else if depth == 1 {
            Some(i + 1)
        } else {
            scan_value(s, i + 1, depth - 1, false, false)
        }
    } else if s[i] == 34 {
        scan_value(s, i + 1, depth, true, false)
    } else if depth == 0 && (s[i] == 32 || s[i] == 9 || s[i] == 10 || s[i] == 13 || s[i] == 44) {
        Some(i)
    } else {
        scan_value(s, i + 1, depth, false, false)
    }
}

/// Whether `s[start..end]` equals `key`.
pub fn range_eq(s: &[u8], start: usize, end: usize, key: &[u8]) -> (r: bool)
    requires
        start <= end <= s@.len(),
    ensures
        r == (s@.subrange(start as int, end as int) == key@),
{
    if end - start != key.len() {
        proof {
            assert(s@.subrange(start as int, end as int).len() == end - start);
        }
        return false;
    }
    let mut k: usize = 0;
    while k < key.len()
        invariant
            start <= end <= s@.len(),
            end - start == key@.len(),
            0 <= k <= key@.len(),
            forall|j: int| 0 <= j < k ==> s@[start + j] == key@[j],
        decreases key@.len() - k,
    {
        if s[start + k] != key[k] {
            proof {
                assert(s@.subrange(start as int, end as int)[k as int] == s@[start + k]);
            }
            return false;
        }
        k += 1;
    }
    proof {
        assert(s@.subrange(start as int, end as int) =~= key@);
    }
    true
}

/// The member walk of the outermost object, mirroring
/// [`spec_scan_members`].
fn scan_members(s: &[u8], i: usize, key: &[u8], found: Option<(usize, usize)>, fuel: usize) -> (r:
    Option<Option<(usize, usize)>>)
    requires
        i <= s@.len(),
        found matches Some(span) ==> span.0 <= span.1 <= s@.len(),
    ensures
        r matches Some(f) ==> spec_scan_members(
            s@,
            i as int,
            key@,
            match found {
                Some(span) => Some((span.0 as int, span.1 as int)),
                None => None,
            },
            fuel as nat,
        ) == Some(
            match f {
                Some(span) => Some((span.0 as int, span.1 as int)),
                None => None::<(int, int)>,
            },
        ),
        r is None ==> spec_scan_members(
            s@,
            i as int,
            key@,
            match found {
                Some(span) => Some((span.0 as int, span.1 as int)),
                None => None,
            },
            fuel as nat,
        ) is None,
        r matches Some(Some(span)) ==> span.0 <= span.1 <= s@.len(),
    decreases fuel,
{
    if fuel == 0 {
        return None;
    }
    let j = skip_ws(s, i);
    if j >= s.len() {
        return None;
    }
    if s[j] == 125 {
        return Some(found);
    }
    if s[j] != 34 {
        return None;
    }
    let kend = match skip_string_rest(s, j + 1) {
        Some(v) => v,
        None => {
            return None;
        },
    };
    let j2 = skip_ws(s, kend);
    if j2 >= s.len() || s[j2] != 58 {
        return None;
    }
    let vstart = skip_ws(s, j2 + 1);
    let vend = match scan_value(s, vstart, 0, false, false) {
        Some(v) => v,
        None => {
            return None;
        },
    };
    let hit = range_eq(s, j + 1, kend - 1, key);
    let best = if hit {
        Some((vstart, vend))
    } else {
        found
    };
    let j3 = skip_ws(s, vend);
    if j3 < s.len() && s[j3] == 44 {
        scan_members(s, j3 + 1, key, best, fuel - 1)
    } else if j3 < s.len() && s[j3] == 125 {
        Some(best)
    } else {
        None
    }
}

/// The value span of the last top-level member of `s` whose key equals
/// `key`, per [`spec_find_field`].
pub fn find_field(s: &[u8], key: &[u8]) -> (r: Option<(usize, usize)>)
    ensures
        r matches Some(span) ==> spec_find_field(s@, key@) == Some((span.0 as int, span.1 as int))
            && span.0 <= span.1 <= s@.len(),
        r is None ==> spec_find_field(s@, key@) is None,
{
    let i = skip_ws(s, 0);
    if i >= s.len() || s[i] != 123 {
        return None;
    }
    match scan_members(s, i + 1, key, None, s.len()) {
        Some(found) => found,
        None => None,
    }
}

/// A decimal digit byte.
pub open spec fn spec_is_digit(b: u8) -> bool {
    48 <= b <= 57
}

/// Every byte of `s[a..b]` is a decimal digit.
pub open spec fn spec_all_digits(s: Seq<u8>, a: int, b: int) -> bool {
    forall|j: int| a <= j < b ==> spec_is_digit(#[trigger] s[j])
}

/// The value of the digit run `s[a..b]`.
pub open spec fn spec_digits_val(s: Seq<u8>, a: int, b: int) -> int
    decreases b - a,
{
    if b <= a {
        0
    } else {
        spec_digits_val(s, a, b - 1) * 10 + (s[b - 1] - 48)
    }
}

/// A digit run's value is non-negative.
pub proof fn lemma_digits_val_nonneg(s: Seq<u8>, a: int, b: int)
    requires
        spec_all_digits(s, a, b),
    ensures
        spec_digits_val(s, a, b) >= 0,
    decreases b - a,
{
    if b > a {
        lemma_digits_val_nonneg(s, a, b - 1);
    }
}

/// Extending a digit run never shrinks its value.
pub proof fn lemma_digits_val_monotone(s: Seq<u8>, a: int, m: int, b: int)
    requires
        a <= m <= b,
        spec_all_digits(s, a, b),
    ensures
        spec_digits_val(s, a, m) <= spec_digits_val(s, a, b),
    decreases b - m,
{
    if m < b {
        lemma_digits_val_monotone(s, a, m, b - 1);
        lemma_digits_val_nonneg(s, a, b - 1);
    }
}

/// The signed 32-bit integer denoted by `s[a..b]`: an optional minus sign,
/// then one or more digits, in range; anything else is refused.
pub open spec fn spec_parse_i32_span(s: Seq<u8>, a: int, b: int) -> Option<i32> {
    let neg = a < b && s[a] == 45;
    let d0 = if neg {
        a + 1
    } else {
        a
    };
    if d0 < b && spec_all_digits(s, d0, b) {
        let v = spec_digits_val(s, d0, b);
        if neg && v <= 0x8000_0000 {
            Some((-v) as i32)
        } else if !neg && v <= 0x7fff_ffff {
            Some(v as i32)
        } else {
            None
        }
    } else {
        None
    }
}

/// The boolean denoted by `s[a..b]`: exactly `true` or `false`.
pub open spec fn spec_parse_bool_span(s: Seq<u8>, a: int, b: int) -> Option<bool> {
    if b - a == 4 && s[a] == 116 && s[a + 1] == 114 && s[a + 2] == 117 && s[a + 3] == 101 {
        Some(true)
    } else if b - a == 5 && s[a] == 102 && s[a + 1] == 97 && s[a + 2] == 108 && s[a + 3] == 115
        && s[a + 4] == 101 {
        Some(false)
    } else {
        None
    }
}

/// The raw contents of the string literal `s[a..b]`: the bytes between its
/// quotes, escapes left untouched.
pub open spec fn spec_parse_string_span(s: Seq<u8>, a: int, b: int) -> Option<Seq<u8>> {
    if b - a >= 2 && s[a] == 34 && s[b - 1] == 34 {
        Some(s.subrange(a + 1, b - 1))
    } else {
        None
    }
}

/// The last `key` member of the top-level object of `s`, read as an i32.
pub open spec fn spec_get_i32_field(s: Seq<u8>, key: Seq<u8>) -> Option<i32> {
    match spec_find_field(s, key) {
        None => None,
        Some(span) => spec_parse_i32_span(s, span.0, span.1),
    }
}

/// The last `key` member of the top-level object of `s`, read as a bool.
pub open spec fn spec_get_bool_field(s: Seq<u8>, key: Seq<u8>) -> Option<bool> {
    match spec_find_field(s, key) {
        None => None,
        Some(span) => spec_parse_bool_span(s, span.0, span.1),
    }
}

/// The last `key` member of the top-level object of `s`, read as a raw
/// string.
pub open spec fn spec_get_string_field(s: Seq<u8>, key: Seq<u8>) -> Option<Seq<u8>> {
    match spec_find_field(s, key) {
        None => None,
        Some(span) => spec_parse_string_span(s, span.0, span.1),
    }
}

/// Reads the signed 32-bit integer denoted by `s[a..b]`.
pub fn parse_i32_span(s: &[u8], a: usize, b: usize) -> (r: Option<i32>)
    requires
        a <= b <= s@.len(),
    ensures
        r == spec_parse_i32_span(s@, a as int, b as int),
{
    let neg = a < b && s[a] == 45;
    let d0 = if neg {
        a + 1
    } else {
        a
    };
    if d0 >= b {
        return None;
    }
    let mut acc: u64 = 0;
    let mut j = d0;
    while j < b
        invariant
            a <= d0 < b <= s@.len(),
            d0 <= j <= b,
            neg == (a < b && s@[a as int] == 45),
            neg ==> d0 == a + 1,
            !neg ==> d0 == a,
            spec_all_digits(s@, d0 as int, j as int),
            acc == spec_digits_val(s@, d0 as int, j as int),
            acc <= 0x8000_0000,
        decreases b - j,
    {
        let byte = s[j];
        if byte < 48 || byte > 57 {
            proof {
                assert(!spec_is_digit(s@[j as int]));
                assert(!spec_all_digits(s@, d0 as int, b as int));
            }
            return None;
        }
        acc = acc * 10 + (byte - 48) as u64;
        j += 1;
        proof {
            assert(spec_all_digits(s@, d0 as int, j as int)) by {
                assert(forall|j2: int|
                    d0 <= j2 < j ==> j2 == j - 1 || (d0 <= j2 < j - 1 && spec_is_digit(
                        #[trigger] s@[j2],
                    )));
            }
            assert(acc == spec_digits_val(s@, d0 as int, j as int));
        }
        if acc > 0x8000_0000 {
            proof {
                if spec_all_digits(s@, d0 as int, b as int) {
                    lemma_digits_val_monotone(s@, d0 as int, j as int, b as int);
                    assert(spec_digits_val(s@, d0 as int, b as int) >= acc);
                }
            }
            return None;
        }
    }
    if neg {
        Some((-(acc as i64)) as i32)
    } else {
        if acc <= 0x7fff_ffff {
            Some(acc as i32)
        } else {
            None
        }
    }
}

/// Reads the boolean denoted by `s[a..b]`.
pub fn parse_bool_span(s: &[u8], a: usize, b: usize) -> (r: Option<bool>)
    requires
        a <= b <= s@.len(),
    ensures
        r == spec_parse_bool_span(s@, a as int, b as int),
{
    if b - a == 4 && s[a] == 116 && s[a + 1] == 114 && s[a + 2] == 117 && s[a + 3] == 101 {
        Some(true)
    } else if b - a == 5 && s[a] == 102 && s[a + 1] == 97 && s[a + 2] == 108 && s[a + 3] == 115
        && s[a + 4] == 101 {
        Some(false)
    } else {
        None
    }
}

/// Copies the raw contents of the string literal `s[a..b]`.
pub fn parse_string_span(s: &[u8], a: usize, b: usize) -> (r: Option<Vec<u8>>)
    requires
        a <= b <= s@.len(),
    ensures
        r matches Some(v) ==> spec_parse_string_span(s@, a as int, b as int) == Some(v@),
        r is None ==> spec_parse_string_span(s@, a as int, b as int) is None,
{
    if b - a >= 2 && s[a] == 34 && s[b - 1] == 34 {
        let mut out: Vec<u8> = Vec::new();
        let mut j = a + 1;
        while j < b - 1
            invariant
                a + 1 <= j <= b - 1,
                b <= s@.len(),
                out@ =~= s@.subrange(a as int + 1, j as int),
            decreases b - j,
        {
            out.push(s[j]);
            proof {
                assert(out@ =~= s@.subrange(a as int + 1, j as int + 1));
            }
            j += 1;
        }
        proof {
            assert(out@ =~= s@.subrange(a as int + 1, b as int - 1));
        }
        Some(out)
    } else {
        None
    }
}

/// Reads the last `key` member of the top-level object as an i32.
pub fn get_i32_field(s: &[u8], key: &[u8]) -> (r: Option<i32>)
    ensures
        r == spec_get_i32_field(s@, key@),
{
    match find_field(s, key) {
        None => None,
        Some((a, b)) => parse_i32_span(s, a, b),
    }
}

/// Reads the last `key` member of the top-level object as a bool.
pub fn get_bool_field(s: &[u8], key: &[u8]) -> (r: Option<bool>)
    ensures
        r == spec_get_bool_field(s@, key@),
{
    match find_field(s, key) {
        None => None,
        Some((a, b)) => parse_bool_span(s, a, b),
    }
}

/// Reads the last `key` member of the top-level object as a raw string.
pub fn get_string_field(s: &[u8], key: &[u8]) -> (r: Option<Vec<u8>>)
    ensures
        r matches Some(v) ==> spec_get_string_field(s@, key@) == Some(v@),
        r is None ==> spec_get_string_field(s@, key@) is None,
{
    match find_field(s, key) {
        None => None,
        Some((a, b)) => parse_string_span(s, a, b),
    }
}

/// The character for one decimal digit.
pub open spec fn spec_digit_char(d: int) -> char {
    if d == 0 {
        '0'
    } else if d == 1 {
        '1'
    } else if d == 2 {
        '2'
    } else if d == 3 {
        '3'
    } else if d == 4 {
        '4'
    } else if d == 5 {
        '5'
    } else if d == 6 {
        '6'
    } else if d == 7 {
        '7'
    } else if d == 8 {
        '8'
    } else {
        '9'
    }
}

/// The decimal digits of a non-negative integer, most significant first.
pub open spec fn spec_nat_digits(n: int) -> Seq<char>
    decreases n,
{
    if n < 10 {
        seq![spec_digit_char(if n >= 0 { n } else { 0 })]
    } else {
        spec_nat_digits(n / 10) + seq![spec_digit_char(n % 10)]
    }
}

/// The decimal form of a signed integer.
pub open spec fn spec_int_digits(n: int) -> Seq<char> {
    if n < 0 {
        seq!['-'] + spec_nat_digits(-n)
    } else {
        spec_nat_digits(n)
    }
}

/// Appends one decimal digit character.
pub fn append_digit(out: &mut String, d: u8)
    requires
        d < 10,
    ensures
        final(out)@ == old(out)@ + seq![spec_digit_char(d as int)],
{
    proof {
        reveal_strlit("0");
        reveal_strlit("1");
        reveal_strlit("2");
        reveal_strlit("3");
        reveal_strlit("4");
        reveal_strlit("5");
        reveal_strlit("6");
        reveal_strlit("7");
        reveal_strlit("8");
        reveal_strlit("9");
    }
    match d {
        0 => out.append("0"),
        1 => out.append("1"),
        2 => out.append("2"),
        3 => out.append("3"),
        4 => out.append("4"),
        5 => out.append("5"),
        6 => out.append("6"),
        7 => out.append("7"),
        8 => out.append("8"),
        _ => out.append("9"),
    }
    proof {
        assert(final(out)@ =~= old(out)@ + seq![spec_digit_char(d as int)]);
    }
}

/// Appends the decimal digits of `n`.
pub fn append_u64(out: &mut String, n: u64)
    ensures
        final(out)@ == old(out)@ + spec_nat_digits(n as int),
    decreases n,
{
    if n < 10 {
        append_digit(out, n as u8);
    } else {
        append_u64(out, n / 10);
        append_digit(out, (n % 10) as u8);
        proof {
            assert(final(out)@ =~= old(out)@ + spec_nat_digits(n as int));
        }
    }
}

/// Appends the decimal form of `n`, with a leading minus sign when
/// negative.
pub fn append_i32(out: &mut String, n: i32)
    ensures
        final(out)@ == old(out)@ + spec_int_digits(n as int),
{
    proof {
        reveal_strlit("-");
    }
    if n < 0 {
        out.append("-");
        let magnitude: u64 = (-(n as i64)) as u64;
        append_u64(out, magnitude);
        proof {
            assert(final(out)@ =~= old(out)@ + spec_int_digits(n as int));
        }
    } else {
        append_u64(out, n as u64);
    }
}

/// The digits of the elements of `items`, comma-separated.
pub open spec fn spec_u32_array_items(items: Seq<u32>) -> Seq<char>
    decreases items.len(),
{
    if items.len() == 0 {
        Seq::empty()
    } else if items.len() == 1 {
        spec_nat_digits(items[0] as int)
    } else {
        spec_u32_array_items(items.drop_last()) + seq![','] + spec_nat_digits(
            items.last() as int,
        )
    }
}

/// A JSON array of unsigned integers.
pub open spec fn spec_u32_array(items: Seq<u32>) -> Seq<char> {
    seq!['['] + spec_u32_array_items(items) + seq![']']
}

/// Appends `items` as a JSON array of decimal integers.
pub fn append_u32_array(out: &mut String, items: &Vec<u32>)
    ensures
        final(out)@ == old(out)@ + spec_u32_array(items@),
{
    proof {
        reveal_strlit("[");
        reveal_strlit("]");
        reveal_strlit(",");
    }
    out.append("[");
    let mut i: usize = 0;
    while i < items.len()
        invariant
            0 <= i <= items@.len(),
            out@ =~= old(out)@ + seq!['['] + spec_u32_array_items(items@.take(i as int)),
        decreases items@.len() - i,
    {
        proof {
            reveal_strlit("[");
            reveal_strlit(",");
        }
        if i > 0 {
            out.append(",");
        }
        append_u64(out, items[i] as u64);
        proof {
            assert(items@.take(i as int + 1).drop_last() =~= items@.take(i as int));
            assert(items@.take(i as int + 1).last() == items@[i as int]);
            if i == 0 {
                assert(items@.take(1).len() == 1);
                assert(items@.take(1)[0] == items@[0]);
            }
            assert(out@ =~= old(out)@ + seq!['['] + spec_u32_array_items(
                items@.take(i as int + 1),
            ));
        }
        i += 1;
    }
    out.append("]");
    proof {
        assert(items@.take(items@.len() as int) =~= items@);
        assert(out@ =~= old(out)@ + spec_u32_array(items@));
    }
}

/// The character for one lowercase hexadecimal digit.
pub open spec fn spec_hex_char(d: int) -> char {
    if d < 10 {
        spec_digit_char(d)
    } else if d == 10 {
        'a'
    } else if d == 11 {
        'b'
    } else if d == 12 {
        'c'
    } else if d == 13 {
        'd'
    } else if d == 14 {
        'e'
    } else {
        'f'
    }
}

/// Appends one lowercase hexadecimal digit character.
fn append_hex_digit(out: &mut String, d: u8)
    requires
        d < 16,
    ensures
        final(out)@ == old(out)@ + seq![spec_hex_char(d as int)],
{
    if d < 10 {
        append_digit(out, d);
    } else {
        proof {
            reveal_strlit("a");
            reveal_strlit("b");
            reveal_strlit("c");
            reveal_strlit("d");
            reveal_strlit("e");
            reveal_strlit("f");
        }
        match d {
            10 => out.append("a"),
            11 => out.append("b"),
            12 => out.append("c"),
            13 => out.append("d"),
            14 => out.append("e"),
            _ => out.append("f"),
        }
        proof {
            assert(final(out)@ =~= old(out)@ + seq![spec_hex_char(d as int)]);
        }
    }
}

/// The JSON string-escape of one character: quotes and backslashes get a
/// backslash, control characters a `\u00XX` form, everything else stands
/// as itself.
pub open spec fn spec_escape_char(c: char) -> Seq<char> {
    if c == '"' {
        seq!['\\', '"']
    } else if c == '\\' {
        seq!['\\', '\\']
    } else if (c as int) < 32 {
        seq!['\\', 'u', '0', '0', spec_hex_char((c as int) / 16), spec_hex_char((c as int) % 16)]
    } else {
        seq![c]
    }
}

/// The JSON string-escape of a character sequence.
pub open spec fn spec_escape(s: Seq<char>) -> Seq<char>
    decreases s.len(),
{
    if s.len() == 0 {
        Seq::empty()
    } else {
        spec_escape(s.drop_last()) + spec_escape_char(s.last())
    }
}

/// Appends `s` with JSON string escaping.
pub fn append_escaped(out: &mut String, s: &str)
    ensures
        final(out)@ == old(out)@ + spec_escape(s@),
{
    proof {
        reveal_strlit("\\\"");
        reveal_strlit("\\\\");
        reveal_strlit("\\u00");
        assert("\\\""@ =~= seq!['\\', '"']);
        assert("\\\\"@ =~= seq!['\\', '\\']);
        assert("\\u00"@ =~= seq!['\\', 'u', '0', '0']);
    }
    let n = s.unicode_len();
    let mut i: usize = 0;
    while i < n
        invariant
            0 <= i <= n == s@.len(),
            out@ =~= old(out)@ + spec_escape(s@.take(i as int)),
        decreases n - i,
    {
        proof {
            reveal_strlit("\\\"");
            reveal_strlit("\\\\");
            reveal_strlit("\\u00");
            assert("\\\""@ =~= seq!['\\', '"']);
            assert("\\\\"@ =~= seq!['\\', '\\']);
            assert("\\u00"@ =~= seq!['\\', 'u', '0', '0']);
        }
        let c = s.get_char(i);
        if c == '"' {
            out.append("\\\"");
        } else if c == '\\' {
            out.append("\\\\");
        } else if (c as u32) < 32 {
            out.append("\\u00");
            append_hex_digit(out, ((c as u32) / 16) as u8);
            append_hex_digit(out, ((c as u32) % 16) as u8);
        } else {
            let piece = s.substring_char(i, i + 1);
            out.append(piece);
            proof {
                assert(piece@ =~= seq![s@[i as int]]);
            }
        }
        proof {
            assert(s@.take(i as int + 1).drop_last() =~= s@.take(i as int));
            assert(s@.take(i as int + 1).last() == s@[i as int]);
            assert(out@ =~= old(out)@ + spec_escape(s@.take(i as int + 1)));
        }
        i += 1;
    }
    proof {
        assert(s@.take(s@.len() as int) =~= s@);
    }
}


} // verus!
