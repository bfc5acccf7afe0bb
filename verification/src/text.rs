//! Text helpers: comparison, joining, decimal numbers, case and white space.
use vstd::prelude::*;
use vstd::string::*;

verus! {

/// Character-wise equality of two string slices.
pub fn str_eq(a: &str, b: &str) -> (res: bool)
    ensures
        res == (a@ == b@),
{
    let n = a.unicode_len();
    if n != b.unicode_len() {
        return false;
    }
    let mut i: usize = 0;
    while i < n
        invariant
            n == a@.len(),
            n == b@.len(),
            i <= n,
            forall|j: int| 0 <= j < i ==> a@[j] == b@[j],
        decreases n - i,
    {
        if a.get_char(i) != b.get_char(i) {
            return false;
        }
        i = i + 1;
    }
    assert(a@ =~= b@);
    true
}

/// Byte-wise equality of two byte slices.
pub fn bytes_eq(a: &[u8], b: &[u8]) -> (res: bool)
    ensures
        res == (a@ == b@),
{
    if a.len() != b.len() {
        return false;
    }
    let mut i: usize = 0;
    while i < a.len()
        invariant
            a@.len() == b@.len(),
            i <= a@.len(),
            forall|j: int| 0 <= j < i ==> a@[j] == b@[j],
        decreases a.len() - i,
    {
        if a[i] != b[i] {
            return false;
        }
        i = i + 1;
    }
    assert(a@ =~= b@);
    true
}

/// A fresh `String` holding a copy of `s`.
pub fn string_of(s: &str) -> (res: String)
    ensures
        res@ == s@,
{
    String::from_str(s)
}

/// `a` followed by `b`.
pub fn concat(a: &str, b: &str) -> (res: String)
    ensures
        res@ == a@ + b@,
{
    let mut s = String::from_str(a);
    s.append(b);
    s
}

/// `a`, `b` and `c` in a row.
pub fn concat3(a: &str, b: &str, c: &str) -> (res: String)
    ensures
        res@ == a@ + b@ + c@,
{
    let mut s = String::from_str(a);
    s.append(b);
    s.append(c);
    s
}

/// The parts, separated by `sep`.
pub open spec fn join_seq(parts: Seq<Seq<char>>, sep: Seq<char>) -> Seq<char>
    decreases parts.len(),
{
    if parts.len() == 0 {
        Seq::empty()
    } else if parts.len() == 1 {
        parts[0]
    } else {
        join_seq(parts.drop_last(), sep) + sep + parts.last()
    }
}

/// The strings of `parts`, separated by `sep`.
pub fn join(parts: &Vec<String>, sep: &str) -> (res: String)
    ensures
        res@ == join_seq(parts.deep_view(), sep@),
{
    let ghost all = parts.deep_view();
    let mut res = String::new();
    let mut i: usize = 0;
    assert(all.take(0) =~= Seq::<Seq<char>>::empty());
    while i < parts.len()
        invariant
            all == parts.deep_view(),
            i <= parts.len(),
            res@ == join_seq(all.take(i as int), sep@),
        decreases parts.len() - i,
    {
        assert(all.take(i + 1).drop_last() =~= all.take(i as int));
        if i > 0 {
            res.append(sep);
        } else {
            assert(res@ =~= Seq::<char>::empty());
        }
        res.append(parts[i].as_str());
        i = i + 1;
    }
    assert(all.take(i as int) =~= all);
    res
}

/// `count` copies of `s`.
pub open spec fn repeat_seq(s: Seq<char>, count: nat) -> Seq<char>
    decreases count,
{
    if count == 0 {
        Seq::empty()
    } else {
        repeat_seq(s, (count - 1) as nat) + s
    }
}

/// Appends `count` copies of `s` to `out`.
pub fn push_repeated(out: &mut String, s: &str, count: usize)
    ensures
        final(out)@ == old(out)@ + repeat_seq(s@, count as nat),
{
    let mut i: usize = 0;
    while i < count
        invariant
            i <= count,
            out@ == old(out)@ + repeat_seq(s@, i as nat),
        decreases count - i,
    {
        out.append(s);
        i = i + 1;
        assert(out@ =~= old(out)@ + repeat_seq(s@, i as nat));
    }
}

/// `s` with each occurrence of `pattern` replaced by `with`, from left to right.
pub open spec fn replace_all(s: Seq<char>, pattern: Seq<char>, with: Seq<char>) -> Seq<char>
    decreases s.len(),
{
    if pattern.len() == 0 || s.len() < pattern.len() {
        s
    } else if s.take(pattern.len() as int) == pattern {
        with + replace_all(s.skip(pattern.len() as int), pattern, with)
    } else {
        seq![s[0]] + replace_all(s.drop_first(), pattern, with)
    }
}

/// `s` with each occurrence of a non-empty `pattern` replaced by `with`, as `str::replace` does.
pub fn replace(s: &str, pattern: &str, with: &str) -> (res: String)
    requires
        pattern@.len() > 0,
    ensures
        res@ == replace_all(s@, pattern@, with@),
{
    let n = s.unicode_len();
    let m = pattern.unicode_len();
    let mut out = String::new();
    let mut i: usize = 0;
    assert(s@.skip(0) =~= s@);
    while i < n
        invariant
            n == s@.len(),
            m == pattern@.len(),
            m > 0,
            i <= n,
            out@ + replace_all(s@.skip(i as int), pattern@, with@) == replace_all(s@, pattern@, with@),
        decreases n - i,
    {
        let ghost rest = s@.skip(i as int);
        if n - i >= m && str_eq(s.substring_char(i, i + m), pattern) {
            assert(rest.take(m as int) =~= s@.subrange(i as int, (i + m) as int));
            assert(rest.skip(m as int) =~= s@.skip((i + m) as int));
            out.append(with);
            assert(out@ + replace_all(s@.skip((i + m) as int), pattern@, with@) =~= replace_all(s@, pattern@, with@));
            i = i + m;
        } else {
            if n - i >= m {
                assert(rest.take(m as int) =~= s@.subrange(i as int, (i + m) as int));
            }
            assert(rest.drop_first() =~= s@.skip((i + 1) as int));
            assert(s@.subrange(i as int, (i + 1) as int) =~= seq![rest[0]]);
            out.append(s.substring_char(i, i + 1));
            assert(out@ + replace_all(s@.skip((i + 1) as int), pattern@, with@) =~= replace_all(s@, pattern@, with@));
            i = i + 1;
        }
    }
    assert(s@.skip(i as int).len() == 0);
    assert(out@ + Seq::<char>::empty() =~= out@);
    out
}

/// The characters that `char::to_uppercase` yields for `c`.
pub uninterp spec fn char_uppercase(c: char) -> Seq<char>;

/// Calls `char::to_uppercase` and collects what it yields. Claims that the result is the named
/// function of `c`, and, as std documents, that an ASCII lowercase letter yields its uppercase
/// letter alone.
#[verifier::external_body]
fn to_uppercase(c: char) -> (res: String)
    ensures
        res@ == char_uppercase(c),
        'a' <= c <= 'z' ==> res@ == seq![((c as int) - 32) as char],
{
    c.to_uppercase().collect()
}

/// `s` with its first character in upper case.
pub open spec fn capitalized(s: Seq<char>) -> Seq<char> {
    if s.len() == 0 {
        s
    } else {
        char_uppercase(s[0]) + s.drop_first()
    }
}

/// `s` with its first character in upper case.
pub fn capitalize(s: &str) -> (res: String)
    ensures
        res@ == capitalized(s@),
{
    let n = s.unicode_len();
    if n == 0 {
        return String::new();
    }
    let mut out = to_uppercase(s.get_char(0));
    out.append(s.substring_char(1, n));
    assert(s@.subrange(1, n as int) =~= s@.drop_first());
    out
}

/// Whether `c` has the Unicode `White_Space` property, as `char::is_whitespace` tests.
pub open spec fn is_white_space(c: char) -> bool {
    ('\t' <= c <= '\r') || c == ' ' || c == '\u{85}' || c == '\u{A0}' || c == '\u{1680}'
        || ('\u{2000}' <= c <= '\u{200A}') || c == '\u{2028}' || c == '\u{2029}' || c == '\u{202F}'
        || c == '\u{205F}' || c == '\u{3000}'
}

/// Whether `c` has the Unicode `White_Space` property.
pub fn is_whitespace(c: char) -> (res: bool)
    ensures
        res == is_white_space(c),
{
    ('\t' <= c && c <= '\r') || c == ' ' || c == '\u{85}' || c == '\u{A0}' || c == '\u{1680}'
        || ('\u{2000}' <= c && c <= '\u{200A}') || c == '\u{2028}' || c == '\u{2029}' || c == '\u{202F}'
        || c == '\u{205F}' || c == '\u{3000}'
}

/// `s` without its leading white space.
pub open spec fn trim_start(s: Seq<char>) -> Seq<char>
    decreases s.len(),
{
    if s.len() > 0 && is_white_space(s[0]) {
        trim_start(s.drop_first())
    } else {
        s
    }
}

/// `s` without its trailing white space.
pub open spec fn trim_end(s: Seq<char>) -> Seq<char>
    decreases s.len(),
{
    if s.len() > 0 && is_white_space(s.last()) {
        trim_end(s.drop_last())
    } else {
        s
    }
}

/// `s` without leading and trailing white space, as `str::trim` leaves it.
pub open spec fn trimmed(s: Seq<char>) -> Seq<char> {
    trim_end(trim_start(s))
}

/// `s` without leading and trailing white space.
pub fn trim(s: &str) -> (res: &str)
    ensures
        res@ == trimmed(s@),
{
    let n = s.unicode_len();
    let mut i: usize = 0;
    assert(s@.skip(0) =~= s@);
    while i < n && is_whitespace(s.get_char(i))
        invariant
            n == s@.len(),
            i <= n,
            trim_start(s@) == trim_start(s@.skip(i as int)),
        decreases n - i,
    {
        assert(s@.skip(i as int).drop_first() =~= s@.skip(i + 1));
        i = i + 1;
    }
    let ghost front = s@.skip(i as int);
    assert(trim_start(front) == front);
    let mut j: usize = n;
    assert(front.take(front.len() as int) =~= front);
    while j > i && is_whitespace(s.get_char(j - 1))
        invariant
            n == s@.len(),
            i <= j <= n,
            front == s@.skip(i as int),
            trim_end(front) == trim_end(front.take(j - i)),
        decreases j,
    {
        assert(front.take(j - i).drop_last() =~= front.take(j - i - 1));
        j = j - 1;
    }
    assert(front.take(j - i) =~= s@.subrange(i as int, j as int));
    s.substring_char(i, j)
}

/// Whether `c` is an ASCII decimal digit.
pub open spec fn is_digit(c: char) -> bool {
    '0' <= c <= '9'
}

/// The value of a string of decimal digits.
pub open spec fn digits_value(s: Seq<char>) -> int
    decreases s.len(),
{
    if s.len() == 0 {
        0
    } else {
        digits_value(s.drop_last()) * 10 + (s.last() as int - '0' as int)
    }
}

/// Whether `s` is a non-empty string of decimal digits.
pub open spec fn is_digits(s: Seq<char>) -> bool {
    s.len() > 0 && forall|i: int| 0 <= i < s.len() ==> is_digit(#[trigger] s[i])
}

/// What `str::parse::<u32>` accepts: an optional `+` and decimal digits, in range.
pub open spec fn parse_u32_spec(s: Seq<char>) -> Option<u32> {
    let digits = if s.len() > 0 && s[0] == '+' { s.drop_first() } else { s };
    if is_digits(digits) && digits_value(digits) <= u32::MAX {
        Some(digits_value(digits) as u32)
    } else {
        None
    }
}

/// What `str::parse::<i32>` accepts: an optional sign and decimal digits, in range.
pub open spec fn parse_i32_spec(s: Seq<char>) -> Option<i32> {
    let negative = s.len() > 0 && s[0] == '-';
    let digits = if s.len() > 0 && (s[0] == '+' || s[0] == '-') { s.drop_first() } else { s };
    let value = if negative { -digits_value(digits) } else { digits_value(digits) };
    if is_digits(digits) && i32::MIN <= value <= i32::MAX {
        Some(value as i32)
    } else {
        None
    }
}

proof fn lemma_digits_value_nonneg(s: Seq<char>)
    requires
        forall|i: int| 0 <= i < s.len() ==> is_digit(#[trigger] s[i]),
    ensures
        digits_value(s) >= 0,
    decreases s.len(),
{
    if s.len() > 0 {
        lemma_digits_value_nonneg(s.drop_last());
    }
}

proof fn lemma_digits_monotone(d: Seq<char>, a: int, b: int)
    requires
        0 <= a <= b <= d.len(),
        forall|j: int| 0 <= j < b ==> is_digit(#[trigger] d[j]),
    ensures
        digits_value(d.take(a)) <= digits_value(d.take(b)),
    decreases b - a,
{
    if b > a {
        lemma_digits_monotone(d, a, b - 1);
        assert(d.take(b).drop_last() =~= d.take(b - 1));
        lemma_digits_value_nonneg(d.take(b - 1));
    }
}

/// Reads the decimal digits of `s` from `from` on; `None` where one is not a digit,
/// the part is empty, or its value exceeds `limit`.
fn digits_up_to(s: &str, from: usize, limit: u64) -> (res: Option<u64>)
    requires
        from <= s@.len(),
        limit <= 0xFFFF_FFFF,
    ensures
        ({
            let d = s@.skip(from as int);
            match res {
                Some(v) => is_digits(d) && digits_value(d) <= limit && v == digits_value(d),
                None => !(is_digits(d) && digits_value(d) <= limit),
            }
        }),
{
    let n = s.unicode_len();
    let ghost d = s@.skip(from as int);
    if from >= n {
        return None;
    }
    let mut i = from;
    let mut value: u64 = 0;
    assert(d.take(0) =~= Seq::<char>::empty());
    while i < n
        invariant
            n == s@.len(),
            d == s@.skip(from as int),
            from <= i <= n,
            limit <= 0xFFFF_FFFF,
            forall|j: int| 0 <= j < i - from ==> is_digit(#[trigger] d[j]),
            value == digits_value(d.take(i - from)),
            value <= limit,
        decreases n - i,
    {
        let c = s.get_char(i);
        assert(c == d[i - from]);
        if !('0' <= c && c <= '9') {
            return None;
        }
        let digit: u64 = (c as u64) - ('0' as u64);
        let next: u64 = value * 10 + digit;
        assert(d.take(i - from + 1).drop_last() =~= d.take(i - from));
        if next > limit {
            proof {
                if is_digits(d) {
                    lemma_digits_monotone(d, i - from + 1, d.len() as int);
                    assert(d.take(d.len() as int) =~= d);
                }
            }
            return None;
        }
        value = next;
        i = i + 1;
    }
    assert(d.take(n - from) =~= d);
    Some(value)
}

/// Parses `s` as `str::parse::<u32>` does.
pub fn parse_u32(s: &str) -> (res: Option<u32>)
    ensures
        res == parse_u32_spec(s@),
{
    let n = s.unicode_len();
    let from: usize = if n > 0 && s.get_char(0) == '+' { 1 } else { 0 };
    assert(from == 1 ==> s@.skip(1) =~= s@.drop_first());
    assert(s@.skip(0) =~= s@);
    match digits_up_to(s, from, 0xFFFF_FFFF) {
        Some(v) => Some(v as u32),
        None => None,
    }
}

/// Parses `s` as `str::parse::<i32>` does.
pub fn parse_i32(s: &str) -> (res: Option<i32>)
    ensures
        res == parse_i32_spec(s@),
{
    let n = s.unicode_len();
    let negative = n > 0 && s.get_char(0) == '-';
    let from: usize = if n > 0 && (s.get_char(0) == '+' || s.get_char(0) == '-') { 1 } else { 0 };
    assert(from == 1 ==> s@.skip(1) =~= s@.drop_first());
    assert(s@.skip(0) =~= s@);
    let limit: u64 = if negative { 0x8000_0000 } else { 0x7FFF_FFFF };
    match digits_up_to(s, from, limit) {
        Some(v) => {
            if negative {
                Some((0 - (v as i64)) as i32)
            } else {
                Some(v as i32)
            }
        },
        None => {
            proof {
                let digits = s@.skip(from as int);
                if is_digits(digits) {
                    lemma_digits_value_nonneg(digits);
                }
            }
            None
        },
    }
}

/// The digit character for `d < 10`.
pub open spec fn digit_char(d: nat) -> char {
    if d == 0 { '0' } else if d == 1 { '1' } else if d == 2 { '2' } else if d == 3 { '3' }
    else if d == 4 { '4' } else if d == 5 { '5' } else if d == 6 { '6' } else if d == 7 { '7' }
    else if d == 8 { '8' } else { '9' }
}

/// The decimal notation of `n`, without leading zeros.
pub open spec fn decimal(n: nat) -> Seq<char>
    decreases n,
{
    if n < 10 {
        seq![digit_char(n)]
    } else {
        decimal(n / 10) + seq![digit_char(n % 10)]
    }
}

/// The decimal notation of `i`, with a `-` before a negative number.
pub open spec fn signed_decimal(i: int) -> Seq<char> {
    if i < 0 { seq!['-'] + decimal((-i) as nat) } else { decimal(i as nat) }
}

fn digit_str(d: u64) -> (res: &'static str)
    requires
        d < 10,
    ensures
        res@ == seq![digit_char(d as nat)],
{
    proof {
        reveal_strlit("0"); reveal_strlit("1"); reveal_strlit("2"); reveal_strlit("3");
        reveal_strlit("4"); reveal_strlit("5"); reveal_strlit("6"); reveal_strlit("7");
        reveal_strlit("8"); reveal_strlit("9");
    }
    if d == 0 { "0" } else if d == 1 { "1" } else if d == 2 { "2" } else if d == 3 { "3" }
    else if d == 4 { "4" } else if d == 5 { "5" } else if d == 6 { "6" } else if d == 7 { "7" }
    else if d == 8 { "8" } else { "9" }
}

/// The decimal notation of `n`.
pub fn decimal_string(n: u64) -> (res: String)
    ensures
        res@ == decimal(n as nat),
    decreases n,
{
    if n < 10 {
        string_of(digit_str(n))
    } else {
        let mut s = decimal_string(n / 10);
        s.append(digit_str(n % 10));
        s
    }
}

/// The decimal notation of `i`, as `format!("{}", i)` writes it.
pub fn signed_decimal_string(i: i64) -> (res: String)
    requires
        i > i64::MIN,
    ensures
        res@ == signed_decimal(i as int),
{
    if i < 0 {
        proof {
            reveal_strlit("-");
        }
        concat("-", decimal_string((0 - i) as u64).as_str())
    } else {
        decimal_string(i as u64)
    }
}

} // verus!
