//! Text predicates and small text operations over the characters of a string.
//!
//! Every contract here is stated over `Seq<char>`, the view of `str` and
//! `String`. The executable functions decode a string once and then work on
//! the decoded characters.

use vstd::prelude::*;
use vstd::string::*;

verus! {

/// A character with the Unicode property `White_Space`.
pub open spec fn is_whitespace(c: char) -> bool {
    let n = c as int;
    ||| 0x09 <= n <= 0x0D
    ||| n == 0x20
    ||| n == 0x85
    ||| n == 0xA0
    ||| n == 0x1680
    ||| 0x2000 <= n <= 0x200A
    ||| n == 0x2028
    ||| n == 0x2029
    ||| n == 0x202F
    ||| n == 0x205F
    ||| n == 0x3000
}

/// A text made of white space only; the empty text is blank.
pub open spec fn is_blank(s: Seq<char>) -> bool {
    forall|i: int| 0 <= i < s.len() ==> is_whitespace(#[trigger] s[i])
}

/// The text without its leading white space.
pub open spec fn trimmed_start(s: Seq<char>) -> Seq<char>
    decreases s.len(),
{
    if s.len() > 0 && is_whitespace(s.first()) {
        trimmed_start(s.drop_first())
    } else {
        s
    }
}

/// The text without its trailing white space.
pub open spec fn trimmed_end(s: Seq<char>) -> Seq<char>
    decreases s.len(),
{
    if s.len() > 0 && is_whitespace(s.last()) {
        trimmed_end(s.drop_last())
    } else {
        s
    }
}

/// The text without leading and trailing white space.
pub open spec fn trimmed(s: Seq<char>) -> Seq<char> {
    trimmed_end(trimmed_start(s))
}

/// `pattern` occurs in `s` as a run of consecutive characters.
pub open spec fn contains_text(s: Seq<char>, pattern: Seq<char>) -> bool {
    exists|i: int| occurs_at(s, pattern, i)
}

/// `pattern` stands in `s` at position `i`.
pub open spec fn occurs_at(s: Seq<char>, pattern: Seq<char>, i: int) -> bool {
    0 <= i && i + pattern.len() <= s.len() && s.subrange(i, i + pattern.len()) == pattern
}

/// The code of a character, with the letters `A` to `Z` taken as `a` to `z`.
pub open spec fn ascii_folded(c: char) -> int {
    let n = c as int;
    if 0x41 <= n <= 0x5A {
        n + 0x20
    } else {
        n
    }
}

/// Two texts that differ at most in the case of ASCII letters.
pub open spec fn eq_ignoring_ascii_case(a: Seq<char>, b: Seq<char>) -> bool {
    a.len() == b.len() && forall|i: int|
        0 <= i < a.len() ==> ascii_folded(#[trigger] a[i]) == ascii_folded(b[i])
}

/// The text with every occurrence of `c` taken out.
pub open spec fn without_char(s: Seq<char>, c: char) -> Seq<char> {
    s.filter(differs_from(c))
}

/// The test that a character is another one than `c`.
pub open spec fn differs_from(c: char) -> spec_fn(char) -> bool {
    |x: char| x != c
}

/// One of the digits `0` to `9`.
pub open spec fn is_digit(c: char) -> bool {
    0x30 <= c as int <= 0x39
}

/// A text made of digits only.
pub open spec fn all_digits(s: Seq<char>) -> bool {
    forall|i: int| 0 <= i < s.len() ==> is_digit(#[trigger] s[i])
}

/// The number that a text of digits writes in base ten.
pub open spec fn decimal_value(s: Seq<char>) -> nat
    decreases s.len(),
{
    if s.len() == 0 {
        0
    } else {
        (decimal_value(s.drop_last()) * 10 + (s.last() as int - 0x30)) as nat
    }
}

/// A text of one or more digits whose value is at most `limit`.
pub open spec fn is_decimal_up_to(s: Seq<char>, limit: nat) -> bool {
    s.len() > 0 && all_digits(s) && decimal_value(s) <= limit
}

/// A text that writes a 32-bit signed integer: an optional sign, then one or
/// more digits, the value within the range of `i32`.
pub open spec fn is_i32_text(s: Seq<char>) -> bool {
    if s.len() > 0 && s[0] == '-' {
        is_decimal_up_to(s.drop_first(), 2147483648)
    } else if s.len() > 0 && s[0] == '+' {
        is_decimal_up_to(s.drop_first(), 2147483647)
    } else {
        is_decimal_up_to(s, 2147483647)
    }
}

/// The number written by a text that writes a 32-bit signed integer.
pub open spec fn i32_value(s: Seq<char>) -> int {
    if s.len() > 0 && s[0] == '-' {
        -(decimal_value(s.drop_first()) as int)
    } else if s.len() > 0 && s[0] == '+' {
        decimal_value(s.drop_first()) as int
    } else {
        decimal_value(s) as int
    }
}

/// The upper-case form that `str::to_uppercase` gives a text.
pub uninterp spec fn uppercase_of(s: Seq<char>) -> Seq<char>;

/// Calls `str::to_uppercase`. The result is the Unicode upper-case form of the
/// text; the contract gives it the name `uppercase_of` and says nothing more
/// about it.
#[verifier::external_body]
pub(crate) fn to_uppercase(s: &str) -> (r: String)
    ensures
        r@ == uppercase_of(s@),
{
    s.to_uppercase()
}

/// The lower-case form that `str::to_lowercase` gives a text.
pub uninterp spec fn lowercase_of(s: Seq<char>) -> Seq<char>;

/// Calls `str::to_lowercase`. The result is the Unicode lower-case form of the
/// text; the contract gives it the name `lowercase_of` and says nothing more
/// about it.
#[verifier::external_body]
pub(crate) fn to_lowercase(s: &str) -> (r: String)
    ensures
        r@ == lowercase_of(s@),
{
    s.to_lowercase()
}

/// Decides whether a character is white space.
pub fn char_is_whitespace(c: char) -> (r: bool)
    ensures
        r == is_whitespace(c),
{
    let n: u32 = c as u32;
    (0x09 <= n && n <= 0x0D) || n == 0x20 || n == 0x85 || n == 0xA0 || n == 0x1680 || (0x2000 <= n
        && n <= 0x200A) || n == 0x2028 || n == 0x2029 || n == 0x202F || n == 0x205F || n == 0x3000
}

/// The code of a character with ASCII upper-case letters folded to lower case.
pub fn fold_ascii(c: char) -> (r: u32)
    ensures
        r == ascii_folded(c),
{
    let n: u32 = c as u32;
    if 0x41 <= n && n <= 0x5A {
        n + 0x20
    } else {
        n
    }
}

/// The value of a digit, and `None` for any other character.
pub fn digit_value(c: char) -> (r: Option<u64>)
    ensures
        r is Some <==> is_digit(c),
        r matches Some(value) ==> value == c as int - 0x30,
{
    let n: u32 = c as u32;
    if 0x30 <= n && n <= 0x39 {
        Some((n - 0x30) as u64)
    } else {
        None
    }
}

/// The characters of a string, in order.
pub fn chars_of(s: &str) -> (v: Vec<char>)
    ensures
        v@ == s@,
{
    let mut v: Vec<char> = Vec::new();
    for c in it: s.chars()
        invariant
            v@ == it.seq().take(it.index() as int),
    {
        v.push(c);
    }
    v
}

/// Decides whether two strings hold the same characters.
pub fn same_text(a: &str, b: &str) -> (r: bool)
    ensures
        r == (a@ == b@),
{
    let x = chars_of(a);
    let y = chars_of(b);
    if x.len() != y.len() {
        return false;
    }
    let mut i: usize = 0;
    while i < x.len()
        invariant
            i <= x.len(),
            x.len() == y.len(),
            x@ == a@,
            y@ == b@,
            forall|k: int| 0 <= k < i ==> x@[k] == y@[k],
        decreases x.len() - i,
    {
        if x[i] != y[i] {
            return false;
        }
        i += 1;
    }
    assert(x@ =~= y@);
    true
}

/// Decides whether two strings are equal up to the case of ASCII letters.
pub fn eq_ignore_ascii_case(a: &str, b: &str) -> (r: bool)
    ensures
        r == eq_ignoring_ascii_case(a@, b@),
{
    let x = chars_of(a);
    let y = chars_of(b);
    if x.len() != y.len() {
        return false;
    }
    let mut i: usize = 0;
    while i < x.len()
        invariant
            i <= x.len(),
            x.len() == y.len(),
            x@ == a@,
            y@ == b@,
            forall|k: int| 0 <= k < i ==> ascii_folded(#[trigger] x@[k]) == ascii_folded(y@[k]),
        decreases x.len() - i,
    {
        if fold_ascii(x[i]) != fold_ascii(y[i]) {
            return false;
        }
        i += 1;
    }
    true
}

/// Decides whether a string is empty or holds white space only.
pub fn is_blank_text(s: &str) -> (r: bool)
    ensures
        r == is_blank(s@),
{
    let v = chars_of(s);
    let mut i: usize = 0;
    while i < v.len()
        invariant
            i <= v.len(),
            v@ == s@,
            forall|k: int| 0 <= k < i ==> is_whitespace(#[trigger] v@[k]),
        decreases v.len() - i,
    {
        if !char_is_whitespace(v[i]) {
            return false;
        }
        i += 1;
    }
    true
}

/// Stripping leading white space from a range of a text that starts with
/// white space is stripping it from the range without its first character.
proof fn lemma_trimmed_start_step(s: Seq<char>, from: int)
    requires
        0 <= from < s.len(),
        is_whitespace(s[from]),
    ensures
        trimmed_start(s.subrange(from, s.len() as int)) == trimmed_start(
            s.subrange(from + 1, s.len() as int),
        ),
{
    let r = s.subrange(from, s.len() as int);
    assert(r.first() == s[from]);
    assert(r.drop_first() =~= s.subrange(from + 1, s.len() as int));
}

/// The same for trailing white space and the last character of a range.
proof fn lemma_trimmed_end_step(s: Seq<char>, from: int, to: int)
    requires
        0 <= from < to <= s.len(),
        is_whitespace(s[to - 1]),
    ensures
        trimmed_end(s.subrange(from, to)) == trimmed_end(s.subrange(from, to - 1)),
{
    let r = s.subrange(from, to);
    assert(r.last() == s[to - 1]);
    assert(r.drop_last() =~= s.subrange(from, to - 1));
}

/// The string without leading and trailing white space.
pub fn trim(s: &str) -> (r: &str)
    ensures
        r@ == trimmed(s@),
{
    let v = chars_of(s);
    let n = v.len();
    let mut start: usize = 0;
    assert(s@.subrange(0, n as int) =~= s@);
    while start < n && char_is_whitespace(v[start])
        invariant
            start <= n,
            n == v.len(),
            v@ == s@,
            trimmed_start(s@) == trimmed_start(s@.subrange(start as int, n as int)),
        decreases n - start,
    {
        proof {
            lemma_trimmed_start_step(s@, start as int);
        }
        start += 1;
    }
    assert(trimmed_start(s@) == s@.subrange(start as int, n as int)) by {
        let r = s@.subrange(start as int, n as int);
        if start < n {
            assert(r.first() == s@[start as int]);
        }
    }
    let mut end: usize = n;
    while end > start && char_is_whitespace(v[end - 1])
        invariant
            start <= end <= n,
            n == v.len(),
            v@ == s@,
            trimmed(s@) == trimmed_end(s@.subrange(start as int, end as int)),
        decreases end - start,
    {
        proof {
            lemma_trimmed_end_step(s@, start as int, end as int);
        }
        end -= 1;
    }
    assert(trimmed(s@) == s@.subrange(start as int, end as int)) by {
        let r = s@.subrange(start as int, end as int);
        if end > start {
            assert(r.last() == s@[end - 1]);
        }
    }
    s.substring_char(start, end)
}

/// Decides whether `pattern` stands in `v` at position `at`.
fn matches_at(v: &Vec<char>, pattern: &Vec<char>, at: usize) -> (r: bool)
    requires
        at + pattern.len() <= v.len(),
    ensures
        r == occurs_at(v@, pattern@, at as int),
{
    let m = pattern.len();
    let mut j: usize = 0;
    while j < m
        invariant
            j <= m,
            m == pattern.len(),
            at + m <= v.len(),
            forall|k: int| 0 <= k < j ==> v@[at + k] == pattern@[k],
        decreases m - j,
    {
        if v[at + j] != pattern[j] {
            assert(v@.subrange(at as int, at + m)[j as int] != pattern@[j as int]);
            return false;
        }
        j += 1;
    }
    assert(v@.subrange(at as int, at + m) =~= pattern@);
    true
}

/// Decides whether `pattern` occurs in `s`.
pub fn contains(s: &str, pattern: &str) -> (r: bool)
    ensures
        r == contains_text(s@, pattern@),
{
    let v = chars_of(s);
    let p = chars_of(pattern);
    if p.len() > v.len() {
        return false;
    }
    let last: usize = v.len() - p.len();
    let mut i: usize = 0;
    loop
        invariant
            i <= last,
            last == v.len() - p.len(),
            v@ == s@,
            p@ == pattern@,
            forall|k: int| 0 <= k < i ==> !occurs_at(s@, pattern@, k),
        decreases last - i,
    {
        if matches_at(&v, &p, i) {
            return true;
        }
        if i == last {
            return false;
        }
        i += 1;
    }
}

/// The string with every occurrence of `c` taken out.
pub fn remove_char(s: &str, c: char) -> (r: String)
    ensures
        r@ == without_char(s@, c),
{
    let v = chars_of(s);
    let n = v.len();
    let mut out = String::new();
    let mut i: usize = 0;
    let ghost keep = differs_from(c);
    assert(s@.take(0) =~= Seq::<char>::empty());
    while i < n
        invariant
            i <= n,
            n == v.len(),
            v@ == s@,
            keep == differs_from(c),
            out@ == s@.take(i as int).filter(keep),
        decreases n - i,
    {
        proof {
            s@.take(i as int).lemma_filter_push(s@[i as int], keep);
            assert(s@.take(i as int).push(s@[i as int]) =~= s@.take(i + 1));
        }
        if v[i] != c {
            let piece = s.substring_char(i, i + 1);
            assert(piece@ =~= seq![s@[i as int]]);
            out.append(piece);
            assert(out@ =~= s@.take(i as int).filter(keep).push(s@[i as int]));
        }
        i += 1;
    }
    assert(s@.take(n as int) =~= s@);
    out
}

/// A longer text of digits writes a number at least as large as each of its
/// beginnings.
proof fn lemma_decimal_value_grows(s: Seq<char>, k: int)
    requires
        all_digits(s),
        0 <= k <= s.len(),
    ensures
        decimal_value(s.take(k)) <= decimal_value(s),
    decreases s.len() - k,
{
    if k == s.len() {
        assert(s.take(k) =~= s);
    } else {
        lemma_decimal_value_grows(s, k + 1);
        let t = s.take(k + 1);
        assert(t.drop_last() =~= s.take(k));
        assert(is_digit(s[k]));
        assert(t.last() == s[k]);
    }
}

/// Reads the characters of `v` from `from` on as one or more digits that
/// write a number of at most `limit`.
fn digits_up_to(v: &Vec<char>, from: usize, limit: u64) -> (r: Option<u64>)
    requires
        from <= v.len(),
        limit <= 0xFFFF_FFFF,
    ensures
        r is Some <==> is_decimal_up_to(v@.subrange(from as int, v.len() as int), limit as nat),
        r matches Some(value) ==> value == decimal_value(
            v@.subrange(from as int, v.len() as int),
        ),
{
    let n = v.len();
    let ghost d = v@.subrange(from as int, n as int);
    if from == n {
        return None;
    }
    let mut acc: u64 = 0;
    let mut i: usize = from;
    assert(d.take(0) =~= Seq::<char>::empty());
    while i < n
        invariant
            from <= i <= n,
            n == v.len(),
            limit <= 0xFFFF_FFFF,
            d == v@.subrange(from as int, n as int),
            all_digits(d.take(i - from)),
            acc == decimal_value(d.take(i - from)),
            acc <= limit,
        decreases n - i,
    {
        assert(d[i - from] == v@[i as int]);
        let digit: u64 = match digit_value(v[i]) {
            Some(value) => value,
            None => {
                return None;
            },
        };
        let next: u64 = acc * 10 + digit;
        proof {
            let t = d.take(i - from + 1);
            assert(t.drop_last() =~= d.take(i - from));
            assert(t.last() == d[i - from]);
            assert(all_digits(t)) by {
                assert forall|k: int| 0 <= k < t.len() implies is_digit(#[trigger] t[k]) by {
                    if k < i - from {
                        assert(d.take(i - from)[k] == t[k]);
                    } else {
                        assert(t[k] == d[i - from]);
                    }
                }
            }
            assert(next == decimal_value(t));
        }
        if next > limit {
            proof {
                if all_digits(d) {
                    lemma_decimal_value_grows(d, i - from + 1);
                }
            }
            return None;
        }
        acc = next;
        i += 1;
    }
    assert(d.take(n - from) =~= d);
    Some(acc)
}

/// The number that an `i32` text writes lies within the range of `i32`.
pub proof fn lemma_i32_value_bounds(s: Seq<char>)
    ensures
        is_i32_text(s) ==> i32::MIN <= i32_value(s) <= i32::MAX,
{
}

/// Reads a string as a 32-bit signed integer; `None` where it writes none.
pub fn parse_i32(s: &str) -> (r: Option<i32>)
    ensures
        r is Some <==> is_i32_text(s@),
        r matches Some(value) ==> value == i32_value(s@),
{
    let v = chars_of(s);
    if v.len() > 0 && v[0] == '-' {
        assert(v@.subrange(1, v.len() as int) =~= s@.drop_first());
        match digits_up_to(&v, 1, 2147483648) {
            Some(value) => Some((-(value as i64)) as i32),
            None => None,
        }
    } else if v.len() > 0 && v[0] == '+' {
        assert(v@.subrange(1, v.len() as int) =~= s@.drop_first());
        match digits_up_to(&v, 1, 2147483647) {
            Some(value) => Some(value as i32),
            None => None,
        }
    } else {
        assert(v@.subrange(0, v.len() as int) =~= s@);
        match digits_up_to(&v, 0, 2147483647) {
            Some(value) => Some(value as i32),
            None => None,
        }
    }
}

/// Decides whether a string writes a 32-bit signed integer.
pub fn parses_as_i32(s: &str) -> (r: bool)
    ensures
        r == is_i32_text(s@),
{
    parse_i32(s).is_some()
}

/// What is left of a string behind a lead; `None` where the string does not
/// start with the lead.
pub fn strip_prefix<'a>(s: &'a str, lead: &str) -> (r: Option<&'a str>)
    ensures
        r is Some <==> lead@.is_prefix_of(s@),
        r matches Some(rest) ==> rest@ == s@.skip(lead@.len() as int),
{
    let v = chars_of(s);
    let p = chars_of(lead);
    if p.len() > v.len() {
        return None;
    }
    if matches_at(&v, &p, 0) {
        assert(s@.subrange(0, lead@.len() as int) =~= s@.take(lead@.len() as int));
        assert(s@.subrange(lead@.len() as int, s@.len() as int) =~= s@.skip(lead@.len() as int));
        assert(lead@ =~= s@.subrange(0, lead@.len() as int));
        Some(s.substring_char(p.len(), v.len()))
    } else {
        assert(!lead@.is_prefix_of(s@)) by {
            if lead@.is_prefix_of(s@) {
                assert(s@.subrange(0, lead@.len() as int) =~= lead@);
            }
        }
        None
    }
}

/// The character that writes a digit.
pub open spec fn digit_char(digit: nat) -> char {
    (0x30 + digit) as char
}

/// The text that writes a number in base ten, without leading zeros.
pub open spec fn decimal_text(n: nat) -> Seq<char>
    decreases n,
{
    if n < 10 {
        seq![digit_char(n)]
    } else {
        decimal_text(n / 10).push(digit_char(n % 10))
    }
}

/// The text that writes a number in base ten, with zeros in front of it
/// where it has fewer than `width` digits.
pub open spec fn zero_padded(n: nat, width: nat) -> Seq<char> {
    let digits = decimal_text(n);
    if digits.len() < width {
        Seq::new((width - digits.len()) as nat, |i: int| '0') + digits
    } else {
        digits
    }
}

/// The string that writes one digit.
fn digit_str(digit: u64) -> (r: &'static str)
    requires
        digit < 10,
    ensures
        r@ == seq![digit_char(digit as nat)],
{
    let digits = "0123456789";
    proof {
        reveal_strlit("0123456789");
    }
    let r = digits.substring_char(digit as usize, digit as usize + 1);
    assert(r@ =~= seq![digit_char(digit as nat)]);
    r
}

/// Appends the digits of a number.
pub fn push_decimal(out: &mut String, n: u64)
    ensures
        final(out)@ == old(out)@ + decimal_text(n as nat),
    decreases n,
{
    if n >= 10 {
        push_decimal(out, n / 10);
    }
    out.append(digit_str(n % 10));
    assert(out@ =~= old(out)@ + decimal_text(n as nat));
}

/// How many digits a number has.
pub proof fn lemma_decimal_text_len(n: nat)
    ensures
        n < 10 ==> decimal_text(n).len() == 1,
        10 <= n < 100 ==> decimal_text(n).len() == 2,
        100 <= n ==> decimal_text(n).len() >= 3,
    decreases n,
{
    if n >= 10 {
        lemma_decimal_text_len(n / 10);
    }
}

/// Appends a number with at least three digits, zeros in front where it has
/// fewer.
pub fn push_padded3(out: &mut String, n: u64)
    ensures
        final(out)@ == old(out)@ + zero_padded(n as nat, 3),
{
    proof {
        lemma_decimal_text_len(n as nat);
    }
    let ghost before = out@;
    if n < 10 {
        out.append("00");
        proof {
            reveal_strlit("00");
            assert("00"@ =~= Seq::new(2, |i: int| '0'));
        }
    } else if n < 100 {
        out.append("0");
        proof {
            reveal_strlit("0");
            assert("0"@ =~= Seq::new(1, |i: int| '0'));
        }
    }
    push_decimal(out, n);
    assert(out@ =~= before + zero_padded(n as nat, 3));
}

/// A blank text is one that trimming leaves empty.
pub proof fn lemma_blank_iff_trimmed_empty(s: Seq<char>)
    ensures
        is_blank(s) <==> trimmed(s).len() == 0,
{
    lemma_trimmed_start_shape(s);
    lemma_trimmed_end_shape(trimmed_start(s));
}

/// What stripping leading white space leaves: an end piece of the text that
/// does not start with white space, after white space only.
pub proof fn lemma_trimmed_start_shape(s: Seq<char>)
    ensures
        trimmed_start(s).len() <= s.len(),
        trimmed_start(s) == s.subrange(s.len() - trimmed_start(s).len(), s.len() as int),
        forall|i: int|
            0 <= i < s.len() - trimmed_start(s).len() ==> is_whitespace(#[trigger] s[i]),
        trimmed_start(s).len() > 0 ==> !is_whitespace(trimmed_start(s).first()),
    decreases s.len(),
{
    if s.len() > 0 && is_whitespace(s.first()) {
        let rest = s.drop_first();
        lemma_trimmed_start_shape(rest);
        let t = trimmed_start(rest);
        assert(t =~= s.subrange(s.len() - t.len(), s.len() as int));
        assert forall|i: int| 0 <= i < s.len() - t.len() implies is_whitespace(
            #[trigger] s[i],
        ) by {
            if i > 0 {
                assert(s[i] == rest[i - 1]);
            }
        }
    } else {
        assert(s =~= s.subrange(0, s.len() as int));
    }
}

/// What stripping trailing white space leaves: a beginning of the text that
/// does not end in white space, before white space only.
pub proof fn lemma_trimmed_end_shape(s: Seq<char>)
    ensures
        trimmed_end(s).len() <= s.len(),
        trimmed_end(s) == s.take(trimmed_end(s).len() as int),
        forall|i: int| trimmed_end(s).len() <= i < s.len() ==> is_whitespace(#[trigger] s[i]),
        trimmed_end(s).len() > 0 ==> !is_whitespace(trimmed_end(s).last()),
    decreases s.len(),
{
    if s.len() > 0 && is_whitespace(s.last()) {
        let rest = s.drop_last();
        lemma_trimmed_end_shape(rest);
        let t = trimmed_end(rest);
        assert(t =~= s.take(t.len() as int));
        assert forall|i: int| t.len() <= i < s.len() implies is_whitespace(#[trigger] s[i]) by {
            if i < s.len() - 1 {
                assert(s[i] == rest[i]);
            }
        }
    } else {
        assert(s =~= s.take(s.len() as int));
    }
}

} // verus!
