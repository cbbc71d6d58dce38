use vstd::prelude::*;

verus! {

/// The ASCII character of a decimal digit.
pub open spec fn digit_char(d: nat) -> char {
    (48 + d) as char
}

/// Decimal digits of a natural number, most significant first, without leading zeros.
pub open spec fn dec_chars(n: nat) -> Seq<char>
    decreases n,
{
    if n < 10 {
        seq![digit_char(n)]
    } else {
        dec_chars(n / 10).push(digit_char(n % 10))
    }
}

/// Decimal text of an integer as `{}` formats it: a minus sign before negative values.
pub open spec fn int_chars(i: int) -> Seq<char> {
    if i < 0 {
        seq!['-'].add(dec_chars((-i) as nat))
    } else {
        dec_chars(i as nat)
    }
}

/// Removes the last character of a string and returns it, or `None` when the string is
/// empty (then it is left as it was).
#[verifier::external_body]
pub fn pop_char(s: &mut String) -> (c: Option<char>)
    ensures
        old(s)@.len() == 0 ==> c is None && final(s)@ == old(s)@,
        old(s)@.len() > 0 ==> c == Some(old(s)@.last()) && final(s)@ == old(s)@.drop_last(),
{
    s.pop()
}

/// Appends one character to a string.
#[verifier::external_body]
pub fn push_char(s: &mut String, c: char)
    ensures
        final(s)@ == old(s)@.push(c),
{
    s.push(c);
}

fn digit(d: u64) -> (c: char)
    requires
        d < 10,
    ensures
        c == digit_char(d as nat),
{
    match d {
        0 => '0',
        1 => '1',
        2 => '2',
        3 => '3',
        4 => '4',
        5 => '5',
        6 => '6',
        7 => '7',
        8 => '8',
        _ => '9',
    }
}

/// Appends the decimal digits of `n`.
pub fn push_u64(s: &mut String, n: u64)
    ensures
        final(s)@ == old(s)@ + dec_chars(n as nat),
    decreases n,
{
    if n >= 10 {
        push_u64(s, n / 10);
    }
    push_char(s, digit(n % 10));
    assert(n < 10 ==> n % 10 == n);
}

/// Appends the decimal text of `i`, with a minus sign when it is negative.
pub fn push_i64(s: &mut String, i: i64)
    ensures
        final(s)@ == old(s)@ + int_chars(i as int),
{
    if i < 0 {
        push_char(s, '-');
        let magnitude: u64 = if i == i64::MIN {
            9223372036854775808u64
        } else {
            (-i) as u64
        };
        push_u64(s, magnitude);
        assert(seq!['-'].add(dec_chars((-i) as nat)) == seq!['-'] + dec_chars(magnitude as nat));
    } else {
        push_u64(s, i as u64);
    }
}

/// Decimal digits of a natural number as ASCII bytes.
pub open spec fn dec_bytes(n: nat) -> Seq<u8>
    decreases n,
{
    if n < 10 {
        seq![(48 + n) as u8]
    } else {
        dec_bytes(n / 10).push((48 + n % 10) as u8)
    }
}

/// Appends the ASCII decimal digits of `n` to a byte buffer.
pub fn push_dec_bytes(out: &mut Vec<u8>, n: u64)
    ensures
        final(out)@ == old(out)@ + dec_bytes(n as nat),
    decreases n,
{
    if n >= 10 {
        push_dec_bytes(out, n / 10);
    }
    let d: u8 = (n % 10) as u8;
    out.push(48u8 + d);
    assert(n < 10 ==> n % 10 == n);
}

/// Appends every byte of `bytes` to `out`, in order.
pub fn push_all(out: &mut Vec<u8>, bytes: &[u8])
    ensures
        final(out)@ == old(out)@ + bytes@,
{
    let ghost start = out@;
    let mut i: usize = 0;
    while i < bytes.len()
        invariant
            i <= bytes@.len(),
            out@ == start + bytes@.subrange(0, i as int),
        decreases bytes@.len() - i,
    {
        out.push(bytes[i]);
        assert(bytes@.subrange(0, i as int + 1) == bytes@.subrange(0, i as int).push(bytes@[i as int]));
        i = i + 1;
    }
    assert(bytes@.subrange(0, i as int) == bytes@);
}

/// Unicode `White_Space`, the characters `char::is_whitespace` accepts.
pub open spec fn is_white_space(c: char) -> bool {
    let u = c as u32;
    (0x09 <= u <= 0x0d) || u == 0x20 || u == 0x85 || u == 0xa0 || u == 0x1680 || (0x2000 <= u <= 0x200a)
        || u == 0x2028 || u == 0x2029 || u == 0x202f || u == 0x205f || u == 0x3000
}

/// The text without its leading white space.
pub open spec fn trim_start_chars(s: Seq<char>) -> Seq<char>
    decreases s.len(),
{
    if s.len() > 0 && is_white_space(s[0]) {
        trim_start_chars(s.drop_first())
    } else {
        s
    }
}

/// The text without its trailing white space.
pub open spec fn trim_end_chars(s: Seq<char>) -> Seq<char>
    decreases s.len(),
{
    if s.len() > 0 && is_white_space(s.last()) {
        trim_end_chars(s.drop_last())
    } else {
        s
    }
}

/// The text without leading and trailing white space, as `str::trim` gives it.
pub open spec fn trim_chars(s: Seq<char>) -> Seq<char> {
    trim_end_chars(trim_start_chars(s))
}

fn white_space(c: char) -> (b: bool)
    ensures
        b == is_white_space(c),
{
    let u = c as u32;
    (0x09 <= u && u <= 0x0d) || u == 0x20 || u == 0x85 || u == 0xa0 || u == 0x1680 || (0x2000 <= u && u <= 0x200a)
        || u == 0x2028 || u == 0x2029 || u == 0x202f || u == 0x205f || u == 0x3000
}

/// The text without leading and trailing white space.
pub fn trim(s: &str) -> (t: String)
    ensures
        t@ == trim_chars(s@),
{
    let n = s.unicode_len();
    let mut start: usize = 0;
    assert(s@.subrange(0, n as int) =~= s@);
    while start < n && white_space(s.get_char(start))
        invariant
            n == s@.len(),
            start <= n,
            trim_start_chars(s@) == trim_start_chars(s@.subrange(start as int, n as int)),
        decreases n - start,
    {
        let ghost sub = s@.subrange(start as int, n as int);
        assert(sub.drop_first() =~= s@.subrange(start as int + 1, n as int));
        start = start + 1;
    }
    let ghost front = s@.subrange(start as int, n as int);
    proof {
        assert(s@.subrange(0, n as int) =~= s@);
        if start < n {
            assert(front[0] == s@[start as int]);
        } else {
            assert(front.len() == 0);
        }
        assert(trim_start_chars(s@) == front);
    }
    let mut end: usize = n;
    while end > start && white_space(s.get_char(end - 1))
        invariant
            n == s@.len(),
            start <= end <= n,
            front == s@.subrange(start as int, n as int),
            trim_end_chars(front) == trim_end_chars(s@.subrange(start as int, end as int)),
        decreases end - start,
    {
        let ghost sub = s@.subrange(start as int, end as int);
        assert(sub.drop_last() =~= s@.subrange(start as int, end as int - 1));
        end = end - 1;
    }
    proof {
        let sub = s@.subrange(start as int, end as int);
        if end > start {
            assert(sub.last() == s@[end as int - 1]);
        }
        assert(trim_end_chars(sub) == sub);
    }
    String::from_str(s.substring_char(start, end))
}

/// The pieces joined with `sep` between each two.
pub open spec fn join_chars(pieces: Seq<Seq<char>>, sep: Seq<char>) -> Seq<char>
    decreases pieces.len(),
{
    if pieces.len() == 0 {
        seq![]
    } else if pieces.len() == 1 {
        pieces[0]
    } else {
        join_chars(pieces.drop_last(), sep) + sep + pieces.last()
    }
}

/// The views of a list of strings.
pub open spec fn string_views(v: Seq<String>) -> Seq<Seq<char>> {
    v.map_values(|s: String| s@)
}

/// Joins strings with `sep` between each two.
pub fn join_strings(pieces: &[String], sep: &str) -> (out: String)
    ensures
        out@ == join_chars(string_views(pieces@), sep@),
{
    let mut out = String::new();
    let n = pieces.len();
    let mut i: usize = 0;
    while i < n
        invariant
            n == pieces@.len(),
            i <= n,
            out@ == join_chars(string_views(pieces@.take(i as int)), sep@),
        decreases n - i,
    {
        let ghost before = string_views(pieces@.take(i as int));
        if i > 0 {
            out.append(sep);
        }
        out.append(pieces[i].as_str());
        proof {
            let after = string_views(pieces@.take(i as int + 1));
            assert(after.drop_last() =~= before);
            assert(after.last() == pieces@[i as int]@);
            if i == 0 {
                assert(after.len() == 1);
                assert(out@ =~= after[0]);
            }
        }
        i = i + 1;
    }
    assert(pieces@.take(n as int) =~= pieces@);
    out
}

/// Whether `c` is an ASCII digit.
pub open spec fn is_digit(c: char) -> bool {
    '0' <= c <= '9'
}

/// The value of a run of ASCII digits.
pub open spec fn digits_value(s: Seq<char>) -> nat
    decreases s.len(),
{
    if s.len() == 0 {
        0
    } else {
        digits_value(s.drop_last()) * 10 + (s.last() as nat - 48) as nat
    }
}

/// The text after an optional leading `+`.
pub open spec fn unsigned_part(s: Seq<char>) -> Seq<char> {
    if s.len() > 0 && s[0] == '+' { s.drop_first() } else { s }
}

/// Every character is an ASCII digit.
pub open spec fn all_digits(s: Seq<char>) -> bool {
    forall|i: int| 0 <= i < s.len() ==> is_digit(#[trigger] s[i])
}

/// What `str::parse` gives for an unsigned type whose largest value is `max`: an
/// optional `+`, then at least one ASCII digit and nothing else, with a value up to `max`.
pub open spec fn parsed_uint(s: Seq<char>, max: nat) -> Option<nat> {
    let digits = unsigned_part(s);
    if digits.len() > 0 && all_digits(digits) && digits_value(digits) <= max {
        Some(digits_value(digits))
    } else {
        None
    }
}

/// Parses a decimal value up to `max` as `str::parse` does for an unsigned type.
pub fn parse_uint(s: &str, max: u32) -> (r: Option<u32>)
    ensures
        match parsed_uint(s@, max as nat) {
            Some(v) => r == Some(v as u32),
            None => r is None,
        },
{
    let n = s.unicode_len();
    let start: usize = if n > 0 && s.get_char(0) == '+' { 1 } else { 0 };
    let ghost digits = unsigned_part(s@);
    assert(digits =~= s@.subrange(start as int, n as int));
    if start >= n {
        return None;
    }
    let mut value: u64 = 0;
    let mut i: usize = start;
    while i < n
        invariant
            n == s@.len(),
            start <= i <= n,
            start < n,
            digits == s@.subrange(start as int, n as int),
            digits == unsigned_part(s@),
            value as nat == digits_value(s@.subrange(start as int, i as int)),
            value <= max,
            forall|j: int| start <= j < i ==> is_digit(#[trigger] s@[j]),
        decreases n - i,
    {
        let c = s.get_char(i);
        if !('0' <= c && c <= '9') {
            assert(digits[i - start] == s@[i as int]);
            assert(!is_digit(digits[i - start]));
            assert(0 <= i - start < digits.len());
            assert(!all_digits(digits));
            return None;
        }
        let d = (c as u64) - 48;
        let ghost prefix = s@.subrange(start as int, i as int + 1);
        assert(prefix.drop_last() =~= s@.subrange(start as int, i as int));
        value = value * 10 + d;
        if value > max as u64 {
            proof {
                if all_digits(digits) {
                    lemma_digits_value_grows(digits, (i + 1 - start) as nat);
                    assert(digits.subrange(0, (i + 1 - start) as int) =~= prefix);
                }
            }
            return None;
        }
        i = i + 1;
    }
    assert(s@.subrange(start as int, n as int) == digits);
    assert forall|k: int| 0 <= k < digits.len() implies is_digit(#[trigger] digits[k]) by {
        assert(digits[k] == s@[k + start]);
    }
    Some(value as u32)
}

proof fn lemma_digits_value_grows(s: Seq<char>, k: nat)
    requires
        k <= s.len(),
        forall|i: int| 0 <= i < s.len() ==> is_digit(#[trigger] s[i]),
    ensures
        digits_value(s.subrange(0, k as int)) <= digits_value(s),
    decreases s.len() - k,
{
    if k < s.len() {
        lemma_digits_value_grows(s, k + 1);
        let p = s.subrange(0, k as int + 1);
        assert(p.drop_last() =~= s.subrange(0, k as int));
    } else {
        assert(s.subrange(0, k as int) =~= s);
    }
}

/// The characters of a string, in order.
pub fn chars_of(s: &str) -> (v: Vec<char>)
    ensures
        v@ == s@,
{
    let mut v: Vec<char> = Vec::new();
    for c in it: s.chars()
        invariant
            v@ == it.seq().take(it.index() as int),
    {
        v.push(c);
    }
    v
}

/// `s` with every occurrence of `from`, read left to right without overlap, replaced by
/// `to`, as `str::replace` does for a non-empty pattern.
pub open spec fn replaced(s: Seq<char>, from: Seq<char>, to: Seq<char>) -> Seq<char>
    decreases s.len(),
{
    if s.len() == 0 {
        seq![]
    } else if from.len() > 0 && s.len() >= from.len() && s.take(from.len() as int) == from {
        to + replaced(s.skip(from.len() as int), from, to)
    } else {
        seq![s[0]] + replaced(s.skip(1), from, to)
    }
}

fn matches_at(s: &Vec<char>, i: usize, pat: &Vec<char>) -> (b: bool)
    requires
        i <= s@.len(),
    ensures
        b == (s@.len() - i >= pat@.len() && s@.skip(i as int).take(pat@.len() as int) == pat@),
{
    let m = pat.len();
    let len = s.len();
    if len - i < m {
        return false;
    }
    let mut k: usize = 0;
    while k < m
        invariant
            m == pat@.len(),
            len == s@.len(),
            i + m <= s@.len(),
            k <= m,
            forall|j: int| 0 <= j < k ==> s@[i + j] == pat@[j],
        decreases m - k,
    {
        if s[i + k] != pat[k] {
            assert(s@.skip(i as int).take(m as int)[k as int] != pat@[k as int]);
            return false;
        }
        k = k + 1;
    }
    assert(s@.skip(i as int).take(m as int) =~= pat@);
    true
}

/// Replaces every occurrence of a non-empty pattern.
pub fn replace_all(s: &str, from: &str, to: &str) -> (r: String)
    requires
        from@.len() > 0,
    ensures
        r@ == replaced(s@, from@, to@),
{
    let chars = chars_of(s);
    let pat = chars_of(from);
    let n = chars.len();
    let m = pat.len();
    let mut out = String::new();
    let mut i: usize = 0;
    assert(s@.skip(0) =~= s@);
    assert(out@ + replaced(s@, from@, to@) =~= replaced(s@, from@, to@));
    while i < n
        invariant
            chars@ == s@,
            pat@ == from@,
            n == s@.len(),
            m == from@.len(),
            m > 0,
            i <= n,
            out@ + replaced(s@.skip(i as int), from@, to@) == replaced(s@, from@, to@),
        decreases n - i,
    {
        let ghost rest = s@.skip(i as int);
        let ghost before = out@;
        if matches_at(&chars, i, &pat) {
            out.append(to);
            assert(rest.skip(m as int) =~= s@.skip(i as int + m as int));
            assert(before + (to@ + replaced(rest.skip(m as int), from@, to@)) =~= out@ + replaced(s@.skip(i as int + m as int), from@, to@));
            i = i + m;
        } else {
            push_char(&mut out, chars[i]);
            assert(rest.skip(1) =~= s@.skip(i as int + 1));
            assert(rest[0] == s@[i as int]);
            assert(before + (seq![rest[0]] + replaced(rest.skip(1), from@, to@)) =~= out@ + replaced(s@.skip(i as int + 1), from@, to@));
            i = i + 1;
        }
    }
    assert(s@.skip(n as int) =~= Seq::<char>::empty());
    assert(out@ + Seq::<char>::empty() =~= out@);
    assert(s@.skip(0) =~= s@);
    out
}

/// The XML escape of one character.
pub open spec fn xml_escape_char(c: char) -> Seq<char> {
    if c == '&' {
        "&amp;"@
    } else if c == '<' {
        "&lt;"@
    } else if c == '>' {
        "&gt;"@
    } else if c == '"' {
        "&quot;"@
    } else if c == '\'' {
        "&apos;"@
    } else {
        seq![c]
    }
}

/// Text safe to place in XML: the five markup characters replaced by their entities.
pub open spec fn xml_escaped(s: Seq<char>) -> Seq<char>
    decreases s.len(),
{
    if s.len() == 0 { seq![] } else { xml_escaped(s.drop_last()) + xml_escape_char(s.last()) }
}

/// Escapes text for XML.
pub fn escape_xml(s: &str) -> (r: String)
    ensures
        r@ == xml_escaped(s@),
{
    let chars = chars_of(s);
    let mut out = String::new();
    let mut i: usize = 0;
    while i < chars.len()
        invariant
            chars@ == s@,
            i <= chars@.len(),
            out@ == xml_escaped(s@.take(i as int)),
        decreases chars@.len() - i,
    {
        let c = chars[i];
        if c == '&' {
            out.append("&amp;");
        } else if c == '<' {
            out.append("&lt;");
        } else if c == '>' {
            out.append("&gt;");
        } else if c == '"' {
            out.append("&quot;");
        } else if c == '\'' {
            out.append("&apos;");
        } else {
            push_char(&mut out, c);
        }
        assert(s@.take(i as int + 1).drop_last() =~= s@.take(i as int));
        i = i + 1;
    }
    assert(s@.take(chars@.len() as int) =~= s@);
    out
}

/// The first `limit` characters, followed by `...` when there were more.
pub open spec fn clipped(s: Seq<char>, limit: nat) -> Seq<char> {
    if s.len() > limit { s.take(limit as int) + "..."@ } else { s }
}

/// Cuts text to `limit` characters, marking the cut with `...`.
pub fn clip_chars(value: &str, limit: usize) -> (r: String)
    ensures
        r@ == clipped(value@, limit as nat),
{
    let n = value.unicode_len();
    if n > limit {
        let mut r = String::from_str(value.substring_char(0, limit));
        r.append("...");
        assert(value@.subrange(0, limit as int) =~= value@.take(limit as int));
        r
    } else {
        String::from_str(value)
    }
}

/// Whether `p` occurs in `s`.
pub open spec fn contains_chars(s: Seq<char>, p: Seq<char>) -> bool {
    exists|i: int| 0 <= i && i + p.len() <= s.len() && #[trigger] s.subrange(i, i + p.len()) == p
}

/// Whether `pat` occurs in `s`.
pub fn contains_text(s: &str, pat: &str) -> (b: bool)
    ensures
        b == contains_chars(s@, pat@),
{
    let chars = chars_of(s);
    let p = chars_of(pat);
    let n = chars.len();
    let m = p.len();
    if m > n {
        return false;
    }
    if m == 0 {
        assert(s@.subrange(0, 0 + pat@.len() as int) =~= pat@);
        return true;
    }
    let mut i: usize = 0;
    while i <= n - m
        invariant
            chars@ == s@,
            p@ == pat@,
            n == s@.len(),
            m == pat@.len(),
            0 < m <= n,
            i <= n - m + 1,
            forall|j: int| 0 <= j < i ==> #[trigger] s@.subrange(j, j + m) != pat@,
        decreases n - m + 1 - i,
    {
        if matches_at(&chars, i, &p) {
            assert(s@.subrange(i as int, i as int + m) =~= s@.skip(i as int).take(m as int));
            return true;
        }
        assert(s@.subrange(i as int, i as int + m) =~= s@.skip(i as int).take(m as int));
        i = i + 1;
    }
    false
}

} // verus!
