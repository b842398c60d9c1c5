//! Character-level text handling shared by the parsers and renderers:
//! whitespace trimming, line and word splitting, decimal numbers and
//! string building, each stated over `Seq<char>`.
use vstd::prelude::*;
use vstd::string::StrSliceExecFns;
use vstd::string::StringExecFns;

verus! {

// ---------------------------------------------------------------------------
// Whitespace and trimming
// ---------------------------------------------------------------------------
/// The Unicode `White_Space` property, which is what `char::is_whitespace`
/// (and therefore `str::trim`, `str::split_whitespace`) tests.
pub open spec fn is_space(c: char) -> bool {
    let u = c as u32;
    ||| (9 <= u && u <= 13)
    ||| u == 32
    ||| u == 0x85
    ||| u == 0xa0
    ||| u == 0x1680
    ||| (0x2000 <= u && u <= 0x200a)
    ||| u == 0x2028
    ||| u == 0x2029
    ||| u == 0x202f
    ||| u == 0x205f
    ||| u == 0x3000
}

/// `s` without its leading whitespace.
pub open spec fn trim_start(s: Seq<char>) -> Seq<char>
    decreases s.len(),
{
    if s.len() > 0 && is_space(s[0]) {
        trim_start(s.drop_first())
    } else {
        s
    }
}

/// `s` without its trailing whitespace.
pub open spec fn trim_end(s: Seq<char>) -> Seq<char>
    decreases s.len(),
{
    if s.len() > 0 && is_space(s.last()) {
        trim_end(s.drop_last())
    } else {
        s
    }
}

/// `s` without leading and trailing whitespace, as `str::trim` gives it.
pub open spec fn trim(s: Seq<char>) -> Seq<char> {
    trim_end(trim_start(s))
}

/// Whether `c` is whitespace.
pub fn is_space_char(c: char) -> (b: bool)
    ensures
        b == is_space(c),
{
    let u = c as u32;
    (9 <= u && u <= 13) || u == 32 || u == 0x85 || u == 0xa0 || u == 0x1680 || (0x2000 <= u && u
        <= 0x200a) || u == 0x2028 || u == 0x2029 || u == 0x202f || u == 0x205f || u == 0x3000
}

/// The characters of `s`, in order.
pub fn chars_of(s: &str) -> (v: Vec<char>)
    ensures
        v@ == s@,
{
    let n = s.unicode_len();
    let mut v: Vec<char> = Vec::new();
    let mut i: usize = 0;
    while i < n
        invariant
            n == s@.len(),
            i <= n,
            v@ == s@.take(i as int),
        decreases n - i,
    {
        v.push(s.get_char(i));
        assert(s@.take(i + 1) =~= s@.take(i as int).push(s@[i as int]));
        i = i + 1;
    }
    assert(s@.take(n as int) =~= s@);
    v
}

/// `String::push` appends one character to the end of the string; that is
/// all this states of it.
pub assume_specification[ std::string::String::push ](s: &mut String, ch: char)
    ensures
        final(s)@ == old(s)@.push(ch),
;

/// Appends every character of `v` to `out`.
pub fn push_chars(out: &mut String, v: &Vec<char>)
    ensures
        final(out)@ == old(out)@ + v@,
{
    let mut i: usize = 0;
    while i < v.len()
        invariant
            i <= v.len(),
            out@ == old(out)@ + v@.take(i as int),
        decreases v.len() - i,
    {
        out.push(v[i]);
        assert(v@.take(i + 1) =~= v@.take(i as int).push(v@[i as int]));
        i = i + 1;
    }
    assert(v@.take(v.len() as int) =~= v@);
}

/// The string made of the characters of `v`.
pub fn string_of(v: &Vec<char>) -> (s: String)
    ensures
        s@ == v@,
{
    let mut s = String::new();
    push_chars(&mut s, v);
    assert(Seq::<char>::empty() + v@ =~= v@);
    s
}

/// The string `a` followed by `b`.
pub fn concat2(a: &str, b: &str) -> (s: String)
    ensures
        s@ == a@ + b@,
{
    let mut s = String::from_str(a);
    s.append(b);
    s
}

/// The string `a` followed by `b` and `c`.
pub fn concat3(a: &str, b: &str, c: &str) -> (s: String)
    ensures
        s@ == a@ + b@ + c@,
{
    let mut s = String::from_str(a);
    s.append(b);
    s.append(c);
    s
}

/// The characters `s[a..b]`.
pub fn copy_range(s: &Vec<char>, a: usize, b: usize) -> (r: Vec<char>)
    requires
        a <= b <= s.len(),
    ensures
        r@ == s@.subrange(a as int, b as int),
{
    let mut r: Vec<char> = Vec::new();
    let mut i = a;
    while i < b
        invariant
            a <= i <= b,
            b <= s.len(),
            r@ == s@.subrange(a as int, i as int),
        decreases b - i,
    {
        r.push(s[i]);
        assert(s@.subrange(a as int, i + 1) =~= s@.subrange(a as int, i as int).push(s@[i as int]));
        i = i + 1;
    }
    r
}

/// The first index at or after `from` that holds no whitespace (or the length).
pub fn skip_spaces(s: &Vec<char>, from: usize) -> (i: usize)
    requires
        from <= s.len(),
    ensures
        from <= i <= s.len(),
        trim_start(s@.skip(from as int)) == s@.skip(i as int),
        i < s.len() ==> !is_space(s@[i as int]),
{
    let mut i = from;
    while i < s.len() && is_space_char(s[i])
        invariant
            from <= i <= s.len(),
            trim_start(s@.skip(from as int)) == trim_start(s@.skip(i as int)),
        decreases s.len() - i,
    {
        assert(s@.skip(i as int).drop_first() =~= s@.skip(i + 1));
        i = i + 1;
    }
    i
}

/// `s` without leading and trailing whitespace.
pub fn trim_chars(s: &Vec<char>) -> (t: Vec<char>)
    ensures
        t@ == trim(s@),
{
    let i = skip_spaces(s, 0);
    assert(s@.skip(0) =~= s@);
    assert(s@.skip(i as int) =~= s@.subrange(i as int, s.len() as int));
    let mut j = s.len();
    while j > i && is_space_char(s[j - 1])
        invariant
            i <= j <= s.len(),
            trim_end(s@.subrange(i as int, s.len() as int)) == trim_end(
                s@.subrange(i as int, j as int),
            ),
        decreases j,
    {
        assert(s@.subrange(i as int, j as int).drop_last() =~= s@.subrange(i as int, j - 1));
        j = j - 1;
    }
    copy_range(s, i, j)
}

// ---------------------------------------------------------------------------
// Decimal numbers
// ---------------------------------------------------------------------------
/// Whether `c` is an ASCII decimal digit.
pub open spec fn is_digit(c: char) -> bool {
    48 <= (c as u32) && (c as u32) <= 57
}

/// The value of the decimal digit `c`.
pub open spec fn digit_value(c: char) -> nat {
    ((c as u32) - 48) as nat
}

/// Whether every character of `s` is a decimal digit.
pub open spec fn all_digits(s: Seq<char>) -> bool {
    forall|i: int| 0 <= i < s.len() ==> #[trigger] is_digit(s[i])
}

/// The number that the decimal digits `s` spell.
pub open spec fn digits_value(s: Seq<char>) -> nat
    decreases s.len(),
{
    if s.len() == 0 {
        0
    } else {
        digits_value(s.drop_last()) * 10 + digit_value(s.last())
    }
}

/// `s` without one leading `+`.
pub open spec fn unsigned_digits(s: Seq<char>) -> Seq<char> {
    if s.len() > 0 && s[0] == '+' {
        s.drop_first()
    } else {
        s
    }
}

/// What `str::parse::<u64>` accepts: an optional `+`, then one or more
/// decimal digits whose value fits in 64 bits.
pub open spec fn parse_u64(s: Seq<char>) -> Option<u64> {
    let d = unsigned_digits(s);
    if d.len() > 0 && all_digits(d) && digits_value(d) <= u64::MAX {
        Some(digits_value(d) as u64)
    } else {
        None
    }
}

/// What `str::parse::<i32>` accepts: an optional sign, then one or more
/// decimal digits whose signed value fits in 32 bits.
pub open spec fn parse_i32(s: Seq<char>) -> Option<i32> {
    if s.len() > 0 && s[0] == '-' {
        let d = s.drop_first();
        if d.len() > 0 && all_digits(d) && digits_value(d) <= 0x8000_0000 {
            Some((0 - digits_value(d)) as i32)
        } else {
            None
        }
    } else {
        let d = unsigned_digits(s);
        if d.len() > 0 && all_digits(d) && digits_value(d) <= 0x7fff_ffff {
            Some(digits_value(d) as i32)
        } else {
            None
        }
    }
}

/// A prefix of a digit string is worth no more than the whole string.
pub proof fn lemma_prefix_value_le(d: Seq<char>, k: int)
    requires
        all_digits(d),
        0 <= k <= d.len(),
    ensures
        digits_value(d.take(k)) <= digits_value(d),
    decreases d.len(),
{
    if k < d.len() {
        let e = d.drop_last();
        assert(e.take(k) =~= d.take(k));
        assert(all_digits(e)) by {
            assert forall|i: int| 0 <= i < e.len() implies #[trigger] is_digit(e[i]) by {
                assert(is_digit(d[i]));
            }
        }
        lemma_prefix_value_le(e, k);
    } else {
        assert(d.take(k) =~= d);
    }
}

/// Whether `c` is a digit.
pub fn is_digit_char(c: char) -> (b: bool)
    ensures
        b == is_digit(c),
{
    let u = c as u32;
    48 <= u && u <= 57
}

/// The value of the digits `s[start..]` when they are all digits, there is at
/// least one, and the value is at most `limit`.
pub fn digits_at_most(s: &Vec<char>, start: usize, limit: u64) -> (r: Option<u64>)
    requires
        start <= s.len(),
    ensures
        r == (if s@.skip(start as int).len() > 0 && all_digits(s@.skip(start as int))
            && digits_value(s@.skip(start as int)) <= limit {
            Some(digits_value(s@.skip(start as int)) as u64)
        } else {
            None::<u64>
        }),
{
    let ghost d = s@.skip(start as int);
    if start == s.len() {
        return None;
    }
    let mut acc: u64 = 0;
    let mut i = start;
    while i < s.len()
        invariant
            start <= i <= s.len(),
            d == s@.skip(start as int),
            forall|j: int| 0 <= j < i - start ==> #[trigger] is_digit(d[j]),
            acc as nat == digits_value(d.take(i - start)),
            acc <= limit,
        decreases s.len() - i,
    {
        let c = s[i];
        assert(c == d[i - start]);
        if !is_digit_char(c) {
            return None;
        }
        let dv: u64 = (c as u32 - 48) as u64;
        assert(d.take(i - start + 1).drop_last() =~= d.take(i - start));
        assert(d.take(i - start + 1).last() == c);
        let next = match acc.checked_mul(10) {
            Some(m) => m.checked_add(dv),
            None => None,
        };
        match next {
            Some(n) if n <= limit => {
                acc = n;
            },
            _ => {
                proof {
                    if all_digits(d) {
                        lemma_prefix_value_le(d, i - start + 1);
                    }
                }
                return None;
            },
        }
        i = i + 1;
    }
    assert(d.take(i - start) =~= d);
    Some(acc)
}

/// `str::parse::<u64>` on a sequence of characters.
pub fn parse_u64_chars(s: &Vec<char>) -> (r: Option<u64>)
    ensures
        r == parse_u64(s@),
{
    let start: usize = if s.len() > 0 && s[0] == '+' {
        1
    } else {
        0
    };
    assert(unsigned_digits(s@) =~= s@.skip(start as int));
    digits_at_most(s, start, u64::MAX)
}

/// `str::parse::<i32>` on a sequence of characters.
pub fn parse_i32_chars(s: &Vec<char>) -> (r: Option<i32>)
    ensures
        r == parse_i32(s@),
{
    if s.len() > 0 && s[0] == '-' {
        assert(s@.drop_first() =~= s@.skip(1));
        match digits_at_most(s, 1, 0x8000_0000) {
            Some(m) => {
                let v: i64 = 0 - (m as i64);
                Some(v as i32)
            },
            None => None,
        }
    } else {
        let start: usize = if s.len() > 0 && s[0] == '+' {
            1
        } else {
            0
        };
        assert(unsigned_digits(s@) =~= s@.skip(start as int));
        match digits_at_most(s, start, 0x7fff_ffff) {
            Some(m) => Some(m as i32),
            None => None,
        }
    }
}

/// The decimal digit character for `n < 10`.
pub open spec fn digit_char(n: nat) -> char {
    if n == 0 {
        '0'
    } else if n == 1 {
        '1'
    } else if n == 2 {
        '2'
    } else if n == 3 {
        '3'
    } else if n == 4 {
        '4'
    } else if n == 5 {
        '5'
    } else if n == 6 {
        '6'
    } else if n == 7 {
        '7'
    } else if n == 8 {
        '8'
    } else {
        '9'
    }
}

/// The decimal representation of `n`, without leading zeros (as `Display` gives it).
pub open spec fn decimal(n: nat) -> Seq<char>
    decreases n,
{
    if n < 10 {
        seq![digit_char(n)]
    } else {
        decimal(n / 10).push(digit_char(n % 10))
    }
}

/// The decimal representation of a signed number (a `-` before a negative one).
pub open spec fn signed_decimal(n: int) -> Seq<char> {
    if n < 0 {
        seq!['-'] + decimal((0 - n) as nat)
    } else {
        decimal(n as nat)
    }
}

fn digit_char_exec(n: u64) -> (c: char)
    requires
        n < 10,
    ensures
        c == digit_char(n as nat),
{
    if n == 0 {
        '0'
    } else if n == 1 {
        '1'
    } else if n == 2 {
        '2'
    } else if n == 3 {
        '3'
    } else if n == 4 {
        '4'
    } else if n == 5 {
        '5'
    } else if n == 6 {
        '6'
    } else if n == 7 {
        '7'
    } else if n == 8 {
        '8'
    } else {
        '9'
    }
}

/// Appends the decimal representation of `n` to `out`.
pub fn push_decimal(out: &mut String, n: u64)
    ensures
        final(out)@ == old(out)@ + decimal(n as nat),
    decreases n,
{
    if n >= 10 {
        push_decimal(out, n / 10);
    }
    out.push(digit_char_exec(n % 10));
    proof {
        if n >= 10 {
            assert(old(out)@ + decimal(n as nat) =~= old(out)@ + decimal((n / 10) as nat) + seq![
                digit_char((n % 10) as nat),
            ]);
        } else {
            assert(old(out)@ + decimal(n as nat) =~= old(out)@.push(digit_char((n % 10) as nat)));
        }
    }
}

/// Appends the decimal representation of the signed `n` to `out`.
pub fn push_signed_decimal(out: &mut String, n: i64)
    ensures
        final(out)@ == old(out)@ + signed_decimal(n as int),
{
    if n < 0 {
        out.push('-');
        let m: u64 = if n == i64::MIN {
            0x8000_0000_0000_0000u64
        } else {
            (0 - n) as u64
        };
        push_decimal(out, m);
        assert(old(out)@ + signed_decimal(n as int) =~= old(out)@.push('-') + decimal(m as nat));
    } else {
        push_decimal(out, n as u64);
    }
}

/// The decimal representation of `n` as a string.
pub fn decimal_string(n: u64) -> (s: String)
    ensures
        s@ == decimal(n as nat),
{
    let mut s = String::new();
    push_decimal(&mut s, n);
    assert(Seq::<char>::empty() + decimal(n as nat) =~= decimal(n as nat));
    s
}

/// The digits of `decimal(n)` spell `n`.
pub proof fn lemma_decimal_digits(n: nat)
    ensures
        decimal(n).len() > 0,
        all_digits(decimal(n)),
        digits_value(decimal(n)) == n,
        decimal(n)[0] != '+',
        decimal(n)[0] != '-',
    decreases n,
{
    if n >= 10 {
        lemma_decimal_digits(n / 10);
        let d = decimal(n);
        assert(d.drop_last() =~= decimal(n / 10));
        lemma_digit_char((n % 10) as nat);
        assert(d.last() == digit_char((n % 10) as nat));
        assert(n == (n / 10) * 10 + n % 10);
        assert(digits_value(d) == digits_value(d.drop_last()) * 10 + digit_value(d.last()));
        assert forall|i: int| 0 <= i < d.len() implies #[trigger] is_digit(d[i]) by {
            if i < d.len() - 1 {
                assert(d[i] == decimal(n / 10)[i]);
            }
        }
    } else {
        lemma_digit_char(n);
        assert(decimal(n) =~= seq![digit_char(n)]);
        assert(decimal(n).drop_last() =~= Seq::<char>::empty());
        assert(digits_value(Seq::<char>::empty()) == 0);
        assert(digits_value(decimal(n)) == digits_value(decimal(n).drop_last()) * 10 + digit_value(
            decimal(n).last(),
        ));
    }
}

/// The digit characters are digits and are worth their number.
pub proof fn lemma_digit_char(k: nat)
    requires
        k < 10,
    ensures
        is_digit(digit_char(k)),
        digit_value(digit_char(k)) == k,
{
}

/// Reading back the decimal representation of a number gives the number.
pub proof fn lemma_parse_decimal(n: u64)
    ensures
        parse_u64(decimal(n as nat)) == Some(n),
{
    lemma_decimal_digits(n as nat);
    assert(unsigned_digits(decimal(n as nat)) == decimal(n as nat));
}

// ---------------------------------------------------------------------------
// Prefixes, equality
// ---------------------------------------------------------------------------
/// Whether `s` starts with `p`.
pub open spec fn has_prefix(s: Seq<char>, p: Seq<char>) -> bool {
    p.len() <= s.len() && s.take(p.len() as int) == p
}

/// Whether `s` ends with `p`.
pub open spec fn has_suffix(s: Seq<char>, p: Seq<char>) -> bool {
    p.len() <= s.len() && s.skip(s.len() - p.len()) == p
}

/// Whether the two character sequences are equal.
pub fn chars_eq(a: &Vec<char>, b: &Vec<char>) -> (r: bool)
    ensures
        r == (a@ == b@),
{
    if a.len() != b.len() {
        return false;
    }
    let mut i: usize = 0;
    while i < a.len()
        invariant
            a.len() == b.len(),
            i <= a.len(),
            forall|j: int| 0 <= j < i ==> a@[j] == b@[j],
        decreases a.len() - i,
    {
        if a[i] != b[i] {
            return false;
        }
        i = i + 1;
    }
    assert(a@ =~= b@);
    true
}

/// Whether `s` starts with `p`.
pub fn has_prefix_chars(s: &Vec<char>, p: &Vec<char>) -> (r: bool)
    ensures
        r == has_prefix(s@, p@),
{
    if p.len() > s.len() {
        return false;
    }
    let mut i: usize = 0;
    while i < p.len()
        invariant
            p.len() <= s.len(),
            i <= p.len(),
            forall|j: int| 0 <= j < i ==> s@[j] == p@[j],
        decreases p.len() - i,
    {
        if s[i] != p[i] {
            assert(s@.take(p.len() as int)[i as int] != p@[i as int]);
            return false;
        }
        i = i + 1;
    }
    assert(s@.take(p.len() as int) =~= p@);
    true
}

/// Whether `s` ends with `p`.
pub fn has_suffix_chars(s: &Vec<char>, p: &Vec<char>) -> (r: bool)
    ensures
        r == has_suffix(s@, p@),
{
    if p.len() > s.len() {
        return false;
    }
    let off = s.len() - p.len();
    let mut i: usize = 0;
    while i < p.len()
        invariant
            p.len() <= s.len(),
            off == s.len() - p.len(),
            i <= p.len(),
            forall|j: int| 0 <= j < i ==> s@[off + j] == p@[j],
        decreases p.len() - i,
    {
        if s[off + i] != p[i] {
            assert(s@.skip(off as int)[i as int] != p@[i as int]);
            return false;
        }
        i = i + 1;
    }
    assert(s@.skip(off as int) =~= p@);
    true
}

// ---------------------------------------------------------------------------
// Lines
// ---------------------------------------------------------------------------
/// The index of the first line feed in `s`, or its length when there is none.
pub open spec fn newline_at(s: Seq<char>) -> nat
    decreases s.len(),
{
    if s.len() == 0 {
        0
    } else if s[0] == '\n' {
        0
    } else {
        1 + newline_at(s.drop_first())
    }
}

/// A line without the carriage return that ended it.
pub open spec fn strip_cr(line: Seq<char>) -> Seq<char> {
    if line.len() > 0 && line.last() == '\r' {
        line.drop_last()
    } else {
        line
    }
}

/// The lines of `s`, as `str::lines` yields them: split at each `\n`, a
/// `\r` before that `\n` removed, and no empty line after a final `\n`.
pub open spec fn lines(s: Seq<char>) -> Seq<Seq<char>>
    decreases s.len(),
{
    if s.len() == 0 {
        seq![]
    } else {
        let k = newline_at(s);
        if k < s.len() {
            seq![strip_cr(s.take(k as int))] + lines(s.skip(k + 1 as int))
        } else {
            seq![s]
        }
    }
}

proof fn lemma_newline_scan(s: Seq<char>, pos: int, j: int)
    requires
        0 <= pos <= j <= s.len(),
        forall|i: int| pos <= i < j ==> s[i] != '\n',
        j == s.len() || s[j] == '\n',
    ensures
        newline_at(s.skip(pos)) == j - pos,
    decreases j - pos,
{
    if pos < j {
        assert(s.skip(pos).drop_first() =~= s.skip(pos + 1));
        lemma_newline_scan(s, pos + 1, j);
    }
}

/// The index of the first line feed at or after `from` (or the length).
fn find_newline(s: &Vec<char>, from: usize) -> (j: usize)
    requires
        from <= s.len(),
    ensures
        from <= j <= s.len(),
        newline_at(s@.skip(from as int)) == j - from,
{
    let mut j = from;
    while j < s.len() && s[j] != '\n'
        invariant
            from <= j <= s.len(),
            forall|i: int| from <= i < j ==> s@[i] != '\n',
        decreases s.len() - j,
    {
        j = j + 1;
    }
    proof {
        lemma_newline_scan(s@, from as int, j as int);
    }
    j
}

/// The views of a sequence of character vectors.
pub open spec fn views(v: Seq<Vec<char>>) -> Seq<Seq<char>> {
    v.map_values(|x: Vec<char>| x@)
}

/// The lines of `s`, as `str::lines` yields them.
pub fn split_lines(s: &Vec<char>) -> (r: Vec<Vec<char>>)
    ensures
        views(r@) == lines(s@),
{
    let mut out: Vec<Vec<char>> = Vec::new();
    let mut pos: usize = 0;
    assert(s@.skip(0) =~= s@);
    while pos < s.len()
        invariant
            pos <= s.len(),
            lines(s@) == views(out@) + lines(s@.skip(pos as int)),
        decreases s.len() - pos,
    {
        let j = find_newline(s, pos);
        let ghost rest = s@.skip(pos as int);
        if j == s.len() {
            let line = copy_range(s, pos, j);
            assert(rest =~= line@);
            assert(views(out@.push(line)) =~= views(out@).push(line@));
            out.push(line);
            assert(s@.skip(j as int) =~= Seq::<char>::empty());
            assert(lines(rest) == seq![rest]);
            assert(views(out@) + lines(s@.skip(j as int)) =~= views(out@));
            pos = j;
        } else {
            let mut line = copy_range(s, pos, j);
            assert(line@ =~= rest.take(j - pos));
            if line.len() > 0 && line[line.len() - 1] == '\r' {
                line.pop();
                assert(line@ =~= strip_cr(rest.take(j - pos)));
            }
            assert(rest.skip(j - pos + 1) =~= s@.skip(j + 1));
            assert(views(out@.push(line)) =~= views(out@).push(line@));
            out.push(line);
            assert(views(out@) + lines(s@.skip(j + 1)) =~= views(out@.drop_last()) + (seq![
                line@,
            ] + lines(s@.skip(j + 1))));
            pos = j + 1;
        }
    }
    assert(s@.skip(pos as int) =~= Seq::<char>::empty());
    assert(views(out@) + Seq::<Seq<char>>::empty() =~= views(out@));
    out
}

// ---------------------------------------------------------------------------
// Words
// ---------------------------------------------------------------------------
/// The index of the first whitespace character in `s`, or its length.
pub open spec fn space_at(s: Seq<char>) -> nat
    decreases s.len(),
{
    if s.len() == 0 {
        0
    } else if is_space(s[0]) {
        0
    } else {
        1 + space_at(s.drop_first())
    }
}

/// Trimming never lengthens, and leaves no leading whitespace.
pub proof fn lemma_trim_start(s: Seq<char>)
    ensures
        trim_start(s).len() <= s.len(),
        trim_start(s).len() > 0 ==> !is_space(trim_start(s)[0]),
    decreases s.len(),
{
    if s.len() > 0 && is_space(s[0]) {
        lemma_trim_start(s.drop_first());
    }
}

pub proof fn lemma_space_at_le(s: Seq<char>)
    ensures
        space_at(s) <= s.len(),
    decreases s.len(),
{
    if s.len() > 0 && !is_space(s[0]) {
        lemma_space_at_le(s.drop_first());
    }
}

/// The whitespace-separated words of `s`, as `str::split_whitespace` yields them.
pub open spec fn words(s: Seq<char>) -> Seq<Seq<char>>
    decreases s.len(),
{
    let t = trim_start(s);
    if t.len() == 0 {
        seq![]
    } else {
        proof {
            lemma_trim_start(s);
            lemma_space_at_le(t);
        }
        let k = space_at(t);
        seq![t.take(k as int)] + words(t.skip(k as int))
    }
}

proof fn lemma_space_scan(s: Seq<char>, pos: int, j: int)
    requires
        0 <= pos <= j <= s.len(),
        forall|i: int| pos <= i < j ==> !is_space(s[i]),
        j == s.len() || is_space(s[j]),
    ensures
        space_at(s.skip(pos)) == j - pos,
    decreases j - pos,
{
    if pos < j {
        assert(s.skip(pos).drop_first() =~= s.skip(pos + 1));
        lemma_space_scan(s, pos + 1, j);
    }
}

/// The bounds of the first word of `s[from..]`, if there is one.
pub fn next_word(s: &Vec<char>, from: usize) -> (r: Option<(usize, usize)>)
    requires
        from <= s.len(),
    ensures
        r is None ==> words(s@.skip(from as int)).len() == 0,
        r matches Some((a, b)) ==> from <= a < b <= s.len() && words(s@.skip(from as int)) == seq![
            s@.subrange(a as int, b as int),
        ] + words(s@.skip(b as int)),
{
    let a = skip_spaces(s, from);
    if a == s.len() {
        assert(s@.skip(a as int).len() == 0);
        return None;
    }
    let mut b = a;
    while b < s.len() && !is_space_char(s[b])
        invariant
            a <= b <= s.len(),
            forall|i: int| a <= i < b ==> !is_space(s@[i]),
        decreases s.len() - b,
    {
        b = b + 1;
    }
    proof {
        lemma_space_scan(s@, a as int, b as int);
        let t = s@.skip(a as int);
        assert(t.take(b - a) =~= s@.subrange(a as int, b as int));
        assert(t.skip(b - a) =~= s@.skip(b as int));
    }
    Some((a, b))
}

// ---------------------------------------------------------------------------
// Paths
// ---------------------------------------------------------------------------
/// `Path::join` on Unix: an absolute `rel` replaces `base`; otherwise `rel`
/// is appended, with a `/` between unless `base` is empty or already ends in one.
pub open spec fn join_path(base: Seq<char>, rel: Seq<char>) -> Seq<char> {
    if rel.len() > 0 && rel[0] == '/' {
        rel
    } else if base.len() == 0 || base.last() == '/' {
        base + rel
    } else {
        base + seq!['/'] + rel
    }
}

/// `Path::join` on Unix, on path text.
pub fn join(base: &str, rel: &str) -> (p: String)
    ensures
        p@ == join_path(base@, rel@),
{
    let b = chars_of(base);
    let r = chars_of(rel);
    if r.len() > 0 && r[0] == '/' {
        return String::from_str(rel);
    }
    let mut p = String::from_str(base);
    if b.len() > 0 && b[b.len() - 1] != '/' {
        p.push('/');
    }
    p.append(rel);
    p
}

// ---------------------------------------------------------------------------
// Case
// ---------------------------------------------------------------------------
/// What `str::to_uppercase` returns for `s`.
pub uninterp spec fn unicode_uppercase(s: Seq<char>) -> Seq<char>;

/// Calls `str::to_uppercase`, which maps each character to its Unicode
/// uppercase form (one character may become several). Its result is named,
/// not described: the contract says only that it is a function of `s`.
#[verifier::external_body]
pub(crate) fn to_uppercase(s: &str) -> (u: String)
    ensures
        u@ == unicode_uppercase(s@),
{
    s.to_uppercase()
}

// ---------------------------------------------------------------------------
// Facts about trimming
// ---------------------------------------------------------------------------
/// Text that starts and ends with no whitespace is its own trim.
pub proof fn lemma_trim_noop(s: Seq<char>)
    requires
        s.len() > 0 ==> !is_space(s[0]) && !is_space(s.last()),
    ensures
        trim(s) == s,
{
}

/// Trimming the front of a concatenation.
pub proof fn lemma_trim_start_append(s: Seq<char>, t: Seq<char>)
    ensures
        trim_start(s + t) == if trim_start(s).len() > 0 {
            trim_start(s) + t
        } else {
            trim_start(t)
        },
    decreases s.len(),
{
    if s.len() == 0 {
        assert(s + t =~= t);
    } else if is_space(s[0]) {
        assert((s + t).drop_first() =~= s.drop_first() + t);
        lemma_trim_start_append(s.drop_first(), t);
    } else {
        assert((s + t)[0] == s[0]);
    }
}

/// Trimming the back of a concatenation.
pub proof fn lemma_trim_end_prepend(t: Seq<char>, s: Seq<char>)
    ensures
        trim_end(t + s) == if trim_end(s).len() > 0 {
            t + trim_end(s)
        } else {
            trim_end(t)
        },
    decreases s.len(),
{
    if s.len() == 0 {
        assert(t + s =~= t);
    } else if is_space(s.last()) {
        assert((t + s).drop_last() =~= t + s.drop_last());
        lemma_trim_end_prepend(t, s.drop_last());
    } else {
        assert((t + s).last() == s.last());
    }
}

/// Whitespace around a text does not change its trim.
pub proof fn lemma_trim_padded(s: Seq<char>, c: char)
    requires
        is_space(c),
    ensures
        trim(seq![c] + s + seq![c]) == trim(s),
{
    let p = seq![c] + s + seq![c];
    let e = Seq::<char>::empty();
    assert(p.drop_first() =~= s + seq![c]);
    assert(trim_start(p) == trim_start(s + seq![c]));
    lemma_trim_start_append(s, seq![c]);
    assert(seq![c].drop_first() =~= e);
    assert(seq![c].drop_last() =~= e);
    assert(trim_start(seq![c]) == trim_start(e));
    assert(trim_end(seq![c]) == trim_end(e));
    let ts = trim_start(s);
    if ts.len() > 0 {
        lemma_trim_end_prepend(ts, seq![c]);
        assert(trim_end(ts + seq![c]) == trim_end(ts));
    }
}

} // verus!
