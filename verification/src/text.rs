//! Text formats the runtime reads and writes: decimal numbers, whitespace
//! separated lists, and the lines of a `/proc` status file.
use vstd::prelude::*;

verus! {

/// Appends one character to a string (`String::push`).
#[verifier::external_body]
pub(crate) fn push_char(s: &mut String, c: char)
    ensures
        final(s)@ == old(s)@.push(c),
{
    s.push(c)
}

/// The ASCII digit character for a value below ten.
pub open spec fn digit_char(d: nat) -> char {
    ((d + 48) as u32) as char
}

/// Whether `c` is an ASCII decimal digit.
pub open spec fn is_digit(c: char) -> bool {
    '0' <= c && c <= '9'
}

/// The value of an ASCII decimal digit.
pub open spec fn digit_value(c: char) -> nat {
    (c as int - 48) as nat
}

/// The shortest decimal spelling of a natural number.
pub open spec fn decimal(n: nat) -> Seq<char>
    decreases n,
{
    if n < 10 {
        seq![digit_char(n)]
    } else {
        decimal(n / 10).push(digit_char(n % 10))
    }
}

/// The decimal spelling of an integer, with a leading `-` when negative
/// (what `Display` writes for Rust's integer types).
pub open spec fn signed_decimal(n: int) -> Seq<char> {
    if n < 0 {
        seq!['-'] + decimal((-n) as nat)
    } else {
        decimal(n as nat)
    }
}

/// Whether every character of `s` is an ASCII digit.
pub open spec fn all_digits(s: Seq<char>) -> bool {
    forall|i: int| 0 <= i < s.len() ==> is_digit(#[trigger] s[i])
}

/// The value of a run of decimal digits, most significant first.
pub open spec fn digits_value(s: Seq<char>) -> nat
    decreases s.len(),
{
    if s.len() == 0 {
        0
    } else {
        digits_value(s.drop_last()) * 10 + digit_value(s.last())
    }
}

/// What `str::parse::<i32>` accepts and returns: an optional `+` or `-`, then
/// one or more ASCII digits whose signed value fits in an `i32`.
pub open spec fn spec_parse_i32(s: Seq<char>) -> Option<i32> {
    if s.len() == 0 {
        None
    } else {
        let signed = s[0] == '+' || s[0] == '-';
        let digits = if signed { s.drop_first() } else { s };
        if digits.len() == 0 || !all_digits(digits) {
            None
        } else {
            let v: int = if s[0] == '-' {
                -(digits_value(digits) as int)
            } else {
                digits_value(digits) as int
            };
            if i32::MIN <= v <= i32::MAX {
                Some(v as i32)
            } else {
                None
            }
        }
    }
}

fn digit_to_char(d: u64) -> (c: char)
    requires
        d < 10,
    ensures
        c == digit_char(d as nat),
{
    ((d + 48) as u8) as char
}

/// Appends the decimal spelling of `n`.
fn push_decimal(out: &mut String, n: u64)
    ensures
        final(out)@ == old(out)@ + decimal(n as nat),
    decreases n,
{
    if n >= 10 {
        push_decimal(out, n / 10);
    }
    let c = digit_to_char(n % 10);
    push_char(out, c);
    proof {
        assert(decimal(n as nat) == if n < 10 {
            seq![digit_char(n as nat)]
        } else {
            decimal((n / 10) as nat).push(digit_char((n % 10) as nat))
        });
    }
}

/// The decimal spelling of an `i32` (what `format!("{}", n)` writes).
pub fn format_i32(n: i32) -> (s: String)
    ensures
        s@ == signed_decimal(n as int),
{
    let mut s = String::new();
    if n < 0 {
        push_char(&mut s, '-');
        let m: i64 = n as i64;
        push_decimal(&mut s, (0 - m) as u64);
    } else {
        push_decimal(&mut s, n as u64);
    }
    s
}

/// The decimal spelling of a `u32` (what `format!("{}", n)` writes).
pub fn format_u32(n: u32) -> (s: String)
    ensures
        s@ == decimal(n as nat),
{
    let mut s = String::new();
    push_decimal(&mut s, n as u64);
    s
}

proof fn lemma_digits_value_prefix(s: Seq<char>, k: int)
    requires
        0 <= k <= s.len(),
    ensures
        digits_value(s) >= digits_value(s.subrange(0, k)),
    decreases s.len(),
{
    if k < s.len() {
        assert(s.drop_last().subrange(0, k) == s.subrange(0, k));
        lemma_digits_value_prefix(s.drop_last(), k);
    } else {
        assert(s.subrange(0, k) == s);
    }
}

/// Parses a decimal `i32` as `str::parse::<i32>` does; `None` where it fails.
pub fn parse_i32(s: &Vec<char>) -> (r: Option<i32>)
    ensures
        r == spec_parse_i32(s@),
{
    let len = s.len();
    if len == 0 {
        return None;
    }
    let first = s[0];
    let start: usize = if first == '+' || first == '-' {
        1
    } else {
        0
    };
    let ghost digits = if start == 1 {
        s@.drop_first()
    } else {
        s@
    };
    assert(digits == s@.subrange(start as int, len as int));
    if start == len {
        return None;
    }
    let mut acc: u64 = 0;
    let mut i = start;
    while i < len
        invariant
            start <= i <= len,
            len == s@.len(),
            digits == s@.subrange(start as int, len as int),
            len > 0,
            digits == (if s@[0] == '+' || s@[0] == '-' { s@.drop_first() } else { s@ }),
            all_digits(s@.subrange(start as int, i as int)),
            acc == digits_value(s@.subrange(start as int, i as int)),
            acc <= 2147483648,
        decreases len - i,
    {
        let c = s[i];
        if !(c >= '0' && c <= '9') {
            assert(!is_digit(digits[i - start]));
            return None;
        }
        let d = (c as u32 - 48) as u64;
        assert(s@.subrange(start as int, i + 1).drop_last() == s@.subrange(start as int, i as int));
        acc = acc * 10 + d;
        if acc > 2147483648 {
            proof {
                if all_digits(digits) {
                    assert(digits.subrange(0, i + 1 - start) == s@.subrange(start as int, i + 1));
                    lemma_digits_value_prefix(digits, i + 1 - start);
                }
            }
            return None;
        }
        i = i + 1;
    }
    assert(s@.subrange(start as int, len as int) == digits);
    if first == '-' {
        Some((0 - (acc as i64)) as i32)
    } else if acc <= 2147483647 {
        Some(acc as i32)
    } else {
        None
    }
}

/// The characters of a string slice.
pub fn to_chars(s: &str) -> (v: Vec<char>)
    ensures
        v@ == s@,
{
    let n = s.unicode_len();
    let mut v: Vec<char> = Vec::new();
    let mut i: usize = 0;
    while i < n
        invariant
            i <= n,
            n == s@.len(),
            v@ == s@.subrange(0, i as int),
        decreases n - i,
    {
        let c = s.get_char(i);
        v.push(c);
        i = i + 1;
    }
    assert(v@ == s@);
    v
}

/// Whether two character sequences are equal.
pub fn chars_eq(a: &Vec<char>, b: &Vec<char>) -> (r: bool)
    ensures
        r == (a@ == b@),
{
    if a.len() != b.len() {
        return false;
    }
    let mut i: usize = 0;
    while i < a.len()
        invariant
            i <= a@.len(),
            a@.len() == b@.len(),
            a@.subrange(0, i as int) == b@.subrange(0, i as int),
        decreases a@.len() - i,
    {
        if a[i] != b[i] {
            return false;
        }
        assert(a@.subrange(0, i + 1) == a@.subrange(0, i as int).push(a@[i as int]));
        assert(b@.subrange(0, i + 1) == b@.subrange(0, i as int).push(b@[i as int]));
        i = i + 1;
    }
    assert(a@ == a@.subrange(0, i as int));
    assert(b@ == b@.subrange(0, i as int));
    true
}

/// Whether `s` begins with `p`.
pub open spec fn has_prefix(s: Seq<char>, p: Seq<char>) -> bool {
    p.len() <= s.len() && s.subrange(0, p.len() as int) == p
}

/// Whether the characters `s` begin with the characters `p`.
pub fn starts_with(s: &Vec<char>, p: &Vec<char>) -> (r: bool)
    ensures
        r == has_prefix(s@, p@),
{
    if p.len() > s.len() {
        return false;
    }
    let mut i: usize = 0;
    while i < p.len()
        invariant
            i <= p@.len(),
            p@.len() <= s@.len(),
            s@.subrange(0, i as int) == p@.subrange(0, i as int),
        decreases p@.len() - i,
    {
        if s[i] != p[i] {
            assert(s@.subrange(0, p@.len() as int)[i as int] == s@[i as int]);
            return false;
        }
        assert(s@.subrange(0, i + 1) == s@.subrange(0, i as int).push(s@[i as int]));
        assert(p@.subrange(0, i + 1) == p@.subrange(0, i as int).push(p@[i as int]));
        i = i + 1;
    }
    assert(p@ == p@.subrange(0, i as int));
    true
}


proof fn lemma_char_vec_deep_view(v: Vec<char>)
    ensures
        v.deep_view() == v@,
{
    assert(v.deep_view() =~= v@);
}

proof fn lemma_digit_roundtrip(d: nat)
    requires
        d < 10,
    ensures
        is_digit(digit_char(d)),
        digit_value(digit_char(d)) == d,
{
}

proof fn lemma_decimal_digits(n: nat)
    ensures
        decimal(n).len() >= 1,
        all_digits(decimal(n)),
        digits_value(decimal(n)) == n,
    decreases n,
{
    lemma_digit_roundtrip(n % 10);
    if n < 10 {
        assert(decimal(n).drop_last() =~= Seq::<char>::empty());
        assert(digits_value(decimal(n)) == digits_value(Seq::<char>::empty()) * 10 + digit_value(digit_char(n % 10)));
    } else {
        lemma_decimal_digits(n / 10);
        let d = decimal(n / 10);
        assert(decimal(n) == d.push(digit_char(n % 10)));
        assert(decimal(n).drop_last() == d);
        assert(decimal(n).last() == digit_char(n % 10));
        assert(digits_value(decimal(n)) == digits_value(d) * 10 + digit_value(digit_char(n % 10)));
        assert((n / 10) * 10 + n % 10 == n);
        assert forall|i: int| 0 <= i < decimal(n).len() implies is_digit(#[trigger] decimal(n)[i]) by {
            if i < d.len() {
                assert(decimal(n)[i] == d[i]);
            }
        }
    }
}

/// Reading back what `format_i32` writes gives the number again: the decimal
/// spelling of every `i32` parses to itself.
pub proof fn lemma_parse_format_roundtrip(n: i32)
    ensures
        spec_parse_i32(signed_decimal(n as int)) == Some(n),
{
    if n < 0 {
        let m = (-(n as int)) as nat;
        lemma_decimal_digits(m);
        let s = signed_decimal(n as int);
        assert(s == seq!['-'] + decimal(m));
        assert(s.drop_first() == decimal(m));
        assert(s[0] == '-');
    } else {
        lemma_decimal_digits(n as nat);
        let s = decimal(n as nat);
        assert(is_digit(s[0]));
    }
}

/// A leading `+` is accepted: `+` and the decimal spelling of a
/// non-negative `i32` read as that number.
pub proof fn lemma_parse_plus_sign(n: i32)
    requires
        n >= 0,
    ensures
        spec_parse_i32(seq!['+'] + decimal(n as nat)) == Some(n),
{
    lemma_decimal_digits(n as nat);
    let s = seq!['+'] + decimal(n as nat);
    assert(s.drop_first() =~= decimal(n as nat));
}

/// Only digits after an optional sign are read: a text with a character
/// that is no digit past its first, or a first one that is neither a digit
/// nor a sign, is no number; neither is the empty text nor a lone sign.
pub proof fn lemma_parse_rejects_non_digits(s: Seq<char>, k: int)
    requires
        0 <= k < s.len(),
        !is_digit(s[k]),
        k > 0 || (s[0] != '+' && s[0] != '-'),
    ensures
        spec_parse_i32(s) is None,
        spec_parse_i32(Seq::<char>::empty()) is None,
        spec_parse_i32(seq!['+']) is None,
        spec_parse_i32(seq!['-']) is None,
{
    assert(seq!['+'].drop_first().len() == 0);
    assert(seq!['-'].drop_first().len() == 0);
    if s[0] == '+' || s[0] == '-' {
        assert(s.drop_first()[k - 1] == s[k]);
    }
}

/// Unicode White_Space: the characters `char::is_whitespace` accepts.
pub open spec fn is_whitespace(c: char) -> bool {
    ||| c == '\t' || c == '\n' || c == '\u{0B}' || c == '\u{0C}' || c == '\r' || c == ' '
    ||| c == '\u{85}' || c == '\u{A0}' || c == '\u{1680}'
    ||| '\u{2000}' <= c && c <= '\u{200A}'
    ||| c == '\u{2028}' || c == '\u{2029}' || c == '\u{202F}' || c == '\u{205F}' || c == '\u{3000}'
}

/// Whether `c` is a Unicode white-space character.
pub fn is_whitespace_char(c: char) -> (r: bool)
    ensures
        r == is_whitespace(c),
{
    c == '\t' || c == '\n' || c == '\u{0B}' || c == '\u{0C}' || c == '\r' || c == ' '
        || c == '\u{85}' || c == '\u{A0}' || c == '\u{1680}' || ('\u{2000}' <= c && c
        <= '\u{200A}') || c == '\u{2028}' || c == '\u{2029}' || c == '\u{202F}' || c
        == '\u{205F}' || c == '\u{3000}'
}

/// Reading `s` left to right: the finished white-space separated words, and
/// the word still being read.
pub open spec fn word_scan(s: Seq<char>) -> (Seq<Seq<char>>, Seq<char>)
    decreases s.len(),
{
    if s.len() == 0 {
        (seq![], seq![])
    } else {
        let prev = word_scan(s.drop_last());
        let c = s.last();
        if is_whitespace(c) {
            if prev.1.len() > 0 {
                (prev.0.push(prev.1), seq![])
            } else {
                (prev.0, seq![])
            }
        } else {
            (prev.0, prev.1.push(c))
        }
    }
}

/// The non-empty runs of non-white-space characters of `s`, in order
/// (what `str::split_whitespace` yields).
pub open spec fn words(s: Seq<char>) -> Seq<Seq<char>> {
    let scan = word_scan(s);
    if scan.1.len() > 0 {
        scan.0.push(scan.1)
    } else {
        scan.0
    }
}

/// Splits `s` into its white-space separated words.
pub fn split_whitespace(s: &Vec<char>) -> (ws: Vec<Vec<char>>)
    ensures
        ws.deep_view() == words(s@),
{
    let mut done: Vec<Vec<char>> = Vec::new();
    let mut cur: Vec<char> = Vec::new();
    let mut i: usize = 0;
    while i < s.len()
        invariant
            i <= s@.len(),
            (done.deep_view(), cur@) == word_scan(s@.subrange(0, i as int)),
        decreases s@.len() - i,
    {
        let c = s[i];
        let ghost before = done.deep_view();
        assert(s@.subrange(0, i + 1).drop_last() == s@.subrange(0, i as int));
        assert(s@.subrange(0, i + 1).last() == c);
        if is_whitespace_char(c) {
            if cur.len() > 0 {
                let word = cur;
                let ghost wv = word@;
                proof { lemma_char_vec_deep_view(word); }
                done.push(word);
                assert(done.deep_view() =~= before.push(wv));
                cur = Vec::new();
            } else {
                cur = Vec::new();
            }
        } else {
            cur.push(c);
        }
        i = i + 1;
    }
    assert(s@.subrange(0, i as int) == s@);
    if cur.len() > 0 {
        let ghost before = done.deep_view();
        let ghost wv = cur@;
        proof { lemma_char_vec_deep_view(cur); }
        done.push(cur);
        assert(done.deep_view() =~= before.push(wv));
    }
    done
}

/// `s` without one trailing carriage return.
pub open spec fn strip_cr(s: Seq<char>) -> Seq<char> {
    if s.len() > 0 && s.last() == '\r' {
        s.drop_last()
    } else {
        s
    }
}

/// Reading `s` left to right: the finished lines, and the line still being read.
pub open spec fn line_scan(s: Seq<char>) -> (Seq<Seq<char>>, Seq<char>)
    decreases s.len(),
{
    if s.len() == 0 {
        (seq![], seq![])
    } else {
        let prev = line_scan(s.drop_last());
        let c = s.last();
        if c == '\n' {
            (prev.0.push(strip_cr(prev.1)), seq![])
        } else {
            (prev.0, prev.1.push(c))
        }
    }
}

/// The lines of `s` as `str::lines` yields them: split at each `\n`, one `\r`
/// before it removed, and no empty line after a final `\n`.
pub open spec fn lines(s: Seq<char>) -> Seq<Seq<char>> {
    let scan = line_scan(s);
    if scan.1.len() > 0 {
        scan.0.push(scan.1)
    } else {
        scan.0
    }
}

/// Splits `s` into its lines.
pub fn split_lines(s: &Vec<char>) -> (ls: Vec<Vec<char>>)
    ensures
        ls.deep_view() == lines(s@),
{
    let mut done: Vec<Vec<char>> = Vec::new();
    let mut cur: Vec<char> = Vec::new();
    let mut i: usize = 0;
    while i < s.len()
        invariant
            i <= s@.len(),
            (done.deep_view(), cur@) == line_scan(s@.subrange(0, i as int)),
        decreases s@.len() - i,
    {
        let c = s[i];
        let ghost before = done.deep_view();
        assert(s@.subrange(0, i + 1).drop_last() == s@.subrange(0, i as int));
        assert(s@.subrange(0, i + 1).last() == c);
        if c == '\n' {
            let mut line = cur;
            let n = line.len();
            if n > 0 && line[n - 1] == '\r' {
                line.pop();
            }
            let ghost lv = line@;
            proof { lemma_char_vec_deep_view(line); }
            done.push(line);
            assert(done.deep_view() =~= before.push(lv));
            cur = Vec::new();
        } else {
            cur.push(c);
        }
        i = i + 1;
    }
    assert(s@.subrange(0, i as int) == s@);
    if cur.len() > 0 {
        let ghost before = done.deep_view();
        let ghost lv = cur@;
        proof { lemma_char_vec_deep_view(cur); }
        done.push(cur);
        assert(done.deep_view() =~= before.push(lv));
    }
    done
}

/// The first of `ls` that begins with `p`, if any.
pub open spec fn first_with_prefix(ls: Seq<Seq<char>>, p: Seq<char>) -> Option<Seq<char>>
    decreases ls.len(),
{
    if ls.len() == 0 {
        None
    } else if has_prefix(ls[0], p) {
        Some(ls[0])
    } else {
        first_with_prefix(ls.drop_first(), p)
    }
}

/// Finds the position of the first of `ls` that begins with `p`.
pub fn find_with_prefix(ls: &Vec<Vec<char>>, p: &Vec<char>) -> (r: Option<usize>)
    ensures
        match r {
            Some(i) => i < ls@.len() && first_with_prefix(ls.deep_view(), p@) == Some(
                ls.deep_view()[i as int],
            ),
            None => first_with_prefix(ls.deep_view(), p@) is None,
        },
{
    let ghost all = ls.deep_view();
    assert(all.subrange(0, all.len() as int) == all);
    let mut i: usize = 0;
    while i < ls.len()
        invariant
            i <= ls@.len(),
            all == ls.deep_view(),
            all.len() == ls@.len(),
            first_with_prefix(all, p@) == first_with_prefix(all.subrange(i as int, all.len() as int), p@),
        decreases ls@.len() - i,
    {
        let ghost rest = all.subrange(i as int, all.len() as int);
        proof { lemma_char_vec_deep_view(ls@[i as int]); }
        assert(rest[0] == ls@[i as int]@);
        if starts_with(&ls[i], p) {
            return Some(i);
        }
        assert(rest.drop_first() == all.subrange(i + 1, all.len() as int));
        i = i + 1;
    }
    None
}

/// Whether `s` holds no white space.
pub open spec fn no_whitespace(s: Seq<char>) -> bool {
    forall|i: int| 0 <= i < s.len() ==> !is_whitespace(#[trigger] s[i])
}

proof fn lemma_word_scan_no_whitespace(s: Seq<char>)
    requires
        no_whitespace(s),
    ensures
        word_scan(s) == (Seq::<Seq<char>>::empty(), s),
    decreases s.len(),
{
    if s.len() > 0 {
        lemma_word_scan_no_whitespace(s.drop_last());
        assert(!is_whitespace(s[s.len() - 1]));
        assert(s.drop_last().push(s.last()) =~= s);
    }
}

proof fn lemma_word_scan_after_whitespace(s: Seq<char>, c: char, t: Seq<char>)
    requires
        is_whitespace(c),
    ensures
        word_scan(s + seq![c] + t) == (words(s) + word_scan(t).0, word_scan(t).1),
    decreases t.len(),
{
    let u = s + seq![c] + t;
    if t.len() == 0 {
        assert(u.drop_last() =~= s);
        assert(u.last() == c);
        assert(words(s) + Seq::<Seq<char>>::empty() =~= words(s));
    } else {
        lemma_word_scan_after_whitespace(s, c, t.drop_last());
        assert(u.drop_last() =~= s + seq![c] + t.drop_last());
        assert(u.last() == t.last());
        let prev = word_scan(t.drop_last());
        assert((words(s) + prev.0).push(prev.1) =~= words(s) + prev.0.push(prev.1));
    }
}

/// White space separates words: the words of `s`, a white-space character
/// and `t` are the words of `s` followed by those of `t`.
pub proof fn lemma_words_split_at_whitespace(s: Seq<char>, c: char, t: Seq<char>)
    requires
        is_whitespace(c),
    ensures
        words(s + seq![c] + t) == words(s) + words(t),
{
    lemma_word_scan_after_whitespace(s, c, t);
    let scan = word_scan(t);
    assert((words(s) + scan.0).push(scan.1) =~= words(s) + scan.0.push(scan.1));
}

/// A run of characters without white space is a single word, and an empty
/// text has none.
pub proof fn lemma_words_of_one_word(s: Seq<char>)
    requires
        no_whitespace(s),
    ensures
        words(s) == (if s.len() == 0 {
            Seq::<Seq<char>>::empty()
        } else {
            seq![s]
        }),
{
    lemma_word_scan_no_whitespace(s);
    assert(Seq::<Seq<char>>::empty().push(s) =~= seq![s]);
}

proof fn lemma_word_scan_parts(s: Seq<char>)
    ensures
        no_whitespace(word_scan(s).1),
        forall|i: int|
            0 <= i < word_scan(s).0.len() ==> (#[trigger] word_scan(s).0[i]).len() > 0
                && no_whitespace(word_scan(s).0[i]),
    decreases s.len(),
{
    if s.len() > 0 {
        lemma_word_scan_parts(s.drop_last());
        let prev = word_scan(s.drop_last());
        if !is_whitespace(s.last()) {
            let w = prev.1.push(s.last());
            assert forall|i: int| 0 <= i < w.len() implies !is_whitespace(#[trigger] w[i]) by {
                if i < prev.1.len() {
                    assert(w[i] == prev.1[i]);
                }
            }
        }
    }
}

/// Every word is non-empty and holds no white space.
pub proof fn lemma_words_are_nonblank(s: Seq<char>)
    ensures
        forall|i: int|
            0 <= i < words(s).len() ==> (#[trigger] words(s)[i]).len() > 0 && no_whitespace(
                words(s)[i],
            ),
{
    lemma_word_scan_parts(s);
}

/// Whether `s` holds no line break.
pub open spec fn no_newline(s: Seq<char>) -> bool {
    forall|i: int| 0 <= i < s.len() ==> #[trigger] s[i] != '\n'
}

proof fn lemma_line_scan_no_newline(s: Seq<char>)
    requires
        no_newline(s),
    ensures
        line_scan(s) == (Seq::<Seq<char>>::empty(), s),
    decreases s.len(),
{
    if s.len() > 0 {
        lemma_line_scan_no_newline(s.drop_last());
        assert(s[s.len() - 1] != '\n');
        assert(s.drop_last().push(s.last()) =~= s);
    }
}

proof fn lemma_line_scan_after_first_line(s: Seq<char>, t: Seq<char>)
    requires
        no_newline(s),
    ensures
        line_scan(s + seq!['\n'] + t) == (seq![strip_cr(s)] + line_scan(t).0, line_scan(t).1),
    decreases t.len(),
{
    let u = s + seq!['\n'] + t;
    if t.len() == 0 {
        assert(u.drop_last() =~= s);
        assert(u.last() == '\n');
        lemma_line_scan_no_newline(s);
        assert(Seq::<Seq<char>>::empty().push(strip_cr(s)) =~= seq![strip_cr(s)] + Seq::<
            Seq<char>,
        >::empty());
    } else {
        lemma_line_scan_after_first_line(s, t.drop_last());
        assert(u.drop_last() =~= s + seq!['\n'] + t.drop_last());
        assert(u.last() == t.last());
        let prev = line_scan(t.drop_last());
        assert((seq![strip_cr(s)] + prev.0).push(strip_cr(prev.1)) =~= seq![strip_cr(s)]
            + prev.0.push(strip_cr(prev.1)));
    }
}

/// The first line break ends the first line: the lines of `s`, a line break
/// and `t`, where `s` holds no line break, are `s` (without a carriage
/// return at its end) followed by the lines of `t`.
pub proof fn lemma_lines_first_line(s: Seq<char>, t: Seq<char>)
    requires
        no_newline(s),
    ensures
        lines(s + seq!['\n'] + t) == seq![strip_cr(s)] + lines(t),
{
    lemma_line_scan_after_first_line(s, t);
    let scan = line_scan(t);
    assert((seq![strip_cr(s)] + scan.0).push(scan.1) =~= seq![strip_cr(s)] + scan.0.push(scan.1));
}

/// A text without a line break is one line, kept whole, and an empty text
/// has none.
pub proof fn lemma_lines_of_one_line(s: Seq<char>)
    requires
        no_newline(s),
    ensures
        lines(s) == (if s.len() == 0 {
            Seq::<Seq<char>>::empty()
        } else {
            seq![s]
        }),
{
    lemma_line_scan_no_newline(s);
    assert(Seq::<Seq<char>>::empty().push(s) =~= seq![s]);
}

/// The line found is the first with the prefix: it is one of the lines,
/// begins with `p`, and no line before it does; none is found exactly when
/// no line begins with `p`.
pub proof fn lemma_first_with_prefix_is_first(ls: Seq<Seq<char>>, p: Seq<char>)
    ensures
        first_with_prefix(ls, p) matches Some(l) ==> exists|i: int|
            0 <= i < ls.len() && ls[i] == l && has_prefix(l, p) && forall|j: int|
                0 <= j < i ==> !has_prefix(#[trigger] ls[j], p),
        first_with_prefix(ls, p) is None <==> forall|i: int|
            0 <= i < ls.len() ==> !has_prefix(#[trigger] ls[i], p),
    decreases ls.len(),
{
    if ls.len() > 0 {
        let rest = ls.drop_first();
        lemma_first_with_prefix_is_first(rest, p);
        if has_prefix(ls[0], p) {
            assert(ls[0] == ls[0] && has_prefix(ls[0], p));
        } else {
            if first_with_prefix(rest, p) is Some {
                let l = first_with_prefix(rest, p)->Some_0;
                let k = choose|k: int|
                    0 <= k < rest.len() && rest[k] == l && has_prefix(l, p) && forall|j: int|
                        0 <= j < k ==> !has_prefix(#[trigger] rest[j], p);
                assert(ls[k + 1] == l);
                assert forall|j: int| 0 <= j < k + 1 implies !has_prefix(#[trigger] ls[j], p) by {
                    if j > 0 {
                        assert(ls[j] == rest[j - 1]);
                    }
                }
                assert(exists|i: int|
                    0 <= i < ls.len() && ls[i] == l && has_prefix(l, p) && forall|j: int|
                        0 <= j < i ==> !has_prefix(#[trigger] ls[j], p)) by {
                    assert(0 <= k + 1 < ls.len() && ls[k + 1] == l && has_prefix(l, p));
                }
            } else {
                assert forall|i: int| 0 <= i < ls.len() implies !has_prefix(#[trigger] ls[i], p) by {
                    if i > 0 {
                        assert(ls[i] == rest[i - 1]);
                    }
                }
            }
        }
    }
}

/// Whether `name` is one of the white-space separated words of `s`.
pub fn has_word(s: &Vec<char>, name: &Vec<char>) -> (r: bool)
    ensures
        r == words(s@).contains(name@),
{
    let ws = split_whitespace(s);
    let ghost all = ws.deep_view();
    let mut i: usize = 0;
    while i < ws.len()
        invariant
            i <= ws@.len(),
            all == ws.deep_view(),
            all == words(s@),
            forall|j: int| 0 <= j < i ==> all[j] != name@,
        decreases ws@.len() - i,
    {
        proof { lemma_char_vec_deep_view(ws@[i as int]); }
        if chars_eq(&ws[i], name) {
            assert(all[i as int] == name@);
            return true;
        }
        i = i + 1;
    }
    assert(!all.contains(name@)) by {
        if all.contains(name@) {
            let j = choose|j: int| 0 <= j < all.len() && all[j] == name@;
            assert(all[j] != name@);
        }
    }
    false
}


/// Whether a path is absolute (begins at the root `/`).
pub open spec fn is_absolute_path(p: Seq<char>) -> bool {
    p.len() > 0 && p[0] == '/'
}

/// `base` with `p` adjoined, as `Path::join` does on Unix: an absolute `p`
/// replaces `base`; otherwise one `/` separates them unless `base` is empty
/// or already ends with one.
pub open spec fn join_path(base: Seq<char>, p: Seq<char>) -> Seq<char> {
    if is_absolute_path(p) {
        p
    } else if base.len() == 0 || base.last() == '/' {
        base + p
    } else {
        base + seq!['/'] + p
    }
}

/// Whether the path `p` is absolute.
pub fn path_is_absolute(p: &str) -> (r: bool)
    ensures
        r == is_absolute_path(p@),
{
    let n = p.unicode_len();
    n > 0 && p.get_char(0) == '/'
}

/// Adjoins the path `p` to the path `base`.
pub fn path_join(base: &str, p: &str) -> (r: String)
    ensures
        r@ == join_path(base@, p@),
{
    if path_is_absolute(p) {
        return String::from_str(p);
    }
    let mut r = String::from_str(base);
    let n = base.unicode_len();
    if n > 0 && base.get_char(n - 1) == '/' {
        r.append(p);
    } else {
        if n > 0 {
            push_char(&mut r, '/');
        }
        r.append(p);
    }
    r
}

} // verus!
