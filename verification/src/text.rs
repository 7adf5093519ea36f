//! Text policies shared by every bridge: what may cross a C boundary, the
//! comma-separated lists the bridges and the desktop fakes exchange, and the
//! case-insensitive tokens the fakes read from the environment.

use vstd::prelude::*;

verus! {

/// Text can cross a C boundary only if it holds no NUL character.
pub open spec fn c_compatible(s: Seq<char>) -> bool {
    !s.contains('\0')
}

/// Whether `s` can be handed to a C bridge unchanged (no interior NUL).
pub fn is_c_compatible(s: &str) -> (ok: bool)
    ensures
        ok == c_compatible(s@),
{
    let n = s.unicode_len();
    let mut i: usize = 0;
    while i < n
        invariant
            n == s@.len(),
            i <= n,
            forall|j: int| 0 <= j < i ==> s@[j] != '\0',
        decreases n - i,
    {
        if s.get_char(i) == '\0' {
            assert(s@.contains(s@[i as int]));
            return false;
        }
        i = i + 1;
    }
    true
}

/// Whether two strings hold the same characters.
pub fn str_equals(a: &str, b: &str) -> (eq: bool)
    ensures
        eq == (a@ == b@),
{
    let n = a.unicode_len();
    if n != b.unicode_len() {
        return false;
    }
    let mut i: usize = 0;
    while i < n
        invariant
            n == a@.len(),
            n == b@.len(),
            i <= n,
            forall|j: int| 0 <= j < i ==> a@[j] == b@[j],
        decreases n - i,
    {
        if a.get_char(i) != b.get_char(i) {
            return false;
        }
        i = i + 1;
    }
    assert(a@ =~= b@);
    true
}

/// ASCII lowercasing of one character; every other character is kept.
pub open spec fn ascii_lower(c: char) -> char {
    if 'A' <= c <= 'Z' {
        ((c as u32) + 32) as char
    } else {
        c
    }
}

/// ASCII lowercasing of a whole string.
pub open spec fn ascii_lowercase(s: Seq<char>) -> Seq<char> {
    s.map_values(|c: char| ascii_lower(c))
}

/// Whether `s`, ASCII-lowercased, is exactly `lower`.
pub fn lowercase_equals(s: &str, lower: &str) -> (eq: bool)
    ensures
        eq == (ascii_lowercase(s@) == lower@),
{
    let n = s.unicode_len();
    let m = lower.unicode_len();
    if n != m {
        assert(ascii_lowercase(s@).len() != lower@.len());
        return false;
    }
    let mut i: usize = 0;
    while i < n
        invariant
            n == s@.len(),
            m == lower@.len(),
            n == m,
            i <= n,
            forall|j: int| 0 <= j < i ==> ascii_lower(s@[j]) == lower@[j],
        decreases n - i,
    {
        let c = s.get_char(i);
        let t = lower.get_char(i);
        let same = if c >= 'A' && c <= 'Z' {
            (c as u32) + 32 == (t as u32)
        } else {
            c == t
        };
        if !same {
            assert(ascii_lowercase(s@)[i as int] != lower@[i as int]);
            return false;
        }
        i = i + 1;
    }
    assert(ascii_lowercase(s@) =~= lower@);
    true
}

/// Unicode `White_Space`, the characters trimming removes.
pub open spec fn is_white_space(c: char) -> bool {
    ||| '\u{9}' <= c <= '\u{d}'
    ||| c == ' '
    ||| c == '\u{85}'
    ||| c == '\u{a0}'
    ||| c == '\u{1680}'
    ||| '\u{2000}' <= c <= '\u{200a}'
    ||| c == '\u{2028}'
    ||| c == '\u{2029}'
    ||| c == '\u{202f}'
    ||| c == '\u{205f}'
    ||| c == '\u{3000}'
}

fn white_space(c: char) -> (ws: bool)
    ensures
        ws == is_white_space(c),
{
    (c >= '\u{9}' && c <= '\u{d}') || c == ' ' || c == '\u{85}' || c == '\u{a0}' || c == '\u{1680}'
        || (c >= '\u{2000}' && c <= '\u{200a}') || c == '\u{2028}' || c == '\u{2029}'
        || c == '\u{202f}' || c == '\u{205f}' || c == '\u{3000}'
}

/// `s` without leading white space.
pub open spec fn trim_start(s: Seq<char>) -> Seq<char>
    decreases s.len(),
{
    if s.len() > 0 && is_white_space(s[0]) {
        trim_start(s.drop_first())
    } else {
        s
    }
}

/// `s` without trailing white space.
pub open spec fn trim_end(s: Seq<char>) -> Seq<char>
    decreases s.len(),
{
    if s.len() > 0 && is_white_space(s.last()) {
        trim_end(s.drop_last())
    } else {
        s
    }
}

/// `s` without leading or trailing white space.
pub open spec fn trimmed(s: Seq<char>) -> Seq<char> {
    trim_end(trim_start(s))
}

proof fn lemma_trim_start_skip(s: Seq<char>, a: int)
    requires
        0 <= a <= s.len(),
        forall|j: int| 0 <= j < a ==> is_white_space(s[j]),
    ensures
        trim_start(s) == trim_start(s.subrange(a, s.len() as int)),
    decreases a,
{
    if a > 0 {
        assert(s.drop_first() =~= s.subrange(1, s.len() as int));
        lemma_trim_start_skip(s.drop_first(), a - 1);
        assert(s.drop_first().subrange(a - 1, s.drop_first().len() as int) =~= s.subrange(a, s.len() as int));
    } else {
        assert(s.subrange(0, s.len() as int) =~= s);
    }
}

proof fn lemma_trim_end_skip(s: Seq<char>, b: int)
    requires
        0 <= b <= s.len(),
        forall|j: int| b <= j < s.len() ==> is_white_space(s[j]),
    ensures
        trim_end(s) == trim_end(s.subrange(0, b)),
    decreases s.len() - b,
{
    if b < s.len() {
        lemma_trim_end_skip(s.drop_last(), b);
        assert(s.drop_last().subrange(0, b) =~= s.subrange(0, b));
    } else {
        assert(s.subrange(0, b) =~= s);
    }
}

/// `s` without leading or trailing white space.
pub fn trim(s: &str) -> (t: &str)
    ensures
        t@ == trimmed(s@),
{
    let n = s.unicode_len();
    let mut a: usize = 0;
    while a < n && white_space(s.get_char(a))
        invariant
            n == s@.len(),
            a <= n,
            forall|j: int| 0 <= j < a ==> is_white_space(s@[j]),
        decreases n - a,
    {
        a = a + 1;
    }
    proof {
        lemma_trim_start_skip(s@, a as int);
    }
    let ghost rest = s@.subrange(a as int, n as int);
    assert(trim_start(rest) == rest);
    let mut b: usize = n;
    while b > a && white_space(s.get_char(b - 1))
        invariant
            n == s@.len(),
            a <= b <= n,
            forall|j: int| b <= j < n ==> is_white_space(s@[j]),
        decreases b,
    {
        b = b - 1;
    }
    proof {
        lemma_trim_end_skip(rest, b - a);
        assert(rest.subrange(0, b - a) =~= s@.subrange(a as int, b as int));
        let t = s@.subrange(a as int, b as int);
        if t.len() > 0 {
            assert(t.last() == s@[b - 1]);
        }
    }
    s.substring_char(a, b)
}

/// The pieces of `s` between `sep` characters, as `str::split` yields them:
/// an empty string is one empty piece, and adjacent separators give empty
/// pieces.
pub open spec fn split_on(s: Seq<char>, sep: char) -> Seq<Seq<char>>
    decreases s.len(),
{
    if s.len() == 0 {
        seq![Seq::<char>::empty()]
    } else {
        let rest = split_on(s.drop_last(), sep);
        if s.last() == sep {
            rest.push(Seq::<char>::empty())
        } else {
            rest.update(rest.len() - 1, rest.last().push(s.last()))
        }
    }
}

proof fn lemma_split_nonempty(s: Seq<char>, sep: char)
    ensures
        split_on(s, sep).len() >= 1,
    decreases s.len(),
{
    if s.len() > 0 {
        lemma_split_nonempty(s.drop_last(), sep);
    }
}

/// The pieces of `s` between commas, in order.
pub fn split_commas(s: &str) -> (pieces: Vec<String>)
    ensures
        pieces@.map_values(|p: String| p@) == split_on(s@, ','),
{
    let n = s.unicode_len();
    let mut pieces: Vec<String> = Vec::new();
    let mut start: usize = 0;
    let mut i: usize = 0;
    assert(s@.take(0) =~= Seq::<char>::empty());
    assert(pieces@.map_values(|p: String| p@).push(s@.subrange(0, 0)) =~= seq![Seq::<char>::empty()]);
    while i < n
        invariant
            n == s@.len(),
            start <= i <= n,
            forall|j: int| start <= j < i ==> s@[j] != ',',
            split_on(s@.take(i as int), ',') == pieces@.map_values(|p: String| p@).push(
                s@.subrange(start as int, i as int),
            ),
        decreases n - i,
    {
        let c = s.get_char(i);
        let ghost prefix = s@.take(i + 1);
        assert(prefix.drop_last() =~= s@.take(i as int));
        if c == ',' {
            let piece = String::from_str(s.substring_char(start, i));
            pieces.push(piece);
            start = i + 1;
            assert(s@.subrange(start as int, i + 1) =~= Seq::<char>::empty());
            assert(split_on(prefix, ',') =~= pieces@.map_values(|p: String| p@).push(Seq::<char>::empty()));
        } else {
            proof {
                lemma_split_nonempty(s@.take(i as int), ',');
                assert(s@.subrange(start as int, i + 1) =~= s@.subrange(start as int, i as int).push(c));
                assert(split_on(prefix, ',') =~= pieces@.map_values(|p: String| p@).push(
                    s@.subrange(start as int, i + 1),
                ));
            }
        }
        i = i + 1;
    }
    let last = String::from_str(s.substring_char(start, n));
    pieces.push(last);
    assert(s@.take(n as int) =~= s@);
    assert(pieces@.map_values(|p: String| p@) =~= split_on(s@, ','));
    pieces
}

/// `items` joined with commas between them.
pub open spec fn joined_with_commas(items: Seq<Seq<char>>) -> Seq<char>
    decreases items.len(),
{
    if items.len() == 0 {
        Seq::<char>::empty()
    } else if items.len() == 1 {
        items[0]
    } else {
        joined_with_commas(items.drop_last()) + seq![','] + items.last()
    }
}

/// `items` joined with commas between them.
pub fn join_with_commas(items: &Vec<String>) -> (joined: String)
    ensures
        joined@ == joined_with_commas(items@.map_values(|p: String| p@)),
{
    let mut joined = String::new();
    let mut i: usize = 0;
    while i < items.len()
        invariant
            i <= items@.len(),
            joined@ == joined_with_commas(items@.take(i as int).map_values(|p: String| p@)),
        decreases items@.len() - i,
    {
        let ghost before = items@.take(i as int).map_values(|p: String| p@);
        let ghost after = items@.take(i + 1).map_values(|p: String| p@);
        assert(after.drop_last() =~= before);
        if i > 0 {
            joined.append(",");
        }
        joined.append(items[i].as_str());
        proof {
            reveal_strlit(",");
            if i == 0 {
                assert(joined@ =~= after[0]);
            } else {
                assert(joined@ =~= joined_with_commas(before) + seq![','] + after.last());
            }
        }
        i = i + 1;
    }
    assert(items@.take(items@.len() as int) =~= items@);
    joined
}

} // verus!

verus! {

/// Whether a character is an ASCII decimal digit.
pub open spec fn is_digit(c: char) -> bool {
    '0' <= c <= '9'
}

/// The value of a run of decimal digits.
pub open spec fn digits_value(d: Seq<char>) -> int
    decreases d.len(),
{
    if d.len() == 0 {
        0
    } else {
        10 * digits_value(d.drop_last()) + (d.last() as int - '0' as int)
    }
}

/// The sign of a decimal number and its digits: a leading `-` or `+` is the
/// sign, the rest must be digits.
pub open spec fn sign_and_digits(s: Seq<char>) -> (bool, Seq<char>) {
    if s.len() > 0 && s[0] == '-' {
        (true, s.drop_first())
    } else if s.len() > 0 && s[0] == '+' {
        (false, s.drop_first())
    } else {
        (false, s)
    }
}

/// What `i64`'s decimal parsing gives: an optional sign, at least one digit,
/// nothing else, and a value in range.
pub open spec fn parsed_i64(s: Seq<char>) -> Option<i64> {
    let negative = sign_and_digits(s).0;
    let d = sign_and_digits(s).1;
    let v = if negative { -digits_value(d) } else { digits_value(d) };
    if d.len() > 0 && (forall|i: int| 0 <= i < d.len() ==> is_digit(#[trigger] d[i])) && i64::MIN <= v
        <= i64::MAX {
        Some(v as i64)
    } else {
        None
    }
}

proof fn lemma_digits_grow(d: Seq<char>, k: int)
    requires
        0 <= k <= d.len(),
        forall|i: int| 0 <= i < d.len() ==> is_digit(#[trigger] d[i]),
    ensures
        digits_value(d) >= digits_value(d.take(k)),
        digits_value(d.take(k)) >= 0,
    decreases d.len() - k,
{
    if k < d.len() {
        lemma_digits_grow(d, k + 1);
        assert(d.take(k + 1).drop_last() =~= d.take(k));
    } else {
        assert(d.take(k) =~= d);
    }
    lemma_digits_nonneg(d.take(k));
}

proof fn lemma_digits_nonneg(d: Seq<char>)
    requires
        forall|i: int| 0 <= i < d.len() ==> is_digit(#[trigger] d[i]),
    ensures
        digits_value(d) >= 0,
    decreases d.len(),
{
    if d.len() > 0 {
        lemma_digits_nonneg(d.drop_last());
    }
}

/// Parse a decimal `i64` as `str::parse` does: an optional sign and at least
/// one digit, with no white space, and `None` when out of range.
pub fn parse_i64(s: &str) -> (v: Option<i64>)
    ensures
        v == parsed_i64(s@),
{
    let n = s.unicode_len();
    let mut start: usize = 0;
    let mut negative = false;
    if n > 0 {
        let c = s.get_char(0);
        if c == '-' {
            negative = true;
            start = 1;
        } else if c == '+' {
            start = 1;
        }
    }
    let ghost d = sign_and_digits(s@).1;
    assert(d =~= s@.subrange(start as int, n as int));
    if start == n {
        return None;
    }
    let limit: u128 = if negative { 9223372036854775808 } else { 9223372036854775807 };
    let mut mag: u128 = 0;
    let mut i: usize = start;
    while i < n
        invariant
            n == s@.len(),
            start <= i <= n,
            d == s@.subrange(start as int, n as int),
            d == sign_and_digits(s@).1,
            negative == sign_and_digits(s@).0,
            limit == (if negative { 9223372036854775808u128 } else { 9223372036854775807u128 }),
            mag as int == digits_value(d.take(i - start)),
            mag <= limit,
            forall|j: int| 0 <= j < i - start ==> is_digit(#[trigger] d[j]),
        decreases n - i,
    {
        let c = s.get_char(i);
        if c < '0' || c > '9' {
            assert(!is_digit(d[i - start]));
            assert(!(forall|j: int| 0 <= j < d.len() ==> is_digit(#[trigger] d[j])));
            assert(parsed_i64(s@) is None);
            return None;
        }
        let digit = (c as u32 - '0' as u32) as u128;
        let next = mag * 10 + digit;
        proof {
            assert(d.take(i - start + 1).drop_last() =~= d.take(i - start));
            assert(d[i - start] == c);
            assert(d.take(i - start + 1).last() == c);
            assert(next as int == digits_value(d.take(i - start + 1)));
        }
        if next > limit {
            proof {
                if forall|j: int| 0 <= j < d.len() ==> is_digit(#[trigger] d[j]) {
                    lemma_digits_grow(d, i - start + 1);
                    assert(digits_value(d) > limit);
                }
            }
            assert(parsed_i64(s@) is None);
            return None;
        }
        mag = next;
        i = i + 1;
    }
    assert(d.take(n - start) =~= d);
    if negative {
        if mag == 9223372036854775808 {
            Some(i64::MIN)
        } else {
            Some(-(mag as i64))
        }
    } else {
        Some(mag as i64)
    }
}

} // verus!

verus! {

/// The trimmed, non-empty pieces of a split, in order.
pub open spec fn nonempty_trimmed(pieces: Seq<Seq<char>>) -> Seq<Seq<char>>
    decreases pieces.len(),
{
    if pieces.len() == 0 {
        Seq::<Seq<char>>::empty()
    } else {
        let rest = nonempty_trimmed(pieces.drop_last());
        let t = trimmed(pieces.last());
        if t.len() > 0 {
            rest.push(t)
        } else {
            rest
        }
    }
}

/// The items of a comma-separated list: each piece trimmed, empty pieces
/// dropped, in order.
pub open spec fn comma_list(s: Seq<char>) -> Seq<Seq<char>> {
    nonempty_trimmed(split_on(s, ','))
}

/// The items of a comma-separated list: each piece trimmed, empty pieces
/// dropped, in order.
pub fn comma_items(s: &str) -> (items: Vec<String>)
    ensures
        items@.map_values(|p: String| p@) == comma_list(s@),
{
    let pieces = split_commas(s);
    let ghost parts = split_on(s@, ',');
    let mut items: Vec<String> = Vec::new();
    let mut k: usize = 0;
    while k < pieces.len()
        invariant
            pieces@.map_values(|p: String| p@) == parts,
            parts == split_on(s@, ','),
            k <= pieces@.len(),
            items@.map_values(|p: String| p@) == nonempty_trimmed(parts.take(k as int)),
        decreases pieces@.len() - k,
    {
        assert(pieces@[k as int]@ == parts[k as int]);
        assert(parts.take(k + 1).drop_last() =~= parts.take(k as int));
        let t = trim(pieces[k].as_str());
        if t.unicode_len() > 0 {
            items.push(String::from_str(t));
        }
        assert(items@.map_values(|p: String| p@) =~= nonempty_trimmed(parts.take(k + 1)));
        k = k + 1;
    }
    assert(parts.take(pieces@.len() as int) =~= parts);
    items
}

} // verus!
