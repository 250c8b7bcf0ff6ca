//! Plain text as sequences of characters: decimal numbers, whitespace, lines, fields.

use vstd::prelude::*;
use vstd::std_specs::iter::IteratorSpec;

verus! {

/// Taken on trust of `String::push` of the standard library, which appends the given
/// character to the end of the string: the text afterwards is the text before with `c`
/// behind it.
pub assume_specification[ String::push ](s: &mut String, c: char)
    ensures
        final(s)@ == old(s)@.push(c),
;

/// The characters of `s`, in order.
pub fn to_chars(s: &str) -> (v: Vec<char>)
    ensures
        v@ == s@,
{
    broadcast use vstd::string::group_string_axioms;

    let mut v: Vec<char> = Vec::new();
    for c in it: s.chars()
        invariant
            it.seq() == s@,
            v@ == it.seq().take(it.index()),
    {
        v.push(c);
    }
    v
}

/// The character that stands for the decimal digit `d`.
pub open spec fn digit_char(d: nat) -> char
    recommends
        d < 10,
{
    ((d + 48) as u8) as char
}

/// The decimal numeral of `n`, without sign or leading zeros.
pub open spec fn decimal(n: nat) -> Seq<char>
    decreases n,
{
    if n < 10 {
        seq![digit_char(n)]
    } else {
        decimal(n / 10).push(digit_char(n % 10))
    }
}

/// Appends the decimal numeral of `n` to `s`.
pub fn push_decimal(s: &mut String, n: u64)
    ensures
        final(s)@ == old(s)@ + decimal(n as nat),
    decreases n,
{
    if n >= 10 {
        push_decimal(s, n / 10);
    }
    let d: u8 = (n % 10) as u8;
    s.push((d + 48) as char);
}

/// The decimal numeral of `n` as a string.
pub fn decimal_string(n: u64) -> (r: String)
    ensures
        r@ == decimal(n as nat),
{
    let mut r = String::new();
    push_decimal(&mut r, n);
    r
}

/// No numeral is empty, every character of one is a digit, and the digits spell the
/// number.
pub proof fn lemma_decimal_digits(n: nat)
    ensures
        decimal(n).len() >= 1,
        all_digits(decimal(n)),
        digits_value(decimal(n)) == n,
    decreases n,
{
    if n >= 10 {
        lemma_decimal_digits(n / 10);
        assert(decimal(n).drop_last() == decimal(n / 10));
    } else {
        assert(digits_value(decimal(n).drop_last()) == 0);
    }
}

/// Whether `c` is one of the ten decimal digits.
pub open spec fn is_digit(c: char) -> bool {
    '0' <= c <= '9'
}

/// The number that the digit `c` stands for.
pub open spec fn digit_value(c: char) -> nat
    recommends
        is_digit(c),
{
    (c as u32 - 48) as nat
}

/// Whether every character of `s` is a decimal digit.
pub open spec fn all_digits(s: Seq<char>) -> bool {
    forall|i: int| 0 <= i < s.len() ==> is_digit(#[trigger] s[i])
}

/// The number that the digits of `s` spell, most significant digit first.
pub open spec fn digits_value(s: Seq<char>) -> nat
    decreases s.len(),
{
    if s.len() == 0 {
        0
    } else {
        digits_value(s.drop_last()) * 10 + digit_value(s.last())
    }
}

/// The digits of a numeral: the text itself, without one `+` in front of it.
pub open spec fn numeral_digits(s: Seq<char>) -> Seq<char> {
    if s.len() > 0 && s[0] == '+' {
        s.drop_first()
    } else {
        s
    }
}

/// The number that `s` is the numeral of, where it is one and the number fits a `usize`:
/// an optional `+`, then one digit or more, nothing else.
pub open spec fn parsed_usize(s: Seq<char>) -> Option<usize> {
    let d = numeral_digits(s);
    if d.len() > 0 && all_digits(d) && digits_value(d) <= usize::MAX {
        Some(digits_value(d) as usize)
    } else {
        None
    }
}

/// A text spells at least what any of its beginnings spells.
pub proof fn lemma_digits_value_prefix(s: Seq<char>, k: int)
    requires
        0 <= k <= s.len(),
    ensures
        digits_value(s.take(k)) <= digits_value(s),
    decreases s.len() - k,
{
    if k < s.len() {
        lemma_digits_value_prefix(s, k + 1);
        assert(s.take(k + 1).drop_last() == s.take(k));
    } else {
        assert(s.take(k) == s);
    }
}

/// Reads `v` as the numeral of a `usize`.
pub fn parse_usize(v: &Vec<char>) -> (r: Option<usize>)
    ensures
        r == parsed_usize(v@),
{
    let n = v.len();
    let start: usize = if n > 0 && v[0] == '+' {
        1
    } else {
        0
    };
    if start == n {
        return None;
    }
    let ghost d = numeral_digits(v@);
    let mut acc: usize = 0;
    let mut i: usize = start;
    while i < n
        invariant
            start <= i <= n,
            n == v.len(),
            d == v@.skip(start as int),
            d == numeral_digits(v@),
            all_digits(d.take(i - start)),
            acc == digits_value(d.take(i - start)),
        decreases n - i,
    {
        let c = v[i];
        assert(d[i - start] == c);
        if !('0' <= c && c <= '9') {
            return None;
        }
        let dv: usize = (c as u32 - 48) as usize;
        proof {
            assert(d.take(i + 1 - start).drop_last() == d.take(i - start));
            lemma_digits_value_prefix(d, i + 1 - start);
        }
        let tens = match acc.checked_mul(10) {
            Some(t) => t,
            None => {
                return None;
            },
        };
        let next = match tens.checked_add(dv) {
            Some(t) => t,
            None => {
                return None;
            },
        };
        acc = next;
        i = i + 1;
    }
    assert(d.take(n - start) == d);
    Some(acc)
}

/// Whether `c` is white space, as `char::is_whitespace` has it.
pub open spec fn is_space(c: char) -> bool {
    ||| c == ' '
    ||| '\u{9}' <= c <= '\u{d}'
    ||| c == '\u{85}'
    ||| c == '\u{a0}'
    ||| c == '\u{1680}'
    ||| '\u{2000}' <= c <= '\u{200a}'
    ||| c == '\u{2028}'
    ||| c == '\u{2029}'
    ||| c == '\u{202f}'
    ||| c == '\u{205f}'
    ||| c == '\u{3000}'
}

/// Tells whether `c` is white space.
pub fn is_space_char(c: char) -> (r: bool)
    ensures
        r == is_space(c),
{
    c == ' ' || ('\u{9}' <= c && c <= '\u{d}') || c == '\u{85}' || c == '\u{a0}' || c
        == '\u{1680}' || ('\u{2000}' <= c && c <= '\u{200a}') || c == '\u{2028}' || c
        == '\u{2029}' || c == '\u{202f}' || c == '\u{205f}' || c == '\u{3000}'
}

/// `s` without the white space at its beginning.
pub open spec fn trim_start(s: Seq<char>) -> Seq<char>
    decreases s.len(),
{
    if s.len() > 0 && is_space(s.first()) {
        trim_start(s.drop_first())
    } else {
        s
    }
}

/// `s` without the white space at its end.
pub open spec fn trim_end(s: Seq<char>) -> Seq<char>
    decreases s.len(),
{
    if s.len() > 0 && is_space(s.last()) {
        trim_end(s.drop_last())
    } else {
        s
    }
}

/// `s` without the white space at either end.
pub open spec fn trimmed(s: Seq<char>) -> Seq<char> {
    trim_end(trim_start(s))
}

/// The characters of `v` from index `from` up to, not including, index `to`.
pub(crate) fn copy_range(v: &Vec<char>, from: usize, to: usize) -> (r: Vec<char>)
    requires
        from <= to <= v.len(),
    ensures
        r@ == v@.subrange(from as int, to as int),
{
    let mut r: Vec<char> = Vec::new();
    let mut i: usize = from;
    while i < to
        invariant
            from <= i <= to <= v.len(),
            r@ == v@.subrange(from as int, i as int),
        decreases to - i,
    {
        r.push(v[i]);
        i = i + 1;
    }
    r
}

/// `v` without the white space at either end.
pub fn trim(v: &Vec<char>) -> (r: Vec<char>)
    ensures
        r@ == trimmed(v@),
{
    let n = v.len();
    let mut a: usize = 0;
    assert(v@.skip(0) == v@);
    while a < n && is_space_char(v[a])
        invariant
            a <= n,
            n == v.len(),
            trim_start(v@) == trim_start(v@.skip(a as int)),
        decreases n - a,
    {
        assert(v@.skip(a as int).drop_first() == v@.skip(a + 1));
        a = a + 1;
    }
    let mut b: usize = n;
    while b > a && is_space_char(v[b - 1])
        invariant
            a <= b <= n,
            n == v.len(),
            trim_end(v@.skip(a as int)) == trim_end(v@.subrange(a as int, b as int)),
        decreases b - a,
    {
        assert(v@.subrange(a as int, b as int).drop_last() == v@.subrange(a as int, b - 1));
        b = b - 1;
    }
    copy_range(v, a, b)
}

/// The index of the first `c` in `s`, or the length of `s` where it holds none.
pub open spec fn index_of(s: Seq<char>, c: char) -> int
    decreases s.len(),
{
    if s.len() == 0 || s.first() == c {
        0
    } else {
        1 + index_of(s.drop_first(), c)
    }
}

/// `index_of` points at the first `c`, or behind the text.
pub proof fn lemma_index_of(s: Seq<char>, c: char)
    ensures
        0 <= index_of(s, c) <= s.len(),
        index_of(s, c) < s.len() ==> s[index_of(s, c)] == c,
        forall|j: int| 0 <= j < index_of(s, c) ==> s[j] != c,
    decreases s.len(),
{
    if s.len() > 0 && s.first() != c {
        let t = s.drop_first();
        lemma_index_of(t, c);
        assert forall|j: int| 0 <= j < index_of(s, c) implies s[j] != c by {
            if j > 0 {
                assert(s[j] == t[j - 1]);
            }
        }
    }
}

/// The index of the first `c` in `v` at or behind `from`, or the length of `v`.
pub(crate) fn find_char(v: &Vec<char>, from: usize, c: char) -> (r: usize)
    requires
        from <= v.len(),
    ensures
        r == from + index_of(v@.skip(from as int), c),
        from <= r <= v.len(),
{
    let n = v.len();
    let mut j: usize = from;
    proof {
        lemma_index_of(v@.skip(from as int), c);
    }
    while j < n && v[j] != c
        invariant
            from <= j <= n,
            n == v.len(),
            from + index_of(v@.skip(from as int), c) == j + index_of(v@.skip(j as int), c),
        decreases n - j,
    {
        assert(v@.skip(j as int).drop_first() == v@.skip(j + 1));
        j = j + 1;
    }
    proof {
        lemma_index_of(v@.skip(j as int), c);
    }
    j
}

/// The pieces of `s` between the occurrences of `sep`, as `str::split` gives them.
pub open spec fn fields(s: Seq<char>, sep: char) -> Seq<Seq<char>>
    decreases s.len(),
{
    let k = index_of(s, sep);
    if 0 <= k < s.len() {
        seq![s.take(k)] + fields(s.skip(k + 1), sep)
    } else {
        seq![s]
    }
}

/// `l` without one carriage return at its end.
pub open spec fn strip_cr(l: Seq<char>) -> Seq<char> {
    if l.len() > 0 && l.last() == '\r' {
        l.drop_last()
    } else {
        l
    }
}

/// The lines of `s`, as `str::lines` gives them: each ends at a line feed, which is left
/// out together with a carriage return before it; what follows the last line feed is a
/// line too, unless it is empty.
pub open spec fn lines(s: Seq<char>) -> Seq<Seq<char>>
    decreases s.len(),
{
    let k = index_of(s, '\n');
    if s.len() == 0 {
        Seq::empty()
    } else if 0 <= k < s.len() {
        seq![strip_cr(s.take(k))] + lines(s.skip(k + 1))
    } else {
        seq![s]
    }
}

/// The texts that a list of character vectors holds.
pub open spec fn texts(r: Seq<Vec<char>>) -> Seq<Seq<char>> {
    r.map_values(|l: Vec<char>| l@)
}

/// Splits `v` at each `sep`.
pub fn split_fields(v: &Vec<char>, sep: char) -> (r: Vec<Vec<char>>)
    ensures
        texts(r@) == fields(v@, sep),
{
    let n = v.len();
    let mut r: Vec<Vec<char>> = Vec::new();
    let mut pos: usize = 0;
    assert(v@.skip(0) == v@);
    loop
        invariant_except_break
            pos <= n,
            n == v.len(),
            fields(v@, sep) == texts(r@) + fields(v@.skip(pos as int), sep),
        ensures
            texts(r@) == fields(v@, sep),
        decreases n - pos,
    {
        let ghost rest = v@.skip(pos as int);
        let k = find_char(v, pos, sep);
        let piece = copy_range(v, pos, k);
        assert(piece@ == rest.take(k - pos));
        r.push(piece);
        if k == n {
            break ;
        }
        assert(rest.skip(k - pos + 1) == v@.skip(k + 1));
        pos = k + 1;
    }
    r
}

/// Splits `v` into its lines.
pub fn split_lines(v: &Vec<char>) -> (r: Vec<Vec<char>>)
    ensures
        texts(r@) == lines(v@),
{
    let n = v.len();
    let mut r: Vec<Vec<char>> = Vec::new();
    let mut pos: usize = 0;
    assert(v@.skip(0) == v@);
    while pos < n
        invariant
            pos <= n,
            n == v.len(),
            lines(v@) == texts(r@) + lines(v@.skip(pos as int)),
        decreases n - pos,
    {
        let ghost rest = v@.skip(pos as int);
        let k = find_char(v, pos, '\n');
        let end: usize = if k < n && k > pos && v[k - 1] == '\r' {
            k - 1
        } else {
            k
        };
        let piece = copy_range(v, pos, end);
        proof {
            if k < n {
                assert(piece@ == strip_cr(rest.take(k - pos)));
                assert(rest.skip(k - pos + 1) == v@.skip(k + 1));
            }
        }
        r.push(piece);
        if k == n {
            pos = n;
        } else {
            pos = k + 1;
        }
    }
    r
}

/// Whether `pat` stands in `s` at index `i`.
pub open spec fn occurs_at(s: Seq<char>, pat: Seq<char>, i: int) -> bool {
    0 <= i && i + pat.len() <= s.len() && s.subrange(i, i + pat.len()) == pat
}

/// Whether `pat` stands somewhere in `s`.
pub open spec fn contains_text(s: Seq<char>, pat: Seq<char>) -> bool {
    exists|i: int| occurs_at(s, pat, i)
}

/// Tells whether `pat` stands in `v` at index `i`.
pub fn matches_at(v: &Vec<char>, pat: &Vec<char>, i: usize) -> (r: bool)
    ensures
        r == occurs_at(v@, pat@, i as int),
{
    let n = v.len();
    let m = pat.len();
    if m > n || i > n - m {
        return false;
    }
    let mut j: usize = 0;
    while j < m
        invariant
            j <= m,
            m == pat.len(),
            n == v.len(),
            i + m <= n,
            v@.subrange(i as int, i + j) == pat@.take(j as int),
        decreases m - j,
    {
        if v[i + j] != pat[j] {
            return false;
        }
        j = j + 1;
    }
    assert(pat@.take(m as int) == pat@);
    true
}

/// Tells whether `pat` stands somewhere in `v`.
pub fn contains(v: &Vec<char>, pat: &Vec<char>) -> (r: bool)
    ensures
        r == contains_text(v@, pat@),
{
    let n = v.len();
    let m = pat.len();
    if m > n {
        return false;
    }
    let last: usize = n - m;
    let mut i: usize = 0;
    while i < last
        invariant
            i <= last,
            last == n - m,
            m == pat.len(),
            n == v.len(),
            forall|k: int| 0 <= k < i ==> !occurs_at(v@, pat@, k),
        decreases last - i,
    {
        if matches_at(v, pat, i) {
            return true;
        }
        i = i + 1;
    }
    matches_at(v, pat, last)
}

/// Tells whether `a` and `b` hold the same text.
pub fn same_text(a: &Vec<char>, b: &Vec<char>) -> (r: bool)
    ensures
        r == (a@ == b@),
{
    if a.len() != b.len() {
        return false;
    }
    let r = matches_at(a, b, 0);
    proof {
        assert(a@.subrange(0, a.len() as int) == a@);
    }
    r
}

/// The texts of `parts` in order, with `sep` between each two, as `join` gives them.
pub open spec fn joined(parts: Seq<Seq<char>>, sep: Seq<char>) -> Seq<char>
    decreases parts.len(),
{
    if parts.len() == 0 {
        Seq::empty()
    } else if parts.len() == 1 {
        parts[0]
    } else {
        joined(parts.drop_last(), sep) + sep + parts.last()
    }
}

/// The texts that a list of strings holds.
pub open spec fn string_texts(r: Seq<String>) -> Seq<Seq<char>> {
    r.map_values(|l: String| l@)
}

/// Joins `parts` with `sep` between each two.
pub fn join(parts: &Vec<String>, sep: &str) -> (r: String)
    ensures
        r@ == joined(string_texts(parts@), sep@),
{
    let n = parts.len();
    let mut r = String::new();
    let mut i: usize = 0;
    let ghost all = string_texts(parts@);
    while i < n
        invariant
            i <= n,
            n == parts.len(),
            all == string_texts(parts@),
            r@ == joined(all.take(i as int), sep@),
        decreases n - i,
    {
        proof {
            assert(all.take(i + 1).drop_last() == all.take(i as int));
        }
        if i > 0 {
            r.append(sep);
        }
        r.append(parts[i].as_str());
        i = i + 1;
    }
    assert(all.take(n as int) == all);
    r
}

/// The index of the first line of `ls` that is `target`, or the length of `ls` where
/// none is.
pub open spec fn first_equal(ls: Seq<Seq<char>>, target: Seq<char>) -> int
    decreases ls.len(),
{
    if ls.len() == 0 || ls.first() == target {
        0
    } else {
        1 + first_equal(ls.drop_first(), target)
    }
}

/// The index of the first line of `ls` in which `pat` stands, or the length of `ls`
/// where it stands in none.
pub open spec fn first_containing(ls: Seq<Seq<char>>, pat: Seq<char>) -> int
    decreases ls.len(),
{
    if ls.len() == 0 || contains_text(ls.first(), pat) {
        0
    } else {
        1 + first_containing(ls.drop_first(), pat)
    }
}

/// Finds the first line at or behind index `from` that is `target`.
pub(crate) fn find_line(ls: &Vec<Vec<char>>, from: usize, target: &Vec<char>) -> (r: usize)
    requires
        from <= ls.len(),
    ensures
        from <= r <= ls.len(),
        r == from + first_equal(texts(ls@).skip(from as int), target@),
{
    let n = ls.len();
    let mut i: usize = from;
    while i < n && !same_text(&ls[i], target)
        invariant
            from <= i <= n,
            n == ls.len(),
            from + first_equal(texts(ls@).skip(from as int), target@) == i + first_equal(
                texts(ls@).skip(i as int),
                target@,
            ),
        decreases n - i,
    {
        assert(texts(ls@).skip(i as int).drop_first() == texts(ls@).skip(i + 1));
        i = i + 1;
    }
    i
}

/// Finds the first line at or behind index `from` in which `pat` stands.
pub(crate) fn find_line_containing(ls: &Vec<Vec<char>>, from: usize, pat: &Vec<char>) -> (r: usize)
    requires
        from <= ls.len(),
    ensures
        from <= r <= ls.len(),
        r == from + first_containing(texts(ls@).skip(from as int), pat@),
{
    let n = ls.len();
    let mut i: usize = from;
    while i < n && !contains(&ls[i], pat)
        invariant
            from <= i <= n,
            n == ls.len(),
            from + first_containing(texts(ls@).skip(from as int), pat@) == i + first_containing(
                texts(ls@).skip(i as int),
                pat@,
            ),
        decreases n - i,
    {
        assert(texts(ls@).skip(i as int).drop_first() == texts(ls@).skip(i + 1));
        i = i + 1;
    }
    i
}

/// Whether the text `s` ends with the text `tail`.
pub open spec fn ends_with(s: Seq<char>, tail: Seq<char>) -> bool {
    tail.len() <= s.len() && s.subrange(s.len() - tail.len(), s.len() as int) == tail
}

/// The name `stem` with the number `i` behind it, a dot between the two.
pub open spec fn numbered(stem: Seq<char>, i: nat) -> Seq<char> {
    stem + seq!['.'] + decimal(i)
}

/// Writes the name `stem` with the number `i` behind it.
pub fn numbered_string(stem: &str, i: usize) -> (r: String)
    ensures
        r@ == numbered(stem@, i as nat),
{
    let mut r = String::new();
    r.append(stem);
    r.push('.');
    push_decimal(&mut r, i as u64);
    r
}

/// Numbered names with different numbers are different names, whatever their stems.
pub proof fn lemma_numbered_differ(a: Seq<char>, i: nat, b: Seq<char>, j: nat)
    requires
        i != j,
    ensures
        numbered(a, i) != numbered(b, j),
{
    let x = numbered(a, i);
    let y = numbered(b, j);
    let di = decimal(i);
    let dj = decimal(j);
    lemma_decimal_digits(i);
    lemma_decimal_digits(j);
    if x == y {
        let n = x.len() as int;
        if di.len() < dj.len() {
            let p = n - di.len() - 1;
            assert(x[p] == '.');
            assert(y[p] == dj[dj.len() - di.len() - 1]);
        } else if dj.len() < di.len() {
            let p = n - dj.len() - 1;
            assert(y[p] == '.');
            assert(x[p] == di[di.len() - dj.len() - 1]);
        } else {
            assert(di =~= x.subrange(n - di.len(), n));
            assert(dj =~= y.subrange(n - dj.len(), n));
        }
    }
}

/// Whether the text `s` does not end with a digit. No numbered name does.
pub open spec fn ends_plainly(s: Seq<char>) -> bool {
    s.len() == 0 || !is_digit(s.last())
}

/// A numbered name ends with a digit, so a name that does not is no numbered name.
pub proof fn lemma_plain_is_not_numbered(s: Seq<char>, stem: Seq<char>, i: nat)
    requires
        ends_plainly(s),
    ensures
        s != numbered(stem, i),
{
    lemma_decimal_digits(i);
    let d = decimal(i);
    assert(numbered(stem, i).last() == d[d.len() - 1]);
}

/// The numeral of two is the digit two.
pub proof fn lemma_decimal_two()
    ensures
        decimal(2) == seq!['2'],
{
    assert(decimal(2) =~= seq!['2']);
}

/// A name that ends neither with a digit nor with a dot is no numbered name when a
/// `2` is put behind it.
pub proof fn lemma_suffixed_is_not_numbered(s: Seq<char>, stem: Seq<char>, i: nat)
    requires
        s.len() > 0,
        !is_digit(s.last()),
        s.last() != '.',
    ensures
        s + seq!['2'] != numbered(stem, i),
{
    lemma_decimal_digits(i);
    let d = decimal(i);
    let x = s + seq!['2'];
    let y = numbered(stem, i);
    if x == y {
        let n = x.len() as int;
        if d.len() >= 2 {
            assert(y[n - 2] == d[d.len() - 2]);
        } else {
            assert(y[n - 2] == '.');
        }
        assert(x[n - 2] == s.last());
    }
}

/// Two numbered names with the same number are the same name only where their stems
/// are the same.
pub proof fn lemma_numbered_same_number(a: Seq<char>, b: Seq<char>, i: nat)
    requires
        numbered(a, i) == numbered(b, i),
    ensures
        a == b,
{
    let x = numbered(a, i);
    let y = numbered(b, i);
    assert(x.len() == a.len() + 1 + decimal(i).len());
    assert(y.len() == b.len() + 1 + decimal(i).len());
    assert(a.len() == b.len());
    assert(a =~= x.subrange(0, a.len() as int));
    assert(b =~= y.subrange(0, b.len() as int));
}

/// Whether one of the names before name `i` is the same as name `i`.
pub open spec fn taken_before(names: Seq<Seq<char>>, i: int) -> bool {
    exists|j: int| 0 <= j < i && #[trigger] names[j] == names[i]
}

/// Name `i` made its holder's own: the name itself, unless one of the names before it
/// is the same; then the place of the name is put behind it.
pub open spec fn own_name(names: Seq<Seq<char>>, i: int) -> Seq<char> {
    if taken_before(names, i) {
        numbered(names[i], i as nat)
    } else {
        names[i]
    }
}

/// Names that differ stay as they are.
pub proof fn lemma_own_names_stay(names: Seq<Seq<char>>, i: int)
    requires
        0 <= i < names.len(),
        forall|j: int| 0 <= j < i ==> #[trigger] names[j] != names[i],
    ensures
        own_name(names, i) == names[i],
{
}

/// No two holders have the same own name, where no name ends with a digit.
pub proof fn lemma_own_names_differ(names: Seq<Seq<char>>, i: int, j: int)
    requires
        0 <= i < names.len(),
        0 <= j < names.len(),
        i != j,
        forall|k: int| 0 <= k < names.len() ==> ends_plainly(#[trigger] names[k]),
    ensures
        own_name(names, i) != own_name(names, j),
{
    if taken_before(names, i) && taken_before(names, j) {
        lemma_numbered_differ(names[i], i as nat, names[j], j as nat);
    } else if taken_before(names, i) {
        assert(ends_plainly(names[j]));
        lemma_plain_is_not_numbered(names[j], names[i], i as nat);
    } else if taken_before(names, j) {
        assert(ends_plainly(names[i]));
        lemma_plain_is_not_numbered(names[i], names[j], j as nat);
    } else if i < j {
        assert(names[i] != names[j]);
    } else {
        assert(names[j] != names[i]);
    }
}

/// Tells whether one of the names before name `i` is the same as name `i`.
pub fn is_taken_before(names: &Vec<String>, i: usize) -> (r: bool)
    ensures
        i < names.len() ==> r == taken_before(string_texts(names@), i as int),
        i >= names.len() ==> !r,
{
    if i >= names.len() {
        return false;
    }
    let ghost all = string_texts(names@);
    let mut j: usize = 0;
    while j < i
        invariant
            j <= i < names.len(),
            all == string_texts(names@),
            forall|k: int| 0 <= k < j ==> #[trigger] all[k] != all[i as int],
        decreases i - j,
    {
        if names[j] == names[i] {
            assert(all[j as int] == all[i as int]);
            return true;
        }
        j = j + 1;
    }
    false
}

/// Makes every name its holder's own.
pub fn own_names(names: &Vec<String>) -> (r: Vec<String>)
    ensures
        r.len() == names.len(),
        string_texts(r@) == Seq::new(
            names@.len(),
            |i: int| own_name(string_texts(names@), i),
        ),
{
    let n = names.len();
    let ghost all = Seq::new(names@.len(), |i: int| own_name(string_texts(names@), i));
    let mut r: Vec<String> = Vec::new();
    let mut i: usize = 0;
    while i < n
        invariant
            i <= n,
            n == names.len(),
            all == Seq::new(names@.len(), |i: int| own_name(string_texts(names@), i)),
            r.len() == i,
            string_texts(r@) == all.take(i as int),
        decreases n - i,
    {
        let name = if is_taken_before(names, i) {
            numbered_string(names[i].as_str(), i)
        } else {
            names[i].clone()
        };
        r.push(name);
        assert(string_texts(r@) =~= all.take(i as int).push(all[i as int]));
        assert(all.take(i + 1) =~= all.take(i as int).push(all[i as int]));
        i = i + 1;
    }
    assert(all.take(n as int) == all);
    r
}

} // verus!
