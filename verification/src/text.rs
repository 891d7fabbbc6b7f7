//! Character-level text utilities: decimal rendering, padding, whitespace
//! trimming, prefixes, ASCII case folding and UTF-8 byte offsets.

use vstd::prelude::*;

verus! {

// ---------------------------------------------------------------------
// Appending to a String
// ---------------------------------------------------------------------

/// `String::push`: appends one character.
/// The contract claims that the string afterwards is the old one followed by `c`.
#[verifier::external_body]
pub(crate) fn push_char(s: &mut String, c: char)
    ensures
        final(s)@ == old(s)@.push(c),
{
    s.push(c);
}

/// Appends a string slice (a thin verified layer over `StringExecFns::append`).
pub fn push_text(dst: &mut String, src: &str)
    ensures
        final(dst)@ == old(dst)@ + src@,
{
    dst.append(src);
}

// ---------------------------------------------------------------------
// Decimal rendering of unsigned integers
// ---------------------------------------------------------------------

/// The ASCII digit for `d` (`d < 10`).
pub open spec fn digit_char(d: nat) -> char {
    (48 + d) as char
}

/// Decimal digits of `n`, most significant first, with no leading zero
/// (zero is rendered as `"0"`).
pub open spec fn decimal(n: nat) -> Seq<char>
    decreases n,
{
    if n < 10 {
        seq![digit_char(n)]
    } else {
        decimal(n / 10).push(digit_char(n % 10))
    }
}

fn digit(d: u64) -> (c: char)
    requires
        d < 10,
    ensures
        c == digit_char(d as nat),
{
    let b: u8 = 48u8 + (d as u8);
    b as char
}

/// Appends the decimal rendering of `n`.
pub fn push_decimal(s: &mut String, n: u64)
    ensures
        final(s)@ == old(s)@ + decimal(n as nat),
    decreases n,
{
    if n >= 10 {
        push_decimal(s, n / 10);
    }
    push_char(s, digit(n % 10));
    proof {
        if n >= 10 {
            assert(decimal(n as nat) == decimal((n / 10) as nat).push(digit_char((n % 10) as nat)));
        }
    }
}

/// The decimal rendering of `n`, as `n.to_string()` gives it.
pub fn decimal_text(n: u64) -> (s: String)
    ensures
        s@ == decimal(n as nat),
{
    let mut s = String::new();
    push_decimal(&mut s, n);
    s
}

// ---------------------------------------------------------------------
// Repetition and padding (width counted in characters, as `format!` does)
// ---------------------------------------------------------------------

/// `k` copies of `c`.
pub open spec fn repeat_char(c: char, k: nat) -> Seq<char> {
    Seq::new(k, |_i: int| c)
}

/// `s` right-aligned in a field of `w` characters (`{:>w}`).
pub open spec fn pad_left(s: Seq<char>, w: nat) -> Seq<char> {
    if s.len() < w {
        repeat_char(' ', (w - s.len()) as nat) + s
    } else {
        s
    }
}

/// `s` left-aligned in a field of `w` characters (`{:<w}`).
pub open spec fn pad_right(s: Seq<char>, w: nat) -> Seq<char> {
    if s.len() < w {
        s + repeat_char(' ', (w - s.len()) as nat)
    } else {
        s
    }
}

/// `repeat_char(c, k)` is `k` characters, each `c`.
pub proof fn lemma_repeat_char(c: char, k: nat)
    ensures
        repeat_char(c, k).len() == k,
        forall|i: int| 0 <= i < k ==> #[trigger] repeat_char(c, k)[i] == c,
{
}

/// A padded field is as wide as the field, or as the text when the text is
/// wider; the text stands at its right (left) end and the rest is spaces.
pub proof fn lemma_padded_width(s: Seq<char>, w: nat)
    ensures
        pad_left(s, w).len() == if s.len() < w { w } else { s.len() },
        pad_right(s, w).len() == if s.len() < w { w } else { s.len() },
        pad_left(s, w).skip(pad_left(s, w).len() - s.len()) == s,
        pad_right(s, w).take(s.len() as int) == s,
        forall|i: int| 0 <= i < pad_left(s, w).len() - s.len() ==> #[trigger] pad_left(s, w)[i] == ' ',
        forall|i: int| s.len() <= i < pad_right(s, w).len() ==> #[trigger] pad_right(s, w)[i] == ' ',
{
    assert(pad_left(s, w).skip(pad_left(s, w).len() - s.len()) =~= s);
    assert(pad_right(s, w).take(s.len() as int) =~= s);
}

/// Appends `k` copies of `c`.
pub fn push_repeat(s: &mut String, c: char, k: usize)
    ensures
        final(s)@ == old(s)@ + repeat_char(c, k as nat),
{
    let ghost start = s@;
    let mut i: usize = 0;
    while i < k
        invariant
            i <= k,
            s@ == start + repeat_char(c, i as nat),
        decreases k - i,
    {
        push_char(s, c);
        i = i + 1;
        assert(s@ =~= start + repeat_char(c, i as nat));
    }
}

/// Appends `src` right-aligned in a field of `w` characters.
pub fn push_pad_left(dst: &mut String, src: &str, w: usize)
    ensures
        final(dst)@ == old(dst)@ + pad_left(src@, w as nat),
{
    let n = src.unicode_len();
    if n < w {
        push_repeat(dst, ' ', w - n);
    }
    push_text(dst, src);
    assert(dst@ =~= old(dst)@ + pad_left(src@, w as nat));
}

/// Appends `src` left-aligned in a field of `w` characters.
pub fn push_pad_right(dst: &mut String, src: &str, w: usize)
    ensures
        final(dst)@ == old(dst)@ + pad_right(src@, w as nat),
{
    let n = src.unicode_len();
    push_text(dst, src);
    if n < w {
        push_repeat(dst, ' ', w - n);
    }
    assert(dst@ =~= old(dst)@ + pad_right(src@, w as nat));
}

// ---------------------------------------------------------------------
// Comparison and prefixes
// ---------------------------------------------------------------------

/// `p` is a prefix of `s`.
pub open spec fn has_prefix(s: Seq<char>, p: Seq<char>) -> bool {
    p.len() <= s.len() && s.take(p.len() as int) == p
}

/// Character-wise equality of two string slices.
pub fn same_text(a: &str, b: &str) -> (r: bool)
    ensures
        r == (a@ == b@),
{
    let n = a.unicode_len();
    if n != b.unicode_len() {
        return false;
    }
    let mut i: usize = 0;
    while i < n
        invariant
            n == a@.len(),
            n == b@.len(),
            i <= n,
            forall|j: int| 0 <= j < i ==> a@[j] == b@[j],
        decreases n - i,
    {
        if a.get_char(i) != b.get_char(i) {
            return false;
        }
        i = i + 1;
    }
    assert(a@ =~= b@);
    true
}

/// Whether `s` starts with `p`.
pub fn starts_with_text(s: &str, p: &str) -> (r: bool)
    ensures
        r == has_prefix(s@, p@),
{
    let n = p.unicode_len();
    if n > s.unicode_len() {
        return false;
    }
    let mut i: usize = 0;
    while i < n
        invariant
            n == p@.len(),
            n <= s@.len(),
            i <= n,
            forall|j: int| 0 <= j < i ==> s@[j] == p@[j],
        decreases n - i,
    {
        if s.get_char(i) != p.get_char(i) {
            assert(s@.take(n as int)[i as int] != p@[i as int]);
            return false;
        }
        i = i + 1;
    }
    assert(s@.take(n as int) =~= p@);
    true
}

/// The characters of `s` from index `from` on, as a new string.
pub fn suffix_from(s: &str, from: usize) -> (r: String)
    requires
        from <= s@.len(),
    ensures
        r@ == s@.skip(from as int),
{
    let n = s.unicode_len();
    let t = s.substring_char(from, n);
    assert(s@.subrange(from as int, n as int) =~= s@.skip(from as int));
    t.to_owned()
}

// ---------------------------------------------------------------------
// Unicode whitespace and trimming (`char::is_whitespace`, `str::trim`)
// ---------------------------------------------------------------------

/// The Unicode `White_Space` property, as `char::is_whitespace` tests it.
pub open spec fn is_white_space(c: char) -> bool {
    let u = c as u32;
    ||| 0x09 <= u <= 0x0d
    ||| u == 0x20
    ||| u == 0x85
    ||| u == 0xa0
    ||| u == 0x1680
    ||| 0x2000 <= u <= 0x200a
    ||| u == 0x2028
    ||| u == 0x2029
    ||| u == 0x202f
    ||| u == 0x205f
    ||| u == 0x3000
}

/// Whether `c` is Unicode whitespace.
pub fn is_whitespace_char(c: char) -> (r: bool)
    ensures
        r == is_white_space(c),
{
    let u = c as u32;
    (0x09 <= u && u <= 0x0d) || u == 0x20 || u == 0x85 || u == 0xa0 || u == 0x1680 || (0x2000
        <= u && u <= 0x200a) || u == 0x2028 || u == 0x2029 || u == 0x202f || u == 0x205f || u
        == 0x3000
}

/// `s` without its leading whitespace.
pub open spec fn trim_start(s: Seq<char>) -> Seq<char>
    decreases s.len(),
{
    if s.len() > 0 && is_white_space(s[0]) {
        trim_start(s.drop_first())
    } else {
        s
    }
}

/// `s` without its trailing whitespace.
pub open spec fn trim_end(s: Seq<char>) -> Seq<char>
    decreases s.len(),
{
    if s.len() > 0 && is_white_space(s.last()) {
        trim_end(s.drop_last())
    } else {
        s
    }
}

/// `s` without leading and trailing whitespace (`str::trim`).
pub open spec fn trim(s: Seq<char>) -> Seq<char> {
    trim_end(trim_start(s))
}

proof fn lemma_trim_start_at(s: Seq<char>, a: int)
    requires
        0 <= a <= s.len(),
        forall|j: int| 0 <= j < a ==> is_white_space(#[trigger] s[j]),
        a == s.len() || !is_white_space(s[a]),
    ensures
        trim_start(s) == s.skip(a),
    decreases a,
{
    if a == 0 {
        assert(s.skip(0) =~= s);
    } else {
        let t = s.drop_first();
        assert forall|j: int| 0 <= j < a - 1 implies is_white_space(#[trigger] t[j]) by {
            assert(t[j] == s[j + 1]);
        }
        lemma_trim_start_at(t, a - 1);
        assert(t.skip(a - 1) =~= s.skip(a));
    }
}

proof fn lemma_trim_end_at(s: Seq<char>, b: int)
    requires
        0 <= b <= s.len(),
        forall|j: int| b <= j < s.len() ==> is_white_space(#[trigger] s[j]),
        b == 0 || !is_white_space(s[b - 1]),
    ensures
        trim_end(s) == s.take(b),
    decreases s.len() - b,
{
    if b == s.len() {
        assert(s.take(b) =~= s);
    } else {
        let t = s.drop_last();
        assert forall|j: int| b <= j < t.len() implies is_white_space(#[trigger] t[j]) by {
            assert(t[j] == s[j]);
        }
        lemma_trim_end_at(t, b);
        assert(t.take(b) =~= s.take(b));
    }
}

/// `trim(s)` is the slice of `s` between the first and after the last
/// non-whitespace character.
pub proof fn lemma_trim_is_slice(s: Seq<char>, a: int, b: int)
    requires
        0 <= a <= b <= s.len(),
        forall|j: int| 0 <= j < a ==> is_white_space(#[trigger] s[j]),
        a == s.len() || !is_white_space(s[a]),
        forall|j: int| b <= j < s.len() ==> is_white_space(#[trigger] s[j]),
        b == a || !is_white_space(s[b - 1]),
    ensures
        trim(s) == s.subrange(a, b),
{
    lemma_trim_start_at(s, a);
    let u = s.skip(a);
    assert forall|j: int| b - a <= j < u.len() implies is_white_space(#[trigger] u[j]) by {
        assert(u[j] == s[a + j]);
    }
    if b > a {
        assert(u[b - a - 1] == s[b - 1]);
    }
    lemma_trim_end_at(u, b - a);
    assert(u.take(b - a) =~= s.subrange(a, b));
}

/// The whitespace-trimmed copy of `s` (`s.trim()`).
pub fn trim_text(s: &str) -> (t: String)
    ensures
        t@ == trim(s@),
{
    let n = s.unicode_len();
    let mut a: usize = 0;
    while a < n && is_whitespace_char(s.get_char(a))
        invariant
            n == s@.len(),
            a <= n,
            forall|j: int| 0 <= j < a ==> is_white_space(#[trigger] s@[j]),
        decreases n - a,
    {
        a = a + 1;
    }
    let mut b: usize = n;
    while b > a && is_whitespace_char(s.get_char(b - 1))
        invariant
            n == s@.len(),
            a <= b <= n,
            forall|j: int| b <= j < n ==> is_white_space(#[trigger] s@[j]),
        decreases b - a,
    {
        b = b - 1;
    }
    proof {
        lemma_trim_is_slice(s@, a as int, b as int);
    }
    let t = s.substring_char(a, b);
    t.to_owned()
}

/// Trimming twice is trimming once.
pub proof fn lemma_trim_idempotent(s: Seq<char>)
    ensures
        trim(trim(s)) == trim(s),
{
    let t = trim(s);
    lemma_trim_shape(s);
    if t.len() == 0 {
        assert(trim_start(t) == t);
    } else {
        assert(!is_white_space(t[0]));
        assert(trim_start(t) == t);
        assert(!is_white_space(t.last()));
    }
}

/// The trimmed text neither starts nor ends with whitespace.
pub proof fn lemma_trim_shape(s: Seq<char>)
    ensures
        trim(s).len() > 0 ==> !is_white_space(trim(s)[0]) && !is_white_space(trim(s).last()),
{
    let a = choose_trim_start(s);
    let b = choose_trim_end(s, a);
    lemma_trim_is_slice(s, a, b);
}

spec fn first_non_ws_from(s: Seq<char>, i: int) -> int
    decreases s.len() - i,
{
    if i >= s.len() || !is_white_space(s[i]) {
        i
    } else {
        first_non_ws_from(s, i + 1)
    }
}

spec fn last_non_ws_end(s: Seq<char>, a: int, b: int) -> int
    decreases b - a,
{
    if b <= a || !is_white_space(s[b - 1]) {
        b
    } else {
        last_non_ws_end(s, a, b - 1)
    }
}

proof fn lemma_first_non_ws_from(s: Seq<char>, i: int)
    requires
        0 <= i <= s.len(),
        forall|j: int| 0 <= j < i ==> is_white_space(#[trigger] s[j]),
    ensures
        i <= first_non_ws_from(s, i) <= s.len(),
        forall|j: int| 0 <= j < first_non_ws_from(s, i) ==> is_white_space(#[trigger] s[j]),
        first_non_ws_from(s, i) == s.len() || !is_white_space(s[first_non_ws_from(s, i)]),
    decreases s.len() - i,
{
    if i < s.len() && is_white_space(s[i]) {
        lemma_first_non_ws_from(s, i + 1);
    }
}

proof fn lemma_last_non_ws_end(s: Seq<char>, a: int, b: int)
    requires
        0 <= a <= b <= s.len(),
        forall|j: int| b <= j < s.len() ==> is_white_space(#[trigger] s[j]),
    ensures
        a <= last_non_ws_end(s, a, b) <= b,
        forall|j: int| last_non_ws_end(s, a, b) <= j < s.len() ==> is_white_space(#[trigger] s[j]),
        last_non_ws_end(s, a, b) == a || !is_white_space(s[last_non_ws_end(s, a, b) - 1]),
    decreases b - a,
{
    if b > a && is_white_space(s[b - 1]) {
        lemma_last_non_ws_end(s, a, b - 1);
    }
}

proof fn choose_trim_start(s: Seq<char>) -> (a: int)
    ensures
        0 <= a <= s.len(),
        forall|j: int| 0 <= j < a ==> is_white_space(#[trigger] s[j]),
        a == s.len() || !is_white_space(s[a]),
{
    lemma_first_non_ws_from(s, 0);
    first_non_ws_from(s, 0)
}

proof fn choose_trim_end(s: Seq<char>, a: int) -> (b: int)
    requires
        0 <= a <= s.len(),
    ensures
        a <= b <= s.len(),
        forall|j: int| b <= j < s.len() ==> is_white_space(#[trigger] s[j]),
        b == a || !is_white_space(s[b - 1]),
{
    lemma_last_non_ws_end(s, a, s.len() as int);
    last_non_ws_end(s, a, s.len() as int)
}

// ---------------------------------------------------------------------
// ASCII case folding (`char::to_ascii_lowercase`, `str::eq_ignore_ascii_case`)
// ---------------------------------------------------------------------

/// `c` with `A`..`Z` mapped to `a`..`z`, every other character unchanged.
pub open spec fn ascii_lower(c: char) -> char {
    if 'A' <= c <= 'Z' {
        ((c as u32) + 32) as char
    } else {
        c
    }
}

/// Every character of `s` is ASCII.
pub open spec fn is_ascii_text(s: Seq<char>) -> bool {
    forall|i: int| 0 <= i < s.len() ==> (#[trigger] s[i] as u32) < 128
}

/// `s` with each character ASCII-lower-cased.
pub open spec fn ascii_lowercase(s: Seq<char>) -> Seq<char> {
    s.map_values(|c: char| ascii_lower(c))
}

/// `a` and `b` are equal up to ASCII case.
pub open spec fn eq_ascii_case(a: Seq<char>, b: Seq<char>) -> bool {
    a.len() == b.len() && forall|i: int| 0 <= i < a.len() ==> ascii_lower(a[i]) == ascii_lower(b[i])
}

fn ascii_lower_char(c: char) -> (r: char)
    ensures
        r == ascii_lower(c),
{
    if 'A' <= c && c <= 'Z' {
        let u: u32 = (c as u32) + 32;
        let b: u8 = u as u8;
        b as char
    } else {
        c
    }
}

/// ASCII case-insensitive equality (`str::eq_ignore_ascii_case`).
pub fn eq_ignore_ascii_case(a: &str, b: &str) -> (r: bool)
    ensures
        r == eq_ascii_case(a@, b@),
{
    let n = a.unicode_len();
    if n != b.unicode_len() {
        return false;
    }
    let mut i: usize = 0;
    while i < n
        invariant
            n == a@.len(),
            n == b@.len(),
            i <= n,
            forall|j: int| 0 <= j < i ==> ascii_lower(a@[j]) == ascii_lower(b@[j]),
        decreases n - i,
    {
        if ascii_lower_char(a.get_char(i)) != ascii_lower_char(b.get_char(i)) {
            return false;
        }
        i = i + 1;
    }
    true
}

// ---------------------------------------------------------------------
// UTF-8 byte offsets
// ---------------------------------------------------------------------

/// Number of bytes that UTF-8 uses for `c`.
pub open spec fn utf8_width(c: char) -> nat {
    let u = c as u32;
    if u < 0x80 {
        1
    } else if u < 0x800 {
        2
    } else if u < 0x10000 {
        3
    } else {
        4
    }
}

/// Number of bytes of the UTF-8 encoding of `s` (what `str::len` returns).
pub open spec fn utf8_len(s: Seq<char>) -> nat
    decreases s.len(),
{
    if s.len() == 0 {
        0
    } else {
        utf8_len(s.drop_last()) + utf8_width(s.last())
    }
}

/// The smaller of `a` and `b`.
pub open spec fn min_nat(a: nat, b: nat) -> nat {
    if a < b {
        a
    } else {
        b
    }
}

/// The byte length of `s`, or `cap` if that is smaller.
pub fn utf8_len_capped(s: &str, cap: usize) -> (r: usize)
    ensures
        r == min_nat(utf8_len(s@), cap as nat),
{
    let n = s.unicode_len();
    let mut i: usize = 0;
    let mut acc: usize = 0;
    assert(s@.take(0) =~= Seq::<char>::empty());
    while i < n
        invariant
            n == s@.len(),
            i <= n,
            acc == min_nat(utf8_len(s@.take(i as int)), cap as nat),
        decreases n - i,
    {
        let w = utf8_width_of(s.get_char(i));
        assert(s@.take(i + 1).drop_last() =~= s@.take(i as int));
        if w >= cap - acc {
            acc = cap;
        } else {
            acc = acc + w;
        }
        i = i + 1;
    }
    assert(s@.take(n as int) =~= s@);
    acc
}

/// The number of characters that make up the first `n` bytes of `s`,
/// when byte `n` is a character boundary; `None` when it is not, or when
/// `s` is shorter than `n` bytes (where `&s[n..]` panics).
pub open spec fn char_count_at_byte(s: Seq<char>, n: int) -> Option<nat>
    decreases s.len(),
{
    if n == 0 {
        Some(0)
    } else if n < 0 || s.len() == 0 {
        None
    } else {
        match char_count_at_byte(s.drop_first(), n - utf8_width(s[0])) {
            Some(k) => Some(k + 1),
            None => None,
        }
    }
}

proof fn lemma_utf8_len_prepend(c: char, t: Seq<char>)
    ensures
        utf8_len(seq![c] + t) == utf8_width(c) + utf8_len(t),
    decreases t.len(),
{
    if t.len() > 0 {
        lemma_utf8_len_prepend(c, t.drop_last());
        assert((seq![c] + t).drop_last() =~= seq![c] + t.drop_last());
        assert((seq![c] + t).last() == t.last());
        assert(utf8_len(seq![c] + t) == utf8_len((seq![c] + t).drop_last()) + utf8_width((seq![c] + t).last()));
        assert(utf8_len(t) == utf8_len(t.drop_last()) + utf8_width(t.last()));
    } else {
        assert(seq![c] + t =~= seq![c]);
        assert(seq![c].drop_last() =~= Seq::<char>::empty());
        assert(seq![c].last() == c);
        assert(utf8_len(Seq::<char>::empty()) == 0);
        assert(utf8_len(seq![c]) == utf8_len(seq![c].drop_last()) + utf8_width(seq![c].last()));
    }
}

/// A byte offset that falls on a character boundary is the UTF-8 length of
/// the characters before it: `char_count_at_byte(s, n) == Some(k)` means the
/// first `k` characters of `s` take exactly `n` bytes.
pub proof fn lemma_char_count_is_byte_length(s: Seq<char>, n: int)
    ensures
        char_count_at_byte(s, n) matches Some(k) ==> k <= s.len() && utf8_len(s.take(k as int)) == n,
    decreases s.len(),
{
    if n != 0 && n > 0 && s.len() > 0 {
        let t = s.drop_first();
        lemma_char_count_is_byte_length(t, n - utf8_width(s[0]));
        if let Some(k) = char_count_at_byte(t, n - utf8_width(s[0])) {
            assert(s.take((k + 1) as int) =~= seq![s[0]] + t.take(k as int));
            lemma_utf8_len_prepend(s[0], t.take(k as int));
        }
    } else if n == 0 {
        assert(s.take(0) =~= Seq::<char>::empty());
    }
}

fn utf8_width_of(c: char) -> (w: usize)
    ensures
        w == utf8_width(c),
{
    let u = c as u32;
    if u < 0x80 {
        1
    } else if u < 0x800 {
        2
    } else if u < 0x10000 {
        3
    } else {
        4
    }
}

proof fn lemma_char_count_step(s: Seq<char>, i: int, n: int, used: int)
    requires
        0 <= i < s.len(),
        char_count_at_byte(s, n) == (match char_count_at_byte(s.skip(i), n - used) {
            Some(k) => Some(k + i as nat),
            None => None::<nat>,
        }),
        n - used != 0,
        n - used >= 0,
    ensures
        char_count_at_byte(s, n) == (match char_count_at_byte(
            s.skip(i + 1),
            n - used - utf8_width(s[i]),
        ) {
            Some(k) => Some(k + (i + 1) as nat),
            None => None::<nat>,
        }),
{
    let t = s.skip(i);
    assert(t.drop_first() =~= s.skip(i + 1));
    assert(t[0] == s[i]);
}

/// The number of characters in the first `n` bytes of `s` (see
/// `char_count_at_byte`).
pub fn chars_in_bytes(s: &str, n: usize) -> (r: Option<usize>)
    ensures
        match r {
            Some(k) => char_count_at_byte(s@, n as int) == Some(k as nat),
            None => char_count_at_byte(s@, n as int) is None,
        },
        r matches Some(k) ==> k <= s@.len(),
{
    let len = s.unicode_len();
    let mut i: usize = 0;
    let mut used: usize = 0;
    assert(s@.skip(0) =~= s@);
    while used < n && i < len
        invariant
            len == s@.len(),
            i <= len,
            used <= n,
            char_count_at_byte(s@, n as int) == (match char_count_at_byte(
                s@.skip(i as int),
                n - used,
            ) {
                Some(k) => Some(k + i as nat),
                None => None::<nat>,
            }),
        decreases len - i,
    {
        let w = utf8_width_of(s.get_char(i));
        proof {
            lemma_char_count_step(s@, i as int, n as int, used as int);
        }
        if w > n - used {
            proof {
                let t = s@.skip(i as int + 1);
                assert(n - used - utf8_width(s@[i as int]) < 0);
                assert(char_count_at_byte(t, n - used - utf8_width(s@[i as int])) is None);
            }
            return None;
        }
        used = used + w;
        i = i + 1;
    }
    if used == n {
        Some(i)
    } else {
        assert(s@.skip(i as int).len() == 0);
        None
    }
}

// ---------------------------------------------------------------------
// Latin-1 decoding of bytes (`b as char`)
// ---------------------------------------------------------------------

/// Each byte taken as the character with the same code point.
pub open spec fn latin1(bytes: Seq<u8>) -> Seq<char> {
    Seq::new(bytes.len(), |i: int| bytes[i] as char)
}

/// Each byte becomes the character with its code point, in order.
pub proof fn lemma_latin1_code_points(bytes: Seq<u8>)
    ensures
        latin1(bytes).len() == bytes.len(),
        forall|i: int| 0 <= i < bytes.len() ==> #[trigger] latin1(bytes)[i] as u32 == bytes[i] as u32,
{
}

/// The string whose characters are the bytes of `bytes`, one for one.
pub fn latin1_text(bytes: &Vec<u8>) -> (s: String)
    ensures
        s@ == latin1(bytes@),
{
    let mut s = String::new();
    let mut i: usize = 0;
    while i < bytes.len()
        invariant
            i <= bytes@.len(),
            s@ == latin1(bytes@.take(i as int)),
        decreases bytes@.len() - i,
    {
        let b: u8 = bytes[i];
        push_char(&mut s, b as char);
        i = i + 1;
        assert(s@ =~= latin1(bytes@.take(i as int)));
    }
    assert(bytes@.take(bytes@.len() as int) =~= bytes@);
    s
}

} // verus!
