//! Character-level text operations shared by the forum modules.
use vstd::prelude::*;

verus! {

/// Unicode `White_Space` code points (the set that `str::trim` removes).
pub open spec fn is_ws(c: char) -> bool {
    let u = c as u32;
    ||| (0x09 <= u && u <= 0x0D)
    ||| u == 0x20
    ||| u == 0x85
    ||| u == 0xA0
    ||| u == 0x1680
    ||| (0x2000 <= u && u <= 0x200A)
    ||| u == 0x2028
    ||| u == 0x2029
    ||| u == 0x202F
    ||| u == 0x205F
    ||| u == 0x3000
}

/// The text without its leading white space.
pub open spec fn trim_front(s: Seq<char>) -> Seq<char>
    decreases s.len(),
{
    if s.len() > 0 && is_ws(s[0]) {
        trim_front(s.drop_first())
    } else {
        s
    }
}

/// The text without its trailing white space.
pub open spec fn trim_back(s: Seq<char>) -> Seq<char>
    decreases s.len(),
{
    if s.len() > 0 && is_ws(s.last()) {
        trim_back(s.drop_last())
    } else {
        s
    }
}

/// The text without leading and trailing white space.
pub open spec fn trim(s: Seq<char>) -> Seq<char> {
    trim_back(trim_front(s))
}

proof fn lemma_trim_front_shape(s: Seq<char>)
    ensures
        trim_front(s).len() == 0 || !is_ws(trim_front(s)[0]),
    decreases s.len(),
{
    if s.len() > 0 && is_ws(s[0]) {
        lemma_trim_front_shape(s.drop_first());
    }
}

proof fn lemma_trim_back_shape(s: Seq<char>)
    ensures
        trim_back(s).len() == 0 || !is_ws(trim_back(s).last()),
        trim_back(s).len() <= s.len(),
        trim_back(s) == s.take(trim_back(s).len() as int),
    decreases s.len(),
{
    if s.len() > 0 && is_ws(s.last()) {
        lemma_trim_back_shape(s.drop_last());
        let t = trim_back(s.drop_last());
        assert(s.drop_last().take(t.len() as int) =~= s.take(t.len() as int));
    } else {
        assert(s.take(s.len() as int) =~= s);
    }
}

/// Trimming a trimmed text leaves it as it is.
pub proof fn lemma_trim_idempotent(s: Seq<char>)
    ensures
        trim(trim(s)) == trim(s),
{
    let u = trim_front(s);
    lemma_trim_front_shape(s);
    lemma_trim_back_shape(u);
    let v = trim_back(u);
    if v.len() > 0 {
        assert(v[0] == u[0]);
        assert(trim_front(v) == v);
        assert(trim_back(v) == v);
    } else {
        assert(trim_front(v) == v);
        assert(trim_back(v) == v);
    }
}

/// The ASCII lower-case form of a letter; other characters are kept.
pub open spec fn ascii_lower(c: char) -> char {
    if 'A' <= c && c <= 'Z' {
        ((c as u32) + 32) as char
    } else {
        c
    }
}

/// Whether every character of a text is ASCII.
pub open spec fn is_ascii_text(s: Seq<char>) -> bool {
    forall|i: int| 0 <= i < s.len() ==> (#[trigger] s[i] as u32) < 128
}

/// A text with each ASCII capital letter lower-cased and every other character kept.
pub open spec fn ascii_lower_text(s: Seq<char>) -> Seq<char> {
    s.map_values(|c: char| ascii_lower(c))
}

/// Whether a text has no white space at either end.
pub open spec fn is_trimmed(s: Seq<char>) -> bool {
    s.len() == 0 || (!is_ws(s[0]) && !is_ws(s.last()))
}

/// A trimmed text has no white space at either end.
pub proof fn lemma_trim_is_trimmed(s: Seq<char>)
    ensures
        is_trimmed(trim(s)),
{
    let u = trim_front(s);
    lemma_trim_front_shape(s);
    lemma_trim_back_shape(u);
    let v = trim_back(u);
    if v.len() > 0 {
        assert(v[0] == u[0]);
    }
}

/// Trimming a text with no white space at either end leaves it as it is.
pub proof fn lemma_trimmed_fixed(s: Seq<char>)
    requires
        is_trimmed(s),
    ensures
        trim(s) == s,
{
    assert(trim_front(s) == s);
    assert(trim_back(s) == s);
}

/// The ASCII lower-casing of an ASCII letter is a lower-case ASCII letter, and of any other
/// character the character itself.
pub proof fn lemma_ascii_lower_char(c: char)
    ensures
        (c as u32) < 128 ==> (ascii_lower(c) as u32) < 128,
        ascii_lower(ascii_lower(c)) == ascii_lower(c),
        is_ws(ascii_lower(c)) == is_ws(c),
{
    if 'A' <= c && c <= 'Z' {
        let d = ((c as u32) + 32) as char;
        assert(97 <= (d as u32) <= 122);
        assert(!('A' <= d && d <= 'Z'));
    }
}

/// ASCII lower-casing an ASCII text with no white space at either end gives an ASCII text
/// with no white space at either end, which ASCII lower-casing and trimming leave as it is.
pub proof fn lemma_ascii_lower_settles(s: Seq<char>)
    requires
        is_ascii_text(s),
        is_trimmed(s),
    ensures
        is_ascii_text(ascii_lower_text(s)),
        is_trimmed(ascii_lower_text(s)),
        ascii_lower_text(ascii_lower_text(s)) == ascii_lower_text(s),
        trim(ascii_lower_text(s)) == ascii_lower_text(s),
{
    let l = ascii_lower_text(s);
    assert forall|i: int| 0 <= i < l.len() implies (#[trigger] l[i] as u32) < 128
        && ascii_lower(l[i]) == l[i] && is_ws(l[i]) == is_ws(s[i]) by {
        lemma_ascii_lower_char(s[i]);
    }
    assert(ascii_lower_text(l) =~= l);
    if s.len() > 0 {
        assert(l.last() == l[l.len() - 1]);
    }
    lemma_trimmed_fixed(l);
}

proof fn lemma_trim_front_empty(s: Seq<char>)
    ensures
        trim_front(s).len() == 0 <==> forall|i: int| 0 <= i < s.len() ==> is_ws(#[trigger] s[i]),
    decreases s.len(),
{
    if s.len() > 0 && is_ws(s[0]) {
        let d = s.drop_first();
        lemma_trim_front_empty(d);
        assert forall|i: int| 0 <= i < d.len() implies #[trigger] d[i] == s[i + 1] by {}
        if forall|i: int| 0 <= i < d.len() ==> is_ws(#[trigger] d[i]) {
            assert forall|i: int| 0 <= i < s.len() implies is_ws(#[trigger] s[i]) by {
                if i > 0 {
                    assert(d[i - 1] == s[i]);
                }
            }
        }
    }
}

/// A text is empty once trimmed exactly when every character of it is white space.
pub proof fn lemma_trim_empty_iff_blank(s: Seq<char>)
    ensures
        trim(s).len() == 0 <==> forall|i: int| 0 <= i < s.len() ==> is_ws(#[trigger] s[i]),
{
    lemma_trim_front_empty(s);
    lemma_trim_is_trimmed(s);
    let u = trim_front(s);
    lemma_trim_front_shape(s);
    if u.len() > 0 {
        lemma_trim_back_shape(u);
        if trim_back(u).len() == 0 {
            assert(trim_back(u) == trim(s));
            lemma_trim_back_all_ws(u);
            assert(is_ws(u[0]));
        }
    } else {
        assert(trim_back(u) == u);
    }
}

proof fn lemma_trim_back_all_ws(s: Seq<char>)
    requires
        trim_back(s).len() == 0,
    ensures
        forall|i: int| 0 <= i < s.len() ==> is_ws(#[trigger] s[i]),
    decreases s.len(),
{
    if s.len() > 0 {
        assert(is_ws(s.last()));
        let d = s.drop_last();
        lemma_trim_back_all_ws(d);
        assert forall|i: int| 0 <= i < s.len() implies is_ws(#[trigger] s[i]) by {
            if i < s.len() - 1 {
                assert(d[i] == s[i]);
            }
        }
    }
}

/// Whether a character is white space (see `is_ws`).
pub fn char_is_ws(c: char) -> (b: bool)
    ensures
        b == is_ws(c),
{
    let u: u32 = c as u32;
    (0x09 <= u && u <= 0x0D) || u == 0x20 || u == 0x85 || u == 0xA0 || u == 0x1680 || (0x2000
        <= u && u <= 0x200A) || u == 0x2028 || u == 0x2029 || u == 0x202F || u == 0x205F || u
        == 0x3000
}

proof fn lemma_trim_front_at(s: Seq<char>, i: int)
    requires
        0 <= i <= s.len(),
        forall|k: int| 0 <= k < i ==> is_ws(#[trigger] s[k]),
        i == s.len() || !is_ws(s[i]),
    ensures
        trim_front(s) == s.subrange(i, s.len() as int),
    decreases i,
{
    if i == 0 {
        assert(s.subrange(0, s.len() as int) =~= s);
    } else {
        let t = s.drop_first();
        assert forall|k: int| 0 <= k < i - 1 implies is_ws(#[trigger] t[k]) by {
            assert(t[k] == s[k + 1]);
        }
        lemma_trim_front_at(t, i - 1);
        assert(t.subrange(i - 1, t.len() as int) =~= s.subrange(i, s.len() as int));
    }
}

proof fn lemma_trim_back_at(s: Seq<char>, j: int)
    requires
        0 <= j <= s.len(),
        forall|k: int| j <= k < s.len() ==> is_ws(#[trigger] s[k]),
        j == 0 || !is_ws(s[j - 1]),
    ensures
        trim_back(s) == s.subrange(0, j),
    decreases s.len() - j,
{
    if j == s.len() {
        assert(s.subrange(0, j) =~= s);
    } else {
        let t = s.drop_last();
        assert forall|k: int| j <= k < t.len() implies is_ws(#[trigger] t[k]) by {
            assert(t[k] == s[k]);
        }
        lemma_trim_back_at(t, j);
        assert(t.subrange(0, j) =~= s.subrange(0, j));
    }
}

/// Bounds `(start, end)` of the trimmed text inside `s`.
pub fn trim_bounds(s: &Vec<char>) -> (r: (usize, usize))
    ensures
        r.0 <= r.1 <= s.len(),
        trim(s@) == s@.subrange(r.0 as int, r.1 as int),
{
    let n: usize = s.len();
    let mut i: usize = 0;
    while i < n && char_is_ws(s[i])
        invariant
            n == s.len(),
            i <= n,
            forall|k: int| 0 <= k < i ==> is_ws(#[trigger] s@[k]),
        decreases n - i,
    {
        i = i + 1;
    }
    proof {
        lemma_trim_front_at(s@, i as int);
    }
    let ghost front = s@.subrange(i as int, n as int);
    let mut j: usize = n;
    while j > i && char_is_ws(s[j - 1])
        invariant
            n == s.len(),
            i <= j <= n,
            forall|k: int| j <= k < n ==> is_ws(#[trigger] s@[k]),
        decreases j,
    {
        j = j - 1;
    }
    proof {
        assert forall|k: int| (j - i) <= k < front.len() implies is_ws(#[trigger] front[k]) by {
            assert(front[k] == s@[k + i]);
        }
        if j > i {
            assert(front[j - i - 1] == s@[j - 1]);
        }
        lemma_trim_back_at(front, j - i);
        assert(front.subrange(0, j - i) =~= s@.subrange(i as int, j as int));
    }
    (i, j)
}

/// The characters of a string slice.
pub fn chars_of(s: &str) -> (v: Vec<char>)
    ensures
        v@ == s@,
{
    let mut v: Vec<char> = Vec::new();
    for c in it: s.chars()
        invariant
            v@ == it.seq().take(it.index() as int),
            it.seq() == s@,
    {
        v.push(c);
    }
    v
}


/// Owned copy of a string slice.
pub fn owned(s: &str) -> (r: String)
    ensures
        r@ == s@,
{
    s.to_owned()
}

/// The concatenation of two strings.
pub fn concat_str(a: &str, b: &str) -> (r: String)
    ensures
        r@ == a@ + b@,
{
    let mut v: Vec<char> = Vec::new();
    extend_str(&mut v, a);
    extend_str(&mut v, b);
    crate::bridge::string_from_chars(&v)
}

/// Whether a string is empty once trimmed.
pub fn is_blank(s: &str) -> (b: bool)
    ensures
        b == (trim(s@).len() == 0),
{
    let v = chars_of(s);
    let (a, e) = trim_bounds(&v);
    a == e
}

/// The number of characters of a string.
pub fn char_count(s: &str) -> (n: usize)
    ensures
        n == s@.len(),
{
    chars_of(s).len()
}

/// The message of a validation result: `None` when it passed.
pub open spec fn outcome(r: Result<(), String>) -> Option<Seq<char>> {
    match r {
        Ok(_) => None,
        Err(e) => Some(e@),
    }
}

/// View of an optional string.
pub open spec fn opt_view(o: Option<String>) -> Option<Seq<char>> {
    match o {
        Some(s) => Some(s@),
        None => None,
    }
}

/// Trimmed copy of a string.
pub fn trim_str(s: &str) -> (r: String)
    ensures
        r@ == trim(s@),
{
    let v = chars_of(s);
    let (a, b) = trim_bounds(&v);
    let w = sub_chars(&v, a, b);
    crate::bridge::string_from_chars(&w)
}

/// Copy of `v[a..b]`.
pub fn sub_chars(v: &Vec<char>, a: usize, b: usize) -> (w: Vec<char>)
    requires
        a <= b <= v.len(),
    ensures
        w@ == v@.subrange(a as int, b as int),
{
    let mut w: Vec<char> = Vec::new();
    let mut i: usize = a;
    while i < b
        invariant
            a <= i <= b <= v.len(),
            w@ == v@.subrange(a as int, i as int),
        decreases b - i,
    {
        w.push(v[i]);
        i = i + 1;
    }
    w
}

/// Whether `needle` occurs in `hay` at position `i`.
pub open spec fn occurs_at(hay: Seq<char>, needle: Seq<char>, i: int) -> bool {
    0 <= i && i + needle.len() <= hay.len() && hay.subrange(i, i + needle.len()) == needle
}

/// Whether `needle` occurs as a contiguous run of characters of `hay`.
pub open spec fn contains_seq(hay: Seq<char>, needle: Seq<char>) -> bool {
    exists|i: int| occurs_at(hay, needle, i)
}

fn matches_at(hay: &Vec<char>, needle: &Vec<char>, i: usize) -> (b: bool)
    requires
        i + needle.len() <= hay.len(),
    ensures
        b == occurs_at(hay@, needle@, i as int),
{
    let m: usize = needle.len();
    let mut k: usize = 0;
    while k < m
        invariant
            m == needle.len(),
            i + m <= hay.len(),
            k <= m,
            forall|t: int| 0 <= t < k ==> hay@[i + t] == needle@[t],
        decreases m - k,
    {
        if hay[i + k] != needle[k] {
            assert(hay@.subrange(i as int, i + m)[k as int] != needle@[k as int]);
            return false;
        }
        k = k + 1;
    }
    assert(hay@.subrange(i as int, i + m) =~= needle@);
    true
}

/// First position at which `needle` occurs in `hay`.
pub fn find_chars(hay: &Vec<char>, needle: &Vec<char>) -> (r: Option<usize>)
    ensures
        r matches Some(i) ==> occurs_at(hay@, needle@, i as int) && forall|j: int|
            0 <= j < i ==> !occurs_at(hay@, needle@, j),
        r is None ==> !contains_seq(hay@, needle@),
{
    let n: usize = hay.len();
    let m: usize = needle.len();
    if m > n {
        return None;
    }
    let last: usize = n - m;
    let mut i: usize = 0;
    while i <= last
        invariant
            n == hay.len(),
            m == needle.len(),
            last == n - m,
            i <= last + 1,
            forall|j: int| 0 <= j < i ==> !occurs_at(hay@, needle@, j),
        decreases last + 1 - i,
    {
        if matches_at(hay, needle, i) {
            return Some(i);
        }
        if i == last {
            assert forall|j: int| !occurs_at(hay@, needle@, j) by {
                if 0 <= j < i {
                } else if j > last {
                }
            }
            return None;
        }
        i = i + 1;
    }
    None
}

/// `needle` occurs in `hay`.
pub fn contains_chars(hay: &Vec<char>, needle: &Vec<char>) -> (b: bool)
    ensures
        b == contains_seq(hay@, needle@),
{
    find_chars(hay, needle).is_some()
}

/// Character equality of two texts.
pub fn chars_eq(a: &Vec<char>, b: &Vec<char>) -> (r: bool)
    ensures
        r == (a@ == b@),
{
    if a.len() != b.len() {
        return false;
    }
    let mut i: usize = 0;
    while i < a.len()
        invariant
            a.len() == b.len(),
            i <= a.len(),
            forall|k: int| 0 <= k < i ==> a@[k] == b@[k],
        decreases a.len() - i,
    {
        if a[i] != b[i] {
            return false;
        }
        i = i + 1;
    }
    assert(a@ =~= b@);
    true
}

/// Character equality of a string and a string slice.
pub fn str_eq(a: &str, b: &str) -> (r: bool)
    ensures
        r == (a@ == b@),
{
    chars_eq(&chars_of(a), &chars_of(b))
}

pub open spec fn is_ascii_digit(c: char) -> bool {
    '0' <= c && c <= '9'
}

pub open spec fn is_ascii_alnum(c: char) -> bool {
    ||| ('0' <= c && c <= '9')
    ||| ('a' <= c && c <= 'z')
    ||| ('A' <= c && c <= 'Z')
}

pub open spec fn is_ascii_hex(c: char) -> bool {
    ||| ('0' <= c && c <= '9')
    ||| ('a' <= c && c <= 'f')
    ||| ('A' <= c && c <= 'F')
}

/// Whether a character is an ASCII letter or digit.
pub fn char_is_ascii_alnum(c: char) -> (b: bool)
    ensures
        b == is_ascii_alnum(c),
{
    ('0' <= c && c <= '9') || ('a' <= c && c <= 'z') || ('A' <= c && c <= 'Z')
}

/// Whether a character is an ASCII hexadecimal digit.
pub fn char_is_ascii_hex(c: char) -> (b: bool)
    ensures
        b == is_ascii_hex(c),
{
    ('0' <= c && c <= '9') || ('a' <= c && c <= 'f') || ('A' <= c && c <= 'F')
}

/// The digit character for a value below sixteen (lower-case hexadecimal).
pub open spec fn hex_digit(d: nat) -> char {
    if d < 10 {
        ((d + 48) as u32) as char
    } else {
        ((d + 87) as u32) as char
    }
}

/// A decimal digit character has the code of `0` plus its value.
pub proof fn lemma_hex_digit_code(d: nat)
    requires
        d < 10,
    ensures
        is_ascii_digit(hex_digit(d)),
        (hex_digit(d) as u32) as nat == d + 48,
{
}

/// Decimal representation of a natural number.
pub open spec fn dec(n: nat) -> Seq<char>
    decreases n,
{
    if n < 10 {
        seq![hex_digit(n)]
    } else {
        dec(n / 10).push(hex_digit(n % 10))
    }
}

/// Lower-case hexadecimal representation of a natural number, without leading zeros.
pub open spec fn hex(n: nat) -> Seq<char>
    decreases n,
{
    if n < 16 {
        seq![hex_digit(n)]
    } else {
        hex(n / 16).push(hex_digit(n % 16))
    }
}

/// Decimal representation of a signed integer.
pub open spec fn dec_int(n: int) -> Seq<char> {
    if n < 0 {
        seq!['-'] + dec((-n) as nat)
    } else {
        dec(n as nat)
    }
}

/// The lower-case hexadecimal digit of a value below 16.
pub fn digit_char(d: u64) -> (c: char)
    requires
        d < 16,
    ensures
        c == hex_digit(d as nat),
{
    if d < 10 {
        char_from_code((d + 48) as u32)
    } else {
        char_from_code((d + 87) as u32)
    }
}

fn char_from_code(u: u32) -> (c: char)
    requires
        48 <= u <= 102,
    ensures
        c == u as char,
{
    let b: u8 = u as u8;
    b as char
}

/// Decimal digits of an unsigned number.
pub fn u64_dec(n: u64) -> (v: Vec<char>)
    ensures
        v@ == dec(n as nat),
    decreases n,
{
    if n < 10 {
        let mut v: Vec<char> = Vec::new();
        v.push(digit_char(n));
        assert(v@ =~= seq![hex_digit(n as nat)]);
        v
    } else {
        let mut v = u64_dec(n / 10);
        v.push(digit_char(n % 10));
        v
    }
}

/// Lower-case hexadecimal digits of an unsigned number.
pub fn u64_hex(n: u64) -> (v: Vec<char>)
    ensures
        v@ == hex(n as nat),
    decreases n,
{
    if n < 16 {
        let mut v: Vec<char> = Vec::new();
        v.push(digit_char(n));
        assert(v@ =~= seq![hex_digit(n as nat)]);
        v
    } else {
        let mut v = u64_hex(n / 16);
        v.push(digit_char(n % 16));
        v
    }
}

/// Decimal digits of a signed number.
pub fn i64_dec(n: i64) -> (v: Vec<char>)
    ensures
        v@ == dec_int(n as int),
{
    if n < 0 {
        let m: u64 = (0i128 - (n as i128)) as u64;
        let d = u64_dec(m);
        let mut v: Vec<char> = Vec::new();
        v.push('-');
        let mut w = v;
        let mut d2 = d;
        w.append(&mut d2);
        assert(w@ =~= seq!['-'] + dec((-n) as nat));
        w
    } else {
        u64_dec(n as u64)
    }
}

/// Concatenation of `pieces` separated by `sep`.
pub open spec fn join(pieces: Seq<Seq<char>>, sep: Seq<char>) -> Seq<char>
    decreases pieces.len(),
{
    if pieces.len() == 0 {
        seq![]
    } else if pieces.len() == 1 {
        pieces[0]
    } else {
        join(pieces.drop_last(), sep) + sep + pieces.last()
    }
}

/// The texts of a list of strings.
pub open spec fn texts(v: Seq<String>) -> Seq<Seq<char>> {
    Seq::new(v.len(), |i: int| v[i]@)
}

/// A copy of a list of strings.
pub fn clone_strings(v: &Vec<String>) -> (r: Vec<String>)
    ensures
        r@ == v@,
{
    let mut r: Vec<String> = Vec::new();
    let mut i: usize = 0;
    while i < v.len()
        invariant
            i <= v@.len(),
            r@ == v@.take(i as int),
        decreases v@.len() - i,
    {
        r.push(v[i].clone());
        i = i + 1;
        assert(r@ =~= v@.take(i as int));
    }
    assert(v@.take(i as int) =~= v@);
    r
}

/// Owned copies of a list of string slices.
pub fn strings(items: &[&str]) -> (r: Vec<String>)
    ensures
        texts(r@) == items@.map_values(|t: &str| t@),
{
    let mut r: Vec<String> = Vec::new();
    let mut i: usize = 0;
    while i < items.len()
        invariant
            i <= items@.len(),
            texts(r@) == items@.take(i as int).map_values(|t: &str| t@),
        decreases items@.len() - i,
    {
        let ghost before = r@;
        r.push(owned(items[i]));
        proof {
            assert(texts(r@) =~= texts(before).push(items@[i as int]@));
            assert(items@.take(i + 1).map_values(|t: &str| t@) =~= items@.take(i as int).map_values(
                |t: &str| t@,
            ).push(items@[i as int]@));
        }
        i = i + 1;
    }
    assert(items@.take(i as int) =~= items@);
    r
}

/// Appends the pieces to `out`, separated by `sep`.
pub fn push_joined(out: &mut Vec<char>, pieces: &Vec<String>, sep: &str)
    ensures
        final(out)@ == old(out)@ + join(texts(pieces@), sep@),
{
    let ghost names = texts(pieces@);
    let ghost start = out@;
    let n: usize = pieces.len();
    let mut i: usize = 0;
    while i < n
        invariant
            n == pieces@.len(),
            names == texts(pieces@),
            i <= n,
            out@ == start + join(names.take(i as int), sep@),
        decreases n - i,
    {
        if i > 0 {
            extend_str(out, sep);
        }
        extend_str(out, pieces[i].as_str());
        proof {
            let p = names.take(i + 1);
            assert(p.drop_last() =~= names.take(i as int));
            assert(p.last() == pieces@[i as int]@);
            if i == 0 {
                assert(names.take(0) =~= Seq::<Seq<char>>::empty());
            }
            assert(out@ =~= start + join(p, sep@));
        }
        i = i + 1;
    }
    assert(names.take(n as int) =~= names);
}

/// The pieces of a text between occurrences of `sep`, as `str::split` yields them: an
/// empty text is one empty piece.
pub open spec fn split_on(s: Seq<char>, sep: char) -> Seq<Seq<char>>
    decreases s.len(),
{
    if s.len() == 0 {
        seq![seq![]]
    } else {
        let p = split_on(s.drop_last(), sep);
        if s.last() == sep {
            p.push(seq![])
        } else {
            p.update(p.len() - 1, p.last().push(s.last()))
        }
    }
}

/// The trimmed pieces that are not empty, in order.
pub open spec fn kept_trimmed(ps: Seq<Seq<char>>) -> Seq<Seq<char>>
    decreases ps.len(),
{
    if ps.len() == 0 {
        seq![]
    } else if trim(ps.last()).len() > 0 {
        kept_trimmed(ps.drop_last()).push(trim(ps.last()))
    } else {
        kept_trimmed(ps.drop_last())
    }
}

/// Splitting a text followed by a piece without the separator extends the last piece.
proof fn lemma_split_append_plain(x: Seq<char>, t: Seq<char>, sep: char)
    requires
        !t.contains(sep),
    ensures
        split_on(x + t, sep) == split_on(x, sep).update(
            split_on(x, sep).len() - 1,
            split_on(x, sep).last() + t,
        ),
        split_on(x, sep).len() >= 1,
    decreases t.len(),
{
    lemma_split_nonempty(x, sep);
    if t.len() == 0 {
        assert(x + t =~= x);
        assert(split_on(x, sep).last() + t =~= split_on(x, sep).last());
        assert(split_on(x, sep).update(split_on(x, sep).len() - 1, split_on(x, sep).last())
            =~= split_on(x, sep));
    } else {
        let t0 = t.drop_last();
        assert(!t0.contains(sep)) by {
            if t0.contains(sep) {
                let k = choose|k: int| 0 <= k < t0.len() && t0[k] == sep;
                assert(t[k] == sep);
            }
        }
        lemma_split_append_plain(x, t0, sep);
        assert((x + t).drop_last() =~= x + t0);
        assert((x + t).last() == t.last());
        assert(t.last() != sep) by {
            assert(t[t.len() - 1] == t.last());
        }
        assert(split_on(x, sep).last() + t =~= (split_on(x, sep).last() + t0).push(t.last()));
        lemma_split_nonempty(x + t0, sep);
    }
}

/// A split always has at least one piece.
proof fn lemma_split_nonempty(s: Seq<char>, sep: char)
    ensures
        split_on(s, sep).len() >= 1,
    decreases s.len(),
{
    if s.len() > 0 {
        lemma_split_nonempty(s.drop_last(), sep);
    }
}

/// The pieces after the first, each preceded by `pad`.
pub open spec fn padded(ps: Seq<Seq<char>>, pad: Seq<char>) -> Seq<Seq<char>> {
    Seq::new(ps.len(), |i: int| if i == 0 { ps[0] } else { pad + ps[i] })
}

/// Splitting pieces joined by a separator character followed by `pad` gives the pieces
/// back, each after the first preceded by `pad`, where neither the pieces nor `pad` hold
/// the separator.
pub proof fn lemma_split_join(ps: Seq<Seq<char>>, sep: char, pad: Seq<char>)
    requires
        ps.len() >= 1,
        forall|i: int| 0 <= i < ps.len() ==> !(#[trigger] ps[i]).contains(sep),
        !pad.contains(sep),
    ensures
        split_on(join(ps, seq![sep] + pad), sep) == padded(ps, pad),
    decreases ps.len(),
{
    let sp = seq![sep] + pad;
    if ps.len() == 1 {
        lemma_split_append_plain(seq![], ps[0], sep);
        assert(Seq::<char>::empty() + ps[0] =~= ps[0]);
        assert(split_on(Seq::<char>::empty(), sep).update(0, Seq::<char>::empty() + ps[0])
            =~= padded(ps, pad));
    } else {
        let front = ps.drop_last();
        assert forall|i: int| 0 <= i < front.len() implies !(#[trigger] front[i]).contains(sep) by {
            assert(front[i] == ps[i]);
        }
        lemma_split_join(front, sep, pad);
        let j = join(front, sp);
        let with_sep = j + seq![sep];
        assert(with_sep.drop_last() =~= j);
        assert(split_on(with_sep, sep) == padded(front, pad).push(seq![]));
        let last = ps[ps.len() - 1];
        assert(ps.last() == last);
        let tail = pad + last;
        assert(!tail.contains(sep)) by {
            if tail.contains(sep) {
                let k = choose|k: int| 0 <= k < tail.len() && tail[k] == sep;
                if k < pad.len() {
                    assert(pad[k] == sep);
                } else {
                    assert(last[k - pad.len()] == sep);
                }
            }
        }
        lemma_split_append_plain(with_sep, tail, sep);
        assert(join(ps, sp) =~= with_sep + tail);
        assert(Seq::<char>::empty() + tail =~= tail);
        assert(padded(front, pad).push(seq![]).update(front.len() as int, tail) =~= padded(ps, pad));
    }
}

/// A trimmed, non-empty text after white space trims back to itself.
proof fn lemma_trim_after_space(pad: Seq<char>, p: Seq<char>)
    requires
        forall|k: int| 0 <= k < pad.len() ==> is_ws(#[trigger] pad[k]),
        p.len() > 0,
        trim(p) == p,
    ensures
        trim(pad + p) == p,
{
    let u = trim_front(p);
    lemma_trim_front_shape(p);
    lemma_trim_back_shape(u);
    assert(p[0] == u[0]);
    let s = pad + p;
    assert forall|k: int| 0 <= k < pad.len() implies is_ws(#[trigger] s[k]) by {
        assert(s[k] == pad[k]);
    }
    assert(s[pad.len() as int] == p[0]);
    lemma_trim_front_at(s, pad.len() as int);
    assert(s.subrange(pad.len() as int, s.len() as int) =~= p);
    assert(p.last() == trim_back(u).last());
    lemma_trim_back_at(p, p.len() as int);
    assert(p.subrange(0, p.len() as int) =~= p);
}

/// Padded pieces that are trimmed and not empty, with white space as padding, trim back
/// to the pieces, all kept.
pub proof fn lemma_kept_trimmed_padded(ps: Seq<Seq<char>>, pad: Seq<char>)
    requires
        forall|k: int| 0 <= k < pad.len() ==> is_ws(#[trigger] pad[k]),
        forall|i: int| 0 <= i < ps.len() ==> (#[trigger] ps[i]).len() > 0 && trim(ps[i]) == ps[i],
    ensures
        kept_trimmed(padded(ps, pad)) == ps,
    decreases ps.len(),
{
    if ps.len() > 0 {
        let front = ps.drop_last();
        assert forall|i: int| 0 <= i < front.len() implies (#[trigger] front[i]).len() > 0 && trim(front[i]) == front[i] by {
            assert(front[i] == ps[i]);
        }
        lemma_kept_trimmed_padded(front, pad);
        let q = padded(ps, pad);
        assert(q.drop_last() =~= padded(front, pad));
        let last = ps[ps.len() - 1];
        if ps.len() == 1 {
            assert(q.last() == last);
        } else {
            assert(q.last() == pad + last);
            lemma_trim_after_space(pad, last);
        }
        assert(front.push(last) =~= ps);
    }
}

/// Pieces joined by `,` and split again at `,`, trimmed, without the empty ones, are the
/// same pieces, where each is non-empty, has no surrounding white space and holds no `,`.
pub proof fn lemma_comma_list_round_trip(ps: Seq<Seq<char>>)
    requires
        forall|i: int| 0 <= i < ps.len() ==> (#[trigger] ps[i]).len() > 0 && trim(ps[i]) == ps[i]
            && !ps[i].contains(','),
    ensures
        kept_trimmed(split_on(join(ps, ","@), ',')) == ps,
{
    assert(","@ == seq![',']) by {
        reveal_strlit(",");
    }
    if ps.len() == 0 {
        let e = Seq::<char>::empty();
        let p = seq![e];
        assert(join(ps, ","@) =~= e);
        assert(split_on(e, ',') == p);
        assert(p.last() == e);
        assert(trim(e) == e);
        assert(p.drop_last() =~= Seq::<Seq<char>>::empty());
        assert(kept_trimmed(Seq::<Seq<char>>::empty()) == Seq::<Seq<char>>::empty());
        assert(kept_trimmed(p) == kept_trimmed(p.drop_last()));
        assert(ps =~= Seq::<Seq<char>>::empty());
    } else {
        let pad = Seq::<char>::empty();
        assert(seq![','] + pad =~= seq![',']);
        lemma_split_join(ps, ',', pad);
        lemma_kept_trimmed_padded(ps, pad);
        assert(padded(ps, pad) =~= ps);
    }
}

/// The pieces of `value` between occurrences of `sep`, trimmed, without the empty ones.
pub fn split_trimmed(value: &str, sep: char) -> (r: Vec<String>)
    ensures
        texts(r@) == kept_trimmed(split_on(value@, sep)),
{
    let cs = chars_of(value);
    let mut out: Vec<String> = Vec::new();
    let mut cur: Vec<char> = Vec::new();
    let mut i: usize = 0;
    while i < cs.len()
        invariant
            i <= cs@.len(),
            cs@ == value@,
            split_on(value@.take(i as int), sep).len() >= 1,
            cur@ == split_on(value@.take(i as int), sep).last(),
            texts(out@) == kept_trimmed(split_on(value@.take(i as int), sep).drop_last()),
        decreases cs@.len() - i,
    {
        let c = cs[i];
        let ghost pre = value@.take(i as int);
        let ghost p = split_on(pre, sep);
        proof {
            assert(value@.take(i + 1).drop_last() =~= pre);
            assert(value@.take(i + 1).last() == c);
        }
        if c == sep {
            let (a, b) = trim_bounds(&cur);
            if a < b {
                let piece = sub_chars(&cur, a, b);
                let ghost before = out@;
                out.push(crate::bridge::string_from_chars(&piece));
                assert(texts(out@) =~= texts(before).push(trim(cur@)));
            }
            proof {
                let q = p.push(seq![]);
                assert(q.drop_last() =~= p);
                assert(p =~= p.drop_last().push(p.last()));
            }
            cur = Vec::new();
            assert(cur@ =~= Seq::<char>::empty());
        } else {
            cur.push(c);
            proof {
                let q = p.update(p.len() - 1, p.last().push(c));
                assert(q.drop_last() =~= p.drop_last());
            }
        }
        i = i + 1;
    }
    proof {
        assert(value@.take(cs@.len() as int) =~= value@);
        let p = split_on(value@, sep);
        assert(p =~= p.drop_last().push(p.last()));
    }
    let (a, b) = trim_bounds(&cur);
    if a < b {
        let piece = sub_chars(&cur, a, b);
        let ghost before = out@;
        out.push(crate::bridge::string_from_chars(&piece));
        assert(texts(out@) =~= texts(before).push(trim(cur@)));
    }
    out
}

/// Appends `src` to `dst`.
pub fn extend(dst: &mut Vec<char>, src: &Vec<char>)
    ensures
        final(dst)@ == old(dst)@ + src@,
{
    let mut i: usize = 0;
    let ghost start = dst@;
    while i < src.len()
        invariant
            i <= src.len(),
            dst@ == start + src@.subrange(0, i as int),
        decreases src.len() - i,
    {
        dst.push(src[i]);
        i = i + 1;
        assert(dst@ =~= start + src@.subrange(0, i as int));
    }
    assert(src@.subrange(0, src.len() as int) =~= src@);
}

/// Appends the characters of `src` to `dst`.
pub fn extend_str(dst: &mut Vec<char>, src: &str)
    ensures
        final(dst)@ == old(dst)@ + src@,
{
    let v = chars_of(src);
    extend(dst, &v);
}

/// Whether the byte string `needle` occurs in `hay` at position `i`.
pub open spec fn bytes_at(hay: Seq<u8>, needle: Seq<u8>, i: int) -> bool {
    0 <= i && i + needle.len() <= hay.len() && hay.subrange(i, i + needle.len()) == needle
}

/// The first position at which `needle` occurs in `hay`.
pub open spec fn first_bytes_at(hay: Seq<u8>, needle: Seq<u8>) -> Option<int> {
    if exists|i: int| bytes_at(hay, needle, i) {
        Some(choose|i: int| bytes_at(hay, needle, i) && forall|j: int| 0 <= j < i ==> !bytes_at(hay, needle, j))
    } else {
        None
    }
}

fn bytes_match_at(hay: &[u8], needle: &[u8], i: usize) -> (b: bool)
    requires
        i + needle@.len() <= hay@.len(),
        hay@.len() == hay.len(),
    ensures
        b == bytes_at(hay@, needle@, i as int),
{
    let m: usize = needle.len();
    let mut k: usize = 0;
    while k < m
        invariant
            m == needle@.len(),
            i + m <= hay@.len(),
            hay@.len() == hay.len(),
            k <= m,
            forall|t: int| 0 <= t < k ==> hay@[i + t] == needle@[t],
        decreases m - k,
    {
        if hay[i + k] != needle[k] {
            assert(hay@.subrange(i as int, i + m)[k as int] != needle@[k as int]);
            return false;
        }
        k = k + 1;
    }
    assert(hay@.subrange(i as int, i + m) =~= needle@);
    true
}

/// First position at which the byte string `needle` occurs in `hay` (`str::find`).
pub fn find_bytes(hay: &[u8], needle: &[u8]) -> (r: Option<usize>)
    ensures
        r matches Some(i) ==> first_bytes_at(hay@, needle@) == Some(i as int) && bytes_at(
            hay@,
            needle@,
            i as int,
        ) && i + needle@.len() <= hay.len(),
        r is None ==> first_bytes_at(hay@, needle@) is None,
{
    let n: usize = hay.len();
    let m: usize = needle.len();
    if m > n {
        assert(forall|i: int| !bytes_at(hay@, needle@, i));
        return None;
    }
    let last: usize = n - m;
    let mut i: usize = 0;
    while i <= last
        invariant
            n == hay@.len(),
            m == needle@.len(),
            last == n - m,
            i <= last + 1,
            forall|j: int| 0 <= j < i ==> !bytes_at(hay@, needle@, j),
        decreases last + 1 - i,
    {
        if bytes_match_at(hay, needle, i) {
            proof {
                let c = choose|k: int|
                    bytes_at(hay@, needle@, k) && forall|j: int|
                        0 <= j < k ==> !bytes_at(hay@, needle@, j);
                assert(bytes_at(hay@, needle@, i as int));
                if c < i {
                } else if c > i {
                    assert(!bytes_at(hay@, needle@, i as int));
                }
            }
            return Some(i);
        }
        if i == last {
            assert forall|j: int| !bytes_at(hay@, needle@, j) by {
                if 0 <= j < i {
                } else if j > last {
                }
            }
            return None;
        }
        i = i + 1;
    }
    None
}

} // verus!
