//! Text primitives over the characters of a string.
//!
//! The model of every string is its sequence of characters.

use vstd::prelude::*;

verus! {

/// The characters that Unicode lists under the property `White_Space`.
pub open spec fn is_space(c: char) -> bool {
    let n = c as u32;
    ||| 0x09 <= n <= 0x0d
    ||| n == 0x20
    ||| n == 0x85
    ||| n == 0xa0
    ||| n == 0x1680
    ||| 0x2000 <= n <= 0x200a
    ||| n == 0x2028
    ||| n == 0x2029
    ||| n == 0x202f
    ||| n == 0x205f
    ||| n == 0x3000
}

/// `s` without its leading white space.
pub open spec fn trimmed_start(s: Seq<char>) -> Seq<char>
    decreases s.len(),
{
    if s.len() > 0 && is_space(s[0]) {
        trimmed_start(s.skip(1))
    } else {
        s
    }
}

/// `s` without its trailing white space.
pub open spec fn trimmed_end(s: Seq<char>) -> Seq<char>
    decreases s.len(),
{
    if s.len() > 0 && is_space(s.last()) {
        trimmed_end(s.drop_last())
    } else {
        s
    }
}

/// `s` without its leading and trailing white space.
pub open spec fn trimmed(s: Seq<char>) -> Seq<char> {
    trimmed_end(trimmed_start(s))
}

/// Whether `s` holds nothing but white space.
pub open spec fn is_blank(s: Seq<char>) -> bool {
    trimmed(s).len() == 0
}

/// Whether `p` stands in `s` at position `i`.
pub open spec fn stands_at(s: Seq<char>, p: Seq<char>, i: int) -> bool {
    0 <= i && i + p.len() <= s.len() && s.subrange(i, i + p.len()) == p
}

/// The last position up to `end` at which `p` stands in `s`, or -1.
pub open spec fn last_match(s: Seq<char>, p: Seq<char>, end: int) -> int
    decreases end + 1,
{
    if end < 0 {
        -1
    } else if stands_at(s, p, end) {
        end
    } else {
        last_match(s, p, end - 1)
    }
}

/// What follows the last occurrence of `p` in `s`; all of `s` where there is none.
pub open spec fn after_last(s: Seq<char>, p: Seq<char>) -> Seq<char> {
    let i = last_match(s, p, s.len() as int);
    if i < 0 {
        s
    } else {
        s.skip(i + p.len())
    }
}

/// The position of the first `c` in `s`; the length of `s` where there is none.
pub open spec fn first_index(s: Seq<char>, c: char) -> int
    decreases s.len(),
{
    if s.len() == 0 || s[0] == c {
        0
    } else {
        1 + first_index(s.skip(1), c)
    }
}

/// The pieces of `s` between the occurrences of `c`.
pub open spec fn pieces(s: Seq<char>, c: char) -> Seq<Seq<char>>
    decreases s.len(),
{
    let i = first_index(s, c);
    if 0 <= i < s.len() {
        seq![s.take(i)] + pieces(s.skip(i + 1), c)
    } else {
        seq![s]
    }
}

/// The pieces with `sep` between them.
pub open spec fn joined(parts: Seq<Seq<char>>, sep: Seq<char>) -> Seq<char>
    decreases parts.len(),
{
    if parts.len() == 0 {
        Seq::empty()
    } else if parts.len() == 1 {
        parts[0]
    } else {
        joined(parts.drop_last(), sep) + sep + parts.last()
    }
}

/// The texts of a list of strings.
pub open spec fn texts(v: Seq<String>) -> Seq<Seq<char>> {
    v.map_values(|s: String| s@)
}

/// The text of an optional string.
pub open spec fn opt_text(s: Option<String>) -> Option<Seq<char>> {
    match s {
        Some(t) => Some(t@),
        None => None,
    }
}

/// The decimal digit `d`.
pub open spec fn digit(d: nat) -> char {
    (48 + d) as char
}

/// The decimal notation of `n`.
pub open spec fn dec(n: nat) -> Seq<char>
    decreases n,
{
    if n < 10 {
        seq![digit(n)]
    } else {
        dec(n / 10).push(digit(n % 10))
    }
}

/// Whether `s` is a non-empty row of decimal digits.
pub open spec fn is_digits(s: Seq<char>) -> bool {
    s.len() > 0 && forall|i: int| 0 <= i < s.len() ==> 48 <= (#[trigger] s[i]) as u32 <= 57
}

/// The number that a row of decimal digits denotes.
pub open spec fn digits_value(s: Seq<char>) -> nat
    decreases s.len(),
{
    if s.len() == 0 {
        0
    } else {
        digits_value(s.drop_last()) * 10 + (s.last() as u32 - 48) as nat
    }
}

/// The unsigned number that `s` denotes: digits behind an optional plus sign.
pub open spec fn uint_value(s: Seq<char>) -> Option<nat> {
    let t = if s.len() > 0 && s[0] == '+' {
        s.skip(1)
    } else {
        s
    };
    if is_digits(t) {
        Some(digits_value(t))
    } else {
        None
    }
}

/// `n` spaces.
pub open spec fn spaces(n: nat) -> Seq<char> {
    Seq::new(n, |i: int| ' ')
}

/// `s` filled up with spaces to at least `n` characters.
pub open spec fn padded(s: Seq<char>, n: nat) -> Seq<char> {
    if s.len() < n {
        s + spaces((n - s.len()) as nat)
    } else {
        s
    }
}

/// `s` with every `from` turned into `to`.
pub open spec fn replaced(s: Seq<char>, from: char, to: char) -> Seq<char> {
    s.map_values(|c: char| if c == from { to } else { c })
}

/// Whether `base` is a Windows drive alone: a letter and a colon.
pub open spec fn is_drive(base: Seq<char>) -> bool {
    &&& base.len() == 2
    &&& base[1] == ':'
    &&& 'a' <= base[0] <= 'z' || 'A' <= base[0] <= 'Z'
}

/// The relative path `name` below `base`, on Windows or on Unix. No separator is
/// put behind an empty base, behind another separator or behind a drive alone.
pub open spec fn path_join(base: Seq<char>, name: Seq<char>, windows: bool) -> Seq<char> {
    if base.len() == 0 || base.last() == '/' {
        base + name
    } else if !windows {
        base.push('/') + name
    } else if base.last() == '\\' || is_drive(base) {
        base + name
    } else {
        base.push('\\') + name
    }
}

/// The code point of `c`.
pub fn code(c: char) -> (r: u32)
    ensures
        r as int == c as int,
{
    c as u32
}

/// Whether `c` is white space.
pub fn is_whitespace(c: char) -> (r: bool)
    ensures
        r == is_space(c),
{
    let n: u32 = c as u32;
    (0x09 <= n && n <= 0x0d) || n == 0x20 || n == 0x85 || n == 0xa0 || n == 0x1680
        || (0x2000 <= n && n <= 0x200a) || n == 0x2028 || n == 0x2029 || n == 0x202f
        || n == 0x205f || n == 0x3000
}

/// The characters of `s`, in order.
pub fn chars_of(s: &str) -> (r: Vec<char>)
    ensures
        r@ == s@,
{
    let mut out: Vec<char> = Vec::new();
    for c in it: s.chars()
        invariant
            out@ == it.seq().take(it.index() as int),
            it.seq() == s@,
    {
        out.push(c);
    }
    out
}

/// Whether two strings hold the same characters.
pub fn same(a: &str, b: &str) -> (r: bool)
    ensures
        r == (a@ == b@),
{
    a.to_owned() == b.to_owned()
}

/// The string itself, or nothing, with the view of `s`.
pub fn copy_opt(s: &Option<String>) -> (r: Option<String>)
    ensures
        r == *s,
{
    match s {
        Some(t) => Some(t.clone()),
        None => None,
    }
}

/// A copy of a list of strings.
pub fn copy_all(v: &Vec<String>) -> (r: Vec<String>)
    ensures
        r@ == v@,
{
    let mut out: Vec<String> = Vec::new();
    let mut i: usize = 0;
    while i < v.len()
        invariant
            i <= v.len(),
            out@ == v@.take(i as int),
        decreases v.len() - i,
    {
        out.push(v[i].clone());
        i += 1;
        assert(v@.take(i as int) =~= v@.take(i - 1).push(v@[i - 1]));
    }
    assert(v@.take(v@.len() as int) =~= v@);
    out
}

/// `s` with `suffix` behind it.
pub fn cat(s: String, suffix: &str) -> (r: String)
    ensures
        r@ == s@ + suffix@,
{
    let mut out = s;
    out.append(suffix);
    out
}

/// The two strings in a row.
pub fn cat2(a: &str, b: &str) -> (r: String)
    ensures
        r@ == a@ + b@,
{
    cat(a.to_owned(), b)
}

/// The three strings in a row.
pub fn cat3(a: &str, b: &str, c: &str) -> (r: String)
    ensures
        r@ == a@ + b@ + c@,
{
    cat(cat2(a, b), c)
}

/// The four strings in a row.
pub fn cat4(a: &str, b: &str, c: &str, d: &str) -> (r: String)
    ensures
        r@ == a@ + b@ + c@ + d@,
{
    cat(cat3(a, b, c), d)
}

/// The five strings in a row.
pub fn cat5(a: &str, b: &str, c: &str, d: &str, e: &str) -> (r: String)
    ensures
        r@ == a@ + b@ + c@ + d@ + e@,
{
    cat(cat4(a, b, c, d), e)
}

proof fn lemma_trimmed_start(s: Seq<char>, k: int)
    requires
        0 <= k <= s.len(),
        forall|j: int| 0 <= j < k ==> is_space(#[trigger] s[j]),
        k < s.len() ==> !is_space(s[k]),
    ensures
        trimmed_start(s) == s.skip(k),
    decreases k,
{
    if k > 0 {
        let t = s.skip(1);
        assert forall|j: int| 0 <= j < k - 1 implies is_space(#[trigger] t[j]) by {
            assert(t[j] == s[j + 1]);
        }
        lemma_trimmed_start(t, k - 1);
        assert(t.skip(k - 1) =~= s.skip(k));
        assert(is_space(s[0]));
    } else {
        assert(s.skip(0) =~= s);
    }
}

proof fn lemma_trimmed_end(s: Seq<char>, k: int)
    requires
        0 <= k <= s.len(),
        forall|j: int| k <= j < s.len() ==> is_space(#[trigger] s[j]),
        k > 0 ==> !is_space(s[k - 1]),
    ensures
        trimmed_end(s) == s.take(k),
    decreases s.len(),
{
    if k < s.len() {
        let t = s.drop_last();
        lemma_trimmed_end(t, k);
        assert(t.take(k) =~= s.take(k));
        assert(is_space(s[s.len() - 1]));
    } else {
        assert(s.take(k) =~= s);
    }
}

/// How much white space leads `s`.
pub(crate) proof fn lemma_lead(s: Seq<char>) -> (k: int)
    ensures
        0 <= k <= s.len(),
        forall|j: int| 0 <= j < k ==> is_space(#[trigger] s[j]),
        k < s.len() ==> !is_space(s[k]),
        trimmed_start(s) == s.skip(k),
    decreases s.len(),
{
    let k = if s.len() > 0 && is_space(s[0]) {
        let n = lemma_lead(s.skip(1));
        assert forall|j: int| 0 <= j < n + 1 implies is_space(#[trigger] s[j]) by {
            if j > 0 {
                assert(s.skip(1)[j - 1] == s[j]);
            }
        }
        if n + 1 < s.len() {
            assert(s.skip(1)[n] == s[n + 1]);
        }
        n + 1
    } else {
        0
    };
    lemma_trimmed_start(s, k);
    k
}

/// Where the white space that ends `s` begins.
pub(crate) proof fn lemma_tail(s: Seq<char>) -> (k: int)
    ensures
        0 <= k <= s.len(),
        forall|j: int| k <= j < s.len() ==> is_space(#[trigger] s[j]),
        k > 0 ==> !is_space(s[k - 1]),
        trimmed_end(s) == s.take(k),
    decreases s.len(),
{
    let k = if s.len() > 0 && is_space(s.last()) {
        let n = lemma_tail(s.drop_last());
        assert forall|j: int| n <= j < s.len() implies is_space(#[trigger] s[j]) by {
            if j < s.len() - 1 {
                assert(s.drop_last()[j] == s[j]);
            }
        }
        if n > 0 {
            assert(s.drop_last()[n - 1] == s[n - 1]);
        }
        n
    } else {
        s.len() as int
    };
    lemma_trimmed_end(s, k);
    k
}

/// What was trimmed stays as it is when it is trimmed again.
pub(crate) proof fn lemma_trimmed_twice(s: Seq<char>)
    ensures
        trimmed(trimmed(s)) == trimmed(s),
        trimmed(trimmed_start(s)) == trimmed(s),
{
    let k = lemma_lead(s);
    let t = s.skip(k);
    let m = lemma_tail(t);
    let u = t.take(m);
    if t.len() > 0 {
        assert(t[0] == s[k]);
    }
    if u.len() > 0 {
        assert(u[0] == t[0]);
        assert(u.last() == t[m - 1]);
    }
}

/// A text with something else than white space in it is not blank.
pub(crate) proof fn lemma_not_blank(s: Seq<char>, i: int)
    requires
        0 <= i < s.len(),
        !is_space(s[i]),
    ensures
        !is_blank(s),
{
    let k = lemma_lead(s);
    let t = s.skip(k);
    let m = lemma_tail(t);
    assert(k <= i);
    assert(t[i - k] == s[i]);
    assert(m > i - k);
}

/// White space on either side of `c` is trimmed on that side alone.
pub(crate) proof fn lemma_trimmed_around(front: Seq<char>, c: char, back: Seq<char>)
    requires
        !is_space(c),
    ensures
        trimmed(front + seq![c] + back) == trimmed_start(front) + seq![c] + trimmed_end(back),
{
    let w = front + seq![c] + back;
    let k = lemma_lead(front);
    let m = lemma_tail(back);
    assert forall|j: int| 0 <= j < k implies is_space(#[trigger] w[j]) by {
        assert(w[j] == front[j]);
    }
    lemma_trimmed_start(w, k);
    let t = w.skip(k);
    let e = front.len() - k + 1 + m;
    assert forall|j: int| e <= j < t.len() implies is_space(#[trigger] t[j]) by {
        assert(t[j] == back[j - (front.len() - k + 1)]);
    }
    if m > 0 {
        assert(t[e - 1] == back[m - 1]);
    } else {
        assert(t[e - 1] == c);
    }
    lemma_trimmed_end(t, e);
    assert(t.take(e) =~= front.skip(k) + seq![c] + back.take(m));
}

/// `s` without its leading and trailing white space.
pub fn trim<'a>(s: &'a str) -> (r: &'a str)
    ensures
        r@ == trimmed(s@),
{
    let v = chars_of(s);
    let n: usize = v.len();
    let mut i: usize = 0;
    while i < n && is_whitespace(v[i])
        invariant
            v@ == s@,
            n == v.len(),
            i <= n,
            forall|j: int| 0 <= j < i ==> is_space(#[trigger] s@[j]),
        decreases n - i,
    {
        i += 1;
    }
    let mut k: usize = n;
    while k > i && is_whitespace(v[k - 1])
        invariant
            v@ == s@,
            n == v.len(),
            i <= k <= n,
            forall|j: int| k <= j < n ==> is_space(#[trigger] s@[j]),
        decreases k,
    {
        k -= 1;
    }
    proof {
        lemma_trimmed_start(s@, i as int);
        let t = s@.skip(i as int);
        assert forall|j: int| k - i <= j < t.len() implies is_space(#[trigger] t[j]) by {
            assert(t[j] == s@[j + i]);
        }
        lemma_trimmed_end(t, k - i);
        assert(t.take(k - i) =~= s@.subrange(i as int, k as int));
    }
    s.substring_char(i, k)
}

/// `s` without its leading white space.
pub fn trim_start(s: &str) -> (r: String)
    ensures
        r@ == trimmed_start(s@),
{
    let v = chars_of(s);
    let n: usize = v.len();
    let mut i: usize = 0;
    while i < n && is_whitespace(v[i])
        invariant
            v@ == s@,
            n == v.len(),
            i <= n,
            forall|j: int| 0 <= j < i ==> is_space(#[trigger] s@[j]),
        decreases n - i,
    {
        i += 1;
    }
    proof {
        lemma_trimmed_start(s@, i as int);
        assert(s@.skip(i as int) =~= s@.subrange(i as int, n as int));
    }
    s.substring_char(i, n).to_owned()
}

/// `s` without its trailing white space.
pub fn trim_end(s: &str) -> (r: String)
    ensures
        r@ == trimmed_end(s@),
{
    let v = chars_of(s);
    let n: usize = v.len();
    let mut k: usize = n;
    while k > 0 && is_whitespace(v[k - 1])
        invariant
            v@ == s@,
            n == v.len(),
            k <= n,
            forall|j: int| k <= j < n ==> is_space(#[trigger] s@[j]),
        decreases k,
    {
        k -= 1;
    }
    proof {
        lemma_trimmed_end(s@, k as int);
        assert(s@.take(k as int) =~= s@.subrange(0, k as int));
    }
    s.substring_char(0, k).to_owned()
}

/// Whether `s` holds nothing but white space.
pub fn blank(s: &str) -> (r: bool)
    ensures
        r == is_blank(s@),
{
    trim(s).is_empty()
}

/// Whether `p` stands in the characters `v` at position `i`.
fn char_match(v: &Vec<char>, p: &Vec<char>, i: usize) -> (r: bool)
    ensures
        r == stands_at(v@, p@, i as int),
{
    if p.len() > v.len() || i > v.len() - p.len() {
        return false;
    }
    let mut k: usize = 0;
    while k < p.len()
        invariant
            k <= p.len(),
            p.len() <= v.len(),
            i <= v.len() - p.len(),
            forall|j: int| 0 <= j < k ==> v@[i + j] == #[trigger] p@[j],
        decreases p.len() - k,
    {
        if v[i + k] != p[k] {
            assert(v@.subrange(i as int, i + p@.len())[k as int] != p@[k as int]);
            return false;
        }
        k += 1;
    }
    assert(v@.subrange(i as int, i + p@.len()) =~= p@);
    true
}

/// Whether `s` begins with `p`.
pub fn starts_with(s: &str, p: &str) -> (r: bool)
    ensures
        r == p@.is_prefix_of(s@),
{
    let v = chars_of(s);
    let q = chars_of(p);
    let r = char_match(&v, &q, 0);
    assert(p@.len() <= s@.len() ==> s@.subrange(0, p@.len() as int) =~= s@.take(p@.len() as int));
    r
}

/// The last position at which `p` stands in `s`, in characters.
pub fn rfind(s: &str, p: &str) -> (r: Option<usize>)
    ensures
        match r {
            Some(i) => i == last_match(s@, p@, s@.len() as int) && i + p@.len() <= s@.len(),
            None => last_match(s@, p@, s@.len() as int) < 0,
        },
{
    let v = chars_of(s);
    let q = chars_of(p);
    let mut end: usize = v.len();
    loop
        invariant
            v@ == s@,
            q@ == p@,
            end <= v.len(),
            last_match(s@, p@, s@.len() as int) == last_match(s@, p@, end as int),
        decreases end,
    {
        if char_match(&v, &q, end) {
            return Some(end);
        }
        if end == 0 {
            assert(last_match(s@, p@, -1) == -1);
            return None;
        }
        end -= 1;
    }
}

/// What follows the last occurrence of `p` in `s`; all of `s` where there is none.
pub fn tail_after<'a>(s: &'a str, p: &str) -> (r: &'a str)
    ensures
        r@ == after_last(s@, p@),
{
    match rfind(s, p) {
        Some(i) => {
            let n: usize = s.unicode_len();
            let m: usize = p.unicode_len();
            assert(s@.subrange(i + m, n as int) =~= s@.skip(i + m));
            s.substring_char(i + m, n)
        },
        None => s,
    }
}

/// The first `c` stands where nothing before it is one.
pub(crate) proof fn lemma_first_index(s: Seq<char>, c: char, k: int)
    requires
        0 <= k <= s.len(),
        forall|j: int| 0 <= j < k ==> #[trigger] s[j] != c,
        k < s.len() ==> s[k] == c,
    ensures
        first_index(s, c) == k,
    decreases k,
{
    if k > 0 {
        let t = s.skip(1);
        assert forall|j: int| 0 <= j < k - 1 implies #[trigger] t[j] != c by {
            assert(t[j] == s[j + 1]);
        }
        lemma_first_index(t, c, k - 1);
        assert(s[0] != c);
    }
}

/// The pieces of `s` between the occurrences of `c`.
pub fn split(s: &str, c: char) -> (r: Vec<String>)
    ensures
        texts(r@) == pieces(s@, c),
        r@.len() >= 1,
{
    let v = chars_of(s);
    let n: usize = v.len();
    let mut out: Vec<String> = Vec::new();
    let mut from: usize = 0;
    let mut i: usize = 0;
    assert(s@.skip(0) =~= s@);
    assert(texts(out@) + pieces(s@, c) =~= pieces(s@, c));
    while i < n
        invariant
            v@ == s@,
            n == v.len(),
            from <= i <= n,
            forall|j: int| from <= j < i ==> #[trigger] s@[j] != c,
            texts(out@) + pieces(s@.skip(from as int), c) == pieces(s@, c),
        decreases n - i,
    {
        if v[i] == c {
            proof {
                let t = s@.skip(from as int);
                assert forall|j: int| 0 <= j < i - from implies #[trigger] t[j] != c by {
                    assert(t[j] == s@[j + from]);
                }
                lemma_first_index(t, c, i - from);
                assert(t.take(i - from) =~= s@.subrange(from as int, i as int));
                assert(t.skip(i - from + 1) =~= s@.skip(i + 1));
            }
            let ghost before = texts(out@);
            let piece = s.substring_char(from, i).to_owned();
            out.push(piece);
            assert(texts(out@) =~= before.push(piece@));
            from = i + 1;
            assert(texts(out@) + pieces(s@.skip(from as int), c) =~= before + (seq![piece@] + pieces(
                s@.skip(from as int),
                c,
            )));
        }
        i += 1;
    }
    proof {
        let t = s@.skip(from as int);
        assert forall|j: int| 0 <= j < t.len() implies #[trigger] t[j] != c by {
            assert(t[j] == s@[j + from]);
        }
        lemma_first_index(t, c, t.len() as int);
        assert(t =~= s@.subrange(from as int, n as int));
    }
    let ghost before = texts(out@);
    let piece = s.substring_char(from, n).to_owned();
    out.push(piece);
    assert(texts(out@) =~= before.push(piece@));
    assert(texts(out@) =~= before + seq![piece@]);
    out
}

/// What stands before the first `c` in `s`, and what follows it.
pub open spec fn cut_at(s: Seq<char>, c: char) -> (Seq<char>, Option<Seq<char>>) {
    let i = first_index(s, c);
    if 0 <= i < s.len() {
        (s.take(i), Some(s.skip(i + 1)))
    } else {
        (s, None)
    }
}

/// What stands before the first `c` in `s`, and what follows it.
pub fn cut<'a>(s: &'a str, c: char) -> (r: (&'a str, Option<&'a str>))
    ensures
        r.0@ == cut_at(s@, c).0,
        match r.1 {
            Some(t) => cut_at(s@, c).1 == Some(t@),
            None => cut_at(s@, c).1 is None,
        },
{
    let v = chars_of(s);
    let n: usize = v.len();
    let mut i: usize = 0;
    while i < n && v[i] != c
        invariant
            v@ == s@,
            n == v.len(),
            i <= n,
            forall|j: int| 0 <= j < i ==> #[trigger] s@[j] != c,
        decreases n - i,
    {
        i += 1;
    }
    proof {
        lemma_first_index(s@, c, i as int);
    }
    if i == n {
        (s, None)
    } else {
        assert(s@.take(i as int) =~= s@.subrange(0, i as int));
        assert(s@.skip(i + 1) =~= s@.subrange(i + 1, n as int));
        (s.substring_char(0, i), Some(s.substring_char(i + 1, n)))
    }
}

/// The strings with `sep` between them.
pub fn join(parts: &Vec<&str>, sep: &str) -> (r: String)
    ensures
        r@ == joined(parts@.map_values(|s: &str| s@), sep@),
{
    let ghost views = parts@.map_values(|s: &str| s@);
    let mut out = String::new();
    let mut i: usize = 0;
    while i < parts.len()
        invariant
            i <= parts.len(),
            views == parts@.map_values(|s: &str| s@),
            out@ == joined(views.take(i as int), sep@),
        decreases parts.len() - i,
    {
        if i > 0 {
            out.append(sep);
        }
        out.append(parts[i]);
        proof {
            let t = views.take(i + 1);
            assert(t.drop_last() =~= views.take(i as int));
            assert(t.last() == parts@[i as int]@);
            if i == 0 {
                assert(out@ =~= t[0]);
            }
        }
        i += 1;
    }
    assert(views.take(parts@.len() as int) =~= views);
    out
}

/// The decimal digit `d`.
fn digit_text(d: u64) -> (r: &'static str)
    requires
        d < 10,
    ensures
        r@ == seq![digit(d as nat)],
{
    proof {
        reveal_strlit("0");
        reveal_strlit("1");
        reveal_strlit("2");
        reveal_strlit("3");
        reveal_strlit("4");
        reveal_strlit("5");
        reveal_strlit("6");
        reveal_strlit("7");
        reveal_strlit("8");
        reveal_strlit("9");
    }
    if d == 0 {
        "0"
    } else if d == 1 {
        "1"
    } else if d == 2 {
        "2"
    } else if d == 3 {
        "3"
    } else if d == 4 {
        "4"
    } else if d == 5 {
        "5"
    } else if d == 6 {
        "6"
    } else if d == 7 {
        "7"
    } else if d == 8 {
        "8"
    } else {
        "9"
    }
}

/// The decimal notation of `n`.
pub fn decimal(n: u64) -> (r: String)
    ensures
        r@ == dec(n as nat),
    decreases n,
{
    if n < 10 {
        digit_text(n).to_owned()
    } else {
        let mut out = decimal(n / 10);
        out.append(digit_text(n % 10));
        out
    }
}

/// The unsigned number that `s` denotes, where it is at most `max`.
pub fn parse_uint(s: &str, max: u64) -> (r: Option<u64>)
    ensures
        match r {
            Some(v) => uint_value(s@) == Some(v as nat) && v <= max,
            None => uint_value(s@) is None || uint_value(s@)->0 > max,
        },
{
    let v = chars_of(s);
    let start: usize = if v.len() > 0 && v[0] == '+' {
        1
    } else {
        0
    };
    let ghost t = s@.skip(start as int);
    assert(s@.skip(0) =~= s@);
    assert(uint_value(s@) == if is_digits(t) { Some(digits_value(t)) } else { None });
    if start == v.len() {
        return None;
    }
    let mut acc: u64 = 0;
    let mut i: usize = start;
    let mut over: bool = false;
    while i < v.len()
        invariant
            v@ == s@,
            t == s@.skip(start as int),
            start <= i <= v.len(),
            uint_value(s@) == if is_digits(t) { Some(digits_value(t)) } else { None },
            forall|j: int| 0 <= j < i - start ==> 48 <= (#[trigger] t[j]) as u32 <= 57,
            !over ==> acc <= max && acc == digits_value(t.take(i - start)),
            over ==> digits_value(t.take(i - start)) > max,
        decreases v.len() - i,
    {
        let c: char = v[i];
        assert(t[i - start] == c);
        let n: u32 = c as u32;
        if n < 48 || n > 57 {
            assert(!is_digits(t));
            return None;
        }
        let d: u64 = (n - 48) as u64;
        proof {
            let u = t.take(i - start + 1);
            assert(u.drop_last() =~= t.take(i - start));
            assert(u.last() == c);
            assert(digits_value(u) == digits_value(t.take(i - start)) * 10 + d);
        }
        if !over {
            if d > max || acc > (max - d) / 10 {
                assert(acc * 10 + d > max);
                over = true;
            } else {
                assert(acc * 10 + d <= max);
                acc = acc * 10 + d;
            }
        }
        i += 1;
    }
    assert(t.take(v.len() - start) =~= t);
    assert(is_digits(t));
    if over {
        None
    } else {
        Some(acc)
    }
}

/// The decimal notation of a signed number.
pub open spec fn signed_dec(n: int) -> Seq<char> {
    if n < 0 {
        "-"@ + dec((-n) as nat)
    } else {
        dec(n as nat)
    }
}

/// `n` spaces.
pub fn blanks(n: usize) -> (r: String)
    ensures
        r@ == spaces(n as nat),
{
    let mut out = String::new();
    let mut i: usize = 0;
    proof {
        reveal_strlit(" ");
    }
    while i < n
        invariant
            i <= n,
            out@ == spaces(i as nat),
            " "@.len() == 1,
            " "@[0] == ' ',
        decreases n - i,
    {
        out.append(" ");
        i += 1;
        assert(out@ =~= spaces(i as nat));
    }
    out
}

/// `s` filled up with spaces to at least `n` characters.
pub fn pad(s: &str, n: usize) -> (r: String)
    ensures
        r@ == padded(s@, n as nat),
{
    let len: usize = s.unicode_len();
    if len < n {
        cat2(s, blanks(n - len).as_str())
    } else {
        s.to_owned()
    }
}

/// `s` with every hyphen turned into an underscore.
pub fn underscored(s: &str) -> (r: String)
    ensures
        r@ == replaced(s@, '-', '_'),
{
    let v = chars_of(s);
    let mut out = String::new();
    let mut i: usize = 0;
    proof {
        reveal_strlit("_");
    }
    while i < v.len()
        invariant
            v@ == s@,
            i <= v.len(),
            out@ == replaced(s@.take(i as int), '-', '_'),
            "_"@.len() == 1,
            "_"@[0] == '_',
        decreases v.len() - i,
    {
        if v[i] == '-' {
            out.append("_");
        } else {
            out.append(s.substring_char(i, i + 1));
        }
        i += 1;
        assert(out@ =~= replaced(s@.take(i as int), '-', '_'));
    }
    assert(s@.take(s@.len() as int) =~= s@);
    out
}

fn drive_alone(b: &Vec<char>) -> (r: bool)
    ensures
        r == is_drive(b@),
{
    if b.len() != 2 || b[1] != ':' {
        return false;
    }
    let n: u32 = code(b[0]);
    (97 <= n && n <= 122) || (65 <= n && n <= 90)
}

/// The relative path `name` below `base`, on Windows or on Unix.
pub(crate) fn join_path(base: &str, name: &str, windows: bool) -> (r: String)
    ensures
        r@ == path_join(base@, name@, windows),
{
    let b = chars_of(base);
    let n: usize = b.len();
    if n == 0 || b[n - 1] == '/' {
        cat2(base, name)
    } else if !windows {
        proof {
            reveal_strlit("/");
        }
        let out = cat3(base, "/", name);
        assert(base@ + "/"@ =~= base@.push('/'));
        out
    } else if b[n - 1] == '\\' || drive_alone(&b) {
        cat2(base, name)
    } else {
        proof {
            reveal_strlit("\\");
        }
        let out = cat3(base, "\\", name);
        assert(base@ + "\\"@ =~= base@.push('\\'));
        out
    }
}

/// The decimal notation is a row of digits that denotes the number.
pub(crate) proof fn lemma_dec_reads_back(n: nat)
    ensures
        is_digits(dec(n)),
        digits_value(dec(n)) == n,
        uint_value(dec(n)) == Some(n),
    decreases n,
{
    if n < 10 {
        let s = dec(n);
        assert(s.drop_last().len() == 0);
        assert(digits_value(s.drop_last()) == 0);
    } else {
        lemma_dec_reads_back(n / 10);
        let s = dec(n);
        assert(s.drop_last() =~= dec(n / 10));
        assert forall|i: int| 0 <= i < s.len() implies 48 <= (#[trigger] s[i]) as u32 <= 57 by {
            if i < s.len() - 1 {
                assert(s[i] == dec(n / 10)[i]);
            }
        }
    }
}

/// Whether `p` stands somewhere in `s`.
pub open spec fn mentions(s: Seq<char>, p: Seq<char>) -> bool {
    exists|i: int| #[trigger] stands_at(s, p, i)
}

pub(crate) proof fn lemma_last_match(s: Seq<char>, p: Seq<char>, end: int, i: int)
    requires
        -1 <= i <= end,
        i >= 0 ==> stands_at(s, p, i),
        forall|j: int| i < j <= end ==> !#[trigger] stands_at(s, p, j),
    ensures
        last_match(s, p, end) == i,
    decreases end + 1,
{
    if i < end {
        lemma_last_match(s, p, end - 1, i);
    }
}

/// What a host and a port, behind a scheme or not, are read as.
pub(crate) proof fn lemma_authority(scheme: Seq<char>, host: Seq<char>, port: nat)
    requires
        !mentions(host, "://"@),
    ensures
        ({
            let authority = host + ":"@ + dec(port);
            &&& after_last(scheme + "://"@ + authority, "://"@) == authority
            &&& after_last(authority, "://"@) == authority
            &&& last_match(authority, ":"@, authority.len() as int) == host.len()
            &&& authority.take(host.len() as int) == host
            &&& authority.skip(host.len() as int + 1) == dec(port)
            &&& uint_value(dec(port)) == Some(port)
        }),
{
    reveal_strlit("://");
    reveal_strlit(":");
    lemma_dec_reads_back(port);
    let digits = dec(port);
    let authority = host + ":"@ + digits;
    let s = scheme + "://"@ + authority;
    let k = scheme.len() as int;
    let h = host.len() as int;
    assert forall|j: int| !#[trigger] stands_at(authority, "://"@, j) by {
        if stands_at(authority, "://"@, j) {
            let sub = authority.subrange(j, j + 3);
            assert(sub[0] == authority[j] && sub[1] == authority[j + 1] && sub[2] == authority[j + 2]);
            if j + 3 <= h {
                assert(host.subrange(j, j + 3) =~= sub);
                assert(stands_at(host, "://"@, j));
            } else {
                assert(authority[h] == ':');
                assert(forall|x: int| h < x < authority.len() ==> authority[x] == digits[x - h - 1]);
            }
        }
    }
    lemma_last_match(authority, "://"@, authority.len() as int, -1);
    assert(s.subrange(k, k + 3) =~= "://"@);
    assert(stands_at(s, "://"@, k));
    assert forall|j: int| k < j <= s.len() implies !#[trigger] stands_at(s, "://"@, j) by {
        if stands_at(s, "://"@, j) {
            let sub = s.subrange(j, j + 3);
            assert(sub[0] == s[j]);
            if j >= k + 3 {
                assert(authority.subrange(j - k - 3, j - k) =~= sub);
                assert(stands_at(authority, "://"@, j - k - 3));
            } else {
                assert(s[j] == "://"@[j - k]);
            }
        }
    }
    lemma_last_match(s, "://"@, s.len() as int, k);
    assert(s.skip(k + 3) =~= authority);
    assert(authority.subrange(h, h + 1) =~= ":"@);
    assert(stands_at(authority, ":"@, h));
    assert forall|j: int| h < j <= authority.len() implies !#[trigger] stands_at(authority, ":"@, j) by {
        if stands_at(authority, ":"@, j) {
            assert(authority.subrange(j, j + 1)[0] == authority[j]);
            assert(authority[j] == digits[j - h - 1]);
        }
    }
    lemma_last_match(authority, ":"@, authority.len() as int, h);
    assert(authority.take(h) =~= host);
    assert(authority.skip(h + 1) =~= digits);
}

/// A text that ends in two parts holds them together.
pub(crate) proof fn lemma_ends_in(front: Seq<char>, a: Seq<char>, b: Seq<char>)
    ensures
        mentions(front + a + b, a + b),
{
    let s = front + a + b;
    let i = front.len() as int;
    assert(s.subrange(i, i + (a + b).len()) =~= a + b);
    assert(stands_at(s, a + b, i));
}

/// What a text holds, it holds with more behind it.
pub(crate) proof fn lemma_still_mentions(s: Seq<char>, more: Seq<char>, p: Seq<char>)
    requires
        mentions(s, p),
    ensures
        mentions(s + more, p),
{
    let i = choose|i: int| #[trigger] stands_at(s, p, i);
    assert((s + more).subrange(i, i + p.len()) =~= s.subrange(i, i + p.len()));
    assert(stands_at(s + more, p, i));
}

} // verus!
