use vstd::prelude::*;
use vstd::string::*;

verus! {

/// Whether `p` occurs in `s` starting at index `i`.
pub open spec fn occurs_at(s: Seq<char>, p: Seq<char>, i: int) -> bool {
    0 <= i && i + p.len() <= s.len() && s.subrange(i, i + p.len()) == p
}

/// Whether `p` occurs anywhere in `s`.
pub open spec fn contains_seq(s: Seq<char>, p: Seq<char>) -> bool {
    exists|i: int| occurs_at(s, p, i)
}

/// Unicode `White_Space`, the property that `str::trim` strips.
pub open spec fn is_space(c: char) -> bool {
    ||| ('\u{9}' <= c && c <= '\u{d}')
    ||| c == ' '
    ||| c == '\u{85}'
    ||| c == '\u{a0}'
    ||| c == '\u{1680}'
    ||| ('\u{2000}' <= c && c <= '\u{200a}')
    ||| c == '\u{2028}'
    ||| c == '\u{2029}'
    ||| c == '\u{202f}'
    ||| c == '\u{205f}'
    ||| c == '\u{3000}'
}

/// `s` without its leading white space.
pub open spec fn trim_start(s: Seq<char>) -> Seq<char>
    decreases s.len(),
{
    if s.len() > 0 && is_space(s[0]) {
        trim_start(s.drop_first())
    } else {
        s
    }
}

/// Character sets that strings are trimmed of at their end.
#[derive(Debug, Clone, Copy, PartialEq, Eq, Structural)]
pub enum TrimSet {
    /// Unicode white space.
    Space,
    /// The punctuation that trails an address inside a sentence: `,` `;` `)` `]`.
    UrlPunct,
    /// `/`.
    Slash,
}

/// Whether `c` belongs to the set `k`.
pub open spec fn in_set(c: char, k: TrimSet) -> bool {
    match k {
        TrimSet::Space => is_space(c),
        TrimSet::UrlPunct => c == ',' || c == ';' || c == ')' || c == ']',
        TrimSet::Slash => c == '/',
    }
}

/// `s` without its trailing characters of the set `k`.
pub open spec fn trim_end_by(s: Seq<char>, k: TrimSet) -> Seq<char>
    decreases s.len(),
{
    if s.len() > 0 && in_set(s.last(), k) {
        trim_end_by(s.drop_last(), k)
    } else {
        s
    }
}

/// `s` without its leading and trailing white space.
pub open spec fn trim(s: Seq<char>) -> Seq<char> {
    trim_end_by(trim_start(s), TrimSet::Space)
}

/// ASCII lower case of one character.
pub open spec fn ascii_lower(c: char) -> char {
    if 'A' <= c && c <= 'Z' {
        ((c as u32) + 32) as char
    } else {
        c
    }
}

/// ASCII lower case of a string; other characters stay as they are.
pub open spec fn ascii_lower_seq(s: Seq<char>) -> Seq<char> {
    Seq::new(s.len(), |i: int| ascii_lower(s[i]))
}

/// `s` with every occurrence of the non-empty `pat` replaced by `rep`, scanning left to right.
pub open spec fn replace_all(s: Seq<char>, pat: Seq<char>, rep: Seq<char>) -> Seq<char>
    decreases s.len(),
{
    if s.len() == 0 || pat.len() == 0 {
        s
    } else if pat.is_prefix_of(s) {
        rep + replace_all(s.skip(pat.len() as int), pat, rep)
    } else {
        seq![s[0]] + replace_all(s.drop_first(), pat, rep)
    }
}

/// The Unicode lower case of a string, as `str::to_lowercase` computes it.
pub uninterp spec fn lowercase(s: Seq<char>) -> Seq<char>;

/// Calls `str::to_lowercase`. The contract only ties the result to the
/// argument through `lowercase`; the Unicode case tables are not restated.
#[verifier::external_body]
pub(crate) fn to_lowercase(s: &str) -> (r: String)
    ensures
        r@ == lowercase(s@),
{
    s.to_lowercase()
}

/// A new `String` with the characters of `s`.
pub fn owned(s: &str) -> (r: String)
    ensures
        r@ == s@,
{
    String::from_str(s)
}

/// The concatenation of two strings.
pub fn concat(a: &str, b: &str) -> (r: String)
    ensures
        r@ == a@ + b@,
{
    let mut r = String::from_str(a);
    r.append(b);
    r
}

/// Whether two strings hold the same characters.
pub fn str_eq(a: &str, b: &str) -> (r: bool)
    ensures
        r == (a@ == b@),
{
    let n = a.unicode_len();
    let m = b.unicode_len();
    if n != m {
        return false;
    }
    let mut i: usize = 0;
    while i < n
        invariant
            n == a@.len(),
            m == b@.len(),
            n == m,
            i <= n,
            forall|j: int| 0 <= j < i ==> a@[j] == b@[j],
        decreases n - i,
    {
        if a.get_char(i) != b.get_char(i) {
            return false;
        }
        i += 1;
    }
    proof {
        assert(a@ =~= b@);
    }
    true
}

/// Whether `p` occurs in `s` at index `i`.
pub fn matches_at(s: &str, p: &str, i: usize) -> (r: bool)
    ensures
        r == occurs_at(s@, p@, i as int),
{
    let n = s.unicode_len();
    let m = p.unicode_len();
    if i > n || m > n - i {
        return false;
    }
    let mut k: usize = 0;
    while k < m
        invariant
            n == s@.len(),
            m == p@.len(),
            i + m <= n,
            k <= m,
            forall|j: int| 0 <= j < k ==> s@[i + j] == p@[j],
        decreases m - k,
    {
        if s.get_char(i + k) != p.get_char(k) {
            proof {
                assert(s@.subrange(i as int, i + m)[k as int] != p@[k as int]);
            }
            return false;
        }
        k += 1;
    }
    proof {
        assert(s@.subrange(i as int, i + m) =~= p@);
    }
    true
}

/// Checks whether `prefix` is a prefix of `s`.
pub fn starts_with(s: &str, prefix: &str) -> (b: bool)
    ensures
        b == prefix@.is_prefix_of(s@),
{
    let r = matches_at(s, prefix, 0);
    proof {
        if r {
            assert(s@.subrange(0, prefix@.len() as int) =~= prefix@);
        }
    }
    r
}

/// Checks whether `p` occurs somewhere in `s`.
pub fn contains(s: &str, p: &str) -> (b: bool)
    ensures
        b == contains_seq(s@, p@),
{
    let n = s.unicode_len();
    let m = p.unicode_len();
    if m == 0 {
        proof {
            assert(s@.subrange(0, 0) =~= p@);
            assert(occurs_at(s@, p@, 0));
        }
        return true;
    }
    let mut i: usize = 0;
    while i < n && m <= n - i
        invariant
            n == s@.len(),
            m == p@.len(),
            m > 0,
            forall|j: int| 0 <= j < i ==> !occurs_at(s@, p@, j),
        decreases n - i,
    {
        if matches_at(s, p, i) {
            return true;
        }
        i += 1;
    }
    false
}

/// Whether `c` is Unicode white space.
pub fn char_is_space(c: char) -> (r: bool)
    ensures
        r == is_space(c),
{
    ('\u{9}' <= c && c <= '\u{d}') || c == ' ' || c == '\u{85}' || c == '\u{a0}' || c == '\u{1680}'
        || ('\u{2000}' <= c && c <= '\u{200a}') || c == '\u{2028}' || c == '\u{2029}' || c
        == '\u{202f}' || c == '\u{205f}' || c == '\u{3000}'
}

proof fn lemma_trim_start_skip(s: Seq<char>, i: int)
    requires
        0 <= i < s.len(),
        is_space(s[i]),
    ensures
        trim_start(s.skip(i)) == trim_start(s.skip(i + 1)),
{
    assert(s.skip(i).drop_first() =~= s.skip(i + 1));
}

proof fn lemma_trim_end_take(s: Seq<char>, k: TrimSet, i: int)
    requires
        0 < i <= s.len(),
        in_set(s[i - 1], k),
    ensures
        trim_end_by(s.take(i), k) == trim_end_by(s.take(i - 1), k),
{
    assert(s.take(i).drop_last() =~= s.take(i - 1));
}

/// Whether `c` belongs to the set `k`.
pub fn char_in_set(c: char, k: TrimSet) -> (r: bool)
    ensures
        r == in_set(c, k),
{
    match k {
        TrimSet::Space => char_is_space(c),
        TrimSet::UrlPunct => c == ',' || c == ';' || c == ')' || c == ']',
        TrimSet::Slash => c == '/',
    }
}

/// `s` without its trailing characters of the set `k`, as `str::trim_end_matches` gives it.
pub fn trim_end_set(s: &str, k: TrimSet) -> (r: String)
    ensures
        r@ == trim_end_by(s@, k),
{
    let n = s.unicode_len();
    let mut b: usize = n;
    assert(s@.take(n as int) =~= s@);
    while b > 0 && char_in_set(s.get_char(b - 1), k)
        invariant
            n == s@.len(),
            b <= n,
            trim_end_by(s@, k) == trim_end_by(s@.take(b as int), k),
        decreases b,
    {
        proof {
            lemma_trim_end_take(s@, k, b as int);
        }
        b -= 1;
    }
    let ghost u = s@.take(b as int);
    assert(trim_end_by(u, k) == u) by {
        if u.len() > 0 {
            assert(u.last() == s@[b - 1]);
        }
    }
    let r = owned(s.substring_char(0, b));
    assert(r@ =~= u);
    r
}

/// `s` without its leading white space, as `str::trim_start` gives it.
pub fn trim_start_str(s: &str) -> (r: String)
    ensures
        r@ == trim_start(s@),
{
    let n = s.unicode_len();
    let mut a: usize = 0;
    assert(s@.skip(0) =~= s@);
    while a < n && char_is_space(s.get_char(a))
        invariant
            n == s@.len(),
            a <= n,
            trim_start(s@) == trim_start(s@.skip(a as int)),
        decreases n - a,
    {
        proof {
            lemma_trim_start_skip(s@, a as int);
        }
        a += 1;
    }
    let ghost t = s@.skip(a as int);
    assert(trim_start(t) == t) by {
        if t.len() > 0 {
            assert(t[0] == s@[a as int]);
        }
    }
    let r = owned(s.substring_char(a, n));
    assert(r@ =~= t);
    r
}

/// `s` without leading and trailing white space, as `str::trim` gives it.
pub fn trim_str(s: &str) -> (r: String)
    ensures
        r@ == trim(s@),
{
    let a = trim_start_str(s);
    trim_end_set(a.as_str(), TrimSet::Space)
}

/// ASCII lower case of one character.
pub fn char_ascii_lower(c: char) -> (r: char)
    ensures
        r == ascii_lower(c),
{
    if 'A' <= c && c <= 'Z' {
        let u: u8 = (c as u8) + 32;
        u as char
    } else {
        c
    }
}

/// Whether `a` and `b` are equal when ASCII letters are compared without case.
pub fn eq_ignore_ascii_case(a: &str, b: &str) -> (r: bool)
    ensures
        r == (ascii_lower_seq(a@) == ascii_lower_seq(b@)),
{
    let n = a.unicode_len();
    let m = b.unicode_len();
    if n != m {
        proof {
            assert(ascii_lower_seq(a@).len() != ascii_lower_seq(b@).len());
        }
        return false;
    }
    let mut i: usize = 0;
    while i < n
        invariant
            n == a@.len(),
            m == b@.len(),
            n == m,
            i <= n,
            forall|j: int| 0 <= j < i ==> ascii_lower(a@[j]) == ascii_lower(b@[j]),
        decreases n - i,
    {
        if char_ascii_lower(a.get_char(i)) != char_ascii_lower(b.get_char(i)) {
            proof {
                assert(ascii_lower_seq(a@)[i as int] != ascii_lower_seq(b@)[i as int]);
            }
            return false;
        }
        i += 1;
    }
    proof {
        assert(ascii_lower_seq(a@) =~= ascii_lower_seq(b@));
    }
    true
}

proof fn lemma_replace_step(s: Seq<char>, pat: Seq<char>, rep: Seq<char>, i: int)
    requires
        0 <= i < s.len(),
        pat.len() > 0,
    ensures
        occurs_at(s, pat, i) ==> replace_all(s.skip(i), pat, rep) == rep + replace_all(
            s.skip(i + pat.len()),
            pat,
            rep,
        ),
        !occurs_at(s, pat, i) ==> replace_all(s.skip(i), pat, rep) == seq![s[i]] + replace_all(
            s.skip(i + 1),
            pat,
            rep,
        ),
{
    let t = s.skip(i);
    if occurs_at(s, pat, i) {
        assert(t.subrange(0, pat.len() as int) =~= s.subrange(i, i + pat.len()));
        assert(pat.is_prefix_of(t));
        assert(t.skip(pat.len() as int) =~= s.skip(i + pat.len()));
    } else {
        if pat.is_prefix_of(t) {
            assert(s.subrange(i, i + pat.len()) =~= t.subrange(0, pat.len() as int));
        }
        assert(t.drop_first() =~= s.skip(i + 1));
        assert(t[0] == s[i]);
    }
}

/// `s` with every occurrence of `pat` replaced by `rep`, scanning from the
/// left as `str::replace` does. The pattern must not be empty (`str::replace`
/// would insert `rep` between all characters; no caller here asks for that).
pub fn replace(s: &str, pat: &str, rep: &str) -> (r: String)
    requires
        pat@.len() > 0,
    ensures
        r@ == replace_all(s@, pat@, rep@),
{
    let n = s.unicode_len();
    let m = pat.unicode_len();
    let mut r = String::new();
    let mut i: usize = 0;
    assert(s@.skip(0) =~= s@);
    while i < n
        invariant
            n == s@.len(),
            m == pat@.len(),
            m > 0,
            i <= n,
            replace_all(s@, pat@, rep@) == r@ + replace_all(s@.skip(i as int), pat@, rep@),
        decreases n - i,
    {
        proof {
            lemma_replace_step(s@, pat@, rep@, i as int);
        }
        let ghost before = r@;
        if matches_at(s, pat, i) {
            r.append(rep);
            proof {
                assert(before + (rep@ + replace_all(s@.skip(i + m), pat@, rep@)) =~= r@
                    + replace_all(s@.skip(i + m), pat@, rep@));
            }
            i += m;
        } else {
            let one = s.substring_char(i, i + 1);
            r.append(one);
            proof {
                assert(one@ =~= seq![s@[i as int]]);
                assert(before + (seq![s@[i as int]] + replace_all(s@.skip(i + 1), pat@, rep@))
                    =~= r@ + replace_all(s@.skip(i + 1), pat@, rep@));
            }
            i += 1;
        }
    }
    proof {
        assert(s@.skip(n as int) =~= Seq::<char>::empty());
        assert(r@ + Seq::<char>::empty() =~= r@);
    }
    r
}

/// Calls `String::push`, which appends one character.
#[verifier::external_body]
pub(crate) fn push_char(s: &mut String, c: char)
    ensures
        final(s)@ == old(s)@.push(c),
{
    s.push(c);
}

/// `s` with ASCII letters lower-cased, as `str::to_ascii_lowercase` gives it.
pub fn to_ascii_lowercase(s: &str) -> (r: String)
    ensures
        r@ == ascii_lower_seq(s@),
{
    let n = s.unicode_len();
    let mut r = String::new();
    let mut i: usize = 0;
    while i < n
        invariant
            n == s@.len(),
            i <= n,
            r@ == ascii_lower_seq(s@.take(i as int)),
        decreases n - i,
    {
        let c = char_ascii_lower(s.get_char(i));
        push_char(&mut r, c);
        proof {
            assert(ascii_lower_seq(s@.take(i + 1)) =~= ascii_lower_seq(s@.take(i as int)).push(c));
        }
        i += 1;
    }
    proof {
        assert(s@.take(n as int) =~= s@);
    }
    r
}

/// The decimal digit character for `d < 10`.
pub open spec fn digit_char(d: nat) -> char {
    ((('0' as u32) + d) as u32) as char
}

/// The decimal numeral of `n`, without leading zeros.
pub open spec fn decimal(n: nat) -> Seq<char>
    decreases n,
{
    if n < 10 {
        seq![digit_char(n)]
    } else {
        decimal(n / 10).push(digit_char(n % 10))
    }
}

/// The decimal numeral of `n`, with a leading `-` when negative.
pub open spec fn signed_decimal(n: int) -> Seq<char> {
    if n < 0 {
        seq!['-'] + decimal((-n) as nat)
    } else {
        decimal(n as nat)
    }
}

fn digit(d: u64) -> (c: char)
    requires
        d < 10,
    ensures
        c == digit_char(d as nat),
{
    let b: u8 = 48u8 + (d as u8);
    b as char
}

/// The decimal numeral of `n`, as `u64::to_string` gives it.
pub fn u64_to_decimal(n: u64) -> (r: String)
    ensures
        r@ == decimal(n as nat),
    decreases n,
{
    if n < 10 {
        let mut r = String::new();
        push_char(&mut r, digit(n));
        r
    } else {
        let mut r = u64_to_decimal(n / 10);
        push_char(&mut r, digit(n % 10));
        r
    }
}

/// The decimal numeral of `n`, as `i64::to_string` gives it.
pub fn i64_to_decimal(n: i64) -> (r: String)
    ensures
        r@ == signed_decimal(n as int),
{
    if n < 0 {
        let m: u64 = ((-(n + 1)) as u64) + 1;
        let d = u64_to_decimal(m);
        let r = concat("-", d.as_str());
        proof {
            reveal_strlit("-");
            assert("-"@ =~= seq!['-']);
        }
        r
    } else {
        u64_to_decimal(n as u64)
    }
}

/// Separator sets that strings are split at.
#[derive(Debug, Clone, Copy, PartialEq, Eq, Structural)]
pub enum SplitSet {
    /// Space, `|`, em dash, en dash and new line: the words of a window title
    /// (a plain `-` does not end a word, so hyphenated host names stay whole).
    TitleWords,
    /// `;`: the attributes of a cookie.
    Semicolon,
}

/// Whether `c` separates pieces for the set `k`.
pub open spec fn is_split_sep(c: char, k: SplitSet) -> bool {
    match k {
        SplitSet::TitleWords => c == ' ' || c == '|' || c == '\u{2014}' || c == '\u{2013}' || c
            == '\n',
        SplitSet::Semicolon => c == ';',
    }
}

/// Whether `c` separates pieces for the set `k`.
pub fn char_is_split_sep(c: char, k: SplitSet) -> (r: bool)
    ensures
        r == is_split_sep(c, k),
{
    match k {
        SplitSet::TitleWords => c == ' ' || c == '|' || c == '\u{2014}' || c == '\u{2013}' || c
            == '\n',
        SplitSet::Semicolon => c == ';',
    }
}

/// `s` split at every separator of `k`, empty pieces kept (as `str::split` does).
pub open spec fn split_seq(s: Seq<char>, k: SplitSet) -> Seq<Seq<char>>
    decreases s.len(),
{
    if s.len() == 0 {
        seq![Seq::<char>::empty()]
    } else {
        let r = split_seq(s.drop_last(), k);
        if is_split_sep(s.last(), k) {
            r.push(Seq::<char>::empty())
        } else {
            r.update(r.len() - 1, r.last().push(s.last()))
        }
    }
}

proof fn lemma_split_nonempty(s: Seq<char>, k: SplitSet)
    ensures
        split_seq(s, k).len() >= 1,
    decreases s.len(),
{
    if s.len() > 0 {
        lemma_split_nonempty(s.drop_last(), k);
    }
}

/// `s` split at every separator of `k`.
pub fn split_str(s: &str, k: SplitSet) -> (r: Vec<String>)
    ensures
        r@.map_values(|p: String| p@) == split_seq(s@, k),
{
    let n = s.unicode_len();
    let mut parts: Vec<String> = Vec::new();
    let mut start: usize = 0;
    let mut i: usize = 0;
    assert(s@.take(0) =~= Seq::<char>::empty());
    assert(parts@.map_values(|p: String| p@).push(s@.subrange(0, 0)) =~= seq![
        Seq::<char>::empty(),
    ]);
    while i < n
        invariant
            n == s@.len(),
            start <= i <= n,
            split_seq(s@.take(i as int), k) == parts@.map_values(|p: String| p@).push(
                s@.subrange(start as int, i as int),
            ),
        decreases n - i,
    {
        let c = s.get_char(i);
        let ghost prev = s@.take(i as int);
        assert(s@.take(i + 1).drop_last() =~= prev);
        assert(s@.take(i + 1).last() == c);
        if char_is_split_sep(c, k) {
            let w = owned(s.substring_char(start, i));
            parts.push(w);
            start = i + 1;
            proof {
                assert(parts@.map_values(|p: String| p@) =~= split_seq(prev, k));
                assert(s@.subrange(start as int, (i + 1) as int) =~= Seq::<char>::empty());
            }
        } else {
            proof {
                lemma_split_nonempty(prev, k);
                assert(s@.subrange(start as int, i + 1) =~= s@.subrange(start as int, i as int).push(
                    c,
                ));
                assert(split_seq(s@.take(i + 1), k) =~= parts@.map_values(|p: String| p@).push(
                    s@.subrange(start as int, i + 1),
                ));
            }
        }
        i += 1;
    }
    let w = owned(s.substring_char(start, n));
    parts.push(w);
    proof {
        assert(s@.take(n as int) =~= s@);
        assert(parts@.map_values(|p: String| p@) =~= split_seq(s@, k));
    }
    parts
}

/// `s` with every leading copy of the non-empty `p` removed.
pub open spec fn strip_prefixes(s: Seq<char>, p: Seq<char>) -> Seq<char>
    decreases s.len(),
{
    if p.len() > 0 && p.is_prefix_of(s) {
        strip_prefixes(s.skip(p.len() as int), p)
    } else {
        s
    }
}

/// `s` with every leading copy of `p` removed, as `str::trim_start_matches` gives it.
pub fn trim_start_matches(s: &str, p: &str) -> (r: String)
    ensures
        r@ == strip_prefixes(s@, p@),
{
    let n = s.unicode_len();
    let m = p.unicode_len();
    let mut a: usize = 0;
    assert(s@.skip(0) =~= s@);
    if m == 0 {
        return owned(s);
    }
    while matches_at(s, p, a)
        invariant
            n == s@.len(),
            m == p@.len(),
            m > 0,
            a <= n,
            strip_prefixes(s@, p@) == strip_prefixes(s@.skip(a as int), p@),
        decreases n - a,
    {
        proof {
            let t = s@.skip(a as int);
            assert(t.subrange(0, m as int) =~= s@.subrange(a as int, a + m));
            assert(t.skip(m as int) =~= s@.skip(a + m));
        }
        a += m;
    }
    proof {
        let t = s@.skip(a as int);
        if p@.is_prefix_of(t) {
            assert(s@.subrange(a as int, a + m) =~= t.subrange(0, m as int));
        }
    }
    let r = owned(s.substring_char(a, n));
    assert(r@ =~= s@.skip(a as int));
    r
}

/// The part of `s` before the first `c` (all of `s` when there is none).
pub open spec fn before_char(s: Seq<char>, c: char) -> Seq<char>
    decreases s.len(),
{
    if s.len() == 0 {
        s
    } else if s[0] == c {
        Seq::empty()
    } else {
        seq![s[0]] + before_char(s.drop_first(), c)
    }
}

/// The part of `s` before the first `c`, as `str::split(c).next()` gives it.
pub fn before_char_str(s: &str, c: char) -> (r: String)
    ensures
        r@ == before_char(s@, c),
{
    let n = s.unicode_len();
    let mut i: usize = 0;
    assert(s@.skip(0) =~= s@);
    assert(s@.take(0) + before_char(s@.skip(0), c) =~= before_char(s@, c));
    while i < n && s.get_char(i) != c
        invariant
            n == s@.len(),
            i <= n,
            before_char(s@, c) == s@.take(i as int) + before_char(s@.skip(i as int), c),
        decreases n - i,
    {
        proof {
            let t = s@.skip(i as int);
            assert(t.drop_first() =~= s@.skip(i + 1));
            assert(s@.take(i as int) + (seq![s@[i as int]] + before_char(s@.skip(i + 1), c))
                =~= s@.take(i + 1) + before_char(s@.skip(i + 1), c));
        }
        i += 1;
    }
    proof {
        let t = s@.skip(i as int);
        if i < n {
            assert(t[0] == c);
        }
        assert(s@.take(i as int) + before_char(t, c) =~= s@.take(i as int));
    }
    let r = owned(s.substring_char(0, i));
    assert(r@ =~= s@.take(i as int));
    r
}

} // verus!
