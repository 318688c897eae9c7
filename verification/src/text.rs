//! Verified character-sequence utilities.
//!
//! The platform tools this library's drivers shell out to speak plain text:
//! their output is searched, trimmed and compared, and the scripts handed to
//! them are assembled from escaped fragments.  Strings are handled here as
//! vectors of characters, whose view is the `Seq<char>` the contracts speak
//! of; the driver converts to and from `String` at the boundary.

use vstd::prelude::*;

verus! {

/// Lowercase an ASCII letter; leave every other character alone.
pub open spec fn spec_lower_char(c: char) -> char {
    if 'A' <= c && c <= 'Z' {
        ((c as u8) + 32) as char
    } else {
        c
    }
}

/// Lowercase of a whole character sequence, ASCII letters only.
pub open spec fn spec_lower(s: Seq<char>) -> Seq<char> {
    s.map_values(|c: char| spec_lower_char(c))
}

/// Lowercase an ASCII letter; leave every other character alone.
pub fn lower_char(c: char) -> (r: char)
    ensures
        r == spec_lower_char(c),
{
    if 'A' <= c && c <= 'Z' {
        ((c as u8) + 32) as char
    } else {
        c
    }
}

/// ASCII whitespace, the blank characters the platform tools emit around
/// their output.
pub open spec fn spec_is_space(c: char) -> bool {
    c == ' ' || c == '\t' || c == '\n' || c == '\r' || c == '\u{b}' || c == '\u{c}'
}

/// ASCII whitespace test.
pub fn is_space(c: char) -> (r: bool)
    ensures
        r == spec_is_space(c),
{
    c == ' ' || c == '\t' || c == '\n' || c == '\r' || c == '\u{b}' || c == '\u{c}'
}

/// The characters of `s`, as a vector.
pub fn chars_of(s: &str) -> (v: Vec<char>)
    ensures
        v@ == s@,
{
    let n = s.unicode_len();
    let mut v: Vec<char> = Vec::new();
    let mut i: usize = 0;
    while i < n
        invariant
            n == s@.len(),
            i <= n,
            v@ == s@.take(i as int),
        decreases n - i,
    {
        v.push(s.get_char(i));
        i = i + 1;
        assert(v@ =~= s@.take(i as int));
    }
    assert(v@ =~= s@);
    v
}

/// Append the characters of `s` to `v`.
pub fn push_str(v: &mut Vec<char>, s: &str)
    ensures
        final(v)@ == old(v)@ + s@,
{
    let n = s.unicode_len();
    let mut i: usize = 0;
    while i < n
        invariant
            n == s@.len(),
            i <= n,
            v@ == old(v)@ + s@.take(i as int),
        decreases n - i,
    {
        v.push(s.get_char(i));
        i = i + 1;
        assert(v@ =~= old(v)@ + s@.take(i as int));
    }
    assert(v@ =~= old(v)@ + s@);
}

/// Whether `s` and `t` hold the same characters.
pub fn str_eq(s: &str, t: &str) -> (r: bool)
    ensures
        r == (s@ == t@),
{
    let n = s.unicode_len();
    if n != t.unicode_len() {
        return false;
    }
    let mut i: usize = 0;
    while i < n
        invariant
            n == s@.len() == t@.len(),
            i <= n,
            forall|k: int| 0 <= k < i ==> s@[k] == t@[k],
        decreases n - i,
    {
        if s.get_char(i) != t.get_char(i) {
            return false;
        }
        i = i + 1;
    }
    assert(s@ =~= t@);
    true
}

/// Whether the characters in `v` spell `s`.
pub fn chars_eq_str(v: &Vec<char>, s: &str) -> (r: bool)
    ensures
        r == (v@ == s@),
{
    let n = s.unicode_len();
    if v.len() != n {
        return false;
    }
    let mut i: usize = 0;
    while i < n
        invariant
            n == s@.len() == v@.len(),
            i <= n,
            forall|k: int| 0 <= k < i ==> v@[k] == s@[k],
        decreases n - i,
    {
        if v[i] != s.get_char(i) {
            return false;
        }
        i = i + 1;
    }
    assert(v@ =~= s@);
    true
}

/// Lowercase a character vector, ASCII letters only.
pub fn to_lower(v: &Vec<char>) -> (r: Vec<char>)
    ensures
        r@ == spec_lower(v@),
{
    let mut r: Vec<char> = Vec::new();
    let mut i: usize = 0;
    while i < v.len()
        invariant
            i <= v@.len(),
            r@.len() == i,
            forall|k: int| 0 <= k < i ==> r@[k] == spec_lower_char(v@[k]),
        decreases v@.len() - i,
    {
        r.push(lower_char(v[i]));
        i = i + 1;
    }
    assert(r@ =~= spec_lower(v@));
    r
}

/// The first `n` characters of `v`, or all of it when it is shorter.
pub fn prefix_chars(v: &Vec<char>, n: usize) -> (r: Vec<char>)
    ensures
        r@ == if n <= v@.len() {
            v@.take(n as int)
        } else {
            v@
        },
{
    let end = if n <= v.len() {
        n
    } else {
        v.len()
    };
    let mut r: Vec<char> = Vec::new();
    let mut i: usize = 0;
    while i < end
        invariant
            end <= v@.len(),
            i <= end,
            r@ == v@.take(i as int),
        decreases end - i,
    {
        r.push(v[i]);
        i = i + 1;
        assert(r@ =~= v@.take(i as int));
    }
    if n > v.len() {
        assert(r@ =~= v@);
    }
    r
}

/// `s` with leading ASCII whitespace removed.
pub open spec fn spec_trim_start(s: Seq<char>) -> Seq<char>
    decreases s.len(),
{
    if s.len() > 0 && spec_is_space(s[0]) {
        spec_trim_start(s.drop_first())
    } else {
        s
    }
}

/// `s` with trailing ASCII whitespace removed.
pub open spec fn spec_trim_end(s: Seq<char>) -> Seq<char>
    decreases s.len(),
{
    if s.len() > 0 && spec_is_space(s[s.len() - 1]) {
        spec_trim_end(s.drop_last())
    } else {
        s
    }
}

/// `s` with ASCII whitespace removed from both ends.
pub open spec fn spec_trim(s: Seq<char>) -> Seq<char> {
    spec_trim_end(spec_trim_start(s))
}

proof fn lemma_trim_start_skip(s: Seq<char>, i: int)
    requires
        0 <= i <= s.len(),
        forall|k: int| 0 <= k < i ==> spec_is_space(s[k]),
        i < s.len() ==> !spec_is_space(s[i]),
    ensures
        spec_trim_start(s) == s.skip(i),
    decreases i,
{
    if i == 0 {
        assert(s.skip(0) =~= s);
    } else {
        assert(spec_is_space(s[0]));
        lemma_trim_start_skip(s.drop_first(), i - 1);
        assert(s.drop_first().skip(i - 1) =~= s.skip(i));
    }
}

proof fn lemma_trim_end_take(s: Seq<char>, j: int)
    requires
        0 <= j <= s.len(),
        forall|k: int| j <= k < s.len() ==> spec_is_space(s[k]),
        j > 0 ==> !spec_is_space(s[j - 1]),
    ensures
        spec_trim_end(s) == s.take(j),
    decreases s.len() - j,
{
    if j == s.len() {
        assert(s.take(j) =~= s);
    } else {
        assert(spec_is_space(s[s.len() - 1]));
        lemma_trim_end_take(s.drop_last(), j);
        assert(s.drop_last().take(j) =~= s.take(j));
    }
}

/// `v` trimmed of ASCII whitespace at both ends.
pub fn trim(v: &Vec<char>) -> (r: Vec<char>)
    ensures
        r@ == spec_trim(v@),
{
    let mut lo: usize = 0;
    while lo < v.len() && is_space(v[lo])
        invariant
            lo <= v@.len(),
            forall|k: int| 0 <= k < lo ==> spec_is_space(v@[k]),
        decreases v@.len() - lo,
    {
        lo = lo + 1;
    }
    proof {
        lemma_trim_start_skip(v@, lo as int);
    }
    let mut hi: usize = v.len();
    while hi > lo && is_space(v[hi - 1])
        invariant
            lo <= hi <= v@.len(),
            forall|k: int| hi <= k < v@.len() ==> spec_is_space(v@[k]),
        decreases hi,
    {
        hi = hi - 1;
    }
    proof {
        if hi == lo {
            lemma_trim_end_take(v@.skip(lo as int), 0);
        } else {
            lemma_trim_end_take(v@.skip(lo as int), hi - lo);
        }
    }
    let mut r: Vec<char> = Vec::new();
    let mut i: usize = lo;
    while i < hi
        invariant
            lo <= i <= hi <= v@.len(),
            r@ == v@.subrange(lo as int, i as int),
        decreases hi - i,
    {
        r.push(v[i]);
        i = i + 1;
        assert(r@ =~= v@.subrange(lo as int, i as int));
    }
    assert(r@ =~= v@.skip(lo as int).take(hi - lo as int));
    r
}

/// Whether `needle` occurs in `hay` starting at position `i`.
pub open spec fn matches_at(hay: Seq<char>, needle: Seq<char>, i: int) -> bool {
    0 <= i && i + needle.len() <= hay.len() && hay.subrange(i, i + needle.len()) == needle
}

/// Whether `needle` occurs anywhere in `hay`.
pub open spec fn spec_contains(hay: Seq<char>, needle: Seq<char>) -> bool {
    exists|i: int| matches_at(hay, needle, i)
}

/// Position of the first occurrence of `needle` in `hay`: `Some` of the
/// least matching position, or `None` when there is none.  An empty needle
/// matches at position zero.
pub open spec fn spec_find(hay: Seq<char>, needle: Seq<char>) -> Option<int>
    decreases hay.len(),
{
    if matches_at(hay, needle, 0) {
        Some(0int)
    } else if hay.len() == 0 {
        None
    } else {
        match spec_find(hay.drop_first(), needle) {
            Some(i) => Some(i + 1),
            None => None,
        }
    }
}

proof fn lemma_matches_at_shift(hay: Seq<char>, needle: Seq<char>, k: int)
    requires
        k >= 0,
        hay.len() > 0,
    ensures
        matches_at(hay.drop_first(), needle, k) == matches_at(hay, needle, k + 1),
{
    let d = hay.drop_first();
    assert(d.len() == hay.len() - 1);
    if k + needle.len() <= d.len() {
        assert(d.subrange(k, k + needle.len()) =~= hay.subrange(k + 1, k + 1 + needle.len()));
    }
}

/// What [`spec_find`] returns: the first match when there is one, and
/// nothing exactly when there is no match at all.
pub proof fn lemma_spec_find_first(hay: Seq<char>, needle: Seq<char>)
    ensures
        match spec_find(hay, needle) {
            Some(i) => matches_at(hay, needle, i) && forall|j: int|
                0 <= j < i ==> !matches_at(hay, needle, j),
            None => !spec_contains(hay, needle),
        },
    decreases hay.len(),
{
    if !matches_at(hay, needle, 0) && hay.len() > 0 {
        lemma_spec_find_first(hay.drop_first(), needle);
        match spec_find(hay.drop_first(), needle) {
            Some(i) => {
                lemma_matches_at_shift(hay, needle, i);
                assert forall|j: int| 0 <= j < i + 1 implies !matches_at(hay, needle, j) by {
                    if j > 0 {
                        lemma_matches_at_shift(hay, needle, j - 1);
                    }
                }
            },
            None => {
                assert(!spec_contains(hay, needle)) by {
                    if spec_contains(hay, needle) {
                        let j = choose|j: int| matches_at(hay, needle, j);
                        assert(j > 0);
                        lemma_matches_at_shift(hay, needle, j - 1);
                    }
                }
            },
        }
    }
}

proof fn lemma_find_unique(hay: Seq<char>, needle: Seq<char>, i: int)
    requires
        matches_at(hay, needle, i),
        forall|j: int| 0 <= j < i ==> !matches_at(hay, needle, j),
    ensures
        spec_find(hay, needle) == Some(i),
{
    lemma_spec_find_first(hay, needle);
}

/// Position of the first occurrence of `needle` in `hay`, if any.  An empty
/// needle matches at position zero.
pub fn find_chars(hay: &Vec<char>, needle: &Vec<char>) -> (r: Option<usize>)
    ensures
        match r {
            Some(i) => matches_at(hay@, needle@, i as int) && forall|j: int|
                0 <= j < i ==> !matches_at(hay@, needle@, j),
            None => !spec_contains(hay@, needle@),
        },
        match (r, spec_find(hay@, needle@)) {
            (Some(i), Some(si)) => i == si,
            (None, None) => true,
            _ => false,
        },
{
    let n = needle.len();
    let hlen = hay.len();
    if n == 0 {
        assert(matches_at(hay@, needle@, 0)) by {
            assert(hay@.subrange(0, 0) =~= needle@);
        }
        proof {
            lemma_find_unique(hay@, needle@, 0);
        }
        return Some(0);
    }
    if n > hlen {
        assert(forall|j: int| !matches_at(hay@, needle@, j));
        proof {
            lemma_spec_find_first(hay@, needle@);
        }
        return None;
    }
    let last = hlen - n;
    let mut i: usize = 0;
    while i <= last
        invariant
            n == needle@.len(),
            hlen == hay@.len(),
            0 < n <= hlen,
            last == hlen - n,
            i <= last + 1,
            forall|j: int| 0 <= j < i ==> !matches_at(hay@, needle@, j),
        decreases last + 1 - i,
    {
        let mut k: usize = 0;
        let mut hit = true;
        while k < n
            invariant
                n == needle@.len(),
                hlen == hay@.len(),
                i + n <= hlen,
                k <= n,
                hit ==> forall|m: int| 0 <= m < k ==> hay@[i + m] == needle@[m],
                !hit ==> exists|m: int| 0 <= m < n && hay@[i + m] != needle@[m],
            decreases n - k,
        {
            if hay[i + k] != needle[k] {
                hit = false;
                k = n;
            } else {
                k = k + 1;
            }
        }
        if hit {
            assert(hay@.subrange(i as int, i + needle@.len()) =~= needle@);
            proof {
                lemma_find_unique(hay@, needle@, i as int);
            }
            return Some(i);
        }
        proof {
            let m = choose|m: int| 0 <= m < n && hay@[i + m] != needle@[m];
            assert(hay@.subrange(i as int, i + needle@.len())[m] == hay@[i + m]);
            assert(!matches_at(hay@, needle@, i as int));
        }
        i = i + 1;
    }
    assert(forall|j: int| j > last ==> !matches_at(hay@, needle@, j));
    proof {
        lemma_spec_find_first(hay@, needle@);
    }
    None
}

/// Position of the first occurrence of `needle` in `hay`, if any.
pub fn find_sub(hay: &Vec<char>, needle: &str) -> (r: Option<usize>)
    ensures
        match r {
            Some(i) => matches_at(hay@, needle@, i as int) && forall|j: int|
                0 <= j < i ==> !matches_at(hay@, needle@, j),
            None => !spec_contains(hay@, needle@),
        },
        match (r, spec_find(hay@, needle@)) {
            (Some(i), Some(si)) => i == si,
            (None, None) => true,
            _ => false,
        },
{
    let nv = chars_of(needle);
    find_chars(hay, &nv)
}

/// Whether `needle` occurs anywhere in `hay`.
pub fn contains_chars(hay: &Vec<char>, needle: &Vec<char>) -> (r: bool)
    ensures
        r == spec_contains(hay@, needle@),
{
    match find_chars(hay, needle) {
        Some(_) => true,
        None => false,
    }
}

/// Whether `needle` occurs anywhere in `hay`.
pub fn contains_sub(hay: &Vec<char>, needle: &str) -> (r: bool)
    ensures
        r == spec_contains(hay@, needle@),
{
    match find_sub(hay, needle) {
        Some(_) => true,
        None => false,
    }
}

/// The characters of `v` between positions `lo` and `hi`.
pub fn subrange_chars(v: &Vec<char>, lo: usize, hi: usize) -> (r: Vec<char>)
    requires
        lo <= hi <= v@.len(),
    ensures
        r@ == v@.subrange(lo as int, hi as int),
{
    let mut r: Vec<char> = Vec::new();
    let mut i: usize = lo;
    while i < hi
        invariant
            lo <= i <= hi <= v@.len(),
            r@ == v@.subrange(lo as int, i as int),
        decreases hi - i,
    {
        r.push(v[i]);
        i = i + 1;
        assert(r@ =~= v@.subrange(lo as int, i as int));
    }
    r
}

/// Append the characters of `w` to `v`.
pub fn extend_chars(v: &mut Vec<char>, w: &Vec<char>)
    ensures
        final(v)@ == old(v)@ + w@,
{
    let mut i: usize = 0;
    while i < w.len()
        invariant
            i <= w@.len(),
            v@ == old(v)@ + w@.take(i as int),
        decreases w@.len() - i,
    {
        v.push(w[i]);
        i = i + 1;
        assert(v@ =~= old(v)@ + w@.take(i as int));
    }
    assert(v@ =~= old(v)@ + w@);
}

/// Expansion of one character under backslash-escaping of double quotes.
pub open spec fn spec_dq_char(c: char) -> Seq<char> {
    if c == '"' {
        seq!['\\', '"']
    } else {
        seq![c]
    }
}

/// `s` with every double quote backslash-escaped.
pub open spec fn spec_escape_dq(s: Seq<char>) -> Seq<char>
    decreases s.len(),
{
    if s.len() == 0 {
        Seq::empty()
    } else {
        spec_escape_dq(s.drop_last()) + spec_dq_char(s.last())
    }
}

/// Expansion of one character under doubling of backslashes.
pub open spec fn spec_bs_char(c: char) -> Seq<char> {
    if c == '\\' {
        seq!['\\', '\\']
    } else {
        seq![c]
    }
}

/// `s` with every backslash doubled.
pub open spec fn spec_escape_bs(s: Seq<char>) -> Seq<char>
    decreases s.len(),
{
    if s.len() == 0 {
        Seq::empty()
    } else {
        spec_escape_bs(s.drop_last()) + spec_bs_char(s.last())
    }
}

/// Expansion of one character under PowerShell single-quote doubling.
pub open spec fn spec_ps_char(c: char) -> Seq<char> {
    if c == '\'' {
        seq!['\'', '\'']
    } else {
        seq![c]
    }
}

/// `s` with every single quote doubled, the PowerShell string escape.
pub open spec fn spec_escape_ps(s: Seq<char>) -> Seq<char>
    decreases s.len(),
{
    if s.len() == 0 {
        Seq::empty()
    } else {
        spec_escape_ps(s.drop_last()) + spec_ps_char(s.last())
    }
}

/// Expansion of one character under POSIX single-quote escaping: a quote
/// closes the quoted span, stands escaped, and reopens it.
pub open spec fn spec_posix_char(c: char) -> Seq<char> {
    if c == '\'' {
        seq!['\'', '\\', '\'', '\'']
    } else {
        seq![c]
    }
}

/// `s` with every single quote escaped for a POSIX single-quoted string.
pub open spec fn spec_escape_posix(s: Seq<char>) -> Seq<char>
    decreases s.len(),
{
    if s.len() == 0 {
        Seq::empty()
    } else {
        spec_escape_posix(s.drop_last()) + spec_posix_char(s.last())
    }
}

/// Backslash-escape every double quote in `v`.
pub fn escape_double_quotes(v: &Vec<char>) -> (r: Vec<char>)
    ensures
        r@ == spec_escape_dq(v@),
{
    let mut r: Vec<char> = Vec::new();
    let mut i: usize = 0;
    while i < v.len()
        invariant
            i <= v@.len(),
            r@ == spec_escape_dq(v@.take(i as int)),
        decreases v@.len() - i,
    {
        let c = v[i];
        if c == '"' {
            r.push('\\');
            r.push('"');
        } else {
            r.push(c);
        }
        i = i + 1;
        proof {
            assert(v@.take(i as int).drop_last() =~= v@.take(i - 1));
            assert(v@.take(i as int).last() == v@[i - 1]);
            assert(r@ =~= spec_escape_dq(v@.take(i - 1)) + spec_dq_char(v@[i - 1]));
        }
    }
    assert(v@.take(v@.len() as int) =~= v@);
    r
}

/// Double every backslash in `v`.
pub fn escape_backslashes(v: &Vec<char>) -> (r: Vec<char>)
    ensures
        r@ == spec_escape_bs(v@),
{
    let mut r: Vec<char> = Vec::new();
    let mut i: usize = 0;
    while i < v.len()
        invariant
            i <= v@.len(),
            r@ == spec_escape_bs(v@.take(i as int)),
        decreases v@.len() - i,
    {
        let c = v[i];
        if c == '\\' {
            r.push('\\');
            r.push('\\');
        } else {
            r.push(c);
        }
        i = i + 1;
        proof {
            assert(v@.take(i as int).drop_last() =~= v@.take(i - 1));
            assert(v@.take(i as int).last() == v@[i - 1]);
            assert(r@ =~= spec_escape_bs(v@.take(i - 1)) + spec_bs_char(v@[i - 1]));
        }
    }
    assert(v@.take(v@.len() as int) =~= v@);
    r
}

/// Double every single quote in `v`, the PowerShell string escape.
pub fn escape_ps_quotes(v: &Vec<char>) -> (r: Vec<char>)
    ensures
        r@ == spec_escape_ps(v@),
{
    let mut r: Vec<char> = Vec::new();
    let mut i: usize = 0;
    while i < v.len()
        invariant
            i <= v@.len(),
            r@ == spec_escape_ps(v@.take(i as int)),
        decreases v@.len() - i,
    {
        let c = v[i];
        if c == '\'' {
            r.push('\'');
            r.push('\'');
        } else {
            r.push(c);
        }
        i = i + 1;
        proof {
            assert(v@.take(i as int).drop_last() =~= v@.take(i - 1));
            assert(v@.take(i as int).last() == v@[i - 1]);
            assert(r@ =~= spec_escape_ps(v@.take(i - 1)) + spec_ps_char(v@[i - 1]));
        }
    }
    assert(v@.take(v@.len() as int) =~= v@);
    r
}

/// Escape every single quote in `v` for a POSIX single-quoted string.
pub fn escape_posix_quotes(v: &Vec<char>) -> (r: Vec<char>)
    ensures
        r@ == spec_escape_posix(v@),
{
    let mut r: Vec<char> = Vec::new();
    let mut i: usize = 0;
    while i < v.len()
        invariant
            i <= v@.len(),
            r@ == spec_escape_posix(v@.take(i as int)),
        decreases v@.len() - i,
    {
        let c = v[i];
        if c == '\'' {
            r.push('\'');
            r.push('\\');
            r.push('\'');
            r.push('\'');
        } else {
            r.push(c);
        }
        i = i + 1;
        proof {
            assert(v@.take(i as int).drop_last() =~= v@.take(i - 1));
            assert(v@.take(i as int).last() == v@[i - 1]);
            assert(r@ =~= spec_escape_posix(v@.take(i - 1)) + spec_posix_char(v@[i - 1]));
        }
    }
    assert(v@.take(v@.len() as int) =~= v@);
    r
}

/// The decimal digit `d` as a character.
pub open spec fn spec_digit_char(d: int) -> char
    recommends
        0 <= d < 10,
{
    if d == 0 {
        '0'
    } else if d == 1 {
        '1'
    } else if d == 2 {
        '2'
    } else if d == 3 {
        '3'
    } else if d == 4 {
        '4'
    } else if d == 5 {
        '5'
    } else if d == 6 {
        '6'
    } else if d == 7 {
        '7'
    } else if d == 8 {
        '8'
    } else {
        '9'
    }
}

/// The decimal digits of `n`, most significant first.
pub open spec fn spec_decimal(n: int) -> Seq<char>
    recommends
        n >= 0,
    decreases n,
{
    if n < 10 {
        seq![spec_digit_char(n)]
    } else {
        spec_decimal(n / 10) + seq![spec_digit_char(n % 10)]
    }
}

fn digit_char(d: u32) -> (c: char)
    requires
        d < 10,
    ensures
        c == spec_digit_char(d as int),
{
    if d == 0 {
        '0'
    } else if d == 1 {
        '1'
    } else if d == 2 {
        '2'
    } else if d == 3 {
        '3'
    } else if d == 4 {
        '4'
    } else if d == 5 {
        '5'
    } else if d == 6 {
        '6'
    } else if d == 7 {
        '7'
    } else if d == 8 {
        '8'
    } else {
        '9'
    }
}

/// The decimal representation of `n`, as characters.
pub fn decimal_of(n: u32) -> (v: Vec<char>)
    ensures
        v@ == spec_decimal(n as int),
    decreases n,
{
    if n < 10 {
        let mut v: Vec<char> = Vec::new();
        v.push(digit_char(n));
        assert(v@ =~= spec_decimal(n as int));
        v
    } else {
        let mut v = decimal_of(n / 10);
        v.push(digit_char(n % 10));
        assert(v@ =~= spec_decimal(n as int));
        v
    }
}

} // verus!
