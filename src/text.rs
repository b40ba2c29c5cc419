use vstd::prelude::*;
use vstd::string::{StrSliceExecFns, StringExecFns};

verus! {

/// The character sequences of a list of owned strings.
pub open spec fn views_of(v: Seq<String>) -> Seq<Seq<char>> {
    v.map_values(|s: String| s@)
}

/// The character sequences of a list of string slices.
pub open spec fn str_views_of(v: Seq<&str>) -> Seq<Seq<char>> {
    v.map_values(|s: &str| s@)
}

/// Whether two slices hold the same characters.
pub fn str_eq(a: &str, b: &str) -> (r: bool)
    ensures
        r == (a@ == b@),
{
    let n = a.unicode_len();
    if n != b.unicode_len() {
        return false;
    }
    let mut i: usize = 0;
    while i < n
        invariant
            n == a@.len(),
            n == b@.len(),
            i <= n,
            forall|j: int| 0 <= j < i ==> a@[j] == b@[j],
        decreases n - i,
    {
        if a.get_char(i) != b.get_char(i) {
            return false;
        }
        i = i + 1;
    }
    assert(a@ =~= b@);
    true
}

/// Appends `t` to `s`.
pub fn push_str(s: &mut String, t: &str)
    ensures
        final(s)@ == old(s)@ + t@,
{
    s.append(t);
}

/// Copies each slice into an owned string, keeping the order.
pub fn to_owned_all(v: &Vec<&str>) -> (r: Vec<String>)
    ensures
        views_of(r@) == str_views_of(v@),
{
    let mut r: Vec<String> = Vec::new();
    for i in 0..v.len()
        invariant
            views_of(r@) == str_views_of(v@.subrange(0, i as int)),
    {
        r.push(v[i].to_owned());
        assert(str_views_of(v@.subrange(0, i + 1)) == str_views_of(v@.subrange(0, i as int)).push(v@[i as int]@));
    }
    assert(v@.subrange(0, v.len() as int) == v@);
    r
}

/// Whether `pattern` occurs in `s` as a contiguous run of characters.
pub open spec fn has_substring(s: Seq<char>, pattern: Seq<char>) -> bool {
    exists|i: int|
        0 <= i && i + pattern.len() <= s.len() && #[trigger] s.subrange(i, i + pattern.len())
            == pattern
}

/// Whether `pattern` occurs at position `i` of `s`.
fn occurs_at(s: &str, pattern: &str, i: usize) -> (r: bool)
    requires
        i + pattern@.len() <= s@.len(),
    ensures
        r == (s@.subrange(i as int, i + pattern@.len()) == pattern@),
{
    let m = pattern.unicode_len();
    let n = s.unicode_len();
    let mut k: usize = 0;
    while k < m
        invariant
            m == pattern@.len(),
            n == s@.len(),
            i + m <= s@.len(),
            k <= m,
            forall|j: int| 0 <= j < k ==> s@[i + j] == pattern@[j],
        decreases m - k,
    {
        if s.get_char(i + k) != pattern.get_char(k) {
            assert(s@.subrange(i as int, i + m)[k as int] != pattern@[k as int]);
            return false;
        }
        k = k + 1;
    }
    assert(s@.subrange(i as int, i + m) =~= pattern@);
    true
}

/// Whether `pattern` occurs in `s`.
pub fn contains_str(s: &str, pattern: &str) -> (r: bool)
    ensures
        r == has_substring(s@, pattern@),
{
    let n = s.unicode_len();
    let m = pattern.unicode_len();
    if m > n {
        return false;
    }
    let mut i: usize = 0;
    while i <= n - m
        invariant
            n == s@.len(),
            m == pattern@.len(),
            m <= n,
            i <= n - m + 1,
            forall|j: int| 0 <= j < i ==> #[trigger] s@.subrange(j, j + m) != pattern@,
        decreases n - m + 1 - i,
    {
        if occurs_at(s, pattern, i) {
            return true;
        }
        if i == n - m {
            return false;
        }
        i = i + 1;
    }
    false
}

/// The words of a string: its maximal runs of non-whitespace characters,
/// in order.
pub open spec fn whitespace_words(s: Seq<char>) -> Seq<Seq<char>>
    decreases s.len(),
{
    if s.len() == 0 {
        Seq::empty()
    } else {
        let w = whitespace_words(s.drop_last());
        if is_ws(s.last()) {
            w
        } else if s.len() > 1 && !is_ws(s[s.len() - 2]) {
            w.update(w.len() - 1, w.last().push(s.last()))
        } else {
            w.push(seq![s.last()])
        }
    }
}

/// The words of the string, in order.
pub fn split_words(s: &str) -> (r: Vec<String>)
    ensures
        views_of(r@) == whitespace_words(s@),
{
    let n = s.unicode_len();
    let mut r: Vec<String> = Vec::new();
    let mut start: usize = 0;
    let mut in_word = false;
    let mut i: usize = 0;
    while i < n
        invariant
            n == s@.len(),
            i <= n,
            start <= i,
            in_word == (i > 0 && !is_ws(s@[i - 1])),
            in_word ==> whitespace_words(s@.subrange(0, i as int)) == views_of(r@).push(
                s@.subrange(start as int, i as int),
            ),
            !in_word ==> whitespace_words(s@.subrange(0, i as int)) == views_of(r@),
        decreases n - i,
    {
        let c = s.get_char(i);
        let ghost pre = s@.subrange(0, i as int);
        let ghost post = s@.subrange(0, i + 1);
        assert(post.drop_last() =~= pre);
        assert(post.last() == c);
        if is_whitespace(c) {
            if in_word {
                let ghost before = views_of(r@);
                r.push(s.substring_char(start, i).to_owned());
                assert(views_of(r@) =~= before.push(s@.subrange(start as int, i as int)));
            }
            in_word = false;
        } else {
            if in_word {
                assert(post[post.len() - 2] == s@[i - 1]);
                assert(s@.subrange(start as int, i + 1) =~= s@.subrange(start as int, i as int).push(c));
                assert(whitespace_words(post) =~= views_of(r@).push(s@.subrange(start as int, i + 1)));
            } else {
                if i > 0 {
                    assert(post[post.len() - 2] == s@[i - 1]);
                }
                start = i;
                assert(s@.subrange(start as int, i + 1) =~= seq![c]);
            }
            in_word = true;
        }
        i = i + 1;
    }
    assert(s@.subrange(0, n as int) =~= s@);
    if in_word {
        let ghost before = views_of(r@);
        r.push(s.substring_char(start, n).to_owned());
        assert(views_of(r@) =~= before.push(s@.subrange(start as int, n as int)));
    }
    r
}

/// The pieces of a string that each end after a `'\n'`, the last one
/// possibly without it; an empty string has none.
pub open spec fn line_pieces(s: Seq<char>) -> Seq<Seq<char>>
    decreases s.len(),
{
    if s.len() == 0 {
        Seq::empty()
    } else {
        let p = line_pieces(s.drop_last());
        if s.len() > 1 && s[s.len() - 2] != '\n' {
            p.update(p.len() - 1, p.last().push(s.last()))
        } else {
            p.push(seq![s.last()])
        }
    }
}

/// A piece without its line ending: a final `'\n'`, and then a `'\r'`
/// before it.
pub open spec fn strip_line_end(piece: Seq<char>) -> Seq<char> {
    if piece.len() > 0 && piece.last() == '\n' {
        let q = piece.drop_last();
        if q.len() > 0 && q.last() == '\r' {
            q.drop_last()
        } else {
            q
        }
    } else {
        piece
    }
}

/// The lines of a string, without their line endings (`"\n"` or
/// `"\r\n"`); a final line ending adds no empty line.
pub open spec fn lines_of(s: Seq<char>) -> Seq<Seq<char>> {
    line_pieces(s).map_values(|p: Seq<char>| strip_line_end(p))
}

/// The lines of the string, in order.
pub fn split_lines(s: &str) -> (r: Vec<String>)
    ensures
        views_of(r@) == lines_of(s@),
{
    let n = s.unicode_len();
    let mut r: Vec<String> = Vec::new();
    let ghost mut done: Seq<Seq<char>> = Seq::empty();
    let mut start: usize = 0;
    let mut i: usize = 0;
    while i < n
        invariant
            n == s@.len(),
            start <= i <= n,
            (start < i) == (i > 0 && s@[i - 1] != '\n'),
            views_of(r@) == done.map_values(|p: Seq<char>| strip_line_end(p)),
            start < i ==> line_pieces(s@.subrange(0, i as int)) == done.push(
                s@.subrange(start as int, i as int),
            ),
            start == i ==> line_pieces(s@.subrange(0, i as int)) == done,
        decreases n - i,
    {
        let c = s.get_char(i);
        let ghost pre = s@.subrange(0, i as int);
        let ghost post = s@.subrange(0, i + 1);
        assert(post.drop_last() =~= pre);
        assert(post.last() == c);
        if i > 0 {
            assert(post[post.len() - 2] == s@[i - 1]);
        }
        let ghost piece = s@.subrange(start as int, i + 1);
        if start < i {
            assert(piece =~= s@.subrange(start as int, i as int).push(c));
            assert(line_pieces(post) =~= done.push(piece));
        } else {
            assert(piece =~= seq![c]);
            assert(line_pieces(post) =~= done.push(piece));
        }
        if c == '\n' {
            let mut end: usize = i;
            if end > start && s.get_char(end - 1) == '\r' {
                end = end - 1;
            }
            let ghost before = views_of(r@);
            r.push(s.substring_char(start, end).to_owned());
            proof {
                let q = piece.drop_last();
                assert(q =~= s@.subrange(start as int, i as int));
                if i > start && s@[i - 1] == '\r' {
                    assert(q.last() == s@[i - 1]);
                    assert(q.drop_last() =~= s@.subrange(start as int, end as int));
                }
                assert(strip_line_end(piece) == s@.subrange(start as int, end as int));
                done = done.push(piece);
                assert(views_of(r@) =~= before.push(strip_line_end(piece)));
                assert(done.map_values(|p: Seq<char>| strip_line_end(p)) =~= before.push(
                    strip_line_end(piece),
                ));
            }
            start = i + 1;
        }
        i = i + 1;
    }
    assert(s@.subrange(0, n as int) =~= s@);
    if start < n {
        let ghost before = views_of(r@);
        let ghost piece = s@.subrange(start as int, n as int);
        r.push(s.substring_char(start, n).to_owned());
        proof {
            assert(piece.last() == s@[n - 1]);
            assert(strip_line_end(piece) == piece);
            assert(views_of(r@) =~= before.push(piece));
            assert(done.push(piece).map_values(|p: Seq<char>| strip_line_end(p)) =~= before.push(piece));
        }
    }
    r
}

/// Whether `c` is whitespace: a character with the Unicode `White_Space`
/// property, as `char::is_whitespace` documents.
pub open spec fn is_ws(c: char) -> bool {
    let u = c as u32;
    (0x9 <= u <= 0xd) || u == 0x20 || u == 0x85 || u == 0xa0 || u == 0x1680 || (0x2000 <= u
        <= 0x200a) || u == 0x2028 || u == 0x2029 || u == 0x202f || u == 0x205f || u == 0x3000
}

pub fn is_whitespace(c: char) -> (r: bool)
    ensures
        r == is_ws(c),
{
    let u = c as u32;
    (0x9 <= u && u <= 0xd) || u == 0x20 || u == 0x85 || u == 0xa0 || u == 0x1680 || (0x2000 <= u
        && u <= 0x200a) || u == 0x2028 || u == 0x2029 || u == 0x202f || u == 0x205f || u == 0x3000
}

/// A string without its leading whitespace.
pub open spec fn trim_start(s: Seq<char>) -> Seq<char>
    decreases s.len(),
{
    if s.len() > 0 && is_ws(s[0]) {
        trim_start(s.drop_first())
    } else {
        s
    }
}

/// A string without its trailing whitespace.
pub open spec fn trim_end(s: Seq<char>) -> Seq<char>
    decreases s.len(),
{
    if s.len() > 0 && is_ws(s.last()) {
        trim_end(s.drop_last())
    } else {
        s
    }
}

/// A string without its leading and trailing whitespace.
pub open spec fn trimmed(s: Seq<char>) -> Seq<char> {
    trim_end(trim_start(s))
}

/// The string without leading and trailing whitespace.
pub fn trim(s: &str) -> (r: String)
    ensures
        r@ == trimmed(s@),
{
    let n = s.unicode_len();
    let mut i: usize = 0;
    assert(s@.subrange(0, n as int) =~= s@);
    while i < n && is_whitespace(s.get_char(i))
        invariant
            n == s@.len(),
            i <= n,
            trim_start(s@) == trim_start(s@.subrange(i as int, n as int)),
        decreases n - i,
    {
        assert(s@.subrange(i as int, n as int).drop_first() =~= s@.subrange(i + 1, n as int));
        i = i + 1;
    }
    assert(trim_start(s@.subrange(i as int, n as int)) == s@.subrange(i as int, n as int));
    let mut j: usize = n;
    while j > i && is_whitespace(s.get_char(j - 1))
        invariant
            n == s@.len(),
            i <= j <= n,
            trim_end(s@.subrange(i as int, n as int)) == trim_end(s@.subrange(i as int, j as int)),
        decreases j - i,
    {
        assert(s@.subrange(i as int, j as int).drop_last() =~= s@.subrange(i as int, j - 1));
        j = j - 1;
    }
    assert(trim_end(s@.subrange(i as int, j as int)) == s@.subrange(i as int, j as int));
    s.substring_char(i, j).to_owned()
}

/// The words joined by `sep`.
pub open spec fn separated(words: Seq<Seq<char>>, sep: Seq<char>) -> Seq<char>
    decreases words.len(),
{
    if words.len() == 0 {
        Seq::empty()
    } else if words.len() == 1 {
        words[0]
    } else {
        separated(words.drop_last(), sep) + sep + words.last()
    }
}

/// Joins the words with `sep` between each two.
pub fn join(words: &Vec<String>, sep: &str) -> (r: String)
    ensures
        r@ == separated(views_of(words@), sep@),
{
    let mut line = String::new();
    let mut i: usize = 0;
    while i < words.len()
        invariant
            i <= words@.len(),
            line@ == separated(views_of(words@.subrange(0, i as int)), sep@),
        decreases words@.len() - i,
    {
        let ghost before = views_of(words@.subrange(0, i as int));
        if i > 0 {
            push_str(&mut line, sep);
        }
        push_str(&mut line, words[i].as_str());
        proof {
            let after = views_of(words@.subrange(0, i + 1));
            assert(after.drop_last() == before);
            assert(after.last() == words@[i as int]@);
            if i == 0 {
                assert(before.len() == 0);
                assert(line@ =~= after[0]);
            }
        }
        i = i + 1;
    }
    assert(words@.subrange(0, words@.len() as int) == words@);
    line
}

} // verus!
