//! Text handling on sequences of characters: white space, lines, words and
//! separators.
use vstd::prelude::*;
use vstd::string::{StrSliceExecFns, StringExecFns};

verus! {

/// Whether `c` has the Unicode property `White_Space`.
pub open spec fn white_space(c: char) -> bool {
    ||| '\u{0009}' <= c <= '\u{000d}'
    ||| c == '\u{0020}'
    ||| c == '\u{0085}'
    ||| c == '\u{00a0}'
    ||| c == '\u{1680}'
    ||| '\u{2000}' <= c <= '\u{200a}'
    ||| c == '\u{2028}'
    ||| c == '\u{2029}'
    ||| c == '\u{202f}'
    ||| c == '\u{205f}'
    ||| c == '\u{3000}'
}

/// The predicate that holds of white space.
pub open spec fn blank() -> spec_fn(char) -> bool {
    |c: char| white_space(c)
}

/// The predicate that holds of `x` alone.
pub open spec fn only(x: char) -> spec_fn(char) -> bool {
    |c: char| c == x
}

/// `s` without the longest prefix whose characters all satisfy `p`.
pub open spec fn strip_front(s: Seq<char>, p: spec_fn(char) -> bool) -> Seq<char>
    decreases s.len(),
{
    if s.len() > 0 && p(s[0]) {
        strip_front(s.drop_first(), p)
    } else {
        s
    }
}

/// `s` without the longest suffix whose characters all satisfy `p`.
pub open spec fn strip_back(s: Seq<char>, p: spec_fn(char) -> bool) -> Seq<char>
    decreases s.len(),
{
    if s.len() > 0 && p(s.last()) {
        strip_back(s.drop_last(), p)
    } else {
        s
    }
}

/// `s` without leading and trailing white space.
pub open spec fn trimmed(s: Seq<char>) -> Seq<char> {
    strip_back(strip_front(s, blank()), blank())
}

/// Where the first character that satisfies `p` stands in `s`; the length of
/// `s` where there is none.
pub open spec fn first_where(s: Seq<char>, p: spec_fn(char) -> bool) -> int
    decreases s.len(),
{
    if s.len() == 0 || p(s[0]) {
        0
    } else {
        1 + first_where(s.drop_first(), p)
    }
}

/// The pieces of `s` between the occurrences of `sep`.
pub open spec fn split(s: Seq<char>, sep: char) -> Seq<Seq<char>>
    decreases s.len(),
{
    let i = first_where(s, only(sep));
    if 0 <= i < s.len() {
        seq![s.take(i)] + split(s.skip(i + 1), sep)
    } else {
        seq![s]
    }
}

/// `line` without one trailing carriage return.
pub open spec fn chomped(line: Seq<char>) -> Seq<char> {
    if line.len() > 0 && line.last() == '\r' {
        line.drop_last()
    } else {
        line
    }
}

/// The lines of `s`. A line ends with a line feed, which a carriage return may
/// precede; the line ending of the last line is optional.
pub open spec fn lines(s: Seq<char>) -> Seq<Seq<char>>
    decreases s.len(),
{
    let i = first_where(s, only('\n'));
    if s.len() == 0 {
        Seq::empty()
    } else if 0 <= i < s.len() {
        seq![chomped(s.take(i))] + lines(s.skip(i + 1))
    } else {
        seq![s]
    }
}

/// The maximal runs of characters of `s` that are not white space.
pub open spec fn words(s: Seq<char>) -> Seq<Seq<char>>
    decreases s.len(),
{
    if s.len() == 0 {
        Seq::empty()
    } else if white_space(s[0]) {
        words(s.drop_first())
    } else {
        let n = first_where(s, blank());
        if 0 < n <= s.len() {
            seq![s.take(n)] + words(s.skip(n))
        } else {
            Seq::empty()
        }
    }
}

/// The characters of each of the given strings.
pub open spec fn texts(strings: Seq<String>) -> Seq<Seq<char>> {
    strings.map_values(|s: String| s@)
}

/// The characters of each of the given string slices.
pub open spec fn str_texts(strs: Seq<&str>) -> Seq<Seq<char>> {
    strs.map_values(|s: &str| s@)
}

/// Whether `c` has the Unicode property `White_Space`.
pub fn is_white_space(c: char) -> (r: bool)
    ensures
        r == white_space(c),
{
    ('\u{0009}' <= c && c <= '\u{000d}') || c == '\u{0020}' || c == '\u{0085}' || c == '\u{00a0}'
        || c == '\u{1680}' || ('\u{2000}' <= c && c <= '\u{200a}') || c == '\u{2028}' || c
        == '\u{2029}' || c == '\u{202f}' || c == '\u{205f}' || c == '\u{3000}'
}

/// The characters of `s`.
pub fn to_chars(s: &str) -> (chars: Vec<char>)
    ensures
        chars@ == s@,
{
    let mut chars: Vec<char> = Vec::new();
    for c in it: s.chars()
        invariant
            chars@ == it.seq().take(it.index()),
            it.seq() == s@,
    {
        chars.push(c);
    }
    chars
}

/// The first index of `s` with a character that satisfies `p` is the only one
/// before which no character does.
pub proof fn lemma_first_where_is(s: Seq<char>, p: spec_fn(char) -> bool, n: int)
    requires
        0 <= n <= s.len(),
        forall|j: int| 0 <= j < n ==> !p(#[trigger] s[j]),
        n < s.len() ==> p(s[n]),
    ensures
        first_where(s, p) == n,
    decreases s.len(),
{
    if s.len() > 0 && !p(s[0]) {
        assert(n > 0);
        assert forall|j: int| 0 <= j < n - 1 implies !p(#[trigger] s.drop_first()[j]) by {
            assert(!p(s[j + 1]));
        }
        lemma_first_where_is(s.drop_first(), p, n - 1);
    }
}

/// What `first_where` returns is the first index with a character that
/// satisfies `p`.
pub proof fn lemma_first_where(s: Seq<char>, p: spec_fn(char) -> bool)
    ensures
        0 <= first_where(s, p) <= s.len(),
        forall|j: int| 0 <= j < first_where(s, p) ==> !p(#[trigger] s[j]),
        first_where(s, p) < s.len() ==> p(s[first_where(s, p)]),
    decreases s.len(),
{
    if s.len() > 0 && !p(s[0]) {
        lemma_first_where(s.drop_first(), p);
        assert forall|j: int| 0 <= j < first_where(s, p) implies !p(#[trigger] s[j]) by {
            if j > 0 {
                assert(!p(s.drop_first()[j - 1]));
            }
        }
    }
}

/// Stripping the front leaves what follows the leading characters that satisfy
/// `p`.
pub proof fn lemma_strip_front_is(s: Seq<char>, p: spec_fn(char) -> bool, n: int)
    requires
        0 <= n <= s.len(),
        forall|j: int| 0 <= j < n ==> p(#[trigger] s[j]),
        n < s.len() ==> !p(s[n]),
    ensures
        strip_front(s, p) == s.skip(n),
    decreases s.len(),
{
    if s.len() > 0 && p(s[0]) {
        assert(n > 0);
        assert forall|j: int| 0 <= j < n - 1 implies p(#[trigger] s.drop_first()[j]) by {
            assert(p(s[j + 1]));
        }
        lemma_strip_front_is(s.drop_first(), p, n - 1);
        assert(s.drop_first().skip(n - 1) =~= s.skip(n));
    } else {
        assert(s.skip(0) =~= s);
    }
}

/// Stripping the back leaves what precedes the trailing characters that satisfy
/// `p`.
pub proof fn lemma_strip_back_is(s: Seq<char>, p: spec_fn(char) -> bool, n: int)
    requires
        0 <= n <= s.len(),
        forall|j: int| n <= j < s.len() ==> p(#[trigger] s[j]),
        n > 0 ==> !p(s[n - 1]),
    ensures
        strip_back(s, p) == s.take(n),
    decreases s.len(),
{
    if s.len() > 0 && p(s.last()) {
        assert(n < s.len());
        lemma_strip_back_is(s.drop_last(), p, n);
        assert(s.drop_last().take(n) =~= s.take(n));
    } else {
        if n < s.len() {
            assert(p(s[s.len() - 1]));
        }
        assert(s.take(n) =~= s);
    }
}

/// Where the text of `s` without the white space around it begins and ends.
proof fn lemma_trimmed_bounds(s: Seq<char>) -> (bounds: (int, int))
    ensures
        0 <= bounds.0 <= bounds.1 <= s.len(),
        forall|j: int| 0 <= j < bounds.0 ==> white_space(#[trigger] s[j]),
        forall|j: int| bounds.1 <= j < s.len() ==> white_space(#[trigger] s[j]),
        bounds.0 < bounds.1 ==> !white_space(s[bounds.0]) && !white_space(s[bounds.1 - 1]),
    decreases s.len(),
{
    if s.len() == 0 {
        (0, 0)
    } else if white_space(s[0]) {
        let rest = s.drop_first();
        let (lo, hi) = lemma_trimmed_bounds(rest);
        assert forall|j: int| 0 <= j < lo + 1 implies white_space(#[trigger] s[j]) by {
            if j > 0 {
                assert(white_space(rest[j - 1]));
            }
        }
        assert forall|j: int| hi + 1 <= j < s.len() implies white_space(#[trigger] s[j]) by {
            assert(white_space(rest[j - 1]));
        }
        (lo + 1, hi + 1)
    } else if white_space(s.last()) {
        let rest = s.drop_last();
        let (lo, hi) = lemma_trimmed_bounds(rest);
        assert(lo == 0) by {
            if lo > 0 {
                assert(white_space(rest[0]));
            }
        }
        assert(lo < hi) by {
            if hi == 0 {
                assert(white_space(rest[0]));
            }
        }
        assert forall|j: int| hi <= j < s.len() implies white_space(#[trigger] s[j]) by {
            if j < rest.len() {
                assert(white_space(rest[j]));
            }
        }
        (lo, hi)
    } else {
        (0, s.len() as int)
    }
}

/// What is left without white space at both ends.
proof fn lemma_trimmed_is(s: Seq<char>, lo: int, hi: int)
    requires
        0 <= lo <= hi <= s.len(),
        forall|j: int| 0 <= j < lo ==> white_space(#[trigger] s[j]),
        forall|j: int| hi <= j < s.len() ==> white_space(#[trigger] s[j]),
        lo < hi ==> !white_space(s[lo]) && !white_space(s[hi - 1]),
    ensures
        trimmed(s) == s.subrange(lo, hi),
{
    if lo == hi {
        assert forall|j: int| 0 <= j < s.len() implies blank()(#[trigger] s[j]) by {}
        lemma_strip_front_is(s, blank(), s.len() as int);
        lemma_strip_back_is(s.skip(s.len() as int), blank(), 0);
        assert(trimmed(s) =~= s.subrange(lo, hi));
    } else {
        lemma_strip_front_is(s, blank(), lo);
        let t = s.skip(lo);
        assert forall|j: int| hi - lo <= j < t.len() implies blank()(#[trigger] t[j]) by {
            assert(white_space(s[lo + j]));
        }
        assert(t[hi - lo - 1] == s[hi - 1]);
        lemma_strip_back_is(t, blank(), hi - lo);
        assert(t.take(hi - lo) =~= s.subrange(lo, hi));
    }
}

/// White space at both ends does not change what is left without it.
pub proof fn trimming_ignores_outer_white_space(
    before: Seq<char>,
    s: Seq<char>,
    after: Seq<char>,
)
    requires
        forall|j: int| 0 <= j < before.len() ==> white_space(#[trigger] before[j]),
        forall|j: int| 0 <= j < after.len() ==> white_space(#[trigger] after[j]),
    ensures
        trimmed(before + s + after) == trimmed(s),
{
    let all = before + s + after;
    let n = before.len() as int;
    let (lo, hi) = lemma_trimmed_bounds(s);
    lemma_trimmed_is(s, lo, hi);
    assert forall|j: int| 0 <= j < n + lo implies white_space(#[trigger] all[j]) by {
        if j < n {
            assert(all[j] == before[j]);
        } else {
            assert(all[j] == s[j - n]);
        }
    }
    assert forall|j: int| n + hi <= j < all.len() implies white_space(#[trigger] all[j]) by {
        if j < n + s.len() {
            assert(all[j] == s[j - n]);
        } else {
            assert(all[j] == after[j - n - s.len()]);
        }
    }
    if lo < hi {
        assert(all[n + lo] == s[lo] && all[n + hi - 1] == s[hi - 1]);
    }
    lemma_trimmed_is(all, n + lo, n + hi);
    assert(all.subrange(n + lo, n + hi) =~= s.subrange(lo, hi));
}

/// What is left without white space at both ends has none there.
pub proof fn trimming_is_idempotent(s: Seq<char>)
    ensures
        trimmed(trimmed(s)) == trimmed(s),
{
    let (lo, hi) = lemma_trimmed_bounds(s);
    lemma_trimmed_is(s, lo, hi);
    let t = s.subrange(lo, hi);
    lemma_trimmed_is(t, 0, t.len() as int);
    assert(t.subrange(0, t.len() as int) =~= t);
}

/// The index of the first `sep` in `chars`, from `from` on; the length of
/// `chars` where there is none.
fn find(chars: &Vec<char>, from: usize, sep: char) -> (i: usize)
    requires
        from <= chars@.len(),
    ensures
        i == from + first_where(chars@.skip(from as int), only(sep)),
        from <= i <= chars@.len(),
{
    let mut i: usize = from;
    while i < chars.len() && chars[i] != sep
        invariant
            from <= i <= chars@.len(),
            forall|j: int| from <= j < i ==> chars@[j] != sep,
        decreases chars@.len() - i,
    {
        i = i + 1;
    }
    proof {
        let s = chars@.skip(from as int);
        assert forall|j: int| 0 <= j < i - from implies !only(sep)(#[trigger] s[j]) by {
            assert(s[j] == chars@[from + j]);
        }
        lemma_first_where_is(s, only(sep), i - from);
    }
    i
}

/// The index of the first white space in `chars`, from `from` on; the length of
/// `chars` where there is none.
fn find_white_space(chars: &Vec<char>, from: usize) -> (i: usize)
    requires
        from <= chars@.len(),
    ensures
        i == from + first_where(chars@.skip(from as int), blank()),
        from <= i <= chars@.len(),
{
    let mut i: usize = from;
    while i < chars.len() && !is_white_space(chars[i])
        invariant
            from <= i <= chars@.len(),
            forall|j: int| from <= j < i ==> !white_space(#[trigger] chars@[j]),
        decreases chars@.len() - i,
    {
        i = i + 1;
    }
    proof {
        let s = chars@.skip(from as int);
        assert forall|j: int| 0 <= j < i - from implies !blank()(#[trigger] s[j]) by {
            assert(s[j] == chars@[from + j]);
        }
        lemma_first_where_is(s, blank(), i - from);
    }
    i
}

/// `s` without leading and trailing white space.
pub fn trim(s: &str) -> (r: &str)
    ensures
        r@ == trimmed(s@),
{
    let chars: Vec<char> = to_chars(s);
    let mut lo: usize = 0;
    while lo < chars.len() && is_white_space(chars[lo])
        invariant
            lo <= chars@.len(),
            forall|j: int| 0 <= j < lo ==> white_space(#[trigger] chars@[j]),
        decreases chars@.len() - lo,
    {
        lo = lo + 1;
    }
    let mut hi: usize = chars.len();
    while hi > lo && is_white_space(chars[hi - 1])
        invariant
            lo <= hi <= chars@.len(),
            forall|j: int| hi <= j < chars@.len() ==> white_space(#[trigger] chars@[j]),
        decreases hi,
    {
        hi = hi - 1;
    }
    proof {
        lemma_strip_front_is(s@, blank(), lo as int);
        let t = s@.skip(lo as int);
        assert forall|j: int| hi - lo <= j < t.len() implies blank()(#[trigger] t[j]) by {
            assert(t[j] == chars@[lo + j]);
        }
        lemma_strip_back_is(t, blank(), hi - lo);
        assert(t.take(hi - lo) =~= s@.subrange(lo as int, hi as int));
    }
    s.substring_char(lo, hi)
}

/// `s` without the leading characters that equal `c`.
pub fn trim_start_matches(s: &str, c: char) -> (r: &str)
    ensures
        r@ == strip_front(s@, only(c)),
{
    let chars: Vec<char> = to_chars(s);
    let mut lo: usize = 0;
    while lo < chars.len() && chars[lo] == c
        invariant
            lo <= chars@.len(),
            forall|j: int| 0 <= j < lo ==> chars@[j] == c,
        decreases chars@.len() - lo,
    {
        lo = lo + 1;
    }
    proof {
        lemma_strip_front_is(s@, only(c), lo as int);
        assert(s@.skip(lo as int) =~= s@.subrange(lo as int, s@.len() as int));
    }
    s.substring_char(lo, chars.len())
}

/// `s` without the trailing characters that equal `c`.
pub fn trim_end_matches(s: &str, c: char) -> (r: &str)
    ensures
        r@ == strip_back(s@, only(c)),
{
    let chars: Vec<char> = to_chars(s);
    let mut hi: usize = chars.len();
    while hi > 0 && chars[hi - 1] == c
        invariant
            hi <= chars@.len(),
            forall|j: int| hi <= j < chars@.len() ==> chars@[j] == c,
        decreases hi,
    {
        hi = hi - 1;
    }
    proof {
        lemma_strip_back_is(s@, only(c), hi as int);
        assert(s@.take(hi as int) =~= s@.subrange(0, hi as int));
    }
    s.substring_char(0, hi)
}

/// The two parts of `s` before and after the first `sep`, or `None` where it
/// has none.
pub fn split_once(s: &str, sep: char) -> (r: Option<(&str, &str)>)
    ensures
        match r {
            Some((before, after)) => {
                let i = first_where(s@, only(sep));
                &&& 0 <= i < s@.len()
                &&& before@ == s@.take(i)
                &&& after@ == s@.skip(i + 1)
            },
            None => first_where(s@, only(sep)) == s@.len(),
        },
{
    let chars: Vec<char> = to_chars(s);
    let i: usize = find(&chars, 0, sep);
    assert(chars@.skip(0) =~= s@);
    if i < chars.len() {
        assert(s@.take(i as int) =~= s@.subrange(0, i as int));
        assert(s@.skip(i + 1) =~= s@.subrange(i + 1, s@.len() as int));
        Some((s.substring_char(0, i), s.substring_char(i + 1, chars.len())))
    } else {
        None
    }
}

/// The pieces of `s` between the occurrences of `sep`.
pub fn split_pieces(s: &str, sep: char) -> (pieces: Vec<&str>)
    ensures
        str_texts(pieces@) == split(s@, sep),
{
    let chars: Vec<char> = to_chars(s);
    let mut pieces: Vec<&str> = Vec::new();
    let mut at: usize = 0;
    let mut end: usize = find(&chars, 0, sep);
    assert(chars@.skip(0) =~= s@);
    while end < chars.len()
        invariant
            chars@ == s@,
            at <= end <= chars@.len(),
            end == at + first_where(chars@.skip(at as int), only(sep)),
            split(s@, sep) == str_texts(pieces@) + split(s@.skip(at as int), sep),
        decreases chars@.len() - at,
    {
        let ghost rest = s@.skip(at as int);
        let ghost before = pieces@;
        let piece: &str = s.substring_char(at, end);
        pieces.push(piece);
        proof {
            assert(rest.take(end - at) =~= piece@);
            assert(rest.skip(end - at + 1) =~= s@.skip(end + 1));
            assert(str_texts(pieces@) =~= str_texts(before).push(piece@));
            assert(str_texts(before) + (seq![piece@] + split(s@.skip(end + 1), sep))
                =~= str_texts(pieces@) + split(s@.skip(end + 1), sep));
        }
        at = end + 1;
        end = find(&chars, at, sep);
    }
    let ghost before = pieces@;
    let piece: &str = s.substring_char(at, chars.len());
    pieces.push(piece);
    proof {
        assert(s@.skip(at as int) =~= piece@);
        assert(str_texts(pieces@) =~= str_texts(before) + seq![piece@]);
    }
    pieces
}

/// The lines of `s`.
pub fn split_lines(s: &str) -> (r: Vec<&str>)
    ensures
        str_texts(r@) == lines(s@),
{
    let chars: Vec<char> = to_chars(s);
    let mut r: Vec<&str> = Vec::new();
    let mut at: usize = 0;
    assert(s@.skip(0) =~= s@);
    while at < chars.len()
        invariant
            chars@ == s@,
            at <= chars@.len(),
            lines(s@) == str_texts(r@) + lines(s@.skip(at as int)),
        decreases chars@.len() - at,
    {
        let ghost rest = s@.skip(at as int);
        let ghost before = r@;
        let end: usize = find(&chars, at, '\n');
        let stop: usize = if end < chars.len() && end > at && chars[end - 1] == '\r' {
            end - 1
        } else {
            end
        };
        let line: &str = s.substring_char(at, stop);
        r.push(line);
        at = if end < chars.len() { end + 1 } else { end };
        proof {
            assert(str_texts(r@) =~= str_texts(before).push(line@));
            if end < chars@.len() {
                let head = rest.take(end - (s@.len() - rest.len()));
                assert(chomped(head) =~= line@);
                assert(rest.skip(head.len() as int + 1) =~= s@.skip(at as int));
            } else {
                assert(rest =~= line@);
                assert(s@.skip(at as int) =~= Seq::<char>::empty());
            }
            assert(str_texts(before) + (seq![line@] + lines(s@.skip(at as int))) =~= str_texts(r@)
                + lines(s@.skip(at as int)));
        }
    }
    proof {
        assert(s@.skip(at as int) =~= Seq::<char>::empty());
        assert(str_texts(r@) + Seq::<Seq<char>>::empty() =~= str_texts(r@));
    }
    r
}

/// The words of `s`.
pub fn split_words(s: &str) -> (r: Vec<&str>)
    ensures
        str_texts(r@) == words(s@),
{
    let chars: Vec<char> = to_chars(s);
    let mut r: Vec<&str> = Vec::new();
    let mut at: usize = 0;
    assert(s@.skip(0) =~= s@);
    while at < chars.len()
        invariant
            chars@ == s@,
            at <= chars@.len(),
            words(s@) == str_texts(r@) + words(s@.skip(at as int)),
        decreases chars@.len() - at,
    {
        let ghost rest = s@.skip(at as int);
        if is_white_space(chars[at]) {
            assert(rest.drop_first() =~= s@.skip(at + 1));
            at = at + 1;
        } else {
            let ghost before = r@;
            let end: usize = find_white_space(&chars, at);
            proof {
                assert(rest[0] == chars@[at as int]);
                lemma_first_where(rest, blank());
                assert(first_where(rest, blank()) != 0);
            }
            let word: &str = s.substring_char(at, end);
            r.push(word);
            proof {
                assert(str_texts(r@) =~= str_texts(before).push(word@));
                assert(rest.take(end - at) =~= word@);
                assert(rest.skip(end - at) =~= s@.skip(end as int));
                assert(str_texts(before) + (seq![word@] + words(s@.skip(end as int)))
                    =~= str_texts(r@) + words(s@.skip(end as int)));
            }
            at = end;
        }
    }
    proof {
        assert(s@.skip(at as int) =~= Seq::<char>::empty());
        assert(str_texts(r@) + Seq::<Seq<char>>::empty() =~= str_texts(r@));
    }
    r
}

/// Whether two texts have the same characters.
pub fn same_text(a: &str, b: &str) -> (r: bool)
    ensures
        r == (a@ == b@),
{
    let x: String = a.to_owned();
    let y: String = b.to_owned();
    x == y
}

/// What is left of a text between two runs of white space is the whole of the
/// text between them, where that does not begin or end with white space itself.
pub proof fn trimming_leaves_the_middle(before: Seq<char>, middle: Seq<char>, after: Seq<char>)
    requires
        forall|j: int| 0 <= j < before.len() ==> white_space(#[trigger] before[j]),
        forall|j: int| 0 <= j < after.len() ==> white_space(#[trigger] after[j]),
        middle.len() > 0 ==> !white_space(middle[0]) && !white_space(middle.last()),
    ensures
        trimmed(before + middle + after) == middle,
{
    let s = before + middle + after;
    let lo = before.len() as int;
    let hi = lo + middle.len();
    assert forall|j: int| 0 <= j < lo implies white_space(#[trigger] s[j]) by {
        assert(s[j] == before[j]);
    }
    assert forall|j: int| hi <= j < s.len() implies white_space(#[trigger] s[j]) by {
        assert(s[j] == after[j - hi]);
    }
    lemma_trimmed_is(s, lo, hi);
    assert(s.subrange(lo, hi) =~= middle);
}

/// Stripping a run of characters that satisfy `p` from one end of a text leaves the
/// whole of the rest, where that does not go on with such a character.
pub proof fn stripping_leaves_the_rest(run: Seq<char>, rest: Seq<char>, p: spec_fn(char) -> bool)
    requires
        forall|j: int| 0 <= j < run.len() ==> p(#[trigger] run[j]),
    ensures
        (rest.len() > 0 ==> !p(rest[0])) ==> strip_front(run + rest, p) == rest,
        (rest.len() > 0 ==> !p(rest.last())) ==> strip_back(rest + run, p) == rest,
{
    if rest.len() > 0 ==> !p(rest[0]) {
        let s = run + rest;
        assert forall|j: int| 0 <= j < run.len() implies p(#[trigger] s[j]) by {
            assert(s[j] == run[j]);
        }
        lemma_strip_front_is(s, p, run.len() as int);
        assert(s.skip(run.len() as int) =~= rest);
    }
    if rest.len() > 0 ==> !p(rest.last()) {
        let s = rest + run;
        assert forall|j: int| rest.len() <= j < s.len() implies p(#[trigger] s[j]) by {
            assert(s[j] == run[j - rest.len()]);
        }
        lemma_strip_back_is(s, p, rest.len() as int);
        assert(s.take(rest.len() as int) =~= rest);
    }
}

/// A text without the separator is one piece, and before a separator it is the
/// first piece, whole and unchanged.
pub proof fn pieces_end_at_separators(piece: Seq<char>, rest: Seq<char>, sep: char)
    requires
        forall|j: int| 0 <= j < piece.len() ==> #[trigger] piece[j] != sep,
    ensures
        split(piece, sep) == seq![piece],
        split(piece + seq![sep] + rest, sep) == seq![piece] + split(rest, sep),
{
    let s = piece + seq![sep] + rest;
    let n = piece.len() as int;
    lemma_first_where_is(piece, only(sep), n);
    assert forall|j: int| 0 <= j < n implies !only(sep)(#[trigger] s[j]) by {
        assert(s[j] == piece[j]);
    }
    lemma_first_where_is(s, only(sep), n);
    assert(s.take(n) =~= piece);
    assert(s.skip(n + 1) =~= rest);
}

/// The first separator of a text is found where it stands, and where there is
/// none that is known too.
pub proof fn first_separator_is_found(before: Seq<char>, rest: Seq<char>, sep: char)
    requires
        forall|j: int| 0 <= j < before.len() ==> #[trigger] before[j] != sep,
    ensures
        first_where(before, only(sep)) == before.len(),
        first_where(before + seq![sep] + rest, only(sep)) == before.len(),
{
    let s = before + seq![sep] + rest;
    let n = before.len() as int;
    lemma_first_where_is(before, only(sep), n);
    assert forall|j: int| 0 <= j < n implies !only(sep)(#[trigger] s[j]) by {
        assert(s[j] == before[j]);
    }
    lemma_first_where_is(s, only(sep), n);
}

/// A line goes up to the line feed, but for one carriage return before it; what
/// follows the last line feed is a line of its own, unless it is empty.
pub proof fn lines_end_at_line_feeds(line: Seq<char>, rest: Seq<char>)
    requires
        forall|j: int| 0 <= j < line.len() ==> #[trigger] line[j] != '\n',
    ensures
        line.len() == 0 ==> lines(line) == Seq::<Seq<char>>::empty(),
        line.len() > 0 ==> lines(line) == seq![line],
        lines(line + seq!['\r', '\n'] + rest) == seq![line] + lines(rest),
        line.len() == 0 || line.last() != '\r' ==> lines(line + seq!['\n'] + rest) == seq![line]
            + lines(rest),
{
    let n = line.len() as int;
    lemma_first_where_is(line, only('\n'), n);
    let s = line + seq!['\n'] + rest;
    assert forall|j: int| 0 <= j < n implies !only('\n')(#[trigger] s[j]) by {
        assert(s[j] == line[j]);
    }
    lemma_first_where_is(s, only('\n'), n);
    assert(s.take(n) =~= line);
    assert(s.skip(n + 1) =~= rest);
    let t = line + seq!['\r', '\n'] + rest;
    assert forall|j: int| 0 <= j < n + 1 implies !only('\n')(#[trigger] t[j]) by {
        if j < n {
            assert(t[j] == line[j]);
        }
    }
    lemma_first_where_is(t, only('\n'), n + 1);
    assert(t.take(n + 1) =~= line.push('\r'));
    assert(t.take(n + 1).drop_last() =~= line);
    assert(t.skip(n + 2) =~= rest);
}

/// A word goes up to the next white space, whole and unchanged, and white space
/// before a text adds no words.
pub proof fn words_end_at_white_space(word: Seq<char>, gap: Seq<char>, rest: Seq<char>)
    requires
        word.len() > 0,
        forall|j: int| 0 <= j < word.len() ==> !white_space(#[trigger] word[j]),
        forall|j: int| 0 <= j < gap.len() ==> white_space(#[trigger] gap[j]),
    ensures
        words(gap + rest) == words(rest),
        words(gap) == Seq::<Seq<char>>::empty(),
        words(word) == seq![word],
        gap.len() > 0 ==> words(word + gap + rest) == seq![word] + words(rest),
    decreases gap.len(),
{
    let n = word.len() as int;
    let none = Seq::<char>::empty();
    assert(words(none) =~= Seq::<Seq<char>>::empty());
    if gap.len() > 0 {
        words_end_at_white_space(word, gap.drop_first(), rest);
        assert((gap + rest).drop_first() =~= gap.drop_first() + rest);
        assert((gap + rest)[0] == gap[0]);
        let s = word + gap + rest;
        assert forall|j: int| 0 <= j < n implies !blank()(#[trigger] s[j]) by {
            assert(s[j] == word[j]);
        }
        assert(s[n] == gap[0]);
        assert(s[0] == word[0]);
        lemma_first_where_is(s, blank(), n);
        assert(s.take(n) =~= word);
        assert(s.skip(n) =~= gap + rest);
    } else {
        assert(gap + rest =~= rest);
        assert(gap =~= none);
    }
    assert forall|j: int| 0 <= j < n implies !blank()(#[trigger] word[j]) by {}
    lemma_first_where_is(word, blank(), n);
    assert(word.take(n) =~= word);
    assert(word.skip(n) =~= none);
    assert(words(word) =~= seq![word]);
}

/// The texts of strings are those of each of them, in their order.
pub proof fn texts_are_of_each(strings: Seq<String>, strs: Seq<&str>)
    ensures
        texts(strings).len() == strings.len(),
        forall|i: int| 0 <= i < strings.len() ==> #[trigger] texts(strings)[i] == strings[i]@,
        str_texts(strs).len() == strs.len(),
        forall|i: int| 0 <= i < strs.len() ==> #[trigger] str_texts(strs)[i] == strs[i]@,
{
}

/// `s` in quotation marks, with what is not printable escaped.
pub uninterp spec fn quoted(s: Seq<char>) -> Seq<char>;

/// Whether `s` is written in quotation marks as it is.
pub open spec fn plain(s: Seq<char>) -> bool {
    forall|i: int|
        0 <= i < s.len() ==> ' ' <= #[trigger] s[i] <= '~' && s[i] != '"' && s[i] != '\\'
}

/// Calls `format` with `{:?}` on a text. Trusted: the result depends on the text
/// alone; printable ASCII but for quotation marks and backslashes is not escaped.
#[verifier::external_body]
pub(crate) fn quote(s: &str) -> (r: String)
    ensures
        r@ == quoted(s@),
        plain(s@) ==> r@ == seq!['"'] + s@ + seq!['"'],
{
    format!("{:?}", s)
}

/// The digit of value `d`, below sixteen.
pub open spec fn digit(d: int) -> char {
    "0123456789abcdef"@[d]
}

/// `n` in decimal.
pub open spec fn decimal(n: nat) -> Seq<char>
    decreases n,
{
    if n < 10 {
        seq![digit(n as int)]
    } else {
        decimal(n / 10).push(digit((n % 10) as int))
    }
}

/// `bytes` in lower-case hexadecimal, two digits for each byte.
pub open spec fn hex(bytes: Seq<u8>) -> Seq<char>
    decreases bytes.len(),
{
    if bytes.len() == 0 {
        Seq::empty()
    } else {
        hex(bytes.drop_last()) + seq![
            digit(bytes.last() as int / 16),
            digit(bytes.last() as int % 16),
        ]
    }
}

/// The digit of value `d`.
fn digit_text(d: usize) -> (r: &'static str)
    requires
        d < 16,
    ensures
        r@ == seq![digit(d as int)],
{
    proof {
        reveal_strlit("0123456789abcdef");
    }
    let r: &'static str = "0123456789abcdef".substring_char(d, d + 1);
    assert(r@ =~= seq![digit(d as int)]);
    r
}

/// `n` in decimal.
pub fn to_decimal(n: u64) -> (r: String)
    ensures
        r@ == decimal(n as nat),
    decreases n,
{
    if n < 10 {
        digit_text(n as usize).to_owned()
    } else {
        let mut r: String = to_decimal(n / 10);
        r.append(digit_text((n % 10) as usize));
        assert(r@ =~= decimal(n as nat));
        r
    }
}

/// `bytes` in lower-case hexadecimal.
pub fn to_hex(bytes: &[u8]) -> (r: String)
    ensures
        r@ == hex(bytes@),
{
    let mut r: String = String::new();
    let mut i: usize = 0;
    assert(bytes@.take(0) =~= Seq::<u8>::empty());
    while i < bytes.len()
        invariant
            i <= bytes@.len(),
            r@ == hex(bytes@.take(i as int)),
        decreases bytes@.len() - i,
    {
        let b: u8 = bytes[i];
        let ghost was = r@;
        r.append(digit_text((b / 16) as usize));
        r.append(digit_text((b % 16) as usize));
        proof {
            assert(bytes@.take(i + 1).drop_last() =~= bytes@.take(i as int));
            assert(r@ =~= was + seq![digit(b as int / 16), digit(b as int % 16)]);
        }
        i = i + 1;
    }
    assert(bytes@.take(i as int) =~= bytes@);
    r
}

/// Hexadecimal takes two digits for each byte, all of them among `0` to `9` and
/// `a` to `f`.
pub proof fn hex_digits(bytes: Seq<u8>)
    ensures
        hex(bytes).len() == 2 * bytes.len(),
        forall|i: int|
            0 <= i < hex(bytes).len() ==> '0' <= #[trigger] hex(bytes)[i] <= '9' || 'a' <= hex(
                bytes,
            )[i] <= 'f',
    decreases bytes.len(),
{
    reveal_strlit("0123456789abcdef");
    if bytes.len() > 0 {
        hex_digits(bytes.drop_last());
        let front = hex(bytes.drop_last());
        assert forall|i: int| 0 <= i < hex(bytes).len() implies '0' <= #[trigger] hex(bytes)[i]
            <= '9' || 'a' <= hex(bytes)[i] <= 'f' by {
            if i < front.len() {
                assert(hex(bytes)[i] == front[i]);
            }
        }
    }
}

/// Different bytes have different hexadecimal texts.
pub proof fn hex_is_injective(a: Seq<u8>, b: Seq<u8>)
    requires
        hex(a) == hex(b),
    ensures
        a == b,
    decreases a.len(),
{
    reveal_strlit("0123456789abcdef");
    hex_digits(a);
    hex_digits(b);
    if a.len() > 0 {
        let n = hex(a).len() as int;
        hex_digits(a.drop_last());
        hex_digits(b.drop_last());
        assert(hex(a)[n - 2] == digit(a.last() as int / 16));
        assert(hex(a)[n - 1] == digit(a.last() as int % 16));
        assert(hex(b)[n - 2] == digit(b.last() as int / 16));
        assert(hex(b)[n - 1] == digit(b.last() as int % 16));
        assert(a.last() == b.last());
        assert(hex(a.drop_last()) =~= hex(a).take(n - 2));
        assert(hex(b.drop_last()) =~= hex(b).take(n - 2));
        hex_is_injective(a.drop_last(), b.drop_last());
        assert(a =~= a.drop_last().push(a.last()));
        assert(b =~= b.drop_last().push(b.last()));
    } else {
        assert(a =~= b);
    }
}

/// Each digit of a number in decimal has ten times the value of the next.
pub proof fn decimal_digits(n: nat, d: nat)
    requires
        d < 10,
    ensures
        decimal(d) == seq!["0123456789"@[d as int]],
        n > 0 ==> decimal(10 * n + d) == decimal(n).push("0123456789"@[d as int]),
{
    reveal_strlit("0123456789");
    reveal_strlit("0123456789abcdef");
    assert((10 * n + d) / 10 == n);
    assert((10 * n + d) % 10 == d);
}

/// The two digits of each byte stand where the byte stands: first the one that
/// counts sixteens, then the one that counts units.
pub proof fn hex_of_each_byte(bytes: Seq<u8>, i: int)
    requires
        0 <= i < bytes.len(),
    ensures
        hex(bytes)[2 * i] == "0123456789abcdef"@[bytes[i] as int / 16],
        hex(bytes)[2 * i + 1] == "0123456789abcdef"@[bytes[i] as int % 16],
    decreases bytes.len(),
{
    let front = bytes.drop_last();
    hex_digits(front);
    if i < front.len() {
        hex_of_each_byte(front, i);
        assert(hex(bytes)[2 * i] == hex(front)[2 * i]);
        assert(hex(bytes)[2 * i + 1] == hex(front)[2 * i + 1]);
    }
}

/// The given string slices as strings.
pub fn to_strings(strs: &Vec<&str>) -> (strings: Vec<String>)
    ensures
        texts(strings@) == str_texts(strs@),
{
    let mut strings: Vec<String> = Vec::new();
    let mut i: usize = 0;
    while i < strs.len()
        invariant
            i <= strs@.len(),
            texts(strings@) == str_texts(strs@).take(i as int),
        decreases strs@.len() - i,
    {
        let ghost before = strings@;
        strings.push(strs[i].to_owned());
        proof {
            assert(texts(strings@) =~= texts(before).push(strs@[i as int]@));
            assert(str_texts(strs@).take(i + 1) =~= str_texts(strs@).take(i as int).push(
                strs@[i as int]@,
            ));
        }
        i = i + 1;
    }
    assert(str_texts(strs@).take(i as int) =~= str_texts(strs@));
    strings
}

/// Whether `a` stands before `b` in lexicographic order.
pub open spec fn precedes(a: Seq<char>, b: Seq<char>) -> bool
    decreases a.len(),
{
    if b.len() == 0 {
        false
    } else if a.len() == 0 {
        true
    } else if a[0] == b[0] {
        precedes(a.drop_first(), b.drop_first())
    } else {
        a[0] < b[0]
    }
}

/// No text precedes itself.
pub proof fn precedes_is_irreflexive(a: Seq<char>)
    ensures
        !precedes(a, a),
    decreases a.len(),
{
    if a.len() > 0 {
        precedes_is_irreflexive(a.drop_first());
    }
}

/// What precedes a text precedes what that text precedes.
pub proof fn precedes_is_transitive(a: Seq<char>, b: Seq<char>, c: Seq<char>)
    requires
        precedes(a, b),
        precedes(b, c),
    ensures
        precedes(a, c),
    decreases a.len(),
{
    if a.len() > 0 && a[0] == b[0] && b[0] == c[0] {
        precedes_is_transitive(a.drop_first(), b.drop_first(), c.drop_first());
    }
}

/// Of two different texts one precedes the other.
pub proof fn precedes_is_total(a: Seq<char>, b: Seq<char>)
    ensures
        a == b || precedes(a, b) || precedes(b, a),
    decreases a.len(),
{
    if a.len() > 0 && b.len() > 0 && a[0] == b[0] {
        precedes_is_total(a.drop_first(), b.drop_first());
        if a.drop_first() == b.drop_first() {
            assert(a =~= seq![a[0]] + a.drop_first());
            assert(b =~= seq![b[0]] + b.drop_first());
        }
    } else if a.len() == 0 && b.len() == 0 {
        assert(a =~= b);
    }
}

/// Two texts are ordered by what follows what they have in common: the shorter
/// one first where one of them ends there, else the one with the smaller
/// character.
pub proof fn order_is_that_of_the_first_difference(common: Seq<char>, a: Seq<char>, b: Seq<char>)
    ensures
        precedes(common + a, common + b) == precedes(a, b),
        b.len() == 0 ==> !precedes(a, b),
        a.len() == 0 && b.len() > 0 ==> precedes(a, b),
        a.len() > 0 && b.len() > 0 && a[0] != b[0] ==> precedes(a, b) == (a[0] < b[0]),
    decreases common.len(),
{
    if common.len() > 0 {
        let rest = common.drop_first();
        order_is_that_of_the_first_difference(rest, a, b);
        assert((common + a).drop_first() =~= rest + a);
        assert((common + b).drop_first() =~= rest + b);
    } else {
        assert(common + a =~= a);
        assert(common + b =~= b);
    }
}

/// Whether `a` stands before `b` in lexicographic order.
pub fn is_before(a: &str, b: &str) -> (r: bool)
    ensures
        r == precedes(a@, b@),
{
    let x: Vec<char> = to_chars(a);
    let y: Vec<char> = to_chars(b);
    let mut i: usize = 0;
    assert(a@.skip(0) =~= a@);
    assert(b@.skip(0) =~= b@);
    while i < x.len() && i < y.len() && x[i] == y[i]
        invariant
            x@ == a@,
            y@ == b@,
            i <= x@.len(),
            i <= y@.len(),
            precedes(a@, b@) == precedes(a@.skip(i as int), b@.skip(i as int)),
        decreases x@.len() - i,
    {
        assert(a@.skip(i as int).drop_first() =~= a@.skip(i + 1));
        assert(b@.skip(i as int).drop_first() =~= b@.skip(i + 1));
        i = i + 1;
    }
    if i >= y.len() {
        false
    } else if i >= x.len() {
        true
    } else {
        x[i] < y[i]
    }
}

/// Taking a text apart yields what is said of it here, and so does writing a number or bytes
/// in digits and comparing two texts.
pub proof fn texts_are_handled_as_stated(
    s: &str,
    other: &str,
    c: char,
    n: u64,
    bytes: &[u8],
    trimmed_text: &str,
    without_front: &str,
    without_back: &str,
    pieces: Vec<&str>,
    all_lines: Vec<&str>,
    all_words: Vec<&str>,
    in_decimal: String,
    in_hex: String,
    same: bool,
    before: bool,
)
    requires
        call_ensures(trim, (s,), trimmed_text),
        call_ensures(trim_start_matches, (s, c), without_front),
        call_ensures(trim_end_matches, (s, c), without_back),
        call_ensures(split_pieces, (s, c), pieces),
        call_ensures(split_lines, (s,), all_lines),
        call_ensures(split_words, (s,), all_words),
        call_ensures(to_decimal, (n,), in_decimal),
        call_ensures(to_hex, (bytes,), in_hex),
        call_ensures(same_text, (s, other), same),
        call_ensures(is_before, (s, other), before),
    ensures
        trimmed_text@ == trimmed(s@),
        without_front@ == strip_front(s@, only(c)),
        without_back@ == strip_back(s@, only(c)),
        str_texts(pieces@) == split(s@, c),
        str_texts(all_lines@) == lines(s@),
        str_texts(all_words@) == words(s@),
        in_decimal@ == decimal(n as nat),
        in_hex@ == hex(bytes@),
        same <==> s@ == other@,
        before <==> precedes(s@, other@),
{
}

/// A text is split once at its first separator: what is before it, the separator and what is
/// after it are the whole text again, and what is before it holds no separator. A text
/// without one is not split.
pub proof fn splitting_once_loses_nothing(s: &str, sep: char, r: Option<(&str, &str)>)
    requires
        call_ensures(split_once, (s, sep), r),
    ensures
        match r {
            Some((before, after)) => {
                &&& before@ + seq![sep] + after@ == s@
                &&& forall|j: int| 0 <= j < before@.len() ==> #[trigger] before@[j] != sep
            },
            None => forall|j: int| 0 <= j < s@.len() ==> #[trigger] s@[j] != sep,
        },
{
    lemma_first_where(s@, only(sep));
    match r {
        Some((before, after)) => {
            let i = first_where(s@, only(sep));
            assert(only(sep)(s@[i]));
            assert(before@ + seq![sep] + after@ =~= s@);
            assert forall|j: int| 0 <= j < before@.len() implies #[trigger] before@[j] != sep by {
                assert(!only(sep)(s@[j]));
            }
        },
        None => {
            assert forall|j: int| 0 <= j < s@.len() implies #[trigger] s@[j] != sep by {
                assert(!only(sep)(s@[j]));
            }
        },
    }
}

} // verus!
