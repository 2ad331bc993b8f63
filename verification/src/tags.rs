//! Tag lists: a comma-separated line of tag names, each taken without the
//! white space around it.

use vstd::prelude::*;
use vstd::std_specs::iter::IteratorSpec;

verus! {

/// The character that separates two tags in a tag list.
pub const SEPARATOR: char = ',';

/// Whether `c` is white space as Unicode defines it (`White_Space`).
pub open spec fn is_space(c: char) -> bool {
    let n = c as u32;
    ||| 0x09 <= n <= 0x0D
    ||| n == 0x20
    ||| n == 0x85
    ||| n == 0xA0
    ||| n == 0x1680
    ||| 0x2000 <= n <= 0x200A
    ||| n == 0x2028
    ||| n == 0x2029
    ||| n == 0x202F
    ||| n == 0x205F
    ||| n == 0x3000
}

/// Whether every character of `s` is white space.
pub open spec fn all_space(s: Seq<char>) -> bool {
    forall|i: int| 0 <= i < s.len() ==> is_space(#[trigger] s[i])
}

/// Whether no character of `s` is the separator.
pub open spec fn separator_free(s: Seq<char>) -> bool {
    forall|i: int| 0 <= i < s.len() ==> #[trigger] s[i] != SEPARATOR
}

/// `s` without its leading white space.
pub open spec fn trim_start(s: Seq<char>) -> Seq<char>
    decreases s.len(),
{
    if s.len() > 0 && is_space(s.first()) {
        trim_start(s.drop_first())
    } else {
        s
    }
}

/// `s` without its trailing white space.
pub open spec fn trim_end(s: Seq<char>) -> Seq<char>
    decreases s.len(),
{
    if s.len() > 0 && is_space(s.last()) {
        trim_end(s.drop_last())
    } else {
        s
    }
}

/// `s` without the white space at either end.
pub open spec fn trimmed(s: Seq<char>) -> Seq<char> {
    trim_end(trim_start(s))
}

/// The position of the first separator in `s`, or the length of `s` where
/// it holds none.
pub open spec fn first_separator(s: Seq<char>) -> int
    decreases s.len(),
{
    if s.len() == 0 || s.first() == SEPARATOR {
        0
    } else {
        1 + first_separator(s.drop_first())
    }
}

/// The pieces of `s` between its separators, in order. A line without a
/// separator is one piece, the empty line included.
pub open spec fn segments(s: Seq<char>) -> Seq<Seq<char>>
    decreases s.len(),
{
    let k = first_separator(s);
    if 0 <= k < s.len() {
        seq![s.take(k)] + segments(s.skip(k + 1))
    } else {
        seq![s]
    }
}

/// The tags that a tag list names: its segments, each trimmed.
pub open spec fn tag_list(s: Seq<char>) -> Seq<Seq<char>> {
    segments(s).map_values(|piece: Seq<char>| trimmed(piece))
}

/// How often the separator occurs in `s`.
pub open spec fn separator_count(s: Seq<char>) -> nat
    decreases s.len(),
{
    if s.len() == 0 {
        0
    } else if s.first() == SEPARATOR {
        separator_count(s.drop_first()) + 1
    } else {
        separator_count(s.drop_first())
    }
}

/// Whether `t` neither starts nor ends with white space.
pub open spec fn is_trimmed(t: Seq<char>) -> bool {
    t.len() > 0 ==> !is_space(t.first()) && !is_space(t.last())
}

/// The pieces put together again, with one separator between neighbours.
pub open spec fn joined(pieces: Seq<Seq<char>>) -> Seq<char>
    decreases pieces.len(),
{
    if pieces.len() == 0 {
        Seq::empty()
    } else if pieces.len() == 1 {
        pieces[0]
    } else {
        pieces[0] + seq![SEPARATOR] + joined(pieces.drop_first())
    }
}

/// A tag list in which every segment names a tag: none is empty or made
/// of white space alone.
pub open spec fn well_formed(s: Seq<char>) -> bool {
    forall|i: int| 0 <= i < segments(s).len() ==> !all_space(#[trigger] segments(s)[i])
}

/// The characters of `s`, in order.
pub fn chars_of(s: &str) -> (out: Vec<char>)
    ensures
        out@ == s@,
{
    let mut out: Vec<char> = Vec::new();
    for c in it: s.chars()
        invariant
            it.seq() == s@,
            out@ == s@.take(it.index() as int),
    {
        out.push(c);
    }
    out
}

/// Tells white space from other characters.
pub fn is_whitespace(c: char) -> (b: bool)
    ensures
        b == is_space(c),
{
    let n: u32 = c as u32;
    (0x09 <= n && n <= 0x0D) || n == 0x20 || n == 0x85 || n == 0xA0 || n == 0x1680 || (0x2000 <= n
        && n <= 0x200A) || n == 0x2028 || n == 0x2029 || n == 0x202F || n == 0x205F || n == 0x3000
}

/// The bounds within `chars` of what trimming leaves of `chars[lo..hi]`.
fn trim_bounds(chars: &Vec<char>, lo: usize, hi: usize) -> (r: (usize, usize))
    requires
        lo <= hi <= chars.len(),
    ensures
        lo <= r.0 <= r.1 <= hi,
        chars@.subrange(r.0 as int, r.1 as int) == trimmed(chars@.subrange(lo as int, hi as int)),
{
    let mut a: usize = lo;
    while a < hi && is_whitespace(chars[a])
        invariant
            lo <= a <= hi <= chars.len(),
            trim_start(chars@.subrange(lo as int, hi as int)) == trim_start(
                chars@.subrange(a as int, hi as int),
            ),
        decreases hi - a,
    {
        assert(chars@.subrange(a as int, hi as int).drop_first() == chars@.subrange(
            a + 1,
            hi as int,
        ));
        a += 1;
    }
    let mut b: usize = hi;
    while b > a && is_whitespace(chars[b - 1])
        invariant
            a <= b <= hi <= chars.len(),
            trim_end(chars@.subrange(a as int, hi as int)) == trim_end(
                chars@.subrange(a as int, b as int),
            ),
        decreases b - a,
    {
        assert(chars@.subrange(a as int, b as int).drop_last() == chars@.subrange(
            a as int,
            b - 1,
        ));
        b -= 1;
    }
    (a, b)
}

/// Reads a tag list: splits the line at each separator and trims every
/// piece. Nothing is dropped, so an empty piece yields an empty tag.
pub fn parse_tags(list: &str) -> (tags: Vec<String>)
    ensures
        tags.deep_view() == tag_list(list@),
        tags.len() == separator_count(list@) + 1,
        forall|i: int| 0 <= i < tags.len() ==> is_trimmed(#[trigger] tags[i]@),
        well_formed(list@) ==> forall|i: int| 0 <= i < tags.len() ==> (#[trigger] tags[i]@).len() > 0,
{
    let chars = chars_of(list);
    let n = chars.len();
    let mut tags: Vec<String> = Vec::new();
    let mut start: usize = 0;
    let mut i: usize = 0;
    assert(chars@.skip(0) == chars@);
    assert(tags.deep_view() + tag_list(chars@) == tag_list(chars@));
    while i < n
        invariant
            start <= i <= n == chars.len(),
            chars@ == list@,
            forall|j: int| start <= j < i ==> #[trigger] chars@[j] != SEPARATOR,
            tags.deep_view() + tag_list(chars@.skip(start as int)) == tag_list(chars@),
        decreases n - i,
    {
        if chars[i] == SEPARATOR {
            let (a, b) = trim_bounds(&chars, start, i);
            let tag = list.substring_char(a, b).to_owned();
            proof {
                let rest = chars@.skip(start as int);
                lemma_first_separator_is(rest, i - start);
                assert(rest.take(i - start) == chars@.subrange(start as int, i as int));
                assert(rest.skip(i - start + 1) == chars@.skip(i + 1));
                assert(tag_list(rest) == seq![tag@] + tag_list(chars@.skip(i + 1)));
                assert(tags.deep_view().push(tag@) + tag_list(chars@.skip(i + 1)) == tag_list(
                    chars@,
                ));
            }
            let ghost before = tags.deep_view();
            tags.push(tag);
            assert(tags.deep_view() == before.push(tag@));
            start = i + 1;
        }
        i += 1;
    }
    let (a, b) = trim_bounds(&chars, start, n);
    let tag = list.substring_char(a, b).to_owned();
    proof {
        let rest = chars@.skip(start as int);
        lemma_first_separator_is(rest, n - start);
        assert(rest == chars@.subrange(start as int, n as int));
        assert(tag_list(rest) == seq![tag@]);
        assert(tags.deep_view().push(tag@) == tag_list(chars@));
    }
    let ghost before = tags.deep_view();
    tags.push(tag);
    assert(tags.deep_view() == before.push(tag@));
    proof {
        lemma_segment_count(list@);
        lemma_tags_are_trimmed(list@);
        if well_formed(list@) {
            lemma_well_formed_tags_are_named(list@);
        }
        assert forall|i: int| 0 <= i < tags.len() implies #[trigger] tags[i]@ == tag_list(
            list@,
        )[i] by {
            assert(tags.deep_view()[i] == tags[i]@);
        }
    }
    tags
}

/// Where the first `k` characters hold no separator and the next one, if
/// there is one, is a separator, the first separator is at `k`.
proof fn lemma_first_separator_is(s: Seq<char>, k: int)
    requires
        0 <= k <= s.len(),
        forall|j: int| 0 <= j < k ==> #[trigger] s[j] != SEPARATOR,
        k < s.len() ==> s[k] == SEPARATOR,
    ensures
        first_separator(s) == k,
    decreases k,
{
    if k > 0 {
        let tail = s.drop_first();
        assert forall|j: int| 0 <= j < k - 1 implies #[trigger] tail[j] != SEPARATOR by {
            assert(tail[j] == s[j + 1]);
        }
        lemma_first_separator_is(tail, k - 1);
    }
}

/// The first separator lies within the line or at its end, nothing before
/// it is a separator, and what stands there is one.
pub proof fn lemma_first_separator(s: Seq<char>)
    ensures
        0 <= first_separator(s) <= s.len(),
        separator_free(s.take(first_separator(s))),
        first_separator(s) < s.len() ==> s[first_separator(s)] == SEPARATOR,
    decreases s.len(),
{
    if s.len() == 0 || s.first() == SEPARATOR {
    } else {
        let tail = s.drop_first();
        lemma_first_separator(tail);
        let k = first_separator(s);
        assert forall|i: int| 0 <= i < s.take(k).len() implies #[trigger] s.take(k)[i]
            != SEPARATOR by {
            if i > 0 {
                assert(s.take(k)[i] == tail.take(k - 1)[i - 1]);
            }
        }
    }
}

/// A tag list has one segment more than it has separators.
pub proof fn lemma_segment_count(s: Seq<char>)
    ensures
        segments(s).len() == separator_count(s) + 1,
        tag_list(s).len() == separator_count(s) + 1,
    decreases s.len(),
{
    lemma_first_separator(s);
    let k = first_separator(s);
    lemma_count_from_first_separator(s, k);
    if k < s.len() {
        lemma_segment_count(s.skip(k + 1));
    }
}

/// Counting separators may start behind a stretch that holds none.
proof fn lemma_count_from_first_separator(s: Seq<char>, k: int)
    requires
        0 <= k <= s.len(),
        separator_free(s.take(k)),
        k < s.len() ==> s[k] == SEPARATOR,
    ensures
        k < s.len() ==> separator_count(s) == separator_count(s.skip(k + 1)) + 1,
        k == s.len() ==> separator_count(s) == 0,
    decreases k,
{
    if k > 0 {
        let tail = s.drop_first();
        assert(s.take(k)[0] != SEPARATOR);
        assert forall|j: int| 0 <= j < tail.take(k - 1).len() implies #[trigger] tail.take(
            k - 1,
        )[j] != SEPARATOR by {
            assert(tail.take(k - 1)[j] == s.take(k)[j + 1]);
        }
        lemma_count_from_first_separator(tail, k - 1);
        if k < s.len() {
            assert(tail.skip(k) == s.skip(k + 1));
        }
    } else if k < s.len() {
        assert(s.drop_first() == s.skip(1));
    }
}

/// No segment holds a separator.
pub proof fn lemma_segments_separator_free(s: Seq<char>)
    ensures
        forall|i: int| 0 <= i < segments(s).len() ==> separator_free(#[trigger] segments(s)[i]),
    decreases s.len(),
{
    lemma_first_separator(s);
    let k = first_separator(s);
    if k < s.len() {
        lemma_segments_separator_free(s.skip(k + 1));
        assert forall|i: int| 0 <= i < segments(s).len() implies separator_free(
            #[trigger] segments(s)[i],
        ) by {
            if i > 0 {
                assert(segments(s)[i] == segments(s.skip(k + 1))[i - 1]);
            }
        }
    } else {
        assert(s.take(k) == s);
    }
}

/// Splitting loses nothing: the segments, joined by separators, are the
/// line again.
pub proof fn lemma_joined_segments(s: Seq<char>)
    ensures
        joined(segments(s)) == s,
    decreases s.len(),
{
    lemma_first_separator(s);
    let k = first_separator(s);
    if k < s.len() {
        let rest = s.skip(k + 1);
        lemma_joined_segments(rest);
        lemma_segment_count(rest);
        assert(segments(s).drop_first() == segments(rest));
        assert(s == s.take(k) + seq![SEPARATOR] + rest);
    }
}

/// Trimming the start leaves a tail of the line that does not begin with
/// white space, and drops white space only.
pub proof fn lemma_trim_start(s: Seq<char>)
    ensures
        trim_start(s).len() <= s.len(),
        trim_start(s) == s.skip(s.len() - trim_start(s).len()),
        all_space(s.take(s.len() - trim_start(s).len())),
        trim_start(s).len() > 0 ==> !is_space(trim_start(s).first()),
    decreases s.len(),
{
    if s.len() > 0 && is_space(s.first()) {
        let tail = s.drop_first();
        lemma_trim_start(tail);
        let cut = s.len() - trim_start(s).len();
        assert(tail.skip(cut - 1) == s.skip(cut));
        assert forall|i: int| 0 <= i < s.take(cut).len() implies is_space(
            #[trigger] s.take(cut)[i],
        ) by {
            if i > 0 {
                assert(s.take(cut)[i] == tail.take(cut - 1)[i - 1]);
            }
        }
    } else {
        assert(s.skip(0) == s);
    }
}

/// Trimming the end leaves a head of the line that does not end in white
/// space, and drops white space only.
pub proof fn lemma_trim_end(s: Seq<char>)
    ensures
        trim_end(s).len() <= s.len(),
        trim_end(s) == s.take(trim_end(s).len() as int),
        all_space(s.skip(trim_end(s).len() as int)),
        trim_end(s).len() > 0 ==> !is_space(trim_end(s).last()),
    decreases s.len(),
{
    if s.len() > 0 && is_space(s.last()) {
        let head = s.drop_last();
        lemma_trim_end(head);
        let keep = trim_end(s).len() as int;
        assert(head.take(keep) == s.take(keep));
        assert forall|i: int| 0 <= i < s.skip(keep).len() implies is_space(
            #[trigger] s.skip(keep)[i],
        ) by {
            if i < s.skip(keep).len() - 1 {
                assert(s.skip(keep)[i] == head.skip(keep)[i]);
            }
        }
    } else {
        assert(s.take(s.len() as int) == s);
    }
}

/// What trimming leaves is trimmed, and is the line without a stretch of
/// white space at either end.
pub proof fn lemma_trimmed(s: Seq<char>)
    ensures
        is_trimmed(trimmed(s)),
        exists|a: int, b: int|
            0 <= a <= b <= s.len() && trimmed(s) == s.subrange(a, b) && all_space(s.take(a))
                && all_space(s.skip(b)),
{
    let inner = trim_start(s);
    lemma_trim_start(s);
    lemma_trim_end(inner);
    let a = s.len() - inner.len();
    let b = a + trimmed(s).len();
    assert(trimmed(s) == s.subrange(a, b));
    assert forall|i: int| 0 <= i < s.skip(b).len() implies is_space(#[trigger] s.skip(b)[i]) by {
        assert(s.skip(b)[i] == inner.skip(trimmed(s).len() as int)[i]);
    }
    if trimmed(s).len() > 0 {
        assert(trimmed(s).first() == inner.first());
    }
    assert(0 <= a <= b <= s.len() && trimmed(s) == s.subrange(a, b) && all_space(s.take(a))
        && all_space(s.skip(b)));
}

/// A line that is not all white space keeps something when trimmed.
pub proof fn lemma_trimmed_keeps_names(s: Seq<char>)
    requires
        !all_space(s),
    ensures
        trimmed(s).len() > 0,
{
    lemma_trimmed(s);
    let (a, b) = choose|a: int, b: int|
        0 <= a <= b <= s.len() && trimmed(s) == s.subrange(a, b) && all_space(s.take(a))
            && all_space(s.skip(b));
    if a == b {
        assert forall|i: int| 0 <= i < s.len() implies is_space(#[trigger] s[i]) by {
            if i < a {
                assert(s[i] == s.take(a)[i]);
            } else {
                assert(s[i] == s.skip(b)[i - b]);
            }
        }
    }
}

/// Every tag of a tag list is trimmed.
pub proof fn lemma_tags_are_trimmed(s: Seq<char>)
    ensures
        forall|i: int| 0 <= i < tag_list(s).len() ==> is_trimmed(#[trigger] tag_list(s)[i]),
{
    assert forall|i: int| 0 <= i < tag_list(s).len() implies is_trimmed(
        #[trigger] tag_list(s)[i],
    ) by {
        lemma_trimmed(segments(s)[i]);
    }
}

/// A well-formed tag list names a tag in every segment: no tag is empty.
pub proof fn lemma_well_formed_tags_are_named(s: Seq<char>)
    requires
        well_formed(s),
    ensures
        forall|i: int| 0 <= i < tag_list(s).len() ==> (#[trigger] tag_list(s)[i]).len() > 0,
{
    assert forall|i: int| 0 <= i < tag_list(s).len() implies (#[trigger] tag_list(s)[i]).len()
        > 0 by {
        lemma_trimmed_keeps_names(segments(s)[i]);
    }
}

} // verus!
