//! Operations on text: whitespace, trimming, lines, leading markers and
//! comparison.

use vstd::prelude::*;

verus! {

/// Whether `c` is a whitespace character: one of the code points that carry
/// the Unicode property `White_Space`.
pub open spec fn is_white_space(c: char) -> bool {
    let u = c as u32;
    ||| 0x09 <= u <= 0x0d
    ||| u == 0x20
    ||| u == 0x85
    ||| u == 0xa0
    ||| u == 0x1680
    ||| 0x2000 <= u <= 0x200a
    ||| u == 0x2028
    ||| u == 0x2029
    ||| u == 0x202f
    ||| u == 0x205f
    ||| u == 0x3000
}

/// `s` without its leading whitespace.
pub open spec fn trim_start(s: Seq<char>) -> Seq<char>
    decreases s.len(),
{
    if s.len() > 0 && is_white_space(s.first()) {
        trim_start(s.drop_first())
    } else {
        s
    }
}

/// `s` without its trailing whitespace.
pub open spec fn trim_end(s: Seq<char>) -> Seq<char>
    decreases s.len(),
{
    if s.len() > 0 && is_white_space(s.last()) {
        trim_end(s.drop_last())
    } else {
        s
    }
}

/// `s` without its leading and trailing whitespace.
pub open spec fn trimmed(s: Seq<char>) -> Seq<char> {
    trim_end(trim_start(s))
}

/// Whether `s` holds whitespace only.
pub open spec fn is_blank(s: Seq<char>) -> bool {
    forall|i: int| 0 <= i < s.len() ==> is_white_space(#[trigger] s[i])
}

/// Blank text in front makes no difference to `trim_start`.
proof fn lemma_trim_start_skips_blank(lead: Seq<char>, rest: Seq<char>)
    requires
        is_blank(lead),
    ensures
        trim_start(lead + rest) == trim_start(rest),
    decreases lead.len(),
{
    if lead.len() == 0 {
        assert(lead + rest =~= rest);
    } else {
        assert((lead + rest).first() == lead[0]);
        assert((lead + rest).drop_first() =~= lead.drop_first() + rest);
        lemma_trim_start_skips_blank(lead.drop_first(), rest);
    }
}

/// Blank text behind makes no difference to `trim_end`.
proof fn lemma_trim_end_skips_blank(rest: Seq<char>, trail: Seq<char>)
    requires
        is_blank(trail),
    ensures
        trim_end(rest + trail) == trim_end(rest),
    decreases trail.len(),
{
    if trail.len() == 0 {
        assert(rest + trail =~= rest);
    } else {
        assert((rest + trail).last() == trail.last());
        assert((rest + trail).drop_last() =~= rest + trail.drop_last());
        lemma_trim_end_skips_blank(rest, trail.drop_last());
    }
}

/// Trimming takes away exactly the blank text around a core that neither
/// starts nor ends with whitespace.
pub proof fn law_trimmed_drops_padding(lead: Seq<char>, core: Seq<char>, trail: Seq<char>)
    requires
        is_blank(lead),
        is_blank(trail),
        core.len() > 0 ==> !is_white_space(core.first()) && !is_white_space(core.last()),
    ensures
        trimmed(lead + core + trail) == core,
{
    assert(lead + core + trail =~= lead + (core + trail));
    lemma_trim_start_skips_blank(lead, core + trail);
    if core.len() > 0 {
        assert((core + trail).first() == core.first());
        assert(trim_start(core + trail) == core + trail);
        lemma_trim_end_skips_blank(core, trail);
        assert(trim_end(core) == core);
    } else {
        assert(core + trail =~= trail);
        lemma_trim_start_skips_blank(trail, Seq::empty());
        assert(trail + Seq::<char>::empty() =~= trail);
        assert(trim_start(Seq::<char>::empty()) =~= Seq::<char>::empty());
        assert(core =~= Seq::<char>::empty());
    }
}

/// What `trim_end` leaves is the start of the text, and ends with no
/// whitespace.
proof fn lemma_trim_end_keeps_start(s: Seq<char>)
    ensures
        trim_end(s) == s.take(trim_end(s).len() as int),
        trim_end(s).len() <= s.len(),
        trim_end(s).len() > 0 ==> !is_white_space(trim_end(s).last()),
    decreases s.len(),
{
    if s.len() > 0 && is_white_space(s.last()) {
        lemma_trim_end_keeps_start(s.drop_last());
        assert(s.drop_last().take(trim_end(s).len() as int) =~= s.take(trim_end(s).len() as int));
    } else {
        assert(s.take(s.len() as int) =~= s);
    }
}

/// What `trim_start` leaves starts with no whitespace.
proof fn lemma_trim_start_stops_at_text(s: Seq<char>)
    ensures
        trim_start(s).len() > 0 ==> !is_white_space(trim_start(s).first()),
    decreases s.len(),
{
    if s.len() > 0 && is_white_space(s.first()) {
        lemma_trim_start_stops_at_text(s.drop_first());
    }
}

/// Trimmed text neither starts nor ends with whitespace, and trimming it
/// again changes nothing.
pub proof fn law_trimmed_is_final(s: Seq<char>)
    ensures
        trimmed(s).len() > 0 ==> !is_white_space(trimmed(s).first()) && !is_white_space(
            trimmed(s).last(),
        ),
        trimmed(trimmed(s)) == trimmed(s),
{
    let t = trim_start(s);
    lemma_trim_start_stops_at_text(s);
    lemma_trim_end_keeps_start(t);
    let u = trimmed(s);
    if u.len() > 0 {
        assert(u.first() == t.take(u.len() as int)[0]);
        assert(u.first() == t.first());
        assert(trim_start(u) == u);
        assert(trim_end(u) == u);
    } else {
        assert(trim_start(u) == u);
        assert(trim_end(u) == u);
    }
}

/// The length of a line that is followed by a line feed.
proof fn lemma_line_length_of_terminated(line: Seq<char>, rest: Seq<char>)
    requires
        !line.contains('\n'),
    ensures
        line_length(line + seq!['\n'] + rest) == line.len(),
        line_length(line) == line.len(),
    decreases line.len(),
{
    let whole = line + seq!['\n'] + rest;
    if line.len() == 0 {
        assert(whole.first() == '\n');
    } else {
        assert(line.contains(line[0]));
        assert(whole.first() == line[0]);
        assert(whole.drop_first() =~= line.drop_first() + seq!['\n'] + rest);
        assert forall|c: char| line.drop_first().contains(c) implies line.contains(c) by {
            let i = choose|i: int| 0 <= i < line.drop_first().len() && line.drop_first()[i] == c;
            assert(line[i + 1] == c);
        }
        lemma_line_length_of_terminated(line.drop_first(), rest);
    }
}

/// The first line of a text is what stands before its first line feed,
/// without a carriage return at the end of that; a text without a line feed
/// is its own first line.
pub proof fn law_first_line_ends_at_line_feed(line: Seq<char>, rest: Seq<char>)
    requires
        !line.contains('\n'),
    ensures
        first_line(line) == line,
        first_line(line + seq!['\n'] + rest) == if line.len() > 0 && line.last() == '\r' {
            line.drop_last()
        } else {
            line
        },
{
    lemma_line_length_of_terminated(line, rest);
    let whole = line + seq!['\n'] + rest;
    let k = line.len() as int;
    assert(line.take(k) =~= line);
    assert(whole.take(k) =~= line);
    if k > 0 {
        assert(whole[k - 1] == line.last());
        assert(whole.take(k - 1) =~= line.drop_last());
    }
}

/// Decides whether `c` is a whitespace character.
pub fn is_whitespace_char(c: char) -> (r: bool)
    ensures
        r == is_white_space(c),
{
    (c >= '\u{9}' && c <= '\u{d}') || c == ' ' || c == '\u{85}' || c == '\u{a0}' || c == '\u{1680}'
        || (c >= '\u{2000}' && c <= '\u{200a}') || c == '\u{2028}' || c == '\u{2029}' || c
        == '\u{202f}' || c == '\u{205f}' || c == '\u{3000}'
}

/// The characters of `s`, in order.
pub fn chars_of(s: &str) -> (v: Vec<char>)
    ensures
        v@ == s@,
{
    let mut v: Vec<char> = Vec::new();
    for c in it: s.chars()
        invariant
            it.seq() == s@,
            v@ == s@.take(it.index() as int),
    {
        v.push(c);
    }
    v
}

/// Removes leading and trailing whitespace.
pub fn trim(s: &str) -> (t: &str)
    ensures
        t@ == trimmed(s@),
{
    let v = chars_of(s);
    let n: usize = v.len();
    let mut start: usize = 0;
    assert(v@.skip(0) =~= v@);
    while start < n && is_whitespace_char(v[start])
        invariant
            start <= n == v@.len(),
            trim_start(v@) == trim_start(v@.skip(start as int)),
        decreases n - start,
    {
        proof {
            assert(v@.skip(start as int).drop_first() =~= v@.skip(start as int + 1));
        }
        start = start + 1;
    }
    assert(trim_start(v@) == v@.skip(start as int));
    let mut end: usize = n;
    while end > start && is_whitespace_char(v[end - 1])
        invariant
            start <= end <= n == v@.len(),
            trimmed(v@) == trim_end(v@.subrange(start as int, end as int)),
        decreases end,
    {
        proof {
            assert(v@.subrange(start as int, end as int).drop_last() =~= v@.subrange(
                start as int,
                end as int - 1,
            ));
        }
        end = end - 1;
    }
    s.substring_char(start, end)
}

/// The number of characters of `s` that stand before its first line feed:
/// all of them where it holds none.
pub open spec fn line_length(s: Seq<char>) -> nat
    decreases s.len(),
{
    if s.len() == 0 || s.first() == '\n' {
        0
    } else {
        1 + line_length(s.drop_first())
    }
}

/// The first line of `s`, without its terminator. A line ends at the first
/// line feed; a carriage return directly before that line feed belongs to the
/// terminator. Text without a line feed is one line, kept whole.
pub open spec fn first_line(s: Seq<char>) -> Seq<char> {
    let k = line_length(s) as int;
    if 0 < k < s.len() && s[k - 1] == '\r' {
        s.take(k - 1)
    } else {
        s.take(k)
    }
}

/// `s` without the leading `marker`, or `s` itself where it does not start
/// with `marker`.
pub open spec fn without_marker(s: Seq<char>, marker: Seq<char>) -> Seq<char> {
    if marker.is_prefix_of(s) {
        s.skip(marker.len() as int)
    } else {
        s
    }
}

/// Takes the first line of `s`.
pub fn first_line_of(s: &str) -> (line: &str)
    ensures
        line@ == first_line(s@),
{
    let v = chars_of(s);
    let n: usize = v.len();
    let mut k: usize = 0;
    assert(v@.skip(0) =~= v@);
    while k < n && v[k] != '\n'
        invariant
            k <= n == v@.len(),
            line_length(v@) == k + line_length(v@.skip(k as int)),
        decreases n - k,
    {
        proof {
            assert(v@.skip(k as int).drop_first() =~= v@.skip(k as int + 1));
        }
        k = k + 1;
    }
    if 0 < k && k < n && v[k - 1] == '\r' {
        s.substring_char(0, k - 1)
    } else {
        s.substring_char(0, k)
    }
}

/// Decides whether two texts hold the same characters.
pub fn same_text(a: &str, b: &str) -> (r: bool)
    ensures
        r == (a@ == b@),
{
    let va = chars_of(a);
    let vb = chars_of(b);
    if va.len() != vb.len() {
        return false;
    }
    let n: usize = va.len();
    let mut i: usize = 0;
    while i < n
        invariant
            va@ == a@,
            vb@ == b@,
            i <= n == va@.len() == vb@.len(),
            va@.take(i as int) == vb@.take(i as int),
        decreases n - i,
    {
        if va[i] != vb[i] {
            assert(a@[i as int] != b@[i as int]);
            return false;
        }
        proof {
            assert(va@.take(i as int + 1) =~= va@.take(i as int).push(va@[i as int]));
            assert(vb@.take(i as int + 1) =~= vb@.take(i as int).push(vb@[i as int]));
        }
        i = i + 1;
    }
    proof {
        assert(va@.take(n as int) =~= va@);
        assert(vb@.take(n as int) =~= vb@);
    }
    true
}

/// Decides whether two byte strings hold the same bytes.
pub fn same_bytes(a: &[u8], b: &[u8]) -> (r: bool)
    ensures
        r == (a@ == b@),
{
    if a.len() != b.len() {
        return false;
    }
    let n: usize = a.len();
    let mut i: usize = 0;
    while i < n
        invariant
            i <= n == a@.len() == b@.len(),
            forall|j: int| 0 <= j < i ==> a@[j] == b@[j],
        decreases n - i,
    {
        if a[i] != b[i] {
            return false;
        }
        i = i + 1;
    }
    proof {
        assert(a@ =~= b@);
    }
    true
}

/// Removes `marker` from the start of `s` where `s` starts with it.
pub fn strip_marker<'a>(s: &'a str, marker: &str) -> (rest: &'a str)
    ensures
        rest@ == without_marker(s@, marker@),
{
    let v = chars_of(s);
    let m = chars_of(marker);
    if m.len() > v.len() {
        return s;
    }
    let n: usize = m.len();
    let mut i: usize = 0;
    while i < n
        invariant
            v@ == s@,
            m@ == marker@,
            i <= n == m@.len() <= v@.len(),
            forall|j: int| 0 <= j < i ==> m@[j] == v@[j],
        decreases n - i,
    {
        if m[i] != v[i] {
            assert(s@.subrange(0, n as int)[i as int] != marker@[i as int]);
            return s;
        }
        i = i + 1;
    }
    proof {
        assert(m@ =~= v@.subrange(0, n as int));
    }
    let rest = s.substring_char(n, v.len());
    proof {
        assert(s@.subrange(n as int, v@.len() as int) =~= s@.skip(n as int));
    }
    rest
}

} // verus!
