//! Texts as sequences of characters: case folding, search, trimming and
//! comma-separated lists.

use vstd::prelude::*;
use vstd::utf8::{encode_utf8, is_ascii_chars, is_ascii_chars_encode_utf8};

verus! {

/// `String::push` appends one character to the string.
pub assume_specification[ String::push ](s: &mut String, ch: char)
    ensures
        final(s)@ == old(s)@.push(ch),
;

/// The text of an optional string slice.
pub open spec fn text_of(s: Option<&str>) -> Option<Seq<char>> {
    match s {
        Some(s) => Some(s@),
        None => None,
    }
}

/// The text of an optional string.
pub open spec fn owned_text(s: Option<String>) -> Option<Seq<char>> {
    match s {
        Some(s) => Some(s@),
        None => None,
    }
}

/// The characters of a string slice, in order.
pub fn chars_of(s: &str) -> (v: Vec<char>)
    ensures
        v@ == s@,
{
    let mut v: Vec<char> = Vec::new();
    for c in it: s.chars()
        invariant
            it.seq() == s@,
            v@ == s@.take(it.index()),
    {
        v.push(c);
    }
    v
}

/// The characters of a slice as a string.
pub fn string_of(chars: &[char]) -> (text: String)
    ensures
        text@ == chars@,
{
    let mut text = String::new();
    let n: usize = chars.len();
    let mut i: usize = 0;
    while i < n
        invariant
            i <= n,
            n == chars@.len(),
            text@ == chars@.take(i as int),
        decreases n - i,
    {
        text.push(chars[i]);
        assert(text@ =~= chars@.take(i + 1));
        i += 1;
    }
    assert(chars@.take(n as int) =~= chars@);
    text
}

/// The ASCII lower-case form of a character. Characters outside `A..=Z`
/// are left as they are.
pub open spec fn lower_char(c: char) -> char {
    if 'A' <= c && c <= 'Z' {
        ((c as u8) + 32) as char
    } else {
        c
    }
}

/// A text with every character replaced by its ASCII lower-case form.
pub open spec fn ascii_lower(s: Seq<char>) -> Seq<char> {
    Seq::new(s.len(), |i: int| lower_char(s[i]))
}

pub fn to_lower(c: char) -> (r: char)
    ensures
        r == lower_char(c),
{
    if 'A' <= c && c <= 'Z' {
        ((c as u8) + 32) as char
    } else {
        c
    }
}

/// The characters of a string slice, each in ASCII lower case.
pub fn lowered_chars(s: &str) -> (v: Vec<char>)
    ensures
        v@ == ascii_lower(s@),
{
    let mut v: Vec<char> = Vec::new();
    for c in it: s.chars()
        invariant
            it.seq() == s@,
            v@ == ascii_lower(s@.take(it.index())),
    {
        v.push(to_lower(c));
    }
    v
}

/// A copy of a string with its ASCII letters in lower case.
pub fn lowercase(s: &str) -> (lower: String)
    ensures
        lower@ == ascii_lower(s@),
{
    let chars = lowered_chars(s);
    string_of(chars.as_slice())
}

/// `needle` appears in `hay` starting at position `at`.
pub open spec fn occurs_at(hay: Seq<char>, needle: Seq<char>, at: int) -> bool {
    &&& 0 <= at
    &&& at + needle.len() <= hay.len()
    &&& hay.subrange(at, at + needle.len()) == needle
}

/// `needle` appears somewhere in `hay`.
pub open spec fn contains(hay: Seq<char>, needle: Seq<char>) -> bool {
    exists|at: int| occurs_at(hay, needle, at)
}

fn matches_at(hay: &[char], needle: &[char], at: usize) -> (b: bool)
    requires
        at + needle@.len() <= hay@.len(),
    ensures
        b == occurs_at(hay@, needle@, at as int),
{
    let end: usize = hay.len();
    let mut j: usize = 0;
    while j < needle.len()
        invariant
            j <= needle@.len(),
            at + needle@.len() <= hay@.len(),
            hay@.len() == end,
            forall|k: int| 0 <= k < j ==> hay@[at + k] == needle@[k],
        decreases needle@.len() - j,
    {
        if hay[at + j] != needle[j] {
            assert(hay@.subrange(at as int, at + needle@.len())[j as int] != needle@[j as int]);
            return false;
        }
        j += 1;
    }
    assert(hay@.subrange(at as int, at + needle@.len()) =~= needle@);
    true
}

/// Whether `needle` appears somewhere in `hay`.
pub fn contains_chars(hay: &[char], needle: &[char]) -> (b: bool)
    ensures
        b == contains(hay@, needle@),
{
    if needle.len() > hay.len() {
        return false;
    }
    let last: usize = hay.len() - needle.len();
    let mut at: usize = 0;
    loop
        invariant
            last == hay@.len() - needle@.len(),
            at <= last,
            forall|k: int| 0 <= k < at ==> !occurs_at(hay@, needle@, k),
        decreases last - at,
    {
        if matches_at(hay, needle, at) {
            return true;
        }
        if at == last {
            return false;
        }
        at += 1;
    }
}

/// Whether the characters of `token` appear somewhere in `hay`.
pub fn contains_token(hay: &[char], token: &str) -> (b: bool)
    ensures
        b == contains(hay@, token@),
{
    let needle = chars_of(token);
    contains_chars(hay, needle.as_slice())
}

/// The position of the first `stop` at or after `from`, or the length of
/// the text if there is none.
pub open spec fn position_of(s: Seq<char>, stop: char, from: int) -> int
    decreases s.len() - from,
{
    if from >= s.len() {
        s.len() as int
    } else if s[from] == stop {
        from
    } else {
        position_of(s, stop, from + 1)
    }
}

/// The part of a text before its first comma; the whole text if it has
/// no comma.
pub open spec fn before_comma(s: Seq<char>) -> Seq<char> {
    s.take(position_of(s, ',', 0))
}

/// The part of a text before its first comma.
pub fn first_member(chars: &[char]) -> (member: &[char])
    ensures
        member@ == before_comma(chars@),
{
    let n: usize = chars.len();
    let mut i: usize = 0;
    while i < n && chars[i] != ','
        invariant
            i <= n,
            n == chars@.len(),
            position_of(chars@, ',', 0) == position_of(chars@, ',', i as int),
        decreases n - i,
    {
        i += 1;
    }
    vstd::slice::slice_subrange(chars, 0, i)
}

/// Where `position_of` stops: on the first `stop` at or after `from`.
pub proof fn lemma_position_of(s: Seq<char>, stop: char, from: int)
    requires
        0 <= from <= s.len(),
    ensures
        from <= position_of(s, stop, from) <= s.len(),
        forall|i: int| from <= i < position_of(s, stop, from) ==> #[trigger] s[i] != stop,
        position_of(s, stop, from) < s.len() ==> s[position_of(s, stop, from)] == stop,
    decreases s.len() - from,
{
    if from < s.len() && s[from] != stop {
        lemma_position_of(s, stop, from + 1);
    }
}

/// What stands before the first comma: the longest head of the text
/// without a comma in it.
pub proof fn before_comma_is_the_first_member(s: Seq<char>)
    ensures
        before_comma(s).len() <= s.len(),
        before_comma(s) == s.take(before_comma(s).len() as int),
        forall|i: int| 0 <= i < before_comma(s).len() ==> #[trigger] before_comma(s)[i] != ',',
        before_comma(s).len() < s.len() ==> s[before_comma(s).len() as int] == ',',
{
    lemma_position_of(s, ',', 0);
}

/// White space as Unicode defines it: the space, the control characters
/// from tab to carriage return, and the line and space separators
/// beyond ASCII.
pub open spec fn is_space(c: char) -> bool {
    ||| c == ' '
    ||| ('\t' <= c && c <= '\r')
    ||| c == '\u{85}'
    ||| c == '\u{a0}'
    ||| c == '\u{1680}'
    ||| ('\u{2000}' <= c && c <= '\u{200a}')
    ||| c == '\u{2028}'
    ||| c == '\u{2029}'
    ||| c == '\u{202f}'
    ||| c == '\u{205f}'
    ||| c == '\u{3000}'
}

/// The position of the first character at or after `from` that is not
/// white space, or the length of the text if there is none.
pub open spec fn text_start(s: Seq<char>, from: int) -> int
    decreases s.len() - from,
{
    if from >= s.len() {
        s.len() as int
    } else if !is_space(s[from]) {
        from
    } else {
        text_start(s, from + 1)
    }
}

/// The position after the last character before `to` that is not white
/// space, or 0 if there is none.
pub open spec fn text_end(s: Seq<char>, to: int) -> int
    decreases to,
{
    if to <= 0 {
        0
    } else if !is_space(s[to - 1]) {
        to
    } else {
        text_end(s, to - 1)
    }
}

/// A text without the white space at its two ends.
pub open spec fn trimmed(s: Seq<char>) -> Seq<char> {
    let start = text_start(s, 0);
    let end = text_end(s, s.len() as int);
    if start < end {
        s.subrange(start, end)
    } else {
        Seq::empty()
    }
}

fn is_space_char(c: char) -> (r: bool)
    ensures
        r == is_space(c),
{
    c == ' ' || ('\t' <= c && c <= '\r') || c == '\u{85}' || c == '\u{a0}' || c == '\u{1680}' || (
    '\u{2000}' <= c && c <= '\u{200a}') || c == '\u{2028}' || c == '\u{2029}' || c == '\u{202f}'
        || c == '\u{205f}' || c == '\u{3000}'
}

/// The characters of a slice without the white space at the two ends,
/// as a string.
pub fn trimmed_string(chars: &[char]) -> (text: String)
    ensures
        text@ == trimmed(chars@),
{
    let n: usize = chars.len();
    let mut start: usize = 0;
    while start < n && is_space_char(chars[start])
        invariant
            start <= n,
            n == chars@.len(),
            text_start(chars@, 0) == text_start(chars@, start as int),
        decreases n - start,
    {
        start += 1;
    }
    let mut end: usize = n;
    while end > 0 && is_space_char(chars[end - 1])
        invariant
            end <= n,
            n == chars@.len(),
            text_end(chars@, n as int) == text_end(chars@, end as int),
        decreases end,
    {
        end -= 1;
    }
    if start < end {
        string_of(vstd::slice::slice_subrange(chars, start, end))
    } else {
        String::new()
    }
}

/// Where `text_start` stops: on the first character at or after
/// `from` that is not white space.
pub proof fn lemma_text_start(s: Seq<char>, from: int)
    requires
        0 <= from <= s.len(),
    ensures
        from <= text_start(s, from) <= s.len(),
        forall|i: int| from <= i < text_start(s, from) ==> is_space(#[trigger] s[i]),
        text_start(s, from) < s.len() ==> !is_space(s[text_start(s, from)]),
    decreases s.len() - from,
{
    if from < s.len() && is_space(s[from]) {
        lemma_text_start(s, from + 1);
    }
}

/// Where `text_end` stops: after the last character before `to` that
/// is not white space.
pub proof fn lemma_text_end(s: Seq<char>, to: int)
    requires
        0 <= to <= s.len(),
    ensures
        0 <= text_end(s, to) <= to,
        forall|i: int| text_end(s, to) <= i < to ==> is_space(#[trigger] s[i]),
        text_end(s, to) > 0 ==> !is_space(s[text_end(s, to) - 1]),
    decreases to,
{
    if to > 0 && is_space(s[to - 1]) {
        lemma_text_end(s, to - 1);
    }
}

/// What trimming leaves: the stretch of the text from its first to its
/// last character that is not white space. All that is cut off is
/// white space, and what is left neither starts nor ends with any.
pub proof fn trimmed_is_the_inner_text(s: Seq<char>)
    ensures
        ({
            let start = text_start(s, 0);
            let end = text_end(s, s.len() as int);
            &&& 0 <= start <= s.len()
            &&& 0 <= end <= s.len()
            &&& forall|i: int| 0 <= i < start ==> is_space(#[trigger] s[i])
            &&& forall|i: int| end <= i < s.len() ==> is_space(#[trigger] s[i])
            &&& start < end ==> trimmed(s) == s.subrange(start, end) && !is_space(
                trimmed(s).first(),
            ) && !is_space(trimmed(s).last())
            &&& start >= end ==> trimmed(s).len() == 0 && forall|i: int|
                0 <= i < s.len() ==> is_space(#[trigger] s[i])
        }),
{
    lemma_text_start(s, 0);
    lemma_text_end(s, s.len() as int);
    let start = text_start(s, 0);
    let end = text_end(s, s.len() as int);
    if start >= end {
        if start < s.len() {
            assert(is_space(s[start]));
        }
    }
}

/// The pieces of the text from `start` on that commas separate, given
/// that there is no comma between `start` and `at`.
pub open spec fn pieces(s: Seq<char>, start: int, at: int) -> Seq<Seq<char>>
    decreases s.len() - at,
{
    if at >= s.len() {
        seq![s.subrange(start, s.len() as int)]
    } else if s[at] == ',' {
        seq![s.subrange(start, at)] + pieces(s, at + 1, at + 1)
    } else {
        pieces(s, start, at + 1)
    }
}

/// The members of a comma-separated list, each trimmed. A text without
/// a comma is a list of one member, and so is the empty text.
pub open spec fn trimmed_list(s: Seq<char>) -> Seq<Seq<char>> {
    pieces(s, 0, 0).map_values(|piece: Seq<char>| trimmed(piece))
}

/// The members of a list with a comma between each two.
pub open spec fn joined(members: Seq<Seq<char>>) -> Seq<char>
    decreases members.len(),
{
    if members.len() == 0 {
        Seq::empty()
    } else if members.len() == 1 {
        members[0]
    } else {
        members[0] + seq![','] + joined(members.drop_first())
    }
}

/// The members of a comma-separated list, each trimmed.
pub fn split_trimmed(s: &str) -> (members: Vec<String>)
    ensures
        members@.len() == trimmed_list(s@).len(),
        forall|i: int| 0 <= i < members@.len() ==> #[trigger] members@[i]@ == trimmed_list(s@)[i],
{
    let chars = chars_of(s);
    let chars = chars.as_slice();
    let n: usize = chars.len();
    let mut members: Vec<String> = Vec::new();
    let ghost mut done: Seq<Seq<char>> = Seq::empty();
    let mut start: usize = 0;
    let mut at: usize = 0;
    while at < n
        invariant
            start <= at <= n,
            n == chars@.len(),
            pieces(chars@, 0, 0) == done + pieces(chars@, start as int, at as int),
            members@.len() == done.len(),
            forall|i: int|
                0 <= i < members@.len() ==> #[trigger] members@[i]@ == trimmed(done[i]),
        decreases n - at,
    {
        if chars[at] == ',' {
            let piece = vstd::slice::slice_subrange(chars, start, at);
            members.push(trimmed_string(piece));
            proof {
                let rest = pieces(chars@, at + 1, at + 1);
                assert(done + (seq![piece@] + rest) =~= done.push(piece@) + rest);
                done = done.push(piece@);
            }
            start = at + 1;
        }
        at += 1;
    }
    let piece = vstd::slice::slice_subrange(chars, start, n);
    members.push(trimmed_string(piece));
    proof {
        assert(done + seq![piece@] =~= done.push(piece@));
        done = done.push(piece@);
        assert(trimmed_list(s@).len() == done.len());
        assert forall|i: int| 0 <= i < members@.len() implies #[trigger] members@[i]@
            == trimmed_list(s@)[i] by {
            assert(trimmed_list(s@)[i] == trimmed(done[i]));
        }
    }
    members
}

/// Splitting loses nothing: the pieces of a text have no comma in
/// them, and with a comma between each two they are the text again.
pub proof fn pieces_join_back(s: Seq<char>)
    ensures
        pieces(s, 0, 0).len() > 0,
        joined(pieces(s, 0, 0)) == s,
        forall|k: int, i: int|
            0 <= k < pieces(s, 0, 0).len() && 0 <= i < pieces(s, 0, 0)[k].len() ==> (
            #[trigger] pieces(s, 0, 0)[k][i]) != ',',
{
    lemma_pieces(s, 0, 0);
    assert(s.subrange(0, s.len() as int) =~= s);
}

proof fn lemma_pieces(s: Seq<char>, start: int, at: int)
    requires
        0 <= start <= at <= s.len(),
        forall|i: int| start <= i < at ==> #[trigger] s[i] != ',',
    ensures
        pieces(s, start, at).len() > 0,
        joined(pieces(s, start, at)) == s.subrange(start, s.len() as int),
        forall|k: int, i: int|
            0 <= k < pieces(s, start, at).len() && 0 <= i < pieces(s, start, at)[k].len() ==> (
            #[trigger] pieces(s, start, at)[k][i]) != ',',
    decreases s.len() - at,
{
    let all = pieces(s, start, at);
    if at >= s.len() {
        assert(all[0] == s.subrange(start, s.len() as int));
    } else if s[at] == ',' {
        let rest = pieces(s, at + 1, at + 1);
        lemma_pieces(s, at + 1, at + 1);
        assert(all.drop_first() =~= rest);
        assert(all[0] == s.subrange(start, at));
        assert(joined(all) =~= s.subrange(start, s.len() as int));
        assert forall|k: int, i: int| 0 <= k < all.len() && 0 <= i < all[k].len() implies (
        #[trigger] all[k][i]) != ',' by {
            if k > 0 {
                assert(all[k] == rest[k - 1]);
                assert(rest[k - 1][i] != ',');
            }
        }
    } else {
        lemma_pieces(s, start, at + 1);
    }
}

/// A character that shows on a line of text: printable ASCII, the space
/// or the tab.
pub open spec fn is_visible_char(c: char) -> bool {
    (' ' <= c && c <= '~') || c == '\t'
}

/// A text of visible characters only.
pub open spec fn is_visible(text: Seq<char>) -> bool {
    forall|i: int| 0 <= i < text.len() ==> is_visible_char(#[trigger] text[i])
}

/// Trimming, cutting at a comma and lower-casing keep a visible text
/// visible.
pub proof fn lemma_visible_parts(s: Seq<char>)
    requires
        is_visible(s),
    ensures
        is_visible(trimmed(s)),
        is_visible(before_comma(s)),
        is_visible(ascii_lower(s)),
{
    lemma_text_start(s, 0);
    lemma_text_end(s, s.len() as int);
    lemma_position_of(s, ',', 0);
    assert forall|i: int| 0 <= i < ascii_lower(s).len() implies is_visible_char(
        #[trigger] ascii_lower(s)[i],
    ) by {
        assert(is_visible_char(s[i]));
    }
}

/// A visible text is ASCII, and its UTF-8 form has one byte for each
/// character, of the same number.
pub proof fn lemma_visible_encoding(text: Seq<char>)
    requires
        is_visible(text),
    ensures
        is_ascii_chars(text),
        encode_utf8(text).len() == text.len(),
        forall|i: int| 0 <= i < text.len() ==> #[trigger] encode_utf8(text)[i] == text[i] as u8,
{
    assert(is_ascii_chars(text)) by {
        assert forall|i: int| 0 <= i < text.len() implies '\0' <= #[trigger] text[i]
            <= '\u{7f}' by {
            assert(is_visible_char(text[i]));
        }
    }
    is_ascii_chars_encode_utf8(text);
}

} // verus!
