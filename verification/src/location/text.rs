//! Text as sequences of characters: the few operations the parsers of
//! command output are built from, each with its meaning stated.

use vstd::prelude::*;

verus! {

/// What an optional string holds, as a value.
pub open spec fn text_of(text: Option<String>) -> Option<Seq<char>> {
    match text {
        Some(text) => Some(text@),
        None => None,
    }
}

/// Whether the character is white space: a character with the Unicode
/// property `White_Space`.
pub open spec fn spec_is_whitespace(c: char) -> bool {
    let code = c as u32;
    ||| 0x09 <= code <= 0x0D
    ||| code == 0x20
    ||| code == 0x85
    ||| code == 0xA0
    ||| code == 0x1680
    ||| 0x2000 <= code <= 0x200A
    ||| code == 0x2028
    ||| code == 0x2029
    ||| code == 0x202F
    ||| code == 0x205F
    ||| code == 0x3000
}

#[verifier::when_used_as_spec(spec_is_whitespace)]
pub fn is_whitespace(c: char) -> (white: bool)
    ensures
        white == spec_is_whitespace(c),
{
    let code = c as u32;
    (0x09 <= code && code <= 0x0D) || code == 0x20 || code == 0x85 || code == 0xA0 || code
        == 0x1680 || (0x2000 <= code && code <= 0x200A) || code == 0x2028 || code == 0x2029
        || code == 0x202F || code == 0x205F || code == 0x3000
}

/// Whether `pattern` stands in `text` at position `at`.
pub open spec fn occurs_at(text: Seq<char>, pattern: Seq<char>, at: int) -> bool {
    &&& 0 <= at
    &&& at + pattern.len() <= text.len()
    &&& text.subrange(at, at + pattern.len()) == pattern
}

/// Whether `text` begins with `pattern`.
pub open spec fn starts_with(text: Seq<char>, pattern: Seq<char>) -> bool {
    occurs_at(text, pattern, 0)
}

/// Whether `pattern` stands somewhere in `text`.
pub open spec fn contains(text: Seq<char>, pattern: Seq<char>) -> bool {
    exists|at: int| occurs_at(text, pattern, at)
}

/// `text` from position `from` on, without the occurrences of `pattern`:
/// they are found from left to right and do not overlap. An empty pattern
/// occurs nowhere.
pub open spec fn without_from(text: Seq<char>, pattern: Seq<char>, from: int) -> Seq<char>
    decreases text.len() - from,
{
    if from < 0 || from >= text.len() {
        Seq::empty()
    } else if pattern.len() > 0 && occurs_at(text, pattern, from) {
        without_from(text, pattern, from + pattern.len())
    } else {
        seq![text[from]] + without_from(text, pattern, from + 1)
    }
}

/// `text` without the occurrences of `pattern`.
pub open spec fn without(text: Seq<char>, pattern: Seq<char>) -> Seq<char> {
    without_from(text, pattern, 0)
}

/// The position of the first character at or after `from` that is not white
/// space, or the length of the text.
pub open spec fn skip_whitespace(text: Seq<char>, from: int) -> int
    decreases text.len() - from,
{
    if 0 <= from < text.len() && spec_is_whitespace(text[from]) {
        skip_whitespace(text, from + 1)
    } else {
        from
    }
}

/// The end of the text between `start` and `end` once the white space at
/// its end is taken off.
pub open spec fn drop_whitespace(text: Seq<char>, start: int, end: int) -> int
    decreases end,
{
    if 0 <= start < end <= text.len() && spec_is_whitespace(text[end - 1]) {
        drop_whitespace(text, start, end - 1)
    } else {
        end
    }
}

/// `text` without the white space at its start and at its end.
pub open spec fn trimmed(text: Seq<char>) -> Seq<char> {
    let start = skip_whitespace(text, 0);
    text.subrange(start, drop_whitespace(text, start, text.len() as int))
}

/// The position of the first line feed at or after `from`, or the length of
/// the text.
pub open spec fn line_end(text: Seq<char>, from: int) -> int
    decreases text.len() - from,
{
    if 0 <= from < text.len() && text[from] != '\n' {
        line_end(text, from + 1)
    } else {
        from
    }
}

/// The line that begins at `from`: up to the next line feed, and without a
/// carriage return in front of that line feed.
pub open spec fn line_at(text: Seq<char>, from: int) -> Seq<char> {
    let end = line_end(text, from);
    if from < end < text.len() && text[end - 1] == '\r' {
        text.subrange(from, end - 1)
    } else {
        text.subrange(from, end)
    }
}

/// The lines of the text from position `from` on. A line feed at the very
/// end does not begin another line.
pub open spec fn lines_from(text: Seq<char>, from: int) -> Seq<Seq<char>>
    decreases text.len() - from,
{
    if from < 0 || from >= text.len() {
        Seq::empty()
    } else if from <= line_end(text, from) < text.len() {
        seq![line_at(text, from)] + lines_from(text, line_end(text, from) + 1)
    } else {
        seq![line_at(text, from)]
    }
}

/// The lines of the text.
pub open spec fn lines(text: Seq<char>) -> Seq<Seq<char>> {
    lines_from(text, 0)
}

/// The end of a line lies between its start and the end of the text, and
/// where it lies inside the text, a line feed stands there.
pub proof fn lemma_line_end_bounds(text: Seq<char>, from: int)
    requires
        0 <= from <= text.len(),
    ensures
        from <= line_end(text, from) <= text.len(),
        line_end(text, from) < text.len() ==> text[line_end(text, from)] == '\n',
    decreases text.len() - from,
{
    if from < text.len() && text[from] != '\n' {
        lemma_line_end_bounds(text, from + 1);
    }
}

/// The characters of a string, in a vector. The cost is quadratic in the
/// length of the string, which is fine for a screenful of command output.
pub fn chars_of(text: &str) -> (chars: Vec<char>)
    ensures
        chars@ == text@,
{
    let len = text.unicode_len();
    let mut chars: Vec<char> = Vec::new();
    let mut i: usize = 0;
    while i < len
        invariant
            len == text@.len(),
            i <= len,
            chars@ == text@.take(i as int),
        decreases len - i,
    {
        chars.push(text.get_char(i));
        i = i + 1;
    }
    chars
}

/// `String::push`: appends one character to the string.
#[verifier::external_body]
fn push_char(text: &mut String, c: char)
    ensures
        final(text)@ == old(text)@.push(c),
{
    text.push(c)
}

/// The string of the characters of `chars` from `start` up to `end`.
pub fn string_of(chars: &Vec<char>, start: usize, end: usize) -> (text: String)
    requires
        start <= end <= chars@.len(),
    ensures
        text@ == chars@.subrange(start as int, end as int),
{
    let mut text = String::new();
    let mut i: usize = start;
    while i < end
        invariant
            start <= i <= end <= chars@.len(),
            text@ == chars@.subrange(start as int, i as int),
        decreases end - i,
    {
        push_char(&mut text, chars[i]);
        i = i + 1;
    }
    text
}

/// Whether `pattern` stands in `text` at position `at`.
pub fn matches_at(text: &Vec<char>, pattern: &Vec<char>, at: usize) -> (found: bool)
    ensures
        found == occurs_at(text@, pattern@, at as int),
{
    let n = text.len();
    let m = pattern.len();
    if at > n || m > n - at {
        return false;
    }
    let mut k: usize = 0;
    while k < m
        invariant
            at + m <= n,
            n == text@.len(),
            m == pattern@.len(),
            k <= m,
            forall|j: int| 0 <= j < k ==> text@[at + j] == pattern@[j],
        decreases m - k,
    {
        if text[at + k] != pattern[k] {
            return false;
        }
        k = k + 1;
    }
    assert(text@.subrange(at as int, at + m) =~= pattern@);
    true
}

/// Whether `pattern` stands somewhere in `text`.
pub fn find(text: &Vec<char>, pattern: &Vec<char>) -> (found: bool)
    ensures
        found == contains(text@, pattern@),
{
    let n = text.len();
    let m = pattern.len();
    if m > n {
        assert forall|at: int| !occurs_at(text@, pattern@, at) by {}
        return false;
    }
    let last: usize = n - m;
    let mut at: usize = 0;
    while at < last
        invariant
            m <= n,
            n == text@.len(),
            m == pattern@.len(),
            last == n - m,
            at <= last,
            forall|j: int| 0 <= j < at ==> !occurs_at(text@, pattern@, j),
        decreases last - at,
    {
        if matches_at(text, pattern, at) {
            return true;
        }
        at = at + 1;
    }
    if matches_at(text, pattern, last) {
        return true;
    }
    assert forall|j: int| !occurs_at(text@, pattern@, j) by {}
    false
}

/// `text` without the occurrences of `pattern`.
pub fn remove_all(text: &Vec<char>, pattern: &Vec<char>) -> (rest: Vec<char>)
    ensures
        rest@ == without(text@, pattern@),
{
    let n = text.len();
    let m = pattern.len();
    let mut rest: Vec<char> = Vec::new();
    let mut at: usize = 0;
    while at < n
        invariant
            n == text@.len(),
            m == pattern@.len(),
            at <= n,
            rest@ + without_from(text@, pattern@, at as int) == without(text@, pattern@),
        decreases n - at,
    {
        if m > 0 && matches_at(text, pattern, at) {
            at = at + m;
        } else {
            rest.push(text[at]);
            at = at + 1;
        }
    }
    rest
}

/// The bounds of `text` without the white space at its start and its end.
pub fn trim_bounds(text: &Vec<char>) -> (bounds: (usize, usize))
    ensures
        bounds.0 <= bounds.1 <= text@.len(),
        text@.subrange(bounds.0 as int, bounds.1 as int) == trimmed(text@),
{
    let n = text.len();
    let mut start: usize = 0;
    while start < n && is_whitespace(text[start])
        invariant
            n == text@.len(),
            start <= n,
            skip_whitespace(text@, start as int) == skip_whitespace(text@, 0),
        decreases n - start,
    {
        start = start + 1;
    }
    let mut end: usize = n;
    while end > start && is_whitespace(text[end - 1])
        invariant
            n == text@.len(),
            start <= end <= n,
            drop_whitespace(text@, start as int, end as int) == drop_whitespace(
                text@,
                start as int,
                n as int,
            ),
        decreases end,
    {
        end = end - 1;
    }
    (start, end)
}

/// `text` without the white space at its start and its end.
pub fn trim(text: &Vec<char>) -> (rest: Vec<char>)
    ensures
        rest@ == trimmed(text@),
{
    let (start, end) = trim_bounds(text);
    let mut rest: Vec<char> = Vec::new();
    let mut i: usize = start;
    while i < end
        invariant
            start <= i <= end <= text@.len(),
            rest@ == text@.subrange(start as int, i as int),
        decreases end - i,
    {
        rest.push(text[i]);
        i = i + 1;
    }
    rest
}

/// Whether the text is empty but for white space.
pub fn is_blank(text: &str) -> (blank: bool)
    ensures
        blank == (trimmed(text@).len() == 0),
{
    let chars = chars_of(text);
    let (start, end) = trim_bounds(&chars);
    start == end
}

/// The position at which the line that begins at `from` ends: that of the
/// next line feed, or the length of the text.
pub fn find_line_end(text: &Vec<char>, from: usize) -> (end: usize)
    requires
        from <= text@.len(),
    ensures
        from <= end <= text@.len(),
        end == line_end(text@, from as int),
{
    let n = text.len();
    let mut end: usize = from;
    while end < n && text[end] != '\n'
        invariant
            n == text@.len(),
            from <= end <= n,
            line_end(text@, end as int) == line_end(text@, from as int),
        decreases n - end,
    {
        end = end + 1;
    }
    end
}

/// The line that begins at `from` and ends before `end`, the position of
/// its line feed or the end of the text.
pub fn take_line(text: &Vec<char>, from: usize, end: usize) -> (line: Vec<char>)
    requires
        from <= end <= text@.len(),
        end == line_end(text@, from as int),
    ensures
        line@ == line_at(text@, from as int),
{
    let n = text.len();
    let stop: usize = if from < end && end < n && text[end - 1] == '\r' {
        end - 1
    } else {
        end
    };
    let mut line: Vec<char> = Vec::new();
    let mut i: usize = from;
    while i < stop
        invariant
            from <= i <= stop <= text@.len(),
            line@ == text@.subrange(from as int, i as int),
        decreases stop - i,
    {
        line.push(text[i]);
        i = i + 1;
    }
    line
}

} // verus!
