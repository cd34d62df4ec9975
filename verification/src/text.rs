//! Text as a sequence of characters: white space, stripping, lines.

use vstd::prelude::*;
use vstd::string::StringSliceAdditionalSpecFns;

verus! {

/// The characters of an optional string.
pub open spec fn optional_text(text: Option<String>) -> Option<Seq<char>> {
    match text {
        Some(s) => Some(s@),
        None => None,
    }
}

/// The characters of each string of a list.
pub open spec fn texts(list: Seq<String>) -> Seq<Seq<char>> {
    Seq::new(list.len(), |i: int| list[i]@)
}

/// Whether a character counts as white space: the characters with the
/// Unicode property `White_Space`.
pub open spec fn is_space(c: char) -> bool {
    let code = c as u32;
    ||| 0x09 <= code <= 0x0D
    ||| code == 0x20
    ||| code == 0x85
    ||| code == 0xA0
    ||| code == 0x1680
    ||| 0x2000 <= code <= 0x200A
    ||| code == 0x2028
    ||| code == 0x2029
    ||| code == 0x202F
    ||| code == 0x205F
    ||| code == 0x3000
}

/// Whether a character belongs to a class: the class of one given
/// character, or, where none is given, the class of white space.
pub open spec fn in_class(c: char, class: Option<char>) -> bool {
    match class {
        Some(member) => c == member,
        None => is_space(c),
    }
}

/// How many characters of the class a text starts with.
pub open spec fn leading(text: Seq<char>, class: Option<char>) -> nat
    decreases text.len(),
{
    if text.len() > 0 && in_class(text[0], class) {
        1 + leading(text.drop_first(), class)
    } else {
        0
    }
}

/// How many characters of the class a text ends with.
pub open spec fn trailing(text: Seq<char>, class: Option<char>) -> nat
    decreases text.len(),
{
    if text.len() > 0 && in_class(text.last(), class) {
        1 + trailing(text.drop_last(), class)
    } else {
        0
    }
}

/// A text without the characters of the class at its two ends.
pub open spec fn stripped(text: Seq<char>, class: Option<char>) -> Seq<char> {
    if leading(text, class) >= text.len() {
        Seq::empty()
    } else {
        text.subrange(leading(text, class) as int, text.len() - trailing(text, class))
    }
}

/// A text without the white space at its two ends.
pub open spec fn trimmed(text: Seq<char>) -> Seq<char> {
    stripped(text, None)
}

/// Whether a text holds nothing but white space.
pub open spec fn is_blank(text: Seq<char>) -> bool {
    forall|i: int| 0 <= i < text.len() ==> is_space(#[trigger] text[i])
}

/// The index of the first line feed at or after `from`, or the length
/// of the text where there is none.
pub open spec fn next_break(text: Seq<char>, from: int) -> int
    decreases text.len() - from,
{
    if from < 0 || from >= text.len() {
        text.len() as int
    } else if text[from] == '\n' {
        from
    } else {
        next_break(text, from + 1)
    }
}

/// Where the line that starts at `from` ends: at its line feed, or one
/// earlier where a carriage return stands before the line feed, or at
/// the end of the text.
pub open spec fn line_end(text: Seq<char>, from: int) -> int {
    let at = next_break(text, from);
    if from < at < text.len() && text[at - 1] == '\r' {
        at - 1
    } else {
        at
    }
}

/// The lines of a text from `from` on.
pub open spec fn lines_from(text: Seq<char>, from: int) -> Seq<Seq<char>>
    decreases text.len() - from,
{
    let at = next_break(text, from);
    if from < 0 || from >= text.len() {
        Seq::empty()
    } else if from <= at < text.len() {
        seq![text.subrange(from, line_end(text, from))] + lines_from(text, at + 1)
    } else {
        seq![text.subrange(from, line_end(text, from))]
    }
}

/// The lines of a text: it is cut after each line feed, and a line loses
/// its line feed and the carriage return before that; a text that ends
/// with a line feed has no empty line after it.
pub open spec fn split_lines(text: Seq<char>) -> Seq<Seq<char>> {
    lines_from(text, 0)
}

/// The first line of a text, and nothing for an empty text.
pub open spec fn first_line_of(text: Seq<char>) -> Option<Seq<char>> {
    if text.len() == 0 {
        None
    } else {
        Some(text.subrange(0, line_end(text, 0)))
    }
}

/// Lines put together with a line feed between each two.
pub open spec fn joined(lines: Seq<Seq<char>>) -> Seq<char>
    decreases lines.len(),
{
    if lines.len() == 0 {
        Seq::empty()
    } else if lines.len() == 1 {
        lines[0]
    } else {
        joined(lines.drop_last()) + seq!['\n'] + lines.last()
    }
}

/// The last `count` lines of a text, or all of them where it has fewer,
/// put together again.
pub open spec fn last_lines_of(text: Seq<char>, count: nat) -> Seq<char> {
    let lines = split_lines(text);
    if lines.len() <= count {
        joined(lines)
    } else {
        joined(lines.skip(lines.len() - count))
    }
}

/// Whether a text stands at or before another in the order of a
/// dictionary that compares characters by their code points: a text
/// stands before each of its extensions, and otherwise the first
/// character that differs decides.
pub open spec fn precedes(left: Seq<char>, right: Seq<char>) -> bool
    decreases left.len(),
{
    if left.len() == 0 {
        true
    } else if right.len() == 0 {
        false
    } else if left[0] != right[0] {
        (left[0] as u32) < (right[0] as u32)
    } else {
        precedes(left.drop_first(), right.drop_first())
    }
}

/// Two characters that differ have code points that differ.
pub proof fn lemma_code_points_differ(first: char, second: char)
    requires
        first != second,
    ensures
        first as u32 != second as u32,
{
    assert((first as u32) as char == first);
    assert((second as u32) as char == second);
}

/// Of two texts one stands at or before the other.
pub proof fn lemma_precedes_total(left: Seq<char>, right: Seq<char>)
    ensures
        precedes(left, right) || precedes(right, left),
    decreases left.len(),
{
    if left.len() > 0 && right.len() > 0 {
        if left[0] == right[0] {
            lemma_precedes_total(left.drop_first(), right.drop_first());
        } else {
            lemma_code_points_differ(left[0], right[0]);
        }
    }
}

/// The order of texts is transitive.
pub proof fn lemma_precedes_transitive(left: Seq<char>, middle: Seq<char>, right: Seq<char>)
    requires
        precedes(left, middle),
        precedes(middle, right),
    ensures
        precedes(left, right),
    decreases left.len(),
{
    if left.len() > 0 && middle.len() > 0 && right.len() > 0 && left[0] == middle[0] && middle[0]
        == right[0] {
        lemma_precedes_transitive(left.drop_first(), middle.drop_first(), right.drop_first());
    }
}

/// The texts that a list of bounds cuts out of a text.
pub open spec fn pieces(text: Seq<char>, bounds: Seq<(usize, usize)>) -> Seq<Seq<char>> {
    Seq::new(bounds.len(), |i: int| text.subrange(bounds[i].0 as int, bounds[i].1 as int))
}

/// Whether each of the bounds lies inside a text of the given length.
pub open spec fn bounds_fit(bounds: Seq<(usize, usize)>, len: nat) -> bool {
    forall|i: int| 0 <= i < bounds.len() ==> (#[trigger] bounds[i]).0 <= bounds[i].1 <= len
}

/// `next_break` stays between `from` and the end of the text, names a
/// line feed where it names a character, and passes over none.
pub proof fn lemma_next_break(text: Seq<char>, from: int)
    requires
        0 <= from <= text.len(),
    ensures
        from <= next_break(text, from) <= text.len(),
        next_break(text, from) < text.len() ==> text[next_break(text, from)] == '\n',
        forall|j: int| from <= j < next_break(text, from) ==> text[j] != '\n',
    decreases text.len() - from,
{
    if from < text.len() && text[from] != '\n' {
        lemma_next_break(text, from + 1);
    }
}

/// Stripping a text of nothing but white space leaves nothing.
pub proof fn lemma_blank_trims_to_nothing(text: Seq<char>)
    requires
        is_blank(text),
    ensures
        leading(text, None) == text.len(),
        trimmed(text).len() == 0,
    decreases text.len(),
{
    if text.len() > 0 {
        assert(is_space(text[0]));
        let rest = text.drop_first();
        assert forall|i: int| 0 <= i < rest.len() implies is_space(#[trigger] rest[i]) by {
            assert(rest[i] == text[i + 1]);
        }
        lemma_blank_trims_to_nothing(rest);
    }
}

/// Appends one character to a string.
///
/// Trusted: `String::push` from std.
#[verifier::external_body]
fn push_char(text: &mut String, c: char)
    ensures
        final(text)@ == old(text)@.push(c),
{
    text.push(c);
}

/// A copy of an optional string.
pub fn copy_optional(text: &Option<String>) -> (copy: Option<String>)
    ensures
        copy == *text,
{
    match text {
        Some(s) => Some(s.clone()),
        None => None,
    }
}

/// Whether a character counts as white space.
pub fn is_space_char(c: char) -> (space: bool)
    ensures
        space == is_space(c),
{
    let code = c as u32;
    (0x09 <= code && code <= 0x0D) || code == 0x20 || code == 0x85 || code == 0xA0 || code
        == 0x1680 || (0x2000 <= code && code <= 0x200A) || code == 0x2028 || code == 0x2029
        || code == 0x202F || code == 0x205F || code == 0x3000
}

/// Whether a character belongs to a class.
pub fn is_in_class(c: char, class: Option<char>) -> (member: bool)
    ensures
        member == in_class(c, class),
{
    match class {
        Some(only) => c == only,
        None => is_space_char(c),
    }
}

/// The characters of a text, one by one.
pub fn chars_of(text: &str) -> (chars: Vec<char>)
    ensures
        chars@ == text@,
{
    let mut chars: Vec<char> = Vec::new();
    for c in iter: text.chars()
        invariant
            iter.seq() == text@,
            chars@ == text@.take(iter.index() as int),
    {
        chars.push(c);
        assert(text@.take(iter.index() + 1) =~= text@.take(iter.index() as int).push(c));
    }
    assert(text@.take(text@.len() as int) =~= text@);
    chars
}

/// The characters from `from` up to `to` as a string.
pub fn text_of(chars: &Vec<char>, from: usize, to: usize) -> (text: String)
    requires
        from <= to <= chars.len(),
    ensures
        text@ == chars@.subrange(from as int, to as int),
{
    let mut text = String::new();
    let mut i = from;
    assert(text@ =~= chars@.subrange(from as int, from as int));
    while i < to
        invariant
            from <= i <= to <= chars.len(),
            text@ == chars@.subrange(from as int, i as int),
        decreases to - i,
    {
        push_char(&mut text, chars[i]);
        assert(text@ =~= chars@.subrange(from as int, i + 1));
        i += 1;
    }
    text
}

/// The bounds of the part between `from` and `to` that is left when the
/// characters of the class are stripped from its two ends.
pub fn strip_bounds(chars: &Vec<char>, from: usize, to: usize, class: Option<char>) -> (bounds: (
    usize,
    usize,
))
    requires
        from <= to <= chars.len(),
    ensures
        from <= bounds.0 <= bounds.1 <= to,
        chars@.subrange(bounds.0 as int, bounds.1 as int) == stripped(
            chars@.subrange(from as int, to as int),
            class,
        ),
{
    let ghost part = chars@.subrange(from as int, to as int);
    let mut a = from;
    assert(chars@.subrange(a as int, to as int) =~= part);
    while a < to && is_in_class(chars[a], class)
        invariant
            from <= a <= to <= chars.len(),
            part == chars@.subrange(from as int, to as int),
            leading(part, class) == (a - from) + leading(
                chars@.subrange(a as int, to as int),
                class,
            ),
        decreases to - a,
    {
        assert(chars@.subrange(a as int, to as int).drop_first() =~= chars@.subrange(
            a + 1,
            to as int,
        ));
        a += 1;
    }
    if a == to {
        assert(chars@.subrange(a as int, a as int) =~= Seq::<char>::empty());
        return (a, a);
    }
    assert(chars@.subrange(a as int, to as int)[0] == chars@[a as int]);
    assert(leading(part, class) == a - from);
    let mut b = to;
    assert(chars@.subrange(from as int, b as int) =~= part);
    while is_in_class(chars[b - 1], class)
        invariant
            from <= a < b <= to <= chars.len(),
            !in_class(chars@[a as int], class),
            part == chars@.subrange(from as int, to as int),
            trailing(part, class) == (to - b) + trailing(
                chars@.subrange(from as int, b as int),
                class,
            ),
        decreases b,
    {
        assert(chars@.subrange(from as int, b as int).last() == chars@[b - 1]);
        assert(chars@.subrange(from as int, b as int).drop_last() =~= chars@.subrange(
            from as int,
            b - 1,
        ));
        b -= 1;
    }
    assert(chars@.subrange(from as int, b as int).last() == chars@[b - 1]);
    assert(trailing(part, class) == to - b);
    assert(chars@.subrange(a as int, b as int) =~= part.subrange(
        leading(part, class) as int,
        part.len() - trailing(part, class),
    ));
    (a, b)
}

/// Whether two texts hold the same characters.
pub fn same_text(left: &str, right: &str) -> (same: bool)
    ensures
        same == (left@ == right@),
{
    let a = left.as_bytes();
    let b = right.as_bytes();
    proof {
        vstd::utf8::encode_utf8_decode_utf8(left@);
        vstd::utf8::encode_utf8_decode_utf8(right@);
    }
    if a.len() != b.len() {
        return false;
    }
    let mut i: usize = 0;
    while i < a.len()
        invariant
            i <= a.len(),
            a.len() == b.len(),
            a@ == left.spec_bytes(),
            b@ == right.spec_bytes(),
            forall|j: int| 0 <= j < i ==> a@[j] == b@[j],
        decreases a.len() - i,
    {
        if a[i] != b[i] {
            return false;
        }
        i += 1;
    }
    assert(a@ =~= b@);
    true
}

/// Whether a character's code point is below another's.
fn code_point_below(first: char, second: char) -> (below: bool)
    ensures
        below == ((first as u32) < (second as u32)),
{
    (first as u32) < (second as u32)
}

/// Whether a text stands at or before another.
pub fn text_le(left: &str, right: &str) -> (le: bool)
    ensures
        le == precedes(left@, right@),
{
    let a = chars_of(left);
    let b = chars_of(right);
    let mut i: usize = 0;
    assert(a@.skip(0) =~= a@ && b@.skip(0) =~= b@);
    while i < a.len() && i < b.len()
        invariant
            i <= a.len(),
            i <= b.len(),
            a@ == left@,
            b@ == right@,
            precedes(a@, b@) == precedes(a@.skip(i as int), b@.skip(i as int)),
        decreases a.len() - i,
    {
        proof {
            assert(a@.skip(i as int)[0] == a@[i as int]);
            assert(b@.skip(i as int)[0] == b@[i as int]);
            assert(a@.skip(i as int).drop_first() =~= a@.skip(i + 1));
            assert(b@.skip(i as int).drop_first() =~= b@.skip(i + 1));
        }
        if a[i] != b[i] {
            return code_point_below(a[i], b[i]);
        }
        i += 1;
    }
    i == a.len()
}

/// A text without the white space at its two ends.
pub fn trim_text(text: &str) -> (inner: String)
    ensures
        inner@ == trimmed(text@),
{
    let chars = chars_of(text);
    assert(chars@.subrange(0, chars@.len() as int) =~= text@);
    let (from, to) = strip_bounds(&chars, 0, chars.len(), None);
    text_of(&chars, from, to)
}

/// The index of the first line feed at or after `from`, or the length of
/// the text where there is none.
fn find_break(chars: &Vec<char>, from: usize) -> (at: usize)
    requires
        from <= chars.len(),
    ensures
        at == next_break(chars@, from as int),
        from <= at <= chars.len(),
{
    let mut at = from;
    while at < chars.len() && chars[at] != '\n'
        invariant
            from <= at <= chars.len(),
            next_break(chars@, from as int) == next_break(chars@, at as int),
        decreases chars.len() - at,
    {
        at += 1;
    }
    at
}

/// Where the line that starts at `from` ends, given its line feed (or
/// the end of the text) at `at`.
fn find_line_end(chars: &Vec<char>, from: usize, at: usize) -> (end: usize)
    requires
        from <= chars.len(),
        at == next_break(chars@, from as int),
    ensures
        end == line_end(chars@, from as int),
        from <= end <= at <= chars.len(),
{
    proof {
        lemma_next_break(chars@, from as int);
    }
    if from < at && at < chars.len() && chars[at - 1] == '\r' {
        at - 1
    } else {
        at
    }
}

/// The bounds of the lines of a text.
pub fn line_bounds(chars: &Vec<char>) -> (bounds: Vec<(usize, usize)>)
    ensures
        bounds_fit(bounds@, chars@.len()),
        pieces(chars@, bounds@) == split_lines(chars@),
{
    let mut bounds: Vec<(usize, usize)> = Vec::new();
    let mut from: usize = 0;
    assert(pieces(chars@, bounds@) + lines_from(chars@, 0) =~= split_lines(chars@));
    while from < chars.len()
        invariant
            from <= chars.len(),
            bounds_fit(bounds@, chars@.len()),
            pieces(chars@, bounds@) + lines_from(chars@, from as int) == split_lines(chars@),
        decreases chars.len() - from,
    {
        let at = find_break(chars, from);
        let end = find_line_end(chars, from, at);
        let ghost before = pieces(chars@, bounds@);
        let ghost line = chars@.subrange(from as int, end as int);
        bounds.push((from, end));
        proof {
            assert(pieces(chars@, bounds@) =~= before.push(line));
            if at < chars.len() {
                assert(before.push(line) + lines_from(chars@, at + 1) =~= before + (seq![line]
                    + lines_from(chars@, at + 1)));
            } else {
                assert(before.push(line) + lines_from(chars@, chars.len() as int) =~= before
                    + seq![line]);
            }
        }
        from = if at < chars.len() {
            at + 1
        } else {
            chars.len()
        };
    }
    assert(pieces(chars@, bounds@) + lines_from(chars@, from as int) =~= pieces(chars@, bounds@));
    bounds
}

/// The first line of a text, and nothing for an empty text.
pub fn first_line(text: &str) -> (line: Option<String>)
    ensures
        match line {
            Some(first) => first_line_of(text@) == Some(first@),
            None => first_line_of(text@) is None,
        },
{
    let chars = chars_of(text);
    if chars.len() == 0 {
        return None;
    }
    let at = find_break(&chars, 0);
    let end = find_line_end(&chars, 0, at);
    Some(text_of(&chars, 0, end))
}

/// The last `count` lines of a text, or all of them where it has fewer,
/// put together with a line feed between each two.
pub fn last_lines(text: &str, count: usize) -> (tail: String)
    ensures
        tail@ == last_lines_of(text@, count as nat),
{
    let chars = chars_of(text);
    let bounds = line_bounds(&chars);
    let start = if bounds.len() <= count {
        0
    } else {
        bounds.len() - count
    };
    let ghost lines = split_lines(chars@);
    let ghost kept = lines.skip(start as int);
    assert(lines.skip(0) =~= lines);
    let mut tail = String::new();
    let mut i = start;
    assert(kept.take(0) =~= Seq::<Seq<char>>::empty());
    while i < bounds.len()
        invariant
            start <= i <= bounds.len(),
            bounds_fit(bounds@, chars@.len()),
            lines == split_lines(chars@),
            pieces(chars@, bounds@) == lines,
            kept == lines.skip(start as int),
            tail@ == joined(kept.take(i - start)),
        decreases bounds.len() - i,
    {
        let ghost before = tail@;
        let ghost line = chars@.subrange(bounds@[i as int].0 as int, bounds@[i as int].1 as int);
        assert(pieces(chars@, bounds@)[i as int] == line);
        if i > start {
            push_char(&mut tail, '\n');
        }
        let (from, to) = bounds[i];
        let mut j = from;
        let ghost head = tail@;
        assert(tail@ =~= head + chars@.subrange(from as int, j as int));
        while j < to
            invariant
                from <= j <= to <= chars.len(),
                tail@ == head + chars@.subrange(from as int, j as int),
            decreases to - j,
        {
            push_char(&mut tail, chars[j]);
            assert(tail@ =~= head + chars@.subrange(from as int, j + 1));
            j += 1;
        }
        proof {
            let done = kept.take(i - start + 1);
            assert(done.drop_last() =~= kept.take(i - start));
            assert(done.last() == line);
            if i > start {
                assert(tail@ =~= before + seq!['\n'] + line);
            } else {
                assert(before =~= Seq::<char>::empty());
                assert(tail@ =~= line);
            }
        }
        i += 1;
    }
    assert(kept.take(bounds.len() - start) =~= kept);
    tail
}

} // verus!
