//! Command files: a short header between two fences of three hyphens,
//! then the command itself.

use vstd::prelude::*;
use crate::text::{
    bounds_fit, chars_of, in_class, is_in_class, line_bounds, optional_text, pieces, split_lines,
    strip_bounds, stripped, text_of, trimmed,
};

verus! {

/// One parameter of a command.
#[derive(Debug, Clone, PartialEq, Eq)]
pub struct CommandParam {
    pub name: String,
    pub description: Option<String>,
    pub required: Option<bool>,
}

/// One command, as its file describes it.
#[derive(Debug, Clone, PartialEq, Eq)]
pub struct CommandFile {
    pub name: String,
    pub description: Option<String>,
    pub params: Option<Vec<CommandParam>>,
    pub content: String,
    pub file_path: String,
}

/// The mathematical value of a parameter.
pub struct ParamModel {
    pub name: Seq<char>,
    pub description: Option<Seq<char>>,
    pub required: Option<bool>,
}

/// What the text of a command file says.
pub struct HeaderModel {
    pub description: Option<Seq<char>>,
    pub params: Option<Seq<ParamModel>>,
    pub content: Seq<char>,
}

impl View for CommandParam {
    type V = ParamModel;

    open spec fn view(&self) -> ParamModel {
        ParamModel {
            name: self.name@,
            description: optional_text(self.description),
            required: self.required,
        }
    }
}

/// The models of a list of parameters.
pub open spec fn params_model(params: Seq<CommandParam>) -> Seq<ParamModel> {
    Seq::new(params.len(), |i: int| params[i]@)
}

/// The models of an optional list of parameters.
pub open spec fn optional_params(params: Option<Vec<CommandParam>>) -> Option<Seq<ParamModel>> {
    match params {
        Some(list) => Some(params_model(list@)),
        None => None,
    }
}

/// The index of the first character at or after `from` that is in the
/// class, or is not in it, as `member` says; the length of the text
/// where there is none.
pub open spec fn next_where(text: Seq<char>, from: int, class: Option<char>, member: bool) -> int
    decreases text.len() - from,
{
    if from < 0 || from >= text.len() {
        text.len() as int
    } else if in_class(text[from], class) == member {
        from
    } else {
        next_where(text, from + 1, class, member)
    }
}

/// The words of a text from `from` on: the longest runs of characters
/// that are no white space.
pub open spec fn words_from(text: Seq<char>, from: int) -> Seq<Seq<char>>
    decreases text.len() - from,
{
    let start = next_where(text, from, None, false);
    let end = next_where(text, start, None, true);
    if from < 0 || start >= text.len() || !(from <= start < end) {
        Seq::empty()
    } else if end < text.len() {
        seq![text.subrange(start, end)] + words_from(text, end)
    } else {
        seq![text.subrange(start, end)]
    }
}

/// The parameter that a word names: its name up to the first bar, and
/// its description between the first bar and the second, if there is a
/// first. A word never says whether the parameter is required.
pub open spec fn param_of(word: Seq<char>) -> ParamModel {
    let bar = next_where(word, 0, Some('|'), true);
    ParamModel {
        name: word.subrange(0, bar),
        description: if bar < word.len() {
            Some(word.subrange(bar + 1, next_where(word, bar + 1, Some('|'), true)))
        } else {
            None
        },
        required: None,
    }
}

/// The parameters that a text names, one for each word.
pub open spec fn params_of(text: Seq<char>) -> Seq<ParamModel> {
    let words = words_from(text, 0);
    Seq::new(words.len(), |i: int| param_of(words[i]))
}

/// Whether a line is a fence: three hyphens and white space around them.
pub open spec fn is_fence(line: Seq<char>) -> bool {
    trimmed(line) == seq!['-', '-', '-']
}

/// The index of the first fence at or after `from`, or the number of
/// lines where there is none.
pub open spec fn fence_from(lines: Seq<Seq<char>>, from: int) -> int
    decreases lines.len() - from,
{
    if from < 0 || from >= lines.len() {
        lines.len() as int
    } else if is_fence(lines[from]) {
        from
    } else {
        fence_from(lines, from + 1)
    }
}

/// What follows `key` on a line that, trimmed, starts with it.
pub open spec fn value_after(line: Seq<char>, key: Seq<char>) -> Option<Seq<char>> {
    let inner = trimmed(line);
    if key.is_prefix_of(inner) {
        Some(inner.skip(key.len() as int))
    } else {
        None
    }
}

/// A value without the white space and then the double and the single
/// quotes around it.
pub open spec fn unquoted(value: Seq<char>) -> Seq<char> {
    stripped(stripped(trimmed(value), Some('"')), Some('\''))
}

/// The description that the last line with the key `description:` gives.
pub open spec fn description_in(lines: Seq<Seq<char>>) -> Option<Seq<char>>
    decreases lines.len(),
{
    if lines.len() == 0 {
        None
    } else {
        match value_after(lines.last(), "description:"@) {
            Some(value) => Some(unquoted(value)),
            None => description_in(lines.drop_last()),
        }
    }
}

/// The parameters that the last line with the key `params:` gives.
pub open spec fn params_in(lines: Seq<Seq<char>>) -> Option<Seq<ParamModel>>
    decreases lines.len(),
{
    if lines.len() == 0 {
        None
    } else {
        match value_after(lines.last(), "params:"@) {
            Some(value) => if value_after(lines.last(), "description:"@) is None {
                Some(params_of(trimmed(value)))
            } else {
                params_in(lines.drop_last())
            },
            None => params_in(lines.drop_last()),
        }
    }
}

/// A line, trimmed, or nothing where the text has no such line.
pub open spec fn line_or_nothing(lines: Seq<Seq<char>>, at: int) -> Seq<char> {
    if 0 <= at < lines.len() {
        trimmed(lines[at])
    } else {
        Seq::empty()
    }
}

/// What the text of a command file says. Where the first line is a
/// fence, the header runs to the next fence (or to the end) and the
/// command is the line after that fence; else there is no header and
/// the command is the first line.
pub open spec fn header_of(text: Seq<char>) -> HeaderModel {
    let lines = split_lines(text);
    if lines.len() > 0 && is_fence(lines[0]) {
        let end = fence_from(lines, 1);
        HeaderModel {
            description: description_in(lines.subrange(1, end)),
            params: params_in(lines.subrange(1, end)),
            content: line_or_nothing(lines, end + 1),
        }
    } else {
        HeaderModel { description: None, params: None, content: line_or_nothing(lines, 0) }
    }
}

/// `next_where` stays between `from` and the end of the text.
pub proof fn lemma_next_where(text: Seq<char>, from: int, class: Option<char>, member: bool)
    requires
        0 <= from <= text.len(),
    ensures
        from <= next_where(text, from, class, member) <= text.len(),
        next_where(text, from, class, member) < text.len() ==> in_class(
            text[next_where(text, from, class, member)],
            class,
        ) == member,
    decreases text.len() - from,
{
    if from < text.len() && in_class(text[from], class) != member {
        lemma_next_where(text, from + 1, class, member);
    }
}

/// `fence_from` stays between `from` and the number of lines.
pub proof fn lemma_fence_from(lines: Seq<Seq<char>>, from: int)
    requires
        0 <= from <= lines.len(),
    ensures
        from <= fence_from(lines, from) <= lines.len(),
    decreases lines.len() - from,
{
    if from < lines.len() && !is_fence(lines[from]) {
        lemma_fence_from(lines, from + 1);
    }
}

/// The index of the first character at or after `from` that is in the
/// class, or is not in it, as `member` says.
fn find_where(chars: &Vec<char>, from: usize, class: Option<char>, member: bool) -> (at: usize)
    requires
        from <= chars.len(),
    ensures
        at == next_where(chars@, from as int, class, member),
        from <= at <= chars.len(),
{
    let mut at = from;
    while at < chars.len() && is_in_class(chars[at], class) != member
        invariant
            from <= at <= chars.len(),
            next_where(chars@, from as int, class, member) == next_where(
                chars@,
                at as int,
                class,
                member,
            ),
        decreases chars.len() - at,
    {
        at += 1;
    }
    at
}

/// A copy of the characters from `from` up to `to`.
fn slice_of(chars: &Vec<char>, from: usize, to: usize) -> (part: Vec<char>)
    requires
        from <= to <= chars.len(),
    ensures
        part@ == chars@.subrange(from as int, to as int),
{
    let mut part: Vec<char> = Vec::new();
    let mut i = from;
    assert(part@ =~= chars@.subrange(from as int, from as int));
    while i < to
        invariant
            from <= i <= to <= chars.len(),
            part@ == chars@.subrange(from as int, i as int),
        decreases to - i,
    {
        part.push(chars[i]);
        assert(part@ =~= chars@.subrange(from as int, i + 1));
        i += 1;
    }
    part
}

/// The bounds of the words of a text.
fn word_bounds(chars: &Vec<char>) -> (bounds: Vec<(usize, usize)>)
    ensures
        bounds_fit(bounds@, chars@.len()),
        pieces(chars@, bounds@) == words_from(chars@, 0),
{
    let mut bounds: Vec<(usize, usize)> = Vec::new();
    let mut from: usize = 0;
    assert(pieces(chars@, bounds@) + words_from(chars@, 0) =~= words_from(chars@, 0));
    while from < chars.len()
        invariant
            from <= chars.len(),
            bounds_fit(bounds@, chars@.len()),
            pieces(chars@, bounds@) + words_from(chars@, from as int) == words_from(chars@, 0),
        decreases chars.len() - from,
    {
        let start = find_where(chars, from, None, false);
        if start >= chars.len() {
            assert(words_from(chars@, from as int) =~= words_from(chars@, chars.len() as int));
            from = chars.len();
        } else {
            let end = find_where(chars, start, None, true);
            proof {
                lemma_next_where(chars@, from as int, None, false);
                lemma_next_where(chars@, start as int, None, true);
                assert(!in_class(chars@[start as int], None));
                assert(end > start);
            }
            let ghost before = pieces(chars@, bounds@);
            let ghost word = chars@.subrange(start as int, end as int);
            bounds.push((start, end));
            proof {
                assert(pieces(chars@, bounds@) =~= before.push(word));
                if end < chars.len() {
                    assert(before.push(word) + words_from(chars@, end as int) =~= before + (
                    seq![word] + words_from(chars@, end as int)));
                } else {
                    assert(before.push(word) + words_from(chars@, chars.len() as int)
                        =~= before + seq![word]);
                }
            }
            from = end;
        }
    }
    assert(pieces(chars@, bounds@) + words_from(chars@, from as int) =~= pieces(
        chars@,
        bounds@,
    ));
    bounds
}

/// The parameter that a word names.
fn read_param(word: &Vec<char>) -> (param: CommandParam)
    ensures
        param@ == param_of(word@),
        param.required is None,
{
    let bar = find_where(word, 0, Some('|'), true);
    let name = text_of(word, 0, bar);
    let description = if bar < word.len() {
        let second = find_where(word, bar + 1, Some('|'), true);
        Some(text_of(word, bar + 1, second))
    } else {
        None
    };
    CommandParam { name, description, required: None }
}

/// The parameters that a text names, one for each word.
fn read_params(chars: &Vec<char>) -> (params: Vec<CommandParam>)
    ensures
        params_model(params@) == params_of(chars@),
        forall|i: int| 0 <= i < params.len() ==> (#[trigger] params@[i]).required is None,
{
    let bounds = word_bounds(chars);
    let ghost words = words_from(chars@, 0);
    let mut params: Vec<CommandParam> = Vec::new();
    let mut i: usize = 0;
    while i < bounds.len()
        invariant
            i <= bounds.len(),
            params.len() == i,
            bounds_fit(bounds@, chars@.len()),
            words == words_from(chars@, 0),
            pieces(chars@, bounds@) == words,
            forall|j: int| 0 <= j < i ==> (#[trigger] params@[j])@ == param_of(words[j]),
            forall|j: int| 0 <= j < i ==> (#[trigger] params@[j]).required is None,
        decreases bounds.len() - i,
    {
        let (from, to) = bounds[i];
        assert(pieces(chars@, bounds@)[i as int] == chars@.subrange(from as int, to as int));
        let word = slice_of(chars, from, to);
        params.push(read_param(&word));
        i += 1;
    }
    assert(params_model(params@) =~= params_of(chars@));
    params
}

/// The parameters that a text names: one for each word, each written as
/// a name, or as a name, a bar and a description.
pub fn parse_simple_params(params_str: &str) -> (params: Vec<CommandParam>)
    ensures
        params_model(params@) == params_of(params_str@),
        forall|i: int| 0 <= i < params.len() ==> (#[trigger] params@[i]).required is None,
{
    let chars = chars_of(params_str);
    read_params(&chars)
}

/// Whether the characters between the bounds start with `key`.
fn starts_with(chars: &Vec<char>, from: usize, to: usize, key: &Vec<char>) -> (starts: bool)
    requires
        from <= to <= chars.len(),
    ensures
        starts == key@.is_prefix_of(chars@.subrange(from as int, to as int)),
{
    let ghost part = chars@.subrange(from as int, to as int);
    if key.len() > to - from {
        return false;
    }
    let mut i: usize = 0;
    while i < key.len()
        invariant
            from <= to <= chars.len(),
            i <= key.len() <= to - from,
            part == chars@.subrange(from as int, to as int),
            forall|j: int| 0 <= j < i ==> key@[j] == part[j],
        decreases key.len() - i,
    {
        if key[i] != chars[from + i] {
            assert(key@[i as int] != part.subrange(0, key@.len() as int)[i as int]);
            return false;
        }
        i += 1;
    }
    assert(key@ =~= part.subrange(0, key@.len() as int));
    true
}

/// Whether the line between the bounds is a fence.
fn fence_at(chars: &Vec<char>, from: usize, to: usize) -> (fence: bool)
    requires
        from <= to <= chars.len(),
    ensures
        fence == is_fence(chars@.subrange(from as int, to as int)),
{
    let (a, b) = strip_bounds(chars, from, to, None);
    let ghost inner = chars@.subrange(a as int, b as int);
    if b - a == 3 {
        let fence = chars[a] == '-' && chars[a + 1] == '-' && chars[a + 2] == '-';
        assert(inner[0] == chars@[a as int] && inner[1] == chars@[a + 1] && inner[2] == chars@[a
            + 2]);
        assert(fence ==> inner =~= seq!['-', '-', '-']);
        fence
    } else {
        assert(seq!['-', '-', '-'].len() == 3);
        false
    }
}

/// Whether the piece at `at` is a fence.
fn fence_line(chars: &Vec<char>, bounds: &Vec<(usize, usize)>, at: usize) -> (fence: bool)
    requires
        bounds_fit(bounds@, chars@.len()),
        at < bounds.len(),
    ensures
        fence == is_fence(pieces(chars@, bounds@)[at as int]),
{
    fence_at(chars, bounds[at].0, bounds[at].1)
}

/// The bounds of what follows `key` on the line between the bounds, if
/// the line, trimmed, starts with it.
fn value_bounds(chars: &Vec<char>, from: usize, to: usize, key: &Vec<char>) -> (value: Option<
    (usize, usize),
>)
    requires
        from <= to <= chars.len(),
    ensures
        match value {
            Some(bounds) => bounds.0 <= bounds.1 <= chars.len() && value_after(
                chars@.subrange(from as int, to as int),
                key@,
            ) == Some(chars@.subrange(bounds.0 as int, bounds.1 as int)),
            None => value_after(chars@.subrange(from as int, to as int), key@) is None,
        },
{
    let (a, b) = strip_bounds(chars, from, to, None);
    if starts_with(chars, a, b, key) {
        assert(chars@.subrange(a as int, b as int).skip(key@.len() as int) =~= chars@.subrange(
            a + key@.len(),
            b as int,
        ));
        Some((a + key.len(), b))
    } else {
        None
    }
}

/// What the text of a command file says, under the command's name and
/// the path of its file.
pub fn parse_command_file(content: &str, name: String, file_path: String) -> (command: CommandFile)
    ensures
        command.name == name,
        command.file_path == file_path,
        optional_text(command.description) == header_of(content@).description,
        optional_params(command.params) == header_of(content@).params,
        command.content@ == header_of(content@).content,
        command.params matches Some(list) ==> forall|i: int|
            0 <= i < list@.len() ==> (#[trigger] list@[i]).required is None,
{
    let chars = chars_of(content);
    let bounds = line_bounds(&chars);
    let ghost lines = split_lines(chars@);
    let mut description: Option<String> = None;
    let mut params: Option<Vec<CommandParam>> = None;
    let fenced = bounds.len() > 0 && fence_line(&chars, &bounds, 0);
    let at: usize = if fenced {
        let description_key = chars_of("description:");
        let params_key = chars_of("params:");
        let mut end: usize = 1;
        proof {
            lemma_fence_from(lines, 1);
            assert(lines.subrange(1, 1) =~= Seq::<Seq<char>>::empty());
        }
        while end < bounds.len() && !fence_line(&chars, &bounds, end)
            invariant
                1 <= end <= bounds.len(),
                bounds_fit(bounds@, chars@.len()),
                lines == split_lines(chars@),
                pieces(chars@, bounds@) == lines,
                description_key@ == "description:"@,
                params_key@ == "params:"@,
                fence_from(lines, 1) == fence_from(lines, end as int),
                optional_text(description) == description_in(lines.subrange(1, end as int)),
                optional_params(params) == params_in(lines.subrange(1, end as int)),
                params matches Some(list) ==> forall|i: int|
                    0 <= i < list@.len() ==> (#[trigger] list@[i]).required is None,
            decreases bounds.len() - end,
        {
            let (from, to) = bounds[end];
            proof {
                assert(lines[end as int] == chars@.subrange(from as int, to as int));
                assert(lines.subrange(1, end + 1).drop_last() =~= lines.subrange(1, end as int));
                assert(lines.subrange(1, end + 1).last() == lines[end as int]);
            }
            match value_bounds(&chars, from, to, &description_key) {
                Some((a, b)) => {
                    let (a, b) = strip_bounds(&chars, a, b, None);
                    let (a, b) = strip_bounds(&chars, a, b, Some('"'));
                    let (a, b) = strip_bounds(&chars, a, b, Some('\''));
                    description = Some(text_of(&chars, a, b));
                },
                None => {
                    match value_bounds(&chars, from, to, &params_key) {
                        Some((a, b)) => {
                            let (a, b) = strip_bounds(&chars, a, b, None);
                            let value = slice_of(&chars, a, b);
                            params = Some(read_params(&value));
                        },
                        None => {},
                    }
                },
            }
            end += 1;
        }
        if end < usize::MAX {
            end + 1
        } else {
            bounds.len()
        }
    } else {
        0
    };
    let content = if at < bounds.len() {
        let (from, to) = bounds[at];
        assert(lines[at as int] == chars@.subrange(from as int, to as int));
        let (a, b) = strip_bounds(&chars, from, to, None);
        text_of(&chars, a, b)
    } else {
        String::new()
    };
    CommandFile { name, description, params, content, file_path }
}

} // verus!
