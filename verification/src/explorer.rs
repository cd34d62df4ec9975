//! The rules of the file browser and of the log viewer: what a listing
//! holds and in which order, which names a search passes over and which
//! files it reports, which paths an operation may go on with, and what
//! of a log is shown.

use vstd::prelude::*;
use crate::error::AppError;
use crate::text::{
    chars_of, last_lines, last_lines_of, lemma_precedes_total, lemma_precedes_transitive,
    precedes, same_text, text_le, text_of, texts,
};
use vstd::seq_lib::{to_multiset_build, to_multiset_insert};

verus! {

/// One entry of a directory listing.
#[derive(Debug, PartialEq, Eq)]
pub struct FileInfo {
    pub name: String,
    pub path: String,
    pub is_dir: bool,
    pub size: Option<u64>,
    pub modified: Option<String>,
    pub extension: Option<String>,
    pub children: Option<Vec<FileInfo>>,
}

/// One file that a search found.
#[derive(Debug, Clone, PartialEq, Eq)]
pub struct FileMatch {
    pub name: String,
    pub relative_path: String,
    pub full_path: String,
    pub is_dir: bool,
    pub extension: Option<String>,
}

/// What is known of a workspace directory.
#[derive(Debug, Clone, PartialEq, Eq)]
pub struct DirectoryInfo {
    pub name: String,
    pub path: String,
    pub has_git: bool,
}

/// A search: the text that a file's name must hold, and the texts that
/// its path must hold.
#[derive(Debug, Clone, PartialEq, Eq)]
pub struct SearchQuery {
    pub name: String,
    pub path_filters: Vec<String>,
}

/// The largest file, in bytes, whose content is handed out.
pub const MAX_CONTENT_BYTES: u64 = 1048576;

/// The deepest level, counted from the workspace, that a search enters.
pub const MAX_SEARCH_DEPTH: usize = 5;

/// The number of files that a search reports where the caller names none.
pub const DEFAULT_MAX_RESULTS: usize = 20;

/// The name shown for an entry whose name cannot be read.
pub open spec fn shown_name(name: Option<String>) -> Seq<char> {
    match name {
        Some(text) => text@,
        None => "Unknown"@,
    }
}

/// The index of the first slash at or after `from`, or the length of
/// the text where there is none.
pub open spec fn next_slash(text: Seq<char>, from: int) -> int
    decreases text.len() - from,
{
    if from < 0 || from >= text.len() {
        text.len() as int
    } else if text[from] == '/' {
        from
    } else {
        next_slash(text, from + 1)
    }
}

/// The parts of a text between its slashes, from `from` on. A text
/// without a slash is one part, and so is an empty text.
pub open spec fn parts_from(text: Seq<char>, from: int) -> Seq<Seq<char>>
    decreases text.len() - from,
{
    let at = next_slash(text, from);
    if from < 0 || from > text.len() {
        Seq::empty()
    } else if from <= at < text.len() {
        seq![text.subrange(from, at)] + parts_from(text, at + 1)
    } else {
        seq![text.subrange(from, text.len() as int)]
    }
}

/// Whether `needle` stands somewhere in `hay`.
pub open spec fn holds(hay: Seq<char>, needle: Seq<char>) -> bool {
    exists|at: int| stands_at(hay, needle, at)
}

/// Whether `needle` stands in `hay` at the index `at`.
pub open spec fn stands_at(hay: Seq<char>, needle: Seq<char>, at: int) -> bool {
    0 <= at && at + needle.len() <= hay.len() && hay.subrange(at, at + needle.len()) == needle
}

/// Whether a search passes over a name: one that starts with a dot, and
/// the directories of packages and of build output.
pub open spec fn is_skipped(name: Seq<char>) -> bool {
    ||| name.len() > 0 && name[0] == '.'
    ||| name == "node_modules"@
    ||| name == "target"@
}

/// Whether a search reports an entry: a file whose name holds the
/// query's name and whose path holds each of the query's filters. The
/// three texts are compared as they are given, so a caller that wants
/// case to be ignored hands them over in lower case.
pub open spec fn is_reported(
    name_query: Seq<char>,
    path_filters: Seq<Seq<char>>,
    name: Seq<char>,
    relative_path: Seq<char>,
    is_dir: bool,
) -> bool {
    &&& !is_dir
    &&& holds(name, name_query)
    &&& forall|i: int|
        0 <= i < path_filters.len() ==> holds(relative_path, #[trigger] path_filters[i])
}

/// Whether an entry may stand before another in a listing: directories
/// stand before files, and among each the names are in order.
pub open spec fn listed_before(first: FileInfo, second: FileInfo) -> bool {
    if first.is_dir != second.is_dir {
        first.is_dir
    } else {
        precedes(first.name@, second.name@)
    }
}

/// Whether a listing is in order.
pub open spec fn is_ordered(files: Seq<FileInfo>) -> bool {
    forall|i: int, j: int| 0 <= i < j < files.len() ==> listed_before(files[i], files[j])
}

/// Whether an entry may stand before another in a listing.
pub fn stands_before(first: &FileInfo, second: &FileInfo) -> (before: bool)
    ensures
        before == listed_before(*first, *second),
{
    if first.is_dir != second.is_dir {
        first.is_dir
    } else {
        text_le(first.name.as_str(), second.name.as_str())
    }
}

/// Where an entry goes in an ordered listing: behind every entry that
/// may stand before it.
pub fn place_for(ordered: &Vec<FileInfo>, file: &FileInfo) -> (at: usize)
    ensures
        at <= ordered.len(),
        forall|j: int| 0 <= j < at ==> listed_before(#[trigger] ordered@[j], *file),
        at < ordered.len() ==> !listed_before(ordered@[at as int], *file),
{
    let mut at: usize = 0;
    while at < ordered.len() && stands_before(&ordered[at], file)
        invariant
            at <= ordered.len(),
            forall|j: int| 0 <= j < at ==> listed_before(#[trigger] ordered@[j], *file),
        decreases ordered.len() - at,
    {
        at += 1;
    }
    at
}

/// A listing in order: directories first, then by name. The result
/// holds the entries of the listing, each as often as the listing does;
/// entries that the order does not tell apart keep their order.
pub fn order_listing(files: Vec<FileInfo>) -> (ordered: Vec<FileInfo>)
    ensures
        is_ordered(ordered@),
        ordered@.to_multiset() == files@.to_multiset(),
{
    let ghost all = files@;
    let mut ordered: Vec<FileInfo> = Vec::new();
    assert(all.take(0) =~= Seq::<FileInfo>::empty());
    for file in iter: files
        invariant
            iter.seq() == all,
            is_ordered(ordered@),
            ordered@.to_multiset() == all.take(iter.index() as int).to_multiset(),
    {
        let ghost before = ordered@;
        let ghost seen = all.take(iter.index() as int);
        let at = place_for(&ordered, &file);
        proof {
            to_multiset_insert(before, at as int, file);
            to_multiset_build(seen, file);
            assert(all.take(iter.index() + 1) =~= seen.push(file));
            before.insert_ensures(at as int, file);
            let after = before.insert(at as int, file);
            assert forall|i: int, j: int| 0 <= i < j < after.len() implies listed_before(
                after[i],
                after[j],
            ) by {
                if j < at {
                    assert(after[i] == before[i] && after[j] == before[j]);
                } else if j == at {
                    assert(after[i] == before[i]);
                } else if i < at {
                    assert(after[i] == before[i] && after[j] == before[j - 1]);
                } else if i == at {
                    assert(after[j] == before[j - 1]);
                    lemma_listed_before(before[at as int], file, before[j - 1]);
                } else {
                    assert(after[i] == before[i - 1] && after[j] == before[j - 1]);
                }
            }
        }
        ordered.insert(at, file);
    }
    assert(all.take(all.len() as int) =~= all);
    ordered
}

/// Of two entries one may stand before the other, and the order of
/// entries is transitive: an entry that its neighbour may not stand
/// before stands before whatever that neighbour stands before.
pub proof fn lemma_listed_before(first: FileInfo, second: FileInfo, third: FileInfo)
    ensures
        listed_before(first, second) || listed_before(second, first),
        listed_before(first, second) && listed_before(second, third) ==> listed_before(
            first,
            third,
        ),
        !listed_before(first, second) && listed_before(first, third) ==> listed_before(
            second,
            third,
        ),
{
    lemma_precedes_total(first.name@, second.name@);
    if listed_before(first, second) && listed_before(second, third) {
        if first.is_dir == second.is_dir && second.is_dir == third.is_dir {
            lemma_precedes_transitive(first.name@, second.name@, third.name@);
        }
    }
    if !listed_before(first, second) && listed_before(first, third) {
        if first.is_dir == second.is_dir && first.is_dir == third.is_dir {
            lemma_precedes_transitive(second.name@, first.name@, third.name@);
        }
    }
}

/// The name shown for an entry whose name may be unreadable.
pub fn name_or_unknown(name: Option<String>) -> (shown: String)
    ensures
        shown@ == shown_name(name),
{
    match name {
        Some(text) => text,
        None => "Unknown".to_owned(),
    }
}

impl FileInfo {
    /// The listing's entry for one child of a directory: only a file has
    /// a size and an extension, and no entry has children yet.
    pub fn entry(
        name: Option<String>,
        path: String,
        is_dir: bool,
        len: u64,
        modified: Option<String>,
        extension: Option<String>,
    ) -> (info: FileInfo)
        ensures
            info.name@ == shown_name(name),
            info.path == path,
            info.is_dir == is_dir,
            info.size == if is_dir {
                None
            } else {
                Some(len)
            },
            info.modified == modified,
            info.extension == if is_dir {
                None
            } else {
                extension
            },
            info.children is None,
    {
        FileInfo {
            name: name_or_unknown(name),
            path,
            is_dir,
            size: if is_dir {
                None
            } else {
                Some(len)
            },
            modified,
            extension: if is_dir {
                None
            } else {
                extension
            },
            children: None,
        }
    }
}

impl FileMatch {
    /// What a search reports of a file; it never reports a directory.
    pub fn file(
        name: String,
        relative_path: String,
        full_path: String,
        extension: Option<String>,
    ) -> (found: FileMatch)
        ensures
            found.name == name,
            found.relative_path == relative_path,
            found.full_path == full_path,
            !found.is_dir,
            found.extension == extension,
    {
        FileMatch { name, relative_path, full_path, is_dir: false, extension }
    }
}

impl DirectoryInfo {
    /// What is known of the directory at `path`.
    pub fn new(name: Option<String>, path: String, has_git: bool) -> (info: DirectoryInfo)
        ensures
            info.name@ == shown_name(name),
            info.path == path,
            info.has_git == has_git,
    {
        DirectoryInfo { name: name_or_unknown(name), path, has_git }
    }
}

/// What stands in the way of an operation on a path, told by what is
/// known of the path.
#[derive(Debug, Clone, Copy, PartialEq, Eq, Structural)]
pub enum PathUse {
    /// Listing the children of a directory.
    List,
    /// Reading the content of a file of the given number of bytes.
    Read,
    /// Deleting or renaming whatever the path names.
    Change,
    /// Describing a workspace directory.
    Describe,
}

/// The message of the fault that keeps an operation from a path, or
/// nothing where the operation may go on. A path must exist; one to list
/// or describe must be a directory; one to read must be a file of no
/// more than the largest size handed out.
pub open spec fn path_fault(
    operation: PathUse,
    present: bool,
    is_dir: bool,
    len: u64,
) -> Option<Seq<char>> {
    match operation {
        PathUse::List => if !present {
            Some("路径不存在"@)
        } else if !is_dir {
            Some("不是目录"@)
        } else {
            None
        },
        PathUse::Read => if !present {
            Some("文件不存在"@)
        } else if is_dir {
            Some("是目录，不是文件"@)
        } else if len > MAX_CONTENT_BYTES {
            Some("文件过大，超过1MB限制"@)
        } else {
            None
        },
        PathUse::Change => if !present {
            Some("路径不存在"@)
        } else {
            None
        },
        PathUse::Describe => if !present || !is_dir {
            Some("路径不存在或不是目录"@)
        } else {
            None
        },
    }
}

/// Checks that an operation may go on with a path, and names the fault
/// as an invalid path where it may not.
pub fn check_path(operation: PathUse, present: bool, is_dir: bool, len: u64) -> (checked: Result<
    (),
    AppError,
>)
    ensures
        match path_fault(operation, present, is_dir, len) {
            Some(fault) => checked matches Err(AppError::InvalidPath(message)) && message@
                == fault,
            None => checked is Ok,
        },
{
    let fault: Option<&str> = match operation {
        PathUse::List => {
            if !present {
                Some("路径不存在")
            } else if !is_dir {
                Some("不是目录")
            } else {
                None
            }
        },
        PathUse::Read => {
            if !present {
                Some("文件不存在")
            } else if is_dir {
                Some("是目录，不是文件")
            } else if len > MAX_CONTENT_BYTES {
                Some("文件过大，超过1MB限制")
            } else {
                None
            }
        },
        PathUse::Change => {
            if !present {
                Some("路径不存在")
            } else {
                None
            }
        },
        PathUse::Describe => {
            if !present || !is_dir {
                Some("路径不存在或不是目录")
            } else {
                None
            }
        },
    };
    match fault {
        Some(message) => Err(AppError::InvalidPath(message.to_owned())),
        None => Ok(()),
    }
}

/// Whether a path can serve as a workspace: it names a directory,
/// with or without a repository in it.
pub fn validate_workspace_path(present: bool, is_dir: bool) -> (valid: bool)
    ensures
        valid == (present && is_dir),
{
    present && is_dir
}

/// What a reader of the log is shown: the last `max_lines` lines of the
/// current log, or a note where there is no log yet.
pub open spec fn shown_log(content: Option<String>, max_lines: nat) -> Seq<char> {
    match content {
        Some(text) => last_lines_of(text@, max_lines),
        None => "暂无日志"@,
    }
}

/// What a reader of the log is shown.
pub fn read_logs(content: &Option<String>, max_lines: usize) -> (shown: String)
    ensures
        shown@ == shown_log(*content, max_lines as nat),
{
    match content {
        Some(text) => last_lines(text.as_str(), max_lines),
        None => "暂无日志".to_owned(),
    }
}

/// Whether a file with this extension is a log file: the current log,
/// or one that was rotated out and packed.
pub fn is_log_extension(extension: &str) -> (log: bool)
    ensures
        log == (extension@ == "log"@ || extension@ == "gz"@),
{
    same_text(extension, "log") || same_text(extension, "gz")
}

/// Whether a list holds a text.
pub open spec fn lists(list: Seq<String>, text: Seq<char>) -> bool {
    exists|i: int| 0 <= i < list.len() && list[i]@ == text
}

/// Adds a path to a list that does not hold it yet, and says whether it
/// was added.
pub fn push_unique(paths: &mut Vec<String>, path: String) -> (added: bool)
    ensures
        added == !lists(old(paths)@, path@),
        added ==> final(paths)@ == old(paths)@.push(path),
        !added ==> final(paths)@ == old(paths)@,
{
    let mut i: usize = 0;
    while i < paths.len()
        invariant
            i <= paths.len(),
            *paths == *old(paths),
            forall|j: int| 0 <= j < i ==> paths@[j]@ != path@,
        decreases paths.len() - i,
    {
        if same_text(paths[i].as_str(), path.as_str()) {
            return false;
        }
        i += 1;
    }
    paths.push(path);
    true
}

/// Whether `needle` stands in `hay` at the index `at`.
fn found_at(hay: &Vec<char>, needle: &Vec<char>, at: usize) -> (found: bool)
    requires
        at + needle.len() <= hay.len(),
    ensures
        found == stands_at(hay@, needle@, at as int),
{
    let mut i: usize = 0;
    while i < needle.len()
        invariant
            i <= needle.len(),
            at + needle.len() <= hay.len(),
            forall|j: int| 0 <= j < i ==> hay@[at + j] == needle@[j],
        decreases needle.len() - i,
    {
        if hay[at + i] != needle[i] {
            assert(hay@.subrange(at as int, at + needle@.len())[i as int] != needle@[i as int]);
            return false;
        }
        i += 1;
    }
    assert(hay@.subrange(at as int, at + needle@.len()) =~= needle@);
    true
}

/// Whether `needle` stands somewhere in `hay`.
pub fn contains_text(hay: &str, needle: &str) -> (found: bool)
    ensures
        found == holds(hay@, needle@),
{
    let hay_chars = chars_of(hay);
    let needle_chars = chars_of(needle);
    if needle_chars.len() > hay_chars.len() {
        assert(forall|at: int| !stands_at(hay@, needle@, at));
        return false;
    }
    let last = hay_chars.len() - needle_chars.len();
    let mut at: usize = 0;
    while at < last
        invariant
            at <= last,
            last == hay_chars.len() - needle_chars.len(),
            hay_chars@ == hay@,
            needle_chars@ == needle@,
            forall|before: int| 0 <= before < at ==> !stands_at(hay@, needle@, before),
        decreases last - at,
    {
        if found_at(&hay_chars, &needle_chars, at) {
            assert(stands_at(hay@, needle@, at as int));
            return true;
        }
        at += 1;
    }
    let found = found_at(&hay_chars, &needle_chars, last);
    assert(found ==> stands_at(hay@, needle@, last as int));
    assert(!found ==> forall|at: int| !stands_at(hay@, needle@, at));
    found
}

/// Whether a search passes over a name.
pub fn skips(name: &str) -> (skipped: bool)
    ensures
        skipped == is_skipped(name@),
{
    if same_text(name, "node_modules") || same_text(name, "target") {
        return true;
    }
    !name.is_empty() && name.get_char(0) == '.'
}

/// Reads a query: the part after its last slash is looked for in names,
/// each part before that in paths.
pub fn parse_query(query: &str) -> (parsed: SearchQuery)
    ensures
        parsed.name@ == parts_from(query@, 0).last(),
        texts(parsed.path_filters@) == parts_from(query@, 0).drop_last(),
{
    let chars = chars_of(query);
    let mut path_filters: Vec<String> = Vec::new();
    let mut from: usize = 0;
    let mut at: usize = 0;
    assert(texts(path_filters@) + parts_from(chars@, 0) =~= parts_from(chars@, 0));
    while at < chars.len()
        invariant
            from <= at <= chars.len(),
            next_slash(chars@, from as int) == next_slash(chars@, at as int),
            texts(path_filters@) + parts_from(chars@, from as int) == parts_from(chars@, 0),
        decreases chars.len() - at,
    {
        if chars[at] == '/' {
            let ghost before = texts(path_filters@);
            let ghost part = chars@.subrange(from as int, at as int);
            path_filters.push(text_of(&chars, from, at));
            proof {
                assert(texts(path_filters@) =~= before.push(part));
                assert(before.push(part) + parts_from(chars@, at + 1) =~= before + (seq![part]
                    + parts_from(chars@, at + 1)));
            }
            from = at + 1;
        }
        at += 1;
    }
    let name = text_of(&chars, from, chars.len());
    proof {
        let all = parts_from(chars@, 0);
        let rest = parts_from(chars@, from as int);
        assert(rest =~= seq![chars@.subrange(from as int, chars@.len() as int)]);
        assert(all.last() == rest.last());
        assert(all.drop_last() =~= texts(path_filters@));
    }
    SearchQuery { name, path_filters }
}

impl SearchQuery {
    /// Whether the search reports an entry with this name and path.
    pub fn reports(&self, name: &str, relative_path: &str, is_dir: bool) -> (reported: bool)
        ensures
            reported == is_reported(
                self.name@,
                texts(self.path_filters@),
                name@,
                relative_path@,
                is_dir,
            ),
    {
        if is_dir || !contains_text(name, self.name.as_str()) {
            return false;
        }
        let ghost filters = texts(self.path_filters@);
        let mut i: usize = 0;
        while i < self.path_filters.len()
            invariant
                i <= self.path_filters.len(),
                filters == texts(self.path_filters@),
                forall|j: int| 0 <= j < i ==> holds(relative_path@, #[trigger] filters[j]),
            decreases self.path_filters.len() - i,
        {
            if !contains_text(relative_path, self.path_filters[i].as_str()) {
                assert(!holds(relative_path@, filters[i as int]));
                return false;
            }
            i += 1;
        }
        true
    }
}

/// Whether a search goes on at the given depth with `found` files
/// reported so far.
pub fn keeps_searching(found: usize, max_results: usize, depth: usize) -> (goes_on: bool)
    ensures
        goes_on == (found < max_results && depth <= MAX_SEARCH_DEPTH),
{
    found < max_results && depth <= MAX_SEARCH_DEPTH
}

/// Whether a file of `len` bytes is small enough to hand out.
pub fn content_fits(len: u64) -> (fits: bool)
    ensures
        fits == (len <= MAX_CONTENT_BYTES),
{
    len <= MAX_CONTENT_BYTES
}

} // verus!
