//! What the path of a table tells of it: the suffix, which stands for a format, and the folders,
//! which name partition columns.

use crate::schema::{has_name, texts};
use vstd::prelude::*;

verus! {

/// What follows the last `mark` of `text`; all of `text` if it has none.
pub open spec fn after_last(text: Seq<char>, mark: char) -> Seq<char>
    decreases text.len(),
{
    if text.len() == 0 || text.last() == mark {
        Seq::empty()
    } else {
        after_last(text.drop_last(), mark).push(text.last())
    }
}

/// What stands before the first `mark` of `text`; all of `text` if it has none.
pub open spec fn before_first(text: Seq<char>, mark: char) -> Seq<char>
    decreases text.len(),
{
    if text.len() == 0 || text.first() == mark {
        Seq::empty()
    } else {
        seq![text.first()] + before_first(text.drop_first(), mark)
    }
}

/// What follows the last `.` of `path`; all of `path` if it has none.
pub open spec fn suffix_of(path: Seq<char>) -> Seq<char> {
    after_last(path, '.')
}

/// The partition column that a folder names: what stands before its first `=`, if it has one with
/// anything before it.
pub open spec fn partition_col_of(folder: Seq<char>) -> Option<Seq<char>> {
    if folder.contains('=') && before_first(folder, '=').len() > 0 {
        Some(before_first(folder, '='))
    } else {
        None
    }
}

/// `names` with `name` behind them, unless it is among them.
pub open spec fn with_name(names: Seq<Seq<char>>, name: Seq<char>) -> Seq<Seq<char>> {
    if names.contains(name) {
        names
    } else {
        names.push(name)
    }
}

/// The partition columns that the `name=value` folders of `path` name, each once and in the order in
/// which they first occur. A folder is what stands before a `/`.
pub open spec fn partition_cols_of(path: Seq<char>) -> Seq<Seq<char>>
    decreases path.len(),
{
    if path.len() == 0 {
        Seq::empty()
    } else {
        let before = path.drop_last();
        if path.last() == '/' {
            match partition_col_of(after_last(before, '/')) {
                Some(name) => with_name(partition_cols_of(before), name),
                None => partition_cols_of(before),
            }
        } else {
            partition_cols_of(before)
        }
    }
}

/// If `text` has no `mark` from `start` on, and one just before or nothing before, then what follows
/// the last mark starts at `start`.
proof fn lemma_after_last_starts_at(text: Seq<char>, mark: char, start: int)
    requires
        0 <= start <= text.len(),
        forall|i: int| start <= i < text.len() ==> text[i] != mark,
        start == 0 || text[start - 1] == mark,
    ensures
        after_last(text, mark) == text.skip(start),
    decreases text.len(),
{
    if text.len() > start {
        lemma_after_last_starts_at(text.drop_last(), mark, start);
    }
    assert(after_last(text, mark) =~= text.skip(start));
}

/// If `text` has no `mark` before `end`, and one there or nothing, then what stands before the first
/// mark ends at `end`.
proof fn lemma_before_first_ends_at(text: Seq<char>, mark: char, end: int)
    requires
        0 <= end <= text.len(),
        forall|i: int| 0 <= i < end ==> text[i] != mark,
        end == text.len() || text[end] == mark,
    ensures
        before_first(text, mark) == text.take(end),
    decreases text.len(),
{
    if end > 0 {
        lemma_before_first_ends_at(text.drop_first(), mark, end - 1);
    }
    assert(before_first(text, mark) =~= text.take(end));
}

/// The suffix of `path`: what follows its last `.`, or all of it.
pub(crate) fn infer_suffix(path: &str) -> (suffix: String)
    ensures
        suffix@ == suffix_of(path@),
{
    let len: usize = path.unicode_len();
    let mut start: usize = len;
    while start > 0 && path.get_char(start - 1) != '.'
        invariant
            start <= len == path@.len(),
            forall|i: int| start <= i < len ==> path@[i] != '.',
        decreases start,
    {
        start = start - 1;
    }
    proof {
        lemma_after_last_starts_at(path@, '.', start as int);
    }
    path.substring_char(start, len).to_owned()
}

/// The partition column that `folder` names, if any.
fn infer_partition_col(folder: &str) -> (name: Option<String>)
    ensures
        match partition_col_of(folder@) {
            Some(expected) => name matches Some(found) && found@ == expected,
            None => name is None,
        },
{
    let len: usize = folder.unicode_len();
    let mut end: usize = 0;
    while end < len && folder.get_char(end) != '='
        invariant
            end <= len == folder@.len(),
            forall|i: int| 0 <= i < end ==> folder@[i] != '=',
        decreases len - end,
    {
        end = end + 1;
    }
    proof {
        lemma_before_first_ends_at(folder@, '=', end as int);
    }
    if end == len || end == 0 {
        return None;
    }
    assert(folder@[end as int] == '=');
    Some(folder.substring_char(0, end).to_owned())
}

/// The partition columns that the `name=value` folders of `path` name, each once and in the order in
/// which they first occur.
pub(crate) fn infer_partition_cols(path: &str) -> (cols: Vec<String>)
    ensures
        texts(cols@) == partition_cols_of(path@),
{
    let len: usize = path.unicode_len();
    let mut cols: Vec<String> = Vec::new();
    let mut start: usize = 0;
    let mut i: usize = 0;
    assert(texts(cols@) =~= partition_cols_of(path@.take(0)));
    while i < len
        invariant
            start <= i <= len == path@.len(),
            texts(cols@) == partition_cols_of(path@.take(i as int)),
            after_last(path@.take(i as int), '/') == path@.subrange(start as int, i as int),
        decreases len - i,
    {
        let ghost before = path@.take(i as int);
        let ghost upto = path@.take(i + 1);
        assert(upto.drop_last() =~= before);
        if path.get_char(i) == '/' {
            let ghost found = texts(cols@);
            if let Some(name) = infer_partition_col(path.substring_char(start, i)) {
                if !has_name(&cols, &name) {
                    cols.push(name);
                    assert(texts(cols@) =~= found.push(name@));
                }
            }
            start = i + 1;
        }
        i = i + 1;
        assert(after_last(upto, '/') =~= path@.subrange(start as int, i as int));
    }
    assert(path@.take(i as int) =~= path@);
    cols
}

/// A suffix has no `.`; its path ends in it, and is it or has a `.` just before it.
pub proof fn suffix_follows_the_last_dot(path: Seq<char>)
    ensures
        !suffix_of(path).contains('.'),
        suffix_of(path).is_suffix_of(path),
        suffix_of(path) == path || path[path.len() - suffix_of(path).len() - 1] == '.',
    decreases path.len(),
{
    let suffix = suffix_of(path);
    if path.len() == 0 || path.last() == '.' {
        assert(suffix.is_suffix_of(path));
        assert(path.len() == 0 ==> suffix =~= path);
    } else {
        let shorter = path.drop_last();
        suffix_follows_the_last_dot(shorter);
        let stem = path.len() - suffix.len();
        assert(suffix.drop_last() =~= suffix_of(shorter));
        assert forall|i: int| 0 <= i < suffix.len() implies suffix[i] != '.' by {
            if i < suffix.len() - 1 {
                assert(suffix_of(shorter)[i] == suffix[i]);
                assert(suffix_of(shorter).contains(suffix[i]));
            }
        }
        assert(suffix =~= path.skip(stem)) by {
            assert(suffix_of(shorter) =~= shorter.skip(stem));
        }
        if suffix_of(shorter) == shorter {
            assert(suffix =~= path);
        }
    }
}

/// The suffix of a file name with an extension is the extension, whatever comes before it.
pub proof fn suffix_of_a_name_with_extension(stem: Seq<char>, extension: Seq<char>)
    requires
        !extension.contains('.'),
    ensures
        suffix_of(stem.push('.') + extension) == extension,
{
    let path = stem.push('.') + extension;
    assert forall|i: int| stem.len() + 1 <= i < path.len() implies path[i] != '.' by {
        assert(extension.contains(extension[i - stem.len() - 1]));
    }
    lemma_after_last_starts_at(path, '.', stem.len() as int + 1);
    assert(path.skip(stem.len() as int + 1) =~= extension);
}

/// A path without a `.` is its own suffix.
pub proof fn suffix_of_a_name_without_dot(path: Seq<char>)
    requires
        !path.contains('.'),
    ensures
        suffix_of(path) == path,
{
    assert forall|i: int| 0 <= i < path.len() implies path[i] != '.' by {
        assert(path.contains(path[i]));
    }
    lemma_after_last_starts_at(path, '.', 0);
    assert(path.skip(0) =~= path);
}

/// The name of a file has no part in the partition columns: those of a path are those of the folders
/// that the file lies in.
pub proof fn file_names_name_no_partition_column(parent: Seq<char>, file: Seq<char>)
    requires
        !file.contains('/'),
    ensures
        partition_cols_of(parent + file) == partition_cols_of(parent),
    decreases file.len(),
{
    if file.len() == 0 {
        assert(parent + file =~= parent);
    } else {
        let shorter = file.drop_last();
        assert forall|c: char| shorter.contains(c) implies file.contains(c) by {
            let i = choose|i: int| 0 <= i < shorter.len() && shorter[i] == c;
            assert(file[i] == c);
        }
        file_names_name_no_partition_column(parent, shorter);
        assert(file.contains(file.last()));
        assert((parent + file).drop_last() =~= parent + shorter);
        assert((parent + file).last() == file.last());
    }
}

/// A folder within `parent` adds the partition column that it names, if any, to those of `parent`,
/// unless it is one of them.
pub proof fn folders_name_partition_columns(parent: Seq<char>, folder: Seq<char>)
    requires
        parent.len() == 0 || parent.last() == '/',
        !folder.contains('/'),
    ensures
        partition_cols_of((parent + folder).push('/')) == match partition_col_of(folder) {
            Some(name) => with_name(partition_cols_of(parent), name),
            None => partition_cols_of(parent),
        },
{
    let path = parent + folder;
    assert(path.push('/').drop_last() =~= path);
    file_names_name_no_partition_column(parent, folder);
    assert forall|i: int| parent.len() <= i < path.len() implies path[i] != '/' by {
        assert(folder.contains(folder[i - parent.len()]));
    }
    lemma_after_last_starts_at(path, '/', parent.len() as int);
    assert(path.skip(parent.len() as int) =~= folder);
}

/// A folder `name=value` names the column `name`, whatever the value is; without a name it names none.
pub proof fn folder_names_precede_their_values(name: Seq<char>, value: Seq<char>)
    requires
        !name.contains('='),
    ensures
        partition_col_of(name.push('=') + value) == if name.len() > 0 {
            Some(name)
        } else {
            None
        },
{
    let folder = name.push('=') + value;
    assert forall|i: int| 0 <= i < name.len() implies folder[i] != '=' by {
        assert(name.contains(name[i]));
    }
    assert(folder[name.len() as int] == '=');
    lemma_before_first_ends_at(folder, '=', name.len() as int);
    assert(folder.take(name.len() as int) =~= name);
}

/// A folder `name=value` within `parent` adds the column `name` behind those of `parent`, unless it is
/// one of them, whatever the value is.
pub proof fn named_values_add_partition_columns(
    parent: Seq<char>,
    name: Seq<char>,
    value: Seq<char>,
)
    requires
        parent.len() == 0 || parent.last() == '/',
        name.len() > 0,
        !name.contains('='),
        !name.contains('/'),
        !value.contains('/'),
    ensures
        partition_cols_of((parent + (name.push('=') + value)).push('/')) == if partition_cols_of(
            parent,
        ).contains(name) {
            partition_cols_of(parent)
        } else {
            partition_cols_of(parent).push(name)
        },
{
    let folder = name.push('=') + value;
    assert forall|i: int| 0 <= i < folder.len() implies folder[i] != '/' by {
        if i < name.len() {
            assert(name.contains(name[i]));
        } else if i > name.len() {
            assert(value.contains(value[i - name.len() - 1]));
        }
    }
    folders_name_partition_columns(parent, folder);
    folder_names_precede_their_values(name, value);
}

/// A folder within `parent` that has no `=`, or nothing before it, adds no column to those of `parent`.
pub proof fn other_folders_add_no_partition_column(parent: Seq<char>, folder: Seq<char>)
    requires
        parent.len() == 0 || parent.last() == '/',
        !folder.contains('/'),
        !folder.contains('=') || folder[0] == '=',
    ensures
        partition_cols_of((parent + folder).push('/')) == partition_cols_of(parent),
{
    folders_name_partition_columns(parent, folder);
}

/// No partition column is named twice, and none is without a name.
pub proof fn partition_columns_are_distinct(path: Seq<char>)
    ensures
        partition_cols_of(path).no_duplicates(),
        forall|i: int|
            0 <= i < partition_cols_of(path).len() ==> (#[trigger] partition_cols_of(path)[i]).len()
                > 0,
    decreases path.len(),
{
    if path.len() > 0 {
        partition_columns_are_distinct(path.drop_last());
    }
}

/// A path without a `=` names no partition column.
pub proof fn paths_without_values_name_no_partition_column(path: Seq<char>)
    requires
        !path.contains('='),
    ensures
        partition_cols_of(path) == Seq::<Seq<char>>::empty(),
    decreases path.len(),
{
    if path.len() > 0 {
        let before = path.drop_last();
        assert forall|c: char| before.contains(c) implies path.contains(c) by {
            let i = choose|i: int| 0 <= i < before.len() && before[i] == c;
            assert(path[i] == c);
        }
        paths_without_values_name_no_partition_column(before);
        lemma_after_last_is_part(before, '/', '=');
    }
}

/// What follows the last mark has no character that the text has not.
proof fn lemma_after_last_is_part(text: Seq<char>, mark: char, c: char)
    ensures
        after_last(text, mark).contains(c) ==> text.contains(c),
    decreases text.len(),
{
    if text.len() > 0 && text.last() != mark && after_last(text, mark).contains(c) {
        let shorter = text.drop_last();
        lemma_after_last_is_part(shorter, mark, c);
        let i = choose|i: int|
            0 <= i < after_last(text, mark).len() && after_last(text, mark)[i] == c;
        if i == after_last(text, mark).len() - 1 {
            assert(text[text.len() - 1] == c);
        } else {
            assert(after_last(shorter, mark)[i] == c);
            let j = choose|j: int| 0 <= j < shorter.len() && shorter[j] == c;
            assert(text[j] == c);
        }
    }
}

} // verus!
