//! Narrowing the scanned files to those that are uploaded: by a list of
//! paths, and by the selection that the user makes in a table.

use vstd::prelude::*;
use vstd::string::*;
use unicode_width::UnicodeWidthStr;
use crate::code_reader::{file_views, posix_path, CatchCLICodeFile, CodeFileView};
use crate::sequence::{filter_positions, keeps_in_order};
use crate::text::{chars_of, find_char, index_of_first, texts};

verus! {

/// The files whose path is in the set, in their order.
pub open spec fn filtered(files: Seq<CodeFileView>, paths: Set<Seq<char>>) -> Seq<CodeFileView> {
    files.filter(|f: CodeFileView| paths.contains(f.path))
}

/// The set of the paths in a list.
pub open spec fn path_set(paths: Seq<String>) -> Set<Seq<char>> {
    texts(paths).to_set()
}

/// The set of the paths of a list.
fn paths_as_set(paths: &Vec<String>) -> (set: vstd::hash_set::StringHashSet)
    ensures
        set@ == path_set(paths@),
{
    let mut set = vstd::hash_set::StringHashSet::new();
    let mut i: usize = 0;
    assert(texts(paths@).take(0).to_set() =~= Set::<Seq<char>>::empty());
    while i < paths.len()
        invariant
            i <= paths.len(),
            set@ == texts(paths@).take(i as int).to_set(),
        decreases paths.len() - i,
    {
        let path = paths[i].clone();
        set.insert(path);
        proof {
            let all = texts(paths@);
            let earlier = all.take(i as int);
            assert(all.take(i + 1) =~= earlier.push(path@));
            assert forall|p: Seq<char>| earlier.push(path@).contains(p) <==> earlier.contains(p)
                || p == path@ by {
                if earlier.contains(p) {
                    let k = choose|k: int| 0 <= k < earlier.len() && earlier[k] == p;
                    assert(earlier.push(path@)[k] == p);
                }
                if p == path@ {
                    assert(earlier.push(path@)[earlier.len() as int] == p);
                }
            }
            assert(earlier.push(path@).to_set() =~= earlier.to_set().insert(path@));
        }
        i += 1;
    }
    assert(texts(paths@).take(paths.len() as int) =~= texts(paths@));
    set
}

/// Keeps the files whose path is among `paths`, in the order in which
/// they came. A path that no file has is passed over; a file whose path is
/// not listed is dropped. The paths are compared as they stand, character
/// by character.
pub fn filter_code_files(all_files: Vec<CatchCLICodeFile>, paths: Vec<String>) -> (kept: Vec<
    CatchCLICodeFile,
>)
    ensures
        file_views(kept@) == filtered(file_views(all_files@), path_set(paths@)),
{
    let listed_paths = paths_as_set(&paths);
    let mut kept: Vec<CatchCLICodeFile> = Vec::new();
    let mut i: usize = 0;
    let ghost listed = |f: CodeFileView| path_set(paths@).contains(f.path);
    proof {
        reveal(Seq::filter);
        assert(file_views(all_files@).take(0) =~= Seq::<CodeFileView>::empty());
        assert(file_views(kept@) =~= Seq::<CodeFileView>::empty());
    }
    while i < all_files.len()
        invariant
            i <= all_files.len(),
            listed_paths@ == path_set(paths@),
            listed == |f: CodeFileView| path_set(paths@).contains(f.path),
            file_views(kept@) == file_views(all_files@).take(i as int).filter(listed),
        decreases all_files.len() - i,
    {
        let ghost before = kept@;
        let file = &all_files[i];
        proof {
            let all = file_views(all_files@);
            assert(all.take(i + 1) =~= all.take(i as int).push(file@));
            all.take(i as int).lemma_filter_push(file@, listed);
        }
        if listed_paths.contains(file.path.as_str()) {
            let copy = CatchCLICodeFile {
                path: file.path.clone(),
                encrypted_file_content: file.encrypted_file_content.clone(),
            };
            kept.push(copy);
            assert(file_views(kept@) =~= file_views(before).push(file@));
        }
        i += 1;
    }
    assert(file_views(all_files@).take(all_files.len() as int) =~= file_views(all_files@));
    kept
}

/// Filtering is idempotent: what a filter has kept, the same filter keeps
/// whole.
pub proof fn filter_is_idempotent(files: Seq<CodeFileView>, paths: Set<Seq<char>>)
    ensures
        filtered(filtered(files, paths), paths) == filtered(files, paths),
{
    let kept = filtered(files, paths);
    assert forall|i: int| 0 <= i < kept.len() implies paths.contains(#[trigger] kept[i].path) by {
        files.lemma_filter_pred(|f: CodeFileView| paths.contains(f.path), i);
    }
    filter_with_all_paths_keeps_all(kept, paths);
}

/// Filtering by no path at all keeps no file.
pub proof fn filter_with_no_path_is_empty(files: Seq<CodeFileView>)
    ensures
        filtered(files, Set::empty()).len() == 0,
{
    let kept = filtered(files, Set::empty());
    if kept.len() > 0 {
        files.lemma_filter_pred(|f: CodeFileView| Set::<Seq<char>>::empty().contains(f.path), 0);
    }
}

/// Filtering by a set that holds the path of every file keeps the files as
/// they are.
pub proof fn filter_with_all_paths_keeps_all(files: Seq<CodeFileView>, paths: Set<Seq<char>>)
    requires
        forall|i: int| 0 <= i < files.len() ==> paths.contains(#[trigger] files[i].path),
    ensures
        filtered(files, paths) == files,
    decreases files.len(),
{
    reveal(Seq::filter);
    if files.len() > 0 {
        filter_with_all_paths_keeps_all(files.drop_last(), paths);
        assert(files.drop_last().push(files.last()) =~= files);
    }
}

/// Filtering preserves the order: the kept files are the files at
/// ascending positions of the input, namely at all the positions whose
/// path is in the set, each once. `positions` gives, for each kept file,
/// where it stood.
pub proof fn filter_preserves_order(files: Seq<CodeFileView>, paths: Set<Seq<char>>) -> (positions:
    Seq<int>)
    ensures
        keeps_in_order(
            files,
            |f: CodeFileView| paths.contains(f.path),
            filtered(files, paths),
            positions,
        ),
{
    filter_positions(files, |f: CodeFileView| paths.contains(f.path))
}

/// Rows of the terminal that one file takes in the table.
pub const ITEM_HEIGHT: usize = 2;

/// The last segment of a path: what follows the last `/`, or the whole
/// path where it holds none.
pub open spec fn last_segment(path: Seq<char>) -> Seq<char>
    decreases path.len(),
{
    if path.len() == 0 || path.last() == '/' {
        Seq::empty()
    } else {
        last_segment(path.drop_last()).push(path.last())
    }
}

/// The name of the file that a path leads to, read as a path with `/`
/// between its names: the last of its names. Empty names, which a doubled
/// or trailing `/` leaves, and the name `.` are passed over from the end;
/// a path that ends in `..`, or that holds no name, leads to no file, and
/// its file name is empty.
pub open spec fn file_name_of(path: Seq<char>) -> Seq<char>
    decreases path.len(),
{
    let segment = last_segment(path);
    if segment.len() == 0 || segment == seq!['.'] {
        if segment.len() < path.len() {
            file_name_of(path.take(path.len() - segment.len() - 1))
        } else {
            Seq::empty()
        }
    } else if segment == seq!['.', '.'] {
        Seq::empty()
    } else {
        segment
    }
}

/// The last segment is the end of the path from `start` on, where no `/`
/// follows `start` and one stands just before it, or the path begins there.
pub proof fn last_segment_starts_after_last_slash(path: Seq<char>, start: int)
    requires
        0 <= start <= path.len(),
        start == 0 || path[start - 1] == '/',
        forall|k: int| start <= k < path.len() ==> path[k] != '/',
    ensures
        last_segment(path) == path.skip(start),
    decreases path.len(),
{
    if start < path.len() {
        last_segment_starts_after_last_slash(path.drop_last(), start);
        assert(path.drop_last().skip(start).push(path.last()) =~= path.skip(start));
    } else {
        assert(path.skip(start) =~= Seq::<char>::empty());
    }
}

/// The file name of a scanned path is the last of the names that the path
/// was joined from, as long as that is the name of a file: not empty, not
/// `.` or `..`, and without a `/`.
pub proof fn file_name_of_joined_path(components: Seq<Seq<char>>)
    requires
        components.len() > 0,
        components.last().len() > 0,
        components.last() != seq!['.'],
        components.last() != seq!['.', '.'],
        forall|k: int| 0 <= k < components.last().len() ==> components.last()[k] != '/',
    ensures
        file_name_of(posix_path(components)) == components.last(),
{
    let last = components.last();
    if components.len() == 1 {
        last_segment_starts_after_last_slash(last, 0);
        assert(last.skip(0) =~= last);
    } else {
        let before = posix_path(components.drop_last()) + seq!['/'];
        let path = before + last;
        assert(posix_path(components) =~= path);
        assert(path[before.len() - 1] == '/');
        last_segment_starts_after_last_slash(path, before.len() as int);
        assert(path.skip(before.len() as int) =~= last);
    }
}

/// Where the last segment of the first `end` characters begins.
fn last_segment_start(chars: &Vec<char>, end: usize) -> (start: usize)
    requires
        end <= chars.len(),
    ensures
        start <= end,
        chars@.subrange(start as int, end as int) == last_segment(chars@.take(end as int)),
{
    let mut start: usize = end;
    while start > 0 && chars[start - 1] != '/'
        invariant
            start <= end <= chars.len(),
            forall|k: int| start <= k < end ==> chars@[k] != '/',
        decreases start,
    {
        start -= 1;
    }
    proof {
        let head = chars@.take(end as int);
        last_segment_starts_after_last_slash(head, start as int);
        assert(head.skip(start as int) =~= chars@.subrange(start as int, end as int));
    }
    start
}

/// The name of the file at the end of a path.
pub fn extract_filename(path: &str) -> (name: String)
    ensures
        name@ == file_name_of(path@),
{
    let chars = chars_of(path);
    let mut end: usize = chars.len();
    assert(chars@.take(end as int) =~= chars@);
    loop
        invariant
            end <= chars.len(),
            chars@ == path@,
            file_name_of(path@) == file_name_of(chars@.take(end as int)),
        decreases end,
    {
        let start: usize = last_segment_start(&chars, end);
        let ghost head = chars@.take(end as int);
        let ghost segment = chars@.subrange(start as int, end as int);
        let len: usize = end - start;
        let is_dot = len == 1 && chars[start] == '.';
        let is_parent = len == 2 && chars[start] == '.' && chars[start + 1] == '.';
        proof {
            assert(is_dot == (segment == seq!['.'])) by {
                if is_dot {
                    assert(segment =~= seq!['.']);
                }
                if segment == seq!['.'] {
                    assert(segment[0] == '.');
                }
            }
            assert(is_parent == (segment == seq!['.', '.'])) by {
                if is_parent {
                    assert(segment =~= seq!['.', '.']);
                }
                if segment == seq!['.', '.'] {
                    assert(segment[0] == '.' && segment[1] == '.');
                }
            }
        }
        if len == 0 || is_dot {
            if start == 0 {
                return String::new();
            }
            assert(head.take(head.len() - segment.len() - 1) =~= chars@.take(start - 1));
            end = start - 1;
        } else if is_parent {
            return String::new();
        } else {
            return String::from_str(path.substring_char(start, end));
        }
    }
}

/// One row of the table: a file, and whether the user has chosen it.
#[derive(Debug)]
pub struct Data {
    selected: bool,
    file_name: String,
    file_path: String,
}

/// What a row holds.
pub struct DataView {
    pub selected: bool,
    pub file_name: Seq<char>,
    pub file_path: Seq<char>,
}

impl View for Data {
    type V = DataView;

    closed spec fn view(&self) -> DataView {
        DataView {
            selected: self.selected,
            file_name: self.file_name@,
            file_path: self.file_path@,
        }
    }
}

impl Data {
    /// The row of a file that is not chosen yet.
    pub fn new(file_path: &str) -> (row: Self)
        ensures
            row@ == (DataView {
                selected: false,
                file_name: file_name_of(file_path@),
                file_path: file_path@,
            }),
    {
        Data {
            selected: false,
            file_name: extract_filename(file_path),
            file_path: String::from_str(file_path),
        }
    }

    pub fn name(&self) -> (name: &str)
        ensures
            name@ == self@.file_name,
    {
        self.file_name.as_str()
    }

    pub fn path(&self) -> (path: &str)
        ensures
            path@ == self@.file_path,
    {
        self.file_path.as_str()
    }

    pub fn is_selected(&self) -> (selected: bool)
        ensures
            selected == self@.selected,
    {
        self.selected
    }

    /// What the first column shows: `1` for a chosen file, `0` for another.
    pub fn mark(&self) -> (mark: &'static str)
        ensures
            mark@ == if self@.selected {
                "1"@
            } else {
                "0"@
            },
    {
        if self.selected {
            "1"
        } else {
            "0"
        }
    }
}

/// A key as far as the table tells keys apart.
#[derive(Debug, Clone, Copy, PartialEq, Eq, Structural)]
pub enum SelectorKey {
    Enter,
    Down,
    Up,
    Space,
    Other,
}

/// The paths of the chosen rows, in the order of the table.
pub open spec fn chosen_paths(rows: Seq<DataView>) -> Seq<Seq<char>> {
    rows.filter(|row: DataView| row.selected).map_values(|row: DataView| row.file_path)
}

/// The row that the cursor moves down to: the next one, and the first
/// after the last.
pub open spec fn cursor_below(cursor: int, rows: int) -> int {
    if rows == 0 || cursor >= rows - 1 {
        0
    } else {
        cursor + 1
    }
}

/// The row that the cursor moves up to: the one before, and the last
/// before the first.
pub open spec fn cursor_above(cursor: int, rows: int) -> int {
    if rows == 0 {
        0
    } else if cursor == 0 {
        rows - 1
    } else {
        cursor - 1
    }
}

/// The rows with the choice of the row under the cursor turned round.
pub open spec fn toggled(rows: Seq<DataView>, cursor: int) -> Seq<DataView> {
    if 0 <= cursor < rows.len() {
        rows.update(
            cursor,
            DataView {
                selected: !rows[cursor].selected,
                file_name: rows[cursor].file_name,
                file_path: rows[cursor].file_path,
            },
        )
    } else {
        rows
    }
}

/// The table in which the user chooses among the candidate files.
#[derive(Debug)]
pub struct CodeCandidateSelector {
    items: Vec<Data>,
    cursor: usize,
}

impl CodeCandidateSelector {
    /// The rows of the table.
    pub closed spec fn rows(&self) -> Seq<DataView> {
        self.items@.map_values(|row: Data| row@)
    }

    /// The row that the cursor is on.
    pub closed spec fn spec_cursor(&self) -> int {
        self.cursor as int
    }

    /// The cursor is on a row, or on none where there is no row.
    pub open spec fn wf(&self) -> bool {
        0 <= self.spec_cursor() && (self.spec_cursor() < self.rows().len() || self.spec_cursor()
            == 0)
    }

    /// The table of the candidate files: a row for each in their order,
    /// none chosen, the cursor on the first.
    pub fn new(candidate_files: Vec<CatchCLICodeFile>) -> (table: Self)
        ensures
            table.wf(),
            table.spec_cursor() == 0,
            table.rows().len() == candidate_files@.len(),
            forall|i: int|
                0 <= i < candidate_files@.len() ==> #[trigger] table.rows()[i] == (DataView {
                    selected: false,
                    file_name: file_name_of(candidate_files@[i].path@),
                    file_path: candidate_files@[i].path@,
                }),
    {
        let mut items: Vec<Data> = Vec::new();
        let mut i: usize = 0;
        while i < candidate_files.len()
            invariant
                i <= candidate_files.len(),
                items@.len() == i,
                forall|k: int|
                    0 <= k < i ==> (#[trigger] items@[k])@ == (DataView {
                        selected: false,
                        file_name: file_name_of(candidate_files@[k].path@),
                        file_path: candidate_files@[k].path@,
                    }),
            decreases candidate_files.len() - i,
        {
            items.push(Data::new(candidate_files[i].path.as_str()));
            i += 1;
        }
        CodeCandidateSelector { items, cursor: 0 }
    }

    /// The index of the row that the cursor is on.
    pub fn cursor(&self) -> (cursor: usize)
        ensures
            cursor == self.spec_cursor(),
    {
        self.cursor
    }

    /// How many rows the table has.
    pub fn len(&self) -> (len: usize)
        ensures
            len == self.rows().len(),
    {
        self.items.len()
    }

    /// The row at `index`.
    pub fn row(&self, index: usize) -> (row: &Data)
        requires
            index < self.rows().len(),
        ensures
            row@ == self.rows()[index as int],
    {
        &self.items[index]
    }

    /// The widths of the two text columns of this table.
    pub fn longest_item_lens(&self) -> (lens: (u16, u16))
        ensures
            lens.0 == widest_name(self.rows()) % 0x10000,
            lens.1 == widest_path_line(self.rows()) % 0x10000,
    {
        constraint_len_calculator(&self.items)
    }

    /// Where the scrollbar stands: the cursor's row in terminal rows, or
    /// the largest number where that does not fit.
    pub fn scroll_position(&self) -> (position: usize)
        ensures
            position == if self.spec_cursor() * ITEM_HEIGHT <= usize::MAX {
                self.spec_cursor() * ITEM_HEIGHT
            } else {
                usize::MAX as int
            },
    {
        if self.cursor > usize::MAX / ITEM_HEIGHT {
            usize::MAX
        } else {
            self.cursor * ITEM_HEIGHT
        }
    }

    /// Turns round the choice of the row under the cursor.
    pub fn select(&mut self)
        requires
            old(self).wf(),
        ensures
            final(self).wf(),
            final(self).spec_cursor() == old(self).spec_cursor(),
            final(self).rows() == toggled(old(self).rows(), old(self).spec_cursor()),
    {
        if self.cursor < self.items.len() {
            let i: usize = self.cursor;
            let ghost before = self.items@;
            let row = Data {
                selected: !self.items[i].selected,
                file_name: self.items[i].file_name.clone(),
                file_path: self.items[i].file_path.clone(),
            };
            self.items.set(i, row);
            assert(self.items@.map_values(|row: Data| row@) =~= toggled(
                before.map_values(|row: Data| row@),
                i as int,
            ));
        }
    }

    /// Moves the cursor down one row, and from the last row to the first.
    pub fn next(&mut self)
        requires
            old(self).wf(),
        ensures
            final(self).wf(),
            final(self).rows() == old(self).rows(),
            final(self).spec_cursor() == cursor_below(
                old(self).spec_cursor(),
                old(self).rows().len() as int,
            ),
    {
        if self.items.len() == 0 || self.cursor >= self.items.len() - 1 {
            self.cursor = 0;
        } else {
            self.cursor = self.cursor + 1;
        }
    }

    /// Moves the cursor up one row, and from the first row to the last.
    pub fn previous(&mut self)
        requires
            old(self).wf(),
        ensures
            final(self).wf(),
            final(self).rows() == old(self).rows(),
            final(self).spec_cursor() == cursor_above(
                old(self).spec_cursor(),
                old(self).rows().len() as int,
            ),
    {
        if self.items.len() == 0 {
            self.cursor = 0;
        } else if self.cursor == 0 {
            self.cursor = self.items.len() - 1;
        } else {
            self.cursor = self.cursor - 1;
        }
    }

    /// The paths of the chosen files, in the order of the table.
    pub fn selected_paths(&self) -> (paths: Vec<String>)
        ensures
            texts(paths@) == chosen_paths(self.rows()),
    {
        let mut paths: Vec<String> = Vec::new();
        let mut i: usize = 0;
        let ghost chosen = |row: DataView| row.selected;
        let ghost path = |row: DataView| row.file_path;
        proof {
            reveal(Seq::filter);
            assert(self.rows().take(0) =~= Seq::<DataView>::empty());
            assert(texts(paths@) =~= Seq::<DataView>::empty().filter(chosen).map_values(path));
        }
        while i < self.items.len()
            invariant
                i <= self.items.len(),
                chosen == |row: DataView| row.selected,
                path == |row: DataView| row.file_path,
                texts(paths@) == self.rows().take(i as int).filter(chosen).map_values(path),
            decreases self.items.len() - i,
        {
            let ghost before = paths@;
            let row = &self.items[i];
            proof {
                let rows = self.rows();
                assert(rows.take(i + 1) =~= rows.take(i as int).push(row@));
                rows.take(i as int).lemma_filter_push(row@, chosen);
            }
            if row.selected {
                let kept = row.file_path.clone();
                paths.push(kept);
                proof {
                    let earlier = self.rows().take(i as int).filter(chosen);
                    assert(texts(paths@) =~= texts(before).push(kept@));
                    assert(earlier.push(row@).map_values(path) =~= earlier.map_values(path).push(
                        row@.file_path,
                    ));
                }
            }
            i += 1;
        }
        assert(self.rows().take(self.items.len() as int) =~= self.rows());
        paths
    }

    /// Handles a key. `Enter` submits: the paths of the chosen files are
    /// returned and the table stays as it is. The arrows move the cursor,
    /// the space bar turns round the choice under it, and any other key
    /// does nothing.
    pub fn on_key(&mut self, key: SelectorKey) -> (submitted: Option<Vec<String>>)
        requires
            old(self).wf(),
        ensures
            final(self).wf(),
            match submitted {
                Some(paths) => key == SelectorKey::Enter && texts(paths@) == chosen_paths(
                    old(self).rows(),
                ),
                None => key != SelectorKey::Enter,
            },
            final(self).rows() == if key == SelectorKey::Space {
                toggled(old(self).rows(), old(self).spec_cursor())
            } else {
                old(self).rows()
            },
            final(self).spec_cursor() == if key == SelectorKey::Down {
                cursor_below(old(self).spec_cursor(), old(self).rows().len() as int)
            } else if key == SelectorKey::Up {
                cursor_above(old(self).spec_cursor(), old(self).rows().len() as int)
            } else {
                old(self).spec_cursor()
            },
    {
        match key {
            SelectorKey::Enter => Some(self.selected_paths()),
            SelectorKey::Down => {
                self.next();
                None
            },
            SelectorKey::Up => {
                self.previous();
                None
            },
            SelectorKey::Space => {
                self.select();
                None
            },
            SelectorKey::Other => None,
        }
    }
}

/// The number of terminal columns that a text takes, as `unicode_width`
/// counts them.
pub uninterp spec fn display_width(text: Seq<char>) -> nat;

/// Calls `UnicodeWidthStr::width`. The width is named.
#[verifier::external_body]
fn text_width(text: &str) -> (width: usize)
    ensures
        width == display_width(text@),
{
    text.width()
}

/// A line without the carriage return that it may end with.
pub open spec fn without_carriage_return(line: Seq<char>) -> Seq<char> {
    if line.len() > 0 && line.last() == '\r' {
        line.drop_last()
    } else {
        line
    }
}

/// The lines of a text. A line ends with a line feed, or with a carriage
/// return and a line feed, neither of which belongs to it; what follows the
/// last line feed is a line too unless it is empty.
pub open spec fn lines_of(text: Seq<char>) -> Seq<Seq<char>>
    decreases text.len(),
{
    let end = index_of_first(text, '\n');
    if text.len() == 0 {
        Seq::empty()
    } else if 0 <= end < text.len() {
        seq![without_carriage_return(text.take(end))] + lines_of(text.skip(end + 1))
    } else {
        seq![text]
    }
}

/// The greater of two numbers.
pub open spec fn larger(a: nat, b: nat) -> nat {
    if a >= b {
        a
    } else {
        b
    }
}

/// The width of the widest of some lines, and 0 for none.
pub open spec fn widest(lines: Seq<Seq<char>>) -> nat
    decreases lines.len(),
{
    if lines.len() == 0 {
        0
    } else {
        larger(display_width(lines[0]), widest(lines.drop_first()))
    }
}

/// The width of the widest file name of the rows.
pub open spec fn widest_name(rows: Seq<DataView>) -> nat
    decreases rows.len(),
{
    if rows.len() == 0 {
        0
    } else {
        larger(widest_name(rows.drop_last()), display_width(rows.last().file_name))
    }
}

/// The width of the widest line of the paths of the rows.
pub open spec fn widest_path_line(rows: Seq<DataView>) -> nat
    decreases rows.len(),
{
    if rows.len() == 0 {
        0
    } else {
        larger(widest_path_line(rows.drop_last()), widest(lines_of(rows.last().file_path)))
    }
}

/// The width of the widest line of a text.
pub fn widest_line(text: &str) -> (width: usize)
    ensures
        width == widest(lines_of(text@)),
{
    let chars = chars_of(text);
    let end: usize = chars.len();
    let mut start: usize = 0;
    let mut best: usize = 0;
    assert(chars@.skip(0) =~= text@);
    while start < end
        invariant
            start <= end == chars.len(),
            chars@ == text@,
            widest(lines_of(text@)) == larger(
                best as nat,
                widest(lines_of(chars@.skip(start as int))),
            ),
        decreases end - start,
    {
        let ghost rest = chars@.skip(start as int);
        let feed: usize = find_char(&chars, '\n', start, end);
        assert(chars@.subrange(start as int, end as int) =~= rest);
        if feed < end {
            let stop: usize = if feed > start && chars[feed - 1] == '\r' {
                feed - 1
            } else {
                feed
            };
            let width = text_width(text.substring_char(start, stop));
            proof {
                let line = rest.take(feed - start);
                assert(line =~= chars@.subrange(start as int, feed as int));
                assert(without_carriage_return(line) =~= chars@.subrange(
                    start as int,
                    stop as int,
                ));
                assert(rest.skip(feed - start + 1) =~= chars@.skip(feed + 1));
                let lines = seq![without_carriage_return(line)] + lines_of(chars@.skip(feed + 1));
                assert(lines_of(rest) == lines);
                assert(lines.drop_first() =~= lines_of(chars@.skip(feed + 1)));
            }
            if width > best {
                best = width;
            }
            start = feed + 1;
        } else {
            let width = text_width(text.substring_char(start, end));
            proof {
                assert(lines_of(rest) == seq![rest]);
                assert(seq![rest].drop_first() =~= Seq::<Seq<char>>::empty());
                assert(chars@.skip(end as int) =~= Seq::<char>::empty());
            }
            if width > best {
                best = width;
            }
            start = end;
        }
    }
    assert(chars@.skip(end as int) =~= Seq::<char>::empty());
    best
}

/// The widths of the two text columns of the table: that of the widest
/// file name and that of the widest line of a path, each cut down to 16
/// bits as the layout takes them.
pub fn constraint_len_calculator(items: &Vec<Data>) -> (lens: (u16, u16))
    ensures
        lens.0 == widest_name(items@.map_values(|row: Data| row@)) % 0x10000,
        lens.1 == widest_path_line(items@.map_values(|row: Data| row@)) % 0x10000,
{
    let mut name_len: usize = 0;
    let mut path_len: usize = 0;
    let mut i: usize = 0;
    let ghost rows = items@.map_values(|row: Data| row@);
    assert(rows.take(0) =~= Seq::<DataView>::empty());
    while i < items.len()
        invariant
            i <= items.len(),
            rows == items@.map_values(|row: Data| row@),
            name_len == widest_name(rows.take(i as int)),
            path_len == widest_path_line(rows.take(i as int)),
        decreases items.len() - i,
    {
        let name_width = text_width(items[i].file_name.as_str());
        let path_width = widest_line(items[i].file_path.as_str());
        proof {
            assert(rows.take(i + 1).drop_last() =~= rows.take(i as int));
            assert(rows.take(i + 1).last() == items@[i as int]@);
        }
        if name_width > name_len {
            name_len = name_width;
        }
        if path_width > path_len {
            path_len = path_width;
        }
        i += 1;
    }
    assert(rows.take(items.len() as int) =~= rows);
    ((name_len % 0x10000) as u16, (path_len % 0x10000) as u16)
}

/// The files that the user chose in the table, out of `code_files`, in
/// the order of `code_files`.
pub fn select_codes(code_files: Vec<CatchCLICodeFile>, table: &CodeCandidateSelector) -> (kept:
    Vec<CatchCLICodeFile>)
    ensures
        file_views(kept@) == filtered(file_views(code_files@), chosen_paths(table.rows()).to_set()),
{
    let paths = table.selected_paths();
    filter_code_files(code_files, paths)
}

} // verus!
