//! The apt package-source list: the debian source-line grammar, the scan
//! over source files, and the flattened repository list. Reading the
//! directory and the file contents is the embedding program's job; it hands
//! the lines in here as plain strings.
use vstd::prelude::*;
use vstd::string::StrSliceExecFns;

verus! {

/// One recorded source entry: the raw line and whether it is active
/// (not commented out).
#[derive(Debug)]
pub struct AptSource {
    pub _enabled: bool,
    pub uri: String,
}

/// The entries found in one source-list file.
#[derive(Debug)]
pub struct AptList {
    pub file_path: String,
    pub sources: Vec<AptSource>,
}

/// All source-list files scanned so far.
#[derive(Debug)]
pub struct AptRepositories {
    pub initialized: bool,
    pub items: Vec<AptList>,
}

/// One file handed in for scanning: its path and its text lines.
#[derive(Debug)]
pub struct SourceFile {
    pub path: String,
    pub lines: Vec<String>,
}

pub ghost struct AptSourceModel {
    pub enabled: bool,
    pub uri: Seq<char>,
}

pub ghost struct AptListModel {
    pub file_path: Seq<char>,
    pub sources: Seq<AptSourceModel>,
}

pub ghost struct AptRepositoriesModel {
    pub initialized: bool,
    pub items: Seq<AptListModel>,
}

pub ghost struct SourceFileModel {
    pub path: Seq<char>,
    pub lines: Seq<Seq<char>>,
}

impl View for AptSource {
    type V = AptSourceModel;

    open spec fn view(&self) -> AptSourceModel {
        AptSourceModel { enabled: self._enabled, uri: self.uri@ }
    }
}

impl View for AptList {
    type V = AptListModel;

    open spec fn view(&self) -> AptListModel {
        AptListModel {
            file_path: self.file_path@,
            sources: self.sources@.map_values(|s: AptSource| s@),
        }
    }
}

impl View for AptRepositories {
    type V = AptRepositoriesModel;

    open spec fn view(&self) -> AptRepositoriesModel {
        AptRepositoriesModel {
            initialized: self.initialized,
            items: self.items@.map_values(|l: AptList| l@),
        }
    }
}

impl View for SourceFile {
    type V = SourceFileModel;

    open spec fn view(&self) -> SourceFileModel {
        SourceFileModel { path: self.path@, lines: self.lines@.map_values(|l: String| l@) }
    }
}

/// Line-internal whitespace in the source-line grammar.
pub open spec fn is_space(c: char) -> bool {
    c == ' ' || c == '\t'
}

/// The index just past the run of whitespace beginning at `i`.
pub open spec fn skip_spaces(s: Seq<char>, i: int) -> int
    decreases s.len() - i,
    when 0 <= i <= s.len()
{
    if i < s.len() && is_space(s[i]) {
        skip_spaces(s, i + 1)
    } else {
        i
    }
}

/// The index just past the run of `#` characters beginning at `i`.
pub open spec fn skip_hashes(s: Seq<char>, i: int) -> int
    decreases s.len() - i,
    when 0 <= i <= s.len()
{
    if i < s.len() && s[i] == '#' {
        skip_hashes(s, i + 1)
    } else {
        i
    }
}

proof fn lemma_skip_spaces_bounds(s: Seq<char>, i: int)
    requires
        0 <= i <= s.len(),
    ensures
        i <= skip_spaces(s, i) <= s.len(),
    decreases s.len() - i,
{
    if i < s.len() && is_space(s[i]) {
        lemma_skip_spaces_bounds(s, i + 1);
    }
}

proof fn lemma_skip_hashes_bounds(s: Seq<char>, i: int)
    requires
        0 <= i <= s.len(),
    ensures
        i <= skip_hashes(s, i) <= s.len(),
    decreases s.len() - i,
{
    if i < s.len() && s[i] == '#' {
        lemma_skip_hashes_bounds(s, i + 1);
    }
}

/// The commented-or-active debian source-entry grammar: optional leading
/// whitespace, an optional run of `#`, optional whitespace again, then the
/// literal word `deb`.
pub open spec fn spec_is_source_line(s: Seq<char>) -> bool {
    let a = skip_spaces(s, 0);
    let b = skip_hashes(s, a);
    let c = skip_spaces(s, b);
    c + 3 <= s.len() && s[c] == 'd' && s[c + 1] == 'e' && s[c + 2] == 'b'
}

/// A recorded line counts as enabled unless it starts with `#`.
pub open spec fn spec_line_enabled(s: Seq<char>) -> bool {
    !(s.len() > 0 && s[0] == '#')
}

fn is_space_char(c: char) -> (r: bool)
    ensures
        r == is_space(c),
{
    c == ' ' || c == '\t'
}

/// Whether one text line is a commented-or-active debian source entry.
pub fn is_source_line(line: &str) -> (r: bool)
    ensures
        r == spec_is_source_line(line@),
{
    let n = line.unicode_len();
    let mut i: usize = 0;
    while i < n && is_space_char(line.get_char(i))
        invariant
            0 <= i <= n,
            n == line@.len(),
            skip_spaces(line@, 0) == skip_spaces(line@, i as int),
        decreases n - i,
    {
        i += 1;
    }
    proof {
        assert(skip_spaces(line@, 0) == i as int);
    }
    while i < n && line.get_char(i) == '#'
        invariant
            0 <= i <= n,
            n == line@.len(),
            skip_hashes(line@, skip_spaces(line@, 0)) == skip_hashes(line@, i as int),
        decreases n - i,
    {
        i += 1;
    }
    proof {
        assert(skip_hashes(line@, skip_spaces(line@, 0)) == i as int);
    }
    while i < n && is_space_char(line.get_char(i))
        invariant
            0 <= i <= n,
            n == line@.len(),
            skip_spaces(line@, skip_hashes(line@, skip_spaces(line@, 0))) == skip_spaces(
                line@,
                i as int,
            ),
        decreases n - i,
    {
        i += 1;
    }
    proof {
        assert(skip_spaces(line@, skip_hashes(line@, skip_spaces(line@, 0))) == i as int);
    }
    if n - i >= 3 {
        line.get_char(i) == 'd' && line.get_char(i + 1) == 'e' && line.get_char(i + 2) == 'b'
    } else {
        false
    }
}

/// Whether a recorded line is active rather than commented out.
pub fn line_enabled(line: &str) -> (r: bool)
    ensures
        r == spec_line_enabled(line@),
{
    if line.unicode_len() == 0 {
        true
    } else {
        line.get_char(0) != '#'
    }
}

/// The source entries one file's lines yield, in line order: every line
/// matching the grammar, kept verbatim, marked enabled unless commented.
pub open spec fn spec_scan_lines(lines: Seq<Seq<char>>) -> Seq<AptSourceModel>
    decreases lines.len(),
{
    if lines.len() == 0 {
        Seq::empty()
    } else {
        let rest = spec_scan_lines(lines.drop_last());
        let l = lines.last();
        if spec_is_source_line(l) {
            rest.push(AptSourceModel { enabled: spec_line_enabled(l), uri: l })
        } else {
            rest
        }
    }
}

/// Scan one file's lines into its entry list.
pub fn scan_file(path: String, lines: &Vec<String>) -> (r: AptList)
    ensures
        r@.file_path == path@,
        r@.sources == spec_scan_lines(lines@.map_values(|l: String| l@)),
{
    let ghost all: Seq<Seq<char>> = lines@.map_values(|l: String| l@);
    let mut sources: Vec<AptSource> = Vec::new();
    let mut i: usize = 0;
    while i < lines.len()
        invariant
            0 <= i <= lines.len(),
            all == lines@.map_values(|l: String| l@),
            sources@.map_values(|s: AptSource| s@) == spec_scan_lines(all.take(i as int)),
        decreases lines.len() - i,
    {
        let line: &String = &lines[i];
        if is_source_line(line.as_str()) {
            let entry = AptSource { _enabled: line_enabled(line.as_str()), uri: line.clone() };
            sources.push(entry);
        }
        proof {
            assert(all.take(i + 1).drop_last() =~= all.take(i as int));
            assert(all.take(i + 1).last() == all[i as int]);
            assert(all[i as int] == lines@[i as int]@);
            assert(sources@.map_values(|s: AptSource| s@) =~= spec_scan_lines(all.take(i + 1)));
        }
        i += 1;
    }
    proof {
        assert(all.take(lines@.len() as int) =~= all);
    }
    AptList { file_path: path, sources }
}

/// The model of a handed-in file list.
pub open spec fn files_view(files: Seq<SourceFile>) -> Seq<SourceFileModel> {
    files.map_values(|f: SourceFile| f@)
}

/// The per-file entry lists a scan of `files` yields, in hand-in order.
pub open spec fn spec_scan_files(files: Seq<SourceFileModel>) -> Seq<AptListModel>
    decreases files.len(),
{
    if files.len() == 0 {
        Seq::empty()
    } else {
        spec_scan_files(files.drop_last()).push(
            AptListModel {
                file_path: files.last().path,
                sources: spec_scan_lines(files.last().lines),
            },
        )
    }
}

/// How many source entries a scan of `files` yields in all.
pub open spec fn spec_total_sources(files: Seq<SourceFileModel>) -> nat
    decreases files.len(),
{
    if files.len() == 0 {
        0
    } else {
        spec_total_sources(files.drop_last()) + spec_scan_lines(files.last().lines).len()
    }
}

proof fn lemma_total_sources_take_le(files: Seq<SourceFileModel>, i: int)
    requires
        0 <= i <= files.len(),
    ensures
        spec_total_sources(files.take(i)) <= spec_total_sources(files),
    decreases files.len() - i,
{
    if i < files.len() {
        lemma_total_sources_take_le(files, i + 1);
        assert(files.take(i + 1).drop_last() =~= files.take(i));
    } else {
        assert(files.take(i) =~= files);
    }
}

/// The flattened repository list: every recorded line, in file-then-line
/// order.
pub open spec fn spec_repository_uris(items: Seq<AptListModel>) -> Seq<Seq<char>>
    decreases items.len(),
{
    if items.len() == 0 {
        Seq::empty()
    } else {
        spec_repository_uris(items.drop_last()) + items.last().sources.map_values(
            |s: AptSourceModel| s.uri,
        )
    }
}

impl AptRepositories {
    /// A fresh store: nothing scanned yet.
    pub fn new() -> (r: Self)
        ensures
            r@.initialized == false,
            r@.items == Seq::<AptListModel>::empty(),
    {
        AptRepositories { initialized: false, items: Vec::new() }
    }

    /// Scan the handed-in source files and append their entry lists,
    /// returning how many source entries were recorded. Marks the store
    /// initialized so the scan is not repeated.
    pub fn load_from_files(&mut self, files: &Vec<SourceFile>) -> (count: usize)
        requires
            spec_total_sources(files_view(files@)) <= usize::MAX,
        ensures
            final(self)@.initialized == true,
            final(self)@.items == old(self)@.items + spec_scan_files(
                files@.map_values(|f: SourceFile| f@),
            ),
            count == spec_total_sources(files@.map_values(|f: SourceFile| f@)),
    {
        let ghost all: Seq<SourceFileModel> = files@.map_values(|f: SourceFile| f@);
        let mut count: usize = 0;
        let mut i: usize = 0;
        while i < files.len()
            invariant
                0 <= i <= files.len(),
                all == files@.map_values(|f: SourceFile| f@),
                spec_total_sources(all) <= usize::MAX,
                count == spec_total_sources(all.take(i as int)),
                self@.items == old(self)@.items + spec_scan_files(all.take(i as int)),
                self@.initialized == old(self)@.initialized,
            decreases files.len() - i,
        {
            let file: &SourceFile = &files[i];
            let list = scan_file(file.path.clone(), &file.lines);
            proof {
                assert(all.take(i + 1).drop_last() =~= all.take(i as int));
                assert(all.take(i + 1).last() == all[i as int]);
                assert(all[i as int] == files@[i as int]@);
                lemma_total_sources_take_le(all, i + 1);
                assert(list@.sources.len() == spec_scan_lines(all[i as int].lines).len());
            }
            let added = list.sources.len();
            count += added;
            let ghost prev_items = self.items@;
            let ghost list_model = list@;
            self.items.push(list);
            proof {
                assert(self.items@ == prev_items.push(list));
                assert(self.items@.map_values(|l: AptList| l@) =~= prev_items.map_values(
                    |l: AptList| l@,
                ).push(list_model));
                assert(spec_scan_files(all.take(i + 1)) == spec_scan_files(all.take(i as int)).push(
                    list_model,
                ));
                assert(self@.items =~= old(self)@.items + spec_scan_files(all.take(i + 1)));
            }
            i += 1;
        }
        self.initialized = true;
        proof {
            assert(all.take(files@.len() as int) =~= all);
        }
        count
    }

    /// The flattened repository list: every recorded source line, in
    /// file-then-line (insertion) order; empty until a scan has run.
    pub fn get_repository_list(&self) -> (r: Vec<String>)
        ensures
            r@.map_values(|s: String| s@) == spec_repository_uris(self@.items),
    {
        let ghost items: Seq<AptListModel> = self@.items;
        let mut r: Vec<String> = Vec::new();
        let mut i: usize = 0;
        while i < self.items.len()
            invariant
                0 <= i <= self.items.len(),
                items == self@.items,
                r@.map_values(|s: String| s@) == spec_repository_uris(items.take(i as int)),
            decreases self.items.len() - i,
        {
            let list: &AptList = &self.items[i];
            let mut j: usize = 0;
            while j < list.sources.len()
                invariant
                    0 <= j <= list.sources.len(),
                    items == self@.items,
                    i < self.items.len(),
                    list == &self.items[i as int],
                    r@.map_values(|s: String| s@) == spec_repository_uris(items.take(i as int))
                        + list@.sources.map_values(|s: AptSourceModel| s.uri).take(j as int),
                decreases list.sources.len() - j,
            {
                let ghost prev_r = r@;
                r.push(list.sources[j].uri.clone());
                proof {
                    let uris = list@.sources.map_values(|s: AptSourceModel| s.uri);
                    assert(uris[j as int] == list@.sources[j as int].uri);
                    assert(list@.sources[j as int] == list.sources@[j as int]@);
                    assert(r@ == prev_r.push(r@[r@.len() - 1]));
                    assert(r@[r@.len() - 1]@ == uris[j as int]);
                    assert(r@.map_values(|s: String| s@) =~= prev_r.map_values(|s: String| s@).push(
                        uris[j as int],
                    ));
                    assert(uris.take(j + 1) =~= uris.take(j as int).push(uris[j as int]));
                    assert(r@.map_values(|s: String| s@) =~= spec_repository_uris(
                        items.take(i as int),
                    ) + uris.take(j + 1));
                }
                j += 1;
            }
            proof {
                let uris = list@.sources.map_values(|s: AptSourceModel| s.uri);
                assert(uris.take(list.sources@.len() as int) =~= uris);
                assert(items.take(i + 1).drop_last() =~= items.take(i as int));
                assert(items.take(i + 1).last() == items[i as int]);
                assert(items[i as int] == self.items@[i as int]@);
                assert(r@.map_values(|s: String| s@) =~= spec_repository_uris(items.take(i + 1)));
            }
            i += 1;
        }
        proof {
            assert(items.take(self.items@.len() as int) =~= items);
        }
        r
    }

    /// How many source entries are recorded in all.
    pub fn source_count(&self) -> (r: usize)
        ensures
            r == spec_repository_uris(self@.items).len(),
    {
        let list = self.get_repository_list();
        list.len()
    }
}

impl Default for AptRepositories {
    fn default() -> (r: Self)
        ensures
            r@.initialized == false,
            r@.items == Seq::<AptListModel>::empty(),
    {
        AptRepositories { initialized: false, items: Vec::new() }
    }
}

} // verus!
