//! The file indexer and the index builder.

use crate::docs::{doc_lines, lemma_summary_exists};
use crate::entry::{build_entry, entry_view, IndexEntry, IndexEntryView, Kind};
use crate::parser::{parse_source, source_declarations};
use crate::signature::{
    fn_signature, fn_text, impl_name, impl_name_text, impl_signature, impl_text, module_signature,
    module_text, trait_signature, trait_text, type_signature, type_text,
};
use crate::syntax::{Construct, ConstructView, Declaration, DeclarationView};
use vstd::prelude::*;
use vstd::string::*;

verus! {

/// The entry of the declaration `decl` of the file `file`; `None` for a
/// construct that is not indexed.
pub open spec fn entry_of(file: Seq<char>, decl: DeclarationView) -> Option<IndexEntryView> {
    let (first, last, attrs) = (decl.line_start, decl.line_end, decl.attrs);
    match decl.item {
        ConstructView::Module { name, inline } => Some(
            entry_view(Kind::Module, name, file, first, last, attrs, module_text(name, inline)),
        ),
        ConstructView::Struct { name, generics } => Some(
            entry_view(Kind::Struct, name, file, first, last, attrs, type_text(name, generics)),
        ),
        ConstructView::Enum { name, generics } => Some(
            entry_view(Kind::Enum, name, file, first, last, attrs, type_text(name, generics)),
        ),
        ConstructView::Trait { name, generics } => Some(
            entry_view(Kind::Trait, name, file, first, last, attrs, trait_text(name, generics)),
        ),
        ConstructView::Function { name, visibility, header } => Some(
            entry_view(Kind::Fn, name, file, first, last, attrs, fn_text(visibility, header)),
        ),
        ConstructView::Impl { generics, trait_path, self_ty } => Some(
            entry_view(
                Kind::Impl,
                impl_name_text(trait_path, self_ty),
                file,
                first,
                last,
                attrs,
                impl_text(generics, trait_path, self_ty),
            ),
        ),
        ConstructView::Other => None,
    }
}

/// The entries of a file: one for each indexed declaration, in source
/// order.
pub open spec fn file_entries(file: Seq<char>, decls: Seq<DeclarationView>) -> Seq<
    IndexEntryView,
> {
    decls.filter_map(|decl: DeclarationView| entry_of(file, decl))
}

/// Whether a declaration is of one of the six indexed classes.
pub open spec fn indexed(decl: DeclarationView) -> bool {
    !(decl.item is Other)
}

/// The entries of a file are those of its indexed declarations, one each
/// and in the same order: a construct that is not indexed adds nothing, and
/// a file that holds no indexed declaration has no entry.
pub proof fn lemma_entries_follow_declarations(file: Seq<char>, decls: Seq<DeclarationView>)
    ensures
        file_entries(file, decls) == decls.filter(|decl: DeclarationView| indexed(decl)).map_values(
            |decl: DeclarationView| entry_of(file, decl)->0,
        ),
        file_entries(file, decls).len() == decls.filter(
            |decl: DeclarationView| indexed(decl),
        ).len(),
        (forall|i: int| 0 <= i < decls.len() ==> !indexed(#[trigger] decls[i])) ==> file_entries(
            file,
            decls,
        ).len() == 0,
    decreases decls.len(),
{
    let keep = |decl: DeclarationView| indexed(decl);
    let entry = |decl: DeclarationView| entry_of(file, decl)->0;
    reveal(Seq::filter);
    if decls.len() > 0 {
        let rest = decls.drop_last();
        lemma_entries_follow_declarations(file, rest);
        if indexed(decls.last()) {
            assert(decls.filter(keep).map_values(entry) =~= rest.filter(keep).map_values(
                entry,
            ).push(entry(decls.last())));
            assert(file_entries(file, decls) =~= file_entries(file, rest).push(
                entry(decls.last()),
            ));
        }
        assert forall|i: int| 0 <= i < rest.len() implies rest[i] == decls[i] by {}
    } else {
    }
}

/// Every entry of a file names that file, has one of the six kinds, and
/// has no summary without a documentation block; its lines are those of its
/// declaration, so they are in order wherever the declaration's are.
pub proof fn lemma_entries_well_formed(file: Seq<char>, decls: Seq<DeclarationView>)
    requires
        forall|i: int|
            0 <= i < decls.len() ==> (#[trigger] decls[i]).line_start <= decls[i].line_end,
    ensures
        forall|k: int|
            0 <= k < file_entries(file, decls).len() ==> {
                &&& (#[trigger] file_entries(file, decls)[k]).wf()
                &&& file_entries(file, decls)[k].file == file
            },
    decreases decls.len(),
{
    if decls.len() > 0 {
        let rest = decls.drop_last();
        let last = decls.last();
        assert forall|i: int| 0 <= i < rest.len() implies (#[trigger] rest[i]).line_start
            <= rest[i].line_end by {}
        lemma_entries_well_formed(file, rest);
        lemma_summary_exists(doc_lines(last.attrs));
    }
}

/// The entry of one declaration, or `None` where the construct is not
/// indexed.
pub fn index_declaration(file: &str, decl: &Declaration) -> (r: Option<IndexEntry>)
    ensures
        r.deep_view() == entry_of(file@, decl@),
        r matches Some(entry) ==> entry@.wf(),
{
    let attrs = &decl.attrs;
    let span = &decl.span;
    match &decl.item {
        Construct::Module { name, inline } => Some(
            build_entry(
                Kind::Module,
                name.as_str(),
                file,
                span,
                attrs,
                module_signature(name.as_str(), *inline),
            ),
        ),
        Construct::Struct { name, generics } => Some(
            build_entry(
                Kind::Struct,
                name.as_str(),
                file,
                span,
                attrs,
                type_signature(name.as_str(), generics),
            ),
        ),
        Construct::Enum { name, generics } => Some(
            build_entry(
                Kind::Enum,
                name.as_str(),
                file,
                span,
                attrs,
                type_signature(name.as_str(), generics),
            ),
        ),
        Construct::Trait { name, generics } => Some(
            build_entry(
                Kind::Trait,
                name.as_str(),
                file,
                span,
                attrs,
                trait_signature(name.as_str(), generics),
            ),
        ),
        Construct::Function { name, visibility, header } => Some(
            build_entry(
                Kind::Fn,
                name.as_str(),
                file,
                span,
                attrs,
                fn_signature(visibility.as_str(), header.as_str()),
            ),
        ),
        Construct::Impl { generics, trait_path, self_ty } => Some(
            build_entry(
                Kind::Impl,
                impl_name(trait_path, self_ty.as_str()).as_str(),
                file,
                span,
                attrs,
                impl_signature(generics, trait_path, self_ty.as_str()),
            ),
        ),
        Construct::Other => None,
    }
}

/// The entries of the file `file` with the top-level declarations `decls`:
/// one for each indexed declaration, in source order; a construct that is
/// not indexed leaves no trace.
pub fn index_file(file: &str, decls: &Vec<Declaration>) -> (r: Vec<IndexEntry>)
    ensures
        r.deep_view() == file_entries(file@, decls.deep_view()),
        forall|i: int| 0 <= i < r.len() ==> (#[trigger] r[i])@.wf(),
{
    let mut entries: Vec<IndexEntry> = Vec::new();
    let mut i: usize = 0;
    while i < decls.len()
        invariant
            i <= decls.len(),
            entries.deep_view() == file_entries(file@, decls.deep_view().take(i as int)),
            forall|k: int| 0 <= k < entries.len() ==> (#[trigger] entries[k])@.wf(),
        decreases decls.len() - i,
    {
        proof {
            decls.deep_view().lemma_filter_map_take_succ(
                |decl: DeclarationView| entry_of(file@, decl),
                i as int,
            );
        }
        if let Some(entry) = index_declaration(file, &decls[i]) {
            entries.push(entry);
        }
        i = i + 1;
    }
    assert(decls.deep_view().take(i as int) =~= decls.deep_view());
    entries
}

/// Why no index could be built.
#[derive(Debug, Clone, PartialEq, Eq)]
pub enum IndexError {
    /// The project has no source directory at `path`.
    MissingSourceDir { path: String },
    /// The text of the source file `file` is not valid; `message` says
    /// why.
    Parse { file: String, message: String },
}

/// The mathematical value of an [`IndexError`].
pub enum IndexErrorView {
    MissingSourceDir { path: Seq<char> },
    Parse { file: Seq<char>, message: Seq<char> },
}

impl View for IndexError {
    type V = IndexErrorView;

    open spec fn view(&self) -> IndexErrorView {
        match *self {
            IndexError::MissingSourceDir { path } => IndexErrorView::MissingSourceDir {
                path: path@,
            },
            IndexError::Parse { file, message } => IndexErrorView::Parse {
                file: file@,
                message: message@,
            },
        }
    }
}

/// The text of an error, as it is shown to the user.
pub open spec fn error_text(err: IndexErrorView) -> Seq<char> {
    match err {
        IndexErrorView::MissingSourceDir { path } => path + " is not a directory"@,
        IndexErrorView::Parse { file, message } => file + ": "@ + message,
    }
}

impl IndexError {
    /// One line that describes the error.
    pub fn message(&self) -> (r: String)
        ensures
            r@ == error_text(self@),
    {
        match self {
            IndexError::MissingSourceDir { path } => {
                let mut out = path.clone();
                out.append(" is not a directory");
                out
            },
            IndexError::Parse { file, message } => {
                let mut out = file.clone();
                out.append(": ");
                out.append(message.as_str());
                out
            },
        }
    }
}

/// One source file of a project, as it was read.
#[derive(Debug, Clone, PartialEq, Eq)]
pub struct SourceFile {
    /// The file's path relative to the project root.
    pub path: String,
    /// The file's whole text.
    pub text: String,
}

/// The mathematical value of a [`SourceFile`].
pub struct SourceFileView {
    pub path: Seq<char>,
    pub text: Seq<char>,
}

impl View for SourceFile {
    type V = SourceFileView;

    open spec fn view(&self) -> SourceFileView {
        SourceFileView { path: self.path@, text: self.text@ }
    }
}

impl DeepView for SourceFile {
    type V = SourceFileView;

    open spec fn deep_view(&self) -> SourceFileView {
        self@
    }
}

/// A project as it was found on disk.
#[derive(Debug, Clone, PartialEq, Eq)]
pub struct Project {
    /// The path of the directory that holds the project's sources.
    pub source_dir: String,
    /// Whether `source_dir` exists and is a directory.
    pub source_dir_found: bool,
    /// The source files under `source_dir`, in the order in which they
    /// were found.
    pub files: Vec<SourceFile>,
}

/// The mathematical value of a [`Project`].
pub struct ProjectView {
    pub source_dir: Seq<char>,
    pub source_dir_found: bool,
    pub files: Seq<SourceFileView>,
}

impl View for Project {
    type V = ProjectView;

    open spec fn view(&self) -> ProjectView {
        ProjectView {
            source_dir: self.source_dir@,
            source_dir_found: self.source_dir_found,
            files: self.files.deep_view(),
        }
    }
}

/// The outcome of indexing, as a mathematical value.
pub type Outcome = Result<Seq<IndexEntryView>, IndexErrorView>;

/// The mathematical value of what an indexing function returns.
pub open spec fn outcome_view(r: Result<Vec<IndexEntry>, IndexError>) -> Outcome {
    match r {
        Ok(entries) => Ok(entries.deep_view()),
        Err(err) => Err(err@),
    }
}

/// The index of one source file: the entries of the declarations that the
/// parser finds in `text`, or a parse error that names the file.
pub open spec fn source_index(path: Seq<char>, text: Seq<char>) -> Outcome {
    match source_declarations(text) {
        Ok(decls) => Ok(file_entries(path, decls)),
        Err(message) => Err(IndexErrorView::Parse { file: path, message }),
    }
}

/// The index of some source files: the entries of each, file after file,
/// or the error of the first file that has one.
pub open spec fn files_index(files: Seq<SourceFileView>) -> Outcome
    decreases files.len(),
{
    if files.len() == 0 {
        Ok(Seq::empty())
    } else {
        match files_index(files.drop_last()) {
            Err(err) => Err(err),
            Ok(entries) => match source_index(files.last().path, files.last().text) {
                Err(err) => Err(err),
                Ok(more) => Ok(entries + more),
            },
        }
    }
}

/// The index of a project: that of its source files, unless it has no
/// source directory.
pub open spec fn project_index(project: ProjectView) -> Outcome {
    if project.source_dir_found {
        files_index(project.files)
    } else {
        Err(IndexErrorView::MissingSourceDir { path: project.source_dir })
    }
}

/// Indexing fails fast: where some file has an error, the outcome is the
/// error of the first such file; where none has, it is the entries of all
/// files in order.
pub proof fn lemma_first_failure(files: Seq<SourceFileView>)
    ensures
        match files_index(files) {
            Err(err) => exists|i: int|
                {
                    &&& 0 <= i < files.len()
                    &&& #[trigger] source_index(files[i].path, files[i].text) == Err::<
                        Seq<IndexEntryView>,
                        IndexErrorView,
                    >(err)
                    &&& forall|j: int|
                        0 <= j < i ==> (#[trigger] source_index(files[j].path, files[j].text)) is Ok
                },
            Ok(entries) => {
                &&& forall|i: int|
                    0 <= i < files.len() ==> (#[trigger] source_index(
                        files[i].path,
                        files[i].text,
                    )) is Ok
                &&& entries == Seq::new(
                    files.len(),
                    |i: int| source_index(files[i].path, files[i].text)->Ok_0,
                ).flatten()
            },
        },
    decreases files.len(),
{
    if files.len() > 0 {
        let rest = files.drop_last();
        let last = files.last();
        lemma_first_failure(rest);
        assert forall|i: int| 0 <= i < rest.len() implies rest[i] == files[i] by {}
        match files_index(rest) {
            Err(err) => {
                let i = choose|i: int|
                    {
                        &&& 0 <= i < rest.len()
                        &&& #[trigger] source_index(rest[i].path, rest[i].text) == Err::<
                            Seq<IndexEntryView>,
                            IndexErrorView,
                        >(err)
                        &&& forall|j: int|
                            0 <= j < i ==> (#[trigger] source_index(
                                rest[j].path,
                                rest[j].text,
                            )) is Ok
                    };
                assert forall|j: int| 0 <= j < i implies (#[trigger] source_index(
                    files[j].path,
                    files[j].text,
                )) is Ok by {}
            },
            Ok(entries) => {
                assert forall|j: int| 0 <= j < rest.len() implies (#[trigger] source_index(
                    files[j].path,
                    files[j].text,
                )) is Ok by {}
                if let Ok(more) = source_index(last.path, last.text) {
                    let before = Seq::new(
                        rest.len(),
                        |i: int| source_index(rest[i].path, rest[i].text)->Ok_0,
                    );
                    let all = Seq::new(
                        files.len(),
                        |i: int| source_index(files[i].path, files[i].text)->Ok_0,
                    );
                    assert(all =~= before.push(more));
                    before.lemma_flatten_push(more);
                }
            },
        }
    } else {
        assert(Seq::new(
            files.len(),
            |i: int| source_index(files[i].path, files[i].text)->Ok_0,
        ) =~= Seq::<Seq<IndexEntryView>>::empty());
    }
}

/// Every entry of an index names one of the files and is well formed.
pub proof fn lemma_index_well_formed(files: Seq<SourceFileView>)
    ensures
        files_index(files) matches Ok(entries) ==> forall|k: int|
            0 <= k < entries.len() ==> {
                &&& (#[trigger] entries[k]).wf()
                &&& exists|i: int|
                    0 <= i < files.len() && entries[k].file == (#[trigger] files[i]).path
            },
    decreases files.len(),
{
    if files.len() > 0 {
        let rest = files.drop_last();
        let last = files.last();
        lemma_index_well_formed(rest);
        if let Ok(entries) = files_index(files) {
            let before = files_index(rest)->Ok_0;
            let decls = source_declarations(last.text)->Ok_0;
            lemma_entries_well_formed(last.path, decls);
            assert forall|k: int| 0 <= k < entries.len() implies {
                &&& (#[trigger] entries[k]).wf()
                &&& exists|i: int|
                    0 <= i < files.len() && entries[k].file == (#[trigger] files[i]).path
            } by {
                if k < before.len() {
                    let i = choose|i: int|
                        0 <= i < rest.len() && before[k].file == (#[trigger] rest[i]).path;
                    assert(files[i] == rest[i]);
                } else {
                    assert(files[files.len() - 1] == last);
                }
            }
        }
    }
}

/// The index of a project depends on nothing but its source files, their
/// paths, texts and order: two projects that agree on those have the same
/// index, so indexing an unchanged project again changes nothing.
pub proof fn lemma_index_of_unchanged_sources(first: ProjectView, second: ProjectView)
    requires
        first.source_dir_found,
        second.source_dir_found,
        first.files == second.files,
    ensures
        project_index(first) == project_index(second),
{
}

/// Parses the text of one source file and indexes its declarations: the
/// entries of the declarations that the parser finds, in source order, or
/// a parse error that names the file.
pub fn index_source(path: &str, text: &str) -> (r: Result<Vec<IndexEntry>, IndexError>)
    ensures
        outcome_view(r) == source_index(path@, text@),
        r matches Ok(entries) ==> forall|i: int|
            0 <= i < entries.len() ==> (#[trigger] entries[i])@.wf(),
{
    match parse_source(text) {
        Ok(decls) => Ok(index_file(path, &decls)),
        Err(message) => Err(IndexError::Parse { file: path.to_owned(), message }),
    }
}

/// Builds the index of a project: the entries of every source file, file
/// after file in the order given, and within a file in source order.
///
/// Fails with `MissingSourceDir` exactly when the source directory was not
/// found, and otherwise with `Parse` for the first file that has an error;
/// there is no partial index.
pub fn build_index(project: &Project) -> (r: Result<Vec<IndexEntry>, IndexError>)
    ensures
        outcome_view(r) == project_index(project@),
        !project.source_dir_found <==> (r matches Err(IndexError::MissingSourceDir { .. })),
        project.source_dir_found && project.files.len() == 0 ==> (r matches Ok(entries)
            && entries.len() == 0),
        r matches Ok(entries) ==> forall|i: int|
            0 <= i < entries.len() ==> (#[trigger] entries[i])@.wf(),
{
    if !project.source_dir_found {
        return Err(IndexError::MissingSourceDir { path: project.source_dir.clone() });
    }
    let files = &project.files;
    let mut entries: Vec<IndexEntry> = Vec::new();
    let mut i: usize = 0;
    assert(entries.deep_view() =~= Seq::<IndexEntryView>::empty());
    while i < files.len()
        invariant
            i <= files.len(),
            i == 0 ==> entries.len() == 0,
            project.source_dir_found,
            *files == project.files,
            files_index(files.deep_view().take(i as int)) == Ok::<
                Seq<IndexEntryView>,
                IndexErrorView,
            >(entries.deep_view()),
            forall|k: int| 0 <= k < entries.len() ==> (#[trigger] entries[k])@.wf(),
        decreases files.len() - i,
    {
        let file = &files[i];
        assert(files.deep_view().take(i + 1).drop_last() =~= files.deep_view().take(i as int));
        match index_source(file.path.as_str(), file.text.as_str()) {
            Err(err) => {
                proof {
                    lemma_failure_stays(files.deep_view(), i + 1);
                }
                return Err(err);
            },
            Ok(mut found) => {
                let ghost old_entries = entries.deep_view();
                let ghost added = found.deep_view();
                entries.append(&mut found);
                assert(entries.deep_view() =~= old_entries + added);
            },
        }
        i = i + 1;
    }
    assert(files.deep_view().take(i as int) =~= files.deep_view());
    Ok(entries)
}

/// Once the first `n` files have an error, so have all: the outcome is the
/// same error.
proof fn lemma_failure_stays(files: Seq<SourceFileView>, n: int)
    requires
        0 <= n <= files.len(),
        files_index(files.take(n)) is Err,
    ensures
        files_index(files) == files_index(files.take(n)),
    decreases files.len() - n,
{
    if n < files.len() {
        assert(files.take(n + 1).drop_last() =~= files.take(n));
        lemma_failure_stays(files, n + 1);
    } else {
        assert(files.take(n) =~= files);
    }
}

} // verus!
