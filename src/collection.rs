//! Per-file extraction, the test-file naming rule, and the merge of per-file
//! outcomes into the collected result.

use vstd::prelude::*;

use crate::model::{FileItems, Found, StructuralError, SyntaxNode, TestFileContents};
use crate::syntax::{parse_module, python_syntax, reads_as, readable};
use crate::text::{ends_with, starts_with};
use crate::visitor::{file_items, visit_module};

verus! {

/// Why a file contributed nothing.
#[derive(Debug, Clone, PartialEq, Eq)]
pub enum FileError {
    /// The file could not be read; the message says why.
    Io(String),
    /// The file's syntax tree could not be read: the text of one of its
    /// leaves does not fall on character boundaries.
    Parse,
}

/// The outcome of visiting one file.
#[derive(Debug, PartialEq, Eq)]
pub struct FileOutcome {
    pub path: String,
    pub result: Result<FileItems, FileError>,
}

/// A file that contributed nothing, and why.
#[derive(Debug, Clone, PartialEq, Eq)]
pub struct FileFailure {
    pub path: String,
    pub error: FileError,
}

/// What a visited file reported beside its items: the kinds of constructs no
/// rule classifies, and the definitions whose shape could not be read.
#[derive(Debug, Clone, PartialEq, Eq)]
pub struct FileDiagnostics {
    pub path: String,
    pub unrecognized: Vec<String>,
    pub errors: Vec<StructuralError>,
}

/// The result of a whole run: the items of each visited file, that file's
/// diagnostics, and the files that failed, each in the order of discovery.
#[derive(Debug, Clone, PartialEq, Eq)]
pub struct CollectedResult {
    pub files: Vec<TestFileContents>,
    pub diagnostics: Vec<FileDiagnostics>,
    pub failures: Vec<FileFailure>,
}

/// A file that holds tests: a Python source whose name has the test prefix.
pub open spec fn is_test_file_name(name: Seq<char>) -> bool {
    "test_"@.is_prefix_of(name) && ".py"@.is_suffix_of(name)
}

/// Whether a file named `file_name` is one to collect tests from.
pub fn is_test_file(file_name: &String) -> (r: bool)
    ensures
        r == is_test_file_name(file_name@),
{
    starts_with(file_name, "test_") && ends_with(file_name, ".py")
}

/// The outcome for the file at `path` given what the parser produced for it.
pub open spec fn parsed_items(path: Seq<char>, tree: Option<SyntaxNode>) -> Result<Found, FileError> {
    match tree {
        Some(root) => Ok(file_items(root, path)),
        None => Err(FileError::Parse),
    }
}

pub open spec fn items_view(r: Result<FileItems, FileError>) -> Result<Found, FileError> {
    match r {
        Ok(items) => Ok(items@),
        Err(e) => Err(e),
    }
}

/// Collects the items of the file at `path` from what the parser produced.
pub fn items_from_tree(path: &String, tree: Option<SyntaxNode>) -> (r: Result<FileItems, FileError>)
    ensures
        items_view(r) == parsed_items(path@, tree),
{
    match tree {
        Some(root) => Ok(visit_module(&root, path)),
        None => Err(FileError::Parse),
    }
}

/// What extracting the items of the file at `path` from `source` gives: the
/// items that the rules give for the source's tree, or a parse failure
/// exactly when a leaf of that tree has unreadable text.
pub open spec fn extracted(source: Seq<char>, path: Seq<char>, r: Result<Found, FileError>) -> bool {
    &&& (r is Ok <==> readable(python_syntax(source)))
    &&& match r {
        Ok(items) => exists|root: SyntaxNode|
            #![trigger file_items(root, path)]
            reads_as(root, python_syntax(source)) && file_items(root, path) == items,
        Err(e) => e == FileError::Parse,
    }
}

/// Parses the Python `source` of the file at `path` and collects its items:
/// exactly those that the classification rules give for the source's tree.
pub fn extract_items_from_test_file(path: &String, source: &str) -> (r: Result<FileItems, FileError>)
    ensures
        extracted(source@, path@, items_view(r)),
{
    let tree = parse_module(source);
    let ghost t = tree;
    let r = items_from_tree(path, tree);
    proof {
        if let Some(root) = t {
            assert(reads_as(root, python_syntax(source@)) && file_items(root, path@) == r->Ok_0@);
        }
    }
    r
}

/// The contents of the files that were visited, in order.
pub open spec fn visited_files(os: Seq<FileOutcome>) -> Seq<TestFileContents>
    decreases os.len(),
{
    if os.len() == 0 {
        seq![]
    } else {
        let rest = visited_files(os.drop_last());
        match os.last().result {
            Ok(items) => rest.push(items.contents),
            Err(_) => rest,
        }
    }
}

/// The diagnostics of the files that were visited, in order.
pub open spec fn visited_diagnostics(os: Seq<FileOutcome>) -> Seq<FileDiagnostics>
    decreases os.len(),
{
    if os.len() == 0 {
        seq![]
    } else {
        let rest = visited_diagnostics(os.drop_last());
        match os.last().result {
            Ok(items) => rest.push(
                FileDiagnostics {
                    path: os.last().path,
                    unrecognized: items.unrecognized,
                    errors: items.errors,
                },
            ),
            Err(_) => rest,
        }
    }
}

/// The files that failed, in order.
pub open spec fn failed_files(os: Seq<FileOutcome>) -> Seq<FileFailure>
    decreases os.len(),
{
    if os.len() == 0 {
        seq![]
    } else {
        let rest = failed_files(os.drop_last());
        match os.last().result {
            Ok(_) => rest,
            Err(e) => rest.push(FileFailure { path: os.last().path, error: e }),
        }
    }
}

/// Merges per-file outcomes, in discovery order, into the collected result.
/// Nothing is merged away: equal tests from different files all stay. With
/// `fail_fast` the first failed file ends the run and is returned as the error;
/// otherwise failures are listed beside the items of the other files.
pub fn collect_items(outcomes: Vec<FileOutcome>, fail_fast: bool) -> (r: Result<CollectedResult, FileFailure>)
    ensures
        r is Err <==> fail_fast && failed_files(outcomes@).len() > 0,
        match r {
            Ok(c) => c.files@ == visited_files(outcomes@) && c.diagnostics@ == visited_diagnostics(
                outcomes@,
            ) && c.failures@ == failed_files(outcomes@),
            Err(f) => f == failed_files(outcomes@)[0],
        },
{
    let ghost os = outcomes@;
    let n = outcomes.len();
    let mut rest = outcomes;
    let mut files: Vec<TestFileContents> = Vec::new();
    let mut diagnostics: Vec<FileDiagnostics> = Vec::new();
    let mut failures: Vec<FileFailure> = Vec::new();
    let mut i: usize = 0;
    while rest.len() > 0
        invariant
            i + rest@.len() == os.len(),
            n == os.len(),
            os == outcomes@,
            rest@ == os.skip(i as int),
            files@ == visited_files(os.take(i as int)),
            diagnostics@ == visited_diagnostics(os.take(i as int)),
            failures@ == failed_files(os.take(i as int)),
            fail_fast ==> failures@.len() == 0,
        decreases rest@.len(),
    {
        assert(os.take(i + 1).drop_last() =~= os.take(i as int));
        assert(os.take(i + 1).last() == os[i as int]);
        let o = rest.remove(0);
        assert(rest@ =~= os.skip(i + 1));
        match o.result {
            Ok(items) => {
                files.push(items.contents);
                diagnostics.push(
                    FileDiagnostics { path: o.path, unrecognized: items.unrecognized, errors: items.errors },
                );
            },
            Err(e) => {
                let f = FileFailure { path: o.path, error: e };
                if fail_fast {
                    proof {
                        lemma_failures_grow(os, i as int + 1);
                        assert(failed_files(os.take(i + 1)) =~= seq![f]);
                        assert(failed_files(os).len() > 0);
                        assert(failed_files(os).subrange(0, 1)[0] == f);
                    }
                    return Err(f);
                }
                failures.push(f);
            },
        }
        i += 1;
    }
    assert(os.take(i as int) =~= os);
    Ok(CollectedResult { files, diagnostics, failures })
}

/// A failure listed from a prefix of the outcomes stays first in the list of
/// all of them.
proof fn lemma_failures_grow(os: Seq<FileOutcome>, k: int)
    requires
        0 <= k <= os.len(),
    ensures
        failed_files(os.take(k)).is_prefix_of(failed_files(os)),
    decreases os.len() - k,
{
    if k < os.len() {
        lemma_failures_grow(os, k + 1);
        assert(os.take(k + 1).drop_last() =~= os.take(k));
    } else {
        assert(os.take(k) =~= os);
    }
}

} // verus!
