//! The source stager: which files of a submission are held aside, and which
//! canonical tests and libraries are copied in.
use vstd::prelude::*;
use crate::names::{is_java_file, is_java_source, is_library_archive, is_library_file, is_test_file, is_test_name};

verus! {

/// Subdirectory of a submission that receives the tests its author wrote.
pub const STUDENT_TESTS_DIR: &'static str = "student_tests";

/// One entry of a directory listing.
pub struct DirEntry {
    pub name: String,
    pub is_file: bool,
}

impl DirEntry {
    pub fn new(name: String, is_file: bool) -> (r: DirEntry)
        ensures
            r.name == name,
            r.is_file == is_file,
    {
        DirEntry { name, is_file }
    }
}

/// The kinds of file that the pipeline picks out of a listing.
#[derive(Clone, Copy, Debug, PartialEq, Eq)]
pub enum FileKind {
    /// A test file by the naming convention.
    Test,
    /// A test file that is not a library archive.
    CanonicalTest,
    /// A library archive.
    Library,
    /// A Java source that is not a test.
    Source,
    /// Any Java source.
    Java,
    /// A Java source that is a test.
    TestSource,
}

/// Whether a file of the given name is of the given kind.
pub open spec fn kind_holds(kind: FileKind, name: Seq<char>) -> bool {
    match kind {
        FileKind::Test => is_test_name(name),
        FileKind::CanonicalTest => is_test_name(name) && !is_library_archive(name),
        FileKind::Library => is_library_archive(name),
        FileKind::Source => is_java_source(name) && !is_test_name(name),
        FileKind::Java => is_java_source(name),
        FileKind::TestSource => is_java_source(name) && is_test_name(name),
    }
}

/// Names of the regular files of `listing` that are of the given kind, in
/// listing order.
pub open spec fn select(listing: Seq<DirEntry>, kind: FileKind) -> Seq<Seq<char>>
    decreases listing.len(),
{
    if listing.len() == 0 {
        Seq::empty()
    } else {
        let rest = select(listing.drop_last(), kind);
        let e = listing.last();
        if e.is_file && kind_holds(kind, e.name@) {
            rest.push(e.name@)
        } else {
            rest
        }
    }
}

/// Every name that `select` returns is of the kind asked for.
pub proof fn lemma_selected_kind(listing: Seq<DirEntry>, kind: FileKind, i: int)
    requires
        0 <= i < select(listing, kind).len(),
    ensures
        kind_holds(kind, select(listing, kind)[i]),
    decreases listing.len(),
{
    if listing.len() > 0 {
        let rest = select(listing.drop_last(), kind);
        if i < rest.len() {
            lemma_selected_kind(listing.drop_last(), kind, i);
        }
    }
}

/// `select` returns the name of every regular file of the kind asked for.
pub proof fn lemma_select_keeps(listing: Seq<DirEntry>, kind: FileKind, k: int)
    requires
        0 <= k < listing.len(),
        listing[k].is_file,
        kind_holds(kind, listing[k].name@),
    ensures
        select(listing, kind).contains(listing[k].name@),
    decreases listing.len(),
{
    let rest = select(listing.drop_last(), kind);
    if k == listing.len() - 1 {
        assert(select(listing, kind) == rest.push(listing[k].name@));
        assert(select(listing, kind)[rest.len() as int] == listing[k].name@);
    } else {
        assert(listing.drop_last()[k] == listing[k]);
        lemma_select_keeps(listing.drop_last(), kind, k);
        let j = choose|j: int| 0 <= j < rest.len() && rest[j] == listing[k].name@;
        assert(select(listing, kind)[j] == listing[k].name@);
    }
}

/// Whether a file of the given name is of the given kind.
pub fn is_kind(kind: FileKind, name: &str) -> (r: bool)
    ensures
        r == kind_holds(kind, name@),
{
    match kind {
        FileKind::Test => is_test_file(name),
        FileKind::CanonicalTest => is_test_file(name) && !is_library_file(name),
        FileKind::Library => is_library_file(name),
        FileKind::Source => is_java_file(name) && !is_test_file(name),
        FileKind::Java => is_java_file(name),
        FileKind::TestSource => is_java_file(name) && is_test_file(name),
    }
}

/// Names of the regular files of `listing` that are of the given kind, in
/// listing order.
pub fn select_files(listing: &Vec<DirEntry>, kind: FileKind) -> (r: Vec<String>)
    ensures
        r.deep_view() == select(listing@, kind),
{
    let mut r: Vec<String> = Vec::new();
    let mut i: usize = 0;
    while i < listing.len()
        invariant
            i <= listing.len(),
            r.deep_view() == select(listing@.subrange(0, i as int), kind),
        decreases listing.len() - i,
    {
        let e = &listing[i];
        assert(listing@.subrange(0, i + 1).drop_last() =~= listing@.subrange(0, i as int));
        if e.is_file && is_kind(kind, e.name.as_str()) {
            r.push(e.name.clone());
        }
        i = i + 1;
        assert(r.deep_view() =~= select(listing@.subrange(0, i as int), kind));
    }
    assert(listing@.subrange(0, i as int) =~= listing@);
    r
}

/// What staging does to a submission directory.
pub struct StagingPlan {
    /// Files of the submission that move into the holding subdirectory.
    pub student_tests: Vec<String>,
    /// Files of the test directory copied into the submission, replacing
    /// files of the same name.
    pub canonical_tests: Vec<String>,
    /// Archives of the library directory copied into the submission.
    pub libraries: Vec<String>,
}

/// After staging, no canonical test shares its name with a library archive:
/// every file that the harness needs stands in one place.
pub proof fn lemma_tests_and_libraries_disjoint(tests: Seq<DirEntry>, libraries: Seq<DirEntry>)
    ensures
        forall|i: int, j: int|
            0 <= i < select(tests, FileKind::CanonicalTest).len() && 0 <= j < select(
                libraries,
                FileKind::Library,
            ).len() ==> select(tests, FileKind::CanonicalTest)[i] != select(
                libraries,
                FileKind::Library,
            )[j],
{
    assert forall|i: int, j: int|
        0 <= i < select(tests, FileKind::CanonicalTest).len() && 0 <= j < select(
            libraries,
            FileKind::Library,
        ).len() implies select(tests, FileKind::CanonicalTest)[i] != select(
        libraries,
        FileKind::Library,
    )[j] by {
        lemma_selected_kind(tests, FileKind::CanonicalTest, i);
        lemma_selected_kind(libraries, FileKind::Library, j);
    }
}

/// Plans the staging of a submission from the listings of its directory, of
/// the canonical test directory and of the library directory.
pub fn plan_staging(
    submission: &Vec<DirEntry>,
    tests: &Vec<DirEntry>,
    libraries: &Vec<DirEntry>,
) -> (r: StagingPlan)
    ensures
        r.student_tests.deep_view() == select(submission@, FileKind::Test),
        r.canonical_tests.deep_view() == select(tests@, FileKind::CanonicalTest),
        r.libraries.deep_view() == select(libraries@, FileKind::Library),
{
    StagingPlan {
        student_tests: select_files(submission, FileKind::Test),
        canonical_tests: select_files(tests, FileKind::CanonicalTest),
        libraries: select_files(libraries, FileKind::Library),
    }
}

} // verus!
