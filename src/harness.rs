//! The build-and-run harness: the commands that compile and test a staged
//! submission, and what their outcome means.
use vstd::prelude::*;
use crate::error::PipelineError;
use crate::names::{chars_of, slice_prefix, string_of};
use crate::staging::{select, select_files, DirEntry, FileKind};

verus! {

/// The class that runs the tests.
pub const TEST_RUNNER: &'static str = "org.junit.runner.JUnitCore";

/// A program to run in the submission directory, with its arguments.
pub struct ProcessCommand {
    pub program: String,
    pub args: Vec<String>,
}

/// A name with its last five characters (`.java`) taken off.
pub open spec fn class_of(name: Seq<char>) -> Seq<char> {
    name.subrange(0, name.len() - 5)
}

/// The class names of the test sources of a staged directory, in listing
/// order.
pub open spec fn test_classes(listing: Seq<DirEntry>) -> Seq<Seq<char>> {
    select(listing, FileKind::TestSource).map_values(|n: Seq<char>| class_of(n))
}

/// The class path: the current directory, then each library archive.
pub open spec fn classpath_of(libs: Seq<Seq<char>>) -> Seq<char>
    decreases libs.len(),
{
    if libs.len() == 0 {
        "."@
    } else {
        classpath_of(libs.drop_last()) + ":"@ + libs.last()
    }
}

/// The class names of the test sources in a staged directory: each test
/// source, `.java` taken off, in listing order.
pub fn find_test_classes(listing: &Vec<DirEntry>) -> (r: Vec<String>)
    ensures
        r.deep_view() == test_classes(listing@),
{
    let names = select_files(listing, FileKind::TestSource);
    let ghost sel = select(listing@, FileKind::TestSource);
    let mut r: Vec<String> = Vec::new();
    let mut i: usize = 0;
    while i < names.len()
        invariant
            names.deep_view() == sel,
            sel == select(listing@, FileKind::TestSource),
            i <= names.len(),
            r.deep_view() == sel.subrange(0, i as int).map_values(|n: Seq<char>| class_of(n)),
        decreases names.len() - i,
    {
        proof {
            crate::staging::lemma_selected_kind(listing@, FileKind::TestSource, i as int);
        }
        let s = chars_of(names[i].as_str());
        assert(s@ == sel[i as int]);
        proof {
            reveal_strlit(".java");
        }
        let c = slice_prefix(&s, s.len() - 5);
        let ghost before = r.deep_view();
        let cls = string_of(&c);
        r.push(cls);
        assert(r.deep_view() =~= before.push(class_of(sel[i as int])));
        i = i + 1;
        assert(r.deep_view() =~= sel.subrange(0, i as int).map_values(|n: Seq<char>| class_of(n)));
    }
    assert(sel.subrange(0, i as int) =~= sel);
    r
}

/// The class path for the library archives of a staged directory.
pub fn classpath(listing: &Vec<DirEntry>) -> (r: String)
    ensures
        r@ == classpath_of(select(listing@, FileKind::Library)),
{
    let libs = select_files(listing, FileKind::Library);
    let ghost sel = select(listing@, FileKind::Library);
    let mut r = String::from_str(".");
    let mut i: usize = 0;
    while i < libs.len()
        invariant
            libs.deep_view() == sel,
            i <= libs.len(),
            r@ == classpath_of(sel.subrange(0, i as int)),
        decreases libs.len() - i,
    {
        assert(sel.subrange(0, i + 1).drop_last() =~= sel.subrange(0, i as int));
        r.append(":");
        r.append(libs[i].as_str());
        i = i + 1;
    }
    assert(sel.subrange(0, i as int) =~= sel);
    r
}

fn push_all(out: &mut Vec<String>, items: Vec<String>)
    ensures
        final(out).deep_view() == old(out).deep_view() + items.deep_view(),
{
    let ghost start = out.deep_view();
    let mut i: usize = 0;
    while i < items.len()
        invariant
            i <= items.len(),
            out.deep_view() == start + items.deep_view().subrange(0, i as int),
        decreases items.len() - i,
    {
        let ghost before = out.deep_view();
        let x = items[i].clone();
        out.push(x);
        assert(out.deep_view() =~= before.push(items.deep_view()[i as int]));
        i = i + 1;
        assert(out.deep_view() =~= start + items.deep_view().subrange(0, i as int));
    }
    assert(items.deep_view().subrange(0, i as int) =~= items.deep_view());
}

/// The compiler call: every Java source of the staged directory, with the
/// library archives on the class path.
pub fn compile_command(listing: &Vec<DirEntry>) -> (r: ProcessCommand)
    ensures
        r.program@ == "javac"@,
        r.args.deep_view() == seq!["-cp"@, classpath_of(select(listing@, FileKind::Library))]
            + select(listing@, FileKind::Java),
{
    let mut args: Vec<String> = Vec::new();
    args.push(String::from_str("-cp"));
    args.push(classpath(listing));
    push_all(&mut args, select_files(listing, FileKind::Java));
    let ghost expected = seq!["-cp"@, classpath_of(select(listing@, FileKind::Library))];
    assert(args.deep_view() =~= expected + select(listing@, FileKind::Java));
    ProcessCommand { program: String::from_str("javac"), args }
}

/// The test runner call: each test class of the staged directory, with the
/// library archives on the class path.
pub fn test_command(listing: &Vec<DirEntry>) -> (r: ProcessCommand)
    ensures
        r.program@ == "java"@,
        r.args.deep_view() == seq![
            "-cp"@,
            classpath_of(select(listing@, FileKind::Library)),
            TEST_RUNNER@,
        ] + test_classes(listing@),
{
    let mut args: Vec<String> = Vec::new();
    args.push(String::from_str("-cp"));
    args.push(classpath(listing));
    args.push(String::from_str(TEST_RUNNER));
    push_all(&mut args, find_test_classes(listing));
    let ghost expected = seq![
        "-cp"@,
        classpath_of(select(listing@, FileKind::Library)),
        TEST_RUNNER@,
    ];
    assert(args.deep_view() =~= expected + test_classes(listing@));
    ProcessCommand { program: String::from_str("java"), args }
}

/// What the compiler's exit means for the submission: a failed compile ends
/// it with a compile error.
pub fn compile_outcome(succeeded: bool) -> (r: Result<(), PipelineError>)
    ensures
        succeeded <==> r is Ok,
        !succeeded ==> r == Err::<(), PipelineError>(PipelineError::Compile),
{
    if succeeded {
        Ok(())
    } else {
        Err(PipelineError::Compile)
    }
}

/// The outcome of one test run.
pub struct TestRunResult {
    /// Standard output, a newline, then standard error.
    pub combined_output: String,
    /// The runner's exit code; `None` where it was ended by a signal.
    pub exit_status: Option<i32>,
    /// What is shown: standard output, or standard error where standard
    /// output is empty.
    pub display_output: String,
}

/// Standard output, a newline, then standard error.
pub open spec fn combined(stdout: Seq<char>, stderr: Seq<char>) -> Seq<char> {
    stdout + "\n"@ + stderr
}

impl TestRunResult {
    /// Captures a finished test run, whatever its exit code: failing tests
    /// are an outcome, not an error.
    pub fn capture(stdout: String, stderr: String, exit_status: Option<i32>) -> (r: TestRunResult)
        ensures
            r.combined_output@ == combined(stdout@, stderr@),
            r.exit_status == exit_status,
            r.display_output@ == (if stdout@.len() > 0 { stdout@ } else { stderr@ }),
    {
        let mut combined_output = stdout.clone();
        combined_output.append("\n");
        combined_output.append(stderr.as_str());
        let display_output = if stdout.as_str().unicode_len() > 0 { stdout } else { stderr };
        TestRunResult { combined_output, exit_status, display_output }
    }
}

} // verus!
