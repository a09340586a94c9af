use imagi::collector::transform_contents;
use imagi::harness::{compile_command, find_test_classes, test_command};
use imagi::staging::{plan_staging, select_files, DirEntry, FileKind, STUDENT_TESTS_DIR};

fn file(name: &str) -> DirEntry {
    DirEntry::new(name.to_string(), true)
}

fn dir(name: &str) -> DirEntry {
    DirEntry::new(name.to_string(), false)
}

#[test]
fn alice_submission_is_staged_tested_and_collected() {
    // The submission holds a student-written test beside the solution.
    let submission = vec![file("Foo.java"), file("BarTest.java"), file("README.md")];
    let tests = vec![file("FooTest.java")];
    let libraries = vec![file("junit-4.12.jar"), file("hamcrest-core-1.3.jar")];
    let plan = plan_staging(&submission, &tests, &libraries);
    assert_eq!(plan.student_tests, vec!["BarTest.java".to_string()]);
    assert_eq!(plan.canonical_tests, vec!["FooTest.java".to_string()]);
    assert_eq!(
        plan.libraries,
        vec!["junit-4.12.jar".to_string(), "hamcrest-core-1.3.jar".to_string()]
    );
    assert_eq!(STUDENT_TESTS_DIR, "student_tests");

    // The directory after staging.
    let staged = vec![
        file("Foo.java"),
        file("README.md"),
        dir("student_tests"),
        file("FooTest.java"),
        file("junit-4.12.jar"),
        file("hamcrest-core-1.3.jar"),
    ];
    assert_eq!(find_test_classes(&staged), vec!["FooTest".to_string()]);
    let run = test_command(&staged);
    assert_eq!(run.program, "java");
    assert_eq!(
        run.args,
        vec![
            "-cp".to_string(),
            ".:junit-4.12.jar:hamcrest-core-1.3.jar".to_string(),
            "org.junit.runner.JUnitCore".to_string(),
            "FooTest".to_string(),
        ]
    );
    let sources = transform_contents(&staged);
    assert_eq!(sources, vec!["Foo.java".to_string()]);
    assert!(!sources.contains(&"FooTest.java".to_string()));
    assert!(!sources.contains(&"BarTest.java".to_string()));
}

#[test]
fn compile_command_lists_every_java_source() {
    let staged = vec![file("Foo.java"), file("FooTest.java"), file("lib.jar"), file("notes.txt")];
    let cmd = compile_command(&staged);
    assert_eq!(cmd.program, "javac");
    assert_eq!(
        cmd.args,
        vec![
            "-cp".to_string(),
            ".:lib.jar".to_string(),
            "Foo.java".to_string(),
            "FooTest.java".to_string(),
        ]
    );
}

#[test]
fn compile_command_with_no_sources_or_libraries() {
    let cmd = compile_command(&vec![]);
    assert_eq!(cmd.args, vec!["-cp".to_string(), ".".to_string()]);
}

#[test]
fn directories_are_never_selected() {
    let listing = vec![dir("OldTest.java"), dir("x.jar"), file("Main.java")];
    assert!(select_files(&listing, FileKind::Test).is_empty());
    assert!(select_files(&listing, FileKind::Library).is_empty());
    assert_eq!(select_files(&listing, FileKind::Source), vec!["Main.java".to_string()]);
}

#[test]
fn test_archive_is_a_library_not_a_canonical_test() {
    let tests = vec![file("FooTest.jar"), file("FooTests.java"), file("BazTest.class")];
    let plan = plan_staging(&vec![], &tests, &vec![file("FooTest.jar")]);
    assert_eq!(
        plan.canonical_tests,
        vec!["FooTests.java".to_string(), "BazTest.class".to_string()]
    );
    assert_eq!(plan.libraries, vec!["FooTest.jar".to_string()]);
    assert!(plan.student_tests.is_empty());
}

#[test]
fn test_classes_keep_listing_order() {
    let staged = vec![file("BTests.java"), file("A.java"), file("ATest.java"), file("ATest.class")];
    assert_eq!(find_test_classes(&staged), vec!["BTests".to_string(), "ATest".to_string()]);
}
