use imagi::error::PipelineError;
use imagi::orchestrator::{
    manifest_entries, parse_manifest, record_file_name, write_manifest, BatchRun, ManifestEntry,
};

fn entry(id: &str, dir: &str) -> ManifestEntry {
    ManifestEntry { id: id.to_string(), source_dir: dir.to_string() }
}

#[test]
fn manifest_is_read_in_key_order() {
    let es = parse_manifest("{\"bob\": \"/repos/bob-task5/src\", \"alice\": \"/repos/alice-task5/src\"}").unwrap();
    assert_eq!(es.len(), 2);
    assert_eq!(es[0].id, "alice");
    assert_eq!(es[0].source_dir, "/repos/alice-task5/src");
    assert_eq!(es[1].id, "bob");
}

#[test]
fn malformed_manifests_are_refused() {
    assert_eq!(parse_manifest("not json").err(), Some(PipelineError::Manifest));
    assert_eq!(parse_manifest("[\"alice\"]").err(), Some(PipelineError::Manifest));
    assert_eq!(parse_manifest("{\"alice\": 5}").err(), Some(PipelineError::Manifest));
    assert!(parse_manifest("{}").unwrap().is_empty());
}

#[test]
fn manifest_written_and_read_back() {
    let es = vec![entry("alice", "/repos/alice-task5/src"), entry("bob", "/repos/b\"ob")];
    let text = write_manifest(&es);
    assert_eq!(
        text,
        "{\n  \"alice\": \"/repos/alice-task5/src\",\n  \"bob\": \"/repos/b\\\"ob\"\n}"
    );
    let back = parse_manifest(&text).unwrap();
    assert_eq!(back.len(), 2);
    assert_eq!(back[1].source_dir, "/repos/b\"ob");
    assert_eq!(write_manifest(&vec![]), "{}");
}

#[test]
fn record_files_are_named_by_identifier() {
    assert_eq!(record_file_name("alice"), "alice.json");
    assert_eq!(record_file_name("alice"), record_file_name("alice"));
    assert_ne!(record_file_name("alice"), record_file_name("bob"));
}

#[test]
fn compile_error_fails_one_submission_and_the_run_goes_on() {
    let mut run = BatchRun::new(vec![entry("alice", "a"), entry("bob", "b"), entry("carol", "c")]);
    assert_eq!(run.current().unwrap().id, "alice");
    run.finish_current(Err(PipelineError::Compile));
    assert_eq!(run.current().unwrap().id, "bob");
    run.finish_current(Ok(()));
    run.finish_current(Err(PipelineError::Read("gone".to_string())));
    assert!(run.current().is_none());
    assert_eq!(run.recorded, vec!["bob".to_string()]);
    assert_eq!(
        run.failed,
        vec![
            ("alice".to_string(), PipelineError::Compile),
            ("carol".to_string(), PipelineError::Read("gone".to_string())),
        ]
    );
}

#[test]
fn manifest_entries_from_members() {
    let es = manifest_entries(vec![
        ("alice".to_string(), Some("/a".to_string())),
        ("bob".to_string(), Some("/b".to_string())),
    ])
    .unwrap();
    assert_eq!(es.len(), 2);
    assert_eq!(es[1].id, "bob");
    assert_eq!(es[1].source_dir, "/b");
    let bad = manifest_entries(vec![("alice".to_string(), Some("/a".to_string())), ("bob".to_string(), None)]);
    assert_eq!(bad.err(), Some(PipelineError::Manifest));
    assert!(manifest_entries(vec![]).unwrap().is_empty());
}
