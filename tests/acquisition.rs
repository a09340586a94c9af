use imagi::repos::{clone_url, parse_student_list, solution_repo_url, solution_tasks, task_name};

#[test]
fn student_list_skips_blanks_and_comments() {
    let list = parse_student_list("alice\n  bob  \r\n\n# a comment\n   \ncharlie");
    assert_eq!(list, vec!["alice".to_string(), "bob".to_string(), "charlie".to_string()]);
    assert!(parse_student_list("").is_empty());
}

#[test]
fn clone_addresses() {
    assert_eq!(clone_url("alice", "task-5"), "git@gits-15.sys.kth.se:inda-25/alice-task-5.git");
    assert_eq!(solution_repo_url("task-5"), "git@gits-15.sys.kth.se:inda-master/task-5.git");
}

#[test]
fn solution_tasks_are_numbered_then_quicksort() {
    let tasks = solution_tasks();
    assert_eq!(tasks.len(), 19);
    assert_eq!(tasks[0], "task-1");
    assert_eq!(tasks[9], "task-10");
    assert_eq!(tasks[17], "task-18");
    assert_eq!(tasks[18], "quicksort");
    assert_eq!(task_name(0), "task-0");
    assert_eq!(task_name(4294967295), "task-4294967295");
}

#[test]
fn student_list_with_crlf_and_comment_only_text() {
    assert_eq!(parse_student_list("alice\r\nbob\n"), vec!["alice".to_string(), "bob".to_string()]);
    assert_eq!(parse_student_list("\n\n# only comments\n"), Vec::<String>::new());
}
