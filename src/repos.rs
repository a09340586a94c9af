//! Repository acquisition: who is graded and where their repositories and
//! the solution repositories are cloned from.
use vstd::prelude::*;
use crate::names::{chars_of, lines_of, starts_with, starts_with_chars, text_lines, trim_text, trimmed};
use crate::tracker::repo_name;

verus! {

/// Where student repositories are cloned from.
pub const CLONE_BASE: &'static str = "git@gits-15.sys.kth.se:inda-25/";

/// Where solution repositories are cloned from.
pub const SOLUTIONS_BASE: &'static str = "git@gits-15.sys.kth.se:inda-master/";

/// The branch of a solution repository that holds the tests.
pub const SOLUTIONS_BRANCH: &'static str = "solutions";

/// Number of numbered tasks.
pub const TASK_COUNT: u32 = 18;

/// The students named by the lines of a list: each line trimmed, blank lines
/// and lines that start with `#` left out.
pub open spec fn student_list(lines: Seq<Seq<char>>) -> Seq<Seq<char>>
    decreases lines.len(),
{
    if lines.len() == 0 {
        Seq::empty()
    } else {
        let rest = student_list(lines.drop_last());
        let s = trimmed(lines.last());
        if s.len() == 0 || starts_with(s, "#"@) {
            rest
        } else {
            rest.push(s)
        }
    }
}

/// The students named in the text of a student list, one per line; blank
/// lines and lines that start with `#` are skipped.
pub fn parse_student_list(text: &str) -> (r: Vec<String>)
    ensures
        r.deep_view() == student_list(lines_of(text@)),
{
    let lines = text_lines(text);
    let ghost all = lines_of(text@);
    let mut r: Vec<String> = Vec::new();
    let mut i: usize = 0;
    while i < lines.len()
        invariant
            lines.deep_view() == all,
            i <= lines.len(),
            r.deep_view() == student_list(all.subrange(0, i as int)),
        decreases lines.len() - i,
    {
        assert(all.subrange(0, i + 1).drop_last() =~= all.subrange(0, i as int));
        assert(lines.deep_view()[i as int] == lines@[i as int]@);
        let s = trim_text(lines[i].as_str());
        let skip = s.as_str().unicode_len() == 0 || starts_with_chars(&chars_of(s.as_str()), &chars_of("#"));
        let ghost before = r.deep_view();
        if !skip {
            r.push(s);
            assert(r.deep_view() =~= before.push(trimmed(all[i as int])));
        }
        i = i + 1;
    }
    assert(all.subrange(0, i as int) =~= all);
    r
}

/// Address of a student's repository for a task.
pub fn clone_url(student: &str, task: &str) -> (r: String)
    ensures
        r@ == CLONE_BASE@ + student@ + "-"@ + task@ + ".git"@,
{
    let mut r = String::from_str(CLONE_BASE);
    r.append(repo_name(student, task).as_str());
    r.append(".git");
    r
}

/// Address of the solution repository of a task.
pub fn solution_repo_url(task: &str) -> (r: String)
    ensures
        r@ == SOLUTIONS_BASE@ + task@ + ".git"@,
{
    let mut r = String::from_str(SOLUTIONS_BASE);
    r.append(task);
    r.append(".git");
    r
}

/// The decimal digit of `d`.
pub open spec fn digit(d: nat) -> char {
    if d == 0 { '0' } else if d == 1 { '1' } else if d == 2 { '2' } else if d == 3 { '3' }
    else if d == 4 { '4' } else if d == 5 { '5' } else if d == 6 { '6' } else if d == 7 { '7' }
    else if d == 8 { '8' } else { '9' }
}

/// The decimal numeral of `n`.
pub open spec fn decimal(n: nat) -> Seq<char>
    decreases n,
{
    if n < 10 {
        seq![digit(n)]
    } else {
        decimal(n / 10).push(digit(n % 10))
    }
}

fn digit_char(d: u32) -> (r: char)
    requires
        d < 10,
    ensures
        r == digit(d as nat),
{
    if d == 0 { '0' } else if d == 1 { '1' } else if d == 2 { '2' } else if d == 3 { '3' }
    else if d == 4 { '4' } else if d == 5 { '5' } else if d == 6 { '6' } else if d == 7 { '7' }
    else if d == 8 { '8' } else { '9' }
}

fn decimal_chars(n: u32) -> (r: Vec<char>)
    ensures
        r@ == decimal(n as nat),
    decreases n,
{
    if n < 10 {
        let mut r: Vec<char> = Vec::new();
        r.push(digit_char(n));
        assert(r@ =~= seq![digit(n as nat)]);
        r
    } else {
        let mut r = decimal_chars(n / 10);
        r.push(digit_char(n % 10));
        r
    }
}

/// The name of a numbered task: `task-` and its number.
pub fn task_name(n: u32) -> (r: String)
    ensures
        r@ == "task-"@ + decimal(n as nat),
{
    let mut r = String::from_str("task-");
    r.append(crate::names::string_of(&decimal_chars(n)).as_str());
    r
}

/// The tasks whose solution repositories are fetched: `task-1` to `task-18`,
/// then `quicksort`.
pub fn solution_tasks() -> (r: Vec<String>)
    ensures
        r@.len() == TASK_COUNT + 1,
        forall|k: int| 0 <= k < TASK_COUNT ==> (#[trigger] r@[k])@ == "task-"@ + decimal((k + 1) as nat),
        r@[TASK_COUNT as int]@ == "quicksort"@,
{
    let mut r: Vec<String> = Vec::new();
    let mut n: u32 = 1;
    while n <= TASK_COUNT
        invariant
            1 <= n <= TASK_COUNT + 1,
            r@.len() == n - 1,
            forall|k: int| 0 <= k < n - 1 ==> (#[trigger] r@[k])@ == "task-"@ + decimal((k + 1) as nat),
        decreases TASK_COUNT + 1 - n,
    {
        r.push(task_name(n));
        n = n + 1;
    }
    r.push(String::from_str("quicksort"));
    r
}

} // verus!
