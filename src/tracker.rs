//! The issue tracker: who is graded, the entries posted there, and how the
//! titles of earlier entries classify a student.
use vstd::prelude::*;
use crate::json::{json_quote, json_quoted};
use crate::names::{chars_of, contains, contains_chars, upper_of, upper_text};

verus! {

/// The tracker's API for repositories.
pub const TRACKER_API: &'static str = "https://gits-15.sys.kth.se/api/v3/repos";

/// The organisation that holds the students' repositories.
pub const TRACKER_ORG: &'static str = "inda-25";

/// Name of a student's repository for a task.
pub fn repo_name(student: &str, task: &str) -> (r: String)
    ensures
        r@ == student@ + "-"@ + task@,
{
    let mut r = String::from_str(student);
    r.append("-");
    r.append(task);
    r
}

/// Address of the issues of a student's repository for a task.
pub fn issues_url(api: &str, org: &str, student: &str, task: &str) -> (r: String)
    ensures
        r@ == api@ + "/"@ + org@ + "/"@ + student@ + "-"@ + task@ + "/issues"@,
{
    let mut r = String::from_str(api);
    r.append("/");
    r.append(org);
    r.append("/");
    r.append(repo_name(student, task).as_str());
    r.append("/issues");
    r
}

/// A tracker entry.
pub struct Issue {
    pub title: String,
    pub body: String,
}

/// A tracker entry with the given title and body.
pub fn create_issue(title: String, body: String) -> (r: Issue)
    ensures
        r.title == title,
        r.body == body,
{
    Issue { title, body }
}

/// The JSON text of a tracker entry.
pub open spec fn issue_json(title: Seq<char>, body: Seq<char>) -> Seq<char> {
    "{\"title\":"@ + json_quoted(title) + ",\"body\":"@ + json_quoted(body) + "}"@
}

impl Issue {
    /// The entry as one JSON object.
    pub fn to_json(&self) -> (r: String)
        ensures
            r@ == issue_json(self.title@, self.body@),
    {
        let mut out = String::from_str("{\"title\":");
        out.append(json_quote(self.title.as_str()).as_str());
        out.append(",\"body\":");
        out.append(json_quote(self.body.as_str()).as_str());
        out.append("}");
        out
    }
}

/// An entry listed by the tracker; only its title is read.
pub struct IssueTitle {
    pub title: String,
    pub number: i64,
    pub state: String,
    pub body: Option<String>,
    pub created_at: Option<String>,
    pub updated_at: Option<String>,
}

/// A student with the status read off the tracker.
pub struct StatusIssue {
    pub studentid: String,
    pub status: String,
}

/// A student with a status.
pub fn parse_issue_status(student: &str, status: &str) -> (r: StatusIssue)
    ensures
        r.studentid@ == student@,
        r.status@ == status@,
{
    StatusIssue { studentid: String::from_str(student), status: String::from_str(status) }
}

/// The status keyword that an upper-case title holds: the first of `PASS`,
/// `FAIL`, `KOMP` and `KOMPLETTERING` that occurs in it.
pub open spec fn keyword_of(upper: Seq<char>) -> Option<Seq<char>> {
    if contains(upper, "PASS"@) {
        Some("PASS"@)
    } else if contains(upper, "FAIL"@) {
        Some("FAIL"@)
    } else if contains(upper, "KOMP"@) {
        Some("KOMP"@)
    } else if contains(upper, "KOMPLETTERING"@) {
        Some("KOMPLETTERING"@)
    } else {
        None
    }
}

/// The keywords of the titles that hold one, in order.
pub open spec fn keywords_of(titles: Seq<Seq<char>>) -> Seq<Seq<char>>
    decreases titles.len(),
{
    if titles.len() == 0 {
        Seq::empty()
    } else {
        let rest = keywords_of(titles.drop_last());
        match keyword_of(upper_of(titles.last())) {
            Some(k) => rest.push(k),
            None => rest,
        }
    }
}

/// The statuses of a student whose entries have the given titles: one per
/// title that holds a keyword, or `NULL` alone where none does.
pub open spec fn statuses_of(titles: Seq<Seq<char>>) -> Seq<Seq<char>> {
    if keywords_of(titles).len() == 0 {
        seq!["NULL"@]
    } else {
        keywords_of(titles)
    }
}

/// The titles of a list of entries.
pub open spec fn titles_of(issues: Seq<IssueTitle>) -> Seq<Seq<char>> {
    issues.map_values(|i: IssueTitle| i.title@)
}

/// The status keyword that an upper-case title holds: the first of `PASS`,
/// `FAIL`, `KOMP` and `KOMPLETTERING` that occurs in it.
pub fn status_keyword(upper: &str) -> (r: Option<&'static str>)
    ensures
        match r {
            Some(k) => keyword_of(upper@) == Some(k@),
            None => keyword_of(upper@) is None,
        },
{
    let u = chars_of(upper);
    if contains_chars(&u, &chars_of("PASS")) {
        Some("PASS")
    } else if contains_chars(&u, &chars_of("FAIL")) {
        Some("FAIL")
    } else if contains_chars(&u, &chars_of("KOMP")) {
        Some("KOMP")
    } else if contains_chars(&u, &chars_of("KOMPLETTERING")) {
        Some("KOMPLETTERING")
    } else {
        None
    }
}

/// The statuses of a student read off the titles of the student's entries,
/// compared in upper case: one per entry whose title holds a keyword, or
/// `NULL` alone where none does.
pub fn issue_statuses(student: &str, issues: &Vec<IssueTitle>) -> (r: Vec<StatusIssue>)
    ensures
        r@.len() == statuses_of(titles_of(issues@)).len(),
        forall|k: int| 0 <= k < r@.len() ==> (#[trigger] r@[k]).studentid@ == student@ && r@[k].status@
            == statuses_of(titles_of(issues@))[k],
{
    let ghost titles = titles_of(issues@);
    let mut r: Vec<StatusIssue> = Vec::new();
    let mut i: usize = 0;
    while i < issues.len()
        invariant
            titles == titles_of(issues@),
            i <= issues.len(),
            r@.len() == keywords_of(titles.subrange(0, i as int)).len(),
            forall|k: int| 0 <= k < r@.len() ==> (#[trigger] r@[k]).studentid@ == student@ && r@[k].status@
                == keywords_of(titles.subrange(0, i as int))[k],
        decreases issues.len() - i,
    {
        assert(titles.subrange(0, i + 1).drop_last() =~= titles.subrange(0, i as int));
        assert(titles.subrange(0, i + 1).last() == issues@[i as int].title@);
        let ghost prev = keywords_of(titles.subrange(0, i as int));
        let ghost old_r = r@;
        let upper = upper_text(issues[i].title.as_str());
        match status_keyword(upper.as_str()) {
            Some(k) => {
                let s = parse_issue_status(student, k);
                r.push(s);
                assert(keywords_of(titles.subrange(0, i + 1)) == prev.push(k@));
                assert forall|j: int| 0 <= j < r@.len() implies r@[j].studentid@ == student@
                    && r@[j].status@ == prev.push(k@)[j] by {
                    if j < old_r.len() {
                        assert(r@[j] == old_r[j]);
                        assert(old_r[j].status@ == prev[j]);
                    } else {
                        assert(j == prev.len());
                        assert(r@[j] == s);
                    }
                }
            },
            None => {
                assert(keywords_of(titles.subrange(0, i + 1)) == prev);
            },
        }
        i = i + 1;
    }
    assert(titles.subrange(0, i as int) =~= titles);
    if r.len() == 0 {
        r.push(parse_issue_status(student, "NULL"));
        assert(r@[0].status@ == statuses_of(titles)[0]);
    }
    r
}

/// The mark shown beside a status.
pub fn status_emoji(status: &str) -> (r: &'static str)
    ensures
        r@ == (if status@ == "PASS"@ {
            "✅"@
        } else if status@ == "FAIL"@ {
            "❌"@
        } else if status@ == "KOMP"@ || status@ == "KOMPLETTERING"@ {
            "🔄"@
        } else {
            "❓"@
        }),
{
    if crate::names::same_text(status, "PASS") {
        "✅"
    } else if crate::names::same_text(status, "FAIL") {
        "❌"
    } else if crate::names::same_text(status, "KOMP") || crate::names::same_text(status, "KOMPLETTERING") {
        "🔄"
    } else {
        "❓"
    }
}

} // verus!
