//! The result collector: the sources of a submission, stripped of comments,
//! and the grading record built from them.
use vstd::prelude::*;
use crate::json::{json_quote, json_quoted};
use crate::names::{chars_of, string_of};
use crate::names::is_test_name;
use crate::staging::{lemma_select_keeps, lemma_selected_kind, select, select_files, DirEntry, FileKind};

verus! {

/// Where the comment scanner stands.
#[derive(Clone, Copy, Debug, PartialEq, Eq)]
pub enum Scan {
    Code,
    LineComment,
    BlockComment,
    StringLiteral,
}

/// What is left of `s` once comments are taken out, scanning from state `st`.
/// The opening of a comment leaves one space, and so does the closing of a
/// block comment; a line comment keeps its newline; string literals, escapes
/// included, are kept whole.
pub open spec fn strip_from(s: Seq<char>, st: Scan) -> Seq<char>
    decreases s.len(),
{
    if s.len() == 0 {
        Seq::empty()
    } else {
        let c = s[0];
        let rest = s.drop_first();
        match st {
            Scan::BlockComment => if c == '*' && rest.len() > 0 && rest[0] == '/' {
                seq![' '] + strip_from(rest.drop_first(), Scan::Code)
            } else {
                strip_from(rest, Scan::BlockComment)
            },
            Scan::LineComment => if c == '\n' {
                seq!['\n'] + strip_from(rest, Scan::Code)
            } else {
                strip_from(rest, Scan::LineComment)
            },
            Scan::StringLiteral => if c == '\\' && rest.len() > 0 {
                seq![c, rest[0]] + strip_from(rest.drop_first(), Scan::StringLiteral)
            } else if c == '"' {
                seq![c] + strip_from(rest, Scan::Code)
            } else {
                seq![c] + strip_from(rest, Scan::StringLiteral)
            },
            Scan::Code => if c == '/' && rest.len() > 0 && rest[0] == '/' {
                seq![' '] + strip_from(rest.drop_first(), Scan::LineComment)
            } else if c == '/' && rest.len() > 0 && rest[0] == '*' {
                seq![' '] + strip_from(rest.drop_first(), Scan::BlockComment)
            } else if c == '"' {
                seq![c] + strip_from(rest, Scan::StringLiteral)
            } else {
                seq![c] + strip_from(rest, Scan::Code)
            },
        }
    }
}

/// Java source text with its comments taken out.
pub open spec fn without_comments(code: Seq<char>) -> Seq<char> {
    strip_from(code, Scan::Code)
}

/// Takes the comments out of Java source text: a line comment becomes a space
/// and keeps its newline, a block comment becomes two spaces, string literals
/// stay whole.
pub fn remove_comments(code: &str) -> (r: String)
    ensures
        r@ == without_comments(code@),
{
    let s = chars_of(code);
    let n = s.len();
    let mut out: Vec<char> = Vec::new();
    let mut st = Scan::Code;
    let mut i: usize = 0;
    assert(s@.subrange(0, n as int) =~= s@);
    assert(out@ + without_comments(s@) =~= without_comments(s@));
    while i < n
        invariant
            n == s.len(),
            i <= n,
            out@ + strip_from(s@.subrange(i as int, n as int), st) == without_comments(s@),
        decreases n - i,
    {
        let ghost before = out@;
        let ghost st0 = st;
        let ghost t = s@.subrange(i as int, n as int);
        assert(t.drop_first() =~= s@.subrange(i + 1, n as int));
        assert(t[0] == s@[i as int]);
        let c = s[i];
        let has_next = i + 1 < n;
        if has_next {
            assert(t.drop_first()[0] == s@[i + 1]);
            assert(t.drop_first().drop_first() =~= s@.subrange(i + 2, n as int));
        }
        match st {
            Scan::BlockComment => {
                if c == '*' && has_next && s[i + 1] == '/' {
                    out.push(' ');
                    st = Scan::Code;
                    i = i + 2;
                } else {
                    i = i + 1;
                }
            },
            Scan::LineComment => {
                if c == '\n' {
                    out.push(c);
                    st = Scan::Code;
                }
                i = i + 1;
            },
            Scan::StringLiteral => {
                out.push(c);
                if c == '\\' && has_next {
                    out.push(s[i + 1]);
                    i = i + 2;
                } else {
                    if c == '"' {
                        st = Scan::Code;
                    }
                    i = i + 1;
                }
            },
            Scan::Code => {
                if c == '/' && has_next && s[i + 1] == '/' {
                    out.push(' ');
                    st = Scan::LineComment;
                    i = i + 2;
                } else if c == '/' && has_next && s[i + 1] == '*' {
                    out.push(' ');
                    st = Scan::BlockComment;
                    i = i + 2;
                } else {
                    out.push(c);
                    if c == '"' {
                        st = Scan::StringLiteral;
                    }
                    i = i + 1;
                }
            },
        }
        assert(out@ + strip_from(s@.subrange(i as int, n as int), st) =~= before + strip_from(t, st0));
    }
    assert(s@.subrange(i as int, n as int) =~= Seq::<char>::empty());
    assert(out@ =~= without_comments(s@));
    string_of(&out)
}

/// Names of the files of a submission directory that are graded: Java
/// sources that are not tests, in listing order.
pub fn transform_contents(listing: &Vec<DirEntry>) -> (r: Vec<String>)
    ensures
        r.deep_view() == select(listing@, FileKind::Source),
{
    select_files(listing, FileKind::Source)
}

/// A test file that a student wrote is moved into the holding subdirectory
/// by staging, and is never among the graded sources of a record, whatever
/// the submission directory holds when the record is made.
pub proof fn lemma_student_tests_held_aside(submission: Seq<DirEntry>, k: int, later: Seq<DirEntry>)
    requires
        0 <= k < submission.len(),
        submission[k].is_file,
        is_test_name(submission[k].name@),
    ensures
        select(submission, FileKind::Test).contains(submission[k].name@),
        !select(later, FileKind::Source).contains(submission[k].name@),
{
    lemma_select_keeps(submission, FileKind::Test, k);
    if select(later, FileKind::Source).contains(submission[k].name@) {
        let j = choose|j: int|
            0 <= j < select(later, FileKind::Source).len() && select(later, FileKind::Source)[j]
                == submission[k].name@;
        lemma_selected_kind(later, FileKind::Source, j);
    }
}

/// One graded file of a submission.
pub struct SourceFile {
    pub filename: String,
    pub content: String,
}

/// The graded form of a file read from a submission: its name and its full
/// text.
pub fn parse_source_file(filename: &str, text: &str) -> (r: SourceFile)
    ensures
        r.filename@ == filename@,
        r.content@ == text@,
{
    SourceFile { filename: String::from_str(filename), content: String::from_str(text) }
}

/// The grading record of one submission.
pub struct Payload {
    pub user_id: String,
    pub task: String,
    pub read_me: String,
    pub source_files: Vec<SourceFile>,
    pub test_results: String,
}

/// The JSON object of one source file.
pub open spec fn source_file_json(f: SourceFile) -> Seq<char> {
    "{\"filename\":"@ + json_quoted(f.filename@) + ",\"content\":"@ + json_quoted(f.content@) + "}"@
}

/// The JSON objects of the given files, comma separated.
pub open spec fn source_files_items(fs: Seq<SourceFile>) -> Seq<char>
    decreases fs.len(),
{
    if fs.len() == 0 {
        Seq::empty()
    } else if fs.len() == 1 {
        source_file_json(fs[0])
    } else {
        source_files_items(fs.drop_last()) + ","@ + source_file_json(fs.last())
    }
}

/// The JSON text of a grading record, fields in the order of the wire format.
pub open spec fn payload_json(p: Payload) -> Seq<char> {
    "{\"user_id\":"@ + json_quoted(p.user_id@) + ",\"task\":"@ + json_quoted(p.task@)
        + ",\"read_me\":"@ + json_quoted(p.read_me@) + ",\"source_files\":["@
        + source_files_items(p.source_files@) + "],\"test_results\":"@
        + json_quoted(p.test_results@) + "}"@
}

fn append_quoted(out: &mut String, s: &str)
    ensures
        final(out)@ == old(out)@ + json_quoted(s@),
{
    let q = json_quote(s);
    out.append(q.as_str());
}

impl Payload {
    /// The record as one JSON object.
    pub fn to_json(&self) -> (r: String)
        ensures
            r@ == payload_json(*self),
    {
        let mut out = String::from_str("{\"user_id\":");
        append_quoted(&mut out, self.user_id.as_str());
        out.append(",\"task\":");
        append_quoted(&mut out, self.task.as_str());
        out.append(",\"read_me\":");
        append_quoted(&mut out, self.read_me.as_str());
        out.append(",\"source_files\":[");
        let ghost head = out@;
        let mut i: usize = 0;
        while i < self.source_files.len()
            invariant
                i <= self.source_files@.len(),
                out@ == head + source_files_items(self.source_files@.subrange(0, i as int)),
            decreases self.source_files@.len() - i,
        {
            let ghost prev = self.source_files@.subrange(0, i as int);
            let ghost next = self.source_files@.subrange(0, i + 1);
            assert(next.drop_last() =~= prev);
            if i > 0 {
                out.append(",");
            }
            let f = &self.source_files[i];
            out.append("{\"filename\":");
            append_quoted(&mut out, f.filename.as_str());
            out.append(",\"content\":");
            append_quoted(&mut out, f.content.as_str());
            out.append("}");
            i = i + 1;
            assert(out@ =~= head + source_files_items(next));
        }
        assert(self.source_files@.subrange(0, i as int) =~= self.source_files@);
        out.append("],\"test_results\":");
        append_quoted(&mut out, self.test_results.as_str());
        out.append("}");
        assert(out@ =~= payload_json(*self));
        out
    }
}

/// Builds the grading record of a submission and returns its JSON text.
pub fn create_payload_json(
    user_id: String,
    task: String,
    read_me: String,
    source_files: Vec<SourceFile>,
    test_results: String,
) -> (r: String)
    ensures
        r@ == payload_json(
            Payload { user_id, task, read_me, source_files, test_results },
        ),
{
    let p = Payload { user_id, task, read_me, source_files, test_results };
    p.to_json()
}

} // verus!
