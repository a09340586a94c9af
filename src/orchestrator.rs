//! The pipeline orchestrator: the manifest of submissions, the record each
//! one leaves, and the run over a batch that goes on past a failed
//! submission.
use vstd::prelude::*;
use crate::error::PipelineError;
use crate::json::{json_object_texts, json_quote, json_quoted, object_member_texts};

verus! {

/// One submission named by the manifest.
pub struct ManifestEntry {
    pub id: String,
    pub source_dir: String,
}

/// No two entries share an identifier.
pub open spec fn ids_distinct(entries: Seq<ManifestEntry>) -> bool {
    forall|i: int, j: int| 0 <= i < j < entries.len() ==> entries[i].id@ != entries[j].id@
}

/// The members of a manifest object: each key with the text of its value
/// where that value is a string.
pub type Members = Seq<(Seq<char>, Option<Seq<char>>)>;

/// The entries named by the members of the manifest object, where each
/// member's value is a string.
pub open spec fn entries_of(members: Members) -> Option<Seq<(Seq<char>, Seq<char>)>>
    decreases members.len(),
{
    if members.len() == 0 {
        Some(Seq::empty())
    } else {
        match (entries_of(members.drop_last()), members.last().1) {
            (Some(es), Some(dir)) => Some(es.push((members.last().0, dir))),
            _ => None,
        }
    }
}

/// Identifier and directory of each entry.
pub open spec fn entry_pairs(es: Seq<ManifestEntry>) -> Seq<(Seq<char>, Seq<char>)> {
    es.map_values(|e: ManifestEntry| (e.id@, e.source_dir@))
}

/// What reading a manifest of the given members gives: its entries where
/// every value is a string, else a manifest error.
pub open spec fn manifest_result(r: Result<Vec<ManifestEntry>, PipelineError>, members: Members) -> bool {
    match entries_of(members) {
        Some(pairs) => r matches Ok(es) && entry_pairs(es@) == pairs,
        None => r == Err::<Vec<ManifestEntry>, PipelineError>(PipelineError::Manifest),
    }
}

/// The entries of a manifest from the members of its object, each with the
/// text of its value where that value is a string. A member whose value is
/// not a string makes the manifest an error.
pub fn manifest_entries(members: Vec<(String, Option<String>)>) -> (r: Result<Vec<ManifestEntry>, PipelineError>)
    ensures
        manifest_result(r, members.deep_view()),
{
    let ghost all = members.deep_view();
    let mut es: Vec<ManifestEntry> = Vec::new();
    let mut i: usize = 0;
    while i < members.len()
        invariant
            all == members.deep_view(),
            i <= members.len(),
            entries_of(all.subrange(0, i as int)) == Some(entry_pairs(es@)),
        decreases members.len() - i,
    {
        let ghost prefix = all.subrange(0, i + 1);
        assert(prefix.drop_last() =~= all.subrange(0, i as int));
        assert(prefix.last() == all[i as int]);
        let (id, dir) = (&members[i].0, &members[i].1);
        match dir {
            Some(d) => {
                es.push(ManifestEntry { id: id.clone(), source_dir: d.clone() });
                assert(entry_pairs(es@) =~= entry_pairs(es@.drop_last()).push((id@, d@)));
                assert(es@.drop_last() =~= es@.subrange(0, es@.len() - 1));
            },
            None => {
                proof {
                    lemma_entries_of_stays_none(all, i as int + 1);
                }
                return Err(PipelineError::Manifest);
            },
        }
        i = i + 1;
    }
    assert(all.subrange(0, i as int) =~= all);
    Ok(es)
}

proof fn lemma_entries_of_stays_none(members: Members, n: int)
    requires
        0 <= n <= members.len(),
        entries_of(members.subrange(0, n)) is None,
    ensures
        entries_of(members) is None,
    decreases members.len() - n,
{
    if n < members.len() {
        assert(members.subrange(0, n + 1).drop_last() =~= members.subrange(0, n));
        lemma_entries_of_stays_none(members, n + 1);
    } else {
        assert(members.subrange(0, n) =~= members);
    }
}

proof fn lemma_entries_ids(members: Members)
    requires
        entries_of(members) is Some,
    ensures
        entries_of(members)->0.len() == members.len(),
        forall|k: int| 0 <= k < members.len() ==> entries_of(members)->0[k].0 == (#[trigger] members[k]).0,
    decreases members.len(),
{
    if members.len() > 0 {
        let rest = members.drop_last();
        lemma_entries_ids(rest);
        assert forall|k: int| 0 <= k < members.len() implies entries_of(members)->0[k].0 == (
        #[trigger] members[k]).0 by {
            if k < rest.len() {
                assert(members[k] == rest[k]);
            }
        }
    }
}

/// Reads the manifest: a JSON object from submission identifiers to source
/// directories. Text that is not such an object is a manifest error.
pub fn parse_manifest(text: &str) -> (r: Result<Vec<ManifestEntry>, PipelineError>)
    ensures
        match json_object_texts(text@) {
            None => r == Err::<Vec<ManifestEntry>, PipelineError>(PipelineError::Manifest),
            Some(ms) => manifest_result(r, ms),
        },
        r matches Ok(es) ==> ids_distinct(es@),
{
    let members = match object_member_texts(text) {
        Some(m) => m,
        None => return Err(PipelineError::Manifest),
    };
    let ghost keyed = members.deep_view();
    let ghost mv = members@;
    assert forall|k: int| 0 <= k < members@.len() implies keyed[k].0 == (#[trigger] members@[k]).0@ by {
        assert(keyed[k] == members@[k].deep_view());
        assert(members@[k].0.deep_view() == members@[k].0@);
    }
    let r = manifest_entries(members);
    if let Ok(es) = &r {
        proof {
            lemma_entries_ids(keyed);
        }
        assert(entries_of(keyed) == Some(entry_pairs(es@)));
        assert forall|a: int, b: int| 0 <= a < b < es@.len() implies es@[a].id@ != es@[b].id@ by {
            assert(entry_pairs(es@)[a].0 == es@[a].id@);
            assert(entry_pairs(es@)[b].0 == es@[b].id@);
            assert(keyed[a].0 == mv[a].0@);
            assert(keyed[b].0 == mv[b].0@);
            assert(mv[a].0@ != mv[b].0@);
        }
    }
    r
}

/// Name of the file that keeps a submission's grading record.
pub open spec fn record_file(id: Seq<char>) -> Seq<char> {
    id + ".json"@
}

/// Name of the file that keeps a submission's grading record.
pub fn record_file_name(id: &str) -> (r: String)
    ensures
        r@ == record_file(id@),
{
    let mut r = String::from_str(id);
    r.append(".json");
    r
}

/// Two identifiers with the same record file are the same identifier.
pub proof fn lemma_record_file_injective(a: Seq<char>, b: Seq<char>)
    ensures
        record_file(a) == record_file(b) ==> a == b,
{
    if record_file(a) == record_file(b) {
        assert(record_file(a).len() == a.len() + ".json"@.len());
        assert(record_file(b).len() == b.len() + ".json"@.len());
        assert(a =~= record_file(a).subrange(0, a.len() as int));
        assert(b =~= record_file(b).subrange(0, b.len() as int));
    }
}

/// Each submission of a manifest keeps its record in a file of its own, named
/// by its identifier alone: a run over the same manifest writes the same files
/// again, one per submission, and no two submissions share one.
pub proof fn lemma_one_record_file_per_submission(entries: Seq<ManifestEntry>)
    requires
        ids_distinct(entries),
    ensures
        forall|i: int, j: int|
            0 <= i < j < entries.len() ==> record_file(entries[i].id@) != record_file(
                entries[j].id@,
            ),
{
    assert forall|i: int, j: int| 0 <= i < j < entries.len() implies record_file(
        entries[i].id@,
    ) != record_file(entries[j].id@) by {
        lemma_record_file_injective(entries[i].id@, entries[j].id@);
    }
}

/// A run of the pipeline over the submissions of a manifest, one at a time,
/// in manifest order. A submission that fails is reported and the run goes
/// on with the next one.
pub struct BatchRun {
    pub entries: Vec<ManifestEntry>,
    pub next: usize,
    /// Identifiers of the submissions whose record was written.
    pub recorded: Vec<String>,
    /// Identifiers of the submissions that failed, with their error.
    pub failed: Vec<(String, PipelineError)>,
}

impl BatchRun {
    /// The invariant of a run.
    pub open spec fn wf(&self) -> bool {
        &&& self.next <= self.entries@.len()
        &&& self.recorded@.len() + self.failed@.len() == self.next
    }

    /// A run that has not started.
    pub fn new(entries: Vec<ManifestEntry>) -> (r: BatchRun)
        ensures
            r.wf(),
            r.entries == entries,
            r.next == 0,
            r.recorded@.len() == 0,
            r.failed@.len() == 0,
    {
        BatchRun { entries, next: 0, recorded: Vec::new(), failed: Vec::new() }
    }

    /// The submission to process next, or `None` once all are done.
    pub fn current(&self) -> (r: Option<&ManifestEntry>)
        requires
            self.wf(),
        ensures
            self.next < self.entries@.len() ==> r == Some(&self.entries@[self.next as int]),
            self.next >= self.entries@.len() ==> r is None,
    {
        if self.next < self.entries.len() {
            Some(&self.entries[self.next])
        } else {
            None
        }
    }

    /// The current submission ended with `result`: its identifier joins the
    /// recorded ones or the failed ones, and the run moves on to the next
    /// submission whatever the result.
    pub fn finish_current(&mut self, result: Result<(), PipelineError>)
        requires
            old(self).wf(),
            old(self).next < old(self).entries.len(),
        ensures
            final(self).wf(),
            final(self).entries == old(self).entries,
            final(self).next == old(self).next + 1,
            result is Ok ==> final(self).recorded@ == old(self).recorded@.push(
                old(self).entries@[old(self).next as int].id,
            ) && final(self).failed@ == old(self).failed@,
            result matches Err(e) ==> final(self).failed@ == old(self).failed@.push(
                (old(self).entries@[old(self).next as int].id, e),
            ) && final(self).recorded@ == old(self).recorded@,
    {
        let id = self.entries[self.next].id.clone();
        match result {
            Ok(()) => self.recorded.push(id),
            Err(e) => self.failed.push((id, e)),
        }
        self.next = self.next + 1;
    }
}

/// The manifest as a JSON object, two spaces of indent, one member a line.
pub open spec fn manifest_json(entries: Seq<ManifestEntry>) -> Seq<char> {
    if entries.len() == 0 {
        "{}"@
    } else {
        "{\n  "@ + manifest_members(entries) + "\n}"@
    }
}

/// One member of the manifest object.
pub open spec fn manifest_member(e: ManifestEntry) -> Seq<char> {
    json_quoted(e.id@) + ": "@ + json_quoted(e.source_dir@)
}

/// The members of the manifest object, one a line.
pub open spec fn manifest_members(entries: Seq<ManifestEntry>) -> Seq<char>
    decreases entries.len(),
{
    if entries.len() == 0 {
        Seq::empty()
    } else if entries.len() == 1 {
        manifest_member(entries[0])
    } else {
        manifest_members(entries.drop_last()) + ",\n  "@ + manifest_member(entries.last())
    }
}

/// The JSON text of a manifest.
pub fn write_manifest(entries: &Vec<ManifestEntry>) -> (r: String)
    ensures
        r@ == manifest_json(entries@),
{
    if entries.len() == 0 {
        return String::from_str("{}");
    }
    let mut out = String::from_str("{\n  ");
    let ghost head = out@;
    let mut i: usize = 0;
    while i < entries.len()
        invariant
            i <= entries@.len(),
            out@ == head + manifest_members(entries@.subrange(0, i as int)),
        decreases entries@.len() - i,
    {
        assert(entries@.subrange(0, i + 1).drop_last() =~= entries@.subrange(0, i as int));
        if i > 0 {
            out.append(",\n  ");
        }
        out.append(json_quote(entries[i].id.as_str()).as_str());
        out.append(": ");
        out.append(json_quote(entries[i].source_dir.as_str()).as_str());
        i = i + 1;
    }
    assert(entries@.subrange(0, i as int) =~= entries@);
    out.append("\n}");
    out
}

} // verus!
