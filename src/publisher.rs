//! The feedback publisher: the operator's choices after a verdict is stored,
//! and the tracker entry that they lead to.
use vstd::prelude::*;
use crate::names::{same_text, trim_text, trimmed};
use crate::tracker::{create_issue, Issue};

verus! {

/// Heading of the operator's own note.
pub const TEACHER_HEADING: &'static str = "👨‍🏫 **Teacher's note**:\n\n";

/// What separates the operator's note from the generated feedback.
pub const SECTION_BREAK: &'static str = "\n\n---\n\n";

/// Heading of the generated feedback.
pub const AI_HEADING: &'static str = "🤖 **AI Suggestions** (optional improvements, not requirements):\n\n";

/// What follows generated feedback that is published alone.
pub const AI_DISCLAIMER: &'static str = "\n\nNote: These suggestions are meant to help you learn and improve - they are not mandatory requirements that must be completed.";

/// The body of an entry that carries the operator's note ahead of the
/// generated feedback.
pub open spec fn body_with_note(note: Seq<char>, feedback: Seq<char>) -> Seq<char> {
    TEACHER_HEADING@ + trimmed(note) + SECTION_BREAK@ + AI_HEADING@ + feedback
}

/// The body of an entry that carries the generated feedback alone.
pub open spec fn body_without_note(feedback: Seq<char>) -> Seq<char> {
    AI_HEADING@ + feedback + AI_DISCLAIMER@
}

/// Where the publication of one verdict stands.
#[derive(Clone, Copy, Debug, PartialEq, Eq)]
pub enum PublishStep {
    /// Waiting for the answer to "publish this verdict?".
    AwaitDecision,
    /// Waiting for the answer to "add a note of your own?".
    AwaitNoteChoice,
    /// Reading the note, line by line, up to a line `DONE`.
    CollectingNote,
    Done,
}

/// What the driver of the publication does next.
pub enum PublishAction {
    /// Ask again whether to publish: the answer was neither `y` nor `n`.
    AskDecisionAgain,
    /// Ask whether the operator adds a note.
    AskNoteChoice,
    /// Read one more line of the note.
    ReadNoteLine,
    /// Post this entry to the tracker.
    Publish(Issue),
    /// Keep the verdict locally only.
    KeepLocal,
}

/// The operator's choices on one stored verdict.
pub struct Publication {
    pub status: String,
    pub feedback: String,
    pub note: String,
    pub step: PublishStep,
}

/// Whether `action` posts an entry with the given title and body.
pub open spec fn publishes(action: PublishAction, title: Seq<char>, body: Seq<char>) -> bool {
    action matches PublishAction::Publish(i) && i.title@ == title && i.body@ == body
}

impl Publication {
    /// The choices on a verdict of the given status and feedback, which has
    /// already been stored; the first question is whether to publish it.
    pub fn new(status: String, feedback: String) -> (r: Publication)
        ensures
            r.status == status,
            r.feedback == feedback,
            r.note@ == Seq::<char>::empty(),
            r.step == PublishStep::AwaitDecision,
    {
        Publication { status, feedback, note: String::new(), step: PublishStep::AwaitDecision }
    }

    /// The answer to "publish this verdict?": `y` goes on to the note, `n`
    /// keeps the verdict local, anything else is asked again.
    pub fn on_decision(&mut self, answer: &str) -> (r: PublishAction)
        requires
            old(self).step == PublishStep::AwaitDecision,
        ensures
            final(self).status == old(self).status,
            final(self).feedback == old(self).feedback,
            final(self).note == old(self).note,
            trimmed(answer@) == "y"@ ==> r is AskNoteChoice && final(self).step
                == PublishStep::AwaitNoteChoice,
            trimmed(answer@) == "n"@ ==> r is KeepLocal && final(self).step == PublishStep::Done,
            trimmed(answer@) != "y"@ && trimmed(answer@) != "n"@ ==> r is AskDecisionAgain
                && final(self).step == PublishStep::AwaitDecision,
    {
        let a = trim_text(answer);
        proof {
            reveal_strlit("y");
            reveal_strlit("n");
            assert("y"@[0] != "n"@[0]);
            assert("y"@ != "n"@);
        }
        if same_text(a.as_str(), "y") {
            self.step = PublishStep::AwaitNoteChoice;
            PublishAction::AskNoteChoice
        } else if same_text(a.as_str(), "n") {
            self.step = PublishStep::Done;
            PublishAction::KeepLocal
        } else {
            PublishAction::AskDecisionAgain
        }
    }

    /// The answer to "add a note of your own?": `y` starts reading the note;
    /// anything else publishes the generated feedback alone.
    pub fn on_note_choice(&mut self, answer: &str) -> (r: PublishAction)
        requires
            old(self).step == PublishStep::AwaitNoteChoice,
        ensures
            final(self).status == old(self).status,
            final(self).feedback == old(self).feedback,
            final(self).note == old(self).note,
            trimmed(answer@) == "y"@ ==> r is ReadNoteLine && final(self).step
                == PublishStep::CollectingNote,
            trimmed(answer@) != "y"@ ==> publishes(
                r,
                old(self).status@,
                body_without_note(old(self).feedback@),
            ) && final(self).step == PublishStep::Done,
    {
        let a = trim_text(answer);
        if same_text(a.as_str(), "y") {
            self.step = PublishStep::CollectingNote;
            PublishAction::ReadNoteLine
        } else {
            self.step = PublishStep::Done;
            let mut body = String::from_str(AI_HEADING);
            body.append(self.feedback.as_str());
            body.append(AI_DISCLAIMER);
            PublishAction::Publish(create_issue(self.status.clone(), body))
        }
    }

    /// One line of the note, as read (line ending included). A line `DONE`
    /// ends the note and publishes it ahead of the generated feedback; any
    /// other line is added to the note.
    pub fn on_note_line(&mut self, line: &str) -> (r: PublishAction)
        requires
            old(self).step == PublishStep::CollectingNote,
        ensures
            final(self).status == old(self).status,
            final(self).feedback == old(self).feedback,
            trimmed(line@) == "DONE"@ ==> publishes(
                r,
                old(self).status@,
                body_with_note(old(self).note@, old(self).feedback@),
            ) && final(self).step == PublishStep::Done && final(self).note == old(self).note,
            trimmed(line@) != "DONE"@ ==> r is ReadNoteLine && final(self).step
                == PublishStep::CollectingNote && final(self).note@ == old(self).note@ + line@,
    {
        let t = trim_text(line);
        if same_text(t.as_str(), "DONE") {
            self.step = PublishStep::Done;
            let mut body = String::from_str(TEACHER_HEADING);
            body.append(trim_text(self.note.as_str()).as_str());
            body.append(SECTION_BREAK);
            body.append(AI_HEADING);
            body.append(self.feedback.as_str());
            PublishAction::Publish(create_issue(self.status.clone(), body))
        } else {
            self.note.append(line);
            PublishAction::ReadNoteLine
        }
    }

    /// The operator's input ended before a choice was complete: nothing is
    /// published, the stored verdict stays.
    pub fn on_input_closed(&mut self) -> (r: PublishAction)
        ensures
            r is KeepLocal,
            final(self).step == PublishStep::Done,
            final(self).status == old(self).status,
            final(self).feedback == old(self).feedback,
            final(self).note == old(self).note,
    {
        self.step = PublishStep::Done;
        PublishAction::KeepLocal
    }
}

} // verus!
