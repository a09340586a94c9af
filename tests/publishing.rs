use imagi::publisher::{PublishAction, PublishStep, Publication};

fn publication() -> Publication {
    Publication::new("PASS".to_string(), "Nice loops.".to_string())
}

#[test]
fn invalid_answer_is_asked_again() {
    let mut p = publication();
    assert!(matches!(p.on_decision("maybe\n"), PublishAction::AskDecisionAgain));
    assert_eq!(p.step, PublishStep::AwaitDecision);
    assert!(matches!(p.on_decision(" y \n"), PublishAction::AskNoteChoice));
    assert_eq!(p.step, PublishStep::AwaitNoteChoice);
}

#[test]
fn declining_keeps_the_verdict_local() {
    let mut p = publication();
    assert!(matches!(p.on_decision("n\n"), PublishAction::KeepLocal));
    assert_eq!(p.step, PublishStep::Done);
}

#[test]
fn publishing_without_a_note() {
    let mut p = publication();
    p.on_decision("y\n");
    match p.on_note_choice("n\n") {
        PublishAction::Publish(issue) => {
            assert_eq!(issue.title, "PASS");
            assert_eq!(
                issue.body,
                "🤖 **AI Suggestions** (optional improvements, not requirements):\n\nNice loops.\n\nNote: These suggestions are meant to help you learn and improve - they are not mandatory requirements that must be completed."
            );
        },
        _ => panic!("expected an entry to publish"),
    }
    assert_eq!(p.step, PublishStep::Done);
}

#[test]
fn publishing_with_a_note_puts_it_first() {
    let mut p = publication();
    p.on_decision("y\n");
    assert!(matches!(p.on_note_choice("y\n"), PublishAction::ReadNoteLine));
    assert!(matches!(p.on_note_line("Well done.\n"), PublishAction::ReadNoteLine));
    assert!(matches!(p.on_note_line("  \n"), PublishAction::ReadNoteLine));
    assert_eq!(p.note, "Well done.\n  \n");
    match p.on_note_line("DONE\n") {
        PublishAction::Publish(issue) => {
            assert_eq!(issue.title, "PASS");
            assert_eq!(
                issue.body,
                "👨\u{200d}🏫 **Teacher's note**:\n\nWell done.\n\n---\n\n🤖 **AI Suggestions** (optional improvements, not requirements):\n\nNice loops."
            );
        },
        _ => panic!("expected an entry to publish"),
    }
}

#[test]
fn closed_input_publishes_nothing() {
    let mut p = publication();
    p.on_decision("y\n");
    assert!(matches!(p.on_input_closed(), PublishAction::KeepLocal));
    assert_eq!(p.step, PublishStep::Done);
}

#[test]
fn answers_are_trimmed_of_unicode_whitespace() {
    let mut p = publication();
    assert!(matches!(p.on_decision("\u{3000}n\u{a0}\r\n"), PublishAction::KeepLocal));
    let mut q = publication();
    assert!(matches!(q.on_decision("\u{200b}y"), PublishAction::AskDecisionAgain));
}
