use einstellung::keys::{needs_push, read_accept_input, read_save_question, Decision};
use einstellung::manifest::read_configuration;
use einstellung::segment::{diff_lines, display_text, is_unchanged, tag_prefix, tag_style, Color, Segment, Tag};
use einstellung::session::{MergeSession, SessionOutcome, Step};

fn view(segments: &[Segment]) -> Vec<(Tag, String)> {
    segments.iter().map(|s| (s.tag, s.text.clone())).collect()
}

/// Drives a session to its end, answering every prompt with `answer`.
fn run(session: &mut MergeSession, answer: impl Fn(Tag) -> char) -> Vec<Tag> {
    let mut asked = Vec::new();
    loop {
        match session.step() {
            Step::Finished => return asked,
            Step::Ask(tag) => {
                asked.push(tag);
                assert!(session.decide(answer(tag)).is_some());
            }
            Step::Kept | Step::Applied(_) => {}
        }
    }
}

fn saved(outcome: SessionOutcome) -> Option<String> {
    match outcome {
        SessionOutcome::Saved(text) => Some(text),
        _ => None,
    }
}

#[test]
fn diff_of_one_changed_line() {
    let segs = diff_lines("a\nb\nc\n", "a\nx\nc\n");
    assert_eq!(
        view(&segs),
        vec![
            (Tag::Equal, "a\n".to_string()),
            (Tag::Delete, "b\n".to_string()),
            (Tag::Insert, "x\n".to_string()),
            (Tag::Equal, "c\n".to_string()),
        ]
    );
    assert!(!is_unchanged(&segs));
}

#[test]
fn accept_insert_reject_delete_gives_other() {
    let mut s = MergeSession::start("a\nb\nc\n", "a\nx\nc\n").unwrap();
    let asked = run(&mut s, |tag| if tag == Tag::Insert { 'a' } else { 's' });
    assert_eq!(asked, vec![Tag::Delete, Tag::Insert]);
    assert_eq!(s.result(), "a\nx\nc\n");
    assert!(s.wants_save());
    assert_eq!(saved(s.finish(true)), Some("a\nx\nc\n".to_string()));
}

#[test]
fn reject_insert_accept_delete_gives_original() {
    let mut s = MergeSession::start("a\nb\nc\n", "a\nx\nc\n").unwrap();
    run(&mut s, |tag| if tag == Tag::Insert { 's' } else { 'a' });
    assert_eq!(s.result(), "a\nb\nc\n");
    assert!(!s.wants_save());
    assert!(matches!(s.finish(true), SessionOutcome::Discarded));
}

#[test]
fn reject_everything_keeps_equal_lines() {
    let mut s = MergeSession::start("a\nb\nc\n", "a\nx\nc\n").unwrap();
    run(&mut s, |_| 'S');
    assert_eq!(s.result(), "a\nc\n");
}

#[test]
fn identical_texts_are_unchanged() {
    assert!(MergeSession::start("x", "x").is_none());
    assert!(MergeSession::start("a\nb\n", "a\nb\n").is_none());
    assert!(MergeSession::start("", "").is_none());
    assert!(is_unchanged(&diff_lines("a\nb\n", "a\nb\n")));
}

#[test]
fn empty_original_takes_everything() {
    let mut s = MergeSession::start("", "p\nq\n").unwrap();
    let asked = run(&mut s, |_| 'D');
    assert_eq!(asked, vec![Tag::Insert]);
    assert_eq!(saved(s.finish(true)), Some("p\nq\n".to_string()));
}

#[test]
fn block_accept_answers_following_lines_of_its_kind() {
    let mut s = MergeSession::start("a\nb\nc\n", "x\ny\nz\n").unwrap();
    assert_eq!(s.step(), Step::Ask(Tag::Delete));
    assert_eq!(s.decide('d'), Some(true));
    assert_eq!(s.step(), Step::Applied(true));
    assert_eq!(s.step(), Step::Applied(true));
    assert_eq!(s.step(), Step::Ask(Tag::Insert));
    assert_eq!(s.decide('f'), Some(false));
    assert_eq!(s.step(), Step::Applied(false));
    assert_eq!(s.step(), Step::Applied(false));
    assert_eq!(s.step(), Step::Finished);
    assert_eq!(s.result(), "a\nb\nc\n");
    assert!(!s.wants_save());
}

#[test]
fn single_answer_clears_block_decision() {
    let mut s = MergeSession::start("a\nb\n", "x\ny\n").unwrap();
    assert_eq!(s.step(), Step::Ask(Tag::Delete));
    assert_eq!(s.decide('a'), Some(true));
    assert_eq!(s.step(), Step::Ask(Tag::Delete));
    assert_eq!(s.decide('s'), Some(false));
    assert_eq!(s.step(), Step::Ask(Tag::Insert));
}

#[test]
fn block_decision_survives_equal_lines() {
    let mut s = MergeSession::start("a\nb\nc\n", "b\n").unwrap();
    assert_eq!(
        view(s.segments()),
        vec![
            (Tag::Delete, "a\n".to_string()),
            (Tag::Equal, "b\n".to_string()),
            (Tag::Delete, "c\n".to_string()),
        ]
    );
    assert_eq!(s.step(), Step::Ask(Tag::Delete));
    assert_eq!(s.decide('f'), Some(false));
    assert_eq!(s.step(), Step::Kept);
    assert_eq!(s.step(), Step::Applied(false));
    assert_eq!(s.step(), Step::Finished);
    assert_eq!(s.result(), "b\n");
}

#[test]
fn unknown_key_changes_nothing() {
    let mut s = MergeSession::start("a\n", "b\n").unwrap();
    assert_eq!(s.step(), Step::Ask(Tag::Delete));
    assert_eq!(s.decide('x'), None);
    assert_eq!(s.decide('q'), None);
    assert_eq!(s.step(), Step::Ask(Tag::Delete));
    assert_eq!(s.result(), "");
}

#[test]
fn deletions_alone_never_save() {
    let mut s = MergeSession::start("a\nb\n", "a\n").unwrap();
    run(&mut s, |_| 's');
    assert_eq!(s.result(), "a\n");
    assert!(!s.wants_save());
    assert!(matches!(s.finish(true), SessionOutcome::Discarded));
}

#[test]
fn declined_save_discards() {
    let mut s = MergeSession::start("a\n", "a\nb\n").unwrap();
    run(&mut s, |_| 'a');
    assert!(s.wants_save());
    assert!(matches!(s.finish(false), SessionOutcome::Discarded));
}

#[test]
fn segments_and_current() {
    let mut s = MergeSession::start("a\nb\n", "a\nc\n").unwrap();
    assert_eq!(s.segments().len(), 3);
    assert_eq!(s.current().tag, Tag::Equal);
    assert_eq!(s.decided(), 0);
    assert_eq!(s.step(), Step::Kept);
    assert_eq!(s.decided(), 1);
    assert_eq!(s.current().text, "b\n");
}

#[test]
fn accept_keys() {
    let d = |accept, block| Some(Decision { accept, block });
    assert_eq!(read_accept_input('a'), d(true, false));
    assert_eq!(read_accept_input('A'), d(true, false));
    assert_eq!(read_accept_input('s'), d(false, false));
    assert_eq!(read_accept_input('S'), d(false, false));
    assert_eq!(read_accept_input('d'), d(true, true));
    assert_eq!(read_accept_input('D'), d(true, true));
    assert_eq!(read_accept_input('f'), d(false, true));
    assert_eq!(read_accept_input('F'), d(false, true));
    assert_eq!(read_accept_input('x'), None);
    assert_eq!(read_accept_input(' '), None);
}

#[test]
fn save_keys() {
    assert_eq!(read_save_question('s'), Some(true));
    assert_eq!(read_save_question('S'), Some(true));
    assert_eq!(read_save_question('d'), Some(false));
    assert_eq!(read_save_question('D'), Some(false));
    assert_eq!(read_save_question('a'), None);
}

#[test]
fn push_only_when_different() {
    assert!(!needs_push(&"x".to_string(), &"x".to_string()));
    assert!(needs_push(&"x".to_string(), &"y".to_string()));
    assert!(needs_push(&"x\n".to_string(), &"x".to_string()));
}

#[test]
fn prefixes_and_colors() {
    assert_eq!(tag_prefix(Tag::Equal), ' ');
    assert_eq!(tag_prefix(Tag::Insert), '+');
    assert_eq!(tag_prefix(Tag::Delete), '-');
    assert_eq!(tag_style(Tag::Equal), Color::Plain);
    assert_eq!(tag_style(Tag::Insert), Color::Green);
    assert_eq!(tag_style(Tag::Delete), Color::Red);
}

#[test]
fn display_trims_line_end() {
    assert_eq!(display_text("abc \t\r\n"), "abc");
    assert_eq!(display_text("  x y\n"), "  x y");
    assert_eq!(display_text("\n"), "");
    assert_eq!(display_text(""), "");
}

#[test]
fn manifest_entries_skip_blank_and_comments() {
    let text = "# comment\nconfig ./backup/config\n\n   \nrc $HOME/rc  /tmp/rc\n#x y\n";
    let entries = read_configuration(text);
    assert_eq!(entries.len(), 2);
    assert_eq!(entries[0].original, "config");
    assert_eq!(entries[0].others, vec!["./backup/config".to_string()]);
    assert_eq!(entries[1].original, "rc");
    assert_eq!(entries[1].others, vec!["$HOME/rc".to_string(), "/tmp/rc".to_string()]);
}

#[test]
fn manifest_line_without_others() {
    let entries = read_configuration("alone\r\n");
    assert_eq!(entries.len(), 1);
    assert_eq!(entries[0].original, "alone");
    assert!(entries[0].others.is_empty());
    assert!(read_configuration("").is_empty());
}

#[test]
fn last_line_without_newline() {
    let segs = diff_lines("a\nb", "a\nc");
    assert_eq!(
        view(&segs),
        vec![
            (Tag::Equal, "a\n".to_string()),
            (Tag::Delete, "b".to_string()),
            (Tag::Insert, "c".to_string()),
        ]
    );
    let mut s = MergeSession::start("a\nb", "a\nc").unwrap();
    run(&mut s, |tag| if tag == Tag::Insert { 'a' } else { 's' });
    assert_eq!(saved(s.finish(true)), Some("a\nc".to_string()));
}

#[test]
fn write_mode_identical_content_is_not_pushed() {
    let original = "x".to_string();
    let other = "x".to_string();
    assert!(!needs_push(&original, &other));
    assert!(MergeSession::start(&original, &other).is_none());
}
