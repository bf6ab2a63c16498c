use terminal_spinners::print::{mark, Action, Poll, Spinner, SpinnerBuilder, SpinnerCommand};
use terminal_spinners::{StopType, DOTS, LINE};

fn mark_choices(kind: StopType) -> Vec<String> {
    let (code, emoji, fallback) = match kind {
        StopType::Done => ("10", "\u{2714}", "\u{221a}"),
        StopType::Error => ("9", "\u{2716}", "\u{d7}"),
        StopType::Info => ("12", "\u{2139}", "i"),
        StopType::Warn => ("11", "\u{26a0}", "\u{203c}"),
        StopType::Unknown => unreachable!(),
    };
    vec![
        format!("\u{1b}[38;5;{}m{}\u{1b}[39m", code, emoji),
        format!("\u{1b}[38;5;{}m{}\u{1b}[39m", code, fallback),
        emoji.to_string(),
        fallback.to_string(),
    ]
}

fn started() -> Spinner {
    let mut builder = SpinnerBuilder::new();
    builder.spinner(&DOTS).text("Loading unicorns");
    builder.to_spinner()
}

#[test]
fn marks_are_colored_emojis_or_fallbacks() {
    for kind in [StopType::Done, StopType::Error, StopType::Info, StopType::Warn] {
        let text = mark(kind);
        assert!(mark_choices(kind).contains(&text), "{:?} gave {:?}", kind, text);
    }
}

#[test]
fn builder_chains_through_mutable_references() {
    let mut builder = SpinnerBuilder::new();
    builder.spinner(&LINE).text("a").text("b");
    let mut s = builder.to_spinner();
    assert_eq!(s.interval(), LINE.interval);
    assert_eq!(s.step(Poll::Empty), Action::Draw(format!("{}b", LINE.frames[0])));
}

#[test]
fn idle_polls_cycle_frames() {
    let mut s = started();
    for round in 0..2 {
        for i in 0..DOTS.frames.len() {
            assert_eq!(s.step(Poll::Empty), Action::Draw(format!("{}Loading unicorns", DOTS.frames[i])), "{} {}", round, i);
        }
    }
}

#[test]
fn commands_are_collected_before_the_draw() {
    let mut s = started();
    assert_eq!(s.step(Poll::Received(SpinnerCommand::Done)), Action::PollAgain);
    assert!(!s.is_finished());
    match s.step(Poll::Empty) {
        Action::Finish(line) => {
            let expected: Vec<String> =
                mark_choices(StopType::Done).iter().map(|m| format!("{} Loading unicorns", m)).collect();
            assert!(expected.contains(&line), "{:?}", line);
        }
        other => panic!("unexpected {:?}", other),
    }
    assert!(s.is_finished());
}

#[test]
fn warning_wins_over_other_marks() {
    let mut s = started();
    s.step(Poll::Received(SpinnerCommand::Info));
    s.step(Poll::Received(SpinnerCommand::Done));
    s.step(Poll::Received(SpinnerCommand::Warn));
    s.step(Poll::Received(SpinnerCommand::Error));
    match s.step(Poll::Empty) {
        Action::Finish(line) => {
            let expected: Vec<String> =
                mark_choices(StopType::Warn).iter().map(|m| format!("{} Loading unicorns", m)).collect();
            assert!(expected.contains(&line), "{:?}", line);
        }
        other => panic!("unexpected {:?}", other),
    }
}

#[test]
fn error_wins_over_done_and_info() {
    let mut s = started();
    s.step(Poll::Received(SpinnerCommand::Info));
    s.step(Poll::Received(SpinnerCommand::Error));
    s.step(Poll::Received(SpinnerCommand::Done));
    s.step(Poll::Received(SpinnerCommand::Stop));
    match s.step(Poll::Empty) {
        Action::Finish(line) => {
            let expected: Vec<String> =
                mark_choices(StopType::Error).iter().map(|m| format!("{} Loading unicorns", m)).collect();
            assert!(expected.contains(&line), "{:?}", line);
        }
        other => panic!("unexpected {:?}", other),
    }
}

#[test]
fn plain_stop_draws_the_frame_once_more() {
    let mut s = started();
    s.step(Poll::Empty);
    assert_eq!(s.step(Poll::Received(SpinnerCommand::Stop)), Action::PollAgain);
    assert_eq!(s.step(Poll::Empty), Action::Finish(format!("{}Loading unicorns", DOTS.frames[1])));
    assert!(s.is_finished());
}

#[test]
fn lost_connection_keeps_polling() {
    let mut s = started();
    for _ in 0..100 {
        assert_eq!(s.step(Poll::Disconnected), Action::PollAgain);
    }
    assert!(!s.is_finished());
}

#[test]
fn no_frames_means_no_animation() {
    let s = Spinner::new(Vec::new(), 5, "t".to_string());
    assert!(s.is_finished());
}
