use terminal_spinners::{
    render_frame_line, render_stop_line, Action, Poll, Spinner, SpinnerBuilder, SpinnerCommand,
    StopType, ARROW, BOUNCING_BALL, DOTS,
};

fn symbol_choices(kind: StopType) -> [&'static str; 2] {
    match kind {
        StopType::Done => ["\u{1b}[32m\u{2714}\u{1b}[0m", "\u{1b}[32m\u{221a}\u{1b}[0m"],
        StopType::Error => ["\u{1b}[31m\u{2716}\u{1b}[0m", "\u{1b}[31m\u{d7}\u{1b}[0m"],
        StopType::Info => ["\u{1b}[34m\u{2139}\u{1b}[0m", "\u{1b}[34mi\u{1b}[0m"],
        StopType::Warn => ["\u{1b}[33m\u{26a0}\u{1b}[0m", "\u{1b}[33m\u{203c}\u{1b}[0m"],
        StopType::Unknown => ["\u{1b}[90m?\u{1b}[0m", "\u{1b}[90m?\u{1b}[0m"],
    }
}

fn started(prefix: Option<&str>) -> Spinner {
    let builder = SpinnerBuilder::new().spinner(&DOTS).text("Loading unicorns");
    match prefix {
        Some(p) => builder.prefix(p).into_spinner(),
        None => builder.into_spinner(),
    }
}

#[test]
fn frame_line_joins_prefix_frame_text() {
    assert_eq!(render_frame_line("> ", "-", "Loading"), "> -Loading");
    assert_eq!(render_frame_line("", "", ""), "");
}

#[test]
fn stop_line_joins_prefix_symbol_text_and_newline() {
    assert_eq!(render_stop_line("> ", "S", "Done"), "> S Done\n");
    assert_eq!(render_stop_line("", "S", ""), "S \n");
}

#[test]
fn each_stop_type_renders_its_symbol() {
    for kind in [StopType::Done, StopType::Error, StopType::Info, StopType::Warn, StopType::Unknown] {
        let text = kind.symbol();
        assert!(symbol_choices(kind).contains(&text.as_str()), "{:?} gave {:?}", kind, text);
    }
}

#[test]
fn started_spinner_takes_the_data_of_its_animation() {
    let s = started(None);
    assert!(!s.is_finished());
    assert_eq!(s.interval(), DOTS.interval);
}

#[test]
fn first_poll_draws_first_frame_without_prefix() {
    let mut s = started(None);
    let action = s.step(Poll::Empty);
    assert_eq!(action, Action::Draw(format!("{}Loading unicorns", DOTS.frames[0])));
}

#[test]
fn prefix_comes_before_the_frame() {
    let mut s = started(Some("[build] "));
    let action = s.step(Poll::Empty);
    assert_eq!(action, Action::Draw(format!("[build] {}Loading unicorns", DOTS.frames[0])));
}

#[test]
fn frames_are_cycled_through_and_wrap_around() {
    let mut s = SpinnerBuilder::new().spinner(&ARROW).text("x").into_spinner();
    let count = ARROW.frames.len();
    for round in 0..2 {
        for i in 0..count {
            let action = s.step(Poll::Empty);
            assert_eq!(action, Action::Draw(format!("{}x", ARROW.frames[i])), "round {} frame {}", round, i);
        }
    }
    assert!(!s.is_finished());
}

#[test]
fn text_change_shows_on_the_next_line_and_stays() {
    let mut s = started(None);
    let first = s.step(Poll::Received(SpinnerCommand::ChangeText("Almost there".to_string())));
    assert_eq!(first, Action::Draw(format!("{}Almost there", DOTS.frames[0])));
    let second = s.step(Poll::Empty);
    assert_eq!(second, Action::Draw(format!("{}Almost there", DOTS.frames[1])));
}

#[test]
fn done_leaves_success_symbol_with_prefix_and_text() {
    let mut s = started(Some("> "));
    s.step(Poll::Empty);
    let action = s.step(Poll::Received(SpinnerCommand::Stop(Some(StopType::Done))));
    assert!(s.is_finished());
    let choices = symbol_choices(StopType::Done);
    let expected = [
        format!("> {} Loading unicorns\n", choices[0]),
        format!("> {} Loading unicorns\n", choices[1]),
    ];
    match action {
        Action::Finish(Some(line)) => assert!(expected.contains(&line), "{:?}", line),
        other => panic!("unexpected {:?}", other),
    }
}

#[test]
fn every_kind_of_stop_leaves_its_symbol() {
    for kind in [StopType::Error, StopType::Info, StopType::Warn, StopType::Unknown] {
        let mut s = started(None);
        let action = s.step(Poll::Received(SpinnerCommand::Stop(Some(kind))));
        let choices = symbol_choices(kind);
        match action {
            Action::Finish(Some(line)) => assert!(
                line == format!("{} Loading unicorns\n", choices[0])
                    || line == format!("{} Loading unicorns\n", choices[1])
            ),
            other => panic!("unexpected {:?}", other),
        }
    }
}

#[test]
fn stop_uses_the_latest_text() {
    let mut s = started(None);
    s.step(Poll::Received(SpinnerCommand::ChangeText("Finished".to_string())));
    let action = s.step(Poll::Received(SpinnerCommand::Stop(Some(StopType::Unknown))));
    assert_eq!(action, Action::Finish(Some("\u{1b}[90m?\u{1b}[0m Finished\n".to_string())));
}

#[test]
fn plain_stop_before_any_frame_leaves_nothing() {
    let mut s = started(None);
    assert_eq!(s.step(Poll::Received(SpinnerCommand::Stop(None))), Action::Finish(None));
    assert!(s.is_finished());
}

#[test]
fn plain_stop_keeps_the_last_line() {
    let mut s = started(Some("> "));
    s.step(Poll::Empty);
    s.step(Poll::Empty);
    let action = s.step(Poll::Received(SpinnerCommand::Stop(None)));
    assert_eq!(action, Action::Finish(Some(format!("> {}Loading unicorns", DOTS.frames[1]))));
    assert!(s.is_finished());
}

#[test]
fn plain_stop_keeps_the_last_frame_across_the_wrap() {
    let mut s = Spinner::new(vec!["a".to_string(), "b".to_string()], 1, "t".to_string(), String::new());
    assert_eq!(s.step(Poll::Empty), Action::Draw("at".to_string()));
    assert_eq!(s.step(Poll::Empty), Action::Draw("bt".to_string()));
    assert_eq!(s.step(Poll::Received(SpinnerCommand::Stop(None))), Action::Finish(Some("bt".to_string())));
}

#[test]
fn plain_stop_keeps_the_changed_text() {
    let mut s = started(None);
    s.step(Poll::Received(SpinnerCommand::ChangeText("New".to_string())));
    let action = s.step(Poll::Received(SpinnerCommand::Stop(None)));
    assert_eq!(action, Action::Finish(Some(format!("{}New", DOTS.frames[0]))));
}

#[test]
fn stop_and_clear_after_frames_leaves_nothing() {
    let mut s = started(None);
    s.step(Poll::Empty);
    assert_eq!(s.step(Poll::Received(SpinnerCommand::StopAndClear)), Action::Finish(None));
}

#[test]
fn only_a_symbol_line_ends_with_a_newline() {
    for poll in [
        Poll::Received(SpinnerCommand::Stop(None)),
        Poll::Received(SpinnerCommand::Stop(Some(StopType::Info))),
        Poll::Received(SpinnerCommand::StopAndClear),
        Poll::Disconnected,
    ] {
        let mut s = started(Some("p "));
        let mut lines = Vec::new();
        for _ in 0..3 {
            if let Action::Draw(line) = s.step(Poll::Empty) {
                lines.push(line);
            }
        }
        let symbol = matches!(poll, Poll::Received(SpinnerCommand::Stop(Some(_))));
        if let Action::Finish(Some(line)) = s.step(poll) {
            lines.push(line);
        }
        let output: String = lines.concat();
        let newlines = output.matches('\n').count();
        assert_eq!(newlines, if symbol { 1 } else { 0 });
        if symbol {
            assert!(output.ends_with('\n'));
        }
    }
}

#[test]
fn stop_and_clear_leaves_nothing() {
    let mut s = started(None);
    assert_eq!(s.step(Poll::Received(SpinnerCommand::StopAndClear)), Action::Finish(None));
    assert!(s.is_finished());
}

#[test]
fn lost_connection_ends_without_a_line() {
    let mut s = started(None);
    assert_eq!(s.step(Poll::Disconnected), Action::Finish(None));
    assert!(s.is_finished());
}

#[test]
fn spinner_without_frames_has_ended_before_it_began() {
    let s = Spinner::new(Vec::new(), 80, "text".to_string(), String::new());
    assert!(s.is_finished());
}

#[test]
fn single_frame_repeats() {
    let mut s = Spinner::new(vec!["*".to_string()], 10, "t".to_string(), "p".to_string());
    for _ in 0..3 {
        assert_eq!(s.step(Poll::Empty), Action::Draw("p*t".to_string()));
    }
}

#[test]
fn later_settings_replace_earlier_ones() {
    let mut s = SpinnerBuilder::new()
        .spinner(&ARROW)
        .spinner(&BOUNCING_BALL)
        .text("a")
        .text("b")
        .prefix("1")
        .prefix("2")
        .into_spinner();
    assert_eq!(s.interval(), BOUNCING_BALL.interval);
    assert_eq!(s.step(Poll::Empty), Action::Draw(format!("2{}b", BOUNCING_BALL.frames[0])));
}

#[test]
fn cloned_builder_starts_the_same_spinner() {
    let builder = SpinnerBuilder::new().spinner(&DOTS).text("same");
    let mut a = builder.clone().into_spinner();
    let mut b = builder.into_spinner();
    assert_eq!(a.step(Poll::Empty), b.step(Poll::Empty));
}

#[test]
fn unset_prefix_behaves_as_empty_prefix() {
    let mut a = SpinnerBuilder::new().spinner(&DOTS).text("t").into_spinner();
    let mut b = SpinnerBuilder::new().spinner(&DOTS).text("t").prefix("").into_spinner();
    assert_eq!(a.step(Poll::Received(SpinnerCommand::Stop(None))), Action::Finish(None));
    assert_eq!(b.step(Poll::Received(SpinnerCommand::Stop(None))), Action::Finish(None));
    let mut a = SpinnerBuilder::new().spinner(&DOTS).text("t").into_spinner();
    let mut b = SpinnerBuilder::new().spinner(&DOTS).text("t").prefix("").into_spinner();
    for _ in 0..DOTS.frames.len() + 2 {
        assert_eq!(a.step(Poll::Empty), b.step(Poll::Empty));
    }
    assert_eq!(
        a.step(Poll::Received(SpinnerCommand::Stop(None))),
        b.step(Poll::Received(SpinnerCommand::Stop(None)))
    );
}
