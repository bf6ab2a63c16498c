//! Spinners whose commands are flags: the render loop collects every waiting command
//! before each frame; a raised mark flag replaces the frame by its colored mark and ends
//! the animation, and a stop flag ends it after the frame.
use std::fmt::Write;
use vstd::prelude::*;

use crate::data::{frames_of, interval_of, spinner_frames, spinner_interval};
use crate::symbols::StopType;

verus! {

/// A command that a spinner handle sends to the render loop.
#[derive(Clone, Copy, PartialEq, Eq, Structural, Debug)]
pub enum SpinnerCommand {
    Done,
    Error,
    Info,
    Stop,
    Warn,
}

/// What the render loop found when it looked for a command.
#[derive(Clone, Copy, PartialEq, Eq, Structural, Debug)]
pub enum Poll {
    /// A command arrived.
    Received(SpinnerCommand),
    /// No command is waiting: the frame is drawn.
    Empty,
    /// Every handle is gone: no command can ever arrive.
    Disconnected,
}

/// What the render loop does next.
#[derive(Debug, PartialEq, Eq)]
pub enum Action {
    /// Looks for another command before drawing.
    PollAgain,
    /// Clears the line, writes this one, then waits for the spinner's interval.
    Draw(String),
    /// Clears the line, writes this one, and ends the animation.
    Finish(String),
}

/// The emoji of a mark, where the terminal shows emojis.
pub open spec fn mark_emoji(kind: StopType) -> Seq<char> {
    match kind {
        StopType::Done => "\u{2714}"@,
        StopType::Error => "\u{2716}"@,
        StopType::Info => "\u{2139}"@,
        StopType::Warn => "\u{26a0}"@,
        StopType::Unknown => "?"@,
    }
}

/// The fallback of a mark, where the terminal shows no emojis.
pub open spec fn mark_fallback(kind: StopType) -> Seq<char> {
    match kind {
        StopType::Done => "\u{221a}"@,
        StopType::Error => "\u{d7}"@,
        StopType::Info => "i"@,
        StopType::Warn => "\u{203c}"@,
        StopType::Unknown => "?"@,
    }
}

/// Text set in the foreground color of the given ANSI 256-color code, then the
/// foreground reset.
pub open spec fn painted(code: Seq<char>, text: Seq<char>) -> Seq<char> {
    "\u{1b}[38;5;"@ + code + "m"@ + text + "\u{1b}[39m"@
}

/// The ANSI 256-color code of each mark: green, red, blue and yellow.
pub open spec fn mark_color(kind: StopType) -> Seq<char> {
    match kind {
        StopType::Done => "10"@,
        StopType::Error => "9"@,
        StopType::Info => "12"@,
        StopType::Warn => "11"@,
        StopType::Unknown => "7"@,
    }
}

/// What a mark may render as: its emoji or its fallback, in its color where the terminal
/// takes color escapes and plain where the color is set through the console instead.
pub open spec fn is_mark_text(kind: StopType, text: Seq<char>) -> bool {
    ||| text == painted(mark_color(kind), mark_emoji(kind))
    ||| text == painted(mark_color(kind), mark_fallback(kind))
    ||| text == mark_emoji(kind)
    ||| text == mark_fallback(kind)
}

/// Renders `terminal_emoji::Emoji::new(emoji, fallback)` through its `Display`. Claims
/// the text is the emoji or the fallback; which one depends on whether stdout is a
/// terminal and on the environment.
#[verifier::external_body]
fn emoji_text(emoji: &'static str, fallback: &'static str) -> (text: String)
    ensures
        text@ == emoji@ || text@ == fallback@,
{
    terminal_emoji::Emoji::new(emoji, fallback).to_string()
}

/// Writes `crossterm::style::Colorize::red` of the text into a `String` through its
/// `Display`. Claims the text comes out between the escape for color 9 and the
/// foreground reset, or unchanged: on a Windows console that takes no escapes the color
/// is set through the console instead, and where that fails (no console at all) the
/// formatting error is caught and the text is returned as it was.
#[verifier::external_body]
fn paint_red(text: String) -> (painted_text: String)
    ensures
        painted_text@ == "\u{1b}[38;5;9m"@ + text@ + "\u{1b}[39m"@ || painted_text@ == text@,
{
    let mut painted_text = String::new();
    match write!(painted_text, "{}", crossterm::style::Colorize::red(text.clone())) {
        Ok(()) => painted_text,
        Err(_) => text,
    }
}

/// Writes `crossterm::style::Colorize::green` of the text into a `String` through its
/// `Display`. Claims the text comes out between the escape for color 10 and the
/// foreground reset, or unchanged: on a Windows console that takes no escapes the color
/// is set through the console instead, and where that fails (no console at all) the
/// formatting error is caught and the text is returned as it was.
#[verifier::external_body]
fn paint_green(text: String) -> (painted_text: String)
    ensures
        painted_text@ == "\u{1b}[38;5;10m"@ + text@ + "\u{1b}[39m"@ || painted_text@ == text@,
{
    let mut painted_text = String::new();
    match write!(painted_text, "{}", crossterm::style::Colorize::green(text.clone())) {
        Ok(()) => painted_text,
        Err(_) => text,
    }
}

/// Writes `crossterm::style::Colorize::blue` of the text into a `String` through its
/// `Display`. Claims the text comes out between the escape for color 12 and the
/// foreground reset, or unchanged: on a Windows console that takes no escapes the color
/// is set through the console instead, and where that fails (no console at all) the
/// formatting error is caught and the text is returned as it was.
#[verifier::external_body]
fn paint_blue(text: String) -> (painted_text: String)
    ensures
        painted_text@ == "\u{1b}[38;5;12m"@ + text@ + "\u{1b}[39m"@ || painted_text@ == text@,
{
    let mut painted_text = String::new();
    match write!(painted_text, "{}", crossterm::style::Colorize::blue(text.clone())) {
        Ok(()) => painted_text,
        Err(_) => text,
    }
}

/// Writes `crossterm::style::Colorize::yellow` of the text into a `String` through its
/// `Display`. Claims the text comes out between the escape for color 11 and the
/// foreground reset, or unchanged: on a Windows console that takes no escapes the color
/// is set through the console instead, and where that fails (no console at all) the
/// formatting error is caught and the text is returned as it was.
#[verifier::external_body]
fn paint_yellow(text: String) -> (painted_text: String)
    ensures
        painted_text@ == "\u{1b}[38;5;11m"@ + text@ + "\u{1b}[39m"@ || painted_text@ == text@,
{
    let mut painted_text = String::new();
    match write!(painted_text, "{}", crossterm::style::Colorize::yellow(text.clone())) {
        Ok(()) => painted_text,
        Err(_) => text,
    }
}

/// The colored mark that a spinner whose commands are flags leaves when it ends: a check mark in
/// green, a cross in red, an information sign in blue, a warning sign in yellow.
pub fn mark(kind: StopType) -> (text: String)
    requires
        kind != StopType::Unknown,
    ensures
        is_mark_text(kind, text@),
{
    proof {
        reveal_strlit("\u{1b}[38;5;");
        reveal_strlit("m");
        reveal_strlit("\u{1b}[38;5;9m");
        reveal_strlit("\u{1b}[38;5;10m");
        reveal_strlit("\u{1b}[38;5;11m");
        reveal_strlit("\u{1b}[38;5;12m");
        reveal_strlit("9");
        reveal_strlit("10");
        reveal_strlit("11");
        reveal_strlit("12");
    }
    match kind {
        StopType::Done => {
            let t = paint_green(emoji_text("\u{2714}", "\u{221a}"));
            assert("\u{1b}[38;5;10m"@ =~= "\u{1b}[38;5;"@ + "10"@ + "m"@);
            t
        },
        StopType::Error => {
            let t = paint_red(emoji_text("\u{2716}", "\u{d7}"));
            assert("\u{1b}[38;5;9m"@ =~= "\u{1b}[38;5;"@ + "9"@ + "m"@);
            t
        },
        StopType::Info => {
            let t = paint_blue(emoji_text("\u{2139}", "i"));
            assert("\u{1b}[38;5;12m"@ =~= "\u{1b}[38;5;"@ + "12"@ + "m"@);
            t
        },
        _ => {
            let t = paint_yellow(emoji_text("\u{26a0}", "\u{203c}"));
            assert("\u{1b}[38;5;11m"@ =~= "\u{1b}[38;5;"@ + "11"@ + "m"@);
            t
        },
    }
}

/// The render state of a running spinner whose commands are flags.
pub struct Spinner {
    frames: Vec<String>,
    interval: u64,
    text: String,
    frame: usize,
    is_done: bool,
    is_error: bool,
    is_info: bool,
    is_warn: bool,
    stop_requested: bool,
    finished: bool,
}

/// The model of a spinner's render state.
pub struct SpinnerView {
    /// The frames of the animation, each by its characters.
    pub frames: Seq<Seq<char>>,
    /// The time between two frames, in milliseconds.
    pub interval: u64,
    /// The text shown after the animation.
    pub text: Seq<char>,
    /// The index of the frame that is drawn next.
    pub frame: nat,
    /// Whether a success mark was asked for.
    pub is_done: bool,
    /// Whether an error mark was asked for.
    pub is_error: bool,
    /// Whether an information mark was asked for.
    pub is_info: bool,
    /// Whether a warning mark was asked for.
    pub is_warn: bool,
    /// Whether the animation ends after the frame that is being prepared.
    pub stop_requested: bool,
    /// Whether the animation has ended.
    pub finished: bool,
}

impl SpinnerView {
    /// A running spinner always has a frame to draw next.
    pub open spec fn wf(self) -> bool {
        !self.finished ==> self.frame < self.frames.len()
    }
}

impl View for Spinner {
    type V = SpinnerView;

    closed spec fn view(&self) -> SpinnerView {
        SpinnerView {
            frames: self.frames.deep_view(),
            interval: self.interval,
            text: self.text@,
            frame: self.frame as nat,
            is_done: self.is_done,
            is_error: self.is_error,
            is_info: self.is_info,
            is_warn: self.is_warn,
            stop_requested: self.stop_requested,
            finished: self.finished,
        }
    }
}

/// The mark that the next line shows, if any: a warning before an error, an error before
/// a success, a success before an information.
pub open spec fn chosen_mark(s: SpinnerView) -> Option<StopType> {
    if s.is_warn {
        Some(StopType::Warn)
    } else if s.is_error {
        Some(StopType::Error)
    } else if s.is_done {
        Some(StopType::Done)
    } else if s.is_info {
        Some(StopType::Info)
    } else {
        None
    }
}

/// Whether the line being prepared is the last one: a mark is shown, or a stop was asked for.
pub open spec fn ends_now(s: SpinnerView) -> bool {
    chosen_mark(s) is Some || s.stop_requested
}

/// The render state after one poll of a running spinner.
pub open spec fn next(s: SpinnerView, poll: Poll) -> SpinnerView {
    match poll {
        Poll::Received(SpinnerCommand::Done) => SpinnerView { is_done: true, ..s },
        Poll::Received(SpinnerCommand::Error) => SpinnerView { is_error: true, ..s },
        Poll::Received(SpinnerCommand::Info) => SpinnerView { is_info: true, ..s },
        Poll::Received(SpinnerCommand::Warn) => SpinnerView { is_warn: true, ..s },
        Poll::Received(SpinnerCommand::Stop) => SpinnerView { stop_requested: true, ..s },
        Poll::Disconnected => SpinnerView { stop_requested: true, ..s },
        Poll::Empty => if ends_now(s) {
            SpinnerView { finished: true, ..s }
        } else {
            SpinnerView { frame: (s.frame + 1) % s.frames.len(), ..s }
        },
    }
}

/// Whether `line` is a line that shows the given mark before the text.
pub open spec fn is_mark_line(kind: StopType, text: Seq<char>, line: Seq<char>) -> bool {
    exists|mark: Seq<char>| #[trigger] is_mark_text(kind, mark) && line == mark + " "@ + text
}

/// Whether `action` is what a running spinner in state `s` does on `poll`: a command or a
/// lost connection sends it back for another poll; with no command waiting it draws the
/// chosen mark, or else the current frame, before the text, and ends if it should.
pub open spec fn expected_action(s: SpinnerView, poll: Poll, action: Action) -> bool {
    match poll {
        Poll::Empty => {
            let line_ok = |l: Seq<char>| match chosen_mark(s) {
                Some(kind) => is_mark_line(kind, s.text, l),
                None => l == s.frames[s.frame as int] + s.text,
            };
            if ends_now(s) {
                action matches Action::Finish(l) && line_ok(l@)
            } else {
                action matches Action::Draw(l) && line_ok(l@)
            }
        },
        _ => action is PollAgain,
    }
}

impl Spinner {
    #[verifier::type_invariant]
    spec fn inv(self) -> bool {
        !self.finished ==> self.frame < self.frames.len()
    }

    /// A spinner about to look for its first command. With no frames there is nothing to
    /// animate, and it has ended before it began.
    pub fn new(frames: Vec<String>, interval: u64, text: String) -> (s: Spinner)
        ensures
            s@ == (SpinnerView {
                frames: frames.deep_view(),
                interval,
                text: text@,
                frame: 0,
                is_done: false,
                is_error: false,
                is_info: false,
                is_warn: false,
                stop_requested: false,
                finished: frames.len() == 0,
            }),
            s@.wf(),
    {
        let finished = frames.len() == 0;
        Spinner {
            frames,
            interval,
            text,
            frame: 0,
            is_done: false,
            is_error: false,
            is_info: false,
            is_warn: false,
            stop_requested: false,
            finished,
        }
    }

    /// Whether the animation has ended.
    pub fn is_finished(&self) -> (finished: bool)
        ensures
            finished == self@.finished,
    {
        self.finished
    }

    /// The time to wait after drawing a frame, in milliseconds.
    pub fn interval(&self) -> (interval: u64)
        ensures
            interval == self@.interval,
    {
        self.interval
    }

    /// Decides what a running spinner does with what one poll found: a command raises its
    /// flag, a lost connection asks for a stop, and both send the loop back for another
    /// poll; with no command waiting, the line is drawn, and the animation ends if a mark
    /// was shown or a stop asked for, or else moves on to the next frame.
    pub fn step(&mut self, poll: Poll) -> (action: Action)
        requires
            !old(self)@.finished,
        ensures
            final(self)@ == next(old(self)@, poll),
            final(self)@.wf(),
            expected_action(old(self)@, poll, action),
    {
        proof {
            use_type_invariant(&*self);
        }
        match poll {
            Poll::Received(SpinnerCommand::Done) => {
                self.is_done = true;
                Action::PollAgain
            },
            Poll::Received(SpinnerCommand::Error) => {
                self.is_error = true;
                Action::PollAgain
            },
            Poll::Received(SpinnerCommand::Info) => {
                self.is_info = true;
                Action::PollAgain
            },
            Poll::Received(SpinnerCommand::Warn) => {
                self.is_warn = true;
                Action::PollAgain
            },
            Poll::Received(SpinnerCommand::Stop) => {
                self.stop_requested = true;
                Action::PollAgain
            },
            Poll::Disconnected => {
                self.stop_requested = true;
                Action::PollAgain
            },
            Poll::Empty => self.render(),
        }
    }

    /// Draws the line of the current frame: the chosen mark, or else the frame, before
    /// the text; then ends, or moves on to the next frame.
    fn render(&mut self) -> (action: Action)
        requires
            !old(self)@.finished,
        ensures
            final(self)@ == next(old(self)@, Poll::Empty),
            expected_action(old(self)@, Poll::Empty, action),
    {
        proof {
            use_type_invariant(&*self);
        }
        let kind = if self.is_warn {
            Some(StopType::Warn)
        } else if self.is_error {
            Some(StopType::Error)
        } else if self.is_done {
            Some(StopType::Done)
        } else if self.is_info {
            Some(StopType::Info)
        } else {
            None
        };
        let line = match kind {
            Some(kind) => {
                let mark_text = mark(kind);
                let mut line = mark_text.clone();
                line.append(" ");
                line.append(self.text.as_str());
                line
            },
            None => {
                let mut line = self.frames[self.frame].clone();
                line.append(self.text.as_str());
                line
            },
        };
        if kind.is_some() || self.stop_requested {
            self.finished = true;
            Action::Finish(line)
        } else {
            let count = self.frames.len();
            let following = if self.frame + 1 == count { 0 } else { self.frame + 1 };
            proof {
                if self.frame + 1 == count {
                    vstd::arithmetic::div_mod::lemma_mod_self_0(count as int);
                } else {
                    vstd::arithmetic::div_mod::lemma_small_mod((self.frame + 1) as nat, count as nat);
                }
            }
            self.frame = following;
            Action::Draw(line)
        }
    }
}

/// A builder for creating a terminal spinner whose commands are flags.
#[derive(Clone)]
pub struct SpinnerBuilder {
    spinner_data: Option<&'static terminal_spinner_data::SpinnerData<'static>>,
    text: Option<&'static str>,
}

/// The model of a builder: what has been set so far.
pub struct SpinnerBuilderView {
    /// The spinner animation to use.
    pub spinner_data: Option<terminal_spinner_data::SpinnerData<'static>>,
    /// The text to show after the animation.
    pub text: Option<Seq<char>>,
}

impl View for SpinnerBuilder {
    type V = SpinnerBuilderView;

    closed spec fn view(&self) -> SpinnerBuilderView {
        SpinnerBuilderView {
            spinner_data: match self.spinner_data {
                Some(data) => Some(*data),
                None => None,
            },
            text: match self.text {
                Some(text) => Some(text@),
                None => None,
            },
        }
    }
}

impl Default for SpinnerBuilder {
    /// A builder with nothing set.
    fn default() -> (builder: SpinnerBuilder)
        ensures
            builder@.spinner_data is None,
            builder@.text is None,
    {
        SpinnerBuilder { spinner_data: None, text: None }
    }
}

impl<'a> SpinnerBuilder {
    /// Creates a new builder.
    pub fn new() -> (builder: SpinnerBuilder)
        ensures
            builder@.spinner_data is None,
            builder@.text is None,
    {
        SpinnerBuilder::default()
    }

    /// The spinner animation to use.
    pub fn spinner(&'a mut self, spinner: &'static terminal_spinner_data::SpinnerData<'static>) -> (builder: &'a mut SpinnerBuilder)
        ensures
            builder@ == (SpinnerBuilderView { spinner_data: Some(*spinner), ..old(self)@ }),
            final(self)@ == final(builder)@,
    {
        self.spinner_data = Some(spinner);
        self
    }

    /// The text to show after the spinner animation.
    pub fn text(&'a mut self, text: &'static str) -> (builder: &'a mut SpinnerBuilder)
        ensures
            builder@ == (SpinnerBuilderView { text: Some(text@), ..old(self)@ }),
            final(self)@ == final(builder)@,
    {
        self.text = Some(text);
        self
    }

    /// Whether a spinner and a text have been set, as starting needs.
    pub fn is_ready(&self) -> (ready: bool)
        ensures
            ready == (self@.spinner_data is Some && self@.text is Some),
    {
        self.spinner_data.is_some() && self.text.is_some()
    }

    /// The render state of a spinner that has not looked for a command yet, as starting a
    /// spinner does before the render thread takes it over: the frames and
    /// interval of the chosen animation and the text, with no mark asked for. A spinner and
    /// a text must have been set.
    pub fn to_spinner(&self) -> (s: Spinner)
        requires
            self@.spinner_data is Some,
            self@.text is Some,
        ensures
            s@ == (SpinnerView {
                frames: spinner_frames(self@.spinner_data->0),
                interval: spinner_interval(self@.spinner_data->0),
                text: self@.text->0,
                frame: 0,
                is_done: false,
                is_error: false,
                is_info: false,
                is_warn: false,
                stop_requested: false,
                finished: spinner_frames(self@.spinner_data->0).len() == 0,
            }),
            s@.wf(),
    {
        let data = self.spinner_data.unwrap();
        let text = String::from_str(self.text.unwrap());
        let frames = frames_of(data);
        Spinner::new(frames, interval_of(data), text)
    }
}

/// The render state after a sequence of polls: each poll is taken in turn until the
/// animation ends; what comes after the end is never looked at.
pub open spec fn run(s: SpinnerView, polls: Seq<Poll>) -> SpinnerView
    decreases polls.len(),
{
    if polls.len() == 0 || s.finished {
        s
    } else {
        run(next(s, polls[0]), polls.drop_first())
    }
}

/// `n` copies of one poll.
pub open spec fn repeated(poll: Poll, n: nat) -> Seq<Poll> {
    Seq::new(n, |i: int| poll)
}

/// One poll keeps a spinner well formed, its frames, text and interval unchanged, and
/// never lowers a raised flag.
pub proof fn lemma_next_wf(s: SpinnerView, poll: Poll)
    requires
        s.wf(),
        !s.finished,
    ensures
        next(s, poll).wf(),
        next(s, poll).frames == s.frames,
        next(s, poll).text == s.text,
        next(s, poll).interval == s.interval,
        s.is_done ==> next(s, poll).is_done,
        s.is_error ==> next(s, poll).is_error,
        s.is_info ==> next(s, poll).is_info,
        s.is_warn ==> next(s, poll).is_warn,
        s.stop_requested ==> next(s, poll).stop_requested,
{
    if poll == Poll::Empty && !ends_now(s) {
        vstd::arithmetic::div_mod::lemma_mod_bound((s.frame + 1) as int, s.frames.len() as int);
    }
}

/// Whatever the polls, a spinner stays well formed, with the same frames, text and interval.
pub proof fn lemma_run_wf(s: SpinnerView, polls: Seq<Poll>)
    requires
        s.wf(),
    ensures
        run(s, polls).wf(),
        run(s, polls).frames == s.frames,
        run(s, polls).text == s.text,
        run(s, polls).interval == s.interval,
    decreases polls.len(),
{
    if polls.len() > 0 && !s.finished {
        lemma_next_wf(s, polls[0]);
        lemma_run_wf(next(s, polls[0]), polls.drop_first());
    }
}

/// A mark that was asked for ends the animation at the next draw, whatever else was
/// asked for before it.
pub proof fn lemma_mark_ends(s: SpinnerView, command: SpinnerCommand)
    requires
        s.wf(),
        !s.finished,
        command != SpinnerCommand::Stop,
    ensures
        run(s, seq![Poll::Received(command), Poll::Empty]).finished,
        chosen_mark(next(s, Poll::Received(command))) is Some,
{
    let polls = seq![Poll::Received(command), Poll::Empty];
    let t = next(s, Poll::Received(command));
    assert(polls.drop_first() =~= seq![Poll::Empty]);
    assert(seq![Poll::Empty].drop_first() =~= Seq::<Poll>::empty());
    lemma_next_wf(s, Poll::Received(command));
    assert(run(t, seq![Poll::Empty]) == run(next(t, Poll::Empty), Seq::<Poll>::empty()));
}

/// The mark that a command asks for: a success for `done`, an error for `error`, an
/// information for `info`, a warning for `warn`; a plain stop asks for none.
pub open spec fn requested_mark(command: SpinnerCommand) -> Option<StopType> {
    match command {
        SpinnerCommand::Done => Some(StopType::Done),
        SpinnerCommand::Error => Some(StopType::Error),
        SpinnerCommand::Info => Some(StopType::Info),
        SpinnerCommand::Warn => Some(StopType::Warn),
        SpinnerCommand::Stop => None,
    }
}

/// Whether no mark and no stop has been asked for yet.
pub open spec fn nothing_requested(s: SpinnerView) -> bool {
    !s.is_done && !s.is_error && !s.is_info && !s.is_warn && !s.stop_requested
}

/// Each command raises its own flag and no other, and draws nothing: `done` the success
/// flag, `error` the error flag, `info` the information flag, `warn` the warning flag,
/// `stop` the stop flag. The frame, the text and the running state stay as they were.
pub proof fn lemma_command_raises_its_flag(s: SpinnerView, command: SpinnerCommand)
    requires
        s.wf(),
        !s.finished,
    ensures
        next(s, Poll::Received(command)).is_done == (s.is_done || command == SpinnerCommand::Done),
        next(s, Poll::Received(command)).is_error == (s.is_error || command == SpinnerCommand::Error),
        next(s, Poll::Received(command)).is_info == (s.is_info || command == SpinnerCommand::Info),
        next(s, Poll::Received(command)).is_warn == (s.is_warn || command == SpinnerCommand::Warn),
        next(s, Poll::Received(command)).stop_requested == (s.stop_requested || command
            == SpinnerCommand::Stop),
        next(s, Poll::Received(command)).frame == s.frame,
        next(s, Poll::Received(command)).text == s.text,
        !next(s, Poll::Received(command)).finished,
{
}

/// On a spinner with nothing asked for yet, a command that asks for a mark, followed by a
/// poll that finds no command, ends the animation with exactly that mark before the text:
/// `info` shows the information sign, `done` the check mark, `error` the cross, `warn`
/// the warning sign.
pub proof fn lemma_mark_command_shows_its_mark(s: SpinnerView, command: SpinnerCommand, action: Action)
    requires
        s.wf(),
        !s.finished,
        nothing_requested(s),
        requested_mark(command) is Some,
        expected_action(next(s, Poll::Received(command)), Poll::Empty, action),
    ensures
        action matches Action::Finish(l) && is_mark_line(requested_mark(command)->0, s.text, l@),
        next(next(s, Poll::Received(command)), Poll::Empty).finished,
{
    lemma_command_raises_its_flag(s, command);
    assert(chosen_mark(next(s, Poll::Received(command))) == requested_mark(command));
}

/// A warning wins over every other mark, an error over a success and an information,
/// a success over an information.
pub proof fn lemma_mark_precedence(s: SpinnerView)
    ensures
        s.is_warn ==> chosen_mark(s) == Some(StopType::Warn),
        !s.is_warn && s.is_error ==> chosen_mark(s) == Some(StopType::Error),
        !s.is_warn && !s.is_error && s.is_done ==> chosen_mark(s) == Some(StopType::Done),
        !s.is_warn && !s.is_error && !s.is_done && s.is_info ==> chosen_mark(s) == Some(StopType::Info),
{
}

/// A plain stop with no mark asked for draws the current frame one last time, then ends.
pub proof fn lemma_stop_draws_last_frame(s: SpinnerView, action: Action)
    requires
        s.wf(),
        !s.finished,
        chosen_mark(s) is None,
        expected_action(next(s, Poll::Received(SpinnerCommand::Stop)), Poll::Empty, action),
    ensures
        action matches Action::Finish(l) && l@ == s.frames[s.frame as int] + s.text,
        next(next(s, Poll::Received(SpinnerCommand::Stop)), Poll::Empty).finished,
{
}

/// A known defect of this form, kept as the code has it: when every handle is gone
/// without a stop, the loop keeps polling and never draws again. The lost connection is
/// noted as a stop, but only a poll that finds no command would draw the last line, and
/// after a lost connection none comes; the render thread spins.
pub proof fn lemma_disconnected_never_ends(s: SpinnerView, n: nat)
    requires
        s.wf(),
        !s.finished,
    ensures
        !run(s, repeated(Poll::Disconnected, n)).finished,
        run(s, repeated(Poll::Disconnected, n)).frame == s.frame,
    decreases n,
{
    if n > 0 {
        assert(repeated(Poll::Disconnected, n).drop_first() =~= repeated(Poll::Disconnected, (n - 1) as nat));
        lemma_next_wf(s, Poll::Disconnected);
        lemma_disconnected_never_ends(next(s, Poll::Disconnected), (n - 1) as nat);
    }
}

/// With no command and no mark or stop asked for, frames are cycled through: after `n`
/// draws the spinner stands `n` frames further on, wrapping around at the end.
pub proof fn lemma_idle_cycle(s: SpinnerView, n: nat)
    requires
        s.wf(),
        !s.finished,
        !ends_now(s),
    ensures
        run(s, repeated(Poll::Empty, n)) == (SpinnerView { frame: (s.frame + n) % s.frames.len(), ..s }),
    decreases n,
{
    let len = s.frames.len();
    if n == 0 {
        vstd::arithmetic::div_mod::lemma_small_mod(s.frame, len);
    } else {
        let t = next(s, Poll::Empty);
        lemma_next_wf(s, Poll::Empty);
        assert(repeated(Poll::Empty, n).drop_first() =~= repeated(Poll::Empty, (n - 1) as nat));
        lemma_idle_cycle(t, (n - 1) as nat);
        crate::laws::lemma_shift_mod(s.frame + 1, (n - 1) as nat, len);
    }
}

} // verus!
