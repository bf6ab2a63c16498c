use vstd::prelude::*;

use crate::symbols::{symbol_emoji, symbol_fallback, StopType};

verus! {

/// A command that a spinner handle sends to the render loop.
#[derive(Debug, PartialEq, Eq)]
pub enum SpinnerCommand {
    /// Changes the text of the spinner. The change is visible once the spinner gets redrawn.
    ChangeText(String),
    /// Stops the spinner; with a kind, its log symbol is left on the line.
    Stop(Option<StopType>),
    /// Stops the spinner and clears the line it was printed on.
    StopAndClear,
}

/// What the render loop found when it looked for a command before drawing a frame.
#[derive(Debug, PartialEq, Eq)]
pub enum Poll {
    /// A command arrived.
    Received(SpinnerCommand),
    /// No command is waiting.
    Empty,
    /// Every handle is gone: no command can ever arrive.
    Disconnected,
}

/// What the render loop does next. Before either, the current line is cleared and the
/// cursor moved to its first column; a line that is to stay is therefore written again.
#[derive(Debug, PartialEq, Eq)]
pub enum Action {
    /// Writes the line, then waits for the spinner's interval before the next poll.
    Draw(String),
    /// Writes the final line, if any, and ends the animation; with none, the line stays empty.
    Finish(Option<String>),
}

/// The render state of a running spinner: what the animation shows and where it stands.
pub struct Spinner {
    frames: Vec<String>,
    interval: u64,
    text: String,
    prefix: String,
    frame: usize,
    drawn: bool,
    finished: bool,
}

/// The model of a spinner's render state.
pub struct SpinnerView {
    /// The frames of the animation, each by its characters.
    pub frames: Seq<Seq<char>>,
    /// The time between two frames, in milliseconds.
    pub interval: u64,
    /// The text shown after the animation.
    pub text: Seq<char>,
    /// The text shown before the animation.
    pub prefix: Seq<char>,
    /// The index of the frame that is drawn next.
    pub frame: nat,
    /// Whether a frame has been drawn yet.
    pub drawn: bool,
    /// Whether the animation has ended.
    pub finished: bool,
}

impl SpinnerView {
    /// A running spinner always has a frame to draw next.
    pub open spec fn wf(self) -> bool {
        !self.finished ==> self.frame < self.frames.len()
    }
}

impl View for Spinner {
    type V = SpinnerView;

    closed spec fn view(&self) -> SpinnerView {
        SpinnerView {
            frames: self.frames.deep_view(),
            interval: self.interval,
            text: self.text@,
            prefix: self.prefix@,
            frame: self.frame as nat,
            drawn: self.drawn,
            finished: self.finished,
        }
    }
}

/// The line of a running animation: prefix, current frame, text.
pub open spec fn frame_line(prefix: Seq<char>, frame: Seq<char>, text: Seq<char>) -> Seq<char> {
    prefix + frame + text
}

/// The line that a stop with a log symbol leaves: prefix, symbol, a space, text, newline.
pub open spec fn stop_line(prefix: Seq<char>, symbol: Seq<char>, text: Seq<char>) -> Seq<char> {
    prefix + symbol + " "@ + text + "\n"@
}

/// Whether a poll ends the animation: any stop command, and a lost connection.
pub open spec fn stops(poll: Poll) -> bool {
    match poll {
        Poll::Received(SpinnerCommand::ChangeText(_)) => false,
        Poll::Empty => false,
        _ => true,
    }
}

/// The text after a poll: the new one where the poll changes it.
pub open spec fn text_after(s: SpinnerView, poll: Poll) -> Seq<char> {
    match poll {
        Poll::Received(SpinnerCommand::ChangeText(text)) => text@,
        _ => s.text,
    }
}

/// The render state after one poll of a running spinner.
pub open spec fn next(s: SpinnerView, poll: Poll) -> SpinnerView {
    if stops(poll) {
        SpinnerView { finished: true, ..s }
    } else {
        SpinnerView {
            text: text_after(s, poll),
            frame: (s.frame + 1) % s.frames.len(),
            drawn: true,
            ..s
        }
    }
}

/// The index of the frame drawn last: the one before the next, counted around the animation.
pub open spec fn last_frame(s: SpinnerView) -> int {
    if s.frame == 0 {
        s.frames.len() - 1
    } else {
        s.frame - 1
    }
}

/// The line that a plain stop leaves: the line last drawn, as it was; nothing where no
/// frame was drawn yet.
pub open spec fn plain_stop_line(s: SpinnerView) -> Option<Seq<char>> {
    if s.drawn {
        Some(frame_line(s.prefix, s.frames[last_frame(s)], s.text))
    } else {
        None
    }
}

/// Whether `line` is a final line that a stop of the given kind may leave.
pub open spec fn is_stop_line(kind: StopType, prefix: Seq<char>, text: Seq<char>, line: Seq<char>) -> bool {
    line == stop_line(prefix, symbol_emoji(kind), text) || line == stop_line(prefix, symbol_fallback(kind), text)
}

/// Whether `action` is what a running spinner in state `s` does on `poll`: it draws the
/// current frame with the (possibly new) text; on a stop with a kind it leaves the symbol
/// line; on a plain stop it leaves the line last drawn; on a stop that clears, or a lost
/// connection, it leaves nothing.
pub open spec fn expected_action(s: SpinnerView, poll: Poll, action: Action) -> bool {
    if stops(poll) {
        match action {
            Action::Finish(line) => match poll {
                Poll::Received(SpinnerCommand::Stop(Some(kind))) => line matches Some(l)
                    && is_stop_line(kind, s.prefix, s.text, l@),
                Poll::Received(SpinnerCommand::Stop(None)) => match plain_stop_line(s) {
                    Some(kept) => line matches Some(l) && l@ == kept,
                    None => line is None,
                },
                _ => line is None,
            },
            Action::Draw(_) => false,
        }
    } else {
        action matches Action::Draw(l) && l@ == frame_line(s.prefix, s.frames[s.frame as int], text_after(s, poll))
    }
}

/// Joins prefix, frame and text into the line of a running animation.
pub fn render_frame_line(prefix: &str, frame: &str, text: &str) -> (line: String)
    ensures
        line@ == frame_line(prefix@, frame@, text@),
{
    let mut line = String::from_str(prefix);
    line.append(frame);
    line.append(text);
    line
}

/// Joins prefix, log symbol and text into the line that a stop leaves, ending it with a newline.
pub fn render_stop_line(prefix: &str, symbol: &str, text: &str) -> (line: String)
    ensures
        line@ == stop_line(prefix@, symbol@, text@),
{
    let mut line = String::from_str(prefix);
    line.append(symbol);
    line.append(" ");
    line.append(text);
    line.append("\n");
    proof {
        reveal_strlit(" ");
        reveal_strlit("\n");
    }
    line
}

impl Spinner {
    #[verifier::type_invariant]
    spec fn inv(self) -> bool {
        !self.finished ==> self.frame < self.frames.len()
    }

    /// A spinner about to draw its first frame. With no frames there is nothing to
    /// animate, and it has ended before it began.
    pub fn new(frames: Vec<String>, interval: u64, text: String, prefix: String) -> (s: Spinner)
        ensures
            s@.frames == frames.deep_view(),
            s@.interval == interval,
            s@.text == text@,
            s@.prefix == prefix@,
            s@.frame == 0,
            !s@.drawn,
            s@.finished == (frames.len() == 0),
            s@.wf(),
    {
        let finished = frames.len() == 0;
        Spinner { frames, interval, text, prefix, frame: 0, drawn: false, finished }
    }

    /// Whether the animation has ended.
    pub fn is_finished(&self) -> (finished: bool)
        ensures
            finished == self@.finished,
    {
        self.finished
    }

    /// The time to wait after drawing a frame, in milliseconds.
    pub fn interval(&self) -> (interval: u64)
        ensures
            interval == self@.interval,
    {
        self.interval
    }

    /// Decides what a running spinner does with what one poll found: a text change is
    /// taken and the current frame drawn; no command draws the current frame; a stop, or a
    /// lost connection, ends the animation, leaving the symbol line of a stop with a kind.
    pub fn step(&mut self, poll: Poll) -> (action: Action)
        requires
            !old(self)@.finished,
        ensures
            final(self)@ == next(old(self)@, poll),
            final(self)@.wf(),
            expected_action(old(self)@, poll, action),
    {
        proof {
            use_type_invariant(&*self);
        }
        match poll {
            Poll::Received(SpinnerCommand::ChangeText(text)) => {
                self.text = text;
                self.draw()
            },
            Poll::Empty => self.draw(),
            Poll::Received(SpinnerCommand::Stop(kind)) => {
                self.finished = true;
                match kind {
                    Some(kind) => {
                        let symbol = kind.symbol();
                        let line = render_stop_line(self.prefix.as_str(), symbol.as_str(), self.text.as_str());
                        Action::Finish(Some(line))
                    },
                    None => {
                        if self.drawn {
                            let last = if self.frame == 0 { self.frames.len() - 1 } else { self.frame - 1 };
                            let line = render_frame_line(self.prefix.as_str(), self.frames[last].as_str(), self.text.as_str());
                            Action::Finish(Some(line))
                        } else {
                            Action::Finish(None)
                        }
                    },
                }
            },
            Poll::Received(SpinnerCommand::StopAndClear) => {
                self.finished = true;
                Action::Finish(None)
            },
            Poll::Disconnected => {
                self.finished = true;
                Action::Finish(None)
            },
        }
    }

    /// Draws the current frame and moves on to the next one, wrapping around at the end.
    fn draw(&mut self) -> (action: Action)
        requires
            !old(self)@.finished,
        ensures
            final(self)@ == (SpinnerView {
                frame: (old(self)@.frame + 1) % old(self)@.frames.len(),
                drawn: true,
                ..old(self)@
            }),
            action matches Action::Draw(l) && l@ == frame_line(
                old(self)@.prefix,
                old(self)@.frames[old(self)@.frame as int],
                old(self)@.text,
            ),
    {
        proof {
            use_type_invariant(&*self);
        }
        let line = render_frame_line(self.prefix.as_str(), self.frames[self.frame].as_str(), self.text.as_str());
        let count = self.frames.len();
        let following = if self.frame + 1 == count { 0 } else { self.frame + 1 };
        proof {
            if self.frame + 1 == count {
                vstd::arithmetic::div_mod::lemma_mod_self_0(count as int);
            } else {
                vstd::arithmetic::div_mod::lemma_small_mod((self.frame + 1) as nat, count as nat);
            }
        }
        self.frame = following;
        self.drawn = true;
        Action::Draw(line)
    }
}

} // verus!
