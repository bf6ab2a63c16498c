use vstd::prelude::*;

use crate::render::{
    expected_action, frame_line, is_stop_line, last_frame, next, stop_line, stops, Action, Poll,
    SpinnerCommand, SpinnerView,
};
use crate::symbols::{symbol_emoji, symbol_fallback, StopType};

verus! {

/// The render state after a sequence of polls: each poll is taken in turn until the
/// animation ends; what comes after the end is never looked at.
pub open spec fn run(s: SpinnerView, polls: Seq<Poll>) -> SpinnerView
    decreases polls.len(),
{
    if polls.len() == 0 || s.finished {
        s
    } else {
        run(next(s, polls[0]), polls.drop_first())
    }
}

/// `n` polls that found no command.
pub open spec fn idle(n: nat) -> Seq<Poll> {
    Seq::new(n, |i: int| Poll::Empty)
}

/// Counting `n` on from a position already taken modulo `len` lands where counting on
/// from the position itself does.
pub(crate) proof fn lemma_shift_mod(a: nat, n: nat, len: nat)
    requires
        len > 0,
    ensures
        (a % len + n) % len == (a + n) % len,
{
    let ai = a as int;
    let ni = n as int;
    let li = len as int;
    vstd::arithmetic::div_mod::lemma_add_mod_noop(ai, ni, li);
    vstd::arithmetic::div_mod::lemma_add_mod_noop(ai % li, ni, li);
    vstd::arithmetic::div_mod::lemma_mod_twice(ai, li);
}

/// One poll keeps a spinner well formed.
pub proof fn lemma_next_wf(s: SpinnerView, poll: Poll)
    requires
        s.wf(),
        !s.finished,
    ensures
        next(s, poll).wf(),
        next(s, poll).frames == s.frames,
        next(s, poll).prefix == s.prefix,
        next(s, poll).interval == s.interval,
{
    if !stops(poll) {
        vstd::arithmetic::div_mod::lemma_mod_bound((s.frame + 1) as int, s.frames.len() as int);
    }
}

/// Whatever the polls, a spinner stays well formed, and its frames, prefix and interval
/// never change.
pub proof fn lemma_run_wf(s: SpinnerView, polls: Seq<Poll>)
    requires
        s.wf(),
    ensures
        run(s, polls).wf(),
        run(s, polls).frames == s.frames,
        run(s, polls).prefix == s.prefix,
        run(s, polls).interval == s.interval,
    decreases polls.len(),
{
    if polls.len() > 0 && !s.finished {
        lemma_next_wf(s, polls[0]);
        lemma_run_wf(next(s, polls[0]), polls.drop_first());
    }
}

/// Once the animation has ended, nothing that arrives changes it.
pub proof fn lemma_finished_is_final(s: SpinnerView, polls: Seq<Poll>)
    requires
        s.finished,
    ensures
        run(s, polls) == s,
{
}

/// A stop, of any kind, or a lost connection ends the animation at once; what arrives
/// after it is ignored.
pub proof fn lemma_stop_ends(s: SpinnerView, poll: Poll, rest: Seq<Poll>)
    requires
        s.wf(),
        !s.finished,
        stops(poll),
    ensures
        run(s, seq![poll] + rest) == (SpinnerView { finished: true, ..s }),
{
    let polls = seq![poll] + rest;
    assert(polls[0] == poll);
    lemma_finished_is_final(next(s, poll), polls.drop_first());
}

/// Frames are cycled through: after `n` polls with no command, a running spinner stands
/// `n` frames further on, wrapping around at the end, with the same text.
pub proof fn lemma_idle_cycle(s: SpinnerView, n: nat)
    requires
        s.wf(),
        !s.finished,
    ensures
        run(s, idle(n)) == (SpinnerView {
            frame: (s.frame + n) % s.frames.len(),
            drawn: s.drawn || n > 0,
            ..s
        }),
    decreases n,
{
    let len = s.frames.len();
    if n == 0 {
        vstd::arithmetic::div_mod::lemma_small_mod(s.frame, len);
    } else {
        let t = next(s, Poll::Empty);
        lemma_next_wf(s, Poll::Empty);
        assert(idle(n).drop_first() =~= idle((n - 1) as nat));
        assert(idle(n)[0] == Poll::Empty);
        lemma_idle_cycle(t, (n - 1) as nat);
        lemma_shift_mod(s.frame + 1, (n - 1) as nat, len);
    }
}

/// After as many polls with no command as there are frames, a running spinner is back
/// where it started, having drawn.
pub proof fn lemma_full_cycle(s: SpinnerView)
    requires
        s.wf(),
        !s.finished,
    ensures
        run(s, idle(s.frames.len())) == (SpinnerView { drawn: true, ..s }),
{
    let len = s.frames.len();
    lemma_idle_cycle(s, len);
    vstd::arithmetic::div_mod::lemma_mod_add_multiples_vanish(s.frame as int, len as int);
    vstd::arithmetic::div_mod::lemma_small_mod(s.frame, len);
}

/// The line drawn on the poll that follows `n` polls with no command shows frame
/// `frame + n`, counted around the animation, after the prefix and before the text.
pub proof fn lemma_idle_draw(s: SpinnerView, n: nat, action: Action)
    requires
        s.wf(),
        !s.finished,
        expected_action(run(s, idle(n)), Poll::Empty, action),
    ensures
        action matches Action::Draw(l) && l@ == frame_line(
            s.prefix,
            s.frames[((s.frame + n) % s.frames.len()) as int],
            s.text,
        ),
{
    lemma_idle_cycle(s, n);
}

/// A new text shows on the very next line drawn, and on every one after it while no
/// other command arrives.
pub proof fn lemma_text_change_persists(s: SpinnerView, text: String, n: nat)
    requires
        s.wf(),
        !s.finished,
    ensures
        run(s, seq![Poll::Received(SpinnerCommand::ChangeText(text))] + idle(n)) == (SpinnerView {
            text: text@,
            frame: (s.frame + 1 + n) % s.frames.len(),
            drawn: true,
            ..s
        }),
{
    let poll = Poll::Received(SpinnerCommand::ChangeText(text));
    let polls = seq![poll] + idle(n);
    let t = next(s, poll);
    lemma_next_wf(s, poll);
    assert(polls[0] == poll);
    assert(polls.drop_first() =~= idle(n));
    lemma_idle_cycle(t, n);
    lemma_shift_mod(s.frame + 1, n, s.frames.len());
}

/// A stop with a kind leaves the prefix, that kind's log symbol, a space and the latest
/// text on the line, ending it there.
pub proof fn lemma_stop_line(s: SpinnerView, kind: StopType, action: Action)
    requires
        !s.finished,
        expected_action(s, Poll::Received(SpinnerCommand::Stop(Some(kind))), action),
    ensures
        action matches Action::Finish(Some(l)) && is_stop_line(kind, s.prefix, s.text, l@),
{
}

/// A stop that clears, and a lost connection, leave the line empty; so does a plain stop
/// before any frame was drawn.
pub proof fn lemma_clearing_stops(s: SpinnerView, poll: Poll, action: Action)
    requires
        !s.finished,
        poll == Poll::Received(SpinnerCommand::StopAndClear) || poll == Poll::Disconnected
            || (poll == Poll::Received(SpinnerCommand::Stop(None)) && !s.drawn),
        expected_action(s, poll, action),
    ensures
        action matches Action::Finish(None),
{
}

/// A plain stop leaves the line last drawn on the terminal as it was: after `n` polls with
/// no command, at least one, it is the prefix, frame `frame + n - 1` counted around the
/// animation, and the text.
pub proof fn lemma_plain_stop_keeps_line(s: SpinnerView, n: nat, action: Action)
    requires
        s.wf(),
        !s.finished,
        n > 0,
        expected_action(run(s, idle(n)), Poll::Received(SpinnerCommand::Stop(None)), action),
    ensures
        action matches Action::Finish(Some(l)) && l@ == frame_line(
            s.prefix,
            s.frames[(((s.frame + n - 1) as nat) % s.frames.len()) as int],
            s.text,
        ),
{
    let len = s.frames.len();
    lemma_idle_cycle(s, n);
    lemma_idle_cycle(s, (n - 1) as nat);
    let t = run(s, idle(n));
    let k = ((s.frame + n - 1) as nat) % len;
    vstd::arithmetic::div_mod::lemma_mod_bound((s.frame + n - 1) as int, len as int);
    lemma_shift_mod((s.frame + n - 1) as nat, 1, len);
    // `t.frame` is `(k + 1) % len`, so the frame before it is `k`.
    if k + 1 == len {
        vstd::arithmetic::div_mod::lemma_mod_self_0(len as int);
    } else {
        vstd::arithmetic::div_mod::lemma_small_mod(k + 1, len);
    }
    assert(last_frame(t) == k);
}

/// The number of frame lines drawn over a sequence of polls, until the animation ends.
pub open spec fn draws(s: SpinnerView, polls: Seq<Poll>) -> nat
    decreases polls.len(),
{
    if polls.len() == 0 || s.finished {
        0
    } else {
        (if stops(polls[0]) { 0nat } else { 1nat }) + draws(next(s, polls[0]), polls.drop_first())
    }
}

/// A stop found by the poll at position `q` ends the animation, and at most `q` frame lines
/// are drawn before it: one per poll that comes first.
pub proof fn lemma_draws_before_stop(s: SpinnerView, polls: Seq<Poll>, q: nat)
    requires
        q < polls.len(),
        stops(polls[q as int]),
    ensures
        draws(s, polls) <= q,
        run(s, polls).finished,
    decreases q,
{
    if !s.finished {
        let t = next(s, polls[0]);
        if q == 0 {
            assert(t.finished);
            assert(draws(t, polls.drop_first()) == 0);
            assert(run(t, polls.drop_first()) == t);
        } else {
            assert(polls.drop_first()[q - 1] == polls[q as int]);
            lemma_draws_before_stop(t, polls.drop_first(), (q - 1) as nat);
        }
    }
}

/// Text with no line break in it.
pub open spec fn no_newline(text: Seq<char>) -> bool {
    forall|i: int| 0 <= i < text.len() ==> text[i] != '\n'
}

/// Whether prefix, text and every frame of a spinner are free of line breaks.
pub open spec fn single_line_parts(s: SpinnerView) -> bool {
    &&& no_newline(s.prefix)
    &&& no_newline(s.text)
    &&& forall|i: int| 0 <= i < s.frames.len() ==> no_newline(#[trigger] s.frames[i])
}

/// Whether a poll brings no line break: a new text must have none.
pub open spec fn single_line_poll(poll: Poll) -> bool {
    match poll {
        Poll::Received(SpinnerCommand::ChangeText(text)) => no_newline(text@),
        _ => true,
    }
}

proof fn lemma_concat_no_newline(a: Seq<char>, b: Seq<char>)
    requires
        no_newline(a),
        no_newline(b),
    ensures
        no_newline(a + b),
{
    assert forall|i: int| 0 <= i < (a + b).len() implies (a + b)[i] != '\n' by {
        if i < a.len() {
            assert((a + b)[i] == a[i]);
        } else {
            assert((a + b)[i] == b[i - a.len()]);
        }
    }
}

proof fn lemma_symbols_no_newline(kind: StopType)
    ensures
        no_newline(symbol_emoji(kind)),
        no_newline(symbol_fallback(kind)),
        no_newline(" "@),
{
    reveal_strlit(" ");
    reveal_strlit("\u{1b}[32m\u{2714}\u{1b}[0m");
    reveal_strlit("\u{1b}[32m\u{221a}\u{1b}[0m");
    reveal_strlit("\u{1b}[31m\u{2716}\u{1b}[0m");
    reveal_strlit("\u{1b}[31m\u{d7}\u{1b}[0m");
    reveal_strlit("\u{1b}[34m\u{2139}\u{1b}[0m");
    reveal_strlit("\u{1b}[34mi\u{1b}[0m");
    reveal_strlit("\u{1b}[33m\u{26a0}\u{1b}[0m");
    reveal_strlit("\u{1b}[33m\u{203c}\u{1b}[0m");
    reveal_strlit("\u{1b}[90m?\u{1b}[0m");
}

/// The spinner keeps to one terminal line: where its prefix, text and frames, and each new
/// text, hold no line break, a drawn line holds none, and a final line holds one only as
/// its last character, and only when a stop with a kind leaves its symbol. After that line
/// the animation has ended, so nothing follows it.
pub proof fn lemma_single_line(s: SpinnerView, poll: Poll, action: Action)
    requires
        s.wf(),
        !s.finished,
        single_line_parts(s),
        single_line_poll(poll),
        expected_action(s, poll, action),
    ensures
        single_line_parts(next(s, poll)),
        action matches Action::Draw(l) ==> no_newline(l@),
        action matches Action::Finish(Some(l)) ==> {
            if poll matches Poll::Received(SpinnerCommand::Stop(Some(_))) {
                &&& l@.len() > 0
                &&& l@.last() == '\n'
                &&& no_newline(l@.drop_last())
            } else {
                no_newline(l@)
            }
        },
        action matches Action::Finish(_) ==> next(s, poll).finished,
{
    let t = next(s, poll);
    assert(single_line_parts(t));
    match action {
        Action::Draw(l) => {
            let frame = s.frames[s.frame as int];
            assert(no_newline(frame));
            lemma_concat_no_newline(s.prefix, frame);
            let text = match poll {
                Poll::Received(SpinnerCommand::ChangeText(text)) => text@,
                _ => s.text,
            };
            lemma_concat_no_newline(s.prefix + frame, text);
        },
        Action::Finish(Some(l)) => {
            match poll {
                Poll::Received(SpinnerCommand::Stop(Some(kind))) => {
                    lemma_symbols_no_newline(kind);
                    reveal_strlit("\n");
                    let symbol = if l@ == stop_line(s.prefix, symbol_emoji(kind), s.text) {
                        symbol_emoji(kind)
                    } else {
                        symbol_fallback(kind)
                    };
                    lemma_concat_no_newline(s.prefix, symbol);
                    lemma_concat_no_newline(s.prefix + symbol, " "@);
                    lemma_concat_no_newline(s.prefix + symbol + " "@, s.text);
                    let body = s.prefix + symbol + " "@ + s.text;
                    assert(l@ == body + "\n"@);
                    assert(l@.drop_last() =~= body);
                },
                _ => {
                    let frame = s.frames[last_frame(s)];
                    assert(no_newline(frame));
                    lemma_concat_no_newline(s.prefix, frame);
                    lemma_concat_no_newline(s.prefix + frame, s.text);
                },
            }
        },
        Action::Finish(None) => {},
    }
}

} // verus!
