# terminal_spinners

Terminal loading animations. The library decides, frame by frame, what a spinner
draws: `SpinnerBuilder` collects the animation, text and prefix, `into_spinner` gives
the render state, and `Spinner::step` takes what one poll of the command channel found
and returns the line to draw or the final line to leave. Each decision is proved against a
model (`next`, `expected_action`), and `laws.rs` proves what holds over runs of polls:
frames cycle in order, a text change persists, a stop is final, a plain stop keeps
the last line, and the spinner keeps to a single terminal line.

`app/` adds `StartSpinner::start`, which runs the spinner and gives back a
`SpinnerHandle` (`done`, `error`, `stop`, `stop_and_clear`, `text`, ...).

`print` holds spinners whose commands are flags: every waiting command is collected
before each frame, and a raised mark replaces the frame and ends the animation.

In `app/`, the render loop runs on a thread, over a channel, and writes to the terminal.
