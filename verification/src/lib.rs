//! Terminal loading animations: the decisions of the render loop, verified.
mod builder;
mod data;
mod laws;
pub mod print;
mod render;
mod symbols;

pub use builder::{prefix_or_empty, SpinnerBuilder, SpinnerBuilderView};
pub use data::{spinner_frames, spinner_interval};
pub use laws::{
    draws, idle, lemma_clearing_stops, lemma_draws_before_stop, lemma_finished_is_final,
    lemma_full_cycle, lemma_idle_cycle, lemma_idle_draw, lemma_next_wf, lemma_plain_stop_keeps_line,
    lemma_run_wf, lemma_single_line, lemma_stop_ends, lemma_stop_line, lemma_text_change_persists,
    no_newline, run, single_line_parts, single_line_poll,
};
pub use render::{
    expected_action, frame_line, is_stop_line, last_frame, next, plain_stop_line, render_frame_line,
    render_stop_line, stop_line, stops, text_after, Action, Poll, Spinner, SpinnerCommand,
    SpinnerView,
};
pub use symbols::{is_symbol_text, symbol_emoji, symbol_fallback, StopType};
pub use terminal_spinner_data::{
    SpinnerData, AESTHETIC, ARC, ARROW, ARROW2, ARROW3, BALLOON, BALLOON2, BETA_WAVE, BLUE_PULSE,
    BOUNCE, BOUNCING_BALL, BOUNCING_BAR, BOX_BOUNCE, BOX_BOUNCE2, CHRISTMAS, CIRCLE,
    CIRCLE_HALVES, CIRCLE_QUARTERS, CLOCK, DOTS, DOTS10, DOTS11, DOTS12, DOTS2, DOTS3, DOTS4,
    DOTS5, DOTS6, DOTS7, DOTS8, DOTS8_BIT, DOTS9, DQPB, EARTH, FINGER_DANCE, FIST_BUMP, FLIP,
    GRENADE, GROW_HORIZONTAL, GROW_VERTICAL, HAMBURGER, HEARTS, LAYER, LINE, LINE2, MATERIAL,
    MINDBLOWN, MONKEY, MOON, NOISE, ORANGE_BLUE_PULSE, ORANGE_PULSE, PIPE, POINT, PONG, RUNNER,
    SHARK, SIMPLE_DOTS, SIMPLE_DOTS_SCROLLING, SMILEY, SOCCER_HEADER, SPEAKER, SQUARE_CORNERS,
    SQUISH, STAR, STAR2, TIME_TRAVEL, TOGGLE, TOGGLE10, TOGGLE11, TOGGLE12, TOGGLE13, TOGGLE2,
    TOGGLE3, TOGGLE4, TOGGLE5, TOGGLE6, TOGGLE7, TOGGLE8, TOGGLE9, TRIANGLE, WEATHER,
};
