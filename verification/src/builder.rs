use vstd::prelude::*;

use crate::data::{frames_of, interval_of, spinner_frames, spinner_interval};
use crate::render::Spinner;

verus! {

/// A builder for creating a terminal spinner.
#[derive(Clone)]
pub struct SpinnerBuilder {
    spinner_data: Option<&'static terminal_spinner_data::SpinnerData<'static>>,
    text: Option<String>,
    prefix: Option<String>,
}

/// The model of a builder: what has been set so far.
pub struct SpinnerBuilderView {
    /// The spinner animation to use.
    pub spinner_data: Option<terminal_spinner_data::SpinnerData<'static>>,
    /// The text to show after the animation.
    pub text: Option<Seq<char>>,
    /// The prefix to print before the animation.
    pub prefix: Option<Seq<char>>,
}

impl View for SpinnerBuilder {
    type V = SpinnerBuilderView;

    closed spec fn view(&self) -> SpinnerBuilderView {
        SpinnerBuilderView {
            spinner_data: match self.spinner_data {
                Some(data) => Some(*data),
                None => None,
            },
            text: match self.text {
                Some(text) => Some(text@),
                None => None,
            },
            prefix: match self.prefix {
                Some(prefix) => Some(prefix@),
                None => None,
            },
        }
    }
}

/// The prefix that a spinner shows: the one that was set, or none at all.
pub open spec fn prefix_or_empty(prefix: Option<Seq<char>>) -> Seq<char> {
    match prefix {
        Some(prefix) => prefix,
        None => Seq::empty(),
    }
}

impl Default for SpinnerBuilder {
    /// A builder with nothing set.
    fn default() -> (builder: SpinnerBuilder)
        ensures
            builder@.spinner_data is None,
            builder@.text is None,
            builder@.prefix is None,
    {
        SpinnerBuilder { spinner_data: None, text: None, prefix: None }
    }
}

impl SpinnerBuilder {
    /// Creates a new builder.
    pub fn new() -> (builder: SpinnerBuilder)
        ensures
            builder@.spinner_data is None,
            builder@.text is None,
            builder@.prefix is None,
    {
        SpinnerBuilder::default()
    }

    /// The spinner animation to use.
    pub fn spinner(self, spinner: &'static terminal_spinner_data::SpinnerData<'static>) -> (builder: SpinnerBuilder)
        ensures
            builder@ == (SpinnerBuilderView { spinner_data: Some(*spinner), ..self@ }),
    {
        SpinnerBuilder { spinner_data: Some(spinner), ..self }
    }

    /// The text to show after the spinner animation.
    pub fn text(self, text: &str) -> (builder: SpinnerBuilder)
        ensures
            builder@ == (SpinnerBuilderView { text: Some(text@), ..self@ }),
    {
        SpinnerBuilder { text: Some(String::from_str(text)), ..self }
    }

    /// The prefix to print before the actual spinning animation.
    ///
    /// # Note
    ///
    /// The prefix must not include newlines, as the line that gets cleared before each
    /// frame is only the last one.
    pub fn prefix(self, prefix: &str) -> (builder: SpinnerBuilder)
        ensures
            builder@ == (SpinnerBuilderView { prefix: Some(prefix@), ..self@ }),
    {
        SpinnerBuilder { prefix: Some(String::from_str(prefix)), ..self }
    }

    /// Whether a spinner and a text have been set, as starting needs.
    pub fn is_ready(&self) -> (ready: bool)
        ensures
            ready == (self@.spinner_data is Some && self@.text is Some),
    {
        self.spinner_data.is_some() && self.text.is_some()
    }

    /// Turns the builder into the render state of a spinner that has not drawn yet, as
    /// starting a spinner does before the render thread takes it over: the
    /// frames and interval of the chosen animation, the text, and the prefix, empty where
    /// none was set. A spinner and a text must have been set.
    pub fn into_spinner(self) -> (s: Spinner)
        requires
            self@.spinner_data is Some,
            self@.text is Some,
        ensures
            s@.frames == spinner_frames(self@.spinner_data->0),
            s@.interval == spinner_interval(self@.spinner_data->0),
            s@.text == self@.text->0,
            s@.prefix == prefix_or_empty(self@.prefix),
            s@.frame == 0,
            !s@.drawn,
            s@.finished == (s@.frames.len() == 0),
            s@.wf(),
    {
        let data = self.spinner_data.unwrap();
        let text = self.text.unwrap();
        let prefix = match self.prefix {
            Some(prefix) => prefix,
            None => String::new(),
        };
        let frames = frames_of(data);
        Spinner::new(frames, interval_of(data), text, prefix)
    }
}

} // verus!
