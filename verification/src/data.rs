use vstd::prelude::*;

verus! {

/// The spinner description of `terminal_spinner_data`: its frames and the
/// animation interval in milliseconds.
#[verifier::external_type_specification]
#[verifier::external_body]
pub struct ExSpinnerData<'a>(terminal_spinner_data::SpinnerData<'a>);

/// The frames that a `terminal_spinner_data::SpinnerData` holds, each by its characters.
pub uninterp spec fn spinner_frames(data: terminal_spinner_data::SpinnerData<'static>) -> Seq<Seq<char>>;

/// The animation interval, in milliseconds, that a `terminal_spinner_data::SpinnerData` holds.
pub uninterp spec fn spinner_interval(data: terminal_spinner_data::SpinnerData<'static>) -> u64;

/// Reads the `frames` field of `terminal_spinner_data::SpinnerData` and copies each frame
/// into a `String`, in order. Claims that the copies are the frames that the data holds.
#[verifier::external_body]
pub(crate) fn frames_of(data: &'static terminal_spinner_data::SpinnerData<'static>) -> (frames: Vec<String>)
    ensures
        frames.deep_view() == spinner_frames(*data),
{
    data.frames.iter().map(|f| f.to_string()).collect()
}

/// Reads the `interval` field of `terminal_spinner_data::SpinnerData`.
#[verifier::external_body]
pub(crate) fn interval_of(data: &'static terminal_spinner_data::SpinnerData<'static>) -> (interval: u64)
    ensures
        interval == spinner_interval(*data),
{
    data.interval
}

} // verus!
