use vstd::prelude::*;

verus! {

/// How a spinner ends: each kind but a plain stop leaves a log symbol on its line.
#[derive(Clone, Copy, PartialEq, Eq, Structural, Debug)]
pub enum StopType {
    Done,
    Error,
    Info,
    Warn,
    Unknown,
}

/// The colored form of a log symbol, as `terminal_log_symbols::colored` writes it on
/// terminals that show emojis: the ANSI color escape, the emoji, the ANSI reset.
pub open spec fn symbol_emoji(kind: StopType) -> Seq<char> {
    match kind {
        StopType::Done => "\u{1b}[32m\u{2714}\u{1b}[0m"@,
        StopType::Error => "\u{1b}[31m\u{2716}\u{1b}[0m"@,
        StopType::Info => "\u{1b}[34m\u{2139}\u{1b}[0m"@,
        StopType::Warn => "\u{1b}[33m\u{26a0}\u{1b}[0m"@,
        StopType::Unknown => "\u{1b}[90m?\u{1b}[0m"@,
    }
}

/// The colored fallback of a log symbol, written where the terminal shows no emojis.
pub open spec fn symbol_fallback(kind: StopType) -> Seq<char> {
    match kind {
        StopType::Done => "\u{1b}[32m\u{221a}\u{1b}[0m"@,
        StopType::Error => "\u{1b}[31m\u{d7}\u{1b}[0m"@,
        StopType::Info => "\u{1b}[34mi\u{1b}[0m"@,
        StopType::Warn => "\u{1b}[33m\u{203c}\u{1b}[0m"@,
        StopType::Unknown => "\u{1b}[90m?\u{1b}[0m"@,
    }
}

/// What a log symbol may render as: its emoji or its fallback, as the terminal allows.
pub open spec fn is_symbol_text(kind: StopType, text: Seq<char>) -> bool {
    text == symbol_emoji(kind) || text == symbol_fallback(kind)
}

/// Renders `terminal_log_symbols::colored::SUCCESS_SYMBOL` through its `Display`.
/// Claims the text is the symbol's colored emoji or its colored fallback; which one
/// depends on whether stdout is a terminal and on the environment.
#[verifier::external_body]
fn success_symbol() -> (text: String)
    ensures
        text@ == "\u{1b}[32m\u{2714}\u{1b}[0m"@ || text@ == "\u{1b}[32m\u{221a}\u{1b}[0m"@,
{
    terminal_log_symbols::colored::SUCCESS_SYMBOL.to_string()
}

/// Renders `terminal_log_symbols::colored::ERROR_SYMBOL` through its `Display`.
/// Claims the text is the symbol's colored emoji or its colored fallback.
#[verifier::external_body]
fn error_symbol() -> (text: String)
    ensures
        text@ == "\u{1b}[31m\u{2716}\u{1b}[0m"@ || text@ == "\u{1b}[31m\u{d7}\u{1b}[0m"@,
{
    terminal_log_symbols::colored::ERROR_SYMBOL.to_string()
}

/// Renders `terminal_log_symbols::colored::INFO_SYMBOL` through its `Display`.
/// Claims the text is the symbol's colored emoji or its colored fallback.
#[verifier::external_body]
fn info_symbol() -> (text: String)
    ensures
        text@ == "\u{1b}[34m\u{2139}\u{1b}[0m"@ || text@ == "\u{1b}[34mi\u{1b}[0m"@,
{
    terminal_log_symbols::colored::INFO_SYMBOL.to_string()
}

/// Renders `terminal_log_symbols::colored::WARNING_SYMBOL` through its `Display`.
/// Claims the text is the symbol's colored emoji or its colored fallback.
#[verifier::external_body]
fn warning_symbol() -> (text: String)
    ensures
        text@ == "\u{1b}[33m\u{26a0}\u{1b}[0m"@ || text@ == "\u{1b}[33m\u{203c}\u{1b}[0m"@,
{
    terminal_log_symbols::colored::WARNING_SYMBOL.to_string()
}

/// Renders `terminal_log_symbols::colored::UNKNOWN_SYMBOL` through its `Display`.
/// Claims the text is the symbol's colored question mark (emoji and fallback agree).
#[verifier::external_body]
fn unknown_symbol() -> (text: String)
    ensures
        text@ == "\u{1b}[90m?\u{1b}[0m"@,
{
    terminal_log_symbols::colored::UNKNOWN_SYMBOL.to_string()
}

impl StopType {
    /// The log symbol that this kind of stop leaves on the spinner's line.
    pub fn symbol(&self) -> (text: String)
        ensures
            is_symbol_text(*self, text@),
    {
        match self {
            StopType::Done => success_symbol(),
            StopType::Error => error_symbol(),
            StopType::Info => info_symbol(),
            StopType::Warn => warning_symbol(),
            StopType::Unknown => unknown_symbol(),
        }
    }
}

} // verus!
