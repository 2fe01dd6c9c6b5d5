use vstd::prelude::*;

verus! {

/// Why a script could not be loaded, started, run or reached.
#[derive(Debug)]
pub enum LogicError {
    /// A text is not an absolute URL.
    InvalidUrl,
    /// A module table has no module at a URL.
    ModuleNotFound,
    /// Every sender of the channel that was polled is gone.
    Disconnected,
    /// The receiver of the channel that was sent on is gone or closed.
    ChannelClosed,
    /// The script engine reported an error; its text is kept.
    Script(String),
}

impl LogicError {
    /// The text that `message` gives.
    pub open spec fn text(self) -> Seq<char> {
        match self {
            LogicError::InvalidUrl => "invalid URL"@,
            LogicError::ModuleNotFound => "Module not found"@,
            LogicError::Disconnected => "receiving on a closed channel"@,
            LogicError::ChannelClosed => "channel closed"@,
            LogicError::Script(message) => message@,
        }
    }

    /// The error in words.
    pub fn message(&self) -> (message: String)
        ensures
            message@ == self.text(),
            match *self {
                LogicError::InvalidUrl => message@ == "invalid URL"@,
                LogicError::ModuleNotFound => message@ == "Module not found"@,
                LogicError::Disconnected => message@ == "receiving on a closed channel"@,
                LogicError::ChannelClosed => message@ == "channel closed"@,
                LogicError::Script(text) => message@ == text@,
            },
    {
        match self {
            LogicError::InvalidUrl => "invalid URL".to_owned(),
            LogicError::ModuleNotFound => "Module not found".to_owned(),
            LogicError::Disconnected => "receiving on a closed channel".to_owned(),
            LogicError::ChannelClosed => "channel closed".to_owned(),
            LogicError::Script(message) => message.clone(),
        }
    }
}

/// The words of the script engine are kept in full, and each other error has
/// words of its own.
pub proof fn errors_keep_their_words(words: String)
    ensures
        LogicError::Script(words).text() == words@,
        LogicError::InvalidUrl.text() == "invalid URL"@,
        LogicError::ModuleNotFound.text() == "Module not found"@,
        LogicError::Disconnected.text() == "receiving on a closed channel"@,
        LogicError::ChannelClosed.text() == "channel closed"@,
{
}

} // verus!
