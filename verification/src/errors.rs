//! The errors that the engine reports to its caller.
use vstd::prelude::*;

verus! {

/// What an operation of the engine returns.
pub type EngineResult<T> = Result<T, EngineError>;

/// The ways in which an operation of the engine fails.
#[derive(Debug)]
pub enum EngineError {
    /// The audio server failed; the text is its error, handed on as it came.
    Jack(String),
    /// The channel or sender limit is reached.
    LimitExceeded,
    /// The index names no live channel.
    NoSuchChannel,
}

impl EngineError {
    /// The message that describes the error to a reader.
    pub open spec fn spec_message(&self) -> Seq<char> {
        match self {
            EngineError::Jack(detail) => "JACK error: "@ + detail@,
            EngineError::LimitExceeded => "Engine channel or sender limit exceeded"@,
            EngineError::NoSuchChannel => "No such channel."@,
        }
    }

    /// The message that describes the error to a reader.
    pub fn message(&self) -> (text: String)
        ensures
            text@ == self.spec_message(),
    {
        match self {
            EngineError::Jack(detail) => {
                let mut text = "JACK error: ".to_owned();
                text.append(detail.as_str());
                text
            },
            EngineError::LimitExceeded => "Engine channel or sender limit exceeded".to_owned(),
            EngineError::NoSuchChannel => "No such channel.".to_owned(),
        }
    }
}

} // verus!
