use vstd::prelude::*;
use vstd::string::StringExecFns;

verus! {

/// Why a collection was given up.
#[derive(Debug)]
pub enum CollectError {
    /// A colour was entered that is no hexadecimal colour; the text is the
    /// parser's complaint.
    BadColor(String),
    /// The settings select no source of choices.
    NoCollector,
    /// The encoder failed; the text is its complaint.
    Encode(String),
    /// A choice could not be handed on: the channel has lost its receiving end.
    ChannelClosed,
    /// The input handed to a run is not of the kind that its source reads.
    WrongInput,
}

impl CollectError {
    /// The sentence shown to the user.
    pub fn message(&self) -> (text: String)
        ensures
            self is NoCollector ==> text@ == "no collector available"@,
            self is ChannelClosed ==> text@ == "sending on a disconnected channel"@,
            self is WrongInput ==> text@ == "the input does not fit the collector"@,
            self matches CollectError::BadColor(why) ==> text@ == why@,
            self matches CollectError::Encode(why) ==> text@ == why@,
    {
        match self {
            CollectError::NoCollector => String::from_str("no collector available"),
            CollectError::ChannelClosed => String::from_str("sending on a disconnected channel"),
            CollectError::WrongInput => String::from_str("the input does not fit the collector"),
            CollectError::BadColor(why) => why.clone(),
            CollectError::Encode(why) => why.clone(),
        }
    }
}

} // verus!
