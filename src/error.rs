use vstd::prelude::*;

verus! {

/// Failures of the message pipeline.
#[derive(Debug, PartialEq, Eq)]
pub enum RustyBotError {
    /// A network, serialization or sandbox-shape failure, with its cause.
    InternalServerError(String),
    /// A code marker without a body.
    MissingCode,
    /// A toolchain channel that the sandbox does not offer.
    InvalidRustChannel,
    /// A marker that does not name a supported kind of code block.
    InvalidBotCommand { command: String },
}

/// The text that describes an error to a reader.
pub open spec fn error_message(e: RustyBotError) -> Seq<char> {
    match e {
        RustyBotError::InternalServerError(cause) => cause@,
        RustyBotError::MissingCode => "No code provided"@,
        RustyBotError::InvalidRustChannel =>
            "Provided rust channel does not exist, please use Stable, Beta, or Nightly"@,
        RustyBotError::InvalidBotCommand { command } => "The command "@ + command@
            + " is not a valid command for the bot. Use one of !code, !eval, !help (docs, book)"@,
    }
}

impl RustyBotError {
    /// The text that describes this error to a reader.
    pub fn message(&self) -> (r: String)
        ensures
            r@ == error_message(*self),
    {
        match self {
            RustyBotError::InternalServerError(cause) => cause.clone(),
            RustyBotError::MissingCode => String::from_str("No code provided"),
            RustyBotError::InvalidRustChannel => String::from_str(
                "Provided rust channel does not exist, please use Stable, Beta, or Nightly",
            ),
            RustyBotError::InvalidBotCommand { command } => {
                let mut r = String::from_str("The command ");
                r.append(command.as_str());
                r.append(
                    " is not a valid command for the bot. Use one of !code, !eval, !help (docs, book)",
                );
                r
            },
        }
    }
}

} // verus!
