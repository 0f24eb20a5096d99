use vstd::prelude::*;

verus! {

/// The error taxonomy of the command layer.
///
/// Every failure a handler can produce is one of these; at the dispatch
/// boundary each is converted into its user-facing message string, so no
/// error ever reaches the caller as an unrecoverable failure.
#[derive(Clone, Copy, Debug, PartialEq, Eq, Structural)]
pub enum CommandError {
    /// A required text input was empty.
    Validation,
    /// The login credentials did not match the fixed pair.
    InvalidCredentials,
    /// The command identifier names no handler. Unreachable through the
    /// closed `Command` set; surfaced only by the external lookup boundary.
    UnknownCommand,
    /// The streaming receiver has gone away; no further sends can succeed.
    ChannelClosed,
}

impl CommandError {
    /// The user-facing message carried back to the frontend for this error.
    pub open spec fn message_spec(&self) -> Seq<char> {
        match self {
            CommandError::Validation => "名字不能为空"@,
            CommandError::InvalidCredentials => "用户名或密码错误"@,
            CommandError::UnknownCommand => "unknown command"@,
            CommandError::ChannelClosed => "channel closed"@,
        }
    }

    /// Builds the user-facing message for this error.
    pub fn message(&self) -> (r: String)
        ensures
            r@ == self.message_spec(),
    {
        match self {
            CommandError::Validation => String::from_str("名字不能为空"),
            CommandError::InvalidCredentials => String::from_str("用户名或密码错误"),
            CommandError::UnknownCommand => String::from_str("unknown command"),
            CommandError::ChannelClosed => String::from_str("channel closed"),
        }
    }
}

} // verus!
