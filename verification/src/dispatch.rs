use crate::commands::broadcast_at;
use crate::commands::greet;
use crate::commands::greeting_of;
use crate::commands::start_download;
use crate::commands::BroadcastEvent;
use crate::commands::DownloadTask;
use crate::errors::CommandError;
use crate::state::credentials_ok;
use crate::state::inc_sat;
use crate::state::login_model;
use crate::state::set_username_model;
use crate::state::AppState;
use crate::state::StateModel;
use vstd::prelude::*;

verus! {

/// One invocation of the closed command set, with its arguments already
/// marshalled to typed values. The set is fixed at startup and exhaustively
/// matched, so within this crate an unknown command cannot be expressed.
pub enum Command {
    Greet { name: String },
    Login { username: String, password: String },
    StartDownload { url: String },
    Download { url: String },
    GetCounter,
    IncrementCounter,
    SetUsername { username: String },
}

/// A bare command identifier, as it arrives over the external boundary
/// before any argument is marshalled.
#[derive(Clone, Copy, Debug, PartialEq, Eq, Structural)]
pub enum CommandKind {
    Greet,
    Login,
    StartDownload,
    Download,
    GetCounter,
    IncrementCounter,
    SetUsername,
}

/// Which handler an external identifier names, trying the closed set in a
/// fixed order; anything else is an unknown command.
pub open spec fn lookup_spec(id: Seq<char>) -> Result<CommandKind, CommandError> {
    if id == "greet"@ {
        Ok(CommandKind::Greet)
    } else if id == "login"@ {
        Ok(CommandKind::Login)
    } else if id == "startDownload"@ {
        Ok(CommandKind::StartDownload)
    } else if id == "download"@ {
        Ok(CommandKind::Download)
    } else if id == "getCounter"@ {
        Ok(CommandKind::GetCounter)
    } else if id == "incrementCounter"@ {
        Ok(CommandKind::IncrementCounter)
    } else if id == "setUsername"@ {
        Ok(CommandKind::SetUsername)
    } else {
        Err(CommandError::UnknownCommand)
    }
}

/// Character-for-character equality of two text slices.
fn str_eq(a: &str, b: &str) -> (r: bool)
    ensures
        r == (a@ == b@),
{
    let sa = String::from_str(a);
    let sb = String::from_str(b);
    sa == sb
}

/// The handler-lookup half of dispatch: resolves an external command
/// identifier against the closed set, failing with `UnknownCommand` exactly
/// when the identifier names none of its members.
pub fn lookup_command(id: &str) -> (r: Result<CommandKind, CommandError>)
    ensures
        r == lookup_spec(id@),
{
    if str_eq(id, "greet") {
        Ok(CommandKind::Greet)
    } else if str_eq(id, "login") {
        Ok(CommandKind::Login)
    } else if str_eq(id, "startDownload") {
        Ok(CommandKind::StartDownload)
    } else if str_eq(id, "download") {
        Ok(CommandKind::Download)
    } else if str_eq(id, "getCounter") {
        Ok(CommandKind::GetCounter)
    } else if str_eq(id, "incrementCounter") {
        Ok(CommandKind::IncrementCounter)
    } else if str_eq(id, "setUsername") {
        Ok(CommandKind::SetUsername)
    } else {
        Err(CommandError::UnknownCommand)
    }
}

/// What a command invocation hands back on success: a direct value, the
/// broadcast sequence for the host to emit, or a freshly opened streaming
/// invocation for the host to drive.
pub enum Reply {
    Text(String),
    Flag(bool),
    Count(u32),
    Broadcast(Vec<BroadcastEvent>),
    Stream(DownloadTask),
}

/// Routes one invocation to its handler and converts any handler failure
/// into the user-facing message string; the dispatcher itself decides
/// nothing. Exactly one reply per invocation.
pub fn dispatch(state: &mut AppState, cmd: Command) -> (r: Result<Reply, String>)
    ensures
        (cmd matches Command::Greet { name } ==> {
            &&& final(state)@ == old(state)@
            &&& (name@.len() == 0 ==> (r matches Err(e) && e@
                == CommandError::Validation.message_spec()))
            &&& (name@.len() > 0 ==> (r matches Ok(Reply::Text(s)) && s@ == greeting_of(name@)))
        }),
        (cmd matches Command::Login { username, password } ==> {
            &&& final(state)@ == login_model(old(state)@, username@, password@)
            &&& (credentials_ok(username@, password@) ==> r matches Ok(Reply::Flag(true)))
            &&& (!credentials_ok(username@, password@) ==> (r matches Err(e) && e@
                == CommandError::InvalidCredentials.message_spec()))
        }),
        (cmd matches Command::StartDownload { url } ==> {
            &&& final(state)@ == old(state)@
            &&& (r matches Ok(Reply::Broadcast(v)) && v@.len() == 6 && (forall|i: int|
                0 <= i < 6 ==> #[trigger] v@[i]@ == broadcast_at(url@, i)))
        }),
        (cmd matches Command::Download { url } ==> {
            &&& final(state)@ == old(state)@
            &&& (r matches Ok(Reply::Stream(t)) && t.sent_count() == 0 && !t.has_failed()
                && t.url_spec() == url@)
        }),
        (cmd matches Command::GetCounter ==> {
            &&& final(state)@ == old(state)@
            &&& (r matches Ok(Reply::Count(c)) && c == old(state)@.counter)
        }),
        (cmd matches Command::IncrementCounter ==> {
            &&& final(state)@ == (StateModel {
                counter: inc_sat(old(state)@.counter),
                ..old(state)@
            })
            &&& (r matches Ok(Reply::Count(c)) && c == inc_sat(old(state)@.counter))
        }),
        (cmd matches Command::SetUsername { username } ==> {
            &&& final(state)@ == set_username_model(old(state)@, username@)
            &&& (r matches Ok(Reply::Text(s)) && s@ == username@)
        }),
{
    match cmd {
        Command::Greet { name } => match greet(name) {
            Ok(s) => Ok(Reply::Text(s)),
            Err(e) => Err(e),
        },
        Command::Login { username, password } => match state.login(username, password) {
            Ok(b) => Ok(Reply::Flag(b)),
            Err(e) => Err(e.message()),
        },
        Command::StartDownload { url } => Ok(Reply::Broadcast(start_download(url))),
        Command::Download { url } => Ok(Reply::Stream(DownloadTask::new(url))),
        Command::GetCounter => Ok(Reply::Count(state.get_counter())),
        Command::IncrementCounter => Ok(Reply::Count(state.increment_counter())),
        Command::SetUsername { username } => Ok(Reply::Text(state.set_username(username))),
    }
}

} // verus!
