use crate::errors::CommandError;
use crate::text::trim_string;
use crate::text::trimmed_of;
use vstd::prelude::*;

verus! {

/// Mathematical model of the shared state: one field per stored value, with
/// text as a sequence of characters.
pub struct StateModel {
    pub counter: u32,
    pub username: Seq<char>,
    pub password: Seq<char>,
    pub is_logged_in: bool,
}

/// The state every run starts from: zero counter, empty texts, logged out.
pub open spec fn initial_state() -> StateModel {
    StateModel {
        counter: 0,
        username: Seq::empty(),
        password: Seq::empty(),
        is_logged_in: false,
    }
}

/// Whether a username/password pair passes the credential check: both inputs,
/// with surrounding whitespace trimmed, must equal the fixed pair.
pub open spec fn credentials_ok(username: Seq<char>, password: Seq<char>) -> bool {
    trimmed_of(username) == "admin"@ && trimmed_of(password) == "123456"@
}

/// One saturating increment: adds one, capping at the largest representable
/// value instead of wrapping.
pub open spec fn inc_sat(c: u32) -> u32 {
    if c < u32::MAX {
        (c + 1) as u32
    } else {
        u32::MAX
    }
}

/// How `login` changes the state: on a credential match the trimmed inputs
/// are stored and the login flag is set; on a mismatch only the login flag
/// changes, to false.
pub open spec fn login_model(s: StateModel, username: Seq<char>, password: Seq<char>) -> StateModel {
    if credentials_ok(username, password) {
        StateModel {
            username: trimmed_of(username),
            password: trimmed_of(password),
            is_logged_in: true,
            ..s
        }
    } else {
        StateModel { is_logged_in: false, ..s }
    }
}

/// How `set_username` changes the state: the username is overwritten, nothing
/// else moves.
pub open spec fn set_username_model(s: StateModel, username: Seq<char>) -> StateModel {
    StateModel { username, ..s }
}

/// The process-wide mutable state. Every read and write goes through the
/// methods below; the host serialises calls, so each method is one atomic
/// critical section.
pub struct AppState {
    counter: u32,
    username: String,
    password: String,
    is_logged_in: bool,
}

impl View for AppState {
    type V = StateModel;

    closed spec fn view(&self) -> StateModel {
        StateModel {
            counter: self.counter,
            username: self.username@,
            password: self.password@,
            is_logged_in: self.is_logged_in,
        }
    }
}

impl AppState {
    /// Fresh state with zero/empty defaults, as created once at process start.
    pub fn new() -> (r: AppState)
        ensures
            r@ == initial_state(),
    {
        AppState {
            counter: 0,
            username: String::new(),
            password: String::new(),
            is_logged_in: false,
        }
    }

    /// Credential check. Trims both inputs; on a match stores the trimmed
    /// pair, sets the login flag and returns true; on a mismatch clears the
    /// login flag and fails with `InvalidCredentials` — malformed input is
    /// never an error, only a value mismatch is.
    pub fn login(&mut self, username: String, password: String) -> (r: Result<
        bool,
        CommandError,
    >)
        ensures
            final(self)@ == login_model(old(self)@, username@, password@),
            credentials_ok(username@, password@) ==> r == Ok::<bool, CommandError>(true),
            !credentials_ok(username@, password@) ==> r == Err::<bool, CommandError>(
                CommandError::InvalidCredentials,
            ),
    {
        let u = trim_string(username.as_str());
        let p = trim_string(password.as_str());
        let expected_user = String::from_str("admin");
        let expected_pass = String::from_str("123456");
        if u == expected_user && p == expected_pass {
            self.is_logged_in = true;
            self.username = u;
            self.password = p;
            Ok(true)
        } else {
            self.is_logged_in = false;
            Err(CommandError::InvalidCredentials)
        }
    }

    /// Pure read of the counter.
    pub fn get_counter(&self) -> (r: u32)
        ensures
            r == self@.counter,
    {
        self.counter
    }

    /// Adds one to the counter with saturating arithmetic and returns the new
    /// value.
    pub fn increment_counter(&mut self) -> (r: u32)
        ensures
            final(self)@ == (StateModel { counter: inc_sat(old(self)@.counter), ..old(self)@ }),
            r == inc_sat(old(self)@.counter),
    {
        self.counter = self.counter.saturating_add(1);
        self.counter
    }

    /// Overwrites the username unconditionally — no validation, no trimming —
    /// and returns the stored value.
    pub fn set_username(&mut self, username: String) -> (r: String)
        ensures
            final(self)@ == set_username_model(old(self)@, username@),
            r@ == username@,
    {
        self.username = username;
        self.username.clone()
    }

    /// Pure read of the login flag.
    pub fn is_logged_in(&self) -> (r: bool)
        ensures
            r == self@.is_logged_in,
    {
        self.is_logged_in
    }

    /// Copy of the stored username.
    pub fn username(&self) -> (r: String)
        ensures
            r@ == self@.username,
    {
        self.username.clone()
    }

    /// Copy of the stored password.
    pub fn password(&self) -> (r: String)
        ensures
            r@ == self@.password,
    {
        self.password.clone()
    }
}

impl Default for AppState {
    /// Same zero/empty defaults as `new`.
    fn default() -> (r: AppState)
        ensures
            r@ == initial_state(),
    {
        AppState::new()
    }
}

/// Login sets the flag exactly when the trimmed inputs match the fixed pair,
/// regardless of the prior state, and never touches the counter.
pub proof fn lemma_login_sets_flag(s: StateModel, username: Seq<char>, password: Seq<char>)
    ensures
        login_model(s, username, password).is_logged_in == credentials_ok(username, password),
        login_model(s, username, password).counter == s.counter,
{
}

/// The counter after `n` further increments from the value `c`.
pub open spec fn counter_after(c: u32, n: nat) -> u32
    decreases n,
{
    if n == 0 {
        c
    } else {
        inc_sat(counter_after(c, (n - 1) as nat))
    }
}

/// `n` serialised increments add exactly `n` to the counter — none is lost —
/// except that the count saturates at the largest representable value
/// instead of overflowing. From a fresh state the counter then reads `n`.
pub proof fn lemma_counter_after_n(c: u32, n: nat)
    ensures
        c + n <= u32::MAX ==> counter_after(c, n) as int == c + n,
        c + n > u32::MAX ==> counter_after(c, n) == u32::MAX,
    decreases n,
{
    if n > 0 {
        lemma_counter_after_n(c, (n - 1) as nat);
    }
}

/// `set_username` is idempotent for a given input, and it leaves the counter,
/// the password and the login flag untouched.
pub proof fn lemma_set_username_idempotent(s: StateModel, username: Seq<char>)
    ensures
        set_username_model(set_username_model(s, username), username) == set_username_model(
            s,
            username,
        ),
        set_username_model(s, username).counter == s.counter,
        set_username_model(s, username).password == s.password,
        set_username_model(s, username).is_logged_in == s.is_logged_in,
{
}

} // verus!
