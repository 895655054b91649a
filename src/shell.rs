//! Shell sessions: how a session authenticates, what each step of its read
//! loop does, and when input and resize requests may reach the channel.
use vstd::prelude::*;
use vstd::string::*;
use crate::hosts::{DecryptedHostConfig, opt_text};
use crate::registry::Registry;
use crate::text::text_eq;

verus! {

#[verifier::external_type_specification]
#[verifier::external_body]
pub struct ExKeyPair(russh_keys::key::KeyPair);

/// Whether russh-keys accepts `key` (with `passphrase`) as a private key.
pub uninterp spec fn secret_key_decodes(key: Seq<char>, passphrase: Option<Seq<char>>) -> bool;

/// Relies on russh_keys::decode_secret_key: parses (and, with a passphrase,
/// decrypts) a private key; the outcome depends on the two texts alone.
#[verifier::external_body]
fn decode_secret_key(key: &str, passphrase: &Option<String>) -> (r: Option<russh_keys::key::KeyPair>)
    ensures
        r is Some == secret_key_decodes(key@, opt_text(*passphrase)),
{
    russh_keys::decode_secret_key(key, passphrase.as_deref()).ok()
}

/// Why a session could not authenticate.
#[derive(PartialEq, Eq, Structural, Clone, Copy, Debug)]
pub enum AuthError {
    MissingPrivateKey,
    MissingPassword,
    KeyDecode,
    Rejected,
}

impl AuthError {
    pub fn message(&self) -> (r: String)
        ensures
            r@ == auth_error_text(*self),
    {
        match self {
            AuthError::MissingPrivateKey => String::from_str("Private key is required for key authentication"),
            AuthError::MissingPassword => String::from_str("Password is required for password authentication"),
            AuthError::KeyDecode => String::from_str("Failed to decode private key"),
            AuthError::Rejected => String::from_str("Authentication failed"),
        }
    }
}

pub open spec fn auth_error_text(e: AuthError) -> Seq<char> {
    match e {
        AuthError::MissingPrivateKey => "Private key is required for key authentication"@,
        AuthError::MissingPassword => "Password is required for password authentication"@,
        AuthError::KeyDecode => "Failed to decode private key"@,
        AuthError::Rejected => "Authentication failed"@,
    }
}

/// Which credential a profile authenticates with.
#[derive(PartialEq, Eq, Structural, Clone, Copy, Debug)]
pub enum AuthRoute {
    Password,
    Key,
}

/// Password and key authentication exclude each other: `"key"` selects the
/// private key, anything else the password; a missing or empty credential is
/// refused before any attempt.
pub open spec fn auth_route_spec(auth_type: Seq<char>, password: Option<Seq<char>>, private_key: Option<Seq<char>>) -> Result<AuthRoute, AuthError> {
    if auth_type == "key"@ {
        if private_key is Some && private_key->Some_0.len() > 0 {
            Ok(AuthRoute::Key)
        } else {
            Err(AuthError::MissingPrivateKey)
        }
    } else {
        if password is Some && password->Some_0.len() > 0 {
            Ok(AuthRoute::Password)
        } else {
            Err(AuthError::MissingPassword)
        }
    }
}

pub open spec fn host_auth_route(host: DecryptedHostConfig) -> Result<AuthRoute, AuthError> {
    auth_route_spec(host.auth_type@, opt_text(host.password), opt_text(host.private_key))
}

/// Picks the credential that `host` authenticates with.
pub fn auth_route(host: &DecryptedHostConfig) -> (r: Result<AuthRoute, AuthError>)
    ensures
        r == host_auth_route(*host),
{
    if text_eq(host.auth_type.as_str(), "key") {
        match &host.private_key {
            Some(pk) => {
                if pk.as_str().unicode_len() > 0 {
                    Ok(AuthRoute::Key)
                } else {
                    Err(AuthError::MissingPrivateKey)
                }
            },
            None => Err(AuthError::MissingPrivateKey),
        }
    } else {
        match &host.password {
            Some(p) => {
                if p.as_str().unicode_len() > 0 {
                    Ok(AuthRoute::Password)
                } else {
                    Err(AuthError::MissingPassword)
                }
            },
            None => Err(AuthError::MissingPassword),
        }
    }
}

/// The credential to present to the server.
pub enum AuthMethod {
    Password(String),
    Key(russh_keys::key::KeyPair),
}

/// Resolves the credential of `host`, decoding its private key where the
/// profile asks for key authentication.
pub fn plan_auth(host: &DecryptedHostConfig) -> (r: Result<AuthMethod, AuthError>)
    ensures
        host_auth_route(*host) is Err ==> (r matches Err(f) && Err::<AuthRoute, AuthError>(f) == host_auth_route(*host)),
        host_auth_route(*host) == Ok::<AuthRoute, AuthError>(AuthRoute::Password) ==>
            (r matches Ok(AuthMethod::Password(p)) && Some(p@) == opt_text(host.password)),
        host_auth_route(*host) == Ok::<AuthRoute, AuthError>(AuthRoute::Key) ==> {
            if secret_key_decodes(host.private_key->Some_0@, opt_text(host.passphrase)) {
                r matches Ok(AuthMethod::Key(_))
            } else {
                r == Err::<AuthMethod, AuthError>(AuthError::KeyDecode)
            }
        },
{
    match auth_route(host) {
        Err(e) => Err(e),
        Ok(AuthRoute::Password) => {
            let p = host.password.as_ref().unwrap().clone();
            Ok(AuthMethod::Password(p))
        },
        Ok(AuthRoute::Key) => {
            let pk = host.private_key.as_ref().unwrap();
            match decode_secret_key(pk.as_str(), &host.passphrase) {
                Some(k) => Ok(AuthMethod::Key(k)),
                None => Err(AuthError::KeyDecode),
            }
        },
    }
}

} // verus!

verus! {

/// Heartbeat and flow settings for every transport connection.
#[derive(PartialEq, Eq, Structural, Clone, Copy, Debug)]
pub struct SessionSettings {
    pub keepalive_interval_secs: u64,
    pub keepalive_max: u32,
    pub inactivity_timeout_secs: u64,
    pub window_size: u32,
    pub maximum_packet_size: u32,
}

/// A heartbeat every 30 s, dropped after 3 unanswered ones; 10 minutes of
/// inactivity as the fallback; a 2 MiB window and 32 KiB packets.
pub fn create_ssh_config() -> (r: SessionSettings)
    ensures
        r.keepalive_interval_secs == 30,
        r.keepalive_max == 3,
        r.inactivity_timeout_secs == 600,
        r.window_size == 2097152,
        r.maximum_packet_size == 32768,
{
    SessionSettings {
        keepalive_interval_secs: 30,
        keepalive_max: 3,
        inactivity_timeout_secs: 600,
        window_size: 2097152,
        maximum_packet_size: 32768,
    }
}

/// Consecutive failed reads after which the read loop gives the session up.
pub const MAX_CONSECUTIVE_ERRORS: u32 = 10;
/// Pause before trying the channel lock again when a writer holds it.
pub const LOCK_RETRY_MILLIS: u64 = 10;
/// How long one wait for inbound data may hold the channel lock.
pub const WAIT_TIMEOUT_MILLIS: u64 = 100;
/// Pause after a failed read.
pub const ERROR_RETRY_MILLIS: u64 = 50;
/// How long a writer waits for the channel lock.
pub const INPUT_LOCK_TIMEOUT_SECS: u64 = 5;

/// What one turn of the read loop observed.
pub enum ShellEvent {
    /// The session's alive flag was found cleared.
    Disconnected,
    /// The channel lock was held by a writer.
    LockBusy,
    /// The channel had already been taken away.
    ChannelGone,
    /// Nothing arrived within the wait timeout.
    Quiet,
    Data(Vec<u8>),
    Eof,
    Close,
    /// The wait ended without a message.
    ReadFailed,
    /// Any other channel message.
    Other,
}

/// What the read loop does next.
pub enum ShellAction {
    /// Wait for the next message at once.
    Poll,
    /// Sleep this many milliseconds, then go on.
    Backoff(u64),
    /// Send this text out as the session's output, then go on.
    Publish(String),
    /// Mark the session dead and leave the loop, announcing the closure if asked.
    Finish { notify_closed: bool },
}

/// The state of one session's read loop.
pub struct ShellLoop {
    consecutive_errors: u32,
    running: bool,
}

impl ShellLoop {
    pub closed spec fn errors(&self) -> nat {
        self.consecutive_errors as nat
    }

    pub closed spec fn spec_running(&self) -> bool {
        self.running
    }

    /// A running loop has seen fewer failed reads in a row than the limit.
    pub open spec fn wf(&self) -> bool {
        self.spec_running() ==> self.errors() < MAX_CONSECUTIVE_ERRORS
    }

    pub fn new() -> (r: Self)
        ensures
            r.wf(),
            r.spec_running(),
            r.errors() == 0,
    {
        ShellLoop { consecutive_errors: 0, running: true }
    }

    pub fn is_running(&self) -> (r: bool)
        ensures
            r == self.spec_running(),
    {
        self.running
    }

    pub fn consecutive_errors(&self) -> (r: u32)
        ensures
            r == self.errors(),
    {
        self.consecutive_errors
    }

    /// Decides what follows `event`. A lock held by a writer or a quiet
    /// channel is never an error; a message resets the error count; closure,
    /// a vanished channel or too many failed reads in a row end the loop.
    pub fn step(&mut self, event: ShellEvent) -> (r: ShellAction)
        requires
            old(self).wf(),
        ensures
            final(self).wf(),
            !old(self).spec_running() ==> (r matches ShellAction::Finish { notify_closed } && !notify_closed)
                && !final(self).spec_running(),
            old(self).spec_running() ==> match event {
                ShellEvent::Disconnected => (r matches ShellAction::Finish { notify_closed } && !notify_closed)
                    && !final(self).spec_running(),
                ShellEvent::LockBusy => (r matches ShellAction::Backoff(ms) && ms == LOCK_RETRY_MILLIS)
                    && final(self).spec_running() && final(self).errors() == old(self).errors(),
                ShellEvent::ChannelGone => (r matches ShellAction::Finish { notify_closed } && notify_closed)
                    && !final(self).spec_running(),
                ShellEvent::Quiet => r is Poll && final(self).spec_running()
                    && final(self).errors() == old(self).errors(),
                ShellEvent::Data(d) => (r matches ShellAction::Publish(t) && t@ == crate::text::lossy_text_of(d@))
                    && final(self).spec_running() && final(self).errors() == 0,
                ShellEvent::Eof => r is Poll && final(self).spec_running() && final(self).errors() == 0,
                ShellEvent::Other => r is Poll && final(self).spec_running() && final(self).errors() == 0,
                ShellEvent::Close => (r matches ShellAction::Finish { notify_closed } && notify_closed)
                    && !final(self).spec_running(),
                ShellEvent::ReadFailed => if old(self).errors() + 1 >= MAX_CONSECUTIVE_ERRORS {
                    (r matches ShellAction::Finish { notify_closed } && notify_closed) && !final(self).spec_running()
                } else {
                    (r matches ShellAction::Backoff(ms) && ms == ERROR_RETRY_MILLIS)
                        && final(self).spec_running() && final(self).errors() == old(self).errors() + 1
                },
            },
    {
        if !self.running {
            return ShellAction::Finish { notify_closed: false };
        }
        match event {
            ShellEvent::Disconnected => {
                self.running = false;
                ShellAction::Finish { notify_closed: false }
            },
            ShellEvent::LockBusy => ShellAction::Backoff(LOCK_RETRY_MILLIS),
            ShellEvent::ChannelGone => {
                self.running = false;
                ShellAction::Finish { notify_closed: true }
            },
            ShellEvent::Quiet => ShellAction::Poll,
            ShellEvent::Data(d) => {
                self.consecutive_errors = 0;
                ShellAction::Publish(crate::text::lossy_text(d.as_slice()))
            },
            ShellEvent::Eof => {
                self.consecutive_errors = 0;
                ShellAction::Poll
            },
            ShellEvent::Other => {
                self.consecutive_errors = 0;
                ShellAction::Poll
            },
            ShellEvent::Close => {
                self.running = false;
                ShellAction::Finish { notify_closed: true }
            },
            ShellEvent::ReadFailed => {
                if self.consecutive_errors + 1 >= MAX_CONSECUTIVE_ERRORS {
                    self.running = false;
                    ShellAction::Finish { notify_closed: true }
                } else {
                    self.consecutive_errors = self.consecutive_errors + 1;
                    ShellAction::Backoff(ERROR_RETRY_MILLIS)
                }
            },
        }
    }
}

/// Why a control request on a shell session failed.
pub enum SessionError {
    NotFound(String),
    Closed,
    ChannelClosed,
    LockTimeout,
    Transport(String),
}

pub open spec fn session_error_text(e: SessionError) -> Seq<char> {
    match e {
        SessionError::NotFound(id) => "Session not found: "@ + id@,
        SessionError::Closed => "Connection is closed"@,
        SessionError::ChannelClosed => "Channel is closed"@,
        SessionError::LockTimeout => "Failed to acquire lock within timeout"@,
        SessionError::Transport(m) => m@,
    }
}

impl SessionError {
    pub fn message(&self) -> (r: String)
        ensures
            r@ == session_error_text(*self),
    {
        match self {
            SessionError::NotFound(id) => String::from_str("Session not found: ").concat(id.as_str()),
            SessionError::Closed => String::from_str("Connection is closed"),
            SessionError::ChannelClosed => String::from_str("Channel is closed"),
            SessionError::LockTimeout => String::from_str("Failed to acquire lock within timeout"),
            SessionError::Transport(m) => m.clone(),
        }
    }
}

/// The first test of every control request: the session must be registered
/// and still alive, so that requests on a dead session fail at once.
pub fn check_session<S>(sessions: &Registry<S>, session_id: &str, alive: bool) -> (r: Result<(), SessionError>)
    requires
        sessions.wf(),
    ensures
        !sessions@.contains_key(session_id@) ==> (r matches Err(SessionError::NotFound(id)) && id@ == session_id@),
        sessions@.contains_key(session_id@) && !alive ==> r matches Err(SessionError::Closed),
        sessions@.contains_key(session_id@) && alive ==> r is Ok,
{
    if !sessions.contains(session_id) {
        return Err(SessionError::NotFound(String::from_str(session_id)));
    }
    if !alive {
        return Err(SessionError::Closed);
    }
    Ok(())
}

/// Whether input may be written once the writer has tried for the channel lock.
pub fn check_input_channel(lock_acquired: bool, channel_open: bool) -> (r: Result<(), SessionError>)
    ensures
        !lock_acquired ==> r matches Err(SessionError::LockTimeout),
        lock_acquired && !channel_open ==> r matches Err(SessionError::ChannelClosed),
        lock_acquired && channel_open ==> r is Ok,
{
    if !lock_acquired {
        Err(SessionError::LockTimeout)
    } else if !channel_open {
        Err(SessionError::ChannelClosed)
    } else {
        Ok(())
    }
}

/// Stores the session of a successful connect under `session_id`, replacing
/// any earlier one: at most one live channel per identifier.
pub fn register_session<S>(sessions: &mut Registry<S>, session_id: String, session: S)
    requires
        old(sessions).wf(),
    ensures
        final(sessions).wf(),
        final(sessions)@ == old(sessions)@.insert(session_id@, session),
{
    sessions.insert(session_id, session);
}

/// Takes the session out of the registry; the caller then marks it dead and
/// closes its channel. Unknown identifiers are accepted: disconnecting twice
/// is harmless.
pub fn ssh_disconnect<S>(sessions: &mut Registry<S>, session_id: &str) -> (r: Option<S>)
    requires
        old(sessions).wf(),
    ensures
        final(sessions).wf(),
        final(sessions)@ == old(sessions)@.remove(session_id@),
        r is Some <==> old(sessions)@.contains_key(session_id@),
        r matches Some(s) ==> s == old(sessions)@[session_id@],
{
    sessions.remove(session_id)
}

/// A session that was connected and then disconnected has no entry left,
/// and disconnecting it again changes nothing.
pub proof fn lemma_connect_then_disconnect<S>(before: Map<Seq<char>, S>, session_id: Seq<char>, session: S)
    ensures
        !before.insert(session_id, session).remove(session_id).contains_key(session_id),
        before.insert(session_id, session).remove(session_id).remove(session_id)
            == before.insert(session_id, session).remove(session_id),
{
    assert(before.insert(session_id, session).remove(session_id).remove(session_id)
        =~= before.insert(session_id, session).remove(session_id));
}

} // verus!
