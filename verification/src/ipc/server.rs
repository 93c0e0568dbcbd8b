//! The serving side of the control socket: frames, peers, the rate limit
//! and the answer to each command.

use super::protocol::{Command, Message, Payload, Response};
use crate::config::Config;
use crate::daemon::state::{link_error, DaemonState, DaemonStateView, DictationCommand};
use crate::history::HistoryEntry;
use crate::ipc::protocol::{DaemonState as State, VERSION};
use crate::text::{concat, concat3, decimal, decimal_string};
use crate::{Error, ErrorKind};
use std::collections::HashMap;
use vstd::prelude::*;

verus! {

/// The longest message the daemon reads, in bytes.
pub const MAX_MESSAGE_BYTES: usize = 1_000_000;

/// File mode of the control socket: the owner only.
pub const SOCKET_MODE: u32 = 0o600;

/// The shortest time between two commands of one user that are both
/// answered, in microseconds.
pub const MIN_REQUEST_INTERVAL_US: u64 = 10_000;

/// The number four bytes stand for, lowest byte first.
pub open spec fn le_u32(b0: u8, b1: u8, b2: u8, b3: u8) -> nat {
    (b0 as nat) + (b1 as nat) * 0x100 + (b2 as nat) * 0x1_0000 + (b3 as nat) * 0x100_0000
}

/// The four bytes that stand for a length, lowest byte first.
pub open spec fn le_bytes(n: nat) -> Seq<u8> {
    seq![
        (n % 0x100) as u8,
        (n / 0x100 % 0x100) as u8,
        (n / 0x1_0000 % 0x100) as u8,
        (n / 0x100_0000 % 0x100) as u8,
    ]
}

/// A message as it crosses the socket: its length in four bytes, then the
/// message.
pub open spec fn framed(payload: Seq<u8>) -> Seq<u8> {
    le_bytes(payload.len()) + payload
}

/// The length a frame's first four bytes announce. A length over the
/// limit of one million bytes is refused.
pub fn frame_length(header: &[u8; 4]) -> (result: Result<usize, Error>)
    ensures
        match result {
            Ok(n) => n == le_u32(header@[0], header@[1], header@[2], header@[3]) && n
                <= MAX_MESSAGE_BYTES,
            Err(e) => {
                &&& le_u32(header@[0], header@[1], header@[2], header@[3]) > MAX_MESSAGE_BYTES
                &&& e.spec_kind() == ErrorKind::Ipc
                &&& e.spec_message() == "Message too large"@
            },
        },
{
    let n: u64 = header[0] as u64 + header[1] as u64 * 0x100 + header[2] as u64 * 0x1_0000
        + header[3] as u64 * 0x100_0000;
    if n > MAX_MESSAGE_BYTES as u64 {
        Err(Error::Ipc("Message too large".to_owned()))
    } else {
        Ok(n as usize)
    }
}

/// Puts a message into its frame.
pub fn frame(payload: &[u8]) -> (bytes: Vec<u8>)
    requires
        payload@.len() <= u32::MAX,
    ensures
        bytes@ == framed(payload@),
        bytes@.len() == payload@.len() + 4,
{
    let n: usize = payload.len();
    let mut bytes: Vec<u8> = Vec::new();
    bytes.push((n % 0x100) as u8);
    bytes.push((n / 0x100 % 0x100) as u8);
    bytes.push((n / 0x1_0000 % 0x100) as u8);
    bytes.push((n / 0x100_0000 % 0x100) as u8);
    assert(bytes@ =~= le_bytes(n as nat));
    let mut i: usize = 0;
    while i < n
        invariant
            i <= n,
            n == payload@.len(),
            bytes@ == le_bytes(n as nat) + payload@.take(i as int),
        decreases n - i,
    {
        bytes.push(payload[i]);
        assert(bytes@ =~= le_bytes(n as nat) + payload@.take(i + 1));
        i = i + 1;
    }
    assert(payload@.take(n as int) =~= payload@);
    bytes
}

/// The length a frame announces is the length of what was framed.
pub proof fn lemma_frame_round_trip(payload: Seq<u8>)
    requires
        payload.len() <= u32::MAX,
    ensures
        le_u32(framed(payload)[0], framed(payload)[1], framed(payload)[2], framed(payload)[3])
            == payload.len(),
        framed(payload).skip(4) == payload,
{
    let n = payload.len();
    assert(framed(payload).skip(4) =~= payload);
    assert(n == n % 0x100 + (n / 0x100 % 0x100) * 0x100 + (n / 0x1_0000 % 0x100) * 0x1_0000 + (n
        / 0x100_0000 % 0x100) * 0x100_0000) by (nonlinear_arith)
        requires
            n <= 0xFFFF_FFFF,
    ;
}

/// Checks that a peer is the daemon's own user. Any other user is turned
/// away.
pub fn verify_client_credentials(peer_uid: u32, current_uid: u32) -> (result: Result<u32, Error>)
    ensures
        peer_uid == current_uid ==> result == Ok::<u32, Error>(peer_uid),
        peer_uid != current_uid ==> (result matches Err(e) && e.spec_kind() == ErrorKind::Ipc
            && e.spec_message() == "Unauthorized: different user"@),
{
    if peer_uid != current_uid {
        Err(Error::Ipc("Unauthorized: different user".to_owned()))
    } else {
        Ok(peer_uid)
    }
}

/// The time from `earlier` to `now`; none where `now` is not later.
pub open spec fn elapsed(earlier: u64, now: u64) -> u64 {
    if now >= earlier {
        (now - earlier) as u64
    } else {
        0
    }
}

/// Whether a command of `uid` that comes at `now` is turned away: it is
/// not critical, and the user's last answered command is less than the
/// interval ago.
pub open spec fn is_limited(
    last_seen: Map<u32, u64>,
    min_interval: u64,
    uid: u32,
    critical: bool,
    now: u64,
) -> bool {
    !critical && last_seen.contains_key(uid) && elapsed(last_seen[uid], now) < min_interval
}

/// What the serving side keeps between requests.
pub struct IpcServer {
    socket_path: String,
    request_limiter: HashMap<u32, u64>,
    min_request_interval: u64,
}

impl IpcServer {
    /// When each user's last answered command came, in microseconds.
    pub closed spec fn last_seen(&self) -> Map<u32, u64> {
        self.request_limiter@
    }

    /// The interval of the rate limit, in microseconds.
    pub closed spec fn min_interval(&self) -> u64 {
        self.min_request_interval
    }

    /// The path of the socket.
    pub closed spec fn spec_socket_path(&self) -> Seq<char> {
        self.socket_path@
    }

    /// A server for the socket at this path that has seen nobody yet.
    pub fn new(socket_path: String) -> (server: Self)
        ensures
            server.spec_socket_path() == socket_path@,
            server.last_seen() == Map::<u32, u64>::empty(),
            server.min_interval() == MIN_REQUEST_INTERVAL_US,
    {
        IpcServer {
            socket_path,
            request_limiter: HashMap::new(),
            min_request_interval: MIN_REQUEST_INTERVAL_US,
        }
    }

    /// The path of the socket.
    pub fn socket_path(&self) -> (path: &str)
        ensures
            path@ == self.spec_socket_path(),
    {
        self.socket_path.as_str()
    }

    /// Applies the rate limit to a command of `client_uid` that comes at
    /// `now`. Critical commands always pass and leave no trace. Any other
    /// command is turned away where the user's last answered command is
    /// less than the interval ago; else it passes and its time is kept.
    pub fn check_rate_limit(&mut self, client_uid: u32, command: &Command, now: u64) -> (result:
        Result<(), Error>)
        ensures
            final(self).min_interval() == old(self).min_interval(),
            final(self).spec_socket_path() == old(self).spec_socket_path(),
            is_limited(
                old(self).last_seen(),
                old(self).min_interval(),
                client_uid,
                *command is Ping || *command is Shutdown,
                now,
            ) <==> result is Err,
            result matches Err(e) ==> (e.spec_kind() == ErrorKind::Ipc && e.spec_message()
                == "Rate limited"@ && final(self).last_seen() == old(self).last_seen()),
            result is Ok ==> final(self).last_seen() == if *command is Ping || *command
                is Shutdown {
                old(self).last_seen()
            } else {
                old(self).last_seen().insert(client_uid, now)
            },
    {
        broadcast use vstd::std_specs::hash::group_hash_axioms;

        if command.is_critical() {
            return Ok(());
        }
        let limited = match self.request_limiter.get(&client_uid) {
            Some(last_request) => {
                let since: u64 = if now >= *last_request {
                    now - *last_request
                } else {
                    0
                };
                since < self.min_request_interval
            },
            None => false,
        };
        if limited {
            return Err(Error::Ipc("Rate limited".to_owned()));
        }
        self.request_limiter.insert(client_uid, now);
        Ok(())
    }
}

/// What a command needs from outside the daemon's state before it can be
/// answered.
#[derive(Debug, Clone, Copy, PartialEq, Eq, Structural)]
pub enum Need {
    /// Nothing.
    Nothing,
    /// The time and the process's use of memory and processor.
    Measurements,
    /// The settings, read again from their file.
    ReloadedConfig,
    /// The settings, written as TOML.
    ConfigText,
    /// The entries of the history.
    HistoryEntries,
    /// The outcome of deleting the entry from the history.
    HistoryDeletion,
    /// The outcome of clearing the history.
    HistoryClearing,
}

/// What was fetched from outside for a command.
pub enum Supplied {
    /// Nothing.
    Nothing,
    /// The time in seconds and the process's use of memory and processor.
    Measurements { now: u64, memory_usage_bytes: u64, cpu_usage_tenths: u32 },
    /// The settings read again, or why they could not be read.
    ReloadedConfig(Result<Config, Error>),
    /// The settings as TOML, or why they could not be written so.
    ConfigText(Result<String, String>),
    /// The entries of the history, or why they could not be had.
    HistoryEntries(Result<Vec<HistoryEntry>, String>),
    /// Whether the entry was there to delete, or why deleting failed.
    HistoryDeletion(Result<bool, String>),
    /// Why clearing the history failed, if it did.
    HistoryClearing(Result<(), String>),
}

impl Supplied {
    /// Which need this answers.
    pub open spec fn answers(&self) -> Need {
        match self {
            Supplied::Nothing => Need::Nothing,
            Supplied::Measurements { .. } => Need::Measurements,
            Supplied::ReloadedConfig(_) => Need::ReloadedConfig,
            Supplied::ConfigText(_) => Need::ConfigText,
            Supplied::HistoryEntries(_) => Need::HistoryEntries,
            Supplied::HistoryDeletion(_) => Need::HistoryDeletion,
            Supplied::HistoryClearing(_) => Need::HistoryClearing,
        }
    }
}

/// What a command needs from outside.
pub open spec fn need_of(command: Command) -> Need {
    match command {
        Command::GetStatus => Need::Measurements,
        Command::ReloadConfig => Need::ReloadedConfig,
        Command::GetConfig => Need::ConfigText,
        Command::GetHistory => Need::HistoryEntries,
        Command::DeleteHistoryEntry { .. } => Need::HistoryDeletion,
        Command::ClearHistory => Need::HistoryClearing,
        _ => Need::Nothing,
    }
}

/// What a command needs from outside.
pub fn needs(command: &Command) -> (need: Need)
    ensures
        need == need_of(*command),
{
    match command {
        Command::GetStatus => Need::Measurements,
        Command::ReloadConfig => Need::ReloadedConfig,
        Command::GetConfig => Need::ConfigText,
        Command::GetHistory => Need::HistoryEntries,
        Command::DeleteHistoryEntry { .. } => Need::HistoryDeletion,
        Command::ClearHistory => Need::HistoryClearing,
        _ => Need::Nothing,
    }
}

/// Whether `response` is an error with this text.
pub open spec fn is_error(response: Response, text: Seq<char>) -> bool {
    response matches Response::Error(m) && m@ == text
}

/// Whether `response` is a success with this text.
pub open spec fn is_done(response: Response, text: Seq<char>) -> bool {
    response matches Response::Done(m) && m@ == text
}

/// What is answered where a command was supplied something it has no use
/// for in place of what it needs.
pub const MISFIT_MESSAGE: &'static str = "Internal error: the command was not supplied what it needs";

/// Whether `response` answers `command`, given the daemon's state before
/// and what was supplied from outside. A command that needs nothing takes
/// no notice of what was supplied; one that was supplied something else
/// than it needs is answered with an error.
pub open spec fn answers_command(
    command: Command,
    before: DaemonStateView,
    supplied: Supplied,
    response: Response,
) -> bool {
    match command {
        Command::Ping => response is Pong,
        Command::GetStatus => match supplied {
            Supplied::Measurements { now, memory_usage_bytes, cpu_usage_tenths } => {
                &&& response matches Response::Status(status)
                &&& status.version@ == VERSION@
                &&& status.pid == before.pid
                &&& status.uptime_secs == crate::daemon::state::seconds_since(
                    before.start_time,
                    now,
                )
                &&& status.state == before.state
                &&& status.model_loaded == before.model_loaded
                &&& status.is_dictating == before.is_dictating
                &&& status.memory_usage_bytes == memory_usage_bytes
                &&& status.cpu_usage_tenths == cpu_usage_tenths
                &&& match status.model_name {
                    Some(name) => before.model_name == Some(name@),
                    None => before.model_name is None,
                }
            },
            _ => is_error(response, MISFIT_MESSAGE@),
        },
        Command::Shutdown => response is Success,
        Command::ReloadConfig => match supplied {
            Supplied::ReloadedConfig(Ok(_)) => response is Success,
            Supplied::ReloadedConfig(Err(e)) => is_error(
                response,
                "Failed to reload config: "@ + Error::prefix(e.spec_kind()) + e.spec_message(),
            ),
            _ => is_error(response, MISFIT_MESSAGE@),
        },
        Command::GetConfig => match supplied {
            Supplied::ConfigText(Ok(text)) => response matches Response::Config(t) && t@ == text@,
            Supplied::ConfigText(Err(why)) => is_error(
                response,
                "Failed to serialize config: "@ + why@,
            ),
            _ => is_error(response, MISFIT_MESSAGE@),
        },
        Command::StartDictation => match link_error(before.link) {
            None => response is Success,
            Some(why) => is_error(
                response,
                "Failed to start dictation: "@ + "Other error: "@ + why,
            ),
        },
        Command::StopDictation => match link_error(before.link) {
            None => response is Success,
            Some(why) => is_error(
                response,
                "Failed to stop dictation: "@ + "Other error: "@ + why,
            ),
        },
        Command::ListDevices => response matches Response::List(items) && items@.len() == 1
            && items@[0]@ == "default"@,
        Command::ListModels => response matches Response::List(items) && items@.len() == 0,
        Command::LoadModel { path } => is_done(
            response,
            "Model loaded (not yet implemented): "@ + path@,
        ),
        Command::UnloadModel => is_done(response, "Model unloaded (not yet implemented)"@),
        Command::GetHistory => match supplied {
            Supplied::HistoryEntries(Ok(entries)) => response == Response::History(entries),
            Supplied::HistoryEntries(Err(why)) => is_error(
                response,
                "Failed to get history: "@ + why@,
            ),
            _ => is_error(response, MISFIT_MESSAGE@),
        },
        Command::DeleteHistoryEntry { id } => match supplied {
            Supplied::HistoryDeletion(Ok(true)) => is_done(
                response,
                "Entry "@ + decimal(id as nat) + " deleted"@,
            ),
            Supplied::HistoryDeletion(Ok(false)) => is_error(
                response,
                "Entry "@ + decimal(id as nat) + " not found"@,
            ),
            Supplied::HistoryDeletion(Err(why)) => is_error(
                response,
                "Failed to delete entry: "@ + why@,
            ),
            _ => is_error(response, MISFIT_MESSAGE@),
        },
        Command::ClearHistory => match supplied {
            Supplied::HistoryClearing(Ok(_)) => is_done(response, "History cleared"@),
            Supplied::HistoryClearing(Err(why)) => is_error(
                response,
                "Failed to clear history: "@ + why@,
            ),
            _ => is_error(response, MISFIT_MESSAGE@),
        },
    }
}

/// What a command makes of the daemon's state.
pub open spec fn state_after(command: Command, before: DaemonStateView) -> DaemonStateView {
    match command {
        Command::Shutdown => DaemonStateView {
            state: State::ShuttingDown,
            shutdown_requested: true,
            ..before
        },
        Command::StartDictation => if link_error(before.link) is None {
            DaemonStateView { outbox: before.outbox.push(DictationCommand::Start), ..before }
        } else {
            before
        },
        Command::StopDictation => if link_error(before.link) is None {
            DaemonStateView { outbox: before.outbox.push(DictationCommand::Stop), ..before }
        } else {
            before
        },
        _ => before,
    }
}

/// Answers a command. The daemon's state changes on a shutdown (it is
/// shutting down from then on), on a start or stop of dictation (the
/// request is queued for the engine) and on a reload (the settings are
/// replaced where they could be read); every other command leaves it as
/// it is. A command that was supplied something else than it needs is
/// answered with an error and changes nothing.
pub fn handle_command(command: Command, state: &mut DaemonState, supplied: Supplied) -> (response:
    Response)
    ensures
        supplied.answers() != need_of(command) && need_of(command) != Need::Nothing ==> is_error(
            response,
            MISFIT_MESSAGE@,
        ) && final(state)@ == old(state)@,
        answers_command(command, old(state)@, supplied, response),
        final(state)@ == state_after(command, old(state)@),
        final(state).spec_config() == match (command, supplied) {
            (Command::ReloadConfig, Supplied::ReloadedConfig(Ok(config))) => config,
            _ => old(state).spec_config(),
        },
{
    match command {
        Command::Ping => Response::Pong,
        Command::GetStatus => match supplied {
            Supplied::Measurements { now, memory_usage_bytes, cpu_usage_tenths } => {
                Response::Status(state.status(now, memory_usage_bytes, cpu_usage_tenths))
            },
            _ => Response::Error(MISFIT_MESSAGE.to_owned()),
        },
        Command::Shutdown => {
            state.shutdown();
            Response::Success
        },
        Command::ReloadConfig => match supplied {
            Supplied::ReloadedConfig(loaded) => match state.reload_config(loaded) {
                Ok(_) => Response::Success,
                Err(e) => {
                    let why = e.to_string();
                    assert("Failed to reload config: "@ + why@ =~= "Failed to reload config: "@
                        + Error::prefix(e.spec_kind()) + e.spec_message());
                    Response::Error(concat("Failed to reload config: ", why.as_str()))
                },
            },
            _ => Response::Error(MISFIT_MESSAGE.to_owned()),
        },
        Command::GetConfig => match supplied {
            Supplied::ConfigText(Ok(text)) => Response::Config(text),
            Supplied::ConfigText(Err(why)) => Response::Error(
                concat("Failed to serialize config: ", why.as_str()),
            ),
            _ => Response::Error(MISFIT_MESSAGE.to_owned()),
        },
        Command::StartDictation => match state.start_dictation() {
            Ok(_) => Response::Success,
            Err(e) => {
                let why = e.to_string();
                assert("Failed to start dictation: "@ + why@ =~= "Failed to start dictation: "@
                    + "Other error: "@ + e.spec_message());
                Response::Error(concat("Failed to start dictation: ", why.as_str()))
            },
        },
        Command::StopDictation => match state.stop_dictation() {
            Ok(_) => Response::Success,
            Err(e) => {
                let why = e.to_string();
                assert("Failed to stop dictation: "@ + why@ =~= "Failed to stop dictation: "@
                    + "Other error: "@ + e.spec_message());
                Response::Error(concat("Failed to stop dictation: ", why.as_str()))
            },
        },
        Command::ListDevices => {
            let mut items: Vec<String> = Vec::new();
            items.push("default".to_owned());
            Response::List(items)
        },
        Command::ListModels => Response::List(Vec::new()),
        Command::LoadModel { path } => Response::Done(
            concat("Model loaded (not yet implemented): ", path.as_str()),
        ),
        Command::UnloadModel => Response::Done("Model unloaded (not yet implemented)".to_owned()),
        Command::GetHistory => match supplied {
            Supplied::HistoryEntries(Ok(entries)) => Response::History(entries),
            Supplied::HistoryEntries(Err(why)) => Response::Error(
                concat("Failed to get history: ", why.as_str()),
            ),
            _ => Response::Error(MISFIT_MESSAGE.to_owned()),
        },
        Command::DeleteHistoryEntry { id } => match supplied {
            Supplied::HistoryDeletion(Ok(found)) => {
                let number = decimal_string(id);
                if found {
                    Response::Done(concat3("Entry ", number.as_str(), " deleted"))
                } else {
                    Response::Error(concat3("Entry ", number.as_str(), " not found"))
                }
            },
            Supplied::HistoryDeletion(Err(why)) => Response::Error(
                concat("Failed to delete entry: ", why.as_str()),
            ),
            _ => Response::Error(MISFIT_MESSAGE.to_owned()),
        },
        Command::ClearHistory => match supplied {
            Supplied::HistoryClearing(Ok(_)) => Response::Done("History cleared".to_owned()),
            Supplied::HistoryClearing(Err(why)) => Response::Error(
                concat("Failed to clear history: ", why.as_str()),
            ),
            _ => Response::Error(MISFIT_MESSAGE.to_owned()),
        },
    }
}

/// Whether `result` is what accepting `message` comes to: a request that
/// passes the rate limit is accepted with its command; one that does not
/// is answered with an error, and so is anything but a request.
pub open spec fn accepts(
    message: Message,
    limited: bool,
    result: Result<Command, Response>,
) -> bool {
    match message.payload {
        Payload::Request(command) => if limited {
            result matches Err(response) && is_error(
                response,
                "Rate limited: "@ + "IPC error: "@ + "Rate limited"@,
            )
        } else {
            result == Ok::<Command, Response>(command)
        },
        _ => result matches Err(response) && is_error(response, "Invalid message type"@),
    }
}

/// Whether a message of `uid` that comes at `now` is held back by the
/// rate limit.
pub open spec fn holds_back(server: IpcServer, message: Message, uid: u32, now: u64) -> bool {
    message.payload matches Payload::Request(command) && is_limited(
        server.last_seen(),
        server.min_interval(),
        uid,
        command is Ping || command is Shutdown,
        now,
    )
}

/// Accepts a message from the peer `client_uid` that came at time `now`,
/// in microseconds: a request is held against the rate limit and, where
/// it passes, its command is handed out to be answered; anything else is
/// answered with an error at once. What a command needs from outside is
/// to be fetched only once it is accepted.
pub fn accept_message(server: &mut IpcServer, message: Message, client_uid: u32, now: u64) -> (result:
    Result<Command, Response>)
    ensures
        accepts(message, holds_back(*old(server), message, client_uid, now), result),
        final(server).min_interval() == old(server).min_interval(),
        final(server).spec_socket_path() == old(server).spec_socket_path(),
        final(server).last_seen() == match message.payload {
            Payload::Request(command) => if holds_back(*old(server), message, client_uid, now)
                || command is Ping || command is Shutdown {
                old(server).last_seen()
            } else {
                old(server).last_seen().insert(client_uid, now)
            },
            _ => old(server).last_seen(),
        },
{
    match message.payload {
        Payload::Request(command) => {
            match server.check_rate_limit(client_uid, &command, now) {
                Err(e) => {
                    let why = e.to_string();
                    assert("Rate limited: "@ + why@ =~= "Rate limited: "@ + "IPC error: "@
                        + "Rate limited"@);
                    Err(Response::Error(concat("Rate limited: ", why.as_str())))
                },
                Ok(_) => Ok(command),
            }
        },
        _ => Err(Response::Error("Invalid message type".to_owned())),
    }
}

/// Answers a message from the peer `client_uid` that came at time `now`,
/// with what its command needs from outside at hand already. The message
/// is accepted or not, see [`accept_message`]; an accepted command is answered,
/// see [`handle_command`]. The answer carries the message's identifier.
pub fn handle_request(
    server: &mut IpcServer,
    state: &mut DaemonState,
    message: Message,
    client_uid: u32,
    supplied: Supplied,
    now: u64,
) -> (reply: Message)
    ensures
        reply.id == message.id,
        reply.payload matches Payload::Response(response) && (match message.payload {
            Payload::Request(command) => {
                if holds_back(*old(server), message, client_uid, now) {
                    &&& is_error(
                        response,
                        "Rate limited: "@ + "IPC error: "@ + "Rate limited"@,
                    )
                    &&& final(state)@ == old(state)@
                    &&& final(server).last_seen() == old(server).last_seen()
                } else {
                    &&& answers_command(command, old(state)@, supplied, response)
                    &&& final(state)@ == state_after(command, old(state)@)
                }
            },
            _ => is_error(response, "Invalid message type"@) && final(state)@ == old(state)@,
        }),
{
    let id = message.id;
    let response = match accept_message(server, message, client_uid, now) {
        Ok(command) => handle_command(command, state, supplied),
        Err(response) => response,
    };
    Message::response(id, response)
}

} // verus!
