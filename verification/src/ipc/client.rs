//! The asking side of the control socket: requests and what the answers
//! mean.

use super::protocol::{Command, DaemonStatus, Message, Payload, Response};
use crate::history::HistoryEntry;
use crate::platform::paths::{join, path_join};
use crate::text::concat;
use crate::{Error, ErrorKind};
use vstd::prelude::*;

verus! {

/// Where the runtime directory is taken to be when the platform names
/// neither a runtime nor a cache directory.
pub const FALLBACK_RUNTIME_DIR: &'static str = "/tmp/onevox";

/// A client of the daemon.
pub struct IpcClient {
    socket_path: String,
    next_id: u64,
}

/// The identifier after `id`; after the largest comes zero.
pub open spec fn id_after(id: u64) -> u64 {
    if id == u64::MAX {
        0
    } else {
        (id + 1) as u64
    }
}

/// What an answer other than the awaited one amounts to.
pub open spec fn refusal(response: Response) -> Seq<char> {
    match response {
        Response::Error(why) => "Error: "@ + why@,
        _ => "Unexpected response"@,
    }
}

/// Whether `result` is the error a refusing `response` amounts to.
pub open spec fn refuses<T>(result: Result<T, Error>, response: Response) -> bool {
    result matches Err(e) && e.spec_kind() == ErrorKind::Ipc && e.spec_message() == refusal(
        response,
    )
}

/// The error an answer other than the awaited one amounts to.
fn refuse(response: Response) -> (e: Error)
    ensures
        e.spec_kind() == ErrorKind::Ipc,
        e.spec_message() == refusal(response),
{
    match response {
        Response::Error(why) => Error::Ipc(concat("Error: ", why.as_str())),
        _ => Error::Ipc("Unexpected response".to_owned()),
    }
}

impl IpcClient {
    /// The path of the socket.
    pub closed spec fn spec_socket_path(&self) -> Seq<char> {
        self.socket_path@
    }

    /// The identifier the next request gets.
    pub closed spec fn spec_next_id(&self) -> u64 {
        self.next_id
    }

    /// A client of the daemon at this socket. Its first request gets the
    /// identifier one.
    pub fn new(socket_path: String) -> (client: Self)
        ensures
            client.spec_socket_path() == socket_path@,
            client.spec_next_id() == 1,
    {
        IpcClient { socket_path, next_id: 1 }
    }

    /// The socket's default path: `onevox.sock` in the runtime directory,
    /// or in the cache directory where there is no runtime directory, or
    /// in `/tmp/onevox` where there is neither.
    pub fn default_socket_path(runtime_dir: Option<&str>, cache_dir: Option<&str>) -> (path: String)
        ensures
            path@ == path_join(
                match runtime_dir {
                    Some(dir) => dir@,
                    None => match cache_dir {
                        Some(dir) => dir@,
                        None => FALLBACK_RUNTIME_DIR@,
                    },
                },
                "onevox.sock"@,
            ),
    {
        let base: &str = match runtime_dir {
            Some(dir) => dir,
            None => match cache_dir {
                Some(dir) => dir,
                None => FALLBACK_RUNTIME_DIR,
            },
        };
        join(base, "onevox.sock")
    }

    /// The path of the socket.
    pub fn socket_path(&self) -> (path: &str)
        ensures
            path@ == self.spec_socket_path(),
    {
        self.socket_path.as_str()
    }

    /// The request that carries `command`: it gets the next identifier.
    pub fn request(&mut self, command: Command) -> (message: Message)
        ensures
            message.id == old(self).spec_next_id(),
            message.payload == Payload::Request(command),
            final(self).spec_next_id() == id_after(old(self).spec_next_id()),
            final(self).spec_socket_path() == old(self).spec_socket_path(),
    {
        let id = self.next_id;
        self.next_id = if id == u64::MAX {
            0
        } else {
            id + 1
        };
        Message::request(id, command)
    }

    /// The response a message from the daemon carries; an error where it
    /// carries none.
    pub fn response_of(message: Message) -> (result: Result<Response, Error>)
        ensures
            match message.payload {
                Payload::Response(response) => result == Ok::<Response, Error>(response),
                _ => result matches Err(e) && e.spec_kind() == ErrorKind::Ipc && e.spec_message()
                    == "Invalid response type"@,
            },
    {
        match message.payload {
            Payload::Response(response) => Ok(response),
            _ => Err(Error::Ipc("Invalid response type".to_owned())),
        }
    }

    /// Whether the daemon is there, by what came back on a ping: only a
    /// pong says so.
    pub fn ping(outcome: &Result<Response, Error>) -> (alive: bool)
        ensures
            alive == (*outcome matches Ok(Response::Pong)),
    {
        match outcome {
            Ok(Response::Pong) => true,
            _ => false,
        }
    }

    /// The status a response to a status request carries.
    pub fn get_status(response: Response) -> (result: Result<DaemonStatus, Error>)
        ensures
            match response {
                Response::Status(status) => result == Ok::<DaemonStatus, Error>(status),
                _ => refuses(result, response),
            },
    {
        match response {
            Response::Status(status) => Ok(status),
            other => Err(refuse(other)),
        }
    }

    /// What a response to a shutdown request means.
    pub fn shutdown(response: Response) -> (result: Result<(), Error>)
        ensures
            match response {
                Response::Success => result is Ok,
                _ => refuses(result, response),
            },
    {
        match response {
            Response::Success => Ok(()),
            other => Err(refuse(other)),
        }
    }

    /// The settings a response to a settings request carries.
    pub fn get_config(response: Response) -> (result: Result<String, Error>)
        ensures
            match response {
                Response::Config(text) => result == Ok::<String, Error>(text),
                _ => refuses(result, response),
            },
    {
        match response {
            Response::Config(text) => Ok(text),
            other => Err(refuse(other)),
        }
    }

    /// The entries a response to a history request carries.
    pub fn get_history(response: Response) -> (result: Result<Vec<HistoryEntry>, Error>)
        ensures
            match response {
                Response::History(entries) => result == Ok::<Vec<HistoryEntry>, Error>(entries),
                _ => refuses(result, response),
            },
    {
        match response {
            Response::History(entries) => Ok(entries),
            other => Err(refuse(other)),
        }
    }

    /// What a response to a request to delete an entry means.
    pub fn delete_history_entry(response: Response) -> (result: Result<(), Error>)
        ensures
            match response {
                Response::Done(_) => result is Ok,
                _ => refuses(result, response),
            },
    {
        match response {
            Response::Done(_) => Ok(()),
            other => Err(refuse(other)),
        }
    }

    /// What a response to a request to clear the history means.
    pub fn clear_history(response: Response) -> (result: Result<(), Error>)
        ensures
            match response {
                Response::Done(_) => result is Ok,
                _ => refuses(result, response),
            },
    {
        match response {
            Response::Done(_) => Ok(()),
            other => Err(refuse(other)),
        }
    }

    /// What a response to a request to start dictation means.
    pub fn start_dictation(response: Response) -> (result: Result<(), Error>)
        ensures
            match response {
                Response::Success => result is Ok,
                Response::Done(_) => result is Ok,
                _ => refuses(result, response),
            },
    {
        match response {
            Response::Success => Ok(()),
            Response::Done(_) => Ok(()),
            other => Err(refuse(other)),
        }
    }

    /// What a response to a request to stop dictation means.
    pub fn stop_dictation(response: Response) -> (result: Result<(), Error>)
        ensures
            match response {
                Response::Success => result is Ok,
                Response::Done(_) => result is Ok,
                _ => refuses(result, response),
            },
    {
        match response {
            Response::Success => Ok(()),
            Response::Done(_) => Ok(()),
            other => Err(refuse(other)),
        }
    }
}

} // verus!
