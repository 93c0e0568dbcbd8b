//! Where the daemon keeps its files, given the platform's directories.

use vstd::prelude::*;
use vstd::string::StringExecFns;

verus! {

/// File mode of the directories the daemon makes: the owner only.
pub const DIR_MODE: u32 = 0o700;

/// The name of the control endpoint where the platform has named pipes.
pub const NAMED_PIPE_PATH: &'static str = "\\\\.\\pipe\\onevox";

/// `name` appended to the path `base`: an absolute `name` replaces the
/// base, an empty base gives `name`, and otherwise the two are joined by
/// one separator.
pub open spec fn path_join(base: Seq<char>, name: Seq<char>) -> Seq<char> {
    if name.len() > 0 && name[0] == '/' {
        name
    } else if base.len() == 0 {
        name
    } else if base.last() == '/' {
        base + name
    } else {
        base + seq!['/'] + name
    }
}

/// `name` appended to the path `base`.
pub fn join(base: &str, name: &str) -> (path: String)
    ensures
        path@ == path_join(base@, name@),
{
    let base_len = base.unicode_len();
    let name_len = name.unicode_len();
    if name_len > 0 && name.get_char(0) == '/' {
        String::from_str(name)
    } else if base_len == 0 {
        String::from_str(name)
    } else if base.get_char(base_len - 1) == '/' {
        crate::text::concat(base, name)
    } else {
        proof {
            reveal_strlit("/");
            assert("/"@ =~= seq!['/']);
        }
        crate::text::concat3(base, "/", name)
    }
}

/// The models directory, in the cache directory.
pub fn models_dir(cache_dir: &str) -> (path: String)
    ensures
        path@ == path_join(cache_dir@, "models"@),
{
    join(cache_dir, "models")
}

/// The directory of one model, in the models directory.
pub fn model_path(models_dir: &str, model_id: &str) -> (path: String)
    ensures
        path@ == path_join(models_dir@, model_id@),
{
    join(models_dir, model_id)
}

/// The history file, in the data directory.
pub fn history_db_path(data_dir: &str) -> (path: String)
    ensures
        path@ == path_join(data_dir@, "history.json"@),
{
    join(data_dir, "history.json")
}

/// The settings file, in the config directory.
pub fn config_file_path(config_dir: &str) -> (path: String)
    ensures
        path@ == path_join(config_dir@, "config.toml"@),
{
    join(config_dir, "config.toml")
}

/// The log directory, in the data directory.
pub fn log_dir(data_dir: &str) -> (path: String)
    ensures
        path@ == path_join(data_dir@, "logs"@),
{
    join(data_dir, "logs")
}

/// The runtime directory: in the session's runtime directory where the
/// platform names one, else in the directory for temporary files.
pub fn runtime_dir(session_runtime_dir: Option<&str>, temp_dir: &str) -> (path: String)
    ensures
        path@ == match session_runtime_dir {
            Some(dir) => path_join(dir@, "onevox"@),
            None => path_join(temp_dir@, "onevox"@),
        },
{
    match session_runtime_dir {
        Some(dir) => join(dir, "onevox"),
        None => join(temp_dir, "onevox"),
    }
}

/// The control socket: in the session's runtime directory where the
/// platform names one, else in the directory for temporary files.
pub fn ipc_socket_path(session_runtime_dir: Option<&str>, temp_dir: &str) -> (path: String)
    ensures
        path@ == match session_runtime_dir {
            Some(dir) => path_join(dir@, "onevox.sock"@),
            None => path_join(temp_dir@, "onevox.sock"@),
        },
{
    match session_runtime_dir {
        Some(dir) => join(dir, "onevox.sock"),
        None => join(temp_dir, "onevox.sock"),
    }
}

/// The directories the daemon needs, in the order they are made: cache,
/// config, data, models and logs.
pub fn ensure_directories(cache_dir: &str, config_dir: &str, data_dir: &str) -> (dirs: Vec<String>)
    ensures
        dirs@.len() == 5,
        dirs@[0]@ == cache_dir@,
        dirs@[1]@ == config_dir@,
        dirs@[2]@ == data_dir@,
        dirs@[3]@ == path_join(cache_dir@, "models"@),
        dirs@[4]@ == path_join(data_dir@, "logs"@),
{
    let mut dirs: Vec<String> = Vec::new();
    dirs.push(String::from_str(cache_dir));
    dirs.push(String::from_str(config_dir));
    dirs.push(String::from_str(data_dir));
    dirs.push(models_dir(cache_dir));
    dirs.push(log_dir(data_dir));
    dirs
}

} // verus!
