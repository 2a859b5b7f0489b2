//! The two installations the program tells apart: a development build and
//! the installed one, each with its own socket, database and configuration.

use vstd::prelude::*;

verus! {

/// Which installation is running.
#[derive(Clone, Copy, Debug, PartialEq, Eq, Structural)]
pub enum Profile {
    Dev,
    Prod,
}

impl Profile {
    /// The path of the daemon's socket.
    pub fn socket_path(self) -> (s: &'static str)
        ensures
            self == Profile::Dev ==> s@ == "/tmp/focusd-dev.sock"@,
            self == Profile::Prod ==> s@ == "/tmp/focusd.sock"@,
    {
        match self {
            Profile::Dev => "/tmp/focusd-dev.sock",
            Profile::Prod => "/tmp/focusd.sock",
        }
    }

    /// The path of the history database, relative to the home directory.
    pub fn db_relative_path(self) -> (s: &'static str)
        ensures
            self == Profile::Dev ==> s@ == ".local/share/focusd/db/history-test.db"@,
            self == Profile::Prod ==> s@ == ".local/share/focusd/db/history.db"@,
    {
        match self {
            Profile::Dev => ".local/share/focusd/db/history-test.db",
            Profile::Prod => ".local/share/focusd/db/history.db",
        }
    }

    /// The path of the configuration file, relative to the home directory.
    pub fn config_relative_path(self) -> (s: &'static str)
        ensures
            self == Profile::Dev ==> s@ == ".config/focusd/config-dev.toml"@,
            self == Profile::Prod ==> s@ == ".config/focusd/config.toml"@,
    {
        match self {
            Profile::Dev => ".config/focusd/config-dev.toml",
            Profile::Prod => ".config/focusd/config.toml",
        }
    }
}

} // verus!
