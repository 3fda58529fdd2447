//! The commands of the program.

pub mod auth;
pub mod chat;
pub mod job;

use crate::cli::auth::ServiceKind;
use crate::cli::job::JobId;
use vstd::prelude::*;

verus! {

/// What the program is asked to do.
#[derive(Debug)]
pub enum Command {
    /// Set up the indices and fetch the notes.
    Init { db: bool, index: bool, notes: bool },
    /// Bring the indices and the database up to date.
    Migrate { db: bool, index: bool },
    /// Run the server.
    Serve { host: String, port: String },
    /// Index the notes.
    Index { all: bool, full_text: bool, vector: bool },
    /// Build all indices anew.
    Rebuild,
    /// Search the index.
    Query { term: String, vector: bool },
    /// Chat with the model.
    Chat,
    /// Authorise access to a service.
    Auth { service: ServiceKind },
    /// Run a periodic job once.
    Job { id: JobId },
}

/// The command line.
#[derive(Debug)]
pub struct Cli {
    pub command: Option<Command>,
}

/// The directories of the program under a storage path.
#[derive(Debug)]
pub struct StoragePaths {
    pub index_path: String,
    pub notes_path: String,
    pub vec_db_path: String,
}

impl StoragePaths {
    /// The directories under `storage_path`, or under `./` where none is
    /// set: `index`, `notes` and `db`.
    pub fn under(storage_path: Option<&str>) -> (r: Self)
        ensures
            r.index_path@ == storage_root(storage_path) + "/index"@,
            r.notes_path@ == storage_root(storage_path) + "/notes"@,
            r.vec_db_path@ == storage_root(storage_path) + "/db"@,
    {
        let root = match storage_path {
            Some(path) => path,
            None => "./",
        };
        StoragePaths {
            index_path: vstd::string::StringExecFns::concat(root.to_owned(), "/index"),
            notes_path: vstd::string::StringExecFns::concat(root.to_owned(), "/notes"),
            vec_db_path: vstd::string::StringExecFns::concat(root.to_owned(), "/db"),
        }
    }
}

/// The storage path, and `./` where none is set.
pub open spec fn storage_root(storage_path: Option<&str>) -> Seq<char> {
    match storage_path {
        Some(path) => path@,
        None => "./"@,
    }
}

impl Command {
    /// The host that the server listens on unless the command line says
    /// otherwise.
    pub fn default_host() -> (r: &'static str)
        ensures
            r@ == "127.0.0.1"@,
    {
        "127.0.0.1"
    }

    /// The port that the server listens on unless the command line says
    /// otherwise.
    pub fn default_port() -> (r: &'static str)
        ensures
            r@ == "2222"@,
    {
        "2222"
    }
}

} // verus!
