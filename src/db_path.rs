//! Where the game library's SQLite database lives, as a connection string.

use vstd::prelude::*;

verus! {

#[verifier::external_type_specification]
#[verifier::external_body]
pub struct ExUrl(url::Url);

/// Why the database location could not be worked out.
#[derive(Clone, Copy, Debug, PartialEq, Eq, Structural)]
pub enum DbPathError {
    /// Neither a configuration nor a data directory is known for the user.
    NoUserDataDirectory,
    /// The database path cannot be written as a `file:` URL (it is not
    /// absolute).
    InvalidPath,
}

impl DbPathError {
    /// A message for the user.
    pub fn message(&self) -> (r: String)
        ensures
            r@ == match self {
                DbPathError::NoUserDataDirectory => "Failed to resolve user data directory"@,
                DbPathError::InvalidPath => "Invalid database path"@,
            },
    {
        match self {
            DbPathError::NoUserDataDirectory => {
                "Failed to resolve user data directory".to_owned()
            },
            DbPathError::InvalidPath => {
                "Invalid database path".to_owned()
            },
        }
    }
}

/// The application's directory under the user's configuration directory.
pub const APP_DIR_NAME: &'static str = "com.reinamanager.dev";

/// The directory that holds the database, under the application's directory.
pub const DATA_DIR_NAME: &'static str = "data";

/// The database file name.
pub const DB_FILE_NAME: &'static str = "reina_manager.db";

/// Relies on `std::path::Path::join`: `part` adjoined to `base` with the
/// platform's separator.
#[verifier::external_body]
fn join_path(base: &str, part: &str) -> (r: String) {
    std::path::Path::new(base).join(part).to_string_lossy().into_owned()
}

/// Relies on `url::Url::from_file_path`: the `file:` URL of an absolute path;
/// an error for a path that is not absolute, such as the empty path.
#[verifier::external_body]
fn file_url(path: &str) -> (r: Result<url::Url, ()>)
    ensures
        path@.len() == 0 ==> r is Err,
{
    url::Url::from_file_path(path)
}

/// Relies on `url::Url::path`: the percent-encoded path of the URL.
#[verifier::external_body]
fn url_path(u: &url::Url) -> (r: String) {
    u.path().to_owned()
}

/// The SQLite connection string for a database file whose `file:` URL has
/// the path `file_url_path`: it is opened for reading and writing, and
/// created when missing.
pub fn sqlite_connection_string(file_url_path: &str) -> (r: String)
    ensures
        r@ == "sqlite:"@ + file_url_path@ + "?mode=rwc"@,
{
    let mut s = "sqlite:".to_owned();
    s.append(file_url_path);
    s.append("?mode=rwc");
    s
}

/// The connection string of the database under the user's configuration
/// directory, or under the data directory when no configuration directory is
/// known.
pub fn get_db_path(config_dir: Option<String>, data_dir: Option<String>) -> (r: Result<
    String,
    DbPathError,
>)
    ensures
        r == Err::<String, DbPathError>(DbPathError::NoUserDataDirectory) <==> (config_dir is None
            && data_dir is None),
        r is Ok ==> exists|p: Seq<char>| r->Ok_0@ == "sqlite:"@ + p + "?mode=rwc"@,
{
    let base = match config_dir {
        Some(d) => d,
        None => match data_dir {
            Some(d) => d,
            None => {
                return Err(DbPathError::NoUserDataDirectory);
            },
        },
    };
    let app_dir = join_path(base.as_str(), APP_DIR_NAME);
    let data = join_path(app_dir.as_str(), DATA_DIR_NAME);
    let file = join_path(data.as_str(), DB_FILE_NAME);
    match file_url(file.as_str()) {
        Ok(u) => {
            let p = url_path(&u);
            Ok(sqlite_connection_string(p.as_str()))
        },
        Err(_) => Err(DbPathError::InvalidPath),
    }
}

} // verus!
