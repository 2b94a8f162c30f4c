use crate::codec::{decode_config, encode_config};
use crate::errors::GitError;
use crate::gitmodels::GitConfig;
use crate::text::{all_digits, dec_val, parse_u32_chars, str_to_chars};
use vstd::prelude::*;

verus! {

#[verifier::external_type_specification]
#[verifier::external_body]
pub struct ExConnection(rusqlite::Connection);

/// Relies on rusqlite::Connection::open and Connection::execute: opens (or
/// creates) the database file at `path` and makes sure the key-value table
/// exists. Fails only on storage faults.
#[verifier::external_body]
fn sqlite_open_kv(path: &String) -> (r: Result<rusqlite::Connection, GitError>) {
    let conn = rusqlite::Connection::open(path.as_str()).map_err(
        |_| GitError::PersistenceError,
    )?;
    conn.execute(
        "CREATE TABLE IF NOT EXISTS settings (key TEXT PRIMARY KEY, value TEXT NOT NULL)",
        (),
    ).map_err(|_| GitError::PersistenceError)?;
    Ok(conn)
}

/// Relies on rusqlite::Connection::query_row: returns the value stored under
/// `key`, `None` when the key is absent, and an error only on storage faults.
#[verifier::external_body]
fn kv_get(conn: &rusqlite::Connection, key: &str) -> (r: Result<Option<String>, GitError>) {
    let res = conn.query_row(
        "SELECT value FROM settings WHERE key = ?1",
        (key,),
        |row| row.get::<_, String>(0),
    );
    match res {
        Ok(v) => Ok(Some(v)),
        Err(rusqlite::Error::QueryReturnedNoRows) => Ok(None),
        Err(_) => Err(GitError::PersistenceError),
    }
}

/// Relies on rusqlite::Connection::execute: upserts `value` under `key`;
/// the only error it reports is a storage fault.
#[verifier::external_body]
fn kv_set(conn: &rusqlite::Connection, key: &str, value: &String) -> (r: Result<(), GitError>)
    ensures
        r matches Err(e) ==> e == GitError::PersistenceError,
{
    let res = conn.execute(
        "INSERT INTO settings (key, value) VALUES (?1, ?2) \
         ON CONFLICT(key) DO UPDATE SET value = excluded.value",
        (key, value.as_str()),
    );
    match res {
        Ok(_) => Ok(()),
        Err(_) => Err(GitError::PersistenceError),
    }
}

/// Relies on rusqlite::Connection::execute: opens a transaction, so the
/// writes until the matching commit reach disk together or not at all.
#[verifier::external_body]
fn kv_begin(conn: &rusqlite::Connection) -> (r: Result<(), GitError>)
    ensures
        r matches Err(e) ==> e == GitError::PersistenceError,
{
    match conn.execute("BEGIN TRANSACTION", ()) {
        Ok(_) => Ok(()),
        Err(_) => Err(GitError::PersistenceError),
    }
}

/// Relies on rusqlite::Connection::execute: commits the open transaction.
#[verifier::external_body]
fn kv_commit(conn: &rusqlite::Connection) -> (r: Result<(), GitError>)
    ensures
        r matches Err(e) ==> e == GitError::PersistenceError,
{
    match conn.execute("COMMIT", ()) {
        Ok(_) => Ok(()),
        Err(_) => Err(GitError::PersistenceError),
    }
}

/// Relies on rusqlite::Connection::execute: rolls the open transaction back,
/// discarding its writes.
#[verifier::external_body]
fn kv_rollback(conn: &rusqlite::Connection) -> (r: Result<(), GitError>)
    ensures
        r matches Err(e) ==> e == GitError::PersistenceError,
{
    match conn.execute("ROLLBACK", ()) {
        Ok(_) => Ok(()),
        Err(_) => Err(GitError::PersistenceError),
    }
}

/// Relies on rusqlite::Connection::execute: removes the value stored under
/// `key`, whether or not one was there.
#[verifier::external_body]
fn kv_delete(conn: &rusqlite::Connection, key: &str) -> (r: Result<(), GitError>)
    ensures
        r matches Err(e) ==> e == GitError::PersistenceError,
{
    match conn.execute("DELETE FROM settings WHERE key = ?1", (key,)) {
        Ok(_) => Ok(()),
        Err(_) => Err(GitError::PersistenceError),
    }
}

/// Relies on rusqlite::Statement::query_map: every stored pair, ordered by key.
#[verifier::external_body]
fn kv_all(conn: &rusqlite::Connection) -> (r: Result<Vec<(String, String)>, GitError>) {
    let mut stmt = conn.prepare("SELECT key, value FROM settings ORDER BY key").map_err(
        |_| GitError::PersistenceError,
    )?;
    let rows = stmt.query_map((), |row| Ok((row.get(0)?, row.get(1)?))).map_err(
        |_| GitError::PersistenceError,
    )?;
    rows.collect::<Result<Vec<(String, String)>, _>>().map_err(|_| GitError::PersistenceError)
}

/// Relies on std::time::SystemTime: seconds since the epoch, by the clock, so
/// nothing more is promised of the value than that it is not negative.
#[verifier::external_body]
pub fn now_unix() -> (r: i64)
    ensures
        r >= 0,
{
    match std::time::SystemTime::now().duration_since(std::time::UNIX_EPOCH) {
        Ok(d) => i64::try_from(d.as_secs()).unwrap_or(i64::MAX),
        Err(_) => 0,
    }
}

/// Relies on dirs_next::home_dir: the caller's home directory, which depends
/// on the environment, so nothing is promised of the value.
#[verifier::external_body]
pub fn home_dir_string() -> (r: Option<String>) {
    dirs_next::home_dir().and_then(|p| p.to_str().map(|s| s.to_string()))
}

/// The operation timeout a stored setting asks for: its decimal value when it
/// has one, thirty seconds otherwise.
pub fn timeout_from_setting(v: &Option<String>) -> (r: u32)
    ensures
        match v {
            None => r == 30,
            Some(s) => {
                if s@.len() > 0 && all_digits(s@) && dec_val(s@) <= u32::MAX {
                    r == dec_val(s@)
                } else {
                    r == 30
                }
            },
        },
{
    match v {
        None => 30,
        Some(s) => {
            let chars = str_to_chars(s.as_str());
            match parse_u32_chars(&chars) {
                Some(x) => x,
                None => 30,
            }
        },
    }
}

/// The per-workspace settings store: one key-value file inside the workspace.
pub struct ProjectDatabase {
    conn: rusqlite::Connection,
}

impl ProjectDatabase {
    /// Opens (or creates) the workspace's settings store.
    pub fn new(workspace_path: &str) -> (r: Result<ProjectDatabase, GitError>) {
        let mut path = String::new();
        path.append(workspace_path);
        path.append("/.vibebase.db");
        match sqlite_open_kv(&path) {
            Ok(conn) => Ok(ProjectDatabase { conn }),
            Err(e) => Err(e),
        }
    }

    /// The stored value under `key`, `None` when absent or unreadable.
    pub fn get_value(&self, key: &str) -> (r: Option<String>) {
        match kv_get(&self.conn, key) {
            Ok(v) => v,
            Err(_) => None,
        }
    }

    /// Stores `value` under `key`.
    pub fn set_value(&self, key: &str, value: &String) -> (r: Result<(), GitError>)
        ensures
            r matches Err(e) ==> e == GitError::PersistenceError,
    {
        kv_set(&self.conn, key, value)
    }

    /// Removes the value under `key`, whether or not one was there.
    pub fn delete_value(&self, key: &str) -> (r: Result<(), GitError>)
        ensures
            r matches Err(e) ==> e == GitError::PersistenceError,
    {
        kv_delete(&self.conn, key)
    }

    /// The stored synchronization configuration. Never fails: whatever of the
    /// record is missing or unreadable decodes to the default configuration's
    /// value for that field (`decode_config` says exactly how).
    pub fn load_git_config(&self) -> (r: GitConfig) {
        let mut fields: Vec<Option<String>> = Vec::new();
        fields.push(self.get_value("git.id"));
        fields.push(self.get_value("git.repository_path"));
        fields.push(self.get_value("git.current_branch"));
        fields.push(self.get_value("git.auth_method"));
        fields.push(self.get_value("git.ssh_key_path"));
        fields.push(self.get_value("git.ssh_passphrase_key"));
        fields.push(self.get_value("git.github_token_key"));
        fields.push(self.get_value("git.git_user_name"));
        fields.push(self.get_value("git.git_user_email"));
        fields.push(self.get_value("git.remote_name"));
        fields.push(self.get_value("git.remote_url"));
        fields.push(self.get_value("git.is_configured"));
        fields.push(self.get_value("git.last_fetch"));
        fields.push(self.get_value("git.commit_message_style"));
        fields.push(self.get_value("git.commit_message_provider"));
        fields.push(self.get_value("git.commit_message_language"));
        fields.push(self.get_value("git.created_at"));
        fields.push(self.get_value("git.updated_at"));
        decode_config(&fields)
    }

    /// Upserts the configuration under its singleton identifier, refreshing
    /// the last-modified timestamp. Fails only on storage faults.
    pub fn save_git_config(&self, config: &GitConfig) -> (r: Result<(), GitError>)
        ensures
            r matches Err(e) ==> e == GitError::PersistenceError,
    {
        let mut c = config.clone();
        c.updated_at = now_unix();
        let fields = encode_config(&c);
        self.set_value("git.id", &fields[0])?;
        self.set_value("git.repository_path", &fields[1])?;
        self.set_value("git.current_branch", &fields[2])?;
        self.set_value("git.auth_method", &fields[3])?;
        self.set_value("git.ssh_key_path", &fields[4])?;
        self.set_value("git.ssh_passphrase_key", &fields[5])?;
        self.set_value("git.github_token_key", &fields[6])?;
        self.set_value("git.git_user_name", &fields[7])?;
        self.set_value("git.git_user_email", &fields[8])?;
        self.set_value("git.remote_name", &fields[9])?;
        self.set_value("git.remote_url", &fields[10])?;
        self.set_value("git.is_configured", &fields[11])?;
        self.set_value("git.last_fetch", &fields[12])?;
        self.set_value("git.commit_message_style", &fields[13])?;
        self.set_value("git.commit_message_provider", &fields[14])?;
        self.set_value("git.commit_message_language", &fields[15])?;
        self.set_value("git.created_at", &fields[16])?;
        self.set_value("git.updated_at", &fields[17])?;
        Ok(())
    }
}

/// The user-wide settings store: one key-value file in the home directory.
pub struct AppDatabase {
    conn: rusqlite::Connection,
}

impl AppDatabase {
    /// Opens (or creates) the user-wide settings store.
    pub fn new() -> (r: Result<AppDatabase, GitError>) {
        let home = match home_dir_string() {
            Some(h) => h,
            None => {
                return Err(GitError::PersistenceError);
            },
        };
        let mut path = String::new();
        path.append(home.as_str());
        path.append("/.vibebase-app.db");
        match sqlite_open_kv(&path) {
            Ok(conn) => Ok(AppDatabase { conn }),
            Err(e) => Err(e),
        }
    }

    /// The stored setting under `key`; an error when it is absent or the
    /// store is unreadable.
    pub fn get_app_setting(&self, key: &str) -> (r: Result<String, GitError>) {
        match kv_get(&self.conn, key) {
            Ok(Some(v)) => Ok(v),
            Ok(None) => Err(GitError::PersistenceError),
            Err(e) => Err(e),
        }
    }

    /// Stores `value` under `key`.
    pub fn save_app_setting(&self, key: &str, value: &String) -> (r: Result<(), GitError>) {
        kv_set(&self.conn, key, value)
    }

    /// The stored value under `key`, `None` when absent or unreadable.
    pub fn get_optional_setting(&self, key: &str) -> (r: Option<String>) {
        match kv_get(&self.conn, key) {
            Ok(v) => v,
            Err(_) => None,
        }
    }

    /// Every stored pair, ordered by key.
    pub fn all_settings(&self) -> (r: Result<Vec<(String, String)>, GitError>) {
        kv_all(&self.conn)
    }

    /// Removes the setting under `key`, whether or not one was there.
    pub fn delete_setting(&self, key: &str) -> (r: Result<(), GitError>)
        ensures
            r matches Err(e) ==> e == GitError::PersistenceError,
    {
        kv_delete(&self.conn, key)
    }

    /// Opens a transaction: the writes until `commit_changes` land together
    /// or, after `rollback_changes`, not at all.
    pub fn begin_changes(&self) -> (r: Result<(), GitError>)
        ensures
            r matches Err(e) ==> e == GitError::PersistenceError,
    {
        kv_begin(&self.conn)
    }

    /// Commits the open transaction.
    pub fn commit_changes(&self) -> (r: Result<(), GitError>)
        ensures
            r matches Err(e) ==> e == GitError::PersistenceError,
    {
        kv_commit(&self.conn)
    }

    /// Rolls the open transaction back.
    pub fn rollback_changes(&self) -> (r: Result<(), GitError>)
        ensures
            r matches Err(e) ==> e == GitError::PersistenceError,
    {
        kv_rollback(&self.conn)
    }
}

} // verus!
