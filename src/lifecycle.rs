use vstd::prelude::*;

use crate::error::BridgeError;
use crate::handle::Handle;
use crate::native;
use crate::native::engine_message;

verus! {

/// A handle on an open database, local or remote.
pub struct DbHandle {
    pub database: Handle<libsql::Database>,
}

/// A handle on a connection derived from a database.
pub struct ConnHandle {
    pub connection: Handle<libsql::Connection>,
}

impl Clone for DbHandle {
    fn clone(&self) -> (r: Self)
        ensures
            r.database@ == self.database@,
    {
        DbHandle { database: self.database.clone() }
    }
}

impl Clone for ConnHandle {
    fn clone(&self) -> (r: Self)
        ensures
            r.connection@ == self.connection@,
    {
        ConnHandle { connection: self.connection.clone() }
    }
}

/// Hands out a handle on a database that the engine has just built, local or
/// remote; a failed build becomes an open error with the engine's message.
pub fn database_from_build(built: Result<libsql::Database, libsql::Error>) -> (r: Result<
    DbHandle,
    BridgeError,
>)
    ensures
        built is Ok <==> r is Ok,
        r matches Ok(d) ==> built matches Ok(b) && d.database@ == b,
        built matches Err(e) ==> (r matches Err(BridgeError::Open(m)) && m@ == engine_message(e)),
{
    match built {
        Ok(db) => Ok(DbHandle { database: Handle::wrap(db) }),
        Err(e) => Err(BridgeError::Open(native::error_message(&e))),
    }
}

/// Hands out a handle on a connection that the engine has just derived; its
/// refusal becomes a connect error with the engine's message.
pub fn connection_from(made: Result<libsql::Connection, libsql::Error>) -> (r: Result<
    ConnHandle,
    BridgeError,
>)
    ensures
        made is Ok <==> r is Ok,
        r matches Ok(c) ==> made matches Ok(m) && c.connection@ == m,
        made matches Err(e) ==> (r matches Err(BridgeError::Connect(m)) && m@ == engine_message(e)),
{
    match made {
        Ok(conn) => Ok(ConnHandle { connection: Handle::wrap(conn) }),
        Err(e) => Err(BridgeError::Connect(native::error_message(&e))),
    }
}

/// Derives a new connection from a database: the handle wraps the connection
/// the engine hands out, and its refusal becomes a connect error.
pub fn open_db(database: &DbHandle) -> (r: Result<ConnHandle, BridgeError>)
    ensures
        r is Err ==> r matches Err(BridgeError::Connect(_)),
{
    connection_from(native::connect(database.database.resource()))
}

} // verus!
