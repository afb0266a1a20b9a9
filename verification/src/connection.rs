//! Where a pool of database connections leads: what a query span says of the
//! database that it was sent to.

use vstd::prelude::*;
use vstd::string::StringExecFns;

verus! {

/// The database behind a pool of connections.
#[derive(Debug, Clone)]
pub struct ConnectionInfo {
    pub host: String,
    pub port: u16,
    pub database: String,
    pub system: &'static str,
}

/// The name of the database that a connection leads to: the one it was
/// configured with, or, without one, the database that the system opens by
/// default.
pub open spec fn database_name(configured: Option<Seq<char>>, default: Seq<char>) -> Seq<char> {
    match configured {
        Some(name) => name,
        None => default,
    }
}

/// The name `name`, if there is one, as the contracts speak of it.
pub open spec fn name_text(name: Option<&str>) -> Option<Seq<char>> {
    match name {
        Some(name) => Some(name@),
        None => None,
    }
}

impl ConnectionInfo {
    /// The database behind a pool of PostgreSQL connections to `host` and
    /// `port`. Without a configured database it is `postgres`.
    pub fn postgres(host: &str, port: u16, database: Option<&str>) -> (info: ConnectionInfo)
        ensures
            info.host@ == host@,
            info.port == port,
            info.database@ == database_name(name_text(database), "postgres"@),
            info.system@ == "postgresql"@,
    {
        let database = match database {
            Some(name) => name,
            None => "postgres",
        };
        ConnectionInfo {
            host: String::from_str(host),
            port,
            database: String::from_str(database),
            system: "postgresql",
        }
    }

    /// The database behind a pool of MySQL connections to `host` and `port`.
    /// Without a configured database it is `mysql`.
    pub fn mysql(host: &str, port: u16, database: Option<&str>) -> (info: ConnectionInfo)
        ensures
            info.host@ == host@,
            info.port == port,
            info.database@ == database_name(name_text(database), "mysql"@),
            info.system@ == "mysql"@,
    {
        let database = match database {
            Some(name) => name,
            None => "mysql",
        };
        ConnectionInfo {
            host: String::from_str(host),
            port,
            database: String::from_str(database),
            system: "mysql",
        }
    }
}

} // verus!
