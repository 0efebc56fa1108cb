//! The statements that drive the store. The store is one table of readings,
//! to which rows are only ever added.

use vstd::prelude::*;

verus! {

/// The text of the statement that makes the table of readings unless it is
/// there already. The columns, in order: `timestamp`, an integer; `topic`,
/// `value` and `device_id`, text of bounded length. None may be null. The
/// table has no key and no index.
pub open spec fn schema_text() -> Seq<char> {
    "CREATE TABLE IF NOT EXISTS READINGS (timestamp int NOT NULL, topic varchar(255) NOT NULL, value varchar(255) NOT NULL, device_id varchar(255) NOT NULL)"@
}

/// The text of the statement that adds one reading. Its four parameters are
/// the reading's timestamp, topic, value and device identifier, in this order.
pub open spec fn append_text() -> Seq<char> {
    "INSERT INTO READINGS VALUES (?1, ?2, ?3, ?4);"@
}

/// The statement to run once at every start, before anything is appended. It
/// leaves a table that exists as it is.
pub fn schema_statement() -> (statement: &'static str)
    ensures
        statement@ == schema_text(),
{
    "CREATE TABLE IF NOT EXISTS READINGS (timestamp int NOT NULL, topic varchar(255) NOT NULL, value varchar(255) NOT NULL, device_id varchar(255) NOT NULL)"
}

/// The statement that appends one reading as one row.
pub fn append_statement() -> (statement: &'static str)
    ensures
        statement@ == append_text(),
{
    "INSERT INTO READINGS VALUES (?1, ?2, ?3, ?4);"
}

} // verus!
