//! Parameter Store: what the replies of the service come to.

use vstd::prelude::*;
use crate::errors::{create_failure, create_failure_view, failure_view, service_failure, SecParError, ServiceError};
use crate::text::{join2, join3};
use crate::ui::Row;
use crate::cli::sec::{field_or, text_or};

verus! {

/// One parameter of a `DescribeParameters` page, with the fields that a
/// listing shows.
#[derive(Debug)]
pub struct ParameterEntry {
    pub name: Option<String>,
    /// the parameter's type, as the SDK names it (`String`, `SecureString`, ...)
    pub kind: Option<String>,
    /// the last-modified date, as the SDK's date type displays it
    pub last_modified: Option<String>,
}

/// The types a parameter can be stored as.
#[derive(Debug, Clone, Copy, PartialEq, Eq, Structural)]
pub enum ParameterType {
    String,
    StringList,
    SecureString,
}

/// The listing row of a parameter: its name and type (`unknown` when absent)
/// and its last-modified date (empty when absent).
pub open spec fn parameter_row(e: ParameterEntry) -> (Seq<char>, Seq<char>, Seq<char>) {
    (text_or(e.name, "unknown"@), text_or(e.kind, "unknown"@), text_or(e.last_modified, Seq::empty()))
}

/// The listing rows of the parameters of a page, in order.
pub fn parameter_rows(entries: &Vec<ParameterEntry>) -> (rows: Vec<Row>)
    ensures
        rows.deep_view() == entries@.map_values(|e: ParameterEntry| parameter_row(e)),
{
    let mut rows: Vec<Row> = Vec::new();
    let n = entries.len();
    proof { crate::text::reveal_empty(); }
    for i in 0..n
        invariant
            n == entries.len(),
            rows.deep_view() == entries@.take(i as int).map_values(|e: ParameterEntry| parameter_row(e)),
            ""@ == Seq::<char>::empty(),
    {
        let e = &entries[i];
        let row = (field_or(&e.name, "unknown"), field_or(&e.kind, "unknown"), field_or(&e.last_modified, ""));
        let ghost prev = rows.deep_view();
        rows.push(row);
        assert(rows.deep_view() =~= prev.push(parameter_row(entries@[i as int])));
        assert(entries@.take(i + 1) =~= entries@.take(i as int).push(entries@[i as int]));
        assert(rows.deep_view() =~= entries@.take(i + 1).map_values(|e: ParameterEntry| parameter_row(e)));
    }
    assert(entries@.take(n as int) =~= entries@);
    rows
}

/// A `DescribeParameters` page as listing rows: the rows of its parameters,
/// in order, or `None` when there are no more pages; a failed call gives
/// the error of [`failure_view`] (`NotFound` for a missing item, else `AwsSdk`).
pub fn list_parameters(reply: Result<Option<Vec<ParameterEntry>>, ServiceError>) -> (r: Result<Option<Vec<Row>>, SecParError>)
    ensures
        match reply {
            Ok(Some(entries)) => r matches Ok(Some(rows)) && rows.deep_view() == entries@.map_values(|e: ParameterEntry| parameter_row(e)),
            Ok(None) => r matches Ok(None),
            Err(e) => r matches Err(x) && x@ == failure_view(e),
        },
{
    match reply {
        Ok(Some(entries)) => Ok(Some(parameter_rows(&entries))),
        Ok(None) => Ok(None),
        Err(e) => Err(service_failure(e)),
    }
}

/// A `GetParameter` reply for the parameter `name`: the parameter's value;
/// [`SecParError::MissingValue`] when the reply holds none; and, when the
/// call failed, the error of [`failure_view`] (`NotFound` for a missing item, else `AwsSdk`).
pub fn get_parameter(name: &str, reply: Result<Option<String>, ServiceError>) -> (r: Result<String, SecParError>)
    ensures
        match reply {
            Ok(Some(v)) => r == Ok::<String, SecParError>(v),
            Ok(None) => r matches Err(SecParError::MissingValue(m)) && m@ == "parameter value is empty for "@ + name@,
            Err(e) => r matches Err(x) && x@ == failure_view(e),
        },
{
    match reply {
        Ok(Some(value)) => Ok(value),
        Ok(None) => Err(SecParError::MissingValue(join2("parameter value is empty for ", name))),
        Err(e) => Err(service_failure(e)),
    }
}

/// A `PutParameter` reply; a failed call gives [`SecParError::CreateFail`] with the SDK's message.
pub fn create_parameter(reply: Result<(), ServiceError>) -> (r: Result<(), SecParError>)
    ensures
        match reply {
            Ok(()) => r is Ok,
            Err(e) => r matches Err(x) && x@ == create_failure_view(e),
        },
{
    match reply {
        Ok(()) => Ok(()),
        Err(e) => Err(create_failure(e)),
    }
}

/// A `DeleteParameter` reply; a failed call gives the error of [`failure_view`] (`NotFound` for a missing item, else `AwsSdk`).
pub fn delete_parameter(reply: Result<(), ServiceError>) -> (r: Result<(), SecParError>)
    ensures
        match reply {
            Ok(()) => r is Ok,
            Err(e) => r matches Err(x) && x@ == failure_view(e),
        },
{
    match reply {
        Ok(()) => Ok(()),
        Err(e) => Err(service_failure(e)),
    }
}

/// The message of a created parameter: `Parameter '<name>' created.`
pub fn created_text(name: &str) -> (r: String)
    ensures
        r@ == "Parameter '"@ + name@ + "' created."@,
{
    join3("Parameter '", name, "' created.")
}

/// The message of a deleted parameter: `Parameter '<name>' deleted.`
pub fn deleted_text(name: &str) -> (r: String)
    ensures
        r@ == "Parameter '"@ + name@ + "' deleted."@,
{
    join3("Parameter '", name, "' deleted.")
}

} // verus!
