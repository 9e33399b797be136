//! Secrets Manager: what the replies of the service come to.

use vstd::prelude::*;
use crate::errors::{create_failure, create_failure_view, failure_view, service_failure, SecParError, ServiceError};
use crate::text::{join2, join3};
use crate::ui::{info_text, Row};

verus! {

/// One secret of a `ListSecrets` reply, with the fields that a listing shows.
#[derive(Debug)]
pub struct SecretEntry {
    pub name: Option<String>,
    pub arn: Option<String>,
    /// the last-changed date, as the SDK's date type displays it
    pub last_changed: Option<String>,
}

/// The fields of a `DescribeSecret` reply that the details show.
#[derive(Debug)]
pub struct SecretDetails {
    pub name: Option<String>,
    pub arn: Option<String>,
    pub description: Option<String>,
    pub last_changed: Option<String>,
    pub last_accessed: Option<String>,
    pub rotation_enabled: Option<bool>,
}

/// The text of an optional field, or `fallback` where it is absent.
pub open spec fn text_or(field: Option<String>, fallback: Seq<char>) -> Seq<char> {
    match field {
        Some(s) => s@,
        None => fallback,
    }
}

/// The listing row of a secret: its name (`unknown` when absent), its ARN and
/// its last-changed date (empty when absent).
pub open spec fn secret_row(e: SecretEntry) -> (Seq<char>, Seq<char>, Seq<char>) {
    (text_or(e.name, "unknown"@), text_or(e.arn, Seq::empty()), text_or(e.last_changed, Seq::empty()))
}

/// The text of an optional field, or `fallback` where it is absent.
pub fn field_or(field: &Option<String>, fallback: &str) -> (r: String)
    ensures
        r@ == text_or(*field, fallback@),
{
    match field {
        Some(s) => s.clone(),
        None => crate::text::owned(fallback),
    }
}

/// The listing rows of the secrets of a `ListSecrets` reply, in order.
pub fn secret_rows(entries: &Vec<SecretEntry>) -> (rows: Vec<Row>)
    ensures
        rows.deep_view() == entries@.map_values(|e: SecretEntry| secret_row(e)),
{
    let mut rows: Vec<Row> = Vec::new();
    let n = entries.len();
    proof { crate::text::reveal_empty(); }
    for i in 0..n
        invariant
            n == entries.len(),
            rows.deep_view() == entries@.take(i as int).map_values(|e: SecretEntry| secret_row(e)),
            ""@ == Seq::<char>::empty(),
    {
        let e = &entries[i];
        let row = (field_or(&e.name, "unknown"), field_or(&e.arn, ""), field_or(&e.last_changed, ""));
        let ghost prev = rows.deep_view();
        rows.push(row);
        assert(rows.deep_view() =~= prev.push(secret_row(entries@[i as int])));
        assert(entries@.take(i + 1) =~= entries@.take(i as int).push(entries@[i as int]));
        assert(rows.deep_view() =~= entries@.take(i + 1).map_values(|e: SecretEntry| secret_row(e)));
    }
    assert(entries@.take(n as int) =~= entries@);
    rows
}

/// A `ListSecrets` page as listing rows: the rows of its secrets, in order,
/// or `None` when there are no more pages; a failed call gives
/// the error of [`failure_view`] (`NotFound` for a missing item, else `AwsSdk`).
pub fn list_secrets(reply: Result<Option<Vec<SecretEntry>>, ServiceError>) -> (r: Result<Option<Vec<Row>>, SecParError>)
    ensures
        match reply {
            Ok(Some(entries)) => r matches Ok(Some(rows)) && rows.deep_view() == entries@.map_values(|e: SecretEntry| secret_row(e)),
            Ok(None) => r matches Ok(None),
            Err(e) => r matches Err(x) && x@ == failure_view(e),
        },
{
    match reply {
        Ok(Some(entries)) => Ok(Some(secret_rows(&entries))),
        Ok(None) => Ok(None),
        Err(e) => Err(service_failure(e)),
    }
}

/// A `GetSecretValue` reply for the secret `name`: the secret's text;
/// [`SecParError::MissingValue`] when the reply holds none; and, when the
/// call failed, the error of [`failure_view`] (`NotFound` for a missing item, else `AwsSdk`).
pub fn retrieve_secret(name: &str, reply: Result<Option<String>, ServiceError>) -> (r: Result<String, SecParError>)
    ensures
        match reply {
            Ok(Some(v)) => r == Ok::<String, SecParError>(v),
            Ok(None) => r matches Err(SecParError::MissingValue(m)) && m@ == "secret value is empty for "@ + name@,
            Err(e) => r matches Err(x) && x@ == failure_view(e),
        },
{
    match reply {
        Ok(Some(secret)) => Ok(secret),
        Ok(None) => Err(SecParError::MissingValue(join2("secret value is empty for ", name))),
        Err(e) => Err(service_failure(e)),
    }
}

/// A `CreateSecret` reply for the secret `name`: the new secret's ARN;
/// [`SecParError::MissingValue`] when the reply holds none; and, when the
/// call failed (a name already taken, a permission missing, ...),
/// [`SecParError::CreateFail`] with the SDK's message.
pub fn save_secret(name: &str, reply: Result<Option<String>, ServiceError>) -> (r: Result<String, SecParError>)
    ensures
        match reply {
            Ok(Some(arn)) => r == Ok::<String, SecParError>(arn),
            Ok(None) => r matches Err(SecParError::MissingValue(m)) && m@ == "secret ARN is missing for "@ + name@,
            Err(e) => r matches Err(x) && x@ == create_failure_view(e),
        },
{
    match reply {
        Ok(Some(arn)) => Ok(arn),
        Ok(None) => Err(SecParError::MissingValue(join2("secret ARN is missing for ", name))),
        Err(e) => Err(create_failure(e)),
    }
}

/// A `DeleteSecret` reply; a failed call gives the error of [`failure_view`] (`NotFound` for a missing item, else `AwsSdk`).
pub fn delete_secret(reply: Result<(), ServiceError>) -> (r: Result<(), SecParError>)
    ensures
        match reply {
            Ok(()) => r is Ok,
            Err(e) => r matches Err(x) && x@ == failure_view(e),
        },
{
    match reply {
        Ok(()) => Ok(()),
        Err(e) => Err(service_failure(e)),
    }
}

/// The lines that describe a secret: a heading, then name, ARN, description,
/// last-changed and last-accessed dates (`-` where absent) and whether
/// rotation is enabled.
pub open spec fn detail_lines(d: SecretDetails) -> Seq<Seq<char>> {
    seq![
        "ℹ️  "@ + "Secret details"@,
        "  Name          : "@ + text_or(d.name, "-"@),
        "  ARN           : "@ + text_or(d.arn, "-"@),
        "  Description   : "@ + text_or(d.description, "-"@),
        "  Last Changed  : "@ + text_or(d.last_changed, "-"@),
        "  Last Accessed : "@ + text_or(d.last_accessed, "-"@),
        "  Rotation      : "@ + (if d.rotation_enabled == Some(true) { "enabled"@ } else { "disabled"@ }),
    ]
}

/// A `DescribeSecret` reply as the lines that show it; a failed call gives
/// the error of [`failure_view`] (`NotFound` for a missing item, else `AwsSdk`).
pub fn describe_secret(reply: Result<SecretDetails, ServiceError>) -> (r: Result<Vec<String>, SecParError>)
    ensures
        match reply {
            Ok(d) => r matches Ok(lines) && lines.deep_view() == detail_lines(d),
            Err(e) => r matches Err(x) && x@ == failure_view(e),
        },
{
    match reply {
        Ok(d) => {
            let mut lines: Vec<String> = Vec::new();
            lines.push(info_text("Secret details"));
            lines.push(join2("  Name          : ", field_or(&d.name, "-").as_str()));
            lines.push(join2("  ARN           : ", field_or(&d.arn, "-").as_str()));
            lines.push(join2("  Description   : ", field_or(&d.description, "-").as_str()));
            lines.push(join2("  Last Changed  : ", field_or(&d.last_changed, "-").as_str()));
            lines.push(join2("  Last Accessed : ", field_or(&d.last_accessed, "-").as_str()));
            let rotation = match d.rotation_enabled {
                Some(true) => "enabled",
                _ => "disabled",
            };
            lines.push(join2("  Rotation      : ", rotation));
            assert(lines.deep_view() =~= detail_lines(d));
            Ok(lines)
        },
        Err(e) => Err(service_failure(e)),
    }
}

/// The message of a created secret: `Secret '<name>' created.`
pub fn created_text(name: &str) -> (r: String)
    ensures
        r@ == "Secret '"@ + name@ + "' created."@,
{
    join3("Secret '", name, "' created.")
}

/// The message of a deleted secret: `Secret '<name>' deleted.`, or
/// `Secret '<name>' deleted (force).` when the recovery window was skipped.
pub fn deleted_text(name: &str, force: bool) -> (r: String)
    ensures
        r@ == "Secret '"@ + name@ + (if force { "' deleted (force)."@ } else { "' deleted."@ }),
{
    if force {
        join3("Secret '", name, "' deleted (force).")
    } else {
        join3("Secret '", name, "' deleted.")
    }
}

} // verus!
