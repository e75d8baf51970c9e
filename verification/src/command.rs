//! The commands that need neither the store nor a cell.

use vstd::prelude::*;
use vstd::string::StringExecFns;
use crate::error::CommandError;
use crate::store::{Reply, StoreValue};

verus! {

/// Says that the commands are there to be called.
pub fn h3status_command(_args: Vec<String>) -> (r: Result<StoreValue, CommandError>)
    ensures
        r is Ok,
        r->Ok_0@ == Reply::SimpleString("Ok"@),
{
    Ok(StoreValue::SimpleString(String::from_str("Ok")))
}

/// Members within a radius of a point: not implemented.
pub fn h3radius_command(_args: Vec<String>) -> (r: Result<StoreValue, CommandError>)
    ensures
        r is Err,
        r->Err_0 == CommandError::NotImplemented,
{
    Err(CommandError::NotImplemented)
}

/// Members within a radius of a cell: not implemented.
pub fn h3radiusbyindex_command(_args: Vec<String>) -> (r: Result<StoreValue, CommandError>)
    ensures
        r is Err,
        r->Err_0 == CommandError::NotImplemented,
{
    Err(CommandError::NotImplemented)
}

/// Members within an area: not implemented.
pub fn h3search_command(_args: Vec<String>) -> (r: Result<StoreValue, CommandError>)
    ensures
        r is Err,
        r->Err_0 == CommandError::NotImplemented,
{
    Err(CommandError::NotImplemented)
}

/// Members within an area, stored under another key: not implemented.
pub fn h3searchstore_command(_args: Vec<String>) -> (r: Result<StoreValue, CommandError>)
    ensures
        r is Err,
        r->Err_0 == CommandError::NotImplemented,
{
    Err(CommandError::NotImplemented)
}

} // verus!
