//! A table behind a remote service.

use vstd::prelude::*;
use vstd::string::StringExecFns;
use crate::error::{Error, ErrorView};

verus! {

/// A table that is reached through the client `client`.
#[derive(Clone, Debug, PartialEq, Eq)]
pub struct RemoteTable<C> {
    pub client: C,
    pub name: String,
}

impl<C> RemoteTable<C> {
    /// The table called `name` that `client` reaches.
    pub fn new(client: C, name: String) -> (t: Self)
        ensures
            t.client == client,
            t.name == name,
    {
        RemoteTable { client, name }
    }

    /// The name of the table.
    pub fn name(&self) -> (name: &str)
        ensures
            name@ == self.name@,
    {
        self.name.as_str()
    }

    /// The failure of `operation`, which tables behind a remote service do
    /// not support yet.
    pub fn not_supported(&self, operation: &str) -> (e: Error)
        ensures
            e@ == (ErrorView::Store {
                message: operation@ + " is not yet supported on remote table "@ + self.name@,
            }),
    {
        Error::Store {
            message: String::from_str(operation).concat(
                " is not yet supported on remote table ",
            ).concat(self.name.as_str()),
        }
    }

    /// The text that the table is shown as.
    pub fn describe(&self) -> (s: String)
        ensures
            s@ == "RemoteTable("@ + self.name@ + ")"@,
    {
        String::from_str("RemoteTable(").concat(self.name.as_str()).concat(")")
    }
}

} // verus!
