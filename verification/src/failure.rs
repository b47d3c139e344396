//! What can go wrong while a command is carried out, and what the user is
//! told.
//!
//! Every failure ends the run: nothing is retried and nothing is undone. That
//! a day has no orders is no failure.

use vstd::prelude::*;

verus! {

/// The step that failed.
#[derive(Clone, Copy, Debug, PartialEq, Eq, Structural)]
pub enum Failure {
    /// The store could not be opened or created.
    OpenStore,
    /// The table of orders could not be made sure of.
    EnsureTable,
    /// An order could not be put into the store.
    InsertOrder,
    /// The query for the orders could not be prepared.
    PrepareQuery,
    /// The query for the orders could not be run.
    QueryOrders,
    /// A stored row could not be read back as an order.
    ReadOrder,
    /// The export file could not be created.
    CreateFile,
    /// The document could not be written to the export file.
    WriteFile,
    /// What was written could not be flushed to the export file.
    FlushFile,
}

/// The kinds of failure.
#[derive(Clone, Copy, Debug, PartialEq, Eq, Structural)]
pub enum FailureKind {
    /// The store refused an operation.
    Store,
    /// A stored row does not have the shape of an order.
    DataShape,
    /// The export file could not be created or written.
    File,
}

/// The exit status of a run that carried its command out.
pub const EXIT_SUCCESS: u8 = 0;

/// The exit status of a run that ended on a failure.
pub const EXIT_FAILURE: u8 = 101;

impl Failure {
    /// The kind of this failure.
    pub open spec fn kind_of(self) -> FailureKind {
        match self {
            Failure::OpenStore => FailureKind::Store,
            Failure::EnsureTable => FailureKind::Store,
            Failure::InsertOrder => FailureKind::Store,
            Failure::PrepareQuery => FailureKind::Store,
            Failure::QueryOrders => FailureKind::Store,
            Failure::ReadOrder => FailureKind::DataShape,
            Failure::CreateFile => FailureKind::File,
            Failure::WriteFile => FailureKind::File,
            Failure::FlushFile => FailureKind::File,
        }
    }

    /// The line that tells the user of this failure.
    pub open spec fn diagnostic_of(self) -> Seq<char> {
        match self {
            Failure::OpenStore => "Failed to connect to database."@,
            Failure::EnsureTable => "Failed to create table."@,
            Failure::InsertOrder => "Failed to add order."@,
            Failure::PrepareQuery => "Failed to prepare statement."@,
            Failure::QueryOrders => "Failed to query orders."@,
            Failure::ReadOrder => "Failed to serialize order."@,
            Failure::CreateFile => "Failed to create file."@,
            Failure::WriteFile => "Failed to write to CSV."@,
            Failure::FlushFile => "Failed to flush CSV writer."@,
        }
    }

    /// The kind of this failure.
    pub fn kind(&self) -> (kind: FailureKind)
        ensures
            kind == self.kind_of(),
    {
        match self {
            Failure::OpenStore
            | Failure::EnsureTable
            | Failure::InsertOrder
            | Failure::PrepareQuery
            | Failure::QueryOrders => FailureKind::Store,
            Failure::ReadOrder => FailureKind::DataShape,
            Failure::CreateFile | Failure::WriteFile | Failure::FlushFile => FailureKind::File,
        }
    }

    /// The line that tells the user of this failure.
    pub fn diagnostic(&self) -> (line: &'static str)
        ensures
            line@ == self.diagnostic_of(),
    {
        match self {
            Failure::OpenStore => "Failed to connect to database.",
            Failure::EnsureTable => "Failed to create table.",
            Failure::InsertOrder => "Failed to add order.",
            Failure::PrepareQuery => "Failed to prepare statement.",
            Failure::QueryOrders => "Failed to query orders.",
            Failure::ReadOrder => "Failed to serialize order.",
            Failure::CreateFile => "Failed to create file.",
            Failure::WriteFile => "Failed to write to CSV.",
            Failure::FlushFile => "Failed to flush CSV writer.",
        }
    }
}

/// The exit status that goes with `outcome`: zero for a command that was
/// carried out, and the same status other than zero for every failure.
pub open spec fn exit_status_of<A>(outcome: Result<A, Failure>) -> u8 {
    match outcome {
        Ok(_) => EXIT_SUCCESS,
        Err(_) => EXIT_FAILURE,
    }
}

/// The exit status with which the run ends after `outcome`.
pub fn exit_status<A>(outcome: &Result<A, Failure>) -> (status: u8)
    ensures
        status == exit_status_of(*outcome),
        status == 0 <==> outcome is Ok,
{
    match outcome {
        Ok(_) => EXIT_SUCCESS,
        Err(_) => EXIT_FAILURE,
    }
}

} // verus!
