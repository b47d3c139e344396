use timhortons_tracker::failure::{exit_status, Failure, FailureKind, EXIT_FAILURE, EXIT_SUCCESS};

#[test]
fn store_failures_and_their_lines() {
    assert_eq!(Failure::OpenStore.diagnostic(), "Failed to connect to database.");
    assert_eq!(Failure::EnsureTable.diagnostic(), "Failed to create table.");
    assert_eq!(Failure::InsertOrder.diagnostic(), "Failed to add order.");
    assert_eq!(Failure::PrepareQuery.diagnostic(), "Failed to prepare statement.");
    assert_eq!(Failure::QueryOrders.diagnostic(), "Failed to query orders.");
    for failure in [
        Failure::OpenStore,
        Failure::EnsureTable,
        Failure::InsertOrder,
        Failure::PrepareQuery,
        Failure::QueryOrders,
    ] {
        assert_eq!(failure.kind(), FailureKind::Store);
    }
}

#[test]
fn a_row_that_is_no_order_is_a_failure_of_shape() {
    assert_eq!(Failure::ReadOrder.kind(), FailureKind::DataShape);
    assert_eq!(Failure::ReadOrder.diagnostic(), "Failed to serialize order.");
}

#[test]
fn file_failures_and_their_lines() {
    assert_eq!(Failure::CreateFile.diagnostic(), "Failed to create file.");
    assert_eq!(Failure::WriteFile.diagnostic(), "Failed to write to CSV.");
    assert_eq!(Failure::FlushFile.diagnostic(), "Failed to flush CSV writer.");
    for failure in [Failure::CreateFile, Failure::WriteFile, Failure::FlushFile] {
        assert_eq!(failure.kind(), FailureKind::File);
    }
}

#[test]
fn exit_status_is_zero_only_for_success() {
    let done: Result<(), Failure> = Ok(());
    assert_eq!(exit_status(&done), 0);
    assert_eq!(exit_status(&done), EXIT_SUCCESS);
    for failure in [
        Failure::OpenStore,
        Failure::EnsureTable,
        Failure::InsertOrder,
        Failure::PrepareQuery,
        Failure::QueryOrders,
        Failure::ReadOrder,
        Failure::CreateFile,
        Failure::WriteFile,
        Failure::FlushFile,
    ] {
        let failed: Result<(), Failure> = Err(failure);
        assert_eq!(exit_status(&failed), EXIT_FAILURE);
        assert_ne!(exit_status(&failed), 0);
    }
}

#[test]
fn exit_status_does_not_look_at_what_was_done() {
    let line: Result<String, Failure> = Ok("Orders exported to orders.csv".to_string());
    assert_eq!(exit_status(&line), 0);
}
