use winrt_nostd::async_ops::{
    alloc_op_id, completed_action, completed_string_op, failed_action, AsyncAction, AsyncError,
    AsyncOperation, AsyncOperationWithProgress, AsyncStatus, E_ABORT, E_ILLEGAL_METHOD_CALL,
};

#[test]
fn status_values() {
    assert_eq!(AsyncStatus::Created.value(), 0);
    assert_eq!(AsyncStatus::Started.value(), 1);
    assert_eq!(AsyncStatus::Completed.value(), 2);
    assert_eq!(AsyncStatus::Canceled.value(), 3);
    assert_eq!(AsyncStatus::Error.value(), 4);
}

#[test]
fn operation_lifecycle() {
    let mut op: AsyncOperation<u32> = AsyncOperation::new(9);
    assert_eq!(op.id, 9);
    assert_eq!(op.status, AsyncStatus::Created);
    assert!(!op.is_done());
    let e = op.get_results().unwrap_err();
    assert_eq!(e.code, E_ILLEGAL_METHOD_CALL);
    assert_eq!(e.message, "Operation not yet completed");
    op.start();
    assert_eq!(op.status, AsyncStatus::Started);
    op.start();
    assert_eq!(op.status, AsyncStatus::Started);
    assert!(op.get_results().is_err());
    op.complete(41);
    assert_eq!(op.status, AsyncStatus::Completed);
    assert_eq!(op.progress, 100);
    assert!(op.is_done());
    assert_eq!(op.get_results().unwrap(), 41);
}

#[test]
fn completed_operation_returns_value() {
    let op = AsyncOperation::completed(1, String::from("done"));
    assert_eq!(op.get_results().unwrap(), "done");
    assert_eq!(op.progress, 100);
}

#[test]
fn failed_operation_returns_error() {
    let op: AsyncOperation<u8> = AsyncOperation::failed(2, AsyncError::new(-5, "boom"));
    let e = op.get_results().unwrap_err();
    assert_eq!(e.code, -5);
    assert_eq!(e.message, "boom");
    assert!(op.is_done());
}

#[test]
fn fail_after_start() {
    let mut op: AsyncOperation<u8> = AsyncOperation::new(3);
    op.start();
    op.fail(AsyncError::new(7, "seven"));
    assert_eq!(op.status, AsyncStatus::Error);
    assert_eq!(op.get_results().unwrap_err().code, 7);
}

#[test]
fn error_without_info() {
    let mut op: AsyncOperation<u8> = AsyncOperation::new(3);
    op.status = AsyncStatus::Error;
    let e = op.get_results().unwrap_err();
    assert_eq!(e.code, -1);
    assert_eq!(e.message, "Unknown error");
}

#[test]
fn completed_without_result() {
    let mut op: AsyncOperation<u8> = AsyncOperation::new(3);
    op.status = AsyncStatus::Completed;
    let e = op.get_results().unwrap_err();
    assert_eq!(e.code, -1);
    assert_eq!(e.message, "Result not available");
}

#[test]
fn cancel_rules() {
    let mut op: AsyncOperation<u8> = AsyncOperation::new(4);
    op.cancel();
    assert_eq!(op.status, AsyncStatus::Canceled);
    let e = op.get_results().unwrap_err();
    assert_eq!(e.code, E_ABORT);
    assert_eq!(e.message, "Operation was canceled");
    op.cancel();
    assert_eq!(op.status, AsyncStatus::Canceled);
    op.start();
    assert_eq!(op.status, AsyncStatus::Canceled);
    let mut done = AsyncOperation::completed(5, 1u8);
    done.cancel();
    assert_eq!(done.status, AsyncStatus::Completed);
    let mut started: AsyncOperation<u8> = AsyncOperation::new(6);
    started.start();
    started.cancel();
    assert_eq!(started.status, AsyncStatus::Canceled);
}

#[test]
fn complete_overrides_cancel() {
    let mut op: AsyncOperation<u8> = AsyncOperation::new(4);
    op.cancel();
    op.complete(3);
    assert_eq!(op.status, AsyncStatus::Completed);
    assert_eq!(op.get_results().unwrap(), 3);
}

#[test]
fn action_lifecycle() {
    let mut a = AsyncAction::new(1);
    assert!(!a.is_done());
    assert_eq!(a.get_results().unwrap_err().code, E_ILLEGAL_METHOD_CALL);
    a.start();
    assert_eq!(a.status, AsyncStatus::Started);
    a.complete();
    assert!(a.is_done());
    assert!(a.get_results().is_ok());
    let mut c = AsyncAction::new(2);
    c.start();
    c.cancel();
    assert_eq!(c.get_results().unwrap_err().code, E_ABORT);
    let mut f = AsyncAction::completed(3);
    f.cancel();
    assert_eq!(f.status, AsyncStatus::Completed);
    f.fail(AsyncError::new(11, "late"));
    assert_eq!(f.get_results().unwrap_err().message, "late");
    let mut u = AsyncAction::new(4);
    u.status = AsyncStatus::Error;
    assert_eq!(u.get_results().unwrap_err().message, "Unknown error");
}

#[test]
fn operation_with_progress() {
    let mut op: AsyncOperationWithProgress<String, u32> = AsyncOperationWithProgress::new(8);
    assert!(op.progress_value.is_none());
    op.report_progress(10);
    op.report_progress(60);
    assert_eq!(op.progress_value, Some(60));
    op.complete(String::from("r"));
    assert_eq!(op.inner.get_results().unwrap(), "r");
    assert_eq!(op.inner.progress, 100);
    assert_eq!(op.progress_value, Some(60));
}

#[test]
fn error_display_form() {
    assert_eq!(AsyncError::new(-1, "x").to_string(), "HRESULT 0xFFFFFFFF: x");
    assert_eq!(
        AsyncError::new(E_ABORT, "Operation was canceled").to_string(),
        "HRESULT 0x8000FFFF: Operation was canceled"
    );
    assert_eq!(AsyncError::new(0x1A, "").to_string(), "HRESULT 0x0000001A: ");
}

#[test]
fn op_ids_increase() {
    let mut next: u64 = 1;
    assert_eq!(alloc_op_id(&mut next), 1);
    assert_eq!(alloc_op_id(&mut next), 2);
    let s = completed_string_op(&mut next, "text");
    assert_eq!(s.id, 3);
    assert_eq!(s.get_results().unwrap(), "text");
    let a = completed_action(&mut next);
    assert_eq!(a.id, 4);
    assert_eq!(a.status, AsyncStatus::Completed);
    let f = failed_action(&mut next, -2147467259, "failed");
    assert_eq!(f.id, 5);
    assert_eq!(f.status, AsyncStatus::Error);
    let e = f.get_results().unwrap_err();
    assert_eq!(e.code, -2147467259);
    assert_eq!(e.message, "failed");
    assert_eq!(next, 6);
}
