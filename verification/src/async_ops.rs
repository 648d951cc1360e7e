//! `IAsyncOperation<T>`, `IAsyncAction` and
//! `IAsyncOperationWithProgress<T, P>`: asynchronous operations as state
//! machines that are started, completed, failed or canceled, and polled for
//! their results.

use vstd::prelude::*;

use crate::text::{chars_of, hex_digits, push_hex, string_of_chars};

verus! {

/// HRESULT 0x8000FFFF, given for the results of a canceled operation.
pub const E_ABORT: i32 = -2147418113;

/// HRESULT 0x80000019, given for the results of an operation that has not
/// finished.
pub const E_ILLEGAL_METHOD_CALL: i32 = -2147483623;

/// Status of an asynchronous operation (`Windows.Foundation.AsyncStatus`).
#[derive(Debug, Clone, Copy, PartialEq, Eq, Structural)]
pub enum AsyncStatus {
    /// The operation has been created but not yet started.
    Created,
    /// The operation is running.
    Started,
    /// The operation completed successfully.
    Completed,
    /// The operation was canceled.
    Canceled,
    /// The operation completed with an error.
    Error,
}

/// The numeric value of a status in `Windows.Foundation.AsyncStatus`.
pub open spec fn status_value(s: AsyncStatus) -> u32 {
    match s {
        AsyncStatus::Created => 0,
        AsyncStatus::Started => 1,
        AsyncStatus::Completed => 2,
        AsyncStatus::Canceled => 3,
        AsyncStatus::Error => 4,
    }
}

impl AsyncStatus {
    /// The numeric value of the status in `Windows.Foundation.AsyncStatus`.
    pub fn value(self) -> (r: u32)
        ensures
            r == status_value(self),
    {
        match self {
            AsyncStatus::Created => 0,
            AsyncStatus::Started => 1,
            AsyncStatus::Completed => 2,
            AsyncStatus::Canceled => 3,
            AsyncStatus::Error => 4,
        }
    }
}

/// Whether an operation in status `s` has finished: completed, failed or canceled.
pub open spec fn status_is_done(s: AsyncStatus) -> bool {
    s == AsyncStatus::Completed || s == AsyncStatus::Error || s == AsyncStatus::Canceled
}

/// The status after a start request: `Created` becomes `Started`, any
/// other status stays.
pub open spec fn started_status(s: AsyncStatus) -> AsyncStatus {
    if s == AsyncStatus::Created {
        AsyncStatus::Started
    } else {
        s
    }
}

/// The status after a cancel request: `Created` and `Started` become
/// `Canceled`, any other status stays.
pub open spec fn canceled_status(s: AsyncStatus) -> AsyncStatus {
    if s == AsyncStatus::Created || s == AsyncStatus::Started {
        AsyncStatus::Canceled
    } else {
        s
    }
}

/// Error information of a failed operation.
#[derive(Debug, Clone)]
pub struct AsyncError {
    /// HRESULT error code.
    pub code: i32,
    /// Error message.
    pub message: String,
}

/// Whether `e` has code `code` and message `message`.
pub open spec fn error_is(e: AsyncError, code: i32, message: Seq<char>) -> bool {
    e.code == code && e.message@ == message
}

/// The `Display` form of an error: `HRESULT 0x` and the code's 32 bits in
/// eight upper-case hexadecimal digits, `: `, then the message.
pub open spec fn error_text(e: AsyncError) -> Seq<char> {
    "HRESULT 0x"@ + hex_digits((e.code as u32) as nat, 8) + ": "@ + e.message@
}

impl AsyncError {
    /// An error with code `code` and message `message`.
    pub fn new(code: i32, message: &str) -> (r: Self)
        ensures
            error_is(r, code, message@),
    {
        AsyncError { code, message: message.to_owned() }
    }

    /// An error equal to this one.
    fn copy(&self) -> (r: Self)
        ensures
            r == *self,
    {
        AsyncError { code: self.code, message: self.message.clone() }
    }

    /// The `Display` form of the error.
    pub fn to_string(&self) -> (r: String)
        ensures
            r@ == error_text(*self),
    {
        let mut out = chars_of("HRESULT 0x");
        push_hex(&mut out, self.code as u32 as u64, 8);
        let sep = chars_of(": ");
        let msg = chars_of(self.message.as_str());
        let mut i: usize = 0;
        let ghost base = out@;
        while i < sep.len()
            invariant
                i <= sep@.len(),
                out@ == base + sep@.take(i as int),
            decreases sep@.len() - i,
        {
            out.push(sep[i]);
            assert(sep@.take(i + 1) =~= sep@.take(i as int).push(sep@[i as int]));
            i = i + 1;
        }
        let ghost base2 = out@;
        let mut k: usize = 0;
        while k < msg.len()
            invariant
                k <= msg@.len(),
                out@ == base2 + msg@.take(k as int),
            decreases msg@.len() - k,
        {
            out.push(msg[k]);
            assert(msg@.take(k + 1) =~= msg@.take(k as int).push(msg@[k as int]));
            k = k + 1;
        }
        assert(sep@.take(sep@.len() as int) =~= sep@);
        assert(msg@.take(msg@.len() as int) =~= msg@);
        assert(out@ =~= error_text(*self));
        string_of_chars(&out)
    }
}

/// Whether `r` is what polling gives for an operation that is canceled or
/// not finished, or that failed with error information `error`; `None`
/// when the status is `Completed`.
pub open spec fn unfinished_result<R>(status: AsyncStatus, error: Option<AsyncError>, r: Result<R, AsyncError>) -> bool {
    match status {
        AsyncStatus::Error => match error {
            Some(e) => r == Err::<R, AsyncError>(e),
            None => r matches Err(x) && error_is(x, -1i32, "Unknown error"@),
        },
        AsyncStatus::Canceled => r matches Err(x) && error_is(x, E_ABORT, "Operation was canceled"@),
        _ => r matches Err(x) && error_is(x, E_ILLEGAL_METHOD_CALL, "Operation not yet completed"@),
    }
}

/// The error for an operation in a status other than `Completed`.
fn unfinished_error<R>(status: AsyncStatus, error: &Option<AsyncError>) -> (r: Result<R, AsyncError>)
    requires
        status != AsyncStatus::Completed,
    ensures
        unfinished_result(status, *error, r),
{
    match status {
        AsyncStatus::Error => match error {
            Some(e) => Err(e.copy()),
            None => Err(AsyncError::new(-1, "Unknown error")),
        },
        AsyncStatus::Canceled => Err(AsyncError::new(E_ABORT, "Operation was canceled")),
        _ => Err(AsyncError::new(E_ILLEGAL_METHOD_CALL, "Operation not yet completed")),
    }
}

/// Whether `r` is what polling `op` gives: once completed, a clone of its
/// result (an error when it holds none); otherwise [`unfinished_result`].
pub open spec fn operation_results<T: Clone>(op: AsyncOperation<T>, r: Result<T, AsyncError>) -> bool {
    if op.status == AsyncStatus::Completed {
        match op.result {
            Some(v) => r matches Ok(x) && cloned(v, x),
            None => r matches Err(x) && error_is(x, -1i32, "Result not available"@),
        }
    } else {
        unfinished_result(op.status, op.error, r)
    }
}

/// Whether `r` is what polling action `a` gives: `Ok` once completed,
/// otherwise [`unfinished_result`].
pub open spec fn action_results(a: AsyncAction, r: Result<(), AsyncError>) -> bool {
    if a.status == AsyncStatus::Completed {
        r is Ok
    } else {
        unfinished_result(a.status, a.error, r)
    }
}

/// `IAsyncOperation<T>`: an asynchronous operation that produces a result.
#[derive(Debug, Clone)]
pub struct AsyncOperation<T: Clone> {
    /// Unique operation id.
    pub id: u64,
    /// Current status.
    pub status: AsyncStatus,
    /// Result value (present once completed).
    pub result: Option<T>,
    /// Error information (present once failed).
    pub error: Option<AsyncError>,
    /// Progress, from 0 to 100.
    pub progress: u32,
}

impl<T: Clone> AsyncOperation<T> {
    /// A pending operation.
    pub fn new(id: u64) -> (r: Self)
        ensures
            r.id == id,
            r.status == AsyncStatus::Created,
            r.result is None,
            r.error is None,
            r.progress == 0,
    {
        AsyncOperation { id, status: AsyncStatus::Created, result: None, error: None, progress: 0 }
    }

    /// An operation already completed with `result`.
    pub fn completed(id: u64, result: T) -> (r: Self)
        ensures
            r.id == id,
            r.status == AsyncStatus::Completed,
            r.result == Some(result),
            r.error is None,
            r.progress == 100,
    {
        AsyncOperation {
            id,
            status: AsyncStatus::Completed,
            result: Some(result),
            error: None,
            progress: 100,
        }
    }

    /// An operation already failed with `error`.
    pub fn failed(id: u64, error: AsyncError) -> (r: Self)
        ensures
            r.id == id,
            r.status == AsyncStatus::Error,
            r.result is None,
            r.error == Some(error),
            r.progress == 0,
    {
        AsyncOperation { id, status: AsyncStatus::Error, result: None, error: Some(error), progress: 0 }
    }

    /// Starts the operation: only a `Created` operation moves, to `Started`.
    pub fn start(&mut self)
        ensures
            final(self).status == started_status(old(self).status),
            final(self).id == old(self).id,
            final(self).result == old(self).result,
            final(self).error == old(self).error,
            final(self).progress == old(self).progress,
    {
        if self.status == AsyncStatus::Created {
            self.status = AsyncStatus::Started;
        }
    }

    /// Completes the operation with `result`, whatever its status.
    pub fn complete(&mut self, result: T)
        ensures
            final(self).status == AsyncStatus::Completed,
            final(self).result == Some(result),
            final(self).progress == 100,
            final(self).id == old(self).id,
            final(self).error == old(self).error,
    {
        self.status = AsyncStatus::Completed;
        self.result = Some(result);
        self.progress = 100;
    }

    /// Fails the operation with `error`, whatever its status.
    pub fn fail(&mut self, error: AsyncError)
        ensures
            final(self).status == AsyncStatus::Error,
            final(self).error == Some(error),
            final(self).id == old(self).id,
            final(self).result == old(self).result,
            final(self).progress == old(self).progress,
    {
        self.status = AsyncStatus::Error;
        self.error = Some(error);
    }

    /// Cancels the operation: only a `Created` or `Started` operation moves,
    /// to `Canceled`.
    pub fn cancel(&mut self)
        ensures
            final(self).status == canceled_status(old(self).status),
            final(self).id == old(self).id,
            final(self).result == old(self).result,
            final(self).error == old(self).error,
            final(self).progress == old(self).progress,
    {
        if self.status == AsyncStatus::Started || self.status == AsyncStatus::Created {
            self.status = AsyncStatus::Canceled;
        }
    }

    /// The result of the operation: a clone of the result once completed,
    /// otherwise an error that says why there is none.
    pub fn get_results(&self) -> (r: Result<T, AsyncError>)
        ensures
            operation_results(*self, r),
    {
        if self.status == AsyncStatus::Completed {
            match &self.result {
                Some(v) => Ok(v.clone()),
                None => Err(AsyncError::new(-1, "Result not available")),
            }
        } else {
            unfinished_error(self.status, &self.error)
        }
    }

    /// Whether the operation has finished: completed, failed or canceled.
    pub fn is_done(&self) -> (r: bool)
        ensures
            r == status_is_done(self.status),
    {
        match self.status {
            AsyncStatus::Completed | AsyncStatus::Error | AsyncStatus::Canceled => true,
            _ => false,
        }
    }
}

/// `IAsyncAction`: an asynchronous operation without a result.
#[derive(Debug, Clone)]
pub struct AsyncAction {
    /// Unique operation id.
    pub id: u64,
    /// Current status.
    pub status: AsyncStatus,
    /// Error information (present once failed).
    pub error: Option<AsyncError>,
}

impl AsyncAction {
    /// A pending action.
    pub fn new(id: u64) -> (r: Self)
        ensures
            r.id == id,
            r.status == AsyncStatus::Created,
            r.error is None,
    {
        AsyncAction { id, status: AsyncStatus::Created, error: None }
    }

    /// An action already completed.
    pub fn completed(id: u64) -> (r: Self)
        ensures
            r.id == id,
            r.status == AsyncStatus::Completed,
            r.error is None,
    {
        AsyncAction { id, status: AsyncStatus::Completed, error: None }
    }

    /// Starts the action: only a `Created` action moves, to `Started`.
    pub fn start(&mut self)
        ensures
            final(self).status == started_status(old(self).status),
            final(self).id == old(self).id,
            final(self).error == old(self).error,
    {
        if self.status == AsyncStatus::Created {
            self.status = AsyncStatus::Started;
        }
    }

    /// Completes the action, whatever its status.
    pub fn complete(&mut self)
        ensures
            final(self).status == AsyncStatus::Completed,
            final(self).id == old(self).id,
            final(self).error == old(self).error,
    {
        self.status = AsyncStatus::Completed;
    }

    /// Fails the action with `error`, whatever its status.
    pub fn fail(&mut self, error: AsyncError)
        ensures
            final(self).status == AsyncStatus::Error,
            final(self).error == Some(error),
            final(self).id == old(self).id,
    {
        self.status = AsyncStatus::Error;
        self.error = Some(error);
    }

    /// Cancels the action: only a `Created` or `Started` action moves, to
    /// `Canceled`.
    pub fn cancel(&mut self)
        ensures
            final(self).status == canceled_status(old(self).status),
            final(self).id == old(self).id,
            final(self).error == old(self).error,
    {
        if self.status == AsyncStatus::Started || self.status == AsyncStatus::Created {
            self.status = AsyncStatus::Canceled;
        }
    }

    /// `Ok` once completed, otherwise an error that says why not.
    pub fn get_results(&self) -> (r: Result<(), AsyncError>)
        ensures
            action_results(*self, r),
    {
        if self.status == AsyncStatus::Completed {
            Ok(())
        } else {
            unfinished_error(self.status, &self.error)
        }
    }

    /// Whether the action has finished: completed, failed or canceled.
    pub fn is_done(&self) -> (r: bool)
        ensures
            r == status_is_done(self.status),
    {
        match self.status {
            AsyncStatus::Completed | AsyncStatus::Error | AsyncStatus::Canceled => true,
            _ => false,
        }
    }
}

/// `IAsyncOperationWithProgress<T, P>`: an operation that also reports progress.
#[derive(Debug, Clone)]
pub struct AsyncOperationWithProgress<T: Clone, P: Clone> {
    /// The operation itself.
    pub inner: AsyncOperation<T>,
    /// Last reported progress value.
    pub progress_value: Option<P>,
}

impl<T: Clone, P: Clone> AsyncOperationWithProgress<T, P> {
    /// A pending operation with no progress reported.
    pub fn new(id: u64) -> (r: Self)
        ensures
            r.inner.id == id,
            r.inner.status == AsyncStatus::Created,
            r.inner.result is None,
            r.inner.error is None,
            r.inner.progress == 0,
            r.progress_value is None,
    {
        AsyncOperationWithProgress { inner: AsyncOperation::new(id), progress_value: None }
    }

    /// Reports `progress` as the latest progress value.
    pub fn report_progress(&mut self, progress: P)
        ensures
            final(self).progress_value == Some(progress),
            final(self).inner == old(self).inner,
    {
        self.progress_value = Some(progress);
    }

    /// Completes the operation with `result`.
    pub fn complete(&mut self, result: T)
        ensures
            final(self).inner.status == AsyncStatus::Completed,
            final(self).inner.result == Some(result),
            final(self).inner.progress == 100,
            final(self).inner.id == old(self).inner.id,
            final(self).inner.error == old(self).inner.error,
            final(self).progress_value == old(self).progress_value,
    {
        self.inner.complete(result);
    }
}

/// Takes the next operation id from the counter.
pub fn alloc_op_id(next_id: &mut u64) -> (id: u64)
    requires
        *old(next_id) < u64::MAX,
    ensures
        id == *old(next_id),
        *final(next_id) == *old(next_id) + 1,
{
    let id = *next_id;
    *next_id = id + 1;
    id
}

/// A completed `IAsyncOperation<String>` holding `value`, with a fresh id.
pub fn completed_string_op(next_id: &mut u64, value: &str) -> (r: AsyncOperation<String>)
    requires
        *old(next_id) < u64::MAX,
    ensures
        r.id == *old(next_id),
        *final(next_id) == *old(next_id) + 1,
        r.status == AsyncStatus::Completed,
        r.result matches Some(s) && s@ == value@,
        r.error is None,
        r.progress == 100,
{
    let id = alloc_op_id(next_id);
    AsyncOperation::completed(id, value.to_owned())
}

/// A completed `IAsyncAction` with a fresh id.
pub fn completed_action(next_id: &mut u64) -> (r: AsyncAction)
    requires
        *old(next_id) < u64::MAX,
    ensures
        r.id == *old(next_id),
        *final(next_id) == *old(next_id) + 1,
        r.status == AsyncStatus::Completed,
        r.error is None,
{
    AsyncAction::completed(alloc_op_id(next_id))
}

/// A failed `IAsyncAction` with error `code` and `message`, with a fresh id.
pub fn failed_action(next_id: &mut u64, code: i32, message: &str) -> (r: AsyncAction)
    requires
        *old(next_id) < u64::MAX,
    ensures
        r.id == *old(next_id),
        *final(next_id) == *old(next_id) + 1,
        r.status == AsyncStatus::Error,
        r.error matches Some(e) && error_is(e, code, message@),
{
    let mut action = AsyncAction::new(alloc_op_id(next_id));
    action.fail(AsyncError::new(code, message));
    action
}

// ---------------------------------------------------------------------------
// Laws
// ---------------------------------------------------------------------------

/// Start and cancel requests: a finished operation ignores both; after a
/// cancel request an operation is always finished; asking twice is the
/// same as asking once; the status values tell the statuses apart.
pub proof fn lemma_status_transitions(s: AsyncStatus, t: AsyncStatus)
    ensures
        status_is_done(s) ==> started_status(s) == s && canceled_status(s) == s,
        status_is_done(canceled_status(s)),
        !status_is_done(started_status(s)) <==> !status_is_done(s),
        started_status(started_status(s)) == started_status(s),
        canceled_status(canceled_status(s)) == canceled_status(s),
        status_value(s) == status_value(t) ==> s == t,
{
}

/// What a completed operation gives back is a clone of the value it was
/// completed with.
pub proof fn lemma_results_after_complete<T: Clone>(
    op: AsyncOperation<T>,
    value: T,
    r: Result<T, AsyncError>,
)
    requires
        op.status == AsyncStatus::Completed,
        op.result == Some(value),
        operation_results(op, r),
    ensures
        r matches Ok(x) && cloned(value, x),
{
}

/// What a failed operation gives back is the error it failed with.
pub proof fn lemma_results_after_fail<T: Clone>(
    op: AsyncOperation<T>,
    error: AsyncError,
    r: Result<T, AsyncError>,
)
    requires
        op.status == AsyncStatus::Error,
        op.error == Some(error),
        operation_results(op, r),
    ensures
        r == Err::<T, AsyncError>(error),
{
}

/// Polling an action whose status is `Completed` gives `Ok(())`, whatever
/// error information it still holds from before; polling one in any other
/// status gives an error.
pub proof fn lemma_action_results(a: AsyncAction, r: Result<(), AsyncError>)
    requires
        action_results(a, r),
    ensures
        a.status == AsyncStatus::Completed ==> r is Ok,
        a.status != AsyncStatus::Completed ==> r is Err,
        a.status == AsyncStatus::Error && a.error is Some ==> r == Err::<(), AsyncError>(
            a.error.unwrap(),
        ),
{
}

/// A canceled operation or action gives back `E_ABORT`, and one that has
/// not finished gives back `E_ILLEGAL_METHOD_CALL`.
pub proof fn lemma_results_unfinished<R>(
    status: AsyncStatus,
    error: Option<AsyncError>,
    r: Result<R, AsyncError>,
)
    requires
        unfinished_result(status, error, r),
    ensures
        status == AsyncStatus::Canceled ==> (r matches Err(e) && e.code == E_ABORT),
        !status_is_done(status) ==> (r matches Err(e) && e.code == E_ILLEGAL_METHOD_CALL),
{
}

/// A string operation completed with `value` gives back the same text.
pub proof fn lemma_string_results_after_complete(
    op: AsyncOperation<String>,
    value: String,
    r: Result<String, AsyncError>,
)
    requires
        op.status == AsyncStatus::Completed,
        op.result == Some(value),
        operation_results(op, r),
    ensures
        r matches Ok(x) && x@ == value@,
{
}

} // verus!
