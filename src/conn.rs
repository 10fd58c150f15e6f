use vstd::prelude::*;

use crate::error::XdbError;
use crate::result::XdbResult;
use crate::text::{read_text, text_of_native};

verus! {

/// Sole owner of one open native connection.
pub struct Conn {
    handle: usize,
}

/// The header fields of a result that the native execute call returned.
pub struct ResultHeader {
    /// Address of the native result resource.
    pub handle: usize,
    /// Error code of the statement; zero on success.
    pub errcode: u16,
    /// Number of columns of the result.
    pub col_count: u16,
}

/// A result whose statement failed. It still owns its native resource,
/// which is released once its message has been read.
pub struct FailedResult {
    handle: usize,
    code: u16,
}

/// What follows a native execute call.
pub enum ExecStep {
    /// The statement succeeded; the caller owns the result.
    Ready(XdbResult),
    /// The statement failed: read the result's native message, then call
    /// `FailedResult::release` with it.
    ReadMessage(FailedResult),
    /// The call failed before any result existed.
    Failed(XdbError),
}

/// Whether the native execute call returned a result at all.
pub open spec fn has_result(reply: Option<ResultHeader>) -> bool {
    reply matches Some(h) && h.handle != 0
}

impl View for Conn {
    type V = nat;

    /// Address of the native connection.
    closed spec fn view(&self) -> nat {
        self.handle as nat
    }
}

impl View for FailedResult {
    type V = (nat, u16);

    /// Address of the native result, and the statement's error code.
    closed spec fn view(&self) -> (nat, u16) {
        (self.handle as nat, self.code)
    }
}

/// The outcome of a native transaction call: success exactly when its
/// status is zero, else the given error.
pub open spec fn tx_outcome(status: i32, failure: XdbError) -> Result<(), XdbError> {
    if status == 0 {
        Ok(())
    } else {
        Err(failure)
    }
}

fn tx_result(status: i32, failure: XdbError) -> (r: Result<(), XdbError>)
    ensures
        r == tx_outcome(status, failure),
{
    if status == 0 {
        Ok(())
    } else {
        Err(failure)
    }
}

impl Conn {
    /// An open connection always has a native address.
    #[verifier::type_invariant]
    spec fn inv(&self) -> bool {
        self.handle != 0
    }

    /// Takes ownership of what the native open call returned: a connection
    /// when its address is non-zero, else `XdbError::Open` (path missing,
    /// unreadable or corrupt: the native side does not tell them apart).
    pub fn open(handle: usize) -> (r: Result<Conn, XdbError>)
        ensures
            handle == 0 ==> r == Err::<Conn, XdbError>(XdbError::Open),
            handle != 0 ==> (r matches Ok(c) && c@ == handle as nat),
    {
        if handle == 0 {
            Err(XdbError::Open)
        } else {
            Ok(Conn { handle })
        }
    }

    /// Address of the native connection, for the native calls on it.
    pub fn handle(&self) -> (r: usize)
        ensures
            r as nat == self@,
            r != 0,
    {
        proof {
            use_type_invariant(self);
        }
        self.handle
    }

    /// Decides what follows the native execute call from what it returned
    /// (`None` for no result): a failure when there is no result, the
    /// result's release after reading its message when it carries an error
    /// code, else the result itself.
    pub fn exec(&self, reply: Option<ResultHeader>) -> (r: ExecStep)
        ensures
            !has_result(reply) ==> r == ExecStep::Failed(XdbError::CallFailed),
            has_result(reply) && reply->Some_0.errcode != 0 ==> (r matches ExecStep::ReadMessage(f)
                && f@ == (reply->Some_0.handle as nat, reply->Some_0.errcode)),
            has_result(reply) && reply->Some_0.errcode == 0 ==> (r matches ExecStep::Ready(res)
                && res@.handle == reply->Some_0.handle as nat
                && res@.columns == reply->Some_0.col_count as nat
                && !res@.exhausted),
    {
        match reply {
            None => ExecStep::Failed(XdbError::CallFailed),
            Some(h) => {
                if h.handle == 0 {
                    ExecStep::Failed(XdbError::CallFailed)
                } else if h.errcode != 0 {
                    ExecStep::ReadMessage(FailedResult { handle: h.handle, code: h.errcode })
                } else {
                    ExecStep::Ready(XdbResult::new(h.handle, h.col_count))
                }
            },
        }
    }

    /// Outcome of the native call that starts a transaction.
    pub fn begin(&self, status: i32) -> (r: Result<(), XdbError>)
        ensures
            r == tx_outcome(status, XdbError::BeginFailed),
    {
        tx_result(status, XdbError::BeginFailed)
    }

    /// Outcome of the native commit call.
    pub fn commit(&self, status: i32) -> (r: Result<(), XdbError>)
        ensures
            r == tx_outcome(status, XdbError::CommitFailed),
    {
        tx_result(status, XdbError::CommitFailed)
    }

    /// Outcome of the native rollback call.
    pub fn rollback(&self, status: i32) -> (r: Result<(), XdbError>)
        ensures
            r == tx_outcome(status, XdbError::RollbackFailed),
    {
        tx_result(status, XdbError::RollbackFailed)
    }

    /// Gives up ownership of the native connection, returning the address to
    /// close. Taking `self` by value, it can happen only once.
    pub fn close(self) -> (r: usize)
        ensures
            r as nat == self@,
    {
        self.handle
    }
}

impl FailedResult {
    /// Address of the native result, to read its message from.
    pub fn handle(&self) -> (r: usize)
        ensures
            r as nat == self@.0,
    {
        self.handle
    }

    /// The statement's error code.
    pub fn code(&self) -> (r: u16)
        ensures
            r == self@.1,
    {
        self.code
    }

    /// Turns the native message into the statement's error and gives up the
    /// result, returning the error and the address to release. Taking `self`
    /// by value, the release happens once.
    pub fn release(self, message: &[u8]) -> (r: (XdbError, usize))
        ensures
            r.0 matches XdbError::Sql { code, message: m } && code == self@.1 && m@ == read_text(
                message@,
            ),
            r.1 as nat == self@.0,
    {
        let m = text_of_native(message);
        (XdbError::Sql { code: self.code, message: m }, self.handle)
    }
}

} // verus!
