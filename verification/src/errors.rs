//! The answers a system-call driver gives: error codes and command returns.

use vstd::prelude::*;

verus! {

/// Error codes that drivers answer with, in the kernel's numbering.
#[allow(non_camel_case_types)]
#[derive(Clone, Copy, Debug, PartialEq, Eq, Structural)]
pub enum ErrorCode {
    FAIL,
    BUSY,
    ALREADY,
    OFF,
    RESERVE,
    INVAL,
    SIZE,
    CANCEL,
    NOMEM,
    NOSUPPORT,
    NODEVICE,
    UNINSTALLED,
    NOACK,
}

/// The number of an error code as user space sees it.
pub open spec fn error_number(e: ErrorCode) -> nat {
    match e {
        ErrorCode::FAIL => 1,
        ErrorCode::BUSY => 2,
        ErrorCode::ALREADY => 3,
        ErrorCode::OFF => 4,
        ErrorCode::RESERVE => 5,
        ErrorCode::INVAL => 6,
        ErrorCode::SIZE => 7,
        ErrorCode::CANCEL => 8,
        ErrorCode::NOMEM => 9,
        ErrorCode::NOSUPPORT => 10,
        ErrorCode::NODEVICE => 11,
        ErrorCode::UNINSTALLED => 12,
        ErrorCode::NOACK => 13,
    }
}

impl ErrorCode {
    /// The number of this error code as user space sees it.
    pub fn to_usize(self) -> (n: usize)
        ensures
            n == error_number(self),
    {
        match self {
            ErrorCode::FAIL => 1,
            ErrorCode::BUSY => 2,
            ErrorCode::ALREADY => 3,
            ErrorCode::OFF => 4,
            ErrorCode::RESERVE => 5,
            ErrorCode::INVAL => 6,
            ErrorCode::SIZE => 7,
            ErrorCode::CANCEL => 8,
            ErrorCode::NOMEM => 9,
            ErrorCode::NOSUPPORT => 10,
            ErrorCode::NODEVICE => 11,
            ErrorCode::UNINSTALLED => 12,
            ErrorCode::NOACK => 13,
        }
    }
}

/// What a driver answers to a command system call.
#[derive(Clone, Copy, Debug, PartialEq, Eq, Structural)]
pub enum CommandReturn {
    Failure(ErrorCode),
    FailureU32(ErrorCode, u32),
    FailureU32U32(ErrorCode, u32, u32),
    FailureU64(ErrorCode, u64),
    Success,
    SuccessU32(u32),
    SuccessU32U32(u32, u32),
    SuccessU32U32U32(u32, u32, u32),
    SuccessU64(u64),
    SuccessU32U64(u32, u64),
}

impl CommandReturn {
    /// Whether this answer is one of the success variants.
    pub open spec fn succeeded(self) -> bool {
        ||| self is Success
        ||| self is SuccessU32
        ||| self is SuccessU32U32
        ||| self is SuccessU32U32U32
        ||| self is SuccessU64
        ||| self is SuccessU32U64
    }

    /// A plain success.
    pub fn success() -> (r: CommandReturn)
        ensures
            r == CommandReturn::Success,
    {
        CommandReturn::Success
    }

    /// A success that carries one value.
    pub fn success_u32(v: u32) -> (r: CommandReturn)
        ensures
            r == CommandReturn::SuccessU32(v),
    {
        CommandReturn::SuccessU32(v)
    }

    /// A failure with an error code.
    pub fn failure(e: ErrorCode) -> (r: CommandReturn)
        ensures
            r == CommandReturn::Failure(e),
    {
        CommandReturn::Failure(e)
    }

    /// Whether this answer is a success.
    pub fn is_success(&self) -> (b: bool)
        ensures
            b == self.succeeded(),
    {
        match self {
            CommandReturn::Success => true,
            CommandReturn::SuccessU32(_) => true,
            CommandReturn::SuccessU32U32(_, _) => true,
            CommandReturn::SuccessU32U32U32(_, _, _) => true,
            CommandReturn::SuccessU64(_) => true,
            CommandReturn::SuccessU32U64(_, _) => true,
            _ => false,
        }
    }

    /// Whether this answer is a failure.
    pub fn is_failure(&self) -> (b: bool)
        ensures
            b == !self.succeeded(),
    {
        !self.is_success()
    }
}

} // verus!
