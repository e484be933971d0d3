//! Failures reported by the protocol layer.

use vstd::prelude::*;

verus! {

/// The class a failure belongs to.
#[derive(Clone, Copy, Debug, PartialEq, Eq, Structural)]
pub enum ErrorKind {
    /// The caller handed in something unusable.
    InvalidArgument,
    /// The operating system refused an operation.
    Io,
    /// A kernel record failed a consistency check.
    Protocol,
}

/// The operation on a descriptor that the operating system can fail.
#[derive(Clone, Copy, Debug, PartialEq, Eq, Structural)]
pub enum Operation {
    /// Opening the device node.
    Open,
    /// Asking a chip to describe itself.
    ChipInfo,
    /// Asking a chip to describe a line.
    LineInfo,
    /// Asking a chip for lines.
    RequestLines,
    /// Reading the values of requested lines.
    GetValues,
    /// Setting the values of requested lines.
    SetValues,
    /// Waiting for a descriptor to become readable.
    Wait,
    /// Reading from a descriptor.
    Read,
}

/// A failure of one protocol operation.
#[derive(Clone, Copy, Debug, PartialEq, Eq, Structural)]
pub enum Error {
    /// More values or line offsets than one request can address.
    TooManyValues,
    /// A value buffer whose length differs from the request's line count.
    LengthMismatch,
    /// A line offset that the chip does not have.
    LineOutOfRange,
    /// A line offset named twice in one request.
    DuplicateLine,
    /// The device path is not a character device.
    NotCharDevice,
    /// The character device is not linked under the GPIO subsystem.
    NotGpioDevice,
    /// The operating system failed an operation; the raw error code is
    /// kept.
    Os(Operation, i32),
    /// The worker that ran a blocking operation did not complete.
    TaskFailed,
    /// A structure or record whose size is not its fixed size.
    UnexpectedSize,
    /// An event record with an edge identifier that is not known.
    UnknownEdge,
    /// An event record for a line offset that is not part of the request.
    UnknownLine,
}

impl Error {
    /// The class of each failure.
    pub open spec fn kind_spec(self) -> ErrorKind {
        match self {
            Error::TooManyValues
            | Error::LengthMismatch
            | Error::LineOutOfRange
            | Error::DuplicateLine
            | Error::NotCharDevice
            | Error::NotGpioDevice => ErrorKind::InvalidArgument,
            Error::Os(_, _) | Error::TaskFailed => ErrorKind::Io,
            Error::UnexpectedSize | Error::UnknownEdge | Error::UnknownLine => ErrorKind::Protocol,
        }
    }

    /// The text shown to a user for each failure.
    pub open spec fn message_spec(self) -> Seq<char> {
        match self {
            Error::TooManyValues => "Too many values"@,
            Error::LengthMismatch => "Wrong number of values"@,
            Error::LineOutOfRange => "Line offset out of range"@,
            Error::DuplicateLine => "Line offset given twice"@,
            Error::NotCharDevice => "File is not character device"@,
            Error::NotGpioDevice => "Character device is not a GPIO"@,
            Error::Os(Operation::Open, _) => "open failed"@,
            Error::Os(Operation::ChipInfo, _) => "chip info failed"@,
            Error::Os(Operation::LineInfo, _) => "line info failed"@,
            Error::Os(Operation::RequestLines, _) => "request lines failed"@,
            Error::Os(Operation::GetValues, _) => "get values failed"@,
            Error::Os(Operation::SetValues, _) => "set values failed"@,
            Error::Os(Operation::Wait, _) => "wait failed"@,
            Error::Os(Operation::Read, _) => "read failed"@,
            Error::TaskFailed => "background task failed"@,
            Error::UnexpectedSize => "Unexpected size"@,
            Error::UnknownEdge => "Unknown edge"@,
            Error::UnknownLine => "Unknown line offset"@,
        }
    }

    /// The operation that failed, where the operating system failed one.
    pub open spec fn operation_spec(self) -> Option<Operation> {
        match self {
            Error::Os(operation, _) => Some(operation),
            _ => None,
        }
    }

    /// The raw operating system code, where the failure carries one.
    pub open spec fn code_spec(self) -> Option<i32> {
        match self {
            Error::Os(_, code) => Some(code),
            _ => None,
        }
    }

    pub fn kind(&self) -> (kind: ErrorKind)
        ensures
            kind == self.kind_spec(),
    {
        match self {
            Error::TooManyValues
            | Error::LengthMismatch
            | Error::LineOutOfRange
            | Error::DuplicateLine
            | Error::NotCharDevice
            | Error::NotGpioDevice => ErrorKind::InvalidArgument,
            Error::Os(_, _) | Error::TaskFailed => ErrorKind::Io,
            Error::UnexpectedSize | Error::UnknownEdge | Error::UnknownLine => ErrorKind::Protocol,
        }
    }

    pub fn operation(&self) -> (operation: Option<Operation>)
        ensures
            operation == self.operation_spec(),
    {
        match self {
            Error::Os(operation, _) => Some(*operation),
            _ => None,
        }
    }

    /// What a system call that answered `code` comes to: success for
    /// zero, else the failure of `operation` with that code.
    pub fn check(operation: Operation, code: i32) -> (r: Result<(), Error>)
        ensures
            r == (if code == 0 {
                Ok::<(), Error>(())
            } else {
                Err::<(), Error>(Error::Os(operation, code))
            }),
    {
        if code == 0 {
            Ok(())
        } else {
            Err(Error::Os(operation, code))
        }
    }

    pub fn code(&self) -> (code: Option<i32>)
        ensures
            code == self.code_spec(),
    {
        match self {
            Error::Os(_, code) => Some(*code),
            _ => None,
        }
    }

    pub fn message(&self) -> (text: String)
        ensures
            text@ == self.message_spec(),
    {
        let text: &str = match self {
            Error::TooManyValues => "Too many values",
            Error::LengthMismatch => "Wrong number of values",
            Error::LineOutOfRange => "Line offset out of range",
            Error::DuplicateLine => "Line offset given twice",
            Error::NotCharDevice => "File is not character device",
            Error::NotGpioDevice => "Character device is not a GPIO",
            Error::Os(Operation::Open, _) => "open failed",
            Error::Os(Operation::ChipInfo, _) => "chip info failed",
            Error::Os(Operation::LineInfo, _) => "line info failed",
            Error::Os(Operation::RequestLines, _) => "request lines failed",
            Error::Os(Operation::GetValues, _) => "get values failed",
            Error::Os(Operation::SetValues, _) => "set values failed",
            Error::Os(Operation::Wait, _) => "wait failed",
            Error::Os(Operation::Read, _) => "read failed",
            Error::TaskFailed => "background task failed",
            Error::UnexpectedSize => "Unexpected size",
            Error::UnknownEdge => "Unknown edge",
            Error::UnknownLine => "Unknown line offset",
        };
        text.to_owned()
    }
}

} // verus!
