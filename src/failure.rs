//! Why a task failed, how an HTTP status is classified, and the reason
//! text that the batch report carries for each failure.

use vstd::prelude::*;
use crate::text::{decimal, push_decimal};

verus! {

/// The terminal reason of a failed task.
#[derive(Debug)]
pub enum Failure {
    /// The server could not be reached, or the connection broke before a reply.
    Transport { detail: String },
    /// 401 or 403.
    AccessDenied,
    /// 404.
    NotFound,
    /// Any 5xx status.
    ServerError { code: u16 },
    /// A status that is neither success nor one of the classes above.
    UnexpectedStatus { code: u16 },
    /// A successful metadata reply without a usable name or id.
    MalformedMetadata,
    /// The destination file could not be created or truncated.
    CannotCreateFile { cause: String },
    /// Writing a chunk to the destination file failed.
    WriteError { cause: String },
    /// Reading the content stream failed mid-transfer.
    StreamError { cause: String },
    /// Flushing the file to durable storage failed.
    SyncError { cause: String },
    /// The stream ended with a byte count other than the reported length.
    SizeMismatch { expected: u64, written: u64 },
    /// The body grew past the largest count a `u64` holds.
    Oversized,
}

/// Is `code` a success status?
pub open spec fn is_success(code: u16) -> bool {
    200 <= code <= 299
}

/// The failure that a non-success status stands for; `None` for success.
pub open spec fn status_failure(code: u16) -> Option<Failure> {
    if is_success(code) {
        None
    } else if code == 401 || code == 403 {
        Some(Failure::AccessDenied)
    } else if code == 404 {
        Some(Failure::NotFound)
    } else if 500 <= code <= 599 {
        Some(Failure::ServerError { code })
    } else {
        Some(Failure::UnexpectedStatus { code })
    }
}

/// The human-readable reason of a failure.
pub open spec fn reason_text(f: Failure) -> Seq<char> {
    match f {
        Failure::Transport { detail } => "transport error: "@ + detail@,
        Failure::AccessDenied => "access denied — check credentials or ownership"@,
        Failure::NotFound => "not found"@,
        Failure::ServerError { code } => "server error, possibly transient (status "@ + decimal(
            code as nat,
        ) + ")"@,
        Failure::UnexpectedStatus { code } => "unexpected status "@ + decimal(code as nat),
        Failure::MalformedMetadata => "malformed metadata response"@,
        Failure::CannotCreateFile { cause } => "cannot create destination file: "@ + cause@,
        Failure::WriteError { cause } => "write error: "@ + cause@,
        Failure::StreamError { cause } => "stream error: "@ + cause@,
        Failure::SyncError { cause } => "sync error: "@ + cause@,
        Failure::SizeMismatch { expected, written } => "stream error: received "@ + decimal(
            written as nat,
        ) + " of "@ + decimal(expected as nat) + " bytes"@,
        Failure::Oversized => "stream error: body too large"@,
    }
}

/// Classifies a response status: `None` for success, else the failure it means.
pub fn classify_status(code: u16) -> (r: Option<Failure>)
    ensures
        r == status_failure(code),
{
    if 200 <= code && code <= 299 {
        None
    } else if code == 401 || code == 403 {
        Some(Failure::AccessDenied)
    } else if code == 404 {
        Some(Failure::NotFound)
    } else if 500 <= code && code <= 599 {
        Some(Failure::ServerError { code })
    } else {
        Some(Failure::UnexpectedStatus { code })
    }
}

impl Failure {
    /// Appends the reason text of this failure to `out`.
    pub fn push_reason(&self, out: &mut String)
        ensures
            final(out)@ == old(out)@ + reason_text(*self),
    {
        let ghost start = out@;
        match self {
            Failure::Transport { detail } => {
                out.append("transport error: ");
                out.append(detail.as_str());
            },
            Failure::AccessDenied => {
                out.append("access denied — check credentials or ownership");
            },
            Failure::NotFound => {
                out.append("not found");
            },
            Failure::ServerError { code } => {
                out.append("server error, possibly transient (status ");
                push_decimal(out, *code as u64);
                out.append(")");
            },
            Failure::UnexpectedStatus { code } => {
                out.append("unexpected status ");
                push_decimal(out, *code as u64);
            },
            Failure::MalformedMetadata => {
                out.append("malformed metadata response");
            },
            Failure::CannotCreateFile { cause } => {
                out.append("cannot create destination file: ");
                out.append(cause.as_str());
            },
            Failure::WriteError { cause } => {
                out.append("write error: ");
                out.append(cause.as_str());
            },
            Failure::StreamError { cause } => {
                out.append("stream error: ");
                out.append(cause.as_str());
            },
            Failure::SyncError { cause } => {
                out.append("sync error: ");
                out.append(cause.as_str());
            },
            Failure::SizeMismatch { expected, written } => {
                out.append("stream error: received ");
                push_decimal(out, *written);
                out.append(" of ");
                push_decimal(out, *expected);
                out.append(" bytes");
            },
            Failure::Oversized => {
                out.append("stream error: body too large");
            },
        }
        assert(out@ =~= start + reason_text(*self));
    }

    /// The reason text of this failure.
    pub fn reason(&self) -> (r: String)
        ensures
            r@ == reason_text(*self),
    {
        let mut out = String::new();
        self.push_reason(&mut out);
        assert(out@ =~= reason_text(*self));
        out
    }
}

} // verus!
