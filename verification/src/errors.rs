//! The error taxonomy of the command layer, and its rendering as the single
//! descriptive message that each failed operation surfaces.

use crate::text::dec_rep;
use crate::text::u32_to_string;
use vstd::prelude::*;
use vstd::string::StringExecFns;

verus! {

/// Everything that can go wrong in one operation, classified.
#[derive(Debug, Clone, PartialEq, Eq)]
pub enum CommandError {
    /// The API base address is missing from the configuration; fatal before
    /// any file or network activity.
    Config,
    /// A local attachment could not be opened.
    FileOpen { detail: String },
    /// A local attachment could not be read to the end.
    FileRead { detail: String },
    /// An attachment path has no usable final segment to upload under.
    FileName,
    /// The request never produced a response (connection, name resolution,
    /// timeout).
    Transport { detail: String },
    /// The remote system answered outside the success range.
    Api { status: u16, body: String },
    /// A success response did not decode against the expected shape.
    Decode { detail: String },
}

/// Which operation an error message speaks of.
#[derive(Debug, Clone, Copy, PartialEq, Eq)]
pub enum OpKind {
    FetchClients,
    FetchClient,
    CreateClient,
    UpdateClient,
    DeleteClient,
    AddFile,
    DeleteFile,
    SendFileEmail,
    SendCategoryFilesEmail,
}

/// The wording for one operation inside an error message.
pub open spec fn op_action(op: OpKind) -> Seq<char> {
    match op {
        OpKind::FetchClients => "fetch clients"@,
        OpKind::FetchClient => "fetch client"@,
        OpKind::CreateClient => "create client"@,
        OpKind::UpdateClient => "update client"@,
        OpKind::DeleteClient => "delete client"@,
        OpKind::AddFile => "upload file"@,
        OpKind::DeleteFile => "delete file"@,
        OpKind::SendFileEmail => "send file"@,
        OpKind::SendCategoryFilesEmail => "send files"@,
    }
}

fn op_action_str(op: &OpKind) -> (r: &'static str)
    ensures
        r@ == op_action(*op),
{
    match op {
        OpKind::FetchClients => "fetch clients",
        OpKind::FetchClient => "fetch client",
        OpKind::CreateClient => "create client",
        OpKind::UpdateClient => "update client",
        OpKind::DeleteClient => "delete client",
        OpKind::AddFile => "upload file",
        OpKind::DeleteFile => "delete file",
        OpKind::SendFileEmail => "send file",
        OpKind::SendCategoryFilesEmail => "send files",
    }
}

/// The exact text that [`error_message`] produces for an error raised by the
/// given operation.
pub open spec fn error_message_spec(op: OpKind, e: CommandError) -> Seq<char> {
    match e {
        CommandError::Config => "API base address is not configured"@,
        CommandError::FileOpen { detail } => "Failed to open file: "@ + detail@,
        CommandError::FileRead { detail } => "Failed to read file: "@ + detail@,
        CommandError::FileName => "File path has no usable file name"@,
        CommandError::Transport { detail } => "Failed to "@ + op_action(op) + ": "@ + detail@,
        CommandError::Api { status, body } => "Error trying to "@ + op_action(op) + ": "@ + body@
            + " with status code "@ + dec_rep(status as nat),
        CommandError::Decode { detail } => "Failed to parse JSON: "@ + detail@,
    }
}

/// Renders an error as the one descriptive message that the caller sees.
pub fn error_message(op: &OpKind, e: &CommandError) -> (r: String)
    ensures
        r@ == error_message_spec(*op, *e),
{
    match e {
        CommandError::Config => String::from_str("API base address is not configured"),
        CommandError::FileOpen { detail } => {
            let mut out = String::from_str("Failed to open file: ");
            out.append(detail.as_str());
            out
        },
        CommandError::FileRead { detail } => {
            let mut out = String::from_str("Failed to read file: ");
            out.append(detail.as_str());
            out
        },
        CommandError::FileName => String::from_str("File path has no usable file name"),
        CommandError::Transport { detail } => {
            let mut out = String::from_str("Failed to ");
            out.append(op_action_str(op));
            out.append(": ");
            out.append(detail.as_str());
            out
        },
        CommandError::Api { status, body } => {
            let mut out = String::from_str("Error trying to ");
            out.append(op_action_str(op));
            out.append(": ");
            out.append(body.as_str());
            out.append(" with status code ");
            let num = u32_to_string(*status as u32);
            out.append(num.as_str());
            out
        },
        CommandError::Decode { detail } => {
            let mut out = String::from_str("Failed to parse JSON: ");
            out.append(detail.as_str());
            out
        },
    }
}

/// What the `Api` error's body holds: the response text when it could be
/// read, a placeholder otherwise.
pub open spec fn api_body_spec(body_text: Option<String>) -> Seq<char> {
    match body_text {
        Some(t) => t@,
        None => "Unknown error"@,
    }
}

/// Builds the error for a response outside the success range.
pub fn api_error(status: u16, body_text: Option<String>) -> (e: CommandError)
    ensures
        e matches CommandError::Api { status: s, body } && s == status && body@ == api_body_spec(
            body_text,
        ),
{
    match body_text {
        Some(t) => CommandError::Api { status, body: t },
        None => CommandError::Api { status, body: String::from_str("Unknown error") },
    }
}

} // verus!
