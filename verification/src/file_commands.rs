//! The file operations: attach one local file to a client, and delete a
//! stored file.

use crate::client_commands::clients_id_endpoint;
use crate::errors::CommandError;
use crate::request::{file_name_spec, get_file_part, FormPart, Method, MultipartForm, ReadOutcome,
    RequestBody, RequestPlan, TextField};
use crate::text::dec_rep;
use crate::text::u32_to_string;
use vstd::prelude::*;
use vstd::string::{StrSliceExecFns, StringExecFns};

verus! {

/// Begins an attach call: resolves `{base}/clients/{id}/files`.  Fails with
/// `Config` exactly when the base address is missing, before any file or
/// network activity can happen.
pub fn add_file_begin(api_url: &Option<String>, client_id: u32) -> (r: Result<String, CommandError>)
    ensures
        api_url is None ==> (r matches Err(e) && e is Config),
        api_url matches Some(base) ==> (r matches Ok(endpoint) && endpoint@ == base@ + "/clients/"@
            + dec_rep(client_id as nat) + "/files"@),
{
    match api_url {
        None => Err(CommandError::Config),
        Some(base) => {
            let mut e = clients_id_endpoint(base, client_id);
            e.append("/files");
            Ok(e)
        },
    }
}

/// Builds the attach form: the category as its one text field plus the one
/// file part, or the classified error of the failed attachment.
pub fn build_add_file_form(category: String, filepath: &String, read: ReadOutcome) -> (r: Result<
    MultipartForm,
    CommandError,
>)
    ensures
        (match read {
            ReadOutcome::Content(b) => if file_name_spec(filepath@).len() > 0 {
                r matches Ok(f) && f.fields@.len() == 1 && f.fields@[0].name@ == "category"@
                    && f.fields@[0].value@ == category@ && f.parts@.len() == 1
                    && f.parts@[0].field@ == "file"@ && f.parts@[0].part.file_name@
                    == file_name_spec(filepath@) && f.parts@[0].part.bytes@ == b@
            } else {
                r matches Err(e) && e is FileName
            },
            ReadOutcome::OpenFailed(m) => r matches Err(e) && (e matches CommandError::FileOpen {
                detail,
            } && detail@ == m@),
            ReadOutcome::ReadFailed(m) => r matches Err(e) && (e matches CommandError::FileRead {
                detail,
            } && detail@ == m@),
        }),
{
    match read {
        ReadOutcome::OpenFailed(m) => Err(CommandError::FileOpen { detail: m }),
        ReadOutcome::ReadFailed(m) => Err(CommandError::FileRead { detail: m }),
        ReadOutcome::Content(bytes) => {
            match get_file_part(filepath, bytes) {
                Err(e) => Err(e),
                Ok(part) => {
                    let mut fields: Vec<TextField> = Vec::new();
                    fields.push(TextField { name: String::from_str("category"), value: category });
                    let mut parts: Vec<FormPart> = Vec::new();
                    parts.push(FormPart { field: String::from_str("file"), part });
                    Ok(MultipartForm { fields, parts })
                },
            }
        },
    }
}

/// Wraps the finished attach form as the one request of the call: POST of
/// the multipart body to the files sub-collection endpoint.
pub fn add_file_request(endpoint: String, form: MultipartForm) -> (p: RequestPlan)
    ensures
        p.method is Post,
        p.endpoint == endpoint,
        p.body matches RequestBody::Multipart(f) && f == form,
{
    RequestPlan { method: Method::Post, endpoint, body: RequestBody::Multipart(form) }
}

/// Plans the delete of one stored file: DELETE on the nested
/// `clients/{client}/files/{file}` endpoint.
pub fn delete_file_plan(api_url: &Option<String>, file_id: u32, client_id: u32) -> (r: Result<
    RequestPlan,
    CommandError,
>)
    ensures
        api_url is None ==> (r matches Err(e) && e is Config),
        api_url matches Some(base) ==> (r matches Ok(p) && p.method is Delete && p.endpoint@
            == base@ + "/clients/"@ + dec_rep(client_id as nat) + "/files/"@ + dec_rep(
            file_id as nat,
        ) && p.body is Empty),
{
    match api_url {
        None => Err(CommandError::Config),
        Some(base) => {
            let mut e = clients_id_endpoint(base, client_id);
            e.append("/files/");
            let id = u32_to_string(file_id);
            e.append(id.as_str());
            Ok(RequestPlan { method: Method::Delete, endpoint: e, body: RequestBody::Empty })
        },
    }
}

} // verus!
