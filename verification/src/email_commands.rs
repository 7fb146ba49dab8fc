//! The notification operations: ask the remote system to send one stored
//! file, or every stored file of a category, by email.

use crate::client_commands::clients_id_endpoint;
use crate::errors::CommandError;
use crate::request::{Method, RequestBody, RequestPlan};
use crate::text::{dec_rep, pct_encode_spec, percent_encode, u32_to_string};
use vstd::prelude::*;
use vstd::string::{StrSliceExecFns, StringExecFns};

verus! {

/// Plans the send of one stored file: POST with no body to
/// `clients/{client}/files/{file}/send`.
pub fn send_file_email_plan(api_url: &Option<String>, file_id: u32, client_id: u32) -> (r: Result<
    RequestPlan,
    CommandError,
>)
    ensures
        api_url is None ==> (r matches Err(e) && e is Config),
        api_url matches Some(base) ==> (r matches Ok(p) && p.method is Post && p.endpoint@ == base@
            + "/clients/"@ + dec_rep(client_id as nat) + "/files/"@ + dec_rep(file_id as nat)
            + "/send"@ && p.body is Empty),
{
    match api_url {
        None => Err(CommandError::Config),
        Some(base) => {
            let mut e = clients_id_endpoint(base, client_id);
            e.append("/files/");
            let id = u32_to_string(file_id);
            e.append(id.as_str());
            e.append("/send");
            Ok(RequestPlan { method: Method::Post, endpoint: e, body: RequestBody::Empty })
        },
    }
}

/// Plans the send of every stored file of a category: POST with no body to
/// `clients/{client}/files/send/{category}`, with the free-form category
/// percent-encoded as a path segment.
pub fn send_category_files_email_plan(
    api_url: &Option<String>,
    category: &String,
    client_id: u32,
) -> (r: Result<RequestPlan, CommandError>)
    ensures
        api_url is None ==> (r matches Err(e) && e is Config),
        api_url matches Some(base) ==> (r matches Ok(p) && p.method is Post && p.endpoint@ == base@
            + "/clients/"@ + dec_rep(client_id as nat) + "/files/send/"@ + pct_encode_spec(
            category@,
        ) && p.body is Empty),
{
    match api_url {
        None => Err(CommandError::Config),
        Some(base) => {
            let mut e = clients_id_endpoint(base, client_id);
            e.append("/files/send/");
            let seg = percent_encode(category);
            e.append(seg.as_str());
            Ok(RequestPlan { method: Method::Post, endpoint: e, body: RequestBody::Empty })
        },
    }
}

} // verus!
