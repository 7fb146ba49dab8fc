//! The client operations: list, fetch one, create (multipart with optional
//! attachments), update and delete.  Each operation is a verified planning
//! stage that yields a [`RequestPlan`] and a verified conclusion stage that
//! normalizes what the transport reported.

use crate::api_types::{Client, CreateFormData, CreateResponse, FetchClientsResponse,
    GetClientResponse, UpdateClientRequest};
use crate::errors::{api_body_spec, api_error, CommandError};
use crate::executor::{is_success, status_is_success};
use crate::request::{file_name_spec, get_file_part, FormPart, Method, MultipartForm, ReadOutcome,
    RequestBody, RequestPlan, TextField};
use crate::text::{dec_rep, u32_to_string};
use vstd::prelude::*;
use vstd::string::{StrSliceExecFns, StringExecFns};

verus! {

/// The raw query string of a list call: passed through verbatim, empty when
/// absent.
pub open spec fn query_spec(q: Option<String>) -> Seq<char> {
    match q {
        Some(s) => s@,
        None => Seq::<char>::empty(),
    }
}

/// Builds `{base}/clients/{id}`, the per-resource endpoint.
pub(crate) fn clients_id_endpoint(base: &String, client_id: u32) -> (r: String)
    ensures
        r@ == base@ + "/clients/"@ + dec_rep(client_id as nat),
{
    let mut e = base.clone();
    e.append("/clients/");
    let id = u32_to_string(client_id);
    e.append(id.as_str());
    e
}

/// Plans the list call: GET on the clients collection with the caller's raw
/// query string appended verbatim.  Fails with `Config` exactly when the
/// base address is missing, before any network activity can happen.
pub fn fetch_clients_plan(api_url: &Option<String>, query_params: &Option<String>) -> (r: Result<
    RequestPlan,
    CommandError,
>)
    ensures
        api_url is None ==> (r matches Err(e) && e is Config),
        api_url matches Some(base) ==> (r matches Ok(p) && p.method is Get && p.endpoint@ == base@
            + "/clients?"@ + query_spec(*query_params) && p.body is Empty),
{
    match api_url {
        None => Err(CommandError::Config),
        Some(base) => {
            let mut e = base.clone();
            e.append("/clients?");
            match query_params {
                Some(q) => e.append(q.as_str()),
                None => {
                    proof {
                        assert(base@ + "/clients?"@ + Seq::<char>::empty() =~= base@
                            + "/clients?"@);
                    }
                },
            }
            Ok(RequestPlan { method: Method::Get, endpoint: e, body: RequestBody::Empty })
        },
    }
}

/// Concludes the list call.  On success the decoded envelope is returned
/// unchanged, but only when it is well-formed: the pagination window must be
/// coherent with the page it describes.
pub fn conclude_fetch_clients(
    status: u16,
    decoded: Option<Result<FetchClientsResponse, String>>,
    body_text: Option<String>,
) -> (r: Result<FetchClientsResponse, CommandError>)
    requires
        decoded is Some <==> is_success(status),
    ensures
        r matches Ok(v) ==> v.wf(),
        !is_success(status) ==> (r matches Err(e) && (e matches CommandError::Api {
            status: s,
            body,
        } && s == status && body@ == api_body_spec(body_text))),
        (match decoded {
            Some(Ok(v)) => if v.wf() {
                r matches Ok(out) && out == v
            } else {
                r matches Err(e) && (e matches CommandError::Decode { detail } && detail@
                    == "response envelope failed validation"@)
            },
            Some(Err(m)) => r matches Err(e) && (e matches CommandError::Decode { detail }
                && detail@ == m@),
            None => true,
        }),
{
    match decoded {
        None => Err(api_error(status, body_text)),
        Some(Ok(v)) => {
            if v.is_wf() {
                Ok(v)
            } else {
                Err(
                    CommandError::Decode {
                        detail: String::from_str("response envelope failed validation"),
                    },
                )
            }
        },
        Some(Err(m)) => Err(CommandError::Decode { detail: m }),
    }
}

/// Plans the fetch of one client: GET on the per-resource endpoint.
pub fn fetch_client_plan(api_url: &Option<String>, client_id: u32) -> (r: Result<
    RequestPlan,
    CommandError,
>)
    ensures
        api_url is None ==> (r matches Err(e) && e is Config),
        api_url matches Some(base) ==> (r matches Ok(p) && p.method is Get && p.endpoint@ == base@
            + "/clients/"@ + dec_rep(client_id as nat) && p.body is Empty),
{
    match api_url {
        None => Err(CommandError::Config),
        Some(base) => Ok(
            RequestPlan {
                method: Method::Get,
                endpoint: clients_id_endpoint(base, client_id),
                body: RequestBody::Empty,
            },
        ),
    }
}

/// Concludes the fetch of one client.  The decoded record is returned
/// unchanged when every embedded file belongs to the fetched client.
pub fn conclude_fetch_client(
    status: u16,
    decoded: Option<Result<GetClientResponse, String>>,
    body_text: Option<String>,
) -> (r: Result<GetClientResponse, CommandError>)
    requires
        decoded is Some <==> is_success(status),
    ensures
        r matches Ok(v) ==> v.wf(),
        !is_success(status) ==> (r matches Err(e) && (e matches CommandError::Api {
            status: s,
            body,
        } && s == status && body@ == api_body_spec(body_text))),
        (match decoded {
            Some(Ok(v)) => if v.wf() {
                r matches Ok(out) && out == v
            } else {
                r matches Err(e) && (e matches CommandError::Decode { detail } && detail@
                    == "response record failed validation"@)
            },
            Some(Err(m)) => r matches Err(e) && (e matches CommandError::Decode { detail }
                && detail@ == m@),
            None => true,
        }),
{
    match decoded {
        None => Err(api_error(status, body_text)),
        Some(Ok(v)) => {
            if v.is_wf() {
                Ok(v)
            } else {
                Err(
                    CommandError::Decode {
                        detail: String::from_str("response record failed validation"),
                    },
                )
            }
        },
        Some(Err(m)) => Err(CommandError::Decode { detail: m }),
    }
}

/// The four optional attachment slots of a create call.
#[derive(Debug, Clone, Copy, PartialEq, Eq)]
pub enum Slot {
    PurchaseOrder,
    Invoice,
    HandingOverReport,
    PmsReport,
}

/// The multipart field name of each slot; list-valued slots repeat it.
pub open spec fn slot_field_name(s: Slot) -> Seq<char> {
    match s {
        Slot::PurchaseOrder => "purchase_order"@,
        Slot::Invoice => "invoice"@,
        Slot::HandingOverReport => "handing_over_report"@,
        Slot::PmsReport => "pms_report"@,
    }
}

fn slot_field_str(s: &Slot) -> (r: &'static str)
    ensures
        r@ == slot_field_name(*s),
{
    match s {
        Slot::PurchaseOrder => "purchase_order",
        Slot::Invoice => "invoice",
        Slot::HandingOverReport => "handing_over_report",
        Slot::PmsReport => "pms_report",
    }
}

/// One attachment to gather: its slot and the local path to read.
#[derive(Debug, Clone, PartialEq, Eq)]
pub struct Attachment {
    pub slot: Slot,
    pub path: String,
}

/// The model of a single-valued slot: nothing, or its one path.
pub open spec fn opt_path(slot: Slot, p: Option<String>) -> Seq<(Slot, Seq<char>)> {
    match p {
        Some(s) => seq![(slot, s@)],
        None => Seq::<(Slot, Seq<char>)>::empty(),
    }
}

/// The model of a list-valued slot: its paths in the supplied order.
pub open spec fn opt_paths(slot: Slot, ps: Option<Vec<String>>) -> Seq<(Slot, Seq<char>)> {
    match ps {
        Some(v) => Seq::new(v@.len(), |i: int| (slot, v@[i]@)),
        None => Seq::<(Slot, Seq<char>)>::empty(),
    }
}

/// Every attachment of a create payload, in the order the form carries
/// them: purchase order, then the invoices, then the handing-over report,
/// then the PMS reports.
pub open spec fn attachments_spec(d: CreateFormData) -> Seq<(Slot, Seq<char>)> {
    opt_path(Slot::PurchaseOrder, d.purchase_order) + opt_paths(Slot::Invoice, d.invoice)
        + opt_path(Slot::HandingOverReport, d.handing_over_report) + opt_paths(
        Slot::PmsReport,
        d.pms_report,
    )
}

/// The invoice paths of a create payload, in order.
pub open spec fn invoice_paths(d: CreateFormData) -> Seq<Seq<char>> {
    match d.invoice {
        Some(v) => v@.map_values(|s: String| s@),
        None => Seq::<Seq<char>>::empty(),
    }
}

/// An attachment vector mirrors the model of the payload exactly.
pub open spec fn attachments_match(d: CreateFormData, v: Seq<Attachment>) -> bool {
    &&& v.len() == attachments_spec(d).len()
    &&& forall|i: int|
        0 <= i < v.len() ==> (#[trigger] v[i]).slot == attachments_spec(d)[i].0 && v[i].path@
            == attachments_spec(d)[i].1
}

/// Gathers the attachments of a create payload, in form order.
pub fn attachment_list(d: &CreateFormData) -> (r: Vec<Attachment>)
    ensures
        attachments_match(*d, r@),
{
    let ghost atts = attachments_spec(*d);
    let ghost s1 = opt_path(Slot::PurchaseOrder, d.purchase_order);
    let ghost s2 = opt_paths(Slot::Invoice, d.invoice);
    let ghost s3 = opt_path(Slot::HandingOverReport, d.handing_over_report);
    let ghost s4 = opt_paths(Slot::PmsReport, d.pms_report);
    let mut out: Vec<Attachment> = Vec::new();
    match &d.purchase_order {
        Some(p) => out.push(Attachment { slot: Slot::PurchaseOrder, path: p.clone() }),
        None => {},
    }
    proof {
        assert(out@.len() == s1.len());
        assert(forall|i: int|
            0 <= i < out@.len() ==> (#[trigger] out@[i]).slot == atts[i].0 && out@[i].path@
                == atts[i].1);
    }
    match &d.invoice {
        Some(ps) => {
            let m = ps.len();
            let mut j: usize = 0;
            while j < m
                invariant
                    m == ps@.len(),
                    j <= m,
                    atts == attachments_spec(*d),
                    s1 == opt_path(Slot::PurchaseOrder, d.purchase_order),
                    s2 == opt_paths(Slot::Invoice, d.invoice),
                    d.invoice matches Some(v) && v@ == ps@,
                    m == s2.len(),
                    out@.len() == s1.len() + j,
                    forall|i: int|
                        0 <= i < out@.len() ==> (#[trigger] out@[i]).slot == atts[i].0
                            && out@[i].path@ == atts[i].1,
                decreases m - j,
            {
                out.push(Attachment { slot: Slot::Invoice, path: ps[j].clone() });
                proof {
                    assert(atts[s1.len() + j as int] == s2[j as int]);
                }
                j += 1;
            }
        },
        None => {},
    }
    proof {
        assert(out@.len() == s1.len() + s2.len());
    }
    match &d.handing_over_report {
        Some(p) => {
            out.push(Attachment { slot: Slot::HandingOverReport, path: p.clone() });
            proof {
                assert(atts[s1.len() + s2.len() as int] == s3[0]);
            }
        },
        None => {},
    }
    proof {
        assert(out@.len() == s1.len() + s2.len() + s3.len());
        assert(forall|i: int|
            0 <= i < out@.len() ==> (#[trigger] out@[i]).slot == atts[i].0 && out@[i].path@
                == atts[i].1);
    }
    match &d.pms_report {
        Some(ps) => {
            let m = ps.len();
            let mut j: usize = 0;
            while j < m
                invariant
                    m == ps@.len(),
                    j <= m,
                    atts == attachments_spec(*d),
                    s1 == opt_path(Slot::PurchaseOrder, d.purchase_order),
                    s2 == opt_paths(Slot::Invoice, d.invoice),
                    s3 == opt_path(Slot::HandingOverReport, d.handing_over_report),
                    s4 == opt_paths(Slot::PmsReport, d.pms_report),
                    d.pms_report matches Some(v) && v@ == ps@,
                    m == s4.len(),
                    out@.len() == s1.len() + s2.len() + s3.len() + j,
                    forall|i: int|
                        0 <= i < out@.len() ==> (#[trigger] out@[i]).slot == atts[i].0
                            && out@[i].path@ == atts[i].1,
                decreases m - j,
            {
                out.push(Attachment { slot: Slot::PmsReport, path: ps[j].clone() });
                proof {
                    assert(atts[s1.len() + s2.len() + s3.len() + j as int] == s4[j as int]);
                }
                j += 1;
            }
        },
        None => {},
    }
    proof {
        assert(out@.len() == atts.len());
    }
    out
}

/// The text fields of the create form: exactly the seven required scalar
/// fields, in form order, with the submitted values.
pub open spec fn create_fields_ok(d: CreateFormData, fields: Seq<TextField>) -> bool {
    &&& fields.len() == 7
    &&& fields[0].name@ == "company_name"@ && fields[0].value@ == d.company_name@
    &&& fields[1].name@ == "client_name"@ && fields[1].value@ == d.client_name@
    &&& fields[2].name@ == "email"@ && fields[2].value@ == d.email@
    &&& fields[3].name@ == "phone"@ && fields[3].value@ == d.phone@
    &&& fields[4].name@ == "state"@ && fields[4].value@ == d.state@
    &&& fields[5].name@ == "city"@ && fields[5].value@ == d.city@
    &&& fields[6].name@ == "segment"@ && fields[6].value@ == d.segment@
}

/// One attachment became one form part: the slot's field name, the filename
/// derived from the path, and the fully read bytes.
pub open spec fn part_matches(att: (Slot, Seq<char>), o: ReadOutcome, p: FormPart) -> bool {
    &&& p.field@ == slot_field_name(att.0)
    &&& p.part.file_name@ == file_name_spec(att.1)
    &&& o matches ReadOutcome::Content(b) && p.part.bytes@ == b@
}

/// An attachment can enter the form: its file was fully read and its path
/// has a usable final segment.
pub open spec fn part_ok(att: (Slot, Seq<char>), o: ReadOutcome) -> bool {
    o is Content && file_name_spec(att.1).len() > 0
}

/// The classified error that a failed attachment raises.
pub open spec fn attachment_error(att: (Slot, Seq<char>), o: ReadOutcome, e: CommandError) -> bool {
    match o {
        ReadOutcome::Content(_) => e is FileName && file_name_spec(att.1).len() == 0,
        ReadOutcome::OpenFailed(m) => e matches CommandError::FileOpen { detail } && detail@ == m@,
        ReadOutcome::ReadFailed(m) => e matches CommandError::FileRead { detail } && detail@ == m@,
    }
}

/// The whole create form is exactly the seven scalar fields plus one part
/// per attachment, aligned with the read outcomes.
pub open spec fn is_create_form(d: CreateFormData, reads: Seq<ReadOutcome>, f: MultipartForm) -> bool {
    &&& create_fields_ok(d, f.fields@)
    &&& f.parts@.len() == attachments_spec(d).len()
    &&& reads.len() == attachments_spec(d).len()
    &&& forall|i: int|
        0 <= i < attachments_spec(d).len() ==> part_matches(
            attachments_spec(d)[i],
            reads[i],
            #[trigger] f.parts@[i],
        )
}

/// Builds the whole multipart form of one create call from the payload and
/// the outcome of reading each attachment, in order.  The form exists only
/// on full success; the first attachment that failed to open or read, or
/// whose path has no usable filename, aborts with its classified error and
/// no form — so no request can be submitted with a subset of the
/// attachments.
pub fn build_create_form(d: &CreateFormData, reads: Vec<ReadOutcome>) -> (r: Result<
    MultipartForm,
    CommandError,
>)
    requires
        reads@.len() == attachments_spec(*d).len(),
    ensures
        r is Ok <==> (forall|i: int|
            0 <= i < reads@.len() ==> part_ok(attachments_spec(*d)[i], #[trigger] reads@[i])),
        r matches Ok(f) ==> is_create_form(*d, reads@, f),
        r matches Err(e) ==> (exists|j: int|
            0 <= j < reads@.len() && !part_ok(attachments_spec(*d)[j], #[trigger] reads@[j]) && (
            forall|k: int| 0 <= k < j ==> part_ok(attachments_spec(*d)[k], #[trigger] reads@[k]))
                && attachment_error(attachments_spec(*d)[j], reads@[j], e)),
{
    let ghost atts = attachments_spec(*d);
    let alist = attachment_list(d);
    let mut rest = reads;
    let ghost all_reads = rest@;
    let mut fields: Vec<TextField> = Vec::new();
    fields.push(TextField { name: String::from_str("company_name"), value: d.company_name.clone() });
    fields.push(TextField { name: String::from_str("client_name"), value: d.client_name.clone() });
    fields.push(TextField { name: String::from_str("email"), value: d.email.clone() });
    fields.push(TextField { name: String::from_str("phone"), value: d.phone.clone() });
    fields.push(TextField { name: String::from_str("state"), value: d.state.clone() });
    fields.push(TextField { name: String::from_str("city"), value: d.city.clone() });
    fields.push(TextField { name: String::from_str("segment"), value: d.segment.clone() });
    let mut parts: Vec<FormPart> = Vec::new();
    let n = alist.len();
    let mut i: usize = 0;
    while i < n
        invariant
            atts == attachments_spec(*d),
            attachments_match(*d, alist@),
            n == alist@.len(),
            all_reads == reads@,
            all_reads.len() == atts.len(),
            i <= n,
            rest@ == all_reads.skip(i as int),
            create_fields_ok(*d, fields@),
            parts@.len() == i,
            forall|k: int| 0 <= k < i ==> part_ok(atts[k], #[trigger] all_reads[k]),
            forall|k: int|
                0 <= k < i ==> part_matches(atts[k], all_reads[k], #[trigger] parts@[k]),
        decreases n - i,
    {
        let o = rest.remove(0);
        proof {
            assert(o == all_reads[i as int]);
            assert(all_reads.skip(i as int).remove(0) =~= all_reads.skip(i + 1));
        }
        match o {
            ReadOutcome::Content(bytes) => {
                let att = &alist[i];
                match get_file_part(&att.path, bytes) {
                    Ok(part) => {
                        let field = String::from_str(slot_field_str(&att.slot));
                        parts.push(FormPart { field, part });
                    },
                    Err(e) => {
                        proof {
                            assert(!part_ok(atts[i as int], all_reads[i as int]));
                            assert(attachment_error(atts[i as int], all_reads[i as int], e));
                        }
                        return Err(e);
                    },
                }
            },
            ReadOutcome::OpenFailed(m) => {
                proof {
                    assert(!part_ok(atts[i as int], all_reads[i as int]));
                }
                return Err(CommandError::FileOpen { detail: m });
            },
            ReadOutcome::ReadFailed(m) => {
                proof {
                    assert(!part_ok(atts[i as int], all_reads[i as int]));
                }
                return Err(CommandError::FileRead { detail: m });
            },
        }
        i += 1;
    }
    Ok(MultipartForm { fields, parts })
}

/// What a begun create call carries to its remaining stages: the collection
/// endpoint and the attachments still to read.
#[derive(Debug, Clone, PartialEq, Eq)]
pub struct CreatePrep {
    pub endpoint: String,
    pub attachments: Vec<Attachment>,
}

/// Begins a create call: resolves the collection endpoint and gathers the
/// attachment paths.  Fails with `Config` exactly when the base address is
/// missing, before any file or network activity can happen.
pub fn create_client_begin(api_url: &Option<String>, d: &CreateFormData) -> (r: Result<
    CreatePrep,
    CommandError,
>)
    ensures
        api_url is None ==> (r matches Err(e) && e is Config),
        api_url matches Some(base) ==> (r matches Ok(prep) && prep.endpoint@ == base@ + "/clients"@
            && attachments_match(*d, prep.attachments@)),
{
    match api_url {
        None => Err(CommandError::Config),
        Some(base) => {
            let mut e = base.clone();
            e.append("/clients");
            Ok(CreatePrep { endpoint: e, attachments: attachment_list(d) })
        },
    }
}

/// Wraps the finished create form as the one request of the call: POST of
/// the multipart body to the collection endpoint.
pub fn create_client_request(endpoint: String, form: MultipartForm) -> (p: RequestPlan)
    ensures
        p.method is Post,
        p.endpoint == endpoint,
        p.body matches RequestBody::Multipart(f) && f == form,
{
    RequestPlan { method: Method::Post, endpoint, body: RequestBody::Multipart(form) }
}

/// Concludes the create call: the stored record comes back unchanged when
/// it is well-formed.
pub fn conclude_create_client(
    status: u16,
    decoded: Option<Result<CreateResponse, String>>,
    body_text: Option<String>,
) -> (r: Result<CreateResponse, CommandError>)
    requires
        decoded is Some <==> is_success(status),
    ensures
        r matches Ok(v) ==> v.wf(),
        !is_success(status) ==> (r matches Err(e) && (e matches CommandError::Api {
            status: s,
            body,
        } && s == status && body@ == api_body_spec(body_text))),
        (match decoded {
            Some(Ok(v)) => if v.wf() {
                r matches Ok(out) && out == v
            } else {
                r matches Err(e) && (e matches CommandError::Decode { detail } && detail@
                    == "response record failed validation"@)
            },
            Some(Err(m)) => r matches Err(e) && (e matches CommandError::Decode { detail }
                && detail@ == m@),
            None => true,
        }),
{
    match decoded {
        None => Err(api_error(status, body_text)),
        Some(Ok(v)) => {
            if v.client.is_wf() {
                Ok(v)
            } else {
                Err(
                    CommandError::Decode {
                        detail: String::from_str("response record failed validation"),
                    },
                )
            }
        },
        Some(Err(m)) => Err(CommandError::Decode { detail: m }),
    }
}

/// Plans the update call: PUT of the full scalar payload to the
/// per-resource endpoint, no attachments.
pub fn update_client_plan(api_url: &Option<String>, client_data: UpdateClientRequest) -> (r: Result<
    RequestPlan,
    CommandError,
>)
    ensures
        api_url is None ==> (r matches Err(e) && e is Config),
        api_url matches Some(base) ==> (r matches Ok(p) && p.method is Put && p.endpoint@ == base@
            + "/clients/"@ + dec_rep(client_data.id as nat) && (p.body matches RequestBody::Json(d)
            && d == client_data)),
{
    match api_url {
        None => Err(CommandError::Config),
        Some(base) => {
            let endpoint = clients_id_endpoint(base, client_data.id);
            Ok(RequestPlan { method: Method::Put, endpoint, body: RequestBody::Json(client_data) })
        },
    }
}

/// Plans the delete call: DELETE on the per-resource endpoint.
pub fn delete_client_plan(api_url: &Option<String>, client_id: u32) -> (r: Result<
    RequestPlan,
    CommandError,
>)
    ensures
        api_url is None ==> (r matches Err(e) && e is Config),
        api_url matches Some(base) ==> (r matches Ok(p) && p.method is Delete && p.endpoint@
            == base@ + "/clients/"@ + dec_rep(client_id as nat) && p.body is Empty),
{
    match api_url {
        None => Err(CommandError::Config),
        Some(base) => Ok(
            RequestPlan {
                method: Method::Delete,
                endpoint: clients_id_endpoint(base, client_id),
                body: RequestBody::Empty,
            },
        ),
    }
}

} // verus!
