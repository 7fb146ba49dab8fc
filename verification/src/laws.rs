//! The laws that the command layer states of itself, proved once and for
//! all over the specifications that the operations' own contracts use.

use crate::api_types::{Client, CreateFormData, CreateResponse, GetClientResponse};
use crate::client_commands::{attachments_spec, invoice_paths, is_create_form, opt_path, opt_paths,
    part_matches, Slot};
use crate::request::{FormPart, MultipartForm, ReadOutcome};
use vstd::prelude::*;

verus! {

/// A form part that stands under the repeated `invoice` field name.
pub open spec fn invoice_field_pred() -> spec_fn(FormPart) -> bool {
    |p: FormPart| p.field@ == "invoice"@
}

proof fn lemma_filter_none<A>(s: Seq<A>, pred: spec_fn(A) -> bool)
    requires
        forall|i: int| 0 <= i < s.len() ==> !pred(#[trigger] s[i]),
    ensures
        s.filter(pred) == Seq::<A>::empty(),
    decreases s.len(),
{
    reveal(Seq::filter);
    if s.len() == 0 {
        assert(s =~= Seq::<A>::empty());
        assert(s.filter(pred) =~= Seq::<A>::empty());
    } else {
        lemma_filter_none(s.drop_last(), pred);
    }
}

proof fn lemma_filter_all<A>(s: Seq<A>, pred: spec_fn(A) -> bool)
    requires
        forall|i: int| 0 <= i < s.len() ==> pred(#[trigger] s[i]),
    ensures
        s.filter(pred) == s,
    decreases s.len(),
{
    reveal(Seq::filter);
    if s.len() == 0 {
        assert(s.filter(pred) =~= s);
    } else {
        lemma_filter_all(s.drop_last(), pred);
        assert(s.drop_last().push(s.last()) =~= s);
    }
}

/// With every optional attachment slot empty, the create form holds exactly
/// the seven required scalar fields and no file part at all.
pub proof fn lemma_no_attachments_form(d: CreateFormData, reads: Seq<ReadOutcome>, f: MultipartForm)
    requires
        d.purchase_order is None,
        d.invoice is None,
        d.handing_over_report is None,
        d.pms_report is None,
        is_create_form(d, reads, f),
    ensures
        f.fields@.len() == 7,
        f.parts@.len() == 0,
{
    assert(attachments_spec(d).len() == 0);
}

/// With N invoice paths supplied, the create form holds exactly N parts
/// under the `invoice` field name, aligned one to one, in the supplied
/// order, with the filename and bytes of each invoice in turn.
pub proof fn lemma_invoice_parts(d: CreateFormData, reads: Seq<ReadOutcome>, f: MultipartForm)
    requires
        is_create_form(d, reads, f),
    ensures
        f.parts@.filter(invoice_field_pred()).len() == invoice_paths(d).len(),
        forall|i: int|
            0 <= i < invoice_paths(d).len() ==> part_matches(
                (Slot::Invoice, invoice_paths(d)[i]),
                reads[opt_path(Slot::PurchaseOrder, d.purchase_order).len() + i],
                #[trigger] f.parts@.filter(invoice_field_pred())[i],
            ),
{
    let pred = invoice_field_pred();
    let atts = attachments_spec(d);
    let s1 = opt_path(Slot::PurchaseOrder, d.purchase_order);
    let s2 = opt_paths(Slot::Invoice, d.invoice);
    let s3 = opt_path(Slot::HandingOverReport, d.handing_over_report);
    let s4 = opt_paths(Slot::PmsReport, d.pms_report);
    let parts = f.parts@;
    let l1 = s1.len() as int;
    let l2 = s2.len() as int;
    let a = parts.subrange(0, l1);
    let b = parts.subrange(l1, l1 + l2);
    let c = parts.subrange(l1 + l2, parts.len() as int);
    reveal_strlit("purchase_order");
    reveal_strlit("invoice");
    reveal_strlit("handing_over_report");
    reveal_strlit("pms_report");
    assert("purchase_order"@.len() == 14);
    assert("invoice"@.len() == 7);
    assert("handing_over_report"@.len() == 19);
    assert("pms_report"@.len() == 10);
    assert(parts =~= a + b + c);
    assert forall|i: int| 0 <= i < a.len() implies !pred(#[trigger] a[i]) by {
        assert(part_matches(atts[i], reads[i], parts[i]));
        assert(atts[i] == s1[i]);
    }
    assert forall|i: int| 0 <= i < b.len() implies pred(#[trigger] b[i]) by {
        assert(part_matches(atts[l1 + i], reads[l1 + i], parts[l1 + i]));
        assert(atts[l1 + i] == s2[i]);
    }
    assert forall|i: int| 0 <= i < c.len() implies !pred(#[trigger] c[i]) by {
        let k = l1 + l2 + i;
        assert(part_matches(atts[k], reads[k], parts[k]));
        if i < s3.len() {
            assert(atts[k] == s3[i]);
        } else {
            assert(atts[k] == s4[i - s3.len()]);
        }
    }
    lemma_filter_none(a, pred);
    lemma_filter_all(b, pred);
    lemma_filter_none(c, pred);
    Seq::filter_distributes_over_add(a + b, c, pred);
    Seq::filter_distributes_over_add(a, b, pred);
    assert(parts.filter(pred) =~= b);
    assert forall|i: int| 0 <= i < invoice_paths(d).len() implies part_matches(
        (Slot::Invoice, invoice_paths(d)[i]),
        reads[l1 + i],
        #[trigger] parts.filter(pred)[i],
    ) by {
        assert(part_matches(atts[l1 + i], reads[l1 + i], parts[l1 + i]));
        assert(atts[l1 + i] == s2[i]);
        assert(s2[i] == (Slot::Invoice, invoice_paths(d)[i]));
    }
}

/// An attachment whose file failed to open rules out the whole form: no
/// multipart form at all satisfies the create-form relation, so no create
/// request can be assembled, and nothing is sent.
pub proof fn lemma_failed_open_blocks_request(
    d: CreateFormData,
    reads: Seq<ReadOutcome>,
    f: MultipartForm,
    j: int,
)
    requires
        0 <= j < reads.len(),
        reads.len() == attachments_spec(d).len(),
        reads[j] is OpenFailed,
    ensures
        !is_create_form(d, reads, f),
{
    if is_create_form(d, reads, f) {
        assert(part_matches(attachments_spec(d)[j], reads[j], f.parts@[j]));
    }
}

/// The created record carries the seven submitted scalar values.
pub open spec fn client_carries_fields(c: Client, d: CreateFormData) -> bool {
    &&& c.company_name@ == d.company_name@
    &&& c.client_name@ == d.client_name@
    &&& c.email@ == d.email@
    &&& c.phone@ == d.phone@
    &&& c.segment@ == d.segment@
    &&& c.state@ == d.state@
    &&& c.city@ == d.city@
}

/// Read-after-write, from the caller's side: when the remote system stores
/// the scalar values that the create form submitted and a later fetch of
/// the returned identifier hands back a record with the stored scalars,
/// that record carries exactly the submitted values — server-assigned
/// fields such as the identifier aside.
pub proof fn lemma_create_fetch_round_trip(
    d: CreateFormData,
    reads: Seq<ReadOutcome>,
    form: MultipartForm,
    created: CreateResponse,
    fetched: GetClientResponse,
)
    requires
        is_create_form(d, reads, form),
        created.client.company_name@ == form.fields@[0].value@,
        created.client.client_name@ == form.fields@[1].value@,
        created.client.email@ == form.fields@[2].value@,
        created.client.phone@ == form.fields@[3].value@,
        created.client.state@ == form.fields@[4].value@,
        created.client.city@ == form.fields@[5].value@,
        created.client.segment@ == form.fields@[6].value@,
        fetched.client.id == created.client.id,
        fetched.client.scalars_match(created.client),
    ensures
        client_carries_fields(fetched.client, d),
{
}

} // verus!
