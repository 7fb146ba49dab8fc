//! The shape of one planned HTTP request, and the builder that turns a local
//! path plus its bytes into a named multipart file part.

use crate::api_types::UpdateClientRequest;
use crate::errors::CommandError;
use vstd::prelude::*;
use vstd::string::{StrSliceExecFns, StringExecFns};

verus! {

/// The HTTP method of a planned request.
#[derive(Debug, Clone, Copy, PartialEq, Eq)]
pub enum Method {
    Get,
    Post,
    Put,
    Delete,
}

/// One named text field of a multipart form.
#[derive(Debug, Clone, PartialEq, Eq)]
pub struct TextField {
    pub name: String,
    pub value: String,
}

/// An in-memory named binary part: the bytes of one local file plus the
/// filename they are uploaded under.
#[derive(Debug, Clone, PartialEq, Eq)]
pub struct FilePart {
    pub file_name: String,
    pub bytes: Vec<u8>,
}

/// A file part together with the form field it is attached under.
#[derive(Debug, Clone, PartialEq, Eq)]
pub struct FormPart {
    pub field: String,
    pub part: FilePart,
}

/// A whole multipart form: named text fields plus named file parts, each in
/// order.
#[derive(Debug, Clone, PartialEq, Eq)]
pub struct MultipartForm {
    pub fields: Vec<TextField>,
    pub parts: Vec<FormPart>,
}

/// The body of a planned request; JSON and multipart bodies are mutually
/// exclusive by construction.
#[derive(Debug, Clone, PartialEq, Eq)]
pub enum RequestBody {
    Empty,
    Json(UpdateClientRequest),
    Multipart(MultipartForm),
}

/// Everything the transport needs to issue one request.
#[derive(Debug, Clone, PartialEq, Eq)]
pub struct RequestPlan {
    pub method: Method,
    pub endpoint: String,
    pub body: RequestBody,
}

/// What reading one local attachment produced: its full contents, or the
/// failure to open or read it, with the underlying cause text.
#[derive(Debug, Clone, PartialEq, Eq)]
pub enum ReadOutcome {
    Content(Vec<u8>),
    OpenFailed(String),
    ReadFailed(String),
}

/// A path separator; both directions are accepted so that paths from either
/// platform style keep their final segment.
pub open spec fn is_sep(c: char) -> bool {
    c == '/' || c == '\\'
}

/// The final path segment: the suffix after the last separator (empty when
/// the path is empty or ends in a separator).
pub open spec fn file_name_spec(p: Seq<char>) -> Seq<char>
    decreases p.len(),
{
    if p.len() == 0 || is_sep(p.last()) {
        Seq::<char>::empty()
    } else {
        file_name_spec(p.drop_last()).push(p.last())
    }
}

proof fn lemma_file_name_suffix(p: Seq<char>, i: int)
    requires
        0 <= i <= p.len(),
        forall|k: int| i <= k < p.len() ==> !is_sep(#[trigger] p[k]),
        i == 0 || is_sep(p[i - 1]),
    ensures
        file_name_spec(p) == p.subrange(i, p.len() as int),
    decreases p.len() - i,
{
    if i == p.len() {
        assert(p.subrange(i, p.len() as int) =~= Seq::<char>::empty());
    } else {
        lemma_file_name_suffix(p.drop_last(), i);
        assert(p.drop_last().subrange(i, p.len() - 1) =~= p.subrange(i, p.len() - 1));
        assert(p.subrange(i, p.len() - 1).push(p.last()) =~= p.subrange(i, p.len() as int));
    }
}

/// Wraps the fully read bytes of one local file as a named part, deriving
/// the uploaded filename from the path's final segment; fails with
/// `FileName` when the path has no usable final segment.
pub fn get_file_part(path: &String, bytes: Vec<u8>) -> (r: Result<FilePart, CommandError>)
    ensures
        file_name_spec(path@).len() == 0 ==> (r matches Err(e) && e is FileName),
        file_name_spec(path@).len() > 0 ==> (r matches Ok(p) && p.file_name@ == file_name_spec(
            path@,
        ) && p.bytes@ == bytes@),
{
    let n = path.as_str().unicode_len();
    let mut i: usize = n;
    loop
        invariant
            n == path@.len(),
            i <= n,
            forall|k: int| i <= k < n ==> !is_sep(#[trigger] path@[k]),
        ensures
            i <= n,
            forall|k: int| i <= k < n ==> !is_sep(#[trigger] path@[k]),
            i == 0 || is_sep(path@[i as int - 1]),
        decreases i,
    {
        if i == 0 {
            break ;
        }
        let c = path.as_str().get_char(i - 1);
        if c == '/' || c == '\\' {
            break ;
        }
        i -= 1;
    }
    proof {
        lemma_file_name_suffix(path@, i as int);
    }
    if i == n {
        Err(CommandError::FileName)
    } else {
        let name = path.as_str().substring_char(i, n);
        Ok(FilePart { file_name: String::from_str(name), bytes })
    }
}

} // verus!
