//! Shapes of the records exchanged with the remote API, with their
//! well-formedness conditions.

use vstd::prelude::*;

verus! {

/// A stored file record, as the remote API reports it.
#[derive(Debug, Clone, PartialEq, Eq)]
pub struct File {
    pub id: u32,
    pub created_at: String,
    pub original_file_name: String,
    pub file_name: String,
    pub file_path: String,
    pub category: String,
    pub client_id: u32,
}

impl File {
    /// A file embedded under a client must name that client as its owner.
    pub open spec fn owned_by(self, client: u32) -> bool {
        self.client_id == client
    }
}

/// A client record, optionally carrying the files that belong to it.
#[derive(Debug, Clone, PartialEq, Eq)]
pub struct Client {
    pub id: u32,
    pub company_name: String,
    pub client_name: String,
    pub email: String,
    pub phone: String,
    pub segment: String,
    pub state: String,
    pub city: String,
    pub files: Option<Vec<File>>,
}

impl Client {
    /// Every embedded file belongs to this client.
    pub open spec fn wf(self) -> bool {
        self.files matches Some(fs) ==> forall|i: int|
            0 <= i < fs@.len() ==> (#[trigger] fs@[i]).owned_by(self.id)
    }

    /// The scalar fields of the two records agree (identifier and embedded
    /// files aside).
    pub open spec fn scalars_match(self, other: Client) -> bool {
        &&& self.company_name@ == other.company_name@
        &&& self.client_name@ == other.client_name@
        &&& self.email@ == other.email@
        &&& self.phone@ == other.phone@
        &&& self.segment@ == other.segment@
        &&& self.state@ == other.state@
        &&& self.city@ == other.city@
    }

    /// Runtime check for [`Client::wf`].
    pub fn is_wf(&self) -> (b: bool)
        ensures
            b == self.wf(),
    {
        match &self.files {
            None => true,
            Some(fs) => {
                let n = fs.len();
                let mut i: usize = 0;
                let mut ok = true;
                while i < n
                    invariant
                        n == fs@.len(),
                        i <= n,
                        ok == forall|k: int| 0 <= k < i ==> (#[trigger] fs@[k]).owned_by(self.id),
                    decreases n - i,
                {
                    if fs[i].client_id != self.id {
                        ok = false;
                    }
                    i += 1;
                }
                ok
            },
        }
    }
}

/// The pagination window that a list response describes.
#[derive(Debug, Clone, Copy, PartialEq, Eq)]
pub struct Metadata {
    pub current_page: u32,
    pub page_size: u32,
    pub first_page: u32,
    pub last_page: u32,
    pub total_records: u32,
}

impl Metadata {
    /// The window is coherent with a page of `count` records: the current
    /// page lies between the first and last page, and the record count is
    /// bounded by the page size and the total.
    pub open spec fn wf(self, count: nat) -> bool {
        &&& self.first_page <= self.current_page <= self.last_page
        &&& count <= self.page_size
        &&& count <= self.total_records
    }
}

/// The envelope of a list call: a page of clients plus its pagination
/// window.
#[derive(Debug, Clone, PartialEq, Eq)]
pub struct FetchClientsResponse {
    pub clients: Vec<Client>,
    pub metadata: Metadata,
}

impl FetchClientsResponse {
    /// The metadata is coherent with the page and every record is
    /// well-formed.
    pub open spec fn wf(self) -> bool {
        &&& self.metadata.wf(self.clients@.len())
        &&& forall|i: int| 0 <= i < self.clients@.len() ==> (#[trigger] self.clients@[i]).wf()
    }

    /// Runtime check for [`FetchClientsResponse::wf`].
    pub fn is_wf(&self) -> (b: bool)
        ensures
            b == self.wf(),
    {
        let count = self.clients.len();
        let meta_ok = self.metadata.first_page <= self.metadata.current_page
            && self.metadata.current_page <= self.metadata.last_page && count
            <= self.metadata.page_size as usize && count <= self.metadata.total_records as usize;
        let mut i: usize = 0;
        let mut clients_ok = true;
        while i < count
            invariant
                count == self.clients@.len(),
                i <= count,
                clients_ok == forall|k: int| 0 <= k < i ==> (#[trigger] self.clients@[k]).wf(),
            decreases count - i,
        {
            if !self.clients[i].is_wf() {
                clients_ok = false;
            }
            i += 1;
        }
        meta_ok && clients_ok
    }
}

/// The transient payload of one create call: the required scalar fields
/// plus up to four optional attachment slots.
#[derive(Debug, Clone, PartialEq, Eq)]
pub struct CreateFormData {
    pub company_name: String,
    pub client_name: String,
    pub email: String,
    pub phone: String,
    pub segment: String,
    pub state: String,
    pub city: String,
    pub purchase_order: Option<String>,
    pub invoice: Option<Vec<String>>,
    pub handing_over_report: Option<String>,
    pub pms_report: Option<Vec<String>>,
}

/// What a successful create call returns: the record the remote system
/// stored.
#[derive(Debug, Clone, PartialEq, Eq)]
pub struct CreateResponse {
    pub client: Client,
}

impl CreateResponse {
    pub open spec fn wf(self) -> bool {
        self.client.wf()
    }
}

/// What a successful fetch of one client returns.
#[derive(Debug, Clone, PartialEq, Eq)]
pub struct GetClientResponse {
    pub client: Client,
    pub files: Option<Vec<File>>,
}

impl GetClientResponse {
    /// The record is well-formed and every file listed beside it belongs to
    /// it.
    pub open spec fn wf(self) -> bool {
        &&& self.client.wf()
        &&& self.files matches Some(fs) ==> forall|i: int|
            0 <= i < fs@.len() ==> (#[trigger] fs@[i]).owned_by(self.client.id)
    }

    /// Runtime check for [`GetClientResponse::wf`].
    pub fn is_wf(&self) -> (b: bool)
        ensures
            b == self.wf(),
    {
        let client_ok = self.client.is_wf();
        let files_ok = match &self.files {
            None => true,
            Some(fs) => {
                let n = fs.len();
                let mut i: usize = 0;
                let mut ok = true;
                while i < n
                    invariant
                        n == fs@.len(),
                        i <= n,
                        ok == forall|k: int|
                            0 <= k < i ==> (#[trigger] fs@[k]).owned_by(self.client.id),
                    decreases n - i,
                {
                    if fs[i].client_id != self.client.id {
                        ok = false;
                    }
                    i += 1;
                }
                ok
            },
        };
        client_ok && files_ok
    }
}

/// The transient payload of one update call: the target identifier plus the
/// mutable scalar fields.
#[derive(Debug, Clone, PartialEq, Eq)]
pub struct UpdateClientRequest {
    pub id: u32,
    pub company_name: String,
    pub client_name: String,
    pub email: String,
    pub phone: String,
    pub segment: String,
    pub state: String,
    pub city: String,
}

} // verus!
