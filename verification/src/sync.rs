//! Workspace synchronization records.
//!
//! A workspace's history is kept as commits over content-addressed
//! objects: each object snapshots one record, each commit names the set of
//! object ids it covers, and a branch orders commit ids. A commit's own id
//! is derived from the object ids it covers — the SHA-1 of their
//! concatenated bytes, hex-encoded, under the `sc_` prefix — so equal
//! content yields equal ids. Dates travel as milliseconds since the epoch.

use vstd::prelude::*;
use vstd::utf8::encode_utf8;

use crate::models::Environment;
use crate::models::Folder;
use crate::models::GrpcRequest;
use crate::models::HttpRequest;
use crate::models::Workspace;

verus! {

/// The SHA-1 digest of a byte sequence, as the hashing crate computes it.
pub uninterp spec fn sha1_of(data: Seq<u8>) -> Seq<u8>;

/// Relies on the sha1 crate's `Digest` one-shot interface: the 20-byte
/// SHA-1 digest, a function of the bytes alone.
#[verifier::external_body]
fn sha1_digest(data: &Vec<u8>) -> (r: Vec<u8>)
    ensures
        r@ == sha1_of(data@),
        r@.len() == 20,
{
    let digest = <sha1::Sha1 as sha1::Digest>::digest(data.as_slice());
    digest.to_vec()
}

/// The lower-case hex digit of a value below sixteen.
pub open spec fn hex_digit(n: u8) -> char
    recommends
        n < 16,
{
    if n == 0 {
        '0'
    } else if n == 1 {
        '1'
    } else if n == 2 {
        '2'
    } else if n == 3 {
        '3'
    } else if n == 4 {
        '4'
    } else if n == 5 {
        '5'
    } else if n == 6 {
        '6'
    } else if n == 7 {
        '7'
    } else if n == 8 {
        '8'
    } else if n == 9 {
        '9'
    } else if n == 10 {
        'a'
    } else if n == 11 {
        'b'
    } else if n == 12 {
        'c'
    } else if n == 13 {
        'd'
    } else if n == 14 {
        'e'
    } else {
        'f'
    }
}

/// The lower-case hex encoding of a byte sequence: two digits per byte.
pub open spec fn hex_of(b: Seq<u8>) -> Seq<char>
    decreases b.len(),
{
    if b.len() == 0 {
        Seq::empty()
    } else {
        hex_of(b.drop_last()) + seq![hex_digit(b.last() / 16), hex_digit(b.last() % 16)]
    }
}

/// The lower-case hex encoding of a byte sequence, two digits per byte,
/// high digit first.
fn hex_encode(bytes: &Vec<u8>) -> (r: String)
    ensures
        r@ == hex_of(bytes@),
{
    let digits = "0123456789abcdef";
    proof {
        reveal_strlit("0123456789abcdef");
    }
    let mut out = String::new();
    let n = bytes.len();
    let mut i: usize = 0;
    proof {
        assert(bytes@.subrange(0, 0) =~= Seq::<u8>::empty());
    }
    while i < n
        invariant
            0 <= i <= n,
            n == bytes@.len(),
            digits@.len() == 16,
            digits@ == "0123456789abcdef"@,
            out@ == hex_of(bytes@.subrange(0, i as int)),
        decreases n - i,
    {
        proof {
            reveal_strlit("0123456789abcdef");
        }
        let b = bytes[i];
        let hi = (b / 16) as usize;
        let lo = (b % 16) as usize;
        let high = digits.substring_char(hi, hi + 1);
        out.append(high);
        let low = digits.substring_char(lo, lo + 1);
        out.append(low);
        proof {
            let s1 = bytes@.subrange(0, i + 1 as int);
            let s0 = bytes@.subrange(0, i as int);
            assert(s1.drop_last() =~= s0);
            assert(s1.last() == bytes@[i as int]);
            assert(digits@[hi as int] == hex_digit(b / 16));
            assert(digits@[lo as int] == hex_digit(b % 16));
            assert(digits@.subrange(hi as int, hi + 1 as int) =~= seq![hex_digit(b / 16)]);
            assert(digits@.subrange(lo as int, lo + 1 as int) =~= seq![hex_digit(b % 16)]);
            assert(out@ =~= hex_of(s1));
        }
        i += 1;
    }
    proof {
        assert(bytes@.subrange(0, n as int) =~= bytes@);
    }
    out
}

/// The concatenated UTF-8 bytes of a list of strings.
pub open spec fn ids_bytes(ids: Seq<String>) -> Seq<u8>
    decreases ids.len(),
{
    if ids.len() == 0 {
        Seq::empty()
    } else {
        ids_bytes(ids.drop_last()) + encode_utf8(ids.last()@)
    }
}

fn collect_ids_bytes(ids: &Vec<String>) -> (out: Vec<u8>)
    ensures
        out@ == ids_bytes(ids@),
{
    let mut out: Vec<u8> = Vec::new();
    let n = ids.len();
    let mut i: usize = 0;
    proof {
        assert(ids@.subrange(0, 0) =~= Seq::<String>::empty());
        assert(out@ =~= ids_bytes(ids@.subrange(0, 0)));
    }
    while i < n
        invariant
            0 <= i <= n,
            n == ids@.len(),
            out@ == ids_bytes(ids@.subrange(0, i as int)),
        decreases n - i,
    {
        let bytes = ids[i].as_str().as_bytes_vec();
        let m = bytes.len();
        let mut j: usize = 0;
        proof {
            assert(bytes@.subrange(0, 0) =~= Seq::<u8>::empty());
            assert(out@ + bytes@.subrange(0, 0) =~= out@);
        }
        while j < m
            invariant
                0 <= j <= m,
                m == bytes@.len(),
                i < n,
                n == ids@.len(),
                bytes@ == encode_utf8(ids@[i as int]@),
                out@ == ids_bytes(ids@.subrange(0, i as int)) + bytes@.subrange(0, j as int),
            decreases m - j,
        {
            out.push(bytes[j]);
            proof {
                assert(out@ =~= ids_bytes(ids@.subrange(0, i as int)) + bytes@.subrange(
                    0,
                    j + 1 as int,
                ));
            }
            j += 1;
        }
        proof {
            let s1 = ids@.subrange(0, i + 1 as int);
            assert(s1.drop_last() =~= ids@.subrange(0, i as int));
            assert(s1.last() == ids@[i as int]);
            assert(bytes@.subrange(0, m as int) =~= bytes@);
            assert(out@ == ids_bytes(s1.drop_last()) + encode_utf8(s1.last()@));
        }
        i += 1;
    }
    proof {
        assert(ids@.subrange(0, n as int) =~= ids@);
    }
    out
}

/// A named, ordered line of commits within a workspace.
pub struct SyncBranch {
    pub model: String,
    pub id: String,
    pub workspace_id: String,
    pub created_at: i64,
    pub updated_at: i64,
    pub name: String,
    pub commit_ids: Vec<String>,
}

/// The columns a branch is stored under.
pub enum SyncBranchIden {
    Table,
    Model,
    Id,
    CreatedAt,
    UpdatedAt,
    WorkspaceId,
    CommitIds,
    Name,
}

impl SyncBranchIden {
    /// The SQL name of this column, or of the table itself.
    pub open spec fn spec_sql_name(&self) -> Seq<char> {
        match self {
            SyncBranchIden::Table => "sync_branches"@,
            SyncBranchIden::Model => "model"@,
            SyncBranchIden::Id => "id"@,
            SyncBranchIden::CreatedAt => "created_at"@,
            SyncBranchIden::UpdatedAt => "updated_at"@,
            SyncBranchIden::WorkspaceId => "workspace_id"@,
            SyncBranchIden::CommitIds => "commit_ids"@,
            SyncBranchIden::Name => "name"@,
        }
    }

    /// The SQL name of this column, or of the table itself.
    pub fn sql_name(&self) -> (r: &'static str)
        ensures
            r@ == self.spec_sql_name(),
    {
        match self {
            SyncBranchIden::Table => "sync_branches",
            SyncBranchIden::Model => "model",
            SyncBranchIden::Id => "id",
            SyncBranchIden::CreatedAt => "created_at",
            SyncBranchIden::UpdatedAt => "updated_at",
            SyncBranchIden::WorkspaceId => "workspace_id",
            SyncBranchIden::CommitIds => "commit_ids",
            SyncBranchIden::Name => "name",
        }
    }
}

/// One commit: the set of object ids it covers, under a content-derived id.
pub struct SyncCommit {
    pub model: String,
    pub id: String,
    pub workspace_id: String,
    pub created_at: i64,
    pub message: Option<String>,
    pub object_ids: Vec<String>,
}

impl SyncCommit {
    /// Derive this commit's id from the object ids it covers: `sc_`
    /// followed by the hex SHA-1 of their concatenated bytes. Equal
    /// content yields equal ids.
    pub fn generate_id(&self) -> (r: String)
        ensures
            r@ == "sc_"@ + hex_of(sha1_of(ids_bytes(self.object_ids@))),
    {
        let bytes = collect_ids_bytes(&self.object_ids);
        let digest = sha1_digest(&bytes);
        let encoded = hex_encode(&digest);
        String::from_str("sc_").concat(encoded.as_str())
    }
}

/// The columns a commit is stored under.
pub enum SyncCommitIden {
    Table,
    Model,
    Id,
    CreatedAt,
    WorkspaceId,
    Message,
    ObjectIds,
}

impl SyncCommitIden {
    /// The SQL name of this column, or of the table itself.
    pub open spec fn spec_sql_name(&self) -> Seq<char> {
        match self {
            SyncCommitIden::Table => "sync_commits"@,
            SyncCommitIden::Model => "model"@,
            SyncCommitIden::Id => "id"@,
            SyncCommitIden::CreatedAt => "created_at"@,
            SyncCommitIden::WorkspaceId => "workspace_id"@,
            SyncCommitIden::Message => "message"@,
            SyncCommitIden::ObjectIds => "object_ids"@,
        }
    }

    /// The SQL name of this column, or of the table itself.
    pub fn sql_name(&self) -> (r: &'static str)
        ensures
            r@ == self.spec_sql_name(),
    {
        match self {
            SyncCommitIden::Table => "sync_commits",
            SyncCommitIden::Model => "model",
            SyncCommitIden::Id => "id",
            SyncCommitIden::CreatedAt => "created_at",
            SyncCommitIden::WorkspaceId => "workspace_id",
            SyncCommitIden::Message => "message",
            SyncCommitIden::ObjectIds => "object_ids",
        }
    }
}

/// One content-addressed snapshot of a record.
pub struct SyncObject {
    pub model: String,
    pub id: String,
    pub created_at: i64,
    pub workspace_id: String,
    pub data: Vec<u8>,
    pub model_id: String,
    pub model_model: String,
}

/// The columns an object is stored under.
pub enum SyncObjectIden {
    Table,
    Model,
    Id,
    CreatedAt,
    WorkspaceId,
    Data,
    ModelId,
    ModelModel,
}

impl SyncObjectIden {
    /// The SQL name of this column, or of the table itself.
    pub open spec fn spec_sql_name(&self) -> Seq<char> {
        match self {
            SyncObjectIden::Table => "sync_objects"@,
            SyncObjectIden::Model => "model"@,
            SyncObjectIden::Id => "id"@,
            SyncObjectIden::CreatedAt => "created_at"@,
            SyncObjectIden::WorkspaceId => "workspace_id"@,
            SyncObjectIden::Data => "data"@,
            SyncObjectIden::ModelId => "model_id"@,
            SyncObjectIden::ModelModel => "model_model"@,
        }
    }

    /// The SQL name of this column, or of the table itself.
    pub fn sql_name(&self) -> (r: &'static str)
        ensures
            r@ == self.spec_sql_name(),
    {
        match self {
            SyncObjectIden::Table => "sync_objects",
            SyncObjectIden::Model => "model",
            SyncObjectIden::Id => "id",
            SyncObjectIden::CreatedAt => "created_at",
            SyncObjectIden::WorkspaceId => "workspace_id",
            SyncObjectIden::Data => "data",
            SyncObjectIden::ModelId => "model_id",
            SyncObjectIden::ModelModel => "model_model",
        }
    }
}

/// One synchronizable record, as a closed set of kinds.
pub enum SyncModel {
    Workspace(Workspace),
    Environment(Environment),
    Folder(Folder),
    HttpRequest(HttpRequest),
    GrpcRequest(GrpcRequest),
}

impl SyncModel {
    /// The id of the record this model wraps.
    pub open spec fn spec_model_id(&self) -> Seq<char> {
        match self {
            SyncModel::Workspace(m) => m.id@,
            SyncModel::Environment(m) => m.id@,
            SyncModel::Folder(m) => m.id@,
            SyncModel::HttpRequest(m) => m.id@,
            SyncModel::GrpcRequest(m) => m.id@,
        }
    }

    /// The id of the record this model wraps.
    pub fn model_id(&self) -> (r: String)
        ensures
            r@ == self.spec_model_id(),
    {
        match self {
            SyncModel::Workspace(m) => m.id.clone(),
            SyncModel::Environment(m) => m.id.clone(),
            SyncModel::Folder(m) => m.id.clone(),
            SyncModel::HttpRequest(m) => m.id.clone(),
            SyncModel::GrpcRequest(m) => m.id.clone(),
        }
    }
}

} // verus!
