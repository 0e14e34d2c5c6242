//! Identity generation for persisted records.
//!
//! Every persisted record carries an id of the form `<prefix>_<token>`: a
//! short prefix naming the record's kind and a ten-character alphanumeric
//! token drawn at random.

use vstd::prelude::*;

verus! {

/// An ASCII letter or digit.
pub open spec fn is_ascii_alphanumeric(c: char) -> bool {
    ||| 48 <= c as int <= 57
    ||| 65 <= c as int <= 90
    ||| 97 <= c as int <= 122
}

/// Relies on rand's `Alphanumeric` distribution: ten characters drawn from
/// `a-z`, `A-Z` and `0-9`. Nothing else can be promised of a random draw.
#[verifier::external_body]
pub fn generate_id() -> (r: String)
    ensures
        r@.len() == 10,
        forall|i: int| 0 <= i < r@.len() ==> is_ascii_alphanumeric(r@[i]),
{
    rand::distributions::DistString::sample_string(
        &rand::distributions::Alphanumeric,
        &mut rand::thread_rng(),
        10,
    )
}

/// The kinds of persisted records, each with its id prefix.
#[derive(Clone, Copy, Debug, PartialEq, Eq, Structural)]
pub enum ModelType {
    TypeWorkspace,
    TypeEnvironment,
    TypeFolder,
    TypeHttpRequest,
    TypeGrpcRequest,
    TypeGrpcConnection,
    TypeGrpcEvent,
    TypeHttpResponse,
    TypeCookieJar,
    TypeKeyValue,
    TypeSettings,
    TypePlugin,
}

impl ModelType {
    /// The id prefix of this record kind.
    pub open spec fn spec_prefix(&self) -> Seq<char> {
        match self {
            ModelType::TypeWorkspace => "wk"@,
            ModelType::TypeEnvironment => "ev"@,
            ModelType::TypeFolder => "fl"@,
            ModelType::TypeHttpRequest => "rq"@,
            ModelType::TypeGrpcRequest => "gr"@,
            ModelType::TypeGrpcConnection => "gc"@,
            ModelType::TypeGrpcEvent => "ge"@,
            ModelType::TypeHttpResponse => "rs"@,
            ModelType::TypeCookieJar => "cj"@,
            ModelType::TypeKeyValue => "kv"@,
            ModelType::TypeSettings => "st"@,
            ModelType::TypePlugin => "pg"@,
        }
    }

    /// The id prefix of this record kind.
    pub fn id_prefix(&self) -> (r: &'static str)
        ensures
            r@ == self.spec_prefix(),
    {
        match self {
            ModelType::TypeWorkspace => "wk",
            ModelType::TypeEnvironment => "ev",
            ModelType::TypeFolder => "fl",
            ModelType::TypeHttpRequest => "rq",
            ModelType::TypeGrpcRequest => "gr",
            ModelType::TypeGrpcConnection => "gc",
            ModelType::TypeGrpcEvent => "ge",
            ModelType::TypeHttpResponse => "rs",
            ModelType::TypeCookieJar => "cj",
            ModelType::TypeKeyValue => "kv",
            ModelType::TypeSettings => "st",
            ModelType::TypePlugin => "pg",
        }
    }
}

/// A fresh id for a record of the given kind: its prefix, an underscore,
/// and a ten-character random alphanumeric token.
pub fn generate_model_id(model: ModelType) -> (r: String)
    ensures
        r@.len() == model.spec_prefix().len() + 11,
        r@.subrange(0, model.spec_prefix().len() as int) == model.spec_prefix(),
        r@[model.spec_prefix().len() as int] == '_',
        forall|i: int|
            model.spec_prefix().len() + 1 <= i < r@.len() ==> is_ascii_alphanumeric(r@[i]),
{
    let token = generate_id();
    let prefix = model.id_prefix();
    let r = prefix.to_owned().concat("_").concat(token.as_str());
    proof {
        reveal_strlit("_");
        let p = model.spec_prefix();
        assert(r@ == p + "_"@ + token@);
        assert(r@.subrange(0, p.len() as int) =~= p);
        assert(r@[p.len() as int] == '_');
    }
    r
}

} // verus!
