//! The file hosting services and how a configuration names them.

use vstd::prelude::*;
use crate::text::{same_text, string_of, push_str};

verus! {

/// A supported file hosting service.
#[derive(Clone, Copy, PartialEq, Eq, Structural, Debug)]
pub enum ApiKind {
    Litterbox,
    TempSh,
    Uguu,
    Bashupload,
}

/// The name under which a configuration selects a service.
pub open spec fn api_name(kind: ApiKind) -> Seq<char> {
    match kind {
        ApiKind::Litterbox => "litterbox"@,
        ApiKind::TempSh => "temp_sh"@,
        ApiKind::Uguu => "uguu"@,
        ApiKind::Bashupload => "bashupload"@,
    }
}

/// Whether a name selects some service.
pub open spec fn is_supported(name: Seq<char>) -> bool {
    exists|k: ApiKind| #[trigger] api_name(k) == name
}

/// The services in the order the configuration menu and the status report
/// list them.
pub open spec fn service_order() -> Seq<ApiKind> {
    seq![ApiKind::Litterbox, ApiKind::TempSh, ApiKind::Uguu, ApiKind::Bashupload]
}

/// The page that the status report probes for a service.
pub open spec fn status_url_of(kind: ApiKind) -> Seq<char> {
    match kind {
        ApiKind::Litterbox => "https://litterbox.catbox.moe/"@,
        ApiKind::TempSh => "https://temp.sh/"@,
        ApiKind::Uguu => "https://uguu.se/"@,
        ApiKind::Bashupload => "https://bashupload.com/"@,
    }
}

/// The names of different services differ.
pub proof fn lemma_api_names_distinct()
    ensures
        forall|a: ApiKind, b: ApiKind| a != b ==> api_name(a) != api_name(b),
{
    reveal_strlit("litterbox");
    reveal_strlit("temp_sh");
    reveal_strlit("uguu");
    reveal_strlit("bashupload");
    assert("litterbox"@.len() == 9);
    assert("temp_sh"@.len() == 7);
    assert("uguu"@.len() == 4);
    assert("bashupload"@.len() == 10);
    assert("litterbox"@[0] != "bashupload"@[0]);
}

/// Why an upload cannot start.
#[derive(Debug, PartialEq, Eq)]
pub enum UploadError {
    /// The configuration names a service that does not exist.
    UnsupportedApiType(String),
}

/// The text of an error: `Unsupported API type: <name>`.
pub open spec fn upload_error_text(e: UploadError) -> Seq<char> {
    match e {
        UploadError::UnsupportedApiType(name) => "Unsupported API type: "@ + name@,
    }
}

impl UploadError {
    /// The message the program shows for the error.
    pub fn message(&self) -> (m: String)
        ensures
            m@ == upload_error_text(*self),
    {
        match self {
            UploadError::UnsupportedApiType(name) => {
                let mut m = string_of("Unsupported API type: ");
                push_str(&mut m, name.as_str());
                m
            },
        }
    }
}

impl ApiKind {
    /// The name under which a configuration selects this service.
    pub fn name(&self) -> (s: String)
        ensures
            s@ == api_name(*self),
    {
        match self {
            ApiKind::Litterbox => string_of("litterbox"),
            ApiKind::TempSh => string_of("temp_sh"),
            ApiKind::Uguu => string_of("uguu"),
            ApiKind::Bashupload => string_of("bashupload"),
        }
    }

    /// The page that the status report probes for this service.
    pub fn status_url(&self) -> (s: String)
        ensures
            s@ == status_url_of(*self),
    {
        match self {
            ApiKind::Litterbox => string_of("https://litterbox.catbox.moe/"),
            ApiKind::TempSh => string_of("https://temp.sh/"),
            ApiKind::Uguu => string_of("https://uguu.se/"),
            ApiKind::Bashupload => string_of("https://bashupload.com/"),
        }
    }
}

/// All services, in the order the menu and the status report list them.
pub fn supported_apis() -> (v: Vec<ApiKind>)
    ensures
        v@ == service_order(),
{
    let v = vec![ApiKind::Litterbox, ApiKind::TempSh, ApiKind::Uguu, ApiKind::Bashupload];
    assert(v@ =~= service_order());
    v
}

/// The service that a configured API type names; any other name is refused.
pub fn select_api(api_type: &str) -> (r: Result<ApiKind, UploadError>)
    ensures
        r is Ok <==> is_supported(api_type@),
        match r {
            Ok(kind) => api_name(kind) == api_type@,
            Err(e) => (forall|k: ApiKind| api_name(k) != api_type@)
                && (e matches UploadError::UnsupportedApiType(name) && name@ == api_type@),
        },
{
    if same_text(api_type, "litterbox") {
        assert(api_name(ApiKind::Litterbox) == api_type@);
        Ok(ApiKind::Litterbox)
    } else if same_text(api_type, "temp_sh") {
        assert(api_name(ApiKind::TempSh) == api_type@);
        Ok(ApiKind::TempSh)
    } else if same_text(api_type, "uguu") {
        assert(api_name(ApiKind::Uguu) == api_type@);
        Ok(ApiKind::Uguu)
    } else if same_text(api_type, "bashupload") {
        assert(api_name(ApiKind::Bashupload) == api_type@);
        Ok(ApiKind::Bashupload)
    } else {
        Err(UploadError::UnsupportedApiType(string_of(api_type)))
    }
}

} // verus!
