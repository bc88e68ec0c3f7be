//! What an upload sends, and the messages that accompany it.

use vstd::prelude::*;
use crate::api::ApiKind;
use crate::config::{ApiConfig, default_upload_time, time_or};
use crate::files::{Incompatibility, Reason, ReasonView};
use crate::paths::{final_name, opt_view, path_file_name, path_name, plain_path};
use crate::text::{decimal, push_decimal, push_str, string_of, trim_whitespace, trimmed};

verus! {

/// A text field of the multipart form sent with a file.
pub struct FormField {
    pub name: String,
    pub value: String,
}

/// Where and how a service takes a file.
pub struct UploadTarget {
    /// The address the form is posted to.
    pub endpoint: String,
    /// Text fields sent before the file.
    pub text_fields: Vec<FormField>,
    /// The name of the form part that carries the file.
    pub file_field: String,
    /// Whether progress messages number the files (`i/n`).
    pub numbered: bool,
    /// Whether the progress display ticks on its own while waiting.
    pub steady_tick: bool,
}

/// The views of the names and values of form fields.
pub open spec fn field_views(s: Seq<FormField>) -> Seq<(Seq<char>, Seq<char>)> {
    s.map_values(|f: FormField| (f.name@, f.value@))
}

/// How each service takes a file. Litterbox is sent `reqtype=fileupload` and
/// the configured expiry time (`1h` when none is set) with the file in part
/// `fileToUpload`; temp.sh and bashupload take the file alone in part `file`;
/// uguu takes it alone in part `files[]` and, asked for `output=text`, replies
/// with the address of the upload.
pub open spec fn target_matches(kind: ApiKind, api_options: Map<Seq<char>, Seq<char>>, t: UploadTarget) -> bool {
    match kind {
        ApiKind::Litterbox => {
            &&& t.endpoint@ == "https://litterbox.catbox.moe/resources/internals/api.php"@
            &&& field_views(t.text_fields@) == seq![
                ("reqtype"@, "fileupload"@),
                ("time"@, time_or(api_options, default_upload_time())),
            ]
            &&& t.file_field@ == "fileToUpload"@
            &&& t.numbered
            &&& !t.steady_tick
        },
        ApiKind::TempSh => {
            &&& t.endpoint@ == "https://temp.sh/upload"@
            &&& t.text_fields@.len() == 0
            &&& t.file_field@ == "file"@
            &&& !t.numbered
            &&& !t.steady_tick
        },
        ApiKind::Bashupload => {
            &&& t.endpoint@ == "https://bashupload.com/"@
            &&& t.text_fields@.len() == 0
            &&& t.file_field@ == "file"@
            &&& t.numbered
            &&& t.steady_tick
        },
        ApiKind::Uguu => {
            &&& t.endpoint@ == "https://uguu.se/upload?output=text"@
            &&& t.text_fields@.len() == 0
            &&& t.file_field@ == "files[]"@
            &&& t.numbered
            &&& !t.steady_tick
        },
    }
}

/// How the service takes a file.
pub fn upload_target(kind: ApiKind, api: &ApiConfig) -> (t: UploadTarget)
    ensures
        target_matches(kind, api.options@, t),
{
    match kind {
        ApiKind::Litterbox => {
            let mut fields: Vec<FormField> = Vec::new();
            fields.push(FormField { name: string_of("reqtype"), value: string_of("fileupload") });
            fields.push(FormField { name: string_of("time"), value: api.upload_time() });
            let t = UploadTarget {
                endpoint: string_of("https://litterbox.catbox.moe/resources/internals/api.php"),
                text_fields: fields,
                file_field: string_of("fileToUpload"),
                numbered: true,
                steady_tick: false,
            };
            assert(field_views(t.text_fields@) =~= seq![
                ("reqtype"@, "fileupload"@),
                ("time"@, time_or(api.options@, default_upload_time())),
            ]);
            t
        },
        ApiKind::TempSh => UploadTarget {
            endpoint: string_of("https://temp.sh/upload"),
            text_fields: Vec::new(),
            file_field: string_of("file"),
            numbered: false,
            steady_tick: false,
        },
        ApiKind::Bashupload => UploadTarget {
            endpoint: string_of("https://bashupload.com/"),
            text_fields: Vec::new(),
            file_field: string_of("file"),
            numbered: true,
            steady_tick: true,
        },
        ApiKind::Uguu => UploadTarget {
            endpoint: string_of("https://uguu.se/upload?output=text"),
            text_fields: Vec::new(),
            file_field: string_of("files[]"),
            numbered: true,
            steady_tick: false,
        },
    }
}

/// The name under which a file is sent and reported: the final component of
/// its path, if it has one.
pub fn upload_name(path: &str) -> (name: Option<String>)
    ensures
        opt_view(name) == path_file_name(path@),
        plain_path(path@) ==> opt_view(name) == final_name(path@),
{
    path_name(path)
}

/// The progress message of the file at zero-based `position` of `total`:
/// `Uploading <k>/<total>: <name>` with `k = position + 1` when numbered,
/// `Uploading <name>` otherwise.
pub open spec fn progress_text(numbered: bool, position: nat, total: nat, name: Seq<char>) -> Seq<char> {
    if numbered {
        "Uploading "@ + decimal(position + 1) + "/"@ + decimal(total) + ": "@ + name
    } else {
        "Uploading "@ + name
    }
}

/// The message shown while a file uploads.
pub fn progress_message(numbered: bool, position: usize, total: usize, name: &str) -> (m: String)
    requires
        position < total,
    ensures
        m@ == progress_text(numbered, position as nat, total as nat, name@),
{
    let mut m = string_of("Uploading ");
    if numbered {
        push_decimal(&mut m, (position + 1) as u128);
        push_str(&mut m, "/");
        push_decimal(&mut m, total as u128);
        push_str(&mut m, ": ");
    }
    push_str(&mut m, name);
    m
}

/// `Uploaded <name> to <reply without surrounding white space>`.
pub open spec fn uploaded_text(name: Seq<char>, reply: Seq<char>) -> Seq<char> {
    "Uploaded "@ + name + " to "@ + trim_whitespace(reply)
}

/// The message shown when a service accepted a file; its reply is the
/// address of the upload.
pub fn uploaded_message(name: &str, reply: &str) -> (m: String)
    ensures
        m@ == uploaded_text(name@, reply@),
{
    let mut m = string_of("Uploaded ");
    push_str(&mut m, name);
    push_str(&mut m, " to ");
    let t = trimmed(reply);
    push_str(&mut m, t.as_str());
    m
}

/// The message shown when a service refused a file: `Failed to upload <name>`.
pub fn failed_message(name: &str) -> (m: String)
    ensures
        m@ == "Failed to upload "@ + name@,
{
    let mut m = string_of("Failed to upload ");
    push_str(&mut m, name);
    m
}

/// The error an upload ends with when the service answers with a failure
/// status: `Upload failed with status: <status>`.
pub fn status_error_message(status: &str) -> (m: String)
    ensures
        m@ == "Upload failed with status: "@ + status@,
{
    let mut m = string_of("Upload failed with status: ");
    push_str(&mut m, status);
    m
}

/// The text that explains a refusal.
pub open spec fn reason_text(r: ReasonView) -> Seq<char> {
    match r {
        ReasonView::UnsupportedExtension(ext) => "Unsupported extension: "@ + ext,
        ReasonView::LargerThanOneGigabyte => "File size > 1GB"@,
        ReasonView::LargerThanFiftyGigabytes => "File size > 50GB"@,
    }
}

impl Reason {
    /// The text that explains the refusal.
    pub fn text(&self) -> (t: String)
        ensures
            t@ == reason_text(self@),
    {
        match self {
            Reason::UnsupportedExtension(ext) => {
                let mut t = string_of("Unsupported extension: ");
                push_str(&mut t, ext.as_str());
                t
            },
            Reason::LargerThanOneGigabyte => string_of("File size > 1GB"),
            Reason::LargerThanFiftyGigabytes => string_of("File size > 50GB"),
        }
    }
}

/// One line of the refusal report: `- <path>: <reason>`.
pub fn refusal_line(i: &Incompatibility) -> (m: String)
    ensures
        m@ == "- "@ + i.path@ + ": "@ + reason_text(i.reason@),
{
    let mut m = string_of("- ");
    push_str(&mut m, i.path.as_str());
    push_str(&mut m, ": ");
    let t = i.reason.text();
    push_str(&mut m, t.as_str());
    m
}

/// The line above the refusal report, for the services that refuse files.
pub fn refusal_header(kind: ApiKind) -> (m: Option<String>)
    ensures
        match kind {
            ApiKind::Litterbox => m matches Some(s)
                && s@ == "The following files are incompatible with Litterbox API:"@,
            ApiKind::Bashupload => m matches Some(s)
                && s@ == "The following files are incompatible with bashupload API:"@,
            _ => m is None,
        },
{
    match kind {
        ApiKind::Litterbox => Some(string_of("The following files are incompatible with Litterbox API:")),
        ApiKind::Bashupload => Some(string_of("The following files are incompatible with bashupload API:")),
        _ => None,
    }
}

/// The question asked when some files are refused.
pub fn proceed_prompt() -> (m: String)
    ensures
        m@ == "Proceed without these files? (y/n): "@,
{
    string_of("Proceed without these files? (y/n): ")
}

/// The message for an argument that names no file: `File not found: <arg>`.
pub fn not_found_message(arg: &str) -> (m: String)
    ensures
        m@ == "File not found: "@ + arg@,
{
    let mut m = string_of("File not found: ");
    push_str(&mut m, arg);
    m
}

} // verus!
