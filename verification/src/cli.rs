//! The command line: its arguments and what they ask the program to do.

use vstd::prelude::*;
use crate::api::{ApiKind, UploadError, api_name, is_supported, select_api};
use crate::files::views;

verus! {

/// The subcommands.
#[derive(Clone, Copy, PartialEq, Eq, Structural, Debug)]
pub enum Commands {
    /// Configure the app settings.
    Config,
    /// Show the status of each API.
    Status,
}

/// The parsed command line: files to upload (or `*` for every file of the
/// current directory) and an optional subcommand.
pub struct Cli {
    pub files: Vec<String>,
    pub command: Option<Commands>,
}

/// What the program does for a command line.
#[derive(Clone, Copy, PartialEq, Eq, Structural, Debug)]
pub enum Plan {
    /// Run the configuration menu.
    Configure,
    /// Report the status of every service.
    ShowStatus,
    /// No subcommand and no file: say so and stop.
    NoFiles,
    /// Upload the files the command line names.
    Upload,
}

/// A subcommand wins over files; without one, the files are uploaded, and
/// with none the program only explains its usage.
pub fn plan(cli: &Cli) -> (p: Plan)
    ensures
        cli.command == Some(Commands::Config) ==> p == Plan::Configure,
        cli.command == Some(Commands::Status) ==> p == Plan::ShowStatus,
        cli.command is None && cli.files@.len() == 0 ==> p == Plan::NoFiles,
        cli.command is None && cli.files@.len() != 0 ==> p == Plan::Upload,
{
    match cli.command {
        Some(Commands::Config) => Plan::Configure,
        Some(Commands::Status) => Plan::ShowStatus,
        None => {
            if cli.files.len() == 0 {
                Plan::NoFiles
            } else {
                Plan::Upload
            }
        },
    }
}

} // verus!

verus! {

/// Whether the last argument picks the service: it names one and is not an
/// existing file (as in `rup * temp_sh`).
pub open spec fn names_trailing_service(args: Seq<Seq<char>>, last_is_file: bool) -> bool {
    args.len() > 0 && !last_is_file && is_supported(args.last())
}

/// The files to upload and the service picked on the command line, if any.
pub struct UploadArgs {
    pub files: Vec<String>,
    pub service: Option<ApiKind>,
}

/// The first `k` arguments.
fn copy_prefix(args: &Vec<String>, k: usize) -> (r: Vec<String>)
    requires
        k <= args@.len(),
    ensures
        views(r@) == views(args@).take(k as int),
{
    let mut r: Vec<String> = Vec::new();
    let mut i: usize = 0;
    while i < k
        invariant
            k <= args@.len(),
            i <= k,
            views(r@) == views(args@).take(i as int),
        decreases k - i,
    {
        let ghost before = r@;
        r.push(args[i].clone());
        assert(views(r@) =~= views(before).push(args@[i as int]@));
        assert(views(args@).take(i + 1) =~= views(args@).take(i as int).push(args@[i as int]@));
        i = i + 1;
    }
    r
}

/// Splits the file arguments of the command line: when the last one names a
/// service and is not an existing file (`last_is_file` tells), it picks the
/// service for this upload and the others are the files; otherwise every
/// argument is a file and the configured service is used.
pub fn split_service_argument(args: &Vec<String>, last_is_file: bool) -> (r: UploadArgs)
    ensures
        names_trailing_service(views(args@), last_is_file) ==> (r.service matches Some(k)
            && api_name(k) == views(args@).last() && views(r.files@) == views(args@).drop_last()),
        !names_trailing_service(views(args@), last_is_file) ==> (r.service is None && views(
            r.files@,
        ) == views(args@)),
{
    let n: usize = args.len();
    if n > 0 && !last_is_file {
        assert(views(args@).last() == args@[n - 1]@);
        match select_api(args[n - 1].as_str()) {
            Ok(k) => {
                let files = copy_prefix(args, n - 1);
                assert(views(args@).take(n - 1) =~= views(args@).drop_last());
                return UploadArgs { files, service: Some(k) };
            },
            Err(_) => {},
        }
    }
    let files = copy_prefix(args, n);
    assert(views(args@).take(n as int) =~= views(args@));
    UploadArgs { files, service: None }
}

/// The service an upload goes to: the one picked on the command line, or
/// else the configured one.
pub fn effective_service(picked: Option<ApiKind>, configured: &str) -> (r: Result<
    ApiKind,
    UploadError,
>)
    ensures
        picked matches Some(k) ==> r == Ok::<ApiKind, UploadError>(k),
        picked is None ==> {
            &&& (r is Ok <==> is_supported(configured@))
            &&& (r matches Ok(k) ==> api_name(k) == configured@)
            &&& (r matches Err(e) ==> e matches UploadError::UnsupportedApiType(name)
                && name@ == configured@)
        },
{
    match picked {
        Some(k) => Ok(k),
        None => select_api(configured),
    }
}

} // verus!
