//! Which files an upload takes: expanding the command-line arguments, the
//! files a service refuses, and what is left once the user agrees to go on
//! without them.

use vstd::prelude::*;
use crate::api::ApiKind;
use crate::paths::{extension, path_extension};
use crate::text::{has_prefix, lowercase, same_text, to_lowercase, trimmed, trim_whitespace};

verus! {

/// A file chosen for upload: its path and its size in bytes.
pub struct FileEntry {
    pub path: String,
    pub size: u64,
}

impl Clone for FileEntry {
    fn clone(&self) -> (c: Self)
        ensures
            c == *self,
    {
        FileEntry { path: self.path.clone(), size: self.size }
    }
}

/// Why a service refuses a file.
#[derive(Debug, PartialEq, Eq)]
pub enum Reason {
    /// Litterbox refuses executables, Java archives and `doc*` files; the
    /// extension is given in lowercase.
    UnsupportedExtension(String),
    /// Litterbox takes files of at most 1 GiB.
    LargerThanOneGigabyte,
    /// Bashupload takes files of at most 50 GiB.
    LargerThanFiftyGigabytes,
}

/// The mathematical form of a [`Reason`].
pub enum ReasonView {
    UnsupportedExtension(Seq<char>),
    LargerThanOneGigabyte,
    LargerThanFiftyGigabytes,
}

impl View for Reason {
    type V = ReasonView;

    open spec fn view(&self) -> ReasonView {
        match self {
            Reason::UnsupportedExtension(e) => ReasonView::UnsupportedExtension(e@),
            Reason::LargerThanOneGigabyte => ReasonView::LargerThanOneGigabyte,
            Reason::LargerThanFiftyGigabytes => ReasonView::LargerThanFiftyGigabytes,
        }
    }
}

/// A refused file and why it is refused.
pub struct Incompatibility {
    pub path: String,
    pub reason: Reason,
}

/// The path and reason of a refusal.
pub open spec fn inc_view(i: Incompatibility) -> (Seq<char>, ReasonView) {
    (i.path@, i.reason@)
}

/// The paths and reasons of a list of refusals.
pub open spec fn inc_views(s: Seq<Incompatibility>) -> Seq<(Seq<char>, ReasonView)> {
    s.map_values(|i: Incompatibility| inc_view(i))
}

/// The largest file litterbox takes: 1 GiB.
pub open spec fn litterbox_limit() -> u64 {
    1_073_741_824
}

/// The largest file bashupload takes: 50 GiB.
pub open spec fn bashupload_limit() -> u64 {
    53_687_091_200
}

/// The extension of a path in lowercase, or the empty string when the path
/// has none.
pub open spec fn extension_key(path: Seq<char>) -> Seq<char> {
    lowercase(
        match path_extension(path) {
            Some(e) => e,
            None => Seq::<char>::empty(),
        },
    )
}

/// The extensions litterbox refuses: `exe`, `scr`, `cpl`, `jar`, and every
/// extension that begins with `doc`.
pub open spec fn refused_extension(ext: Seq<char>) -> bool {
    ||| ext == "exe"@
    ||| ext == "scr"@
    ||| ext == "cpl"@
    ||| ext == "jar"@
    ||| ("doc"@.len() <= ext.len() && ext.subrange(0, "doc"@.len() as int) == "doc"@)
}

/// Why a service refuses one file, in the order the checks run: extension
/// first, then size.
pub open spec fn file_reasons(kind: ApiKind, path: Seq<char>, size: u64) -> Seq<ReasonView> {
    match kind {
        ApiKind::Litterbox => (if refused_extension(extension_key(path)) {
            seq![ReasonView::UnsupportedExtension(extension_key(path))]
        } else {
            Seq::<ReasonView>::empty()
        }) + (if size > litterbox_limit() {
            seq![ReasonView::LargerThanOneGigabyte]
        } else {
            Seq::<ReasonView>::empty()
        }),
        ApiKind::Bashupload => if size > bashupload_limit() {
            seq![ReasonView::LargerThanFiftyGigabytes]
        } else {
            Seq::<ReasonView>::empty()
        },
        _ => Seq::<ReasonView>::empty(),
    }
}

/// Every refusal for a list of files, file by file.
pub open spec fn expected_incompatibilities(kind: ApiKind, files: Seq<FileEntry>) -> Seq<
    (Seq<char>, ReasonView),
>
    decreases files.len(),
{
    if files.len() == 0 {
        Seq::empty()
    } else {
        let f = files.last();
        expected_incompatibilities(kind, files.drop_last()) + file_reasons(
            kind,
            f.path@,
            f.size,
        ).map_values(|r: ReasonView| (f.path@, r))
    }
}

/// The services that check files before uploading them.
pub open spec fn service_checks_files(kind: ApiKind) -> bool {
    kind == ApiKind::Litterbox || kind == ApiKind::Bashupload
}

/// Whether the service checks files before uploading them (litterbox and
/// bashupload do); for the others every file is uploaded as it is.
pub fn checks_files(kind: ApiKind) -> (r: bool)
    ensures
        r == service_checks_files(kind),
{
    kind == ApiKind::Litterbox || kind == ApiKind::Bashupload
}

/// Whether litterbox refuses a file with this (lowercase) extension.
fn is_refused_extension(ext: &str) -> (r: bool)
    ensures
        r == refused_extension(ext@),
{
    same_text(ext, "exe") || same_text(ext, "scr") || same_text(ext, "cpl") || same_text(
        ext,
        "jar",
    ) || has_prefix(ext, "doc")
}

/// Every file that the service refuses, with the reason; a file refused for
/// two reasons appears twice.
pub fn incompatibilities(kind: ApiKind, files: &Vec<FileEntry>) -> (r: Vec<Incompatibility>)
    ensures
        inc_views(r@) == expected_incompatibilities(kind, files@),
{
    let mut r: Vec<Incompatibility> = Vec::new();
    let n: usize = files.len();
    let mut i: usize = 0;
    while i < n
        invariant
            n == files@.len(),
            i <= n,
            inc_views(r@) == expected_incompatibilities(kind, files@.take(i as int)),
        decreases n - i,
    {
        let f = &files[i];
        let ghost before = r@;
        match kind {
            ApiKind::Litterbox => {
                let ext = match extension(f.path.as_str()) {
                    Some(e) => e,
                    None => String::new(),
                };
                let lower = to_lowercase(ext.as_str());
                let refused = is_refused_extension(lower.as_str());
                if refused {
                    r.push(
                        Incompatibility {
                            path: f.path.clone(),
                            reason: Reason::UnsupportedExtension(lower),
                        },
                    );
                }
                if f.size > 1_073_741_824 {
                    r.push(
                        Incompatibility {
                            path: f.path.clone(),
                            reason: Reason::LargerThanOneGigabyte,
                        },
                    );
                }
            },
            ApiKind::Bashupload => {
                if f.size > 53_687_091_200 {
                    r.push(
                        Incompatibility {
                            path: f.path.clone(),
                            reason: Reason::LargerThanFiftyGigabytes,
                        },
                    );
                }
            },
            _ => {},
        }
        proof {
            let fe = files@[i as int];
            let added = file_reasons(kind, fe.path@, fe.size).map_values(
                |x: ReasonView| (fe.path@, x),
            );
            assert(files@.take(i + 1).drop_last() =~= files@.take(i as int));
            assert(files@.take(i + 1).last() == fe);
            assert(r@.subrange(0, before.len() as int) =~= before);
            assert(inc_views(r@) =~= inc_views(before) + added);
        }
        i = i + 1;
    }
    assert(files@.take(n as int) =~= files@);
    r
}

} // verus!

verus! {

/// What to do once the files have been checked against the service.
#[derive(Clone, Copy, PartialEq, Eq, Structural, Debug)]
pub enum Review {
    /// Nothing was refused: upload every file.
    UploadAll,
    /// As many refusals as files: upload nothing.
    CancelAll,
    /// Some were refused: ask whether to go on without them.
    AskUser,
}

/// The decision after checking: no refusal uploads everything; as many
/// refusals as files (counted per refusal, not per file) cancels; anything
/// else asks the user.
pub fn review(file_count: usize, refusal_count: usize) -> (r: Review)
    ensures
        refusal_count == 0 ==> r == Review::UploadAll,
        refusal_count != 0 && refusal_count == file_count ==> r == Review::CancelAll,
        refusal_count != 0 && refusal_count != file_count ==> r == Review::AskUser,
{
    if refusal_count == 0 {
        Review::UploadAll
    } else if refusal_count == file_count {
        Review::CancelAll
    } else {
        Review::AskUser
    }
}

/// Whether an answer to the question agrees to go on: it does when, trimmed
/// and in lowercase, it is exactly `y`.
pub open spec fn agrees(answer: Seq<char>) -> bool {
    lowercase(trim_whitespace(answer)) == "y"@
}

/// Whether the user's answer agrees to go on without the refused files.
pub fn confirmed(answer: &str) -> (r: bool)
    ensures
        r == agrees(answer@),
{
    let t = trimmed(answer);
    let l = to_lowercase(t.as_str());
    same_text(l.as_str(), "y")
}

/// The paths of a list of refusals.
pub open spec fn refused_paths(refused: Seq<Incompatibility>) -> Seq<Seq<char>> {
    refused.map_values(|i: Incompatibility| i.path@)
}

/// The files that no refusal names, in the order they were given.
pub open spec fn kept_files(files: Seq<FileEntry>, refused: Seq<Seq<char>>) -> Seq<FileEntry>
    decreases files.len(),
{
    if files.len() == 0 {
        Seq::empty()
    } else {
        kept_files(files.drop_last(), refused) + (if refused.contains(files.last().path@) {
            Seq::<FileEntry>::empty()
        } else {
            seq![files.last()]
        })
    }
}

/// Whether some refusal names this path.
fn is_refused(path: &str, refused: &Vec<Incompatibility>) -> (r: bool)
    ensures
        r == refused_paths(refused@).contains(path@),
{
    let n: usize = refused.len();
    let mut i: usize = 0;
    while i < n
        invariant
            n == refused@.len(),
            i <= n,
            forall|j: int| 0 <= j < i ==> refused@[j].path@ != path@,
        decreases n - i,
    {
        if same_text(refused[i].path.as_str(), path) {
            assert(refused_paths(refused@)[i as int] == path@);
            return true;
        }
        i = i + 1;
    }
    proof {
        if refused_paths(refused@).contains(path@) {
            let j = choose|j: int|
                0 <= j < refused_paths(refused@).len() && refused_paths(refused@)[j] == path@;
            assert(refused@[j].path@ == path@);
        }
    }
    false
}

/// The files left once every refused one is dropped.
pub fn without_refused(files: &Vec<FileEntry>, refused: &Vec<Incompatibility>) -> (r: Vec<
    FileEntry,
>)
    ensures
        r@ == kept_files(files@, refused_paths(refused@)),
{
    let mut r: Vec<FileEntry> = Vec::new();
    let n: usize = files.len();
    let mut i: usize = 0;
    while i < n
        invariant
            n == files@.len(),
            i <= n,
            r@ == kept_files(files@.take(i as int), refused_paths(refused@)),
        decreases n - i,
    {
        let ghost before = r@;
        if !is_refused(files[i].path.as_str(), refused) {
            r.push(files[i].clone());
        }
        proof {
            assert(files@.take(i + 1).drop_last() =~= files@.take(i as int));
            assert(files@.take(i + 1).last() == files@[i as int]);
            assert(r@ =~= kept_files(files@.take(i + 1), refused_paths(refused@)));
        }
        i = i + 1;
    }
    assert(files@.take(n as int) =~= files@);
    r
}

/// The argument that stands for every file of the current directory.
pub open spec fn wildcard() -> Seq<char> {
    "*"@
}

/// Whether an argument stands for every file of the current directory.
pub fn is_wildcard(arg: &str) -> (r: bool)
    ensures
        r == (arg@ == wildcard()),
{
    same_text(arg, "*")
}

/// The views of a list of strings.
pub open spec fn views(s: Seq<String>) -> Seq<Seq<char>> {
    s.map_values(|x: String| x@)
}

/// The paths the first `n` arguments give: the wildcard gives every file of
/// the directory listing, an argument naming an existing file gives itself,
/// any other argument gives nothing.
pub open spec fn gathered(
    args: Seq<Seq<char>>,
    is_file: Seq<bool>,
    listing: Seq<Seq<char>>,
    n: nat,
) -> Seq<Seq<char>>
    decreases n,
{
    if n == 0 {
        Seq::empty()
    } else {
        let a = args[n - 1];
        gathered(args, is_file, listing, (n - 1) as nat) + (if a == wildcard() {
            listing
        } else if is_file[n - 1] {
            seq![a]
        } else {
            Seq::<Seq<char>>::empty()
        })
    }
}

/// The arguments among the first `n` that are neither the wildcard nor an
/// existing file.
pub open spec fn not_found(args: Seq<Seq<char>>, is_file: Seq<bool>, n: nat) -> Seq<Seq<char>>
    decreases n,
{
    if n == 0 {
        Seq::empty()
    } else {
        let a = args[n - 1];
        not_found(args, is_file, (n - 1) as nat) + (if a != wildcard() && !is_file[n - 1] {
            seq![a]
        } else {
            Seq::<Seq<char>>::empty()
        })
    }
}

/// The files the arguments name, and the arguments that name no file.
pub struct Gathered {
    pub paths: Vec<String>,
    pub missing: Vec<String>,
}

/// Expands the command-line arguments into the files to upload. `is_file[i]`
/// tells whether `args[i]` names an existing regular file; `listing` holds the
/// regular files of the current directory, which every wildcard argument
/// stands for.
pub fn gather_files(args: &Vec<String>, is_file: &Vec<bool>, listing: &Vec<String>) -> (r:
    Gathered)
    requires
        args@.len() == is_file@.len(),
    ensures
        views(r.paths@) == gathered(views(args@), is_file@, views(listing@), args@.len()),
        views(r.missing@) == not_found(views(args@), is_file@, args@.len()),
{
    let mut paths: Vec<String> = Vec::new();
    let mut missing: Vec<String> = Vec::new();
    let n: usize = args.len();
    let m: usize = listing.len();
    let ghost a = views(args@);
    let ghost l = views(listing@);
    let mut i: usize = 0;
    while i < n
        invariant
            n == args@.len(),
            n == is_file@.len(),
            m == listing@.len(),
            a == views(args@),
            l == views(listing@),
            i <= n,
            views(paths@) == gathered(a, is_file@, l, i as nat),
            views(missing@) == not_found(a, is_file@, i as nat),
        decreases n - i,
    {
        let ghost before = views(paths@);
        let ghost missing_before = views(missing@);
        let arg = &args[i];
        assert(a[i as int] == arg@);
        if is_wildcard(arg.as_str()) {
            let mut j: usize = 0;
            while j < m
                invariant
                    m == listing@.len(),
                    l == views(listing@),
                    j <= m,
                    views(paths@) == before + l.take(j as int),
                decreases m - j,
            {
                let ghost prev = paths@;
                paths.push(listing[j].clone());
                assert(views(paths@) =~= views(prev).push(listing@[j as int]@));
                assert(l[j as int] == listing@[j as int]@);
                assert(l.take(j + 1) =~= l.take(j as int).push(l[j as int]));
                assert(views(paths@) =~= before + l.take(j + 1));
                j = j + 1;
            }
            assert(l.take(m as int) =~= l);
            assert(views(missing@) =~= missing_before);
        } else if is_file[i] {
            paths.push(arg.clone());
            assert(views(paths@) =~= before + seq![a[i as int]]);
            assert(views(missing@) =~= missing_before);
        } else {
            missing.push(arg.clone());
            assert(views(missing@) =~= missing_before + seq![a[i as int]]);
            assert(views(paths@) =~= before);
        }
        i = i + 1;
    }
    Gathered { paths, missing }
}

} // verus!
