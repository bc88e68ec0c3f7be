//! Properties that hold across the library's functions.

use vstd::prelude::*;
use crate::api::{ApiKind, api_name, is_supported, lemma_api_names_distinct, service_order};
use crate::config::{default_upload_time, time_key, time_or};
use crate::files::{
    FileEntry, ReasonView, agrees, expected_incompatibilities, extension_key, service_checks_files, file_reasons, gathered, kept_files,
    not_found, wildcard,
};
use crate::menu::{chosen_options, main_prompt_text, time_choices};
use crate::paths::{
    extension_of, final_name, last_dot, lemma_last_dot, lemma_last_slash_is, path_extension,
};
use crate::text::{is_white_space, lowercase, trim_end, trim_start, trim_whitespace};

verus! {

/// An option table gives back what was last stored under a key, and storing
/// under one key leaves every other key as it was.
pub proof fn law_option_read_back(
    options: Map<Seq<char>, Seq<char>>,
    key: Seq<char>,
    value: Seq<char>,
    other: Seq<char>,
)
    ensures
        options.insert(key, value).contains_key(key),
        options.insert(key, value)[key] == value,
        other != key ==> options.insert(key, value).contains_key(other) == options.contains_key(
            other,
        ),
        other != key && options.contains_key(other) ==> options.insert(key, value)[other]
            == options[other],
{
}

/// A service's name selects that service and no other: naming a service in
/// the configuration and selecting the API from that name gives it back.
pub proof fn law_name_selects_its_service(kind: ApiKind, selected: ApiKind)
    requires
        api_name(selected) == api_name(kind),
    ensures
        selected == kind,
{
    lemma_api_names_distinct();
}

/// Every service the configuration menu offers, and the service of the
/// default configuration, can be selected for upload: their names are ones
/// `select_api` accepts.
pub proof fn law_offered_services_are_selectable(i: int)
    requires
        0 <= i < 4,
    ensures
        is_supported(api_name(service_order()[i])),
        is_supported("litterbox"@),
{
    assert(api_name(ApiKind::Litterbox) == "litterbox"@);
}

/// In the status report, at most one service is marked as configured, and
/// exactly one when the configured API type names a service.
pub proof fn law_one_configured_service(configured: Seq<char>)
    ensures
        forall|i: int, j: int|
            0 <= i < j < 4 ==> !(api_name(#[trigger] service_order()[i]) == configured
                && api_name(#[trigger] service_order()[j]) == configured),
        (exists|k: ApiKind| api_name(k) == configured) ==> exists|i: int|
            0 <= i < 4 && api_name(#[trigger] service_order()[i]) == configured,
{
    lemma_api_names_distinct();
    if exists|k: ApiKind| api_name(k) == configured {
        let k = choose|k: ApiKind| api_name(k) == configured;
        match k {
            ApiKind::Litterbox => assert(service_order()[0] == k),
            ApiKind::TempSh => assert(service_order()[1] == k),
            ApiKind::Uguu => assert(service_order()[2] == k),
            ApiKind::Bashupload => assert(service_order()[3] == k),
        }
    }
}

/// The expiry time chosen in the menu for litterbox is the one sent with
/// every litterbox upload; without a choice (as in the default
/// configuration) uploads are sent with `1h`.
pub proof fn law_chosen_time_is_sent(t: usize)
    requires
        t < 4,
    ensures
        time_or(chosen_options(ApiKind::Litterbox, Some(t)), default_upload_time())
            == time_choices()[t as int],
        time_or(Map::<Seq<char>, Seq<char>>::empty(), default_upload_time()) == "1h"@,
{
}

/// Services other than litterbox keep no options after a choice in the menu,
/// so a time chosen earlier does not survive a change of service.
pub proof fn law_other_services_drop_the_time(kind: ApiKind, t: Option<usize>)
    requires
        kind != ApiKind::Litterbox,
    ensures
        !chosen_options(kind, t).contains_key(time_key()),
{
}

/// temp.sh and uguu refuse no file.
pub proof fn law_unchecked_services_refuse_nothing(kind: ApiKind, files: Seq<FileEntry>)
    requires
        kind == ApiKind::TempSh || kind == ApiKind::Uguu,
    ensures
        expected_incompatibilities(kind, files).len() == 0,
    decreases files.len(),
{
    if files.len() > 0 {
        law_unchecked_services_refuse_nothing(kind, files.drop_last());
        let f = files.last();
        assert(file_reasons(kind, f.path@, f.size).len() == 0);
    }
}

/// Every refusal names a file that was checked, and the file's size or
/// extension is the reason.
pub proof fn law_refusals_name_checked_files(kind: ApiKind, files: Seq<FileEntry>)
    ensures
        forall|i: int|
            0 <= i < expected_incompatibilities(kind, files).len() ==> exists|j: int|
                0 <= j < files.len() && files[j].path@ == (
                #[trigger] expected_incompatibilities(kind, files)[i]).0
                    && file_reasons(kind, files[j].path@, files[j].size).contains(
                    expected_incompatibilities(kind, files)[i].1,
                ),
    decreases files.len(),
{
    if files.len() > 0 {
        let p = files.drop_last();
        law_refusals_name_checked_files(kind, p);
        let f = files.last();
        let head = expected_incompatibilities(kind, p);
        let added = file_reasons(kind, f.path@, f.size).map_values(|r: ReasonView| (f.path@, r));
        let all = expected_incompatibilities(kind, files);
        assert(all == head + added);
        assert forall|i: int| 0 <= i < all.len() implies exists|j: int|
            0 <= j < files.len() && files[j].path@ == (#[trigger] all[i]).0
                && file_reasons(kind, files[j].path@, files[j].size).contains(all[i].1) by {
            if i < head.len() {
                assert(all[i] == head[i]);
                let j = choose|j: int|
                    0 <= j < p.len() && p[j].path@ == head[i].0 && file_reasons(
                        kind,
                        p[j].path@,
                        p[j].size,
                    ).contains(head[i].1);
                assert(files[j] == p[j]);
            } else {
                let k = i - head.len();
                assert(all[i] == added[k]);
                let rs = file_reasons(kind, f.path@, f.size);
                assert(rs[k] == all[i].1);
                assert(files[files.len() - 1] == f);
            }
        }
    }
}

/// Going on without the refused files uploads exactly the files whose path
/// no refusal names.
pub proof fn law_kept_files_are_the_unrefused(
    files: Seq<FileEntry>,
    refused: Seq<Seq<char>>,
    f: FileEntry,
)
    ensures
        kept_files(files, refused).contains(f) <==> (files.contains(f) && !refused.contains(
            f.path@,
        )),
    decreases files.len(),
{
    if files.len() > 0 {
        let p = files.drop_last();
        law_kept_files_are_the_unrefused(p, refused, f);
        let last = files.last();
        let tail = if refused.contains(last.path@) {
            Seq::<FileEntry>::empty()
        } else {
            seq![last]
        };
        let k = kept_files(files, refused);
        assert(k == kept_files(p, refused) + tail);
        if k.contains(f) {
            let i = choose|i: int| 0 <= i < k.len() && k[i] == f;
            if i < kept_files(p, refused).len() {
                assert(kept_files(p, refused)[i] == f);
                let j = choose|j: int| 0 <= j < p.len() && p[j] == f;
                assert(files[j] == f);
            } else {
                assert(tail[i - kept_files(p, refused).len()] == f);
                assert(files[files.len() - 1] == f);
            }
        }
        if files.contains(f) && !refused.contains(f.path@) {
            let j = choose|j: int| 0 <= j < files.len() && files[j] == f;
            if j < p.len() {
                assert(p[j] == f);
                let i = choose|i: int|
                    0 <= i < kept_files(p, refused).len() && kept_files(p, refused)[i] == f;
                assert(k[i] == f);
            } else {
                assert(last == f);
                assert(k[k.len() - 1] == f);
            }
        }
    }
}

/// Without wildcard arguments, every argument either gives its file or is
/// reported as not found, and never both.
pub proof fn law_arguments_are_accounted_for(
    args: Seq<Seq<char>>,
    is_file: Seq<bool>,
    listing: Seq<Seq<char>>,
    n: nat,
)
    requires
        n <= args.len(),
        n <= is_file.len(),
        forall|i: int| 0 <= i < n ==> args[i] != wildcard(),
    ensures
        gathered(args, is_file, listing, n).len() + not_found(args, is_file, n).len() == n,
    decreases n,
{
    if n > 0 {
        law_arguments_are_accounted_for(args, is_file, listing, (n - 1) as nat);
    }
}

/// A file name with an extension is a non-empty stem, a `.`, and the
/// extension, which holds no `.`.
pub proof fn law_extension_follows_last_dot(name: Seq<char>)
    ensures
        extension_of(name) matches Some(e) ==> {
            &&& e.len() < name.len()
            &&& name == name.subrange(0, name.len() - e.len() - 1) + seq!['.'] + e
            &&& name.len() - e.len() - 1 > 0
            &&& forall|i: int| 0 <= i < e.len() ==> e[i] != '.'
        },
    decreases name.len(),
{
    lemma_last_dot(name);
    if extension_of(name) is Some {
        let d = last_dot(name);
        let e = name.subrange(d + 1, name.len() as int);
        assert(name =~= name.subrange(0, d) + seq!['.'] + e);
    }
}

/// Every reason a checked file is refused for appears in the list of
/// refusals, paired with the file's path.
proof fn lemma_reasons_listed(kind: ApiKind, files: Seq<FileEntry>, j: int, k: int)
    requires
        0 <= j < files.len(),
        0 <= k < file_reasons(kind, files[j].path@, files[j].size).len(),
    ensures
        expected_incompatibilities(kind, files).contains(
            (files[j].path@, file_reasons(kind, files[j].path@, files[j].size)[k]),
        ),
    decreases files.len(),
{
    let p = files.drop_last();
    let f = files.last();
    let head = expected_incompatibilities(kind, p);
    let added = file_reasons(kind, f.path@, f.size).map_values(|r: ReasonView| (f.path@, r));
    let all = expected_incompatibilities(kind, files);
    assert(all == head + added);
    if j < files.len() - 1 {
        assert(p[j] == files[j]);
        lemma_reasons_listed(kind, p, j, k);
        let i = choose|i: int|
            0 <= i < head.len() && head[i] == (p[j].path@, file_reasons(
                kind,
                p[j].path@,
                p[j].size,
            )[k]);
        assert(all[i] == head[i]);
    } else {
        assert(files[j] == f);
        assert(all[head.len() + k] == added[k]);
    }
}

/// Litterbox refuses every file whose extension, in lowercase, is `exe`,
/// `scr`, `cpl` or `jar` or begins with `doc`, whatever directory its path
/// names (`./setup.exe`, `Downloads/setup.exe` as well as `setup.exe`): the
/// list of refusals holds the file's path with that lowercase extension, and
/// it is the first reason given for the file.
pub proof fn law_litterbox_refuses_by_extension(files: Seq<FileEntry>, j: int, e: Seq<char>)
    requires
        0 <= j < files.len(),
        path_extension(files[j].path@) == Some(e),
        ({
            let l = lowercase(e);
            ||| l == "exe"@
            ||| l == "scr"@
            ||| l == "cpl"@
            ||| l == "jar"@
            ||| (l.len() >= 3 && l[0] == 'd' && l[1] == 'o' && l[2] == 'c')
        }),
    ensures
        file_reasons(ApiKind::Litterbox, files[j].path@, files[j].size).len() >= 1,
        file_reasons(ApiKind::Litterbox, files[j].path@, files[j].size)[0]
            == ReasonView::UnsupportedExtension(lowercase(e)),
        expected_incompatibilities(ApiKind::Litterbox, files).contains(
            (files[j].path@, ReasonView::UnsupportedExtension(lowercase(e))),
        ),
{
    reveal_strlit("doc");
    let l = lowercase(e);
    if l.len() >= 3 && l[0] == 'd' && l[1] == 'o' && l[2] == 'c' {
        assert(l.subrange(0, 3) =~= "doc"@);
    }
    lemma_reasons_listed(ApiKind::Litterbox, files, j, 0);
}

/// Litterbox refuses a file only for its extension, when that extension in
/// lowercase is `exe`, `scr`, `cpl`, `jar` or begins with `doc`, and for a
/// size over 1 GiB (1073741824 bytes), in that order; bashupload refuses a
/// file only for a size over 50 GiB (53687091200 bytes).
pub proof fn law_reasons_of_a_file(path: Seq<char>, size: u64)
    ensures
        ({
            let l = lowercase(
                match path_extension(path) {
                    Some(e) => e,
                    None => Seq::<char>::empty(),
                },
            );
            let bad = l == "exe"@ || l == "scr"@ || l == "cpl"@ || l == "jar"@ || (l.len() >= 3
                && l[0] == 'd' && l[1] == 'o' && l[2] == 'c');
            file_reasons(ApiKind::Litterbox, path, size) == (if bad {
                seq![ReasonView::UnsupportedExtension(l)]
            } else {
                Seq::<ReasonView>::empty()
            }) + (if size > 1073741824u64 {
                seq![ReasonView::LargerThanOneGigabyte]
            } else {
                Seq::<ReasonView>::empty()
            })
        }),
        file_reasons(ApiKind::Bashupload, path, size) == (if size > 53687091200u64 {
            seq![ReasonView::LargerThanFiftyGigabytes]
        } else {
            Seq::<ReasonView>::empty()
        }),
{
    reveal_strlit("doc");
    let l = extension_key(path);
    if l.len() >= 3 && l[0] == 'd' && l[1] == 'o' && l[2] == 'c' {
        assert(l.subrange(0, 3) =~= "doc"@);
    }
    if l.len() >= 3 && l.subrange(0, 3) == "doc"@ {
        assert(l[0] == l.subrange(0, 3)[0]);
        assert(l[1] == l.subrange(0, 3)[1]);
        assert(l[2] == l.subrange(0, 3)[2]);
    }
}

/// Each argument adds to what the arguments before it gave: `*` adds the
/// whole directory listing, an existing file adds itself (whatever directory
/// its path names), and any other argument adds nothing and is reported as
/// not found; nothing else is reported.
pub proof fn law_each_argument_counts(
    args: Seq<Seq<char>>,
    is_file: Seq<bool>,
    listing: Seq<Seq<char>>,
    i: nat,
)
    requires
        i < args.len(),
        i < is_file.len(),
    ensures
        args[i as int] == "*"@ ==> gathered(args, is_file, listing, i + 1) == gathered(
            args,
            is_file,
            listing,
            i,
        ) + listing && not_found(args, is_file, i + 1) == not_found(args, is_file, i),
        args[i as int] != "*"@ && is_file[i as int] ==> gathered(args, is_file, listing, i + 1)
            == gathered(args, is_file, listing, i).push(args[i as int]) && not_found(
            args,
            is_file,
            i + 1,
        ) == not_found(args, is_file, i),
        args[i as int] != "*"@ && !is_file[i as int] ==> gathered(args, is_file, listing, i + 1)
            == gathered(args, is_file, listing, i) && not_found(args, is_file, i + 1) == not_found(
            args,
            is_file,
            i,
        ).push(args[i as int]),
{
    assert(wildcard() == "*"@);
    let g = gathered(args, is_file, listing, i);
    let m = not_found(args, is_file, i);
    assert(g + Seq::<Seq<char>>::empty() =~= g);
    assert(m + Seq::<Seq<char>>::empty() =~= m);
    assert(g + seq![args[i as int]] =~= g.push(args[i as int]));
    assert(m + seq![args[i as int]] =~= m.push(args[i as int]));
}

/// An answer agrees to go on exactly when, with its outer white space
/// removed and put in lowercase, it is the single letter `y`.
pub proof fn law_agreement_is_a_lone_y(answer: Seq<char>)
    ensures
        agrees(answer) <==> lowercase(trim_whitespace(answer)) == "y"@,
{
}

/// The leading white space of a string: the number of white-space
/// characters it begins with.
proof fn lemma_trim_start_at(s: Seq<char>) -> (i: int)
    ensures
        0 <= i <= s.len(),
        trim_start(s) == s.subrange(i, s.len() as int),
        forall|k: int| 0 <= k < i ==> is_white_space(s[k]),
        i < s.len() ==> !is_white_space(s[i]),
    decreases s.len(),
{
    if s.len() > 0 && is_white_space(s[0]) {
        let t = s.drop_first();
        let i = lemma_trim_start_at(t);
        assert(t.subrange(i, t.len() as int) =~= s.subrange(i + 1, s.len() as int));
        assert forall|k: int| 0 <= k < i + 1 implies is_white_space(s[k]) by {
            if k > 0 {
                assert(s[k] == t[k - 1]);
            }
        }
        if i + 1 < s.len() {
            assert(s[i + 1] == t[i]);
        }
        i + 1
    } else {
        assert(s.subrange(0, s.len() as int) =~= s);
        0
    }
}

/// Where the trailing white space of a string begins.
proof fn lemma_trim_end_at(s: Seq<char>) -> (j: int)
    ensures
        0 <= j <= s.len(),
        trim_end(s) == s.subrange(0, j),
        forall|k: int| j <= k < s.len() ==> is_white_space(s[k]),
        j > 0 ==> !is_white_space(s[j - 1]),
    decreases s.len(),
{
    if s.len() > 0 && is_white_space(s.last()) {
        let t = s.drop_last();
        let j = lemma_trim_end_at(t);
        assert(t.subrange(0, j) =~= s.subrange(0, j));
        assert forall|k: int| j <= k < s.len() implies is_white_space(s[k]) by {
            if k < s.len() - 1 {
                assert(s[k] == t[k]);
            }
        }
        if j > 0 {
            assert(s[j - 1] == t[j - 1]);
        }
        j
    } else {
        assert(s.subrange(0, s.len() as int) =~= s);
        s.len() as int
    }
}

/// Trimming removes white space from both ends and nothing else: what is left
/// is a contiguous part of the string that neither begins nor ends with white
/// space, and everything removed before and after it is white space.
pub proof fn law_trim_removes_only_outer_white_space(s: Seq<char>)
    ensures
        exists|i: int, j: int|
            {
                &&& 0 <= i <= j <= s.len()
                &&& trim_whitespace(s) == s.subrange(i, j)
                &&& forall|k: int| 0 <= k < i ==> is_white_space(#[trigger] s[k])
                &&& forall|k: int| j <= k < s.len() ==> is_white_space(#[trigger] s[k])
                &&& i < j ==> !is_white_space(s[i]) && !is_white_space(s[j - 1])
            },
{
    let i = lemma_trim_start_at(s);
    let t = s.subrange(i, s.len() as int);
    let j = lemma_trim_end_at(t);
    assert(t.subrange(0, j) =~= s.subrange(i, i + j));
    assert forall|k: int| i + j <= k < s.len() implies is_white_space(#[trigger] s[k]) by {
        assert(s[k] == t[k - i]);
    }
    if j > 0 {
        assert(s[i] == t[0]);
        assert(s[i + j - 1] == t[j - 1]);
        if !is_white_space(t[0]) {
        } else {
            assert(i < s.len());
        }
    }
    assert({
        &&& 0 <= i <= i + j <= s.len()
        &&& trim_whitespace(s) == s.subrange(i, i + j)
        &&& forall|k: int| 0 <= k < i ==> is_white_space(#[trigger] s[k])
        &&& forall|k: int| i + j <= k < s.len() ==> is_white_space(#[trigger] s[k])
        &&& i < i + j ==> !is_white_space(s[i]) && !is_white_space(s[i + j - 1])
    });
}

/// Letters and digits are never white space; space, tab, line feed and
/// carriage return always are.
pub proof fn law_white_space_characters(c: char)
    ensures
        ('a' <= c <= 'z' || 'A' <= c <= 'Z' || '0' <= c <= '9') ==> !is_white_space(c),
        (c == ' ' || c == '\t' || c == '\n' || c == '\r') ==> is_white_space(c),
{
}

/// The main menu shows the configured time whenever one is set and not
/// empty, and otherwise only the API type.
pub proof fn law_prompt_shows_the_time(api_type: Seq<char>, options: Map<Seq<char>, Seq<char>>)
    ensures
        options.contains_key("time"@) && options["time"@].len() > 0 ==> main_prompt_text(
            api_type,
            options,
        ) == "Current API: "@ + api_type + " (time: "@ + options["time"@] + ")"@,
        !(options.contains_key("time"@) && options["time"@].len() > 0) ==> main_prompt_text(
            api_type,
            options,
        ) == "Current API: "@ + api_type,
{
}

/// The name a file is uploaded under is the last component of its path: for
/// a name `n` that holds no `/` and is neither `.` nor `..`, both `n` and
/// `d/n` (whatever `d` is) give `n`; a trailing `/` changes nothing.
pub proof fn law_file_name_is_the_last_component(d: Seq<char>, n: Seq<char>)
    requires
        n.len() > 0,
        forall|i: int| 0 <= i < n.len() ==> n[i] != '/',
        !(n.len() == 1 && n[0] == '.'),
        !(n.len() == 2 && n[0] == '.' && n[1] == '.'),
    ensures
        final_name(d + seq!['/'] + n) == Some(n),
        final_name(n) == Some(n),
        final_name(d + seq!['/'] + n + seq!['/']) == Some(n),
{
    let p = d + seq!['/'] + n;
    assert(p.subrange(d.len() + 1int, p.len() as int) =~= n);
    assert(p[d.len() as int] == '/');
    lemma_named(p, d.len() as int, n);
    assert(n.subrange(0, n.len() as int) =~= n);
    lemma_named(n, -1, n);
    let q = p + seq!['/'];
    assert(q.drop_last() =~= p);
}

proof fn lemma_named(p: Seq<char>, d: int, n: Seq<char>)
    requires
        n.len() > 0,
        forall|i: int| 0 <= i < n.len() ==> n[i] != '/',
        !(n.len() == 1 && n[0] == '.'),
        !(n.len() == 2 && n[0] == '.' && n[1] == '.'),
        -1 <= d,
        d + 1 + n.len() == p.len(),
        d >= 0 ==> p[d] == '/',
        p.subrange(d + 1, p.len() as int) == n,
    ensures
        final_name(p) == Some(n),
{
    let len = p.len() as int;
    assert forall|j: int| d < j < len implies p[j] != '/' by {
        assert(p[j] == p.subrange(d + 1, len)[j - d - 1]);
    }
    lemma_last_slash_is(p, d);
    assert(p.last() == n[n.len() - 1]);
    if n.len() >= 2 {
        assert(p[len - 2] == n[n.len() - 2]);
    } else if d >= 0 {
        assert(p[len - 2] == '/');
    }
    if n.len() >= 3 {
        assert(p[len - 3] == n[n.len() - 3]);
    } else if n.len() == 2 && d >= 0 {
        assert(p[len - 3] == '/');
    }
}

/// Going on without the refused files keeps the others in the order they
/// were given: exactly the files whose path no refusal names, as filtering
/// the list gives them.
pub proof fn law_kept_files_keep_their_order(files: Seq<FileEntry>, refused: Seq<Seq<char>>)
    ensures
        kept_files(files, refused) == files.filter(|f: FileEntry| !refused.contains(f.path@)),
    decreases files.len(),
{
    reveal(Seq::filter);
    if files.len() > 0 {
        law_kept_files_keep_their_order(files.drop_last(), refused);
        let pred = |f: FileEntry| !refused.contains(f.path@);
        let prev = files.drop_last().filter(pred);
        assert(prev + Seq::<FileEntry>::empty() =~= prev);
        assert(prev + seq![files.last()] =~= prev.push(files.last()));
    }
}

/// A file name has an extension exactly when it has a `.` after its first
/// character, and the extension is what follows the last `.`.
pub proof fn law_extension_after_the_last_dot(name: Seq<char>, d: int)
    requires
        0 <= d < name.len(),
        name[d] == '.',
        forall|j: int| d < j < name.len() ==> name[j] != '.',
    ensures
        d > 0 ==> extension_of(name) == Some(name.subrange(d + 1, name.len() as int)),
        d == 0 ==> extension_of(name) is None,
{
    crate::paths::lemma_last_dot_is_last(name, d);
}

/// A file name without a `.` after its first character has no extension.
pub proof fn law_no_dot_no_extension(name: Seq<char>)
    requires
        forall|j: int| 0 < j < name.len() ==> name[j] != '.',
    ensures
        extension_of(name) is None,
{
    lemma_last_dot(name);
}

} // verus!
