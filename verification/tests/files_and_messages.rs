use rup::api::ApiKind;
use rup::config::Config;
use rup::files::{
    checks_files, confirmed, gather_files, incompatibilities, is_wildcard, review, without_refused, FileEntry,
    Incompatibility, Reason, Review,
};
use rup::paths::{extension, name_extension};
use rup::text::push_decimal;
use rup::upload::{
    failed_message, not_found_message, proceed_prompt, progress_message, refusal_header,
    refusal_line, status_error_message, upload_name, upload_target, uploaded_message,
};

fn entry(path: &str, size: u64) -> FileEntry {
    FileEntry { path: path.to_string(), size }
}

fn reasons(v: &[Incompatibility]) -> Vec<(String, Reason)> {
    v.iter()
        .map(|i| {
            let r = match &i.reason {
                Reason::UnsupportedExtension(e) => Reason::UnsupportedExtension(e.clone()),
                Reason::LargerThanOneGigabyte => Reason::LargerThanOneGigabyte,
                Reason::LargerThanFiftyGigabytes => Reason::LargerThanFiftyGigabytes,
            };
            (i.path.clone(), r)
        })
        .collect()
}

#[test]
fn extensions_follow_the_standard_library() {
    assert_eq!(extension("dir/report.tar.gz"), Some("gz".to_string()));
    assert_eq!(extension("a.txt"), Some("txt".to_string()));
    assert_eq!(extension(".bashrc"), None);
    assert_eq!(extension("..."), Some("".to_string()));
    assert_eq!(extension("noext"), None);
    assert_eq!(extension("dir.d/noext"), None);
    assert_eq!(extension("a/.."), None);
    assert_eq!(name_extension("x."), Some("".to_string()));
    assert_eq!(upload_name("dir/a.txt"), Some("a.txt".to_string()));
    assert_eq!(upload_name("dir/.."), None);
}

#[test]
fn decimal_rendering() {
    let mut s = String::from("n=");
    push_decimal(&mut s, 0);
    assert_eq!(s, "n=0");
    let mut s = String::new();
    push_decimal(&mut s, 9_876_543_210);
    assert_eq!(s, "9876543210");
    let mut s = String::new();
    push_decimal(&mut s, u128::MAX);
    assert_eq!(s, u128::MAX.to_string());
}

#[test]
fn litterbox_refuses_executables_and_large_files() {
    let files = vec![
        entry("a.EXE", 10),
        entry("b.txt", 10),
        entry("c.Docx", 10),
        entry("d.jar", 2_000_000_000),
        entry("e.bin", 1_073_741_824),
        entry("f.bin", 1_073_741_825),
        entry("scr", 1),
        entry("g.scr", 1),
        entry("h.cpl", 1),
        entry("i.do", 1),
    ];
    let r = incompatibilities(ApiKind::Litterbox, &files);
    assert_eq!(
        reasons(&r),
        vec![
            ("a.EXE".to_string(), Reason::UnsupportedExtension("exe".to_string())),
            ("c.Docx".to_string(), Reason::UnsupportedExtension("docx".to_string())),
            ("d.jar".to_string(), Reason::UnsupportedExtension("jar".to_string())),
            ("d.jar".to_string(), Reason::LargerThanOneGigabyte),
            ("f.bin".to_string(), Reason::LargerThanOneGigabyte),
            ("g.scr".to_string(), Reason::UnsupportedExtension("scr".to_string())),
            ("h.cpl".to_string(), Reason::UnsupportedExtension("cpl".to_string())),
        ]
    );
}

#[test]
fn bashupload_refuses_only_files_over_fifty_gigabytes() {
    let files = vec![entry("a.exe", 53_687_091_200), entry("b", 53_687_091_201)];
    let r = incompatibilities(ApiKind::Bashupload, &files);
    assert_eq!(reasons(&r), vec![("b".to_string(), Reason::LargerThanFiftyGigabytes)]);
}

#[test]
fn temp_sh_and_uguu_refuse_nothing() {
    let files = vec![entry("a.exe", u64::MAX)];
    assert!(incompatibilities(ApiKind::TempSh, &files).is_empty());
    assert!(incompatibilities(ApiKind::Uguu, &files).is_empty());
}

#[test]
fn review_decisions() {
    assert_eq!(review(3, 0), Review::UploadAll);
    assert_eq!(review(0, 0), Review::UploadAll);
    assert_eq!(review(3, 3), Review::CancelAll);
    assert_eq!(review(3, 1), Review::AskUser);
    assert_eq!(review(1, 2), Review::AskUser);
}

#[test]
fn refusals_are_counted_per_reason() {
    // One file refused twice, one file fine: two refusals for two files.
    let files = vec![entry("big.exe", 2_000_000_000), entry("ok.txt", 1)];
    let r = incompatibilities(ApiKind::Litterbox, &files);
    assert_eq!(review(files.len(), r.len()), Review::CancelAll);
}

#[test]
fn answers() {
    assert!(confirmed("y"));
    assert!(confirmed("Y\n"));
    assert!(confirmed("  y  \r\n"));
    assert!(!confirmed("yes"));
    assert!(!confirmed("n"));
    assert!(!confirmed(""));
    assert!(!confirmed("y y"));
    assert!(confirmed("\u{3000}y\u{85}\u{2029}"));
    assert!(confirmed("\u{a0}\tY\u{200a}"));
    assert!(!confirmed("\u{200b}y"));
}

#[test]
fn refused_files_are_dropped_in_order() {
    let files = vec![entry("a.exe", 1), entry("b.txt", 2), entry("c.doc", 3), entry("d", 4)];
    let r = incompatibilities(ApiKind::Litterbox, &files);
    let kept = without_refused(&files, &r);
    let paths: Vec<&str> = kept.iter().map(|f| f.path.as_str()).collect();
    assert_eq!(paths, vec!["b.txt", "d"]);
    assert_eq!(kept[1].size, 4);
}

#[test]
fn gathering_arguments() {
    let args = vec!["a.txt".to_string(), "*".to_string(), "missing".to_string(), "b".to_string()];
    let is_file = vec![true, false, false, true];
    let listing = vec!["./x".to_string(), "./y".to_string()];
    let g = gather_files(&args, &is_file, &listing);
    assert_eq!(g.paths, vec!["a.txt", "./x", "./y", "b"]);
    assert_eq!(g.missing, vec!["missing"]);
    assert!(is_wildcard("*"));
    assert!(!is_wildcard("*.png"));
}

#[test]
fn twice_the_wildcard_lists_twice() {
    let args = vec!["*".to_string(), "*".to_string()];
    let g = gather_files(&args, &vec![true, true], &vec!["./x".to_string()]);
    assert_eq!(g.paths, vec!["./x", "./x"]);
    assert!(g.missing.is_empty());
}

#[test]
fn upload_targets() {
    let c = Config::default();
    let t = upload_target(ApiKind::Litterbox, &c.api);
    assert_eq!(t.endpoint, "https://litterbox.catbox.moe/resources/internals/api.php");
    assert_eq!(t.file_field, "fileToUpload");
    let fields: Vec<(String, String)> =
        t.text_fields.iter().map(|f| (f.name.clone(), f.value.clone())).collect();
    assert_eq!(
        fields,
        vec![("reqtype".to_string(), "fileupload".to_string()), ("time".to_string(), "1h".to_string())]
    );
    assert!(t.numbered);
    let t = upload_target(ApiKind::TempSh, &c.api);
    assert_eq!(t.endpoint, "https://temp.sh/upload");
    assert_eq!(t.file_field, "file");
    assert!(t.text_fields.is_empty());
    assert!(!t.numbered);
    let t = upload_target(ApiKind::Bashupload, &c.api);
    assert_eq!(t.endpoint, "https://bashupload.com/");
    assert!(t.steady_tick);
    let t = upload_target(ApiKind::Uguu, &c.api);
    assert_eq!(t.endpoint, "https://uguu.se/upload?output=text");
    assert_eq!(t.file_field, "files[]");
    assert!(t.text_fields.is_empty());
    assert!(t.numbered);
    assert!(!t.steady_tick);
}

#[test]
fn messages() {
    assert_eq!(progress_message(true, 0, 3, "a.txt"), "Uploading 1/3: a.txt");
    assert_eq!(progress_message(true, 11, 12, "b"), "Uploading 12/12: b");
    assert_eq!(progress_message(false, 0, 1, "a.txt"), "Uploading a.txt");
    assert_eq!(
        uploaded_message("a.txt", "  https://x.y/abc\n"),
        "Uploaded a.txt to https://x.y/abc"
    );
    assert_eq!(failed_message("a.txt"), "Failed to upload a.txt");
    assert_eq!(status_error_message("404 Not Found"), "Upload failed with status: 404 Not Found");
    assert_eq!(not_found_message("nope"), "File not found: nope");
    assert_eq!(proceed_prompt(), "Proceed without these files? (y/n): ");
    assert_eq!(
        refusal_header(ApiKind::Litterbox).unwrap(),
        "The following files are incompatible with Litterbox API:"
    );
    assert_eq!(
        refusal_header(ApiKind::Bashupload).unwrap(),
        "The following files are incompatible with bashupload API:"
    );
    assert!(refusal_header(ApiKind::TempSh).is_none());
    let files = vec![entry("x.EXE", 5_000_000_000)];
    let r = incompatibilities(ApiKind::Litterbox, &files);
    assert_eq!(refusal_line(&r[0]), "- x.EXE: Unsupported extension: exe");
    assert_eq!(refusal_line(&r[1]), "- x.EXE: File size > 1GB");
    let r = incompatibilities(ApiKind::Bashupload, &vec![entry("z", u64::MAX)]);
    assert_eq!(refusal_line(&r[0]), "- z: File size > 50GB");
}

#[test]
fn every_plain_argument_is_found_or_reported() {
    let args = vec!["a".to_string(), "b".to_string(), "c".to_string()];
    let g = gather_files(&args, &vec![false, true, false], &vec!["./ignored".to_string()]);
    assert_eq!(g.paths, vec!["b"]);
    assert_eq!(g.missing, vec!["a", "c"]);
    assert_eq!(g.paths.len() + g.missing.len(), args.len());
}

#[test]
fn upload_numbering_runs_from_one_to_total() {
    let total = 3;
    let msgs: Vec<String> = (0..total).map(|i| progress_message(true, i, total, "f")).collect();
    assert_eq!(msgs, vec!["Uploading 1/3: f", "Uploading 2/3: f", "Uploading 3/3: f"]);
}

#[test]
fn kept_files_exclude_every_refused_path() {
    let files = vec![entry("a.jar", 1), entry("b", 2_000_000_000), entry("c", 1)];
    let r = incompatibilities(ApiKind::Litterbox, &files);
    let kept = without_refused(&files, &r);
    assert!(kept.iter().all(|f| r.iter().all(|i| i.path != f.path)));
    assert_eq!(kept.len(), 1);
    assert_eq!(kept[0].path, "c");
    let none: Vec<Incompatibility> = Vec::new();
    assert_eq!(without_refused(&files, &none).len(), 3);
}

#[test]
fn only_litterbox_and_bashupload_check_files() {
    assert!(checks_files(ApiKind::Litterbox));
    assert!(checks_files(ApiKind::Bashupload));
    assert!(!checks_files(ApiKind::TempSh));
    assert!(!checks_files(ApiKind::Uguu));
}

#[test]
fn uploaded_message_trims_unicode_white_space() {
    assert_eq!(
        uploaded_message("f", "\u{feff}https://a/b\u{3000}\n"),
        "Uploaded f to \u{feff}https://a/b"
    );
    assert_eq!(uploaded_message("f", " \t "), "Uploaded f to ");
}
