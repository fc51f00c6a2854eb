use arcwrap::args::{ArcType, ExtractData, ListData};
use arcwrap::extract::{compress_remove_ext, extract};
use arcwrap::library::ArcError;
use arcwrap::list::list;

fn xreq(input: &str, output: Option<&str>, arc_type: Option<ArcType>) -> ExtractData {
    ExtractData {
        input: String::from(input),
        output: output.map(String::from),
        target: Vec::new(),
        arc_type,
    }
}

fn cd() -> String {
    String::from("/work")
}

fn tmp() -> String {
    String::from("/tmp/stage")
}

#[test]
fn extract_refuses_a_missing_archive() {
    let d = xreq("a.zip", None, None);
    let r = extract(&d, false, false, false, &cd(), &tmp());
    assert_eq!(r.unwrap_err(), ArcError::InputNotFound);
}

#[test]
fn extract_zip_into_the_current_directory() {
    let d = xreq("a.zip", None, None);
    let p = extract(&d, true, false, false, &cd(), &tmp()).unwrap();
    assert_eq!(p.plan.steps.len(), 1);
    assert_eq!(p.plan.steps[0].prog, "unzip");
    assert_eq!(p.plan.steps[0].args, vec!["-q", "-d", "/work", "a.zip"]);
    assert!(!p.plan.use_temp_position);
    assert_eq!(p.dest, "/work");
}

#[test]
fn extract_into_a_given_directory_that_must_exist() {
    let d = xreq("a.zip", Some("out"), None);
    let ok = extract(&d, true, true, true, &cd(), &tmp()).unwrap();
    assert_eq!(ok.plan.steps[0].args, vec!["-q", "-d", "out", "a.zip"]);
    let bad = extract(&d, true, false, true, &cd(), &tmp());
    assert_eq!(bad.unwrap_err(), ArcError::OutputPathInvalid);
}

#[test]
fn extract_compressed_tar_uses_the_tar_tool() {
    // in extract mode a compound suffix means plain Tar: the tool detects
    // the inner compression itself
    let d = xreq("a.tar.gz", None, None);
    let p = extract(&d, true, false, false, &cd(), &tmp()).unwrap();
    assert_eq!(p.plan.steps[0].prog, "bsdtar");
    assert_eq!(p.plan.steps[0].args, vec!["-x", "-f", "a.tar.gz", "-C", "/work"]);
}

#[test]
fn extract_members_are_appended_as_filters() {
    let mut d = xreq("a.zip", None, None);
    d.target = vec![String::from("x.txt"), String::from("y.txt")];
    let p = extract(&d, true, false, false, &cd(), &tmp()).unwrap();
    assert_eq!(p.plan.steps[0].args, vec!["-q", "-d", "/work", "a.zip", "x.txt", "y.txt"]);
}

#[test]
fn extract_aar_members_become_include_path_pairs() {
    let mut d = xreq("a.aar", None, None);
    d.target = vec![String::from("x")];
    let p = extract(&d, true, false, false, &cd(), &tmp()).unwrap();
    assert_eq!(
        p.plan.steps[0].args,
        vec!["extract", "-i", "a.aar", "-d", "/work", "-include-path", "x"]
    );
}

#[test]
fn extract_a_disk_image_is_refused() {
    let d = xreq("a.dmg", None, None);
    let r = extract(&d, true, false, false, &cd(), &tmp());
    assert_eq!(r.unwrap_err(), ArcError::UnsupportedOperation);
    let d2 = xreq("a.iso", None, None);
    let r2 = extract(&d2, true, false, false, &cd(), &tmp());
    assert_eq!(r2.unwrap_err(), ArcError::UnsupportedOperation);
}

#[test]
fn extract_gzip_stages_decompresses_and_moves() {
    let d = xreq("notes.gz", None, None);
    let p = extract(&d, true, false, false, &cd(), &tmp()).unwrap();
    assert_eq!(
        p.plan.stage,
        Some((String::from("notes.gz"), String::from("/tmp/stage/file.gz")))
    );
    assert_eq!(p.plan.steps.len(), 1);
    assert_eq!(p.plan.steps[0].prog, "gzip");
    assert_eq!(p.plan.steps[0].args, vec!["-d", "-f", "file.gz"]);
    assert_eq!(p.plan.steps[0].cwd, "/tmp/stage");
    assert_eq!(p.plan.archive, "/tmp/stage/file");
    assert!(p.plan.use_temp_position);
    assert_eq!(p.dest, "notes");
}

#[test]
fn extract_codec_destination_needs_an_existing_parent() {
    let d = xreq("notes.gz", Some("out/notes"), None);
    let ok = extract(&d, true, false, true, &cd(), &tmp()).unwrap();
    assert_eq!(ok.dest, "out/notes");
    let bad = extract(&d, true, true, false, &cd(), &tmp());
    assert_eq!(bad.unwrap_err(), ArcError::OutputPathInvalid);
}

#[test]
fn derived_names_strip_the_codec_suffix() {
    assert_eq!(compress_remove_ext(&String::from("a.gz"), &ArcType::Gzip), "a");
    assert_eq!(compress_remove_ext(&String::from("a.tgz"), &ArcType::Gzip), "a.tar");
    assert_eq!(compress_remove_ext(&String::from("a.tbz2"), &ArcType::Bzip2), "a.tar");
    assert_eq!(compress_remove_ext(&String::from("a.txz"), &ArcType::Xz), "a.tar");
    assert_eq!(compress_remove_ext(&String::from("a.tzst"), &ArcType::Zstd), "a.tar");
    assert_eq!(compress_remove_ext(&String::from("a.Z"), &ArcType::Compress), "a");
    assert_eq!(compress_remove_ext(&String::from("odd"), &ArcType::Gzip), "odd.out");
}

#[test]
fn list_zip_uses_zipinfo() {
    let d = ListData { input: String::from("a.zip"), arc_type: None };
    let p = list(&d, true, &cd()).unwrap();
    assert_eq!(p.steps.len(), 1);
    assert_eq!(p.steps[0].prog, "zipinfo");
    assert_eq!(p.steps[0].args, vec!["-1", "a.zip"]);
}

#[test]
fn list_compressed_tar_lists_through_tar() {
    let d = ListData { input: String::from("a.tar.gz"), arc_type: None };
    let p = list(&d, true, &cd()).unwrap();
    assert_eq!(p.steps[0].prog, "bsdtar");
    assert_eq!(p.steps[0].args, vec!["-t", "-f", "a.tar.gz"]);
}

#[test]
fn list_refuses_a_missing_archive() {
    let d = ListData { input: String::from("a.zip"), arc_type: None };
    assert_eq!(list(&d, false, &cd()).unwrap_err(), ArcError::InputNotFound);
}

#[test]
fn list_refuses_a_bare_codec() {
    let d = ListData { input: String::from("a.gz"), arc_type: None };
    assert_eq!(list(&d, true, &cd()).unwrap_err(), ArcError::UnsupportedOperation);
    let d2 = ListData { input: String::from("a.dmg"), arc_type: None };
    assert_eq!(list(&d2, true, &cd()).unwrap_err(), ArcError::UnsupportedOperation);
}

#[test]
fn list_other_containers() {
    for (name, prog) in [
        ("a.7z", "7z"),
        ("a.rar", "rar"),
        ("a.cpio", "cpio"),
        ("a.aar", "aa"),
        ("a.wim", "wimdir"),
        ("a.zpaq", "zpaq"),
        ("a.lhz", "bsdtar"),
    ] {
        let d = ListData { input: String::from(name), arc_type: None };
        let p = list(&d, true, &cd()).unwrap();
        assert_eq!(p.steps[0].prog, prog);
    }
}
