use arcwrap::args::{ArcType, CreateData, PathKind};
use arcwrap::create::create;
use arcwrap::library::ArcError;

fn request(input: Vec<&str>, output: &str, arc_type: Option<ArcType>) -> CreateData {
    CreateData {
        input: input.into_iter().map(String::from).collect(),
        output: String::from(output),
        arc_type,
        rate: 6,
        verbose: false,
        image_name: String::from("Untitled"),
        keep_path: false,
    }
}

fn cd() -> String {
    String::from("/work")
}

fn tmp() -> String {
    String::from("/tmp/stage")
}

fn kinds(list: &[PathKind]) -> Vec<PathKind> {
    list.to_vec()
}

#[test]
fn empty_rar_is_refused_before_anything_runs() {
    let d = request(vec![], "a.rar", None);
    let r = create(&d, &kinds(&[]), true, &cd(), &tmp());
    assert_eq!(r.unwrap_err(), ArcError::UnsupportedCombination);
}

#[test]
fn empty_zpaq_is_refused_before_anything_runs() {
    let d = request(vec![], "a.zpaq", None);
    let r = create(&d, &kinds(&[]), true, &cd(), &tmp());
    assert_eq!(r.unwrap_err(), ArcError::UnsupportedCombination);
}

#[test]
fn a_missing_input_is_refused_first() {
    // even for a pairing that would itself be refused
    let d = request(vec!["a", "b"], "a.rar", None);
    let r = create(&d, &kinds(&[PathKind::File, PathKind::Missing]), true, &cd(), &tmp());
    assert_eq!(r.unwrap_err(), ArcError::InputNotFound);
}

#[test]
fn a_missing_destination_directory_is_refused() {
    let d = request(vec!["a"], "nowhere/a.zip", None);
    let r = create(&d, &kinds(&[PathKind::File]), false, &cd(), &tmp());
    assert_eq!(r.unwrap_err(), ArcError::OutputPathInvalid);
}

#[test]
fn a_rate_above_nine_is_refused_in_create() {
    let mut d = request(vec!["a"], "a.zip", None);
    d.rate = 10;
    let r = create(&d, &kinds(&[PathKind::File]), true, &cd(), &tmp());
    assert_eq!(r.unwrap_err(), ArcError::InvalidRate);
}

#[test]
fn an_output_without_suffix_defaults_to_zip() {
    let d = request(vec!["a"], "archive", None);
    let p = create(&d, &kinds(&[PathKind::File]), true, &cd(), &tmp()).unwrap();
    assert_eq!(p.steps[0].prog, "zip");
}

#[test]
fn zip_plan_archives_each_input_in_its_own_step() {
    let d = request(vec!["a", "sub/b"], "out.zip", None);
    let p = create(&d, &kinds(&[PathKind::File, PathKind::File]), true, &cd(), &tmp()).unwrap();
    assert_eq!(p.steps.len(), 2);
    assert_eq!(p.steps[0].prog, "zip");
    assert_eq!(
        p.steps[0].args,
        vec!["-r", "-x", ".*", "-x", "__MACOSX", "-q", "-6", "/tmp/stage/archive.zip", "a"]
    );
    assert_eq!(p.steps[0].cwd, "/work");
    assert_eq!(p.steps[1].args.last().unwrap(), "b");
    assert_eq!(p.steps[1].cwd, "/work/sub");
    assert_eq!(p.archive, "/tmp/stage/archive.zip");
    assert!(p.use_temp_position);
    assert!(p.stage.is_none());
}

#[test]
fn zip_plan_without_quiet_when_verbose() {
    let mut d = request(vec!["a"], "out.zip", None);
    d.verbose = true;
    let p = create(&d, &kinds(&[PathKind::File]), true, &cd(), &tmp()).unwrap();
    assert!(!p.steps[0].args.contains(&String::from("-q")));
}

#[test]
fn empty_zip_plan_adds_and_deletes_a_placeholder() {
    let d = request(vec![], "out.zip", None);
    let p = create(&d, &kinds(&[]), true, &cd(), &tmp()).unwrap();
    assert_eq!(p.make_dirs, vec!["/tmp/stage/_"]);
    assert_eq!(p.steps.len(), 2);
    assert_eq!(p.steps[0].args, vec!["-r", "-q", "archive.zip", "_"]);
    assert_eq!(p.steps[1].args, vec!["-d", "-q", "archive.zip", "_"]);
    assert_eq!(p.steps[0].cwd, "/tmp/stage");
}

#[test]
fn sevenz_plan_maps_the_rate_and_hides_output() {
    let mut d = request(vec!["a"], "out.7z", None);
    d.rate = 4;
    let p = create(&d, &kinds(&[PathKind::File]), true, &cd(), &tmp()).unwrap();
    assert_eq!(p.steps[0].prog, "7z");
    assert!(p.steps[0].args.contains(&String::from("-mx=3")));
    assert!(!p.steps[0].inherit_output);
}

#[test]
fn rar_plan_maps_the_rate() {
    let mut d = request(vec!["a"], "out.rar", None);
    d.rate = 7;
    let p = create(&d, &kinds(&[PathKind::File]), true, &cd(), &tmp()).unwrap();
    assert_eq!(p.steps[0].prog, "rar");
    assert!(p.steps[0].args.contains(&String::from("-m4")));
}

#[test]
fn tar_plan_creates_then_appends() {
    let d = request(vec!["a", "b", "c"], "out.tar", None);
    let p = create(
        &d,
        &kinds(&[PathKind::File, PathKind::File, PathKind::Dir]),
        true,
        &cd(),
        &tmp(),
    )
    .unwrap();
    assert_eq!(p.steps.len(), 3);
    assert_eq!(p.steps[0].args[0], "-c");
    assert_eq!(p.steps[1].args[0], "-r");
    assert_eq!(p.steps[2].args[0], "-r");
    for s in &p.steps {
        assert_eq!(s.prog, "bsdtar");
        assert_eq!(s.env, vec![(String::from("COPYFILE_DISABLE"), String::from("1"))]);
    }
    assert_eq!(p.archive, "/tmp/stage/archive.tar");
}

#[test]
fn compressed_tar_plan_appends_a_codec_step() {
    let d = request(vec!["dir"], "out.tar.gz", None);
    let p = create(&d, &kinds(&[PathKind::Dir]), true, &cd(), &tmp()).unwrap();
    assert_eq!(p.steps.len(), 2);
    assert_eq!(p.steps[0].prog, "bsdtar");
    assert_eq!(p.steps[1].prog, "gzip");
    assert_eq!(p.steps[1].args, vec!["-6", "archive.tar"]);
    assert_eq!(p.steps[1].cwd, "/tmp/stage");
    assert_eq!(p.archive, "/tmp/stage/archive.tar.gz");
}

#[test]
fn empty_tar_plan_archives_an_empty_list() {
    let d = request(vec![], "out.tar", None);
    let p = create(&d, &kinds(&[]), true, &cd(), &tmp()).unwrap();
    assert_eq!(p.steps.len(), 1);
    assert_eq!(p.steps[0].args, vec!["-c", "-f", "archive.tar", "-T", "/dev/null"]);
}

#[test]
fn single_file_codec_plan_stages_then_compresses() {
    let mut d = request(vec!["docs/report.txt"], "report.txt.gz", None);
    d.rate = 9;
    let p = create(&d, &kinds(&[PathKind::File]), true, &cd(), &tmp()).unwrap();
    assert_eq!(
        p.stage,
        Some((String::from("docs/report.txt"), String::from("/tmp/stage/report.txt")))
    );
    assert_eq!(p.steps.len(), 1);
    assert_eq!(p.steps[0].prog, "gzip");
    assert_eq!(p.steps[0].args, vec!["-f", "-k", "-9", "report.txt"]);
    assert_eq!(p.steps[0].cwd, "/tmp/stage");
    assert_eq!(p.archive, "/tmp/stage/report.txt.gz");
    assert!(p.use_temp_position);
}

#[test]
fn single_directory_codec_request_becomes_a_tar() {
    let d = request(vec!["dir"], "out.zst", None);
    let p = create(&d, &kinds(&[PathKind::Dir]), true, &cd(), &tmp()).unwrap();
    assert_eq!(p.steps.len(), 2);
    assert_eq!(p.steps[0].prog, "bsdtar");
    assert_eq!(p.steps[1].prog, "zstd");
    assert_eq!(p.steps[1].args, vec!["-z", "-q", "--rm", "-13", "archive.tar"]);
}

#[test]
fn brotli_single_file_uses_its_own_scale() {
    let mut d = request(vec!["a"], "a.br", None);
    d.rate = 8;
    let p = create(&d, &kinds(&[PathKind::File]), true, &cd(), &tmp()).unwrap();
    assert_eq!(p.steps[0].prog, "brotli");
    assert_eq!(p.steps[0].args, vec!["-q", "10", "a"]);
}

#[test]
fn keep_path_archives_from_the_current_directory() {
    let mut d = request(vec!["sub/a"], "out.zip", None);
    d.keep_path = true;
    let p = create(&d, &kinds(&[PathKind::File]), true, &cd(), &tmp()).unwrap();
    assert_eq!(p.steps[0].cwd, "/work");
    assert_eq!(p.steps[0].args.last().unwrap(), "sub/a");
}

#[test]
fn absolute_inputs_keep_their_own_parent() {
    let d = request(vec!["/data/x/a"], "out.tar", None);
    let p = create(&d, &kinds(&[PathKind::File]), true, &cd(), &tmp()).unwrap();
    assert_eq!(p.steps[0].cwd, "/data/x");
    assert_eq!(p.steps[0].args.last().unwrap(), "a");
}

#[test]
fn a_dot_input_cannot_be_split() {
    let d = request(vec!["."], "out.tar", None);
    let r = create(&d, &kinds(&[PathKind::Dir]), true, &cd(), &tmp());
    assert_eq!(r.unwrap_err(), ArcError::InputNotFound);
}

#[test]
fn cpio_multiple_inputs_are_piped_null_separated() {
    let d = request(vec!["a", "b c", "d"], "out.cpio", None);
    let p = create(
        &d,
        &kinds(&[PathKind::File, PathKind::File, PathKind::File]),
        true,
        &cd(),
        &tmp(),
    )
    .unwrap();
    assert_eq!(p.steps.len(), 1);
    assert_eq!(p.steps[0].prog, "cpio");
    assert_eq!(p.steps[0].stdin, Some(String::from("a\0b c\0d")));
    assert_eq!(p.steps[0].cwd, "/work");
    assert!(p.steps[0].args.contains(&String::from("/tmp/stage/archive.cpio")));
}

#[test]
fn wim_needs_a_single_directory() {
    let d = request(vec!["a", "b"], "out.wim", None);
    let r = create(&d, &kinds(&[PathKind::File, PathKind::File]), true, &cd(), &tmp());
    assert_eq!(r.unwrap_err(), ArcError::UnsupportedCombination);
    let d2 = request(vec!["a"], "out.dmg", None);
    let r2 = create(&d2, &kinds(&[PathKind::File]), true, &cd(), &tmp());
    assert_eq!(r2.unwrap_err(), ArcError::UnsupportedCombination);
}

#[test]
fn a_single_symlink_counts_as_neither_file_nor_directory() {
    // it falls into the several-inputs recipe, not the single-directory one
    let d = request(vec!["link"], "out.wim", None);
    let r = create(&d, &kinds(&[PathKind::Other]), true, &cd(), &tmp());
    assert_eq!(r.unwrap_err(), ArcError::UnsupportedCombination);
}

#[test]
fn empty_dmg_writes_straight_to_the_destination() {
    let mut d = request(vec![], "disk.dmg", None);
    d.image_name = String::from("Backup");
    let p = create(&d, &kinds(&[]), true, &cd(), &tmp()).unwrap();
    assert!(!p.use_temp_position);
    assert_eq!(p.make_dirs, vec!["/tmp/stage/Backup"]);
    assert_eq!(p.steps[0].prog, "hdiutil");
    assert_eq!(p.steps[0].args.last().unwrap(), "disk.dmg");
    assert!(p.steps[0].args.contains(&String::from("/tmp/stage/Backup")));
}

#[test]
fn single_directory_iso_is_staged() {
    let d = request(vec!["dir"], "disk.iso", None);
    let p = create(&d, &kinds(&[PathKind::Dir]), true, &cd(), &tmp()).unwrap();
    assert!(p.use_temp_position);
    assert_eq!(p.archive, "/tmp/stage/image.iso");
    assert_eq!(p.steps[0].args[0], "makehybrid");
}

#[test]
fn aar_with_several_inputs_includes_each_path() {
    let d = request(vec!["a", "b"], "out.aar", None);
    let p = create(&d, &kinds(&[PathKind::File, PathKind::File]), true, &cd(), &tmp()).unwrap();
    assert_eq!(p.steps.len(), 1);
    assert_eq!(
        p.steps[0].args,
        vec![
            "archive",
            "-d",
            "/work",
            "-o",
            "/tmp/stage/archive.aar",
            "-include-path",
            "a",
            "-include-path",
            "b"
        ]
    );
}

#[test]
fn aar_with_a_single_directory_archives_it_directly() {
    let d = request(vec!["dir"], "out.aar", None);
    let p = create(&d, &kinds(&[PathKind::Dir]), true, &cd(), &tmp()).unwrap();
    assert_eq!(
        p.steps[0].args,
        vec!["archive", "-d", "dir", "-o", "/tmp/stage/archive.aar"]
    );
}

#[test]
fn empty_sevenz_plan_adds_and_deletes_a_placeholder() {
    let d = request(vec![], "out.7z", None);
    let p = create(&d, &kinds(&[]), true, &cd(), &tmp()).unwrap();
    assert_eq!(p.make_dirs, vec!["/tmp/stage/_"]);
    assert_eq!(p.steps.len(), 2);
    assert_eq!(p.steps[0].args, vec!["a", "-ba", "-t7z", "archive.7z", "_"]);
    assert_eq!(p.steps[1].args, vec!["d", "-ba", "archive.7z", "_"]);
    assert!(!p.steps[0].inherit_output);
}

#[test]
fn cpio_single_input_is_piped_from_its_parent() {
    let d = request(vec!["sub/a"], "out.cpio", None);
    let p = create(&d, &kinds(&[PathKind::File]), true, &cd(), &tmp()).unwrap();
    assert_eq!(p.steps[0].stdin, Some(String::from("a")));
    assert_eq!(p.steps[0].cwd, "/work/sub");
}

#[test]
fn a_trailing_separator_on_an_input_is_ignored() {
    let d = request(vec!["sub/"], "out.tar", None);
    let p = create(&d, &kinds(&[PathKind::Dir]), true, &cd(), &tmp()).unwrap();
    assert_eq!(p.steps[0].cwd, "/work");
    assert_eq!(p.steps[0].args.last().unwrap(), "sub");
}

#[test]
fn an_explicit_format_override_wins_over_the_suffix() {
    let d = request(vec!["a"], "out.zip", Some(ArcType::SevenZ));
    let p = create(&d, &kinds(&[PathKind::File]), true, &cd(), &tmp()).unwrap();
    assert_eq!(p.steps[0].prog, "7z");
}
