//! Planning the `extract` operation: from the request to the one command
//! that unpacks a container, or to the stage-decompress-move plan of a
//! pure-compression codec.

use vstd::prelude::*;
use vstd::string::*;
use crate::args::{ArcType, ExtractData, ExtractModel, is_codec};
use crate::library::{
    ArcError, Cmd, CmdModel, Plan, PlanModel, cmd_model, steps_model,
    arg_lit, arg_own, push_all, join_path, join_path_spec,
    ends_with, ends_with_spec, compress_ext, compress_ext_spec,
    guess_type, guess_type_spec,
};
use crate::create::aar_includes_spec;

verus! {

/// The format an extract or list request resolves to: the explicit
/// override, else the suffix table on the archive name, else Tar.
pub open spec fn resolved_extract_type(input: Seq<char>, ov: Option<ArcType>) -> ArcType {
    match ov {
        Some(t) => t,
        None => match guess_type_spec(input, false) {
            Some(t) => t,
            None => ArcType::Tar,
        },
    }
}

/// Resolves the format of an extract or list request.
pub fn resolve_extract_type(input: &String, ov: &Option<ArcType>) -> (r: ArcType)
    ensures
        r == resolved_extract_type(input@, *ov),
{
    match ov {
        Some(t) => *t,
        None => match guess_type(input, false) {
            Some(t) => t,
            None => ArcType::Tar,
        },
    }
}

/// The formats whose extraction unpacks a container into a directory.
pub open spec fn is_container_extract(at: ArcType) -> bool {
    match at {
        ArcType::Zip | ArcType::SevenZ | ArcType::Tar | ArcType::Cpio | ArcType::Rar
            | ArcType::Aar | ArcType::Wim | ArcType::Zpaq | ArcType::Lha => true,
        _ => false,
    }
}

/// `s` with the suffix `suf` replaced by `repl`.
pub open spec fn replace_suffix_spec(s: Seq<char>, suf: Seq<char>, repl: Seq<char>) -> Seq<char> {
    s.subrange(0, s.len() - suf.len()) + repl
}

fn replace_suffix(s: &String, suf: &str, repl: &str) -> (r: Option<String>)
    ensures
        ends_with_spec(s@, suf@) ==> r.deep_view() == Some(replace_suffix_spec(s@, suf@, repl@)),
        !ends_with_spec(s@, suf@) ==> r is None,
{
    if ends_with(s.as_str(), suf) {
        let n = s.as_str().unicode_len();
        let m = suf.unicode_len();
        let stem = s.as_str().substring_char(0, n - m);
        Some(String::from_str(stem).concat(repl))
    } else {
        None
    }
}

/// The destination name a decompressed codec archive gets when none was
/// asked for: the input name with the codec's suffix stripped, compressed
/// tar shorthands rewritten to a plain `.tar` name, and `.out` appended
/// when no known suffix matches.
pub open spec fn compress_remove_ext_spec(input: Seq<char>, at: ArcType) -> Seq<char> {
    match at {
        ArcType::Compress => if ends_with_spec(input, ".Z"@) {
            replace_suffix_spec(input, ".Z"@, ""@)
        } else if ends_with_spec(input, ".z"@) {
            replace_suffix_spec(input, ".z"@, ""@)
        } else {
            input + ".out"@
        },
        ArcType::Gzip => if ends_with_spec(input, ".gz"@) {
            replace_suffix_spec(input, ".gz"@, ""@)
        } else if ends_with_spec(input, ".tgz"@) {
            replace_suffix_spec(input, ".tgz"@, ".tar"@)
        } else {
            input + ".out"@
        },
        ArcType::Bzip2 => if ends_with_spec(input, ".bz2"@) {
            replace_suffix_spec(input, ".bz2"@, ""@)
        } else if ends_with_spec(input, ".bz"@) {
            replace_suffix_spec(input, ".bz"@, ""@)
        } else if ends_with_spec(input, ".tbz2"@) {
            replace_suffix_spec(input, ".tbz2"@, ".tar"@)
        } else if ends_with_spec(input, ".tbz"@) {
            replace_suffix_spec(input, ".tbz"@, ".tar"@)
        } else {
            input + ".out"@
        },
        ArcType::Xz => if ends_with_spec(input, ".xz"@) {
            replace_suffix_spec(input, ".xz"@, ""@)
        } else if ends_with_spec(input, ".txz"@) {
            replace_suffix_spec(input, ".txz"@, ".tar"@)
        } else {
            input + ".out"@
        },
        ArcType::Lzip => if ends_with_spec(input, ".lz"@) {
            replace_suffix_spec(input, ".lz"@, ""@)
        } else if ends_with_spec(input, ".tlz"@) {
            replace_suffix_spec(input, ".tlz"@, ".tar"@)
        } else {
            input + ".out"@
        },
        ArcType::Lzma => if ends_with_spec(input, ".lzma"@) {
            replace_suffix_spec(input, ".lzma"@, ""@)
        } else {
            input + ".out"@
        },
        ArcType::Lz4 => if ends_with_spec(input, ".lz4"@) {
            replace_suffix_spec(input, ".lz4"@, ""@)
        } else {
            input + ".out"@
        },
        ArcType::Lzop => if ends_with_spec(input, ".lzo"@) {
            replace_suffix_spec(input, ".lzo"@, ""@)
        } else {
            input + ".out"@
        },
        ArcType::Lrzip => if ends_with_spec(input, ".lrz"@) {
            replace_suffix_spec(input, ".lrz"@, ""@)
        } else {
            input + ".out"@
        },
        ArcType::Rzip => if ends_with_spec(input, ".rz"@) {
            replace_suffix_spec(input, ".rz"@, ""@)
        } else {
            input + ".out"@
        },
        ArcType::Zstd => if ends_with_spec(input, ".zst"@) {
            replace_suffix_spec(input, ".zst"@, ""@)
        } else if ends_with_spec(input, ".tzst"@) {
            replace_suffix_spec(input, ".tzst"@, ".tar"@)
        } else {
            input + ".out"@
        },
        ArcType::Brotli => if ends_with_spec(input, ".br"@) {
            replace_suffix_spec(input, ".br"@, ""@)
        } else {
            input + ".out"@
        },
        ArcType::Lzfse => if ends_with_spec(input, ".lzfse"@) {
            replace_suffix_spec(input, ".lzfse"@, ""@)
        } else {
            input + ".out"@
        },
        _ => input + ".out"@,
    }
}

/// Derives the decompressed destination name from the archive name, as
/// [`compress_remove_ext_spec`] describes.
pub fn compress_remove_ext(input: &String, arc_type: &ArcType) -> (r: String)
    ensures
        r@ == compress_remove_ext_spec(input@, *arc_type),
{
    match arc_type {
        ArcType::Compress => {
            if let Some(x) = replace_suffix(input, ".Z", "") { x }
            else if let Some(x) = replace_suffix(input, ".z", "") { x }
            else { input.clone().concat(".out") }
        },
        ArcType::Gzip => {
            if let Some(x) = replace_suffix(input, ".gz", "") { x }
            else if let Some(x) = replace_suffix(input, ".tgz", ".tar") { x }
            else { input.clone().concat(".out") }
        },
        ArcType::Bzip2 => {
            if let Some(x) = replace_suffix(input, ".bz2", "") { x }
            else if let Some(x) = replace_suffix(input, ".bz", "") { x }
            else if let Some(x) = replace_suffix(input, ".tbz2", ".tar") { x }
            else if let Some(x) = replace_suffix(input, ".tbz", ".tar") { x }
            else { input.clone().concat(".out") }
        },
        ArcType::Xz => {
            if let Some(x) = replace_suffix(input, ".xz", "") { x }
            else if let Some(x) = replace_suffix(input, ".txz", ".tar") { x }
            else { input.clone().concat(".out") }
        },
        ArcType::Lzip => {
            if let Some(x) = replace_suffix(input, ".lz", "") { x }
            else if let Some(x) = replace_suffix(input, ".tlz", ".tar") { x }
            else { input.clone().concat(".out") }
        },
        ArcType::Lzma => {
            if let Some(x) = replace_suffix(input, ".lzma", "") { x }
            else { input.clone().concat(".out") }
        },
        ArcType::Lz4 => {
            if let Some(x) = replace_suffix(input, ".lz4", "") { x }
            else { input.clone().concat(".out") }
        },
        ArcType::Lzop => {
            if let Some(x) = replace_suffix(input, ".lzo", "") { x }
            else { input.clone().concat(".out") }
        },
        ArcType::Lrzip => {
            if let Some(x) = replace_suffix(input, ".lrz", "") { x }
            else { input.clone().concat(".out") }
        },
        ArcType::Rzip => {
            if let Some(x) = replace_suffix(input, ".rz", "") { x }
            else { input.clone().concat(".out") }
        },
        ArcType::Zstd => {
            if let Some(x) = replace_suffix(input, ".zst", "") { x }
            else if let Some(x) = replace_suffix(input, ".tzst", ".tar") { x }
            else { input.clone().concat(".out") }
        },
        ArcType::Brotli => {
            if let Some(x) = replace_suffix(input, ".br", "") { x }
            else { input.clone().concat(".out") }
        },
        ArcType::Lzfse => {
            if let Some(x) = replace_suffix(input, ".lzfse", "") { x }
            else { input.clone().concat(".out") }
        },
        _ => input.clone().concat(".out"),
    }
}

/// Appending a suffix makes a name that ends with it, and stripping that
/// suffix gives the name back.
proof fn lemma_append_then_strip(s: Seq<char>, suf: Seq<char>)
    ensures
        ends_with_spec(s + suf, suf),
        replace_suffix_spec(s + suf, suf, Seq::<char>::empty()) == s,
{
    let full = s + suf;
    assert(full.subrange(full.len() - suf.len(), full.len() as int) =~= suf);
    assert(full.subrange(0, full.len() - suf.len()) =~= s);
    assert(full.subrange(0, full.len() - suf.len()) + Seq::<char>::empty() =~= s);
}

/// Deriving a destination name inverts the create recipe's naming: a name
/// carrying a codec's canonical suffix, as a single-file compression
/// produces it, strips back to the original name exactly.
pub proof fn lemma_codec_suffix_round_trip(s: Seq<char>, at: ArcType)
    requires
        is_codec(at),
    ensures
        compress_remove_ext_spec(s + "."@ + compress_ext_spec(at), at) == s,
{
    reveal_strlit(".");
    reveal_strlit("");
    let full = s + "."@ + compress_ext_spec(at);
    match at {
        ArcType::Compress => {
            reveal_strlit("Z");
            reveal_strlit(".Z");
            assert("."@ + "Z"@ =~= ".Z"@);
            assert(full =~= s + ".Z"@);
            lemma_append_then_strip(s, ".Z"@);
            assert(""@ =~= Seq::<char>::empty());
        },
        ArcType::Gzip => {
            reveal_strlit("gz");
            reveal_strlit(".gz");
            assert("."@ + "gz"@ =~= ".gz"@);
            assert(full =~= s + ".gz"@);
            lemma_append_then_strip(s, ".gz"@);
            assert(""@ =~= Seq::<char>::empty());
        },
        ArcType::Bzip2 => {
            reveal_strlit("bz2");
            reveal_strlit(".bz2");
            assert("."@ + "bz2"@ =~= ".bz2"@);
            assert(full =~= s + ".bz2"@);
            lemma_append_then_strip(s, ".bz2"@);
            assert(""@ =~= Seq::<char>::empty());
        },
        ArcType::Xz => {
            reveal_strlit("xz");
            reveal_strlit(".xz");
            assert("."@ + "xz"@ =~= ".xz"@);
            assert(full =~= s + ".xz"@);
            lemma_append_then_strip(s, ".xz"@);
            assert(""@ =~= Seq::<char>::empty());
        },
        ArcType::Lzip => {
            reveal_strlit("lz");
            reveal_strlit(".lz");
            assert("."@ + "lz"@ =~= ".lz"@);
            assert(full =~= s + ".lz"@);
            lemma_append_then_strip(s, ".lz"@);
            assert(""@ =~= Seq::<char>::empty());
        },
        ArcType::Lzma => {
            reveal_strlit("lzma");
            reveal_strlit(".lzma");
            assert("."@ + "lzma"@ =~= ".lzma"@);
            assert(full =~= s + ".lzma"@);
            lemma_append_then_strip(s, ".lzma"@);
            assert(""@ =~= Seq::<char>::empty());
        },
        ArcType::Lz4 => {
            reveal_strlit("lz4");
            reveal_strlit(".lz4");
            assert("."@ + "lz4"@ =~= ".lz4"@);
            assert(full =~= s + ".lz4"@);
            lemma_append_then_strip(s, ".lz4"@);
            assert(""@ =~= Seq::<char>::empty());
        },
        ArcType::Lzop => {
            reveal_strlit("lzo");
            reveal_strlit(".lzo");
            assert("."@ + "lzo"@ =~= ".lzo"@);
            assert(full =~= s + ".lzo"@);
            lemma_append_then_strip(s, ".lzo"@);
            assert(""@ =~= Seq::<char>::empty());
        },
        ArcType::Lrzip => {
            reveal_strlit("lrz");
            reveal_strlit(".lrz");
            assert("."@ + "lrz"@ =~= ".lrz"@);
            assert(full =~= s + ".lrz"@);
            lemma_append_then_strip(s, ".lrz"@);
            assert(""@ =~= Seq::<char>::empty());
        },
        ArcType::Rzip => {
            reveal_strlit("rz");
            reveal_strlit(".rz");
            assert("."@ + "rz"@ =~= ".rz"@);
            assert(full =~= s + ".rz"@);
            lemma_append_then_strip(s, ".rz"@);
            assert(""@ =~= Seq::<char>::empty());
        },
        ArcType::Zstd => {
            reveal_strlit("zst");
            reveal_strlit(".zst");
            assert("."@ + "zst"@ =~= ".zst"@);
            assert(full =~= s + ".zst"@);
            lemma_append_then_strip(s, ".zst"@);
            assert(""@ =~= Seq::<char>::empty());
        },
        ArcType::Brotli => {
            reveal_strlit("br");
            reveal_strlit(".br");
            assert("."@ + "br"@ =~= ".br"@);
            assert(full =~= s + ".br"@);
            lemma_append_then_strip(s, ".br"@);
            assert(""@ =~= Seq::<char>::empty());
        },
        ArcType::Lzfse => {
            reveal_strlit("lzfse");
            reveal_strlit(".lzfse");
            assert("."@ + "lzfse"@ =~= ".lzfse"@);
            assert(full =~= s + ".lzfse"@);
            lemma_append_then_strip(s, ".lzfse"@);
            assert(""@ =~= Seq::<char>::empty());
        },
        _ => {},
    }
}

/// Where an extraction lands, and when it is refused: container formats
/// need an existing destination directory (the current directory when none
/// is given); disk images cannot be extracted; codecs need an existing
/// parent for their destination file, whose default name is derived from
/// the input.
pub open spec fn check_output_spec(
    input: Seq<char>,
    output: Option<Seq<char>>,
    at: ArcType,
    out_is_dir: bool,
    out_parent_is_dir: bool,
    cd: Seq<char>,
) -> Result<Seq<char>, ArcError> {
    if is_container_extract(at) {
        match output {
            Some(o) => if out_is_dir {
                Ok(o)
            } else {
                Err(ArcError::OutputPathInvalid)
            },
            None => Ok(cd),
        }
    } else if at == ArcType::Dmg || at == ArcType::Iso {
        Err(ArcError::UnsupportedOperation)
    } else {
        match output {
            Some(o) => if out_parent_is_dir {
                Ok(o)
            } else {
                Err(ArcError::OutputPathInvalid)
            },
            None => Ok(compress_remove_ext_spec(input, at)),
        }
    }
}

/// Resolves and validates the extraction destination, as
/// [`check_output_spec`] describes.  `out_is_dir` and `out_parent_is_dir`
/// are the probed facts about a given destination path and its parent.
pub fn check_output(
    input: &String,
    output: &Option<String>,
    arc_type: &ArcType,
    out_is_dir: bool,
    out_parent_is_dir: bool,
    cd: &String,
) -> (r: Result<String, ArcError>)
    ensures
        match r {
            Ok(o) => check_output_spec(
                input@,
                output.deep_view(),
                *arc_type,
                out_is_dir,
                out_parent_is_dir,
                cd@,
            ) == Ok::<Seq<char>, ArcError>(o@),
            Err(e) => check_output_spec(
                input@,
                output.deep_view(),
                *arc_type,
                out_is_dir,
                out_parent_is_dir,
                cd@,
            ) == Err::<Seq<char>, ArcError>(e),
        },
{
    let container = match arc_type {
        ArcType::Zip | ArcType::SevenZ | ArcType::Tar | ArcType::Cpio | ArcType::Rar
            | ArcType::Aar | ArcType::Wim | ArcType::Zpaq | ArcType::Lha => true,
        _ => false,
    };
    if container {
        match output {
            Some(o) => if out_is_dir {
                Ok(o.clone())
            } else {
                Err(ArcError::OutputPathInvalid)
            },
            None => Ok(cd.clone()),
        }
    } else if *arc_type == ArcType::Dmg || *arc_type == ArcType::Iso {
        Err(ArcError::UnsupportedOperation)
    } else {
        match output {
            Some(o) => if out_parent_is_dir {
                Ok(o.clone())
            } else {
                Err(ArcError::OutputPathInvalid)
            },
            None => Ok(compress_remove_ext(input, arc_type)),
        }
    }
}

/// The one command that unpacks a container archive into the destination,
/// with any requested member filters appended.
pub open spec fn container_step_spec(
    at: ArcType,
    input: Seq<char>,
    outp: Seq<char>,
    target: Seq<Seq<char>>,
    cd: Seq<char>,
) -> CmdModel {
    match at {
        ArcType::Zip => cmd_model("unzip"@, seq!["-q"@, "-d"@, outp, input] + target, cd),
        ArcType::SevenZ => cmd_model("7z"@, seq!["x"@, "-ba"@, input, "-o"@ + outp] + target, cd),
        ArcType::Tar | ArcType::Cpio => cmd_model(
            "bsdtar"@,
            seq!["-x"@, "-f"@, input, "-C"@, outp] + target,
            cd,
        ),
        ArcType::Rar => cmd_model("rar"@, seq!["x"@, "-inul"@, input, outp] + target, cd),
        ArcType::Aar => cmd_model(
            "aa"@,
            seq!["extract"@, "-i"@, input, "-d"@, outp] + aar_includes_spec(target),
            cd,
        ),
        ArcType::Wim => cmd_model("wimapply"@, seq![input, outp], cd),
        ArcType::Zpaq => cmd_model("zpaq"@, seq!["x"@, input, "-to"@, outp] + target, cd),
        ArcType::Lha => cmd_model("lha"@, seq!["-x"@, "-q"@, input, "-w"@, outp] + target, cd),
        _ => cmd_model(""@, seq![], cd),
    }
}

/// The program and arguments that decompress the staged codec archive
/// inside the workspace; the staged name is appended after them.
pub open spec fn codec_extract_cmd(at: ArcType) -> (Seq<char>, Seq<Seq<char>>) {
    match at {
        ArcType::Compress => ("uncompress"@, seq!["-f"@]),
        ArcType::Gzip => ("gzip"@, seq!["-d"@, "-f"@]),
        ArcType::Bzip2 => ("bzip2"@, seq!["-d"@, "-f"@]),
        ArcType::Xz => ("xz"@, seq!["-d"@, "-f"@]),
        ArcType::Lzip => ("lzip"@, seq!["-d"@]),
        ArcType::Lzma => ("lzma"@, seq!["-d"@, "-f"@]),
        ArcType::Lz4 => ("lz4"@, seq!["-d"@, "-q"@]),
        ArcType::Lzop => ("lzop"@, seq!["-d"@]),
        ArcType::Lrzip => ("lrzip"@, seq!["-d"@, "-q"@]),
        ArcType::Rzip => ("rzip"@, seq!["-d"@]),
        ArcType::Zstd => ("zstd"@, seq!["-d"@, "-q"@]),
        ArcType::Brotli => ("brotli"@, seq!["-d"@, "-q"@]),
        ArcType::Lzfse => ("aa"@, seq!["extract"@, "-o"@, "file"@, "-i"@, "file.lzfse"@]),
        _ => (""@, seq![]),
    }
}

fn codec_extract_args(at: &ArcType) -> (r: (String, Vec<String>))
    requires
        is_codec(*at),
    ensures
        r.0@ == codec_extract_cmd(*at).0,
        r.1.deep_view() == codec_extract_cmd(*at).1,
{
    match at {
        ArcType::Compress => {
            let mut a: Vec<String> = Vec::new();
            arg_lit(&mut a, "-f");
            proof {
                assert(a.deep_view() =~= codec_extract_cmd(*at).1);
            }
            (String::from_str("uncompress"), a)
        },
        ArcType::Gzip => {
            let mut a: Vec<String> = Vec::new();
            arg_lit(&mut a, "-d");
            arg_lit(&mut a, "-f");
            proof {
                assert(a.deep_view() =~= codec_extract_cmd(*at).1);
            }
            (String::from_str("gzip"), a)
        },
        ArcType::Bzip2 => {
            let mut a: Vec<String> = Vec::new();
            arg_lit(&mut a, "-d");
            arg_lit(&mut a, "-f");
            proof {
                assert(a.deep_view() =~= codec_extract_cmd(*at).1);
            }
            (String::from_str("bzip2"), a)
        },
        ArcType::Xz => {
            let mut a: Vec<String> = Vec::new();
            arg_lit(&mut a, "-d");
            arg_lit(&mut a, "-f");
            proof {
                assert(a.deep_view() =~= codec_extract_cmd(*at).1);
            }
            (String::from_str("xz"), a)
        },
        ArcType::Lzip => {
            let mut a: Vec<String> = Vec::new();
            arg_lit(&mut a, "-d");
            proof {
                assert(a.deep_view() =~= codec_extract_cmd(*at).1);
            }
            (String::from_str("lzip"), a)
        },
        ArcType::Lzma => {
            let mut a: Vec<String> = Vec::new();
            arg_lit(&mut a, "-d");
            arg_lit(&mut a, "-f");
            proof {
                assert(a.deep_view() =~= codec_extract_cmd(*at).1);
            }
            (String::from_str("lzma"), a)
        },
        ArcType::Lz4 => {
            let mut a: Vec<String> = Vec::new();
            arg_lit(&mut a, "-d");
            arg_lit(&mut a, "-q");
            proof {
                assert(a.deep_view() =~= codec_extract_cmd(*at).1);
            }
            (String::from_str("lz4"), a)
        },
        ArcType::Lzop => {
            let mut a: Vec<String> = Vec::new();
            arg_lit(&mut a, "-d");
            proof {
                assert(a.deep_view() =~= codec_extract_cmd(*at).1);
            }
            (String::from_str("lzop"), a)
        },
        ArcType::Lrzip => {
            let mut a: Vec<String> = Vec::new();
            arg_lit(&mut a, "-d");
            arg_lit(&mut a, "-q");
            proof {
                assert(a.deep_view() =~= codec_extract_cmd(*at).1);
            }
            (String::from_str("lrzip"), a)
        },
        ArcType::Rzip => {
            let mut a: Vec<String> = Vec::new();
            arg_lit(&mut a, "-d");
            proof {
                assert(a.deep_view() =~= codec_extract_cmd(*at).1);
            }
            (String::from_str("rzip"), a)
        },
        ArcType::Zstd => {
            let mut a: Vec<String> = Vec::new();
            arg_lit(&mut a, "-d");
            arg_lit(&mut a, "-q");
            proof {
                assert(a.deep_view() =~= codec_extract_cmd(*at).1);
            }
            (String::from_str("zstd"), a)
        },
        ArcType::Brotli => {
            let mut a: Vec<String> = Vec::new();
            arg_lit(&mut a, "-d");
            arg_lit(&mut a, "-q");
            proof {
                assert(a.deep_view() =~= codec_extract_cmd(*at).1);
            }
            (String::from_str("brotli"), a)
        },
        ArcType::Lzfse => {
            let mut a: Vec<String> = Vec::new();
            arg_lit(&mut a, "extract");
            arg_lit(&mut a, "-o");
            arg_lit(&mut a, "file");
            arg_lit(&mut a, "-i");
            arg_lit(&mut a, "file.lzfse");
            proof {
                assert(a.deep_view() =~= codec_extract_cmd(*at).1);
            }
            (String::from_str("aa"), a)
        },
        _ => vstd::pervasive::unreached(),
    }
}

/// An extraction plan: the steps, and the destination the artifact must
/// reach.  For containers the one step unpacks straight to the destination;
/// for codecs the plan stages the archive into the workspace, decompresses
/// it there, and the artifact must then be moved to the destination.
#[derive(Debug)]
pub struct ExtractPlan {
    pub plan: Plan,
    pub dest: String,
}

/// The mathematical value of an [`ExtractPlan`].
#[verifier::ext_equal]
pub ghost struct ExtractPlanModel {
    pub plan: PlanModel,
    pub dest: Seq<char>,
}

impl View for ExtractPlan {
    type V = ExtractPlanModel;

    open spec fn view(&self) -> ExtractPlanModel {
        ExtractPlanModel { plan: self.plan@, dest: self.dest@ }
    }
}

/// The model of a `Result` carrying an extraction plan.
pub open spec fn extract_result_model(r: Result<ExtractPlan, ArcError>) -> Result<
    ExtractPlanModel,
    ArcError,
> {
    match r {
        Ok(p) => Ok(p@),
        Err(e) => Err(e),
    }
}

/// The whole extraction decision: the format, the input check, the
/// destination check, then one container step, or the codec recipe that
/// stages the archive as `file.<suffix>`, decompresses it to `file`, and
/// moves that to the destination.
pub open spec fn extract_spec(
    d: ExtractModel,
    input_is_file: bool,
    out_is_dir: bool,
    out_parent_is_dir: bool,
    cd: Seq<char>,
    tmp: Seq<char>,
) -> Result<ExtractPlanModel, ArcError> {
    let at = resolved_extract_type(d.input, d.arc_type);
    if !input_is_file {
        Err(ArcError::InputNotFound)
    } else {
        match check_output_spec(d.input, d.output, at, out_is_dir, out_parent_is_dir, cd) {
            Err(e) => Err(e),
            Ok(outp) => if is_container_extract(at) {
                Ok(
                    ExtractPlanModel {
                        plan: PlanModel {
                            make_dirs: seq![],
                            stage: None,
                            steps: seq![container_step_spec(at, d.input, outp, d.target, cd)],
                            archive: Seq::empty(),
                            use_temp_position: false,
                        },
                        dest: outp,
                    },
                )
            } else {
                let src_name = "file."@ + compress_ext_spec(at);
                let pa = codec_extract_cmd(at);
                Ok(
                    ExtractPlanModel {
                        plan: PlanModel {
                            make_dirs: seq![],
                            stage: Some((d.input, join_path_spec(tmp, src_name))),
                            steps: seq![cmd_model(pa.0, pa.1.push(src_name), tmp)],
                            archive: join_path_spec(tmp, "file"@),
                            use_temp_position: true,
                        },
                        dest: outp,
                    },
                )
            },
        }
    }
}

/// Plans the whole extract operation, as [`extract_spec`] describes.
/// `input_is_file`, `out_is_dir` and `out_parent_is_dir` are the probed
/// facts about the archive path, the destination path and its parent.
#[verifier::rlimit(30)]
pub fn extract(
    d: &ExtractData,
    input_is_file: bool,
    out_is_dir: bool,
    out_parent_is_dir: bool,
    cd: &String,
    tmp: &String,
) -> (r: Result<ExtractPlan, ArcError>)
    ensures
        extract_result_model(r) == extract_spec(
            d@,
            input_is_file,
            out_is_dir,
            out_parent_is_dir,
            cd@,
            tmp@,
        ),
{
    let at = resolve_extract_type(&d.input, &d.arc_type);
    if !input_is_file {
        return Err(ArcError::InputNotFound);
    }
    let outp = match check_output(&d.input, &d.output, &at, out_is_dir, out_parent_is_dir, cd) {
        Ok(o) => o,
        Err(e) => {
            return Err(e);
        },
    };
    let container = match at {
        ArcType::Zip | ArcType::SevenZ | ArcType::Tar | ArcType::Cpio | ArcType::Rar
            | ArcType::Aar | ArcType::Wim | ArcType::Zpaq | ArcType::Lha => true,
        _ => false,
    };
    if container {
        let mut a: Vec<String> = Vec::new();
        let prog: &str = match at {
            ArcType::Zip => {
                arg_lit(&mut a, "-q");
                arg_lit(&mut a, "-d");
                arg_own(&mut a, outp.clone());
                arg_own(&mut a, d.input.clone());
                push_all(&mut a, &d.target);
                "unzip"
            },
            ArcType::SevenZ => {
                arg_lit(&mut a, "x");
                arg_lit(&mut a, "-ba");
                arg_own(&mut a, d.input.clone());
                arg_own(&mut a, String::from_str("-o").concat(outp.as_str()));
                push_all(&mut a, &d.target);
                "7z"
            },
            ArcType::Tar | ArcType::Cpio => {
                arg_lit(&mut a, "-x");
                arg_lit(&mut a, "-f");
                arg_own(&mut a, d.input.clone());
                arg_lit(&mut a, "-C");
                arg_own(&mut a, outp.clone());
                push_all(&mut a, &d.target);
                "bsdtar"
            },
            ArcType::Rar => {
                arg_lit(&mut a, "x");
                arg_lit(&mut a, "-inul");
                arg_own(&mut a, d.input.clone());
                arg_own(&mut a, outp.clone());
                push_all(&mut a, &d.target);
                "rar"
            },
            ArcType::Aar => {
                arg_lit(&mut a, "extract");
                arg_lit(&mut a, "-i");
                arg_own(&mut a, d.input.clone());
                arg_lit(&mut a, "-d");
                arg_own(&mut a, outp.clone());
                let ghost base = a.deep_view();
                let ghost tm = d.target.deep_view();
                let mut i: usize = 0;
                while i < d.target.len()
                    invariant
                        i <= d.target.len(),
                        tm == d.target.deep_view(),
                        a.deep_view() == base + aar_includes_spec(tm).subrange(0, 2 * i as int),
                    decreases d.target.len() - i,
                {
                    arg_lit(&mut a, "-include-path");
                    arg_own(&mut a, d.target[i].clone());
                    proof {
                        assert(aar_includes_spec(tm)[2 * i as int] == "-include-path"@);
                        assert(aar_includes_spec(tm)[2 * i as int + 1] == tm[i as int]);
                        assert(a.deep_view() =~= base + aar_includes_spec(tm).subrange(
                            0,
                            2 * (i + 1) as int,
                        ));
                    }
                    i = i + 1;
                }
                proof {
                    assert(aar_includes_spec(tm).subrange(0, 2 * tm.len() as int)
                        =~= aar_includes_spec(tm));
                }
                "aa"
            },
            ArcType::Wim => {
                arg_own(&mut a, d.input.clone());
                arg_own(&mut a, outp.clone());
                "wimapply"
            },
            ArcType::Zpaq => {
                arg_lit(&mut a, "x");
                arg_own(&mut a, d.input.clone());
                arg_lit(&mut a, "-to");
                arg_own(&mut a, outp.clone());
                push_all(&mut a, &d.target);
                "zpaq"
            },
            ArcType::Lha => {
                arg_lit(&mut a, "-x");
                arg_lit(&mut a, "-q");
                arg_own(&mut a, d.input.clone());
                arg_lit(&mut a, "-w");
                arg_own(&mut a, outp.clone());
                push_all(&mut a, &d.target);
                "lha"
            },
            _ => vstd::pervasive::unreached(),
        };
        let c = Cmd::new_cwd(prog, a, cd);
        let mut steps: Vec<Cmd> = Vec::new();
        steps.push(c);
        proof {
            assert(c@ =~~= container_step_spec(at, d@.input, outp@, d@.target, cd@));
        }
        let p = ExtractPlan {
            plan: Plan {
                make_dirs: Vec::new(),
                stage: None,
                steps,
                archive: String::new(),
                use_temp_position: false,
            },
            dest: outp,
        };
        proof {
            assert(p@ =~~= extract_spec(
                d@,
                input_is_file,
                out_is_dir,
                out_parent_is_dir,
                cd@,
                tmp@,
            ).unwrap());
        }
        Ok(p)
    } else {
        proof {
            assert(is_codec(at));
        }
        let ext = compress_ext(&at);
        let src_name = String::from_str("file.").concat(ext.as_str());
        let pa = codec_extract_args(&at);
        let prog = pa.0;
        let mut a = pa.1;
        arg_own(&mut a, src_name.clone());
        let c = Cmd::new_cwd(prog.as_str(), a, tmp);
        let mut steps: Vec<Cmd> = Vec::new();
        steps.push(c);
        let p = ExtractPlan {
            plan: Plan {
                make_dirs: Vec::new(),
                stage: Some((d.input.clone(), join_path(tmp, src_name.as_str()))),
                steps,
                archive: join_path(tmp, "file"),
                use_temp_position: true,
            },
            dest: outp,
        };
        proof {
            assert(p@ =~~= extract_spec(
                d@,
                input_is_file,
                out_is_dir,
                out_parent_is_dir,
                cd@,
                tmp@,
            ).unwrap());
        }
        Ok(p)
    }
}

} // verus!
