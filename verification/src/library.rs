//! Shared pieces of the planning core: the error taxonomy, string suffix
//! matching, the format table, the rate mapping, and the command-step type.

use vstd::prelude::*;
use vstd::string::*;
use crate::args::{ArcType, is_codec};

verus! {

/// Every way an operation can be refused or can fail.  Each is fatal to the
/// subcommand that met it.
#[derive(Clone, Copy, PartialEq, Eq, Structural, Debug)]
pub enum ArcError {
    /// An input path does not exist.
    InputNotFound,
    /// The destination, or its parent directory, does not exist or is not valid.
    OutputPathInvalid,
    /// The (format, input shape) pair has no recipe, e.g. an empty Rar archive.
    UnsupportedCombination,
    /// The format has no recipe for this operation at all, e.g. listing a codec.
    UnsupportedOperation,
    /// The universal compression rate is outside 0 to 9.
    InvalidRate,
    /// An external program was not found on the search path.
    CommandNotFound,
    /// An external step exited nonzero, or feeding its stdin failed.
    StepFailed,
    /// Every step succeeded but the expected artifact is missing.
    ArtifactMissing,
    /// Neither hardlink nor copy could place the artifact at the destination.
    SaveFailed,
    /// The subcommand exists but is not implemented.
    NotImplemented,
}

impl ArcError {
    /// A user-facing diagnostic for this error.
    pub fn message(&self) -> (r: &'static str)
        ensures
            r@ == message_spec(*self),
    {
        match self {
            ArcError::InputNotFound => "input file does not exist",
            ArcError::OutputPathInvalid => "destination path does not exist or is invalid",
            ArcError::UnsupportedCombination => "this format cannot archive these inputs",
            ArcError::UnsupportedOperation => "this operation is not supported for this format",
            ArcError::InvalidRate => "the compression rate must be an integer from 0 to 9",
            ArcError::CommandNotFound => "a required external command was not found",
            ArcError::StepFailed => "an external command failed",
            ArcError::ArtifactMissing => "the archive was not produced",
            ArcError::SaveFailed => "the archive could not be saved to the destination",
            ArcError::NotImplemented => "this feature is not implemented",
        }
    }
}

/// The diagnostic text of each error.
pub open spec fn message_spec(e: ArcError) -> Seq<char> {
    match e {
        ArcError::InputNotFound => "input file does not exist"@,
        ArcError::OutputPathInvalid => "destination path does not exist or is invalid"@,
        ArcError::UnsupportedCombination => "this format cannot archive these inputs"@,
        ArcError::UnsupportedOperation => "this operation is not supported for this format"@,
        ArcError::InvalidRate => "the compression rate must be an integer from 0 to 9"@,
        ArcError::CommandNotFound => "a required external command was not found"@,
        ArcError::StepFailed => "an external command failed"@,
        ArcError::ArtifactMissing => "the archive was not produced"@,
        ArcError::SaveFailed => "the archive could not be saved to the destination"@,
        ArcError::NotImplemented => "this feature is not implemented"@,
    }
}

/// `s` ends with `suf`.
pub open spec fn ends_with_spec(s: Seq<char>, suf: Seq<char>) -> bool {
    suf.len() <= s.len() && s.subrange(s.len() - suf.len(), s.len() as int) == suf
}

/// Whether `s` ends with the suffix `suffix`, by characters.
pub fn ends_with(s: &str, suffix: &str) -> (r: bool)
    ensures
        r == ends_with_spec(s@, suffix@),
{
    let n = s.unicode_len();
    let m = suffix.unicode_len();
    if m > n {
        return false;
    }
    let mut i: usize = 0;
    while i < m
        invariant
            m <= n,
            n == s@.len(),
            m == suffix@.len(),
            i <= m,
            forall|j: int| 0 <= j < i ==> s@[n - m + j] == suffix@[j],
        decreases m - i,
    {
        if s.get_char(n - m + i) != suffix.get_char(i) {
            proof {
                let tail = s@.subrange(n - m, n as int);
                assert(tail[i as int] == s@[n - m + i]);
            }
            return false;
        }
        i += 1;
    }
    proof {
        assert(s@.subrange(n - m, n as int) =~= suffix@);
    }
    true
}

/// The suffix table: which format a file name resolves to.  Compound
/// tar-plus-codec suffixes resolve to the codec when creating, and to plain
/// Tar when extracting or listing, because the extraction tool detects the
/// inner compression itself.  Longer suffix groups win over their tails,
/// e.g. `.tar.gz` over `.gz`.
pub open spec fn guess_type_spec(file: Seq<char>, create: bool) -> Option<ArcType> {
    if ends_with_spec(file, ".zip"@) { Some(ArcType::Zip) }
    else if ends_with_spec(file, ".7z"@) { Some(ArcType::SevenZ) }
    else if ends_with_spec(file, ".tar"@) { Some(ArcType::Tar) }
    else if ends_with_spec(file, ".cpio"@) { Some(ArcType::Cpio) }
    else if ends_with_spec(file, ".rar"@) { Some(ArcType::Rar) }
    else if ends_with_spec(file, ".aar"@) { Some(ArcType::Aar) }
    else if ends_with_spec(file, ".wim"@) { Some(ArcType::Wim) }
    else if ends_with_spec(file, ".dmg"@) { Some(ArcType::Dmg) }
    else if ends_with_spec(file, ".iso"@) { Some(ArcType::Iso) }
    else if ends_with_spec(file, ".zpaq"@) { Some(ArcType::Zpaq) }
    else if ends_with_spec(file, ".lhz"@) { Some(ArcType::Lha) }
    else if ends_with_spec(file, ".tar.Z"@) { Some(tar_compress(ArcType::Compress, create)) }
    else if ends_with_spec(file, ".tar.gz"@) || ends_with_spec(file, ".tgz"@) {
        Some(tar_compress(ArcType::Gzip, create))
    }
    else if ends_with_spec(file, ".tar.bz2"@) || ends_with_spec(file, ".tbz2"@) {
        Some(tar_compress(ArcType::Bzip2, create))
    }
    else if ends_with_spec(file, ".tar.xz"@) || ends_with_spec(file, ".txz"@) {
        Some(tar_compress(ArcType::Xz, create))
    }
    else if ends_with_spec(file, ".tar.lz"@) || ends_with_spec(file, ".tlz"@) {
        Some(tar_compress(ArcType::Lzip, create))
    }
    else if ends_with_spec(file, ".tar.lzma"@) { Some(tar_compress(ArcType::Lzma, create)) }
    else if ends_with_spec(file, ".tar.lz4"@) { Some(tar_compress(ArcType::Lz4, create)) }
    else if ends_with_spec(file, ".tar.lzo"@) { Some(tar_compress(ArcType::Lzop, create)) }
    else if ends_with_spec(file, ".tar.lrz"@) { Some(tar_compress(ArcType::Lrzip, create)) }
    else if ends_with_spec(file, ".tar.rz"@) { Some(tar_compress(ArcType::Rzip, create)) }
    else if ends_with_spec(file, ".tar.zst"@) || ends_with_spec(file, ".tzst"@) {
        Some(tar_compress(ArcType::Zstd, create))
    }
    else if ends_with_spec(file, ".tar.br"@) { Some(tar_compress(ArcType::Brotli, create)) }
    else if ends_with_spec(file, ".tar.lzfse"@) { Some(tar_compress(ArcType::Lzfse, create)) }
    else if ends_with_spec(file, ".Z"@) { Some(ArcType::Compress) }
    else if ends_with_spec(file, ".gz"@) { Some(ArcType::Gzip) }
    else if ends_with_spec(file, ".bz2"@) { Some(ArcType::Bzip2) }
    else if ends_with_spec(file, ".xz"@) { Some(ArcType::Xz) }
    else if ends_with_spec(file, ".lz"@) { Some(ArcType::Lzip) }
    else if ends_with_spec(file, ".lzma"@) { Some(ArcType::Lzma) }
    else if ends_with_spec(file, ".lz4"@) { Some(ArcType::Lz4) }
    else if ends_with_spec(file, ".lzo"@) { Some(ArcType::Lzop) }
    else if ends_with_spec(file, ".lrz"@) { Some(ArcType::Lrzip) }
    else if ends_with_spec(file, ".rz"@) { Some(ArcType::Rzip) }
    else if ends_with_spec(file, ".zst"@) { Some(ArcType::Zstd) }
    else if ends_with_spec(file, ".br"@) { Some(ArcType::Brotli) }
    else if ends_with_spec(file, ".lzfse"@) { Some(ArcType::Lzfse) }
    else { None }
}

/// A compound tar-plus-codec suffix means the codec when creating and plain
/// Tar otherwise.
pub open spec fn tar_compress(codec: ArcType, create: bool) -> ArcType {
    if create { codec } else { ArcType::Tar }
}

/// Resolves an archive format from a file name's suffix, for create mode
/// (`create == true`) or extract/list mode.  `None` means no suffix of the
/// table matches; the caller then falls back to a mode-specific default.
pub fn guess_type(file: &String, create: bool) -> (r: Option<ArcType>)
    ensures
        r == guess_type_spec(file@, create),
{
    let f = file.as_str();
    if ends_with(f, ".zip") { Some(ArcType::Zip) }
    else if ends_with(f, ".7z") { Some(ArcType::SevenZ) }
    else if ends_with(f, ".tar") { Some(ArcType::Tar) }
    else if ends_with(f, ".cpio") { Some(ArcType::Cpio) }
    else if ends_with(f, ".rar") { Some(ArcType::Rar) }
    else if ends_with(f, ".aar") { Some(ArcType::Aar) }
    else if ends_with(f, ".wim") { Some(ArcType::Wim) }
    else if ends_with(f, ".dmg") { Some(ArcType::Dmg) }
    else if ends_with(f, ".iso") { Some(ArcType::Iso) }
    else if ends_with(f, ".zpaq") { Some(ArcType::Zpaq) }
    else if ends_with(f, ".lhz") { Some(ArcType::Lha) }
    else if ends_with(f, ".tar.Z") { Some(tar_compress_exec(ArcType::Compress, create)) }
    else if ends_with(f, ".tar.gz") || ends_with(f, ".tgz") {
        Some(tar_compress_exec(ArcType::Gzip, create))
    }
    else if ends_with(f, ".tar.bz2") || ends_with(f, ".tbz2") {
        Some(tar_compress_exec(ArcType::Bzip2, create))
    }
    else if ends_with(f, ".tar.xz") || ends_with(f, ".txz") {
        Some(tar_compress_exec(ArcType::Xz, create))
    }
    else if ends_with(f, ".tar.lz") || ends_with(f, ".tlz") {
        Some(tar_compress_exec(ArcType::Lzip, create))
    }
    else if ends_with(f, ".tar.lzma") { Some(tar_compress_exec(ArcType::Lzma, create)) }
    else if ends_with(f, ".tar.lz4") { Some(tar_compress_exec(ArcType::Lz4, create)) }
    else if ends_with(f, ".tar.lzo") { Some(tar_compress_exec(ArcType::Lzop, create)) }
    else if ends_with(f, ".tar.lrz") { Some(tar_compress_exec(ArcType::Lrzip, create)) }
    else if ends_with(f, ".tar.rz") { Some(tar_compress_exec(ArcType::Rzip, create)) }
    else if ends_with(f, ".tar.zst") || ends_with(f, ".tzst") {
        Some(tar_compress_exec(ArcType::Zstd, create))
    }
    else if ends_with(f, ".tar.br") { Some(tar_compress_exec(ArcType::Brotli, create)) }
    else if ends_with(f, ".tar.lzfse") { Some(tar_compress_exec(ArcType::Lzfse, create)) }
    else if ends_with(f, ".Z") { Some(ArcType::Compress) }
    else if ends_with(f, ".gz") { Some(ArcType::Gzip) }
    else if ends_with(f, ".bz2") { Some(ArcType::Bzip2) }
    else if ends_with(f, ".xz") { Some(ArcType::Xz) }
    else if ends_with(f, ".lz") { Some(ArcType::Lzip) }
    else if ends_with(f, ".lzma") { Some(ArcType::Lzma) }
    else if ends_with(f, ".lz4") { Some(ArcType::Lz4) }
    else if ends_with(f, ".lzo") { Some(ArcType::Lzop) }
    else if ends_with(f, ".lrz") { Some(ArcType::Lrzip) }
    else if ends_with(f, ".rz") { Some(ArcType::Rzip) }
    else if ends_with(f, ".zst") { Some(ArcType::Zstd) }
    else if ends_with(f, ".br") { Some(ArcType::Brotli) }
    else if ends_with(f, ".lzfse") { Some(ArcType::Lzfse) }
    else { None }
}

fn tar_compress_exec(codec: ArcType, create: bool) -> (r: ArcType)
    ensures
        r == tar_compress(codec, create),
{
    if create { codec } else { ArcType::Tar }
}

/// The canonical file suffix of each pure-compression codec, without the dot.
pub open spec fn compress_ext_spec(at: ArcType) -> Seq<char> {
    match at {
        ArcType::Compress => "Z"@,
        ArcType::Gzip => "gz"@,
        ArcType::Bzip2 => "bz2"@,
        ArcType::Xz => "xz"@,
        ArcType::Lzip => "lz"@,
        ArcType::Lzma => "lzma"@,
        ArcType::Lz4 => "lz4"@,
        ArcType::Lzop => "lzo"@,
        ArcType::Lrzip => "lrz"@,
        ArcType::Rzip => "rz"@,
        ArcType::Zstd => "zst"@,
        ArcType::Brotli => "br"@,
        ArcType::Lzfse => "lzfse"@,
        _ => ""@,
    }
}

/// The canonical suffix of a pure-compression codec.  Only codecs have one.
pub fn compress_ext(at: &ArcType) -> (r: String)
    requires
        is_codec(*at),
    ensures
        r@ == compress_ext_spec(*at),
{
    let s = match at {
        ArcType::Compress => "Z",
        ArcType::Gzip => "gz",
        ArcType::Bzip2 => "bz2",
        ArcType::Xz => "xz",
        ArcType::Lzip => "lz",
        ArcType::Lzma => "lzma",
        ArcType::Lz4 => "lz4",
        ArcType::Lzop => "lzo",
        ArcType::Lrzip => "lrz",
        ArcType::Rzip => "rz",
        ArcType::Zstd => "zst",
        ArcType::Brotli => "br",
        ArcType::Lzfse => "lzfse",
        _ => "",
    };
    String::from_str(s)
}

/// The native rate each tool is handed for a universal rate `r` in 0 to 9.
/// Most tools take the universal scale unchanged; SevenZ, Rar, Brotli and
/// Zstd each have their own table.  Formats without a rate parameter map to
/// 0, which their recipes never use.
pub open spec fn rate_map(at: ArcType, r: u8) -> u8 {
    match at {
        ArcType::Zip | ArcType::Gzip | ArcType::Bzip2 | ArcType::Xz | ArcType::Lzip
            | ArcType::Lzma | ArcType::Lzop | ArcType::Lrzip | ArcType::Rzip => r,
        ArcType::SevenZ => {
            if r == 0 { 0 }
            else if r <= 2 { 1 }
            else if r <= 4 { 3 }
            else if r <= 6 { 5 }
            else if r <= 8 { 7 }
            else { 9 }
        },
        ArcType::Rar => {
            if r == 0 { 0 }
            else if r <= 2 { 1 }
            else if r <= 4 { 2 }
            else if r <= 6 { 3 }
            else if r <= 8 { 4 }
            else { 5 }
        },
        ArcType::Brotli => {
            if r <= 6 { r }
            else if r == 7 { 8 }
            else if r == 8 { 10 }
            else { 11 }
        },
        ArcType::Zstd => {
            if r == 0 { 0 }
            else if r == 1 { 1 }
            else if r == 2 { 3 }
            else if r == 3 { 5 }
            else if r == 4 { 8 }
            else if r == 5 { 11 }
            else if r == 6 { 13 }
            else if r == 7 { 15 }
            else if r == 8 { 17 }
            else { 19 }
        },
        _ => 0,
    }
}

/// Maps the universal compression rate to the format's native rate, or
/// refuses a rate outside 0 to 9.
pub fn rate_conversion(rate: u8, arc_type: &ArcType) -> (r: Result<u8, ArcError>)
    ensures
        rate > 9 ==> r == Err::<u8, ArcError>(ArcError::InvalidRate),
        rate <= 9 ==> r == Ok::<u8, ArcError>(rate_map(*arc_type, rate)),
{
    if rate > 9 {
        return Err(ArcError::InvalidRate);
    }
    let mapped: u8 = match arc_type {
        ArcType::Zip | ArcType::Gzip | ArcType::Bzip2 | ArcType::Xz | ArcType::Lzip
            | ArcType::Lzma | ArcType::Lzop | ArcType::Lrzip | ArcType::Rzip => rate,
        ArcType::SevenZ => {
            if rate == 0 { 0 }
            else if rate <= 2 { 1 }
            else if rate <= 4 { 3 }
            else if rate <= 6 { 5 }
            else if rate <= 8 { 7 }
            else { 9 }
        },
        ArcType::Rar => {
            if rate == 0 { 0 }
            else if rate <= 2 { 1 }
            else if rate <= 4 { 2 }
            else if rate <= 6 { 3 }
            else if rate <= 8 { 4 }
            else { 5 }
        },
        ArcType::Brotli => {
            if rate <= 6 { rate }
            else if rate == 7 { 8 }
            else if rate == 8 { 10 }
            else { 11 }
        },
        ArcType::Zstd => {
            if rate == 0 { 0 }
            else if rate == 1 { 1 }
            else if rate == 2 { 3 }
            else if rate == 3 { 5 }
            else if rate == 4 { 8 }
            else if rate == 5 { 11 }
            else if rate == 6 { 13 }
            else if rate == 7 { 15 }
            else if rate == 8 { 17 }
            else { 19 }
        },
        _ => 0,
    };
    Ok(mapped)
}

/// One external command invocation: program name, ordered arguments, working
/// directory, environment overrides, optional text piped to stdin, and
/// whether the step's own output is shown to the user.
#[derive(Debug)]
pub struct Cmd {
    pub prog: String,
    pub args: Vec<String>,
    pub cwd: String,
    pub env: Vec<(String, String)>,
    pub stdin: Option<String>,
    pub inherit_output: bool,
}

/// The mathematical value of a [`Cmd`].
#[verifier::ext_equal]
pub ghost struct CmdModel {
    pub prog: Seq<char>,
    pub args: Seq<Seq<char>>,
    pub cwd: Seq<char>,
    pub env: Seq<(Seq<char>, Seq<char>)>,
    pub stdin: Option<Seq<char>>,
    pub inherit_output: bool,
}

impl View for Cmd {
    type V = CmdModel;

    open spec fn view(&self) -> CmdModel {
        CmdModel {
            prog: self.prog@,
            args: self.args.deep_view(),
            cwd: self.cwd@,
            env: self.env.deep_view(),
            stdin: self.stdin.deep_view(),
            inherit_output: self.inherit_output,
        }
    }
}

/// A step with the given program, arguments and working directory, no
/// environment overrides, no stdin text, and its output shown.
pub open spec fn cmd_model(prog: Seq<char>, args: Seq<Seq<char>>, cwd: Seq<char>) -> CmdModel {
    CmdModel { prog, args, cwd, env: seq![], stdin: None, inherit_output: true }
}

impl Cmd {
    /// A step running `prog` with `args` in the directory `cwd`.
    pub fn new_cwd(prog: &str, args: Vec<String>, cwd: &String) -> (c: Cmd)
        ensures
            c@ == cmd_model(prog@, args.deep_view(), cwd@),
    {
        Cmd {
            prog: String::from_str(prog),
            args,
            cwd: cwd.clone(),
            env: Vec::new(),
            stdin: None,
            inherit_output: true,
        }
    }

    /// A step as [`Cmd::new_cwd`], with `stdin` piped to the program.
    pub fn new_cwd_stdin(prog: &str, args: Vec<String>, cwd: &String, stdin: String) -> (c: Cmd)
        ensures
            c@ == (CmdModel { stdin: Some(stdin@), ..cmd_model(prog@, args.deep_view(), cwd@) }),
    {
        Cmd {
            prog: String::from_str(prog),
            args,
            cwd: cwd.clone(),
            env: Vec::new(),
            stdin: Some(stdin),
            inherit_output: true,
        }
    }

    /// A step as [`Cmd::new_cwd`], with the given environment overrides.
    pub fn new_cwd_env(prog: &str, args: Vec<String>, cwd: &String, env: Vec<(String, String)>) -> (c: Cmd)
        ensures
            c@ == (CmdModel { env: env.deep_view(), ..cmd_model(prog@, args.deep_view(), cwd@) }),
    {
        Cmd {
            prog: String::from_str(prog),
            args,
            cwd: cwd.clone(),
            env,
            stdin: None,
            inherit_output: true,
        }
    }
}

/// Appends a literal argument.
pub fn arg_lit(args: &mut Vec<String>, s: &str)
    ensures
        final(args).deep_view() == old(args).deep_view().push(s@),
{
    args.push(String::from_str(s));
    proof {
        assert(args.deep_view() =~= old(args).deep_view().push(s@));
    }
}

/// Appends a computed argument.
pub fn arg_own(args: &mut Vec<String>, s: String)
    ensures
        final(args).deep_view() == old(args).deep_view().push(s@),
{
    let ghost sv = s@;
    args.push(s);
    proof {
        assert(args.deep_view() =~= old(args).deep_view().push(sv));
    }
}

/// Pushing onto a vector appends the element's model to the vector's model.
pub proof fn lemma_deep_view_push<T: DeepView>(v: Vec<T>, prev: Vec<T>, x: T)
    requires
        v@ == prev@.push(x),
    ensures
        v.deep_view() == prev.deep_view().push(x.deep_view()),
{
    assert(v.deep_view() =~= prev.deep_view().push(x.deep_view()));
}

/// Pushing a step appends its model to the steps' model.
pub proof fn lemma_steps_model_push(v: Seq<Cmd>, prev: Seq<Cmd>, c: Cmd)
    requires
        v == prev.push(c),
    ensures
        steps_model(v) == steps_model(prev).push(c@),
{
    assert(steps_model(v) =~= steps_model(prev).push(c@));
}

/// Appends every element of `items` as an argument, in order.
pub fn push_all(args: &mut Vec<String>, items: &Vec<String>)
    ensures
        final(args).deep_view() == old(args).deep_view() + items.deep_view(),
{
    let ghost base = args.deep_view();
    let ghost im = items.deep_view();
    let mut i: usize = 0;
    while i < items.len()
        invariant
            i <= items.len(),
            im == items.deep_view(),
            args.deep_view() == base + im.subrange(0, i as int),
        decreases items.len() - i,
    {
        let ghost prev = *args;
        let c = items[i].clone();
        let ghost cv = c;
        args.push(c);
        proof {
            lemma_deep_view_push(*args, prev, cv);
            assert(args.deep_view() =~= base + im.subrange(0, (i + 1) as int));
        }
        i = i + 1;
    }
    proof {
        assert(im.subrange(0, im.len() as int) =~= im);
    }
}

/// `dir` and `name` joined with a path separator.
pub open spec fn join_path_spec(dir: Seq<char>, name: Seq<char>) -> Seq<char> {
    dir + "/"@ + name
}

/// Joins a directory path and a name inside it.
pub fn join_path(dir: &String, name: &str) -> (r: String)
    ensures
        r@ == join_path_spec(dir@, name@),
{
    dir.clone().concat("/").concat(name)
}

/// The decimal digit character of `n`, for `n` below 10.
pub open spec fn digit_char(n: u8) -> char {
    if n == 0 { '0' }
    else if n == 1 { '1' }
    else if n == 2 { '2' }
    else if n == 3 { '3' }
    else if n == 4 { '4' }
    else if n == 5 { '5' }
    else if n == 6 { '6' }
    else if n == 7 { '7' }
    else if n == 8 { '8' }
    else { '9' }
}

/// The decimal rendering of `n`, for `n` below 100.
pub open spec fn dec_u8(n: u8) -> Seq<char> {
    if n < 10 {
        seq![digit_char(n)]
    } else {
        seq![digit_char((n / 10) as u8), digit_char((n % 10) as u8)]
    }
}

fn digit_str(n: u8) -> (r: &'static str)
    requires
        n < 10,
    ensures
        r@ == seq![digit_char(n)],
{
    let s = match n {
        0 => "0",
        1 => "1",
        2 => "2",
        3 => "3",
        4 => "4",
        5 => "5",
        6 => "6",
        7 => "7",
        8 => "8",
        _ => "9",
    };
    proof {
        reveal_strlit("0");
        reveal_strlit("1");
        reveal_strlit("2");
        reveal_strlit("3");
        reveal_strlit("4");
        reveal_strlit("5");
        reveal_strlit("6");
        reveal_strlit("7");
        reveal_strlit("8");
        reveal_strlit("9");
        assert(s@ =~= seq![digit_char(n)]);
    }
    s
}

/// Renders `prefix` followed by the decimal form of `n`, the shape of the
/// tools' rate arguments such as a dash followed by the rate.
pub fn pre_num(prefix: &str, n: u8) -> (r: String)
    requires
        n < 100,
    ensures
        r@ == prefix@ + dec_u8(n),
{
    let d = u8_string(n);
    String::from_str(prefix).concat(d.as_str())
}

/// Renders a small number in decimal, as the tools' rate arguments need it.
pub fn u8_string(n: u8) -> (r: String)
    requires
        n < 100,
    ensures
        r@ == dec_u8(n),
{
    if n < 10 {
        String::from_str(digit_str(n))
    } else {
        let r = String::from_str(digit_str(n / 10)).concat(digit_str(n % 10));
        proof {
            assert(r@ =~= dec_u8(n));
        }
        r
    }
}

/// The absolute form of a path: an already absolute path stays as it is, a
/// relative one is joined onto the current directory, and an empty one means
/// the current directory itself.
pub open spec fn absolute_path_spec(p: Seq<char>, cwd: Seq<char>) -> Seq<char> {
    if p.len() > 0 && p[0] == '/' {
        p
    } else if p.len() == 0 {
        cwd
    } else {
        join_path_spec(cwd, p)
    }
}

/// Makes a path absolute against the given current directory.
pub fn absolute_path(p: &str, cwd: &String) -> (r: String)
    ensures
        r@ == absolute_path_spec(p@, cwd@),
{
    let n = p.unicode_len();
    if n > 0 && p.get_char(0) == '/' {
        String::from_str(p)
    } else if n == 0 {
        cwd.clone()
    } else {
        join_path(cwd, p)
    }
}

/// `s` without its trailing path separators.
pub open spec fn trim_slashes(s: Seq<char>) -> Seq<char>
    decreases s.len(),
{
    if s.len() > 0 && s[s.len() - 1] == '/' {
        trim_slashes(s.drop_last())
    } else {
        s
    }
}

/// The index of the last path separator in `s`, or -1 when there is none.
pub open spec fn last_slash(s: Seq<char>) -> int
    decreases s.len(),
{
    if s.len() == 0 {
        -1
    } else if s[s.len() - 1] == '/' {
        s.len() - 1
    } else {
        last_slash(s.drop_last())
    }
}

/// Splits a path into the absolute form of its parent directory and its base
/// name.  Trailing separators are ignored; a path that is all separators, is
/// empty, or whose base name is `.` or `..` has no such split.
pub open spec fn split_path_spec(p: Seq<char>, cwd: Seq<char>) -> Option<(Seq<char>, Seq<char>)> {
    let t = trim_slashes(p);
    if t.len() == 0 {
        None
    } else {
        let j = last_slash(t);
        let base = if j < 0 { t } else { t.subrange(j + 1, t.len() as int) };
        if base == "."@ || base == ".."@ {
            None
        } else {
            let par = if j < 0 {
                cwd
            } else if j == 0 {
                "/"@
            } else {
                absolute_path_spec(t.subrange(0, j), cwd)
            };
            Some((par, base))
        }
    }
}

/// Splits a path into its parent directory, made absolute against `cwd`, and
/// its base name, as [`split_path_spec`] describes.
pub fn split_path(p: &String, cwd: &String) -> (r: Option<(String, String)>)
    ensures
        r.deep_view() == split_path_spec(p@, cwd@),
{
    let s = p.as_str();
    let n = s.unicode_len();
    let mut k: usize = n;
    proof {
        assert(s@.subrange(0, n as int) =~= s@);
    }
    while k > 0 && s.get_char(k - 1) == '/'
        invariant
            k <= n,
            n == s@.len(),
            trim_slashes(s@) == trim_slashes(s@.subrange(0, k as int)),
        decreases k,
    {
        proof {
            assert(s@.subrange(0, k as int).drop_last() =~= s@.subrange(0, k as int - 1));
        }
        k = k - 1;
    }
    proof {
        assert(s@.subrange(0, n as int) =~= s@);
    }
    let ghost t = trim_slashes(s@);
    proof {
        assert(t == s@.subrange(0, k as int));
    }
    if k == 0 {
        return None;
    }
    let mut j: usize = k;
    while j > 0 && s.get_char(j - 1) != '/'
        invariant
            j <= k,
            k <= n,
            n == s@.len(),
            t == s@.subrange(0, k as int),
            t.len() == k,
            last_slash(t) == last_slash(s@.subrange(0, j as int)),
            forall|m: int| j <= m < k ==> s@[m] != '/',
        decreases j,
    {
        proof {
            assert(s@.subrange(0, j as int).drop_last() =~= s@.subrange(0, j as int - 1));
        }
        j = j - 1;
    }
    let ghost js = last_slash(t);
    proof {
        if j == 0 {
            assert(s@.subrange(0, 0) =~= Seq::<char>::empty());
            assert(js == -1);
        } else {
            assert(s@.subrange(0, j as int)[j - 1] == s@[j - 1]);
            assert(js == j - 1);
        }
    }
    let base = if j == 0 {
        s.substring_char(0, k)
    } else {
        s.substring_char(j, k)
    };
    proof {
        if j == 0 {
            assert(base@ =~= t);
        } else {
            assert(base@ =~= t.subrange(js + 1, t.len() as int));
        }
    }
    let blen = base.unicode_len();
    if blen == 1 && base.get_char(0) == '.' {
        proof {
            reveal_strlit(".");
            assert(base@ =~= "."@);
        }
        return None;
    }
    if blen == 2 && base.get_char(0) == '.' && base.get_char(1) == '.' {
        proof {
            reveal_strlit("..");
            assert(base@ =~= ".."@);
        }
        return None;
    }
    proof {
        reveal_strlit(".");
        reveal_strlit("..");
    }
    let par: String = if j == 0 {
        cwd.clone()
    } else if j == 1 {
        let r = String::from_str("/");
        r
    } else {
        let raw = s.substring_char(0, j - 1);
        proof {
            assert(raw@ =~= t.subrange(0, js));
        }
        absolute_path(raw, cwd)
    };
    Some((par, String::from_str(base)))
}

/// The plan of one operation: directories to create in the workspace first,
/// an optional file to stage by hardlink-else-copy, the command steps in
/// order, where the artifact will be, and whether the finalizer must move it
/// from the workspace to the requested destination.
#[derive(Debug)]
pub struct Plan {
    pub make_dirs: Vec<String>,
    pub stage: Option<(String, String)>,
    pub steps: Vec<Cmd>,
    pub archive: String,
    pub use_temp_position: bool,
}

/// The mathematical value of a [`Plan`].
#[verifier::ext_equal]
pub ghost struct PlanModel {
    pub make_dirs: Seq<Seq<char>>,
    pub stage: Option<(Seq<char>, Seq<char>)>,
    pub steps: Seq<CmdModel>,
    pub archive: Seq<char>,
    pub use_temp_position: bool,
}

/// The models of a sequence of command steps.
pub open spec fn steps_model(v: Seq<Cmd>) -> Seq<CmdModel> {
    Seq::new(v.len(), |i: int| v[i]@)
}

impl View for Plan {
    type V = PlanModel;

    open spec fn view(&self) -> PlanModel {
        PlanModel {
            make_dirs: self.make_dirs.deep_view(),
            stage: self.stage.deep_view(),
            steps: steps_model(self.steps@),
            archive: self.archive@,
            use_temp_position: self.use_temp_position,
        }
    }
}

/// The model of a `Result` carrying a plan.
pub open spec fn plan_result_model(r: Result<Plan, ArcError>) -> Result<PlanModel, ArcError> {
    match r {
        Ok(p) => Ok(p@),
        Err(e) => Err(e),
    }
}

/// Steps through a plan's commands strictly in order, failing fast: after
/// one failed step no further step is handed out.
#[derive(Debug)]
pub struct Runner {
    pub steps: Vec<Cmd>,
    pub next: usize,
    pub failed: bool,
}

impl Runner {
    /// The runner's bookkeeping is sound.
    pub open spec fn wf(&self) -> bool {
        self.next <= self.steps@.len()
    }

    /// The step the runner would hand out now: the next one, unless the plan
    /// has failed or is finished.
    pub open spec fn current_spec(&self) -> Option<int> {
        if self.failed || self.next >= self.steps@.len() {
            None
        } else {
            Some(self.next as int)
        }
    }

    /// A runner at the start of the given steps.
    pub fn new(steps: Vec<Cmd>) -> (r: Runner)
        ensures
            r.wf(),
            r.steps == steps,
            r.next == 0,
            !r.failed,
    {
        Runner { steps, next: 0, failed: false }
    }

    /// The step to run now, or nothing once the plan failed or finished.
    pub fn current(&self) -> (r: Option<&Cmd>)
        requires
            self.wf(),
        ensures
            match r {
                Some(c) => self.current_spec() == Some(self.next as int) && c == &self.steps@[self.next as int],
                None => self.current_spec() is None,
            },
    {
        if self.failed || self.next >= self.steps.len() {
            None
        } else {
            Some(&self.steps[self.next])
        }
    }

    /// Records the outcome of the current step.  A success moves on to the
    /// next step; a failure stops the plan for good.
    pub fn advance(&mut self, ok: bool)
        requires
            old(self).wf(),
            old(self).current_spec() is Some,
        ensures
            final(self).wf(),
            final(self).steps == old(self).steps,
            ok ==> !final(self).failed && final(self).next == old(self).next + 1,
            !ok ==> final(self).failed && final(self).next == old(self).next,
    {
        if ok {
            let _len: usize = self.steps.len();
            self.next = self.next + 1;
        } else {
            self.failed = true;
        }
    }

    /// Whether every step was run and none failed.
    pub fn succeeded(&self) -> (r: bool)
        ensures
            r == (!self.failed && self.next == self.steps@.len()),
    {
        !self.failed && self.next == self.steps.len()
    }
}

/// A plan that has met a failed step hands out no further command, whatever
/// steps remain: a failure in the middle of a sequence aborts the rest.
pub proof fn lemma_failed_runner_stops(r: Runner)
    requires
        r.failed,
    ensures
        r.current_spec() is None,
{
}

/// The longest matching suffix group wins: any name with a compound
/// tar-plus-gzip suffix resolves to the codec when creating and to plain
/// Tar when extracting or listing, and never to the bare `.gz` entry or to
/// any shorter suffix of the table.
pub proof fn lemma_compound_gzip_suffix(file: Seq<char>, create: bool)
    requires
        ends_with_spec(file, ".tar.gz"@) || ends_with_spec(file, ".tgz"@),
    ensures
        guess_type_spec(file, create) == Some(tar_compress(ArcType::Gzip, create)),
{
    reveal_strlit(".tar.gz");
    reveal_strlit(".tgz");
    reveal_strlit(".zip");
    reveal_strlit(".7z");
    reveal_strlit(".tar");
    reveal_strlit(".cpio");
    reveal_strlit(".rar");
    reveal_strlit(".aar");
    reveal_strlit(".wim");
    reveal_strlit(".dmg");
    reveal_strlit(".iso");
    reveal_strlit(".zpaq");
    reveal_strlit(".lhz");
    reveal_strlit(".tar.Z");
    let n = file.len() as int;
    assert(file[n - 1] == 'z' && file[n - 2] == 'g' && file[n - 3] != 'h') by {
        if ends_with_spec(file, ".tar.gz"@) {
            assert(file.subrange(n - 7, n)[6] == file[n - 1]);
            assert(file.subrange(n - 7, n)[5] == file[n - 2]);
            assert(file.subrange(n - 7, n)[4] == file[n - 3]);
        } else {
            assert(file.subrange(n - 4, n)[3] == file[n - 1]);
            assert(file.subrange(n - 4, n)[2] == file[n - 2]);
            assert(file.subrange(n - 4, n)[1] == file[n - 3]);
        }
    }
    assert(!ends_with_spec(file, ".zip"@)) by {
        if ends_with_spec(file, ".zip"@) {
            assert(file.subrange(n - 4, n)[3] == file[n - 1]);
        }
    }
    assert(!ends_with_spec(file, ".7z"@)) by {
        if ends_with_spec(file, ".7z"@) {
            assert(file.subrange(n - 3, n)[1] == file[n - 2]);
        }
    }
    assert(!ends_with_spec(file, ".tar"@)) by {
        if ends_with_spec(file, ".tar"@) {
            assert(file.subrange(n - 4, n)[3] == file[n - 1]);
        }
    }
    assert(!ends_with_spec(file, ".cpio"@)) by {
        if ends_with_spec(file, ".cpio"@) {
            assert(file.subrange(n - 5, n)[4] == file[n - 1]);
        }
    }
    assert(!ends_with_spec(file, ".rar"@)) by {
        if ends_with_spec(file, ".rar"@) {
            assert(file.subrange(n - 4, n)[3] == file[n - 1]);
        }
    }
    assert(!ends_with_spec(file, ".aar"@)) by {
        if ends_with_spec(file, ".aar"@) {
            assert(file.subrange(n - 4, n)[3] == file[n - 1]);
        }
    }
    assert(!ends_with_spec(file, ".wim"@)) by {
        if ends_with_spec(file, ".wim"@) {
            assert(file.subrange(n - 4, n)[3] == file[n - 1]);
        }
    }
    assert(!ends_with_spec(file, ".dmg"@)) by {
        if ends_with_spec(file, ".dmg"@) {
            assert(file.subrange(n - 4, n)[3] == file[n - 1]);
        }
    }
    assert(!ends_with_spec(file, ".iso"@)) by {
        if ends_with_spec(file, ".iso"@) {
            assert(file.subrange(n - 4, n)[3] == file[n - 1]);
        }
    }
    assert(!ends_with_spec(file, ".zpaq"@)) by {
        if ends_with_spec(file, ".zpaq"@) {
            assert(file.subrange(n - 5, n)[4] == file[n - 1]);
        }
    }
    assert(!ends_with_spec(file, ".lhz"@)) by {
        if ends_with_spec(file, ".lhz"@) {
            assert(file.subrange(n - 4, n)[2] == file[n - 3]);
        }
    }
    assert(!ends_with_spec(file, ".tar.Z"@)) by {
        if ends_with_spec(file, ".tar.Z"@) {
            assert(file.subrange(n - 6, n)[5] == file[n - 1]);
        }
    }
}

/// Each format's native rate never decreases when the universal rate grows:
/// asking for more compression never maps to a weaker native setting.
pub proof fn lemma_rate_map_monotonic(at: ArcType, r1: u8, r2: u8)
    requires
        r1 <= r2,
        r2 <= 9,
    ensures
        rate_map(at, r1) <= rate_map(at, r2),
{
}

} // verus!
