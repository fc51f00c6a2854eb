//! The data that a parsed command line hands to the library.
//!
//! These types hold plain values only; the unverified shell fills them in
//! from the command line and from filesystem probes.

use vstd::prelude::*;

verus! {

/// The whole parsed command line: one subcommand with its data.
pub struct Arguments {
    pub command: ArcCmd,
}

/// The subcommands of the front-end.  Only `Create`, `Extract` and `List`
/// are implemented; the others are reported as not implemented.
pub enum ArcCmd {
    Create(CreateData),
    Append,
    Remove,
    Rename,
    Extract(ExtractData),
    List(ListData),
    Setup,
    Help,
}

/// Options of the `create` subcommand.
pub struct CreateData {
    /// Paths to archive; empty means an empty archive where the format allows one.
    pub input: Vec<String>,
    /// Path of the archive to produce.
    pub output: String,
    /// Explicit format override; otherwise the format is guessed from `output`.
    pub arc_type: Option<ArcType>,
    /// Universal compression rate, 0 to 9.
    pub rate: u8,
    /// Show the tools' own progress output.
    pub verbose: bool,
    /// Volume name for the disk-image formats when no input directory names one.
    pub image_name: String,
    /// Keep each input's path as the entry name inside the archive instead of
    /// archiving it from its parent directory under its base name.
    pub keep_path: bool,
}

/// Options of the `list` subcommand.
pub struct ListData {
    /// Path of the archive to list.
    pub input: String,
    /// Explicit format override; otherwise guessed from `input`.
    pub arc_type: Option<ArcType>,
}

/// Options of the `extract` subcommand.
pub struct ExtractData {
    /// Path of the archive to extract.
    pub input: String,
    /// Destination directory (container formats) or file (codecs); a missing
    /// value means the current directory, or a name derived from `input`.
    pub output: Option<String>,
    /// Archive members to extract; empty means all.
    pub target: Vec<String>,
    /// Explicit format override; otherwise guessed from `input`.
    pub arc_type: Option<ArcType>,
}

/// The mathematical value of a [`CreateData`].
#[verifier::ext_equal]
pub ghost struct CreateModel {
    pub input: Seq<Seq<char>>,
    pub output: Seq<char>,
    pub arc_type: Option<ArcType>,
    pub rate: u8,
    pub verbose: bool,
    pub image_name: Seq<char>,
    pub keep_path: bool,
}

impl View for CreateData {
    type V = CreateModel;

    open spec fn view(&self) -> CreateModel {
        CreateModel {
            input: self.input.deep_view(),
            output: self.output@,
            arc_type: self.arc_type,
            rate: self.rate,
            verbose: self.verbose,
            image_name: self.image_name@,
            keep_path: self.keep_path,
        }
    }
}

/// The mathematical value of a [`ListData`].
#[verifier::ext_equal]
pub ghost struct ListModel {
    pub input: Seq<char>,
    pub arc_type: Option<ArcType>,
}

impl View for ListData {
    type V = ListModel;

    open spec fn view(&self) -> ListModel {
        ListModel { input: self.input@, arc_type: self.arc_type }
    }
}

/// The mathematical value of an [`ExtractData`].
#[verifier::ext_equal]
pub ghost struct ExtractModel {
    pub input: Seq<char>,
    pub output: Option<Seq<char>>,
    pub target: Seq<Seq<char>>,
    pub arc_type: Option<ArcType>,
}

impl View for ExtractData {
    type V = ExtractModel;

    open spec fn view(&self) -> ExtractModel {
        ExtractModel {
            input: self.input@,
            output: self.output.deep_view(),
            target: self.target.deep_view(),
            arc_type: self.arc_type,
        }
    }
}

/// The closed set of archive-format variants, containers and pure-compression
/// codecs alike.
#[derive(Clone, Copy, PartialEq, Eq, Structural, Debug)]
pub enum ArcType {
    Zip,
    SevenZ,
    Tar,
    Cpio,
    Rar,
    Aar,
    Wim,
    Dmg,
    Iso,
    Zpaq,
    Lha,
    Compress,
    Gzip,
    Bzip2,
    Xz,
    Lzip,
    Lzma,
    Lz4,
    Lzop,
    Lrzip,
    Rzip,
    Zstd,
    Brotli,
    Lzfse,
}

/// What kind of filesystem object one input path is, as the shell probed it.
/// A symbolic link counts as `Other`, not as a file or a directory.
#[derive(Clone, Copy, PartialEq, Eq, Structural, Debug)]
pub enum PathKind {
    Missing,
    File,
    Dir,
    Other,
}

/// The shape of a create request's inputs, which selects the recipe.
#[derive(Clone, Copy, PartialEq, Eq, Structural, Debug)]
pub enum CreateType {
    SingleFile,
    SingleDir,
    Multiple,
    Empty,
}

/// True of the pure-compression codecs: formats that compress one byte
/// stream and have no container of their own.
pub open spec fn is_codec(at: ArcType) -> bool {
    match at {
        ArcType::Compress | ArcType::Gzip | ArcType::Bzip2 | ArcType::Xz | ArcType::Lzip
            | ArcType::Lzma | ArcType::Lz4 | ArcType::Lzop | ArcType::Lrzip | ArcType::Rzip
            | ArcType::Zstd | ArcType::Brotli | ArcType::Lzfse => true,
        _ => false,
    }
}

/// The shape of a create request's inputs: empty, one real file, one real
/// directory, or anything else (several inputs, or a single symlink).
pub open spec fn shape_of(kinds: Seq<PathKind>) -> CreateType {
    if kinds.len() == 0 {
        CreateType::Empty
    } else if kinds.len() == 1 {
        match kinds[0] {
            PathKind::File => CreateType::SingleFile,
            PathKind::Dir => CreateType::SingleDir,
            _ => CreateType::Multiple,
        }
    } else {
        CreateType::Multiple
    }
}

/// Classifies the probed kinds of the input paths into the shape that picks
/// the create recipe.
pub fn classify_inputs(kinds: &Vec<PathKind>) -> (r: CreateType)
    ensures
        r == shape_of(kinds@),
{
    if kinds.len() == 0 {
        CreateType::Empty
    } else if kinds.len() == 1 {
        match kinds[0] {
            PathKind::File => CreateType::SingleFile,
            PathKind::Dir => CreateType::SingleDir,
            _ => CreateType::Multiple,
        }
    } else {
        CreateType::Multiple
    }
}

} // verus!
