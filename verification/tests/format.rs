use arcwrap::args::ArcType;
use arcwrap::library::{compress_ext, guess_type};

fn guess(name: &str, create: bool) -> Option<ArcType> {
    guess_type(&String::from(name), create)
}

#[test]
fn compound_tar_gz_create_resolves_to_codec() {
    assert_eq!(guess("a.tar.gz", true), Some(ArcType::Gzip));
    assert_eq!(guess("a.tgz", true), Some(ArcType::Gzip));
}

#[test]
fn compound_tar_gz_extract_resolves_to_tar() {
    assert_eq!(guess("a.tar.gz", false), Some(ArcType::Tar));
    assert_eq!(guess("a.tgz", false), Some(ArcType::Tar));
}

#[test]
fn compound_suffixes_by_mode() {
    assert_eq!(guess("x.tar.bz2", true), Some(ArcType::Bzip2));
    assert_eq!(guess("x.tar.bz2", false), Some(ArcType::Tar));
    assert_eq!(guess("x.tbz2", true), Some(ArcType::Bzip2));
    assert_eq!(guess("x.tar.xz", true), Some(ArcType::Xz));
    assert_eq!(guess("x.txz", false), Some(ArcType::Tar));
    assert_eq!(guess("x.tar.lz", true), Some(ArcType::Lzip));
    assert_eq!(guess("x.tlz", true), Some(ArcType::Lzip));
    assert_eq!(guess("x.tar.lzma", true), Some(ArcType::Lzma));
    assert_eq!(guess("x.tar.lz4", true), Some(ArcType::Lz4));
    assert_eq!(guess("x.tar.lzo", true), Some(ArcType::Lzop));
    assert_eq!(guess("x.tar.lrz", true), Some(ArcType::Lrzip));
    assert_eq!(guess("x.tar.rz", true), Some(ArcType::Rzip));
    assert_eq!(guess("x.tar.zst", true), Some(ArcType::Zstd));
    assert_eq!(guess("x.tzst", false), Some(ArcType::Tar));
    assert_eq!(guess("x.tar.br", true), Some(ArcType::Brotli));
    assert_eq!(guess("x.tar.lzfse", true), Some(ArcType::Lzfse));
    assert_eq!(guess("x.tar.Z", true), Some(ArcType::Compress));
    assert_eq!(guess("x.tar.Z", false), Some(ArcType::Tar));
}

#[test]
fn container_suffixes() {
    assert_eq!(guess("a.zip", true), Some(ArcType::Zip));
    assert_eq!(guess("a.7z", false), Some(ArcType::SevenZ));
    assert_eq!(guess("a.tar", true), Some(ArcType::Tar));
    assert_eq!(guess("a.cpio", true), Some(ArcType::Cpio));
    assert_eq!(guess("a.rar", false), Some(ArcType::Rar));
    assert_eq!(guess("a.aar", true), Some(ArcType::Aar));
    assert_eq!(guess("a.wim", true), Some(ArcType::Wim));
    assert_eq!(guess("a.dmg", true), Some(ArcType::Dmg));
    assert_eq!(guess("a.iso", true), Some(ArcType::Iso));
    assert_eq!(guess("a.zpaq", true), Some(ArcType::Zpaq));
    assert_eq!(guess("a.lhz", true), Some(ArcType::Lha));
}

#[test]
fn bare_codec_suffixes() {
    assert_eq!(guess("a.Z", true), Some(ArcType::Compress));
    assert_eq!(guess("a.gz", true), Some(ArcType::Gzip));
    assert_eq!(guess("a.gz", false), Some(ArcType::Gzip));
    assert_eq!(guess("a.bz2", true), Some(ArcType::Bzip2));
    assert_eq!(guess("a.xz", true), Some(ArcType::Xz));
    assert_eq!(guess("a.lz", true), Some(ArcType::Lzip));
    assert_eq!(guess("a.lzma", true), Some(ArcType::Lzma));
    assert_eq!(guess("a.lz4", true), Some(ArcType::Lz4));
    assert_eq!(guess("a.lzo", true), Some(ArcType::Lzop));
    assert_eq!(guess("a.lrz", true), Some(ArcType::Lrzip));
    assert_eq!(guess("a.rz", true), Some(ArcType::Rzip));
    assert_eq!(guess("a.zst", true), Some(ArcType::Zstd));
    assert_eq!(guess("a.br", true), Some(ArcType::Brotli));
    assert_eq!(guess("a.lzfse", true), Some(ArcType::Lzfse));
}

#[test]
fn unknown_suffix_is_unresolved() {
    assert_eq!(guess("archive", true), None);
    assert_eq!(guess("a.txt", true), None);
    assert_eq!(guess("", false), None);
}

#[test]
fn suffix_matching_is_case_sensitive() {
    assert_eq!(guess("a.ZIP", true), None);
    assert_eq!(guess("a.z", true), None);
    assert_eq!(guess("a.GZ", false), None);
}

#[test]
fn canonical_codec_suffixes() {
    assert_eq!(compress_ext(&ArcType::Compress), "Z");
    assert_eq!(compress_ext(&ArcType::Gzip), "gz");
    assert_eq!(compress_ext(&ArcType::Bzip2), "bz2");
    assert_eq!(compress_ext(&ArcType::Xz), "xz");
    assert_eq!(compress_ext(&ArcType::Lzip), "lz");
    assert_eq!(compress_ext(&ArcType::Lzma), "lzma");
    assert_eq!(compress_ext(&ArcType::Lz4), "lz4");
    assert_eq!(compress_ext(&ArcType::Lzop), "lzo");
    assert_eq!(compress_ext(&ArcType::Lrzip), "lrz");
    assert_eq!(compress_ext(&ArcType::Rzip), "rz");
    assert_eq!(compress_ext(&ArcType::Zstd), "zst");
    assert_eq!(compress_ext(&ArcType::Brotli), "br");
    assert_eq!(compress_ext(&ArcType::Lzfse), "lzfse");
}
