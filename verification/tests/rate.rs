use arcwrap::args::ArcType;
use arcwrap::library::{ArcError, rate_conversion};

fn table(at: ArcType) -> Vec<u8> {
    let mut out: Vec<u8> = Vec::new();
    let mut r: u8 = 0;
    while r <= 9 {
        out.push(rate_conversion(r, &at).unwrap());
        r += 1;
    }
    out
}

#[test]
fn identity_formats_pass_the_rate_through() {
    let expect: Vec<u8> = vec![0, 1, 2, 3, 4, 5, 6, 7, 8, 9];
    assert_eq!(table(ArcType::Zip), expect);
    assert_eq!(table(ArcType::Gzip), expect);
    assert_eq!(table(ArcType::Bzip2), expect);
    assert_eq!(table(ArcType::Xz), expect);
    assert_eq!(table(ArcType::Lzip), expect);
    assert_eq!(table(ArcType::Lzma), expect);
    assert_eq!(table(ArcType::Lzop), expect);
    assert_eq!(table(ArcType::Lrzip), expect);
    assert_eq!(table(ArcType::Rzip), expect);
}

#[test]
fn sevenz_table() {
    assert_eq!(table(ArcType::SevenZ), vec![0, 1, 1, 3, 3, 5, 5, 7, 7, 9]);
}

#[test]
fn rar_table() {
    assert_eq!(table(ArcType::Rar), vec![0, 1, 1, 2, 2, 3, 3, 4, 4, 5]);
    assert_eq!(rate_conversion(7, &ArcType::Rar), Ok(4));
}

#[test]
fn brotli_table() {
    assert_eq!(table(ArcType::Brotli), vec![0, 1, 2, 3, 4, 5, 6, 8, 10, 11]);
    assert_eq!(rate_conversion(8, &ArcType::Brotli), Ok(10));
}

#[test]
fn zstd_table() {
    assert_eq!(table(ArcType::Zstd), vec![0, 1, 3, 5, 8, 11, 13, 15, 17, 19]);
    assert_eq!(rate_conversion(5, &ArcType::Zstd), Ok(11));
}

#[test]
fn formats_without_a_rate_map_to_zero() {
    assert_eq!(table(ArcType::Tar), vec![0; 10]);
    assert_eq!(table(ArcType::Wim), vec![0; 10]);
    assert_eq!(table(ArcType::Compress), vec![0; 10]);
}

#[test]
fn tables_are_monotonic() {
    let all = [
        ArcType::Zip,
        ArcType::SevenZ,
        ArcType::Tar,
        ArcType::Cpio,
        ArcType::Rar,
        ArcType::Aar,
        ArcType::Wim,
        ArcType::Dmg,
        ArcType::Iso,
        ArcType::Zpaq,
        ArcType::Lha,
        ArcType::Compress,
        ArcType::Gzip,
        ArcType::Bzip2,
        ArcType::Xz,
        ArcType::Lzip,
        ArcType::Lzma,
        ArcType::Lz4,
        ArcType::Lzop,
        ArcType::Lrzip,
        ArcType::Rzip,
        ArcType::Zstd,
        ArcType::Brotli,
        ArcType::Lzfse,
    ];
    for at in all {
        let t = table(at);
        for w in t.windows(2) {
            assert!(w[0] <= w[1]);
        }
    }
}

#[test]
fn a_rate_above_nine_is_refused() {
    assert_eq!(rate_conversion(10, &ArcType::Zip), Err(ArcError::InvalidRate));
    assert_eq!(rate_conversion(10, &ArcType::Tar), Err(ArcError::InvalidRate));
    assert_eq!(rate_conversion(10, &ArcType::Zstd), Err(ArcError::InvalidRate));
    assert_eq!(rate_conversion(255, &ArcType::Rar), Err(ArcError::InvalidRate));
}
