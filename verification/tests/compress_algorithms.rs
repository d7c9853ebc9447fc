use compress_iceberg::compress_algorithms::CompressAlgorithm;

const ALL: [CompressAlgorithm; 9] = [
    CompressAlgorithm::Brotli,
    CompressAlgorithm::Bz2,
    CompressAlgorithm::Deflate,
    CompressAlgorithm::Gzip,
    CompressAlgorithm::Lzma,
    CompressAlgorithm::Xz,
    CompressAlgorithm::Zlib,
    CompressAlgorithm::Zip,
    CompressAlgorithm::Zstd,
];

#[test]
fn test_from_bytes_gzip() {
    assert_eq!(
        CompressAlgorithm::from_bytes(&[0x1F, 0x8B, 0x08]),
        Some(CompressAlgorithm::Gzip)
    );
}

#[test]
fn test_from_bytes_zip() {
    assert_eq!(
        CompressAlgorithm::from_bytes(&[0x50, 0x4B, 0x03, 0x04, 0x14]),
        Some(CompressAlgorithm::Zip)
    );
}

#[test]
fn test_from_bytes_zstd() {
    assert_eq!(
        CompressAlgorithm::from_bytes(&[0x28, 0xB5, 0x2F, 0xFD, 0x00]),
        Some(CompressAlgorithm::Zstd)
    );
}

#[test]
fn test_from_bytes_unknown() {
    assert_eq!(CompressAlgorithm::from_bytes(&[0u8; 10]), None);
}

#[test]
fn from_bytes_bz2_and_xz() {
    assert_eq!(
        CompressAlgorithm::from_bytes(b"BZh91AY&SY"),
        Some(CompressAlgorithm::Bz2)
    );
    assert_eq!(
        CompressAlgorithm::from_bytes(&[0xFD, b'7', b'z', b'X', b'Z', 0x00, 0x00]),
        Some(CompressAlgorithm::Xz)
    );
}

#[test]
fn from_bytes_zlib_header_check() {
    // 0x789C: the default zlib header, a multiple of 31.
    assert_eq!(
        CompressAlgorithm::from_bytes(&[0x78, 0x9C, 0x00]),
        Some(CompressAlgorithm::Zlib)
    );
    assert_eq!(
        CompressAlgorithm::from_bytes(&[0x78, 0x01]),
        Some(CompressAlgorithm::Zlib)
    );
    assert_eq!(
        CompressAlgorithm::from_bytes(&[0x78, 0xDA]),
        Some(CompressAlgorithm::Zlib)
    );
    // 0x789D is not a multiple of 31.
    assert_eq!(CompressAlgorithm::from_bytes(&[0x78, 0x9D]), None);
    // a CMF other than 0x78 is not recognised.
    assert_eq!(CompressAlgorithm::from_bytes(&[0x58, 0x85]), None);
}

#[test]
fn from_bytes_truncated_headers() {
    assert_eq!(CompressAlgorithm::from_bytes(&[]), None);
    assert_eq!(CompressAlgorithm::from_bytes(&[0x1F]), None);
    assert_eq!(CompressAlgorithm::from_bytes(&[0x50, 0x4B, 0x03]), None);
    assert_eq!(CompressAlgorithm::from_bytes(b"BZ"), None);
    assert_eq!(
        CompressAlgorithm::from_bytes(&[0xFD, b'7', b'z', b'X', b'Z']),
        None
    );
    assert_eq!(CompressAlgorithm::from_bytes(&[0x28, 0xB5, 0x2F]), None);
    assert_eq!(CompressAlgorithm::from_bytes(&[0x78]), None);
}

#[test]
fn from_bytes_prefix_stable() {
    let headers: [&[u8]; 6] = [
        &[0x1F, 0x8B],
        &[0x50, 0x4B, 0x03, 0x04],
        b"BZh",
        &[0xFD, b'7', b'z', b'X', b'Z', 0x00],
        &[0x28, 0xB5, 0x2F, 0xFD],
        &[0x78, 0x9C],
    ];
    for h in headers {
        let found = CompressAlgorithm::from_bytes(h);
        assert!(found.is_some());
        let mut longer = h.to_vec();
        longer.extend_from_slice(&[0x78, 0x9C, 0x1F, 0x8B, 0xFF]);
        assert_eq!(CompressAlgorithm::from_bytes(&longer), found);
    }
}

#[test]
fn from_bytes_never_reports_headerless_formats() {
    for first in 0..=255u8 {
        for second in [0x00u8, 0x01, 0x8B, 0x9C, 0xB5, 0xDA, 0xFF] {
            let found = CompressAlgorithm::from_bytes(&[first, second, 0x03, 0x04, 0x5A, 0x00]);
            assert_ne!(found, Some(CompressAlgorithm::Brotli));
            assert_ne!(found, Some(CompressAlgorithm::Deflate));
            assert_ne!(found, Some(CompressAlgorithm::Lzma));
        }
    }
}

#[test]
fn extension_values() {
    assert_eq!(CompressAlgorithm::Brotli.extension(), "br");
    assert_eq!(CompressAlgorithm::Bz2.extension(), "bz2");
    assert_eq!(CompressAlgorithm::Deflate.extension(), "deflate");
    assert_eq!(CompressAlgorithm::Gzip.extension(), "gz");
    assert_eq!(CompressAlgorithm::Lzma.extension(), "lzma");
    assert_eq!(CompressAlgorithm::Xz.extension(), "xz");
    assert_eq!(CompressAlgorithm::Zlib.extension(), "zl");
    assert_eq!(CompressAlgorithm::Zstd.extension(), "zstd");
    assert_eq!(CompressAlgorithm::Zip.extension(), "zip");
}

#[test]
fn extension_round_trip() {
    for a in ALL {
        assert_eq!(CompressAlgorithm::from_extension(a.extension()), Some(a));
    }
}

#[test]
fn from_extension_aliases_and_unknown() {
    assert_eq!(
        CompressAlgorithm::from_extension("zst"),
        Some(CompressAlgorithm::Zstd)
    );
    assert_eq!(CompressAlgorithm::from_extension(""), None);
    assert_eq!(CompressAlgorithm::from_extension("GZ"), None);
    assert_eq!(CompressAlgorithm::from_extension("gzip"), None);
    assert_eq!(CompressAlgorithm::from_extension(".gz"), None);
    assert_eq!(CompressAlgorithm::from_extension("tar"), None);
}

#[test]
fn from_path_values() {
    assert_eq!(
        CompressAlgorithm::from_path("data/file.csv.gz"),
        Some(CompressAlgorithm::Gzip)
    );
    assert_eq!(
        CompressAlgorithm::from_path("/a/b/c.parquet.zst"),
        Some(CompressAlgorithm::Zstd)
    );
    assert_eq!(
        CompressAlgorithm::from_path("s3://bucket/key.bz2"),
        Some(CompressAlgorithm::Bz2)
    );
    assert_eq!(CompressAlgorithm::from_path("file.csv"), None);
    assert_eq!(CompressAlgorithm::from_path("file"), None);
    assert_eq!(CompressAlgorithm::from_path(""), None);
}

#[test]
fn from_path_follows_std_path_rules() {
    // a leading dot alone does not start an extension
    assert_eq!(CompressAlgorithm::from_path(".gz"), None);
    assert_eq!(CompressAlgorithm::from_path("dir/.gz"), None);
    // but a second dot does
    assert_eq!(
        CompressAlgorithm::from_path("..gz"),
        Some(CompressAlgorithm::Gzip)
    );
    // trailing separators and `.` components are ignored
    assert_eq!(
        CompressAlgorithm::from_path("dir/file.gz/"),
        Some(CompressAlgorithm::Gzip)
    );
    assert_eq!(
        CompressAlgorithm::from_path("dir/file.gz/."),
        Some(CompressAlgorithm::Gzip)
    );
    assert_eq!(
        CompressAlgorithm::from_path("dir/file.xz/./"),
        Some(CompressAlgorithm::Xz)
    );
    // a path ending in `..` has no file name
    assert_eq!(CompressAlgorithm::from_path("dir/file.gz/.."), None);
    // the extension of a directory in the middle does not count
    assert_eq!(CompressAlgorithm::from_path("dir.gz/file"), None);
    assert_eq!(CompressAlgorithm::from_path("/"), None);
    assert_eq!(CompressAlgorithm::from_path("."), None);
}

#[test]
fn from_path_agrees_with_std() {
    let paths = [
        "a.gz", "a.b.zst", ".gz", "..gz", "a/.gz", "a.gz/", "a.gz/.", "a.gz/..", "./a.zip",
        "a/./b.xz", "a.gz//", "", "/", ".", "..", "a.", "a..br", "é.lzma", "日本.deflate/",
        "x/y/z", "x.zl/./.", "./.", "a/b.gz/./c",
    ];
    for p in paths {
        let expected = std::path::Path::new(p)
            .extension()
            .and_then(|e| e.to_str())
            .and_then(CompressAlgorithm::from_extension);
        assert_eq!(CompressAlgorithm::from_path(p), expected, "path {p:?}");
    }
}

#[test]
fn from_path_or_bytes_prefers_path() {
    let gzip = [0x1F, 0x8B, 0x08];
    assert_eq!(
        CompressAlgorithm::from_path_or_bytes("file.zst", &gzip),
        Some(CompressAlgorithm::Zstd)
    );
    assert_eq!(
        CompressAlgorithm::from_path_or_bytes("file.csv", &gzip),
        Some(CompressAlgorithm::Gzip)
    );
    assert_eq!(
        CompressAlgorithm::from_path_or_bytes("file.csv", &[0u8; 4]),
        None
    );
}
