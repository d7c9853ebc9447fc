//! The compression algorithms, their file extensions, and their detection
//! from a file path or from the leading bytes of a file.

use vstd::prelude::*;

use crate::path::{opt_str_view, path_extension, spec_path_extension};
use crate::text::str_eq;

verus! {

/// CompressAlgorithm represents all compress algorithm that OpenDAL supports.
#[derive(Clone, Copy, Debug, PartialEq, Eq, Structural)]
pub enum CompressAlgorithm {
    /// [Brotli](https://github.com/google/brotli) compression format.
    Brotli,
    /// [bzip2](http://sourceware.org/bzip2/) compression format.
    Bz2,
    /// [Deflate](https://datatracker.ietf.org/doc/html/rfc1951) Compressed Data Format.
    ///
    /// Similar to [`CompressAlgorithm::Gzip`] and [`CompressAlgorithm::Zlib`]
    Deflate,
    /// [Gzip](https://datatracker.ietf.org/doc/html/rfc1952) compress format.
    ///
    /// Similar to [`CompressAlgorithm::Deflate`] and [`CompressAlgorithm::Zlib`]
    Gzip,
    /// [LZMA](https://www.7-zip.org/sdk.html) compress format.
    Lzma,
    /// [Xz](https://tukaani.org/xz/) compress format, the successor of [`CompressAlgorithm::Lzma`].
    Xz,
    /// [Zlib](https://datatracker.ietf.org/doc/html/rfc1950) compress format.
    ///
    /// Similar to [`CompressAlgorithm::Deflate`] and [`CompressAlgorithm::Gzip`]
    Zlib,
    /// [Zip](https://pkware.cachefly.net/webdocs/APPNOTE/APPNOTE-6.3.10.TXT) compress format.
    Zip,
    /// [Zstd](https://github.com/facebook/zstd) compression algorithm
    Zstd,
}

/// The file extension of each algorithm.
pub open spec fn spec_extension(a: CompressAlgorithm) -> Seq<char> {
    match a {
        CompressAlgorithm::Brotli => "br"@,
        CompressAlgorithm::Bz2 => "bz2"@,
        CompressAlgorithm::Deflate => "deflate"@,
        CompressAlgorithm::Gzip => "gz"@,
        CompressAlgorithm::Lzma => "lzma"@,
        CompressAlgorithm::Xz => "xz"@,
        CompressAlgorithm::Zlib => "zl"@,
        CompressAlgorithm::Zstd => "zstd"@,
        CompressAlgorithm::Zip => "zip"@,
    }
}

/// The algorithm that a file extension names: each algorithm's own
/// extension, and `zst` besides for Zstd.
pub open spec fn spec_from_extension(ext: Seq<char>) -> Option<CompressAlgorithm> {
    if ext == "br"@ {
        Some(CompressAlgorithm::Brotli)
    } else if ext == "bz2"@ {
        Some(CompressAlgorithm::Bz2)
    } else if ext == "deflate"@ {
        Some(CompressAlgorithm::Deflate)
    } else if ext == "gz"@ {
        Some(CompressAlgorithm::Gzip)
    } else if ext == "lzma"@ {
        Some(CompressAlgorithm::Lzma)
    } else if ext == "xz"@ {
        Some(CompressAlgorithm::Xz)
    } else if ext == "zl"@ {
        Some(CompressAlgorithm::Zlib)
    } else if ext == "zstd"@ || ext == "zst"@ {
        Some(CompressAlgorithm::Zstd)
    } else if ext == "zip"@ {
        Some(CompressAlgorithm::Zip)
    } else {
        None
    }
}

/// The algorithm that a path's extension names.
pub open spec fn spec_from_path(path: Seq<char>) -> Option<CompressAlgorithm> {
    match spec_path_extension(path) {
        Some(ext) => spec_from_extension(ext),
        None => None,
    }
}

/// `data` begins with `magic`.
pub open spec fn has_prefix(data: Seq<u8>, magic: Seq<u8>) -> bool {
    magic.len() <= data.len() && data.subrange(0, magic.len() as int) == magic
}

/// Gzip's magic bytes.
pub open spec fn gzip_magic() -> Seq<u8> {
    seq![0x1Fu8, 0x8Bu8]
}

/// Zip's magic bytes (a local file header).
pub open spec fn zip_magic() -> Seq<u8> {
    seq![0x50u8, 0x4Bu8, 0x03u8, 0x04u8]
}

/// Bzip2's magic bytes, `BZh`.
pub open spec fn bz2_magic() -> Seq<u8> {
    seq![0x42u8, 0x5Au8, 0x68u8]
}

/// Xz's magic bytes, `\xFD7zXZ\0`.
pub open spec fn xz_magic() -> Seq<u8> {
    seq![0xFDu8, 0x37u8, 0x7Au8, 0x58u8, 0x5Au8, 0x00u8]
}

/// Zstd's magic bytes (the frame magic number, little endian).
pub open spec fn zstd_magic() -> Seq<u8> {
    seq![0x28u8, 0xB5u8, 0x2Fu8, 0xFDu8]
}

/// A zlib stream header with a 32K window: CMF is `0x78`, and CMF and FLG
/// read as a big-endian 16-bit number are a multiple of 31.
pub open spec fn is_zlib_header(data: Seq<u8>) -> bool {
    &&& data.len() >= 2
    &&& data[0] == 0x78u8
    &&& (0x78 * 256 + data[1]) % 31 == 0
}

/// The algorithm detected from the leading bytes of a file; the formats
/// are tried in the order Gzip, Zip, Bzip2, Xz, Zstd, Zlib.
pub open spec fn spec_from_bytes(data: Seq<u8>) -> Option<CompressAlgorithm> {
    if has_prefix(data, gzip_magic()) {
        Some(CompressAlgorithm::Gzip)
    } else if has_prefix(data, zip_magic()) {
        Some(CompressAlgorithm::Zip)
    } else if has_prefix(data, bz2_magic()) {
        Some(CompressAlgorithm::Bz2)
    } else if has_prefix(data, xz_magic()) {
        Some(CompressAlgorithm::Xz)
    } else if has_prefix(data, zstd_magic()) {
        Some(CompressAlgorithm::Zstd)
    } else if is_zlib_header(data) {
        Some(CompressAlgorithm::Zlib)
    } else {
        None
    }
}

/// `data` carries the signature of `a`; the formats without a well defined
/// header carry none.
pub open spec fn has_signature(data: Seq<u8>, a: CompressAlgorithm) -> bool {
    match a {
        CompressAlgorithm::Gzip => has_prefix(data, gzip_magic()),
        CompressAlgorithm::Zip => has_prefix(data, zip_magic()),
        CompressAlgorithm::Bz2 => has_prefix(data, bz2_magic()),
        CompressAlgorithm::Xz => has_prefix(data, xz_magic()),
        CompressAlgorithm::Zstd => has_prefix(data, zstd_magic()),
        CompressAlgorithm::Zlib => is_zlib_header(data),
        _ => false,
    }
}

/// Reading an algorithm's extension back gives the algorithm.
pub proof fn lemma_extension_round_trip(a: CompressAlgorithm)
    ensures
        spec_from_extension(spec_extension(a)) == Some(a),
{
    reveal_strlit("br");
    reveal_strlit("bz2");
    reveal_strlit("deflate");
    reveal_strlit("gz");
    reveal_strlit("lzma");
    reveal_strlit("xz");
    reveal_strlit("zl");
    reveal_strlit("zstd");
    reveal_strlit("zst");
    reveal_strlit("zip");
    assert("br"@[0] != "gz"@[0] && "br"@[0] != "xz"@[0] && "br"@[0] != "zl"@[0]);
    assert("gz"@[0] != "xz"@[0] && "gz"@[0] != "zl"@[0] && "xz"@[0] != "zl"@[0]);
    assert("bz2"@[0] != "zst"@[0] && "bz2"@[0] != "zip"@[0] && "zst"@[1] != "zip"@[1]);
    assert("lzma"@[0] != "zstd"@[0]);
    assert("br"@.len() == 2 && "gz"@.len() == 2 && "xz"@.len() == 2 && "zl"@.len() == 2);
    assert("bz2"@.len() == 3 && "zst"@.len() == 3 && "zip"@.len() == 3);
    assert("lzma"@.len() == 4 && "zstd"@.len() == 4 && "deflate"@.len() == 7);
    match a {
        CompressAlgorithm::Brotli => {},
        CompressAlgorithm::Bz2 => {},
        CompressAlgorithm::Deflate => {},
        CompressAlgorithm::Gzip => {},
        CompressAlgorithm::Lzma => {},
        CompressAlgorithm::Xz => {},
        CompressAlgorithm::Zlib => {},
        CompressAlgorithm::Zstd => {},
        CompressAlgorithm::Zip => {},
    }
}

/// An extension names an algorithm only when it is that algorithm's own
/// extension, or `zst` for Zstd.
pub proof fn lemma_from_extension_names_own_extension(ext: Seq<char>, a: CompressAlgorithm)
    requires
        spec_from_extension(ext) == Some(a),
    ensures
        ext == spec_extension(a) || (a == CompressAlgorithm::Zstd && ext == "zst"@),
{
}

/// Every extension is a non-empty string without `/` or `.`.
pub proof fn lemma_extension_is_plain(a: CompressAlgorithm)
    ensures
        spec_extension(a).len() > 0,
        forall|i: int|
            0 <= i < spec_extension(a).len() ==> spec_extension(a)[i] != '/'
                && spec_extension(a)[i] != '.',
{
    reveal_strlit("br");
    reveal_strlit("bz2");
    reveal_strlit("deflate");
    reveal_strlit("gz");
    reveal_strlit("lzma");
    reveal_strlit("xz");
    reveal_strlit("zl");
    reveal_strlit("zstd");
    reveal_strlit("zst");
    reveal_strlit("zip");
}

/// A file named `stem.<extension of a>`, in any directory, is detected as `a`
/// from its path.
pub proof fn lemma_from_path_of_named_file(
    dir: Seq<char>,
    stem: Seq<char>,
    a: CompressAlgorithm,
)
    requires
        dir.len() == 0 || dir.last() == '/',
        stem.len() > 0,
        forall|i: int| 0 <= i < stem.len() ==> stem[i] != '/',
    ensures
        spec_from_path(dir + stem + seq!['.'] + spec_extension(a)) == Some(a),
{
    lemma_extension_is_plain(a);
    crate::path::lemma_extension_of_named_file(dir, stem, spec_extension(a));
    lemma_extension_round_trip(a);
}

/// The signatures exclude one another, so the detected algorithm is exactly
/// the one whose signature the bytes carry, whatever the order of the tests;
/// formats without a well defined header are never reported.
pub proof fn lemma_from_bytes_is_signature(data: Seq<u8>, a: CompressAlgorithm)
    ensures
        spec_from_bytes(data) == Some(a) <==> has_signature(data, a),
{
    if data.len() >= 1 {
        let h1 = data.subrange(0, 1);
        assert(has_prefix(data, gzip_magic()) ==> data[0] == 0x1Fu8) by {
            if has_prefix(data, gzip_magic()) {
                assert(data.subrange(0, 2)[0] == data[0]);
            }
        }
        assert(has_prefix(data, zip_magic()) ==> data[0] == 0x50u8) by {
            if has_prefix(data, zip_magic()) {
                assert(data.subrange(0, 4)[0] == data[0]);
            }
        }
        assert(has_prefix(data, bz2_magic()) ==> data[0] == 0x42u8) by {
            if has_prefix(data, bz2_magic()) {
                assert(data.subrange(0, 3)[0] == data[0]);
            }
        }
        assert(has_prefix(data, xz_magic()) ==> data[0] == 0xFDu8) by {
            if has_prefix(data, xz_magic()) {
                assert(data.subrange(0, 6)[0] == data[0]);
            }
        }
        assert(has_prefix(data, zstd_magic()) ==> data[0] == 0x28u8) by {
            if has_prefix(data, zstd_magic()) {
                assert(data.subrange(0, 4)[0] == data[0]);
            }
        }
    }
}

/// Bytes that follow a recognised header do not change what is detected.
pub proof fn lemma_from_bytes_prefix_stable(data: Seq<u8>, rest: Seq<u8>)
    requires
        spec_from_bytes(data).is_some(),
    ensures
        spec_from_bytes(data + rest) == spec_from_bytes(data),
{
    let full = data + rest;
    assert forall|m: Seq<u8>| m.len() <= data.len() implies (has_prefix(full, m) <==> has_prefix(
        data,
        m,
    )) by {
        assert(full.subrange(0, m.len() as int) =~= data.subrange(0, m.len() as int));
    }
    let a = spec_from_bytes(data).unwrap();
    lemma_from_bytes_is_signature(data, a);
    lemma_from_bytes_is_signature(full, a);
    if a == CompressAlgorithm::Zlib {
        assert(full[0] == data[0] && full[1] == data[1]);
    }
}

impl CompressAlgorithm {
    /// Get the file extension of this compress algorithm.
    pub fn extension(&self) -> (r: &str)
        ensures
            r@ == spec_extension(*self),
    {
        match self {
            CompressAlgorithm::Brotli => "br",
            CompressAlgorithm::Bz2 => "bz2",
            CompressAlgorithm::Deflate => "deflate",
            CompressAlgorithm::Gzip => "gz",
            CompressAlgorithm::Lzma => "lzma",
            CompressAlgorithm::Xz => "xz",
            CompressAlgorithm::Zlib => "zl",
            CompressAlgorithm::Zstd => "zstd",
            CompressAlgorithm::Zip => "zip",
        }
    }

    /// Create CompressAlgorithm from file extension.
    ///
    /// If the file extension is not supported, `None` will be return instead.
    pub fn from_extension(ext: &str) -> (r: Option<CompressAlgorithm>)
        ensures
            r == spec_from_extension(ext@),
    {
        if str_eq(ext, "br") {
            Some(CompressAlgorithm::Brotli)
        } else if str_eq(ext, "bz2") {
            Some(CompressAlgorithm::Bz2)
        } else if str_eq(ext, "deflate") {
            Some(CompressAlgorithm::Deflate)
        } else if str_eq(ext, "gz") {
            Some(CompressAlgorithm::Gzip)
        } else if str_eq(ext, "lzma") {
            Some(CompressAlgorithm::Lzma)
        } else if str_eq(ext, "xz") {
            Some(CompressAlgorithm::Xz)
        } else if str_eq(ext, "zl") {
            Some(CompressAlgorithm::Zlib)
        } else if str_eq(ext, "zstd") || str_eq(ext, "zst") {
            Some(CompressAlgorithm::Zstd)
        } else if str_eq(ext, "zip") {
            Some(CompressAlgorithm::Zip)
        } else {
            None
        }
    }

    /// Create CompressAlgorithm from file path.
    ///
    /// If the extension in file path is not supported, `None` will be return instead.
    pub fn from_path(path: &str) -> (r: Option<CompressAlgorithm>)
        ensures
            r == spec_from_path(path@),
    {
        let ext = path_extension(path);
        match ext {
            Some(e) => {
                assert(spec_path_extension(path@) == Some(e@));
                CompressAlgorithm::from_extension(e)
            },
            None => {
                assert(opt_str_view(ext).is_none());
                None
            },
        }
    }

    /// Try to infer compression algorithm from the binary signature.
    ///
    /// This is best-effort detection so we only check the magic bytes for
    /// formats that have a well defined header. For the rest we return
    /// `None` so the caller can decide how to handle them.
    pub fn from_bytes(data: &[u8]) -> (r: Option<CompressAlgorithm>)
        ensures
            r == spec_from_bytes(data@),
    {
        let ghost d = data@;
        if data.len() >= 2 && data[0] == 0x1F && data[1] == 0x8B {
            assert(d.subrange(0, 2) =~= gzip_magic());
            return Some(CompressAlgorithm::Gzip);
        }
        assert(!has_prefix(d, gzip_magic())) by {
            if has_prefix(d, gzip_magic()) {
                assert(d.subrange(0, 2)[0] == d[0] && d.subrange(0, 2)[1] == d[1]);
            }
        }
        if data.len() >= 4 && data[0] == 0x50 && data[1] == 0x4B && data[2] == 0x03 && data[3]
            == 0x04 {
            assert(d.subrange(0, 4) =~= zip_magic());
            return Some(CompressAlgorithm::Zip);
        }
        assert(!has_prefix(d, zip_magic())) by {
            if has_prefix(d, zip_magic()) {
                let h = d.subrange(0, 4);
                assert(h[0] == d[0] && h[1] == d[1] && h[2] == d[2] && h[3] == d[3]);
            }
        }
        if data.len() >= 3 && data[0] == 0x42 && data[1] == 0x5A && data[2] == 0x68 {
            assert(d.subrange(0, 3) =~= bz2_magic());
            return Some(CompressAlgorithm::Bz2);
        }
        assert(!has_prefix(d, bz2_magic())) by {
            if has_prefix(d, bz2_magic()) {
                let h = d.subrange(0, 3);
                assert(h[0] == d[0] && h[1] == d[1] && h[2] == d[2]);
            }
        }
        if data.len() >= 6 && data[0] == 0xFD && data[1] == 0x37 && data[2] == 0x7A && data[3]
            == 0x58 && data[4] == 0x5A && data[5] == 0x00 {
            assert(d.subrange(0, 6) =~= xz_magic());
            return Some(CompressAlgorithm::Xz);
        }
        assert(!has_prefix(d, xz_magic())) by {
            if has_prefix(d, xz_magic()) {
                let h = d.subrange(0, 6);
                assert(h[0] == d[0] && h[1] == d[1] && h[2] == d[2] && h[3] == d[3] && h[4]
                    == d[4] && h[5] == d[5]);
            }
        }
        if data.len() >= 4 && data[0] == 0x28 && data[1] == 0xB5 && data[2] == 0x2F && data[3]
            == 0xFD {
            assert(d.subrange(0, 4) =~= zstd_magic());
            return Some(CompressAlgorithm::Zstd);
        }
        assert(!has_prefix(d, zstd_magic())) by {
            if has_prefix(d, zstd_magic()) {
                let h = d.subrange(0, 4);
                assert(h[0] == d[0] && h[1] == d[1] && h[2] == d[2] && h[3] == d[3]);
            }
        }
        if data.len() >= 2 {
            let cmf: u8 = data[0];
            let flg: u8 = data[1];
            if cmf == 0x78 {
                let hi: u16 = u16::from(cmf);
                let lo: u16 = u16::from(flg);
                assert(hi == 0x78);
                assert(hi << 8u16 == 0x7800u16) by (bit_vector)
                    requires
                        hi == 0x78u16,
                ;
                if ((hi << 8u16) + lo) % 31 == 0 {
                    return Some(CompressAlgorithm::Zlib);
                }
            }
        }
        None
    }

    /// Try to infer compression algorithm from either file path or binary signature.
    pub fn from_path_or_bytes(path: &str, data: &[u8]) -> (r: Option<CompressAlgorithm>)
        ensures
            r == (match spec_from_path(path@) {
                Some(a) => Some(a),
                None => spec_from_bytes(data@),
            }),
    {
        match CompressAlgorithm::from_path(path) {
            Some(a) => Some(a),
            None => CompressAlgorithm::from_bytes(data),
        }
    }
}

} // verus!
