use vstd::prelude::*;

verus! {

/// The last component of a path, as `std::path::Path::file_name` gives it.
pub uninterp spec fn path_file_name(path: Seq<char>) -> Option<Seq<char>>;

/// Relies on `std::path::Path::file_name`: the final component of the path,
/// none where the path ends in `..` or has no component. A `&str` path is valid
/// UTF-8, so its components are too.
#[verifier::external_body]
fn file_name_of_path(path: &str) -> (r: Option<String>)
    ensures
        match r {
            Some(name) => path_file_name(path@) == Some(name@),
            None => path_file_name(path@) is None,
        },
{
    std::path::Path::new(path).file_name().and_then(|n| n.to_str()).map(|n| n.to_string())
}

/// The compressed tar formats that can be unpacked.
#[derive(Clone, Copy, Debug, PartialEq, Eq, Structural)]
pub enum ArchiveFormat {
    /// gzip-compressed tar: `.tar.gz` or `.tgz`.
    TarGz,
    /// LZ4-compressed tar: `.tar.lz4`.
    TarLz4,
}

/// Why an archive cannot be unpacked.
#[derive(Debug, PartialEq, Eq)]
pub enum ExtractError {
    /// The archive path names no file.
    MissingFileName,
    /// The file name has none of the known archive suffixes.
    UnsupportedFormat { file_name: String },
}

/// An archive to unpack: its format, where it is, and where its contents go.
#[derive(Debug, PartialEq, Eq)]
pub struct ExtractJob {
    pub format: ArchiveFormat,
    pub archive_path: String,
    pub output_dir: String,
}

/// `s` ends with `suffix`.
pub open spec fn has_suffix(s: Seq<char>, suffix: Seq<char>) -> bool {
    suffix.len() <= s.len() && s.subrange(s.len() - suffix.len(), s.len() as int) == suffix
}

/// The archive format that a file name announces by its suffix.
pub open spec fn format_of(name: Seq<char>) -> Option<ArchiveFormat> {
    if has_suffix(name, seq!['.', 't', 'a', 'r', '.', 'g', 'z']) || has_suffix(
        name,
        seq!['.', 't', 'g', 'z'],
    ) {
        Some(ArchiveFormat::TarGz)
    } else if has_suffix(name, seq!['.', 't', 'a', 'r', '.', 'l', 'z', '4']) {
        Some(ArchiveFormat::TarLz4)
    } else {
        None
    }
}

/// Whether `s` ends with `suffix`.
pub fn ends_with(s: &str, suffix: &str) -> (r: bool)
    ensures
        r == has_suffix(s@, suffix@),
{
    let n = s.unicode_len();
    let m = suffix.unicode_len();
    if m > n {
        return false;
    }
    let mut i: usize = 0;
    while i < m
        invariant
            m <= n,
            n == s@.len(),
            m == suffix@.len(),
            i <= m,
            forall|k: int| 0 <= k < i ==> s@[n - m + k] == suffix@[k],
        decreases m - i,
    {
        if s.get_char(n - m + i) != suffix.get_char(i) {
            assert(s@.subrange(n - m, n as int)[i as int] != suffix@[i as int]);
            return false;
        }
        i = i + 1;
    }
    assert(s@.subrange(n - m, n as int) =~= suffix@);
    true
}

/// The archive format that `file_name` announces, if any.
pub fn archive_format(file_name: &str) -> (r: Option<ArchiveFormat>)
    ensures
        r == format_of(file_name@),
{
    proof {
        reveal_strlit(".tar.gz");
        reveal_strlit(".tgz");
        reveal_strlit(".tar.lz4");
        assert(".tar.gz"@ =~= seq!['.', 't', 'a', 'r', '.', 'g', 'z']);
        assert(".tgz"@ =~= seq!['.', 't', 'g', 'z']);
        assert(".tar.lz4"@ =~= seq!['.', 't', 'a', 'r', '.', 'l', 'z', '4']);
    }
    if ends_with(file_name, ".tar.gz") || ends_with(file_name, ".tgz") {
        Some(ArchiveFormat::TarGz)
    } else if ends_with(file_name, ".tar.lz4") {
        Some(ArchiveFormat::TarLz4)
    } else {
        None
    }
}

/// Unpacks compressed tar archives, choosing the method by file name.
pub struct Extractor {}

impl Extractor {
    pub fn new() -> Extractor {
        Extractor {  }
    }

    /// Decides how the archive at `archive_path` is unpacked into `output_dir`:
    /// by the suffix of its file name, `.tar.gz` or `.tgz` for gzip and
    /// `.tar.lz4` for LZ4. Any other name is refused.
    pub fn extract(&self, archive_path: &str, output_dir: &str) -> (r: Result<
        ExtractJob,
        ExtractError,
    >)
        ensures
            match path_file_name(archive_path@) {
                None => r == Err::<ExtractJob, ExtractError>(ExtractError::MissingFileName),
                Some(name) => match format_of(name) {
                    Some(format) => match r {
                        Ok(job) => job.format == format && job.archive_path@ == archive_path@
                            && job.output_dir@ == output_dir@,
                        Err(_) => false,
                    },
                    None => match r {
                        Err(ExtractError::UnsupportedFormat { file_name }) => file_name@ == name,
                        _ => false,
                    },
                },
            },
    {
        match file_name_of_path(archive_path) {
            None => Err(ExtractError::MissingFileName),
            Some(name) => match archive_format(name.as_str()) {
                Some(format) => Ok(
                    ExtractJob {
                        format,
                        archive_path: String::from_str(archive_path),
                        output_dir: String::from_str(output_dir),
                    },
                ),
                None => Err(ExtractError::UnsupportedFormat { file_name: name }),
            },
        }
    }
}

} // verus!
