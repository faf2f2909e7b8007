use vstd::prelude::*;
use std::io::Read;

verus! {

/// Why a compressed shader could not be loaded.
#[derive(Clone, Copy, Debug, PartialEq, Eq, Structural)]
pub enum ArchiveError {
    /// The data is no gzip stream, or what it holds is not UTF-8 text.
    NotGzipText,
}

/// The text held by the gzip stream `data`, or `None` where the data is no
/// valid gzip stream or holds no UTF-8 text.
pub uninterp spec fn gzip_text(data: Seq<u8>) -> Option<Seq<char>>;

/// Relies on flate2's `read::GzDecoder` (parses the gzip header, then
/// inflates the stream) and on `Read::read_to_string`, which fails where the
/// inflated bytes are not UTF-8.
#[verifier::external_body]
fn gunzip_text(data: &[u8]) -> (r: Option<String>)
    ensures
        match r {
            Some(s) => gzip_text(data@) == Some(s@),
            None => gzip_text(data@) == None::<Seq<char>>,
        },
{
    let mut decoder = match flate2::read::GzDecoder::new(data) {
        Ok(d) => d,
        Err(_) => return None,
    };
    let mut text = String::new();
    match decoder.read_to_string(&mut text) {
        Ok(_) => Some(text),
        Err(_) => None,
    }
}

/// The shader source held by a gzip-compressed file's contents.
pub fn decompress_shader(data: &[u8]) -> (r: Result<String, ArchiveError>)
    ensures
        match r {
            Ok(s) => gzip_text(data@) == Some(s@),
            Err(e) => e == ArchiveError::NotGzipText && gzip_text(data@) == None::<Seq<char>>,
        },
{
    match gunzip_text(data) {
        Some(s) => Ok(s),
        None => Err(ArchiveError::NotGzipText),
    }
}

} // verus!
