//! Resolution of an image reference: a URL, a local file, or base64 data
//! embedded directly. The network and the disk are read by the caller; this
//! module decides what is to be read, decodes embedded data, and decodes the
//! bytes into an image.
use vstd::prelude::*;
use image::DynamicImage;
use crate::translate::text_is;

verus! {

/// `image::DynamicImage`, a decoded image, carried to the engine unopened.
#[verifier::external_type_specification]
#[verifier::external_body]
pub struct ExDynamicImage(DynamicImage);

/// How decoding a `data:` URL failed.
#[derive(Debug, PartialEq, Eq, Structural, Clone, Copy)]
pub enum DataUrlFailure {
    /// Not a `data:` URL.
    NotADataUrl,
    /// No comma between the header and the body.
    NoComma,
    /// The body is not valid base64.
    InvalidBase64,
}

/// What `url::Url::parse` makes of a string: its scheme and its serialization,
/// or nothing where the string is not an absolute URL.
pub uninterp spec fn parsed_url(s: Seq<char>) -> Option<(Seq<char>, Seq<char>)>;

/// The local path that `url::Url::to_file_path` finds in a `file:` URL, as
/// text, as a Unix build computes it.
pub uninterp spec fn file_path_of(s: Seq<char>) -> Option<Seq<char>>;

/// What `data_url` decodes a `data:` URL into.
pub uninterp spec fn data_url_body(s: Seq<char>) -> Result<Seq<u8>, DataUrlFailure>;

/// Relies on `url::Url::parse`, and on `scheme` and `as_str` of the parsed URL:
/// the result is a function of the string alone.
#[verifier::external_body]
fn parse_url(s: &str) -> (r: Option<(String, String)>)
    ensures
        parsed_url(s@) == (match r {
            Some((scheme, text)) => Some((scheme@, text@)),
            None => None,
        }),
{
    url::Url::parse(s).ok().map(|u| (u.scheme().to_string(), u.as_str().to_string()))
}

/// Relies on `url::Url::parse` and `Url::to_file_path`: the path that a
/// `file:` URL names, where it names one that is valid UTF-8; a function of
/// the URL alone.
#[verifier::external_body]
fn file_url_path(s: &str) -> (r: Option<String>)
    ensures
        file_path_of(s@) == (match r {
            Some(p) => Some(p@),
            None => None,
        }),
{
    let path = url::Url::parse(s).ok()?.to_file_path().ok()?;
    path.into_os_string().into_string().ok()
}

/// Relies on `data_url::DataUrl::process` and `DataUrl::decode_to_vec`: the
/// body of a `data:` URL, a function of the URL alone.
#[verifier::external_body]
fn decode_data_url(s: &str) -> (r: Result<Vec<u8>, DataUrlFailure>)
    ensures
        data_url_body(s@) == (match r {
            Ok(b) => Ok(b@),
            Err(e) => Err::<Seq<u8>, DataUrlFailure>(e),
        }),
{
    match data_url::DataUrl::process(s) {
        Ok(d) => match d.decode_to_vec() {
            Ok((body, _)) => Ok(body),
            Err(_) => Err(DataUrlFailure::InvalidBase64),
        },
        Err(data_url::DataUrlError::NotADataUrl) => Err(DataUrlFailure::NotADataUrl),
        Err(data_url::DataUrlError::NoComma) => Err(DataUrlFailure::NoComma),
    }
}

/// Relies on `image::load_from_memory`. Whether it succeeds depends on the
/// format-detection and decoding hooks registered in the process as well as
/// on the bytes, so nothing is stated of it; the error is its message.
#[verifier::external_body]
fn load_image(b: &Vec<u8>) -> (r: Result<DynamicImage, String>)
{
    image::load_from_memory(b).map_err(|e| e.to_string())
}

/// Why an image reference could not be resolved. Each step of the resolution
/// has its own kind.
#[derive(Debug, PartialEq)]
pub enum ResolveError {
    /// The reference is a URL with a scheme other than http, https, file or data.
    UnsupportedScheme(String),
    /// The reference, taken as base64 data, does not form a `data:` URL.
    EmbeddedNotParsable(String),
    /// A `data:` URL whose body could not be decoded.
    DataUrl(DataUrlFailure),
    /// Fetching a remote resource failed.
    Network(String),
    /// A `file:` URL that names no local path.
    FilePath(String),
    /// Opening or reading a local file failed.
    File(String),
    /// The bytes are not an image of a known format.
    Image(String),
}

/// The text of a resolution error.
pub open spec fn resolve_error_text(e: ResolveError) -> Seq<char> {
    match e {
        ResolveError::UnsupportedScheme(s) => "Unsupported URL scheme: "@ + s@,
        ResolveError::EmbeddedNotParsable(r) => "Could not parse as base64 data: "@ + r@,
        ResolveError::DataUrl(DataUrlFailure::NotADataUrl) => "not a valid data url"@,
        ResolveError::DataUrl(DataUrlFailure::NoComma) => "data url is missing comma delimiting attributes and body"@,
        ResolveError::DataUrl(DataUrlFailure::InvalidBase64) => "invalid base64 in data url"@,
        ResolveError::FilePath(u) => "Could not parse file path: "@ + u@,
        ResolveError::Network(m) => m@,
        ResolveError::File(m) => m@,
        ResolveError::Image(m) => m@,
    }
}

impl ResolveError {
    /// The error's text.
    pub fn message(&self) -> (r: String)
        ensures
            r@ == resolve_error_text(*self),
    {
        match self {
            ResolveError::UnsupportedScheme(s) => {
                let mut m = "Unsupported URL scheme: ".to_string();
                m.append(s.as_str());
                m
            },
            ResolveError::EmbeddedNotParsable(r) => {
                let mut m = "Could not parse as base64 data: ".to_string();
                m.append(r.as_str());
                m
            },
            ResolveError::DataUrl(DataUrlFailure::NotADataUrl) => "not a valid data url".to_string(),
            ResolveError::DataUrl(DataUrlFailure::NoComma) => {
                "data url is missing comma delimiting attributes and body".to_string()
            },
            ResolveError::DataUrl(DataUrlFailure::InvalidBase64) => "invalid base64 in data url".to_string(),
            ResolveError::FilePath(u) => {
                let mut m = "Could not parse file path: ".to_string();
                m.append(u.as_str());
                m
            },
            ResolveError::Network(m) => m.clone(),
            ResolveError::File(m) => m.clone(),
            ResolveError::Image(m) => m.clone(),
        }
    }
}

/// What has to be read to obtain the bytes of an image.
#[derive(Debug, PartialEq)]
pub enum FetchPlan {
    /// Download this http or https URL.
    Download(String),
    /// Read the local file at this path, relative to the working directory
    /// where it is not absolute.
    ReadFile(String),
    /// Nothing: these are the bytes, decoded from a `data:` URL.
    Decoded(Vec<u8>),
}

/// The `data:` URL under which a reference is read as base64 image data.
pub open spec fn embedded_url(reference: Seq<char>) -> Seq<char> {
    "data:image/png;base64,"@ + reference
}

/// `r` is what decoding a `data:` URL with outcome `d` gives.
pub open spec fn decoded_as(d: Result<Seq<u8>, DataUrlFailure>, r: Result<FetchPlan, ResolveError>) -> bool {
    match d {
        Ok(b) => r matches Ok(FetchPlan::Decoded(v)) && v@ == b,
        Err(e) => r == Err::<FetchPlan, ResolveError>(ResolveError::DataUrl(e)),
    }
}

/// `r` is the plan for a URL with this scheme and serialization.
pub open spec fn planned_for_url(scheme: Seq<char>, text: Seq<char>, r: Result<FetchPlan, ResolveError>) -> bool {
    if scheme == "http"@ || scheme == "https"@ {
        r matches Ok(FetchPlan::Download(u)) && u@ == text
    } else if scheme == "file"@ {
        match file_path_of(text) {
            Some(p) => r matches Ok(FetchPlan::ReadFile(q)) && q@ == p,
            None => r matches Err(ResolveError::FilePath(u)) && u@ == text,
        }
    } else if scheme == "data"@ {
        decoded_as(data_url_body(text), r)
    } else {
        r matches Err(ResolveError::UnsupportedScheme(sc)) && sc@ == scheme
    }
}

/// `r` is the plan for an image reference: a URL first, then an existing
/// local file, then base64 data embedded directly.
pub open spec fn planned(reference: Seq<char>, is_existing_file: bool, r: Result<FetchPlan, ResolveError>) -> bool {
    match parsed_url(reference) {
        Some((scheme, text)) => planned_for_url(scheme, text, r),
        None => if is_existing_file {
            r matches Ok(FetchPlan::ReadFile(p)) && p@ == reference
        } else {
            match parsed_url(embedded_url(reference)) {
                None => r matches Err(ResolveError::EmbeddedNotParsable(m)) && m@ == reference,
                Some((_, text)) => decoded_as(data_url_body(text), r),
            }
        },
    }
}

fn decode_plan(text: &str) -> (r: Result<FetchPlan, ResolveError>)
    ensures
        decoded_as(data_url_body(text@), r),
{
    match decode_data_url(text) {
        Ok(b) => Ok(FetchPlan::Decoded(b)),
        Err(e) => Err(ResolveError::DataUrl(e)),
    }
}

/// Whether the reference is an absolute URL; only where it is not does it
/// matter whether it names an existing file.
pub fn is_url(reference: &str) -> (r: bool)
    ensures
        r == parsed_url(reference@) is Some,
{
    parse_url(reference).is_some()
}

/// Decides how an image reference is to be read. `is_existing_file` tells
/// whether the reference names a file that exists; it is consulted only
/// where the reference is not a URL.
pub fn plan_fetch(reference: &str, is_existing_file: bool) -> (r: Result<FetchPlan, ResolveError>)
    ensures
        planned(reference@, is_existing_file, r),
        parsed_url(reference@) is None && !is_existing_file ==> (r matches Ok(FetchPlan::Decoded(_))
            || r matches Err(ResolveError::EmbeddedNotParsable(_))
            || r matches Err(ResolveError::DataUrl(_))),
{
    match parse_url(reference) {
        Some((scheme, text)) => {
            if text_is(&scheme, "http") || text_is(&scheme, "https") {
                Ok(FetchPlan::Download(text))
            } else if text_is(&scheme, "file") {
                match file_url_path(text.as_str()) {
                    Some(path) => Ok(FetchPlan::ReadFile(path)),
                    None => Err(ResolveError::FilePath(text)),
                }
            } else if text_is(&scheme, "data") {
                decode_plan(text.as_str())
            } else {
                Err(ResolveError::UnsupportedScheme(scheme))
            }
        },
        None => {
            if is_existing_file {
                Ok(FetchPlan::ReadFile(reference.to_string()))
            } else {
                let mut embedded = "data:image/png;base64,".to_string();
                embedded.append(reference);
                match parse_url(embedded.as_str()) {
                    None => Err(ResolveError::EmbeddedNotParsable(reference.to_string())),
                    Some((_, text)) => decode_plan(text.as_str()),
                }
            }
        },
    }
}

/// Decodes the bytes of an image reference into an image. Whether the bytes
/// decode is up to the image library; a failure is always an image error.
pub fn decode_image_content(bytes: &Vec<u8>) -> (r: Result<DynamicImage, ResolveError>)
    ensures
        r is Err ==> r->Err_0 is Image,
{
    match load_image(bytes) {
        Ok(img) => Ok(img),
        Err(m) => Err(ResolveError::Image(m)),
    }
}

} // verus!
