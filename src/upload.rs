use vstd::prelude::*;
use vstd::string::*;

use crate::storage::text_of;

verus! {

/// Directory that uploaded files are stored in.
pub const UPLOAD_ROOT: &'static str = "/mnt/sdb1";

/// Base name of a stored file whose upload declared no name.
pub const DEFAULT_BASE_NAME: &'static str = "image.jpeg";

/// Extension of a stored file whose content type is absent or has no known extension.
pub const DEFAULT_EXTENSION: &'static str = "mkv";

/// Permission bits of a stored file: owner read, write and execute; group and others read.
pub const UPLOAD_MODE: u32 = 0o744;

/// Largest accepted file, in bytes (100 GB).
pub const FILE_SIZE_LIMIT: u64 = 100_000_000_000;

/// Largest accepted non-file form field, in bytes (100 MB).
pub const FIELD_SIZE_LIMIT: u64 = 100_000_000;

/// Why an upload was not stored.
#[derive(Clone, Copy, Debug, PartialEq, Eq, Structural)]
pub enum UploadError {
    /// The form held no file in the expected field, or was not a readable form.
    FieldMissing,
    /// The upload is larger than the limit.
    PayloadTooLarge,
    /// Writing the file or setting its permissions failed.
    Io,
}

impl UploadError {
    /// The HTTP status that reports the error: client errors for a missing field
    /// or an oversized upload, a server error for a failed write.
    pub fn status_code(&self) -> (r: u16)
        ensures
            r == match self {
                UploadError::FieldMissing => 422u16,
                UploadError::PayloadTooLarge => 413u16,
                UploadError::Io => 500u16,
            },
    {
        match self {
            UploadError::FieldMissing => 422,
            UploadError::PayloadTooLarge => 413,
            UploadError::Io => 500,
        }
    }
}

/// The usual file extension of the media type `top/sub`, where the type is known.
pub uninterp spec fn known_extension_of(top: Seq<char>, sub: Seq<char>) -> Option<Seq<char>>;

/// Relies on rocket's `MediaType::new` and `MediaType::extension`: builds the
/// media type `top/sub` and returns the extension that rocket's table of known
/// media types lists for it. That table is matched by type and subtype alone,
/// without regard to case, so the result depends on the two strings only.
#[verifier::external_body]
fn media_extension(top: &str, sub: &str) -> (r: Option<String>)
    ensures
        text_of(r) == known_extension_of(top@, sub@),
{
    let media = rocket::http::MediaType::new(top.to_string(), sub.to_string());
    media.extension().map(|e| e.as_str().to_string())
}

/// Where a file is stored: `root/base.ext`.
pub open spec fn destination_of(root: Seq<char>, base: Seq<char>, ext: Seq<char>) -> Seq<char> {
    root + "/"@ + base + "."@ + ext
}

/// The confirmation sent back for a stored file.
pub open spec fn confirmation_of(base: Seq<char>, ext: Seq<char>) -> Seq<char> {
    base + " uploaded successfully. With content type: "@ + ext
}

/// Everything decided about an accepted upload before it is written.
#[derive(Debug)]
pub struct UploadPlan {
    pub base_name: String,
    pub extension: String,
    pub path: String,
    pub mode: u32,
    pub message: String,
}

/// Where and how uploads are stored.
pub struct UploadPolicy {
    pub root: String,
    pub default_base_name: String,
    pub default_extension: String,
    pub mode: u32,
    pub size_limit: u64,
}

/// The characters of an optional string slice.
pub open spec fn str_of(o: Option<&str>) -> Option<Seq<char>> {
    match o {
        Some(s) => Some(s@),
        None => None,
    }
}

impl UploadPolicy {
    /// The declared name, or the default base name.
    pub open spec fn chosen_base(&self, declared: Option<Seq<char>>) -> Seq<char> {
        match declared {
            Some(n) => n,
            None => self.default_base_name@,
        }
    }

    /// The looked-up extension, or the default extension.
    pub open spec fn chosen_extension(&self, known: Option<Seq<char>>) -> Seq<char> {
        match known {
            Some(e) => e,
            None => self.default_extension@,
        }
    }

    /// The extension for a declared content type `(type, subtype)`, if any.
    pub open spec fn extension_of_type(&self, content_type: Option<(&str, &str)>) -> Seq<char> {
        match content_type {
            Some((top, sub)) => self.chosen_extension(known_extension_of(top@, sub@)),
            None => self.default_extension@,
        }
    }

    /// `p` stores a file named `base` with extension `ext` under this policy.
    pub open spec fn describes(&self, p: UploadPlan, base: Seq<char>, ext: Seq<char>) -> bool {
        &&& p.base_name@ == base
        &&& p.extension@ == ext
        &&& p.path@ == destination_of(self.root@, base, ext)
        &&& p.mode == self.mode
        &&& p.message@ == confirmation_of(base, ext)
    }

    /// The service's policy.
    pub fn standard() -> (r: UploadPolicy)
        ensures
            r.root@ == UPLOAD_ROOT@,
            r.default_base_name@ == DEFAULT_BASE_NAME@,
            r.default_extension@ == DEFAULT_EXTENSION@,
            r.mode == UPLOAD_MODE,
            r.size_limit == FILE_SIZE_LIMIT,
    {
        UploadPolicy {
            root: String::from_str(UPLOAD_ROOT),
            default_base_name: String::from_str(DEFAULT_BASE_NAME),
            default_extension: String::from_str(DEFAULT_EXTENSION),
            mode: UPLOAD_MODE,
            size_limit: FILE_SIZE_LIMIT,
        }
    }

    /// The declared file name, or the default base name where none was declared.
    pub fn base_name(&self, declared: Option<&str>) -> (r: String)
        ensures
            r@ == self.chosen_base(str_of(declared)),
    {
        match declared {
            Some(n) => String::from_str(n),
            None => self.default_base_name.clone(),
        }
    }

    /// The extension looked up for the content type, or the default extension
    /// where the lookup found none.
    pub fn extension(&self, known: Option<String>) -> (r: String)
        ensures
            r@ == self.chosen_extension(text_of(known)),
    {
        match known {
            Some(e) => e,
            None => self.default_extension.clone(),
        }
    }

    /// The extension for a declared content type `(type, subtype)`: the known
    /// extension of that media type, else the default extension.
    pub fn extension_for(&self, content_type: Option<(&str, &str)>) -> (r: String)
        ensures
            r@ == self.extension_of_type(content_type),
    {
        match content_type {
            Some((top, sub)) => self.extension(media_extension(top, sub)),
            None => self.default_extension.clone(),
        }
    }

    /// Decides where an upload of `size` bytes goes, given its declared name and
    /// the extension looked up for its content type. An upload over the limit is
    /// refused, and nothing is planned for it.
    pub fn plan(&self, size: u64, declared_name: Option<&str>, known_extension: Option<String>) -> (r: Result<UploadPlan, UploadError>)
        ensures
            size > self.size_limit ==> r == Err::<UploadPlan, UploadError>(UploadError::PayloadTooLarge),
            size <= self.size_limit ==> (r matches Ok(p) && self.describes(
                p,
                self.chosen_base(str_of(declared_name)),
                self.chosen_extension(text_of(known_extension)),
            )),
    {
        if size > self.size_limit {
            return Err(UploadError::PayloadTooLarge);
        }
        let base_name = self.base_name(declared_name);
        let extension = self.extension(known_extension);
        let mut path = self.root.clone();
        path.append("/");
        path.append(base_name.as_str());
        path.append(".");
        path.append(extension.as_str());
        let mut message = base_name.clone();
        message.append(" uploaded successfully. With content type: ");
        message.append(extension.as_str());
        Ok(UploadPlan { base_name, extension, path, mode: self.mode, message })
    }

    /// Decides where an upload of `size` bytes goes, given its declared name and
    /// its declared content type `(type, subtype)`.
    pub fn plan_for(&self, size: u64, declared_name: Option<&str>, content_type: Option<(&str, &str)>) -> (r: Result<UploadPlan, UploadError>)
        ensures
            size > self.size_limit ==> r == Err::<UploadPlan, UploadError>(UploadError::PayloadTooLarge),
            size <= self.size_limit ==> (r matches Ok(p) && self.describes(
                p,
                self.chosen_base(str_of(declared_name)),
                self.extension_of_type(content_type),
            )),
    {
        if size > self.size_limit {
            return Err(UploadError::PayloadTooLarge);
        }
        let known = match content_type {
            Some((top, sub)) => media_extension(top, sub),
            None => None,
        };
        self.plan(size, declared_name, known)
    }
}

} // verus!
