//! Resolution of resource names into the identifier, kind and options that a
//! platform image loader takes, with the checks and diagnostics around it.
use crate::text::{
    contains_char, contains_text, ends_with_char, extension, extension_of, has_substring,
    same_text, trim_nul, trim_trailing_nul,
};
use vstd::prelude::*;

verus! {

/// Load the image in black and white.
pub const LR_MONOCHROME: u32 = 0x1;

/// Load the image from a file rather than from a module.
pub const LR_LOADFROMFILE: u32 = 0x10;

/// Make every pixel that matches the first pixel transparent.
pub const LR_LOADTRANSPARENT: u32 = 0x20;

/// Use the system's default size for the resource.
pub const LR_DEFAULTSIZE: u32 = 0x40;

/// Load the image with true VGA colors.
pub const LR_VGACOLOR: u32 = 0x80;

/// Replace gray shades with the matching 3D colors.
pub const LR_LOADMAP3DCOLORS: u32 = 0x1000;

/// Create a DIB section bitmap rather than a compatible one.
pub const LR_CREATEDIBSECTION: u32 = 0x2000;

/// Share the handle of a resource that the system loads once.
pub const LR_SHARED: u32 = 0x8000;

/// System cursor id reserved for sizing; no cursor can be loaded by it.
pub const OCR_SIZE: u32 = 32640;

/// System cursor id reserved for the icon cursor; no cursor can be loaded by it.
pub const OCR_ICON: u32 = 32641;

/// System cursor id reserved for the icon-cursor; no cursor can be loaded by it.
pub const OCR_ICOCUR: u32 = 32647;

/// The handle that stands for "no module": system resources resolve against it.
pub const SYSTEM_MODULE: usize = 0;

#[derive(Clone, Copy, Debug, PartialEq, Eq, Structural)]
pub enum ResourceKind {
    Icon,
    Cursor,
    Bitmap,
}

/// The kinds that the system supplies constants for.
#[derive(Clone, Copy, Debug, PartialEq, Eq, Structural)]
pub enum SystemKind {
    Icon,
    Cursor,
}

impl SystemKind {
    pub open spec fn spec_kind(self) -> ResourceKind {
        match self {
            SystemKind::Icon => ResourceKind::Icon,
            SystemKind::Cursor => ResourceKind::Cursor,
        }
    }

    #[verifier::when_used_as_spec(spec_kind)]
    pub fn kind(self) -> (r: ResourceKind)
        ensures
            r == self.spec_kind(),
    {
        match self {
            SystemKind::Icon => ResourceKind::Icon,
            SystemKind::Cursor => ResourceKind::Cursor,
        }
    }
}

/// Where the identity of a resource comes from.
#[derive(Debug)]
pub enum ResourceName {
    /// Not set yet.
    Empty,
    /// A symbolic name compiled into a module, ending in `'\0'`; it holds
    /// `BMP`, `CUR` or `ICO` in some case, which gives its kind.
    Name(String),
    /// A path ending in `'\0'` to a `.ico`, `.cur` or `.bmp` file.
    FilePath(String),
    /// A numeric id of a resource compiled into a module.
    EmbeddedOrdinal(ResourceKind, u32),
    /// A well-known id that the system supplies.
    SystemConstant(SystemKind, u32),
}

impl ResourceName {
    /// The file whose existence loading this name depends on: a path without
    /// its terminators. Other names depend on no file.
    pub fn probe_path(&self) -> (r: Option<&str>)
        ensures
            match self {
                ResourceName::FilePath(t) => r is Some && r.unwrap()@ == trim_nul(t@),
                _ => r is None,
            },
    {
        match self {
            ResourceName::FilePath(t) => Some(trim_trailing_nul(t.as_str())),
            _ => None,
        }
    }
}

/// The identifier handed to the loader.
#[derive(Debug)]
pub enum ResourceId {
    /// The name or path itself, terminator included.
    Text(String),
    /// A numeric id.
    Ordinal(u32),
    /// No identifier.
    Null,
}

/// Why a resource name does not resolve.
#[derive(Clone, Copy, Debug, PartialEq, Eq, Structural)]
pub enum ResolveError {
    /// No name was set.
    Unset,
    NameEmpty,
    NameUnterminated,
    /// The name holds none of `BMP`, `CUR` and `ICO`.
    NameInvalid,
    FileNameEmpty,
    FileNameUnterminated,
    NoExtension,
    /// The extension is none of `ico`, `cur` and `bmp`.
    BadExtension,
    /// The path holds the replacement character U+FFFD.
    InvalidUnicode,
    FileMissing,
    /// A system cursor constant that is reserved.
    ReservedCursor,
}

/// What the system cursor ids reserved for other uses are.
pub open spec fn is_reserved_cursor(id: u32) -> bool {
    id == OCR_SIZE || id == OCR_ICON || id == OCR_ICOCUR
}

/// The upper-case form of `s`, as `str::to_uppercase` gives it.
pub uninterp spec fn upper_of(s: Seq<char>) -> Seq<char>;

/// Relies on `str::to_uppercase`: the Unicode upper-case mapping of each
/// character, which depends on the characters alone.
#[verifier::external_body]
fn to_uppercase(s: &str) -> (r: String)
    ensures
        r@ == upper_of(s@),
{
    s.to_uppercase()
}

/// The kind that an upper-cased name gives: the first of `BMP`, `CUR` and
/// `ICO`, in that order, that it holds.
pub open spec fn kind_in(upper: Seq<char>) -> Option<ResourceKind> {
    if has_substring(upper, "BMP"@) {
        Some(ResourceKind::Bitmap)
    } else if has_substring(upper, "CUR"@) {
        Some(ResourceKind::Cursor)
    } else if has_substring(upper, "ICO"@) {
        Some(ResourceKind::Icon)
    } else {
        None
    }
}

/// The kind that a file extension gives.
pub open spec fn extension_kind(ext: Seq<char>) -> Option<ResourceKind> {
    if ext == "cur"@ {
        Some(ResourceKind::Cursor)
    } else if ext == "ico"@ {
        Some(ResourceKind::Icon)
    } else if ext == "bmp"@ {
        Some(ResourceKind::Bitmap)
    } else {
        None
    }
}

/// The kind that an upper-cased name gives.
pub fn kind_from_upper(upper: &str) -> (r: Option<ResourceKind>)
    ensures
        r == kind_in(upper@),
{
    if contains_text(upper, "BMP") {
        Some(ResourceKind::Bitmap)
    } else if contains_text(upper, "CUR") {
        Some(ResourceKind::Cursor)
    } else if contains_text(upper, "ICO") {
        Some(ResourceKind::Icon)
    } else {
        None
    }
}

/// The kind that a file extension gives.
pub fn kind_from_extension(ext: &str) -> (r: Option<ResourceKind>)
    ensures
        r == extension_kind(ext@),
{
    if same_text(ext, "cur") {
        Some(ResourceKind::Cursor)
    } else if same_text(ext, "ico") {
        Some(ResourceKind::Icon)
    } else if same_text(ext, "bmp") {
        Some(ResourceKind::Bitmap)
    } else {
        None
    }
}

/// What resolving `name` gives: its kind and loader identifier, or why it
/// fails. `file_exists` says whether the file a path names exists.
pub open spec fn resolution(name: ResourceName, file_exists: bool) -> Result<
    (ResourceKind, ResourceId),
    ResolveError,
> {
    match name {
        ResourceName::Empty => Err(ResolveError::Unset),
        ResourceName::Name(t) => {
            if t@.len() == 0 {
                Err(ResolveError::NameEmpty)
            } else if t@.last() != '\0' {
                Err(ResolveError::NameUnterminated)
            } else {
                match kind_in(upper_of(t@)) {
                    Some(k) => Ok((k, ResourceId::Text(t))),
                    None => Err(ResolveError::NameInvalid),
                }
            }
        },
        ResourceName::FilePath(t) => {
            let path = trim_nul(t@);
            if t@.len() == 0 {
                Err(ResolveError::FileNameEmpty)
            } else if t@.last() != '\0' {
                Err(ResolveError::FileNameUnterminated)
            } else {
                match extension_of(path) {
                    None => Err(ResolveError::NoExtension),
                    Some(e) => match extension_kind(e) {
                        None => Err(ResolveError::BadExtension),
                        Some(k) => {
                            if path.contains('\u{FFFD}') {
                                Err(ResolveError::InvalidUnicode)
                            } else if !file_exists {
                                Err(ResolveError::FileMissing)
                            } else {
                                Ok((k, ResourceId::Text(t)))
                            }
                        },
                    },
                }
            }
        },
        ResourceName::EmbeddedOrdinal(k, id) => Ok((k, ResourceId::Ordinal(id))),
        ResourceName::SystemConstant(k, id) => {
            if k == SystemKind::Cursor && is_reserved_cursor(id) {
                Err(ResolveError::ReservedCursor)
            } else {
                Ok((k.spec_kind(), ResourceId::Ordinal(id)))
            }
        },
    }
}

/// Resolves `name` without touching any builder state.
pub fn resolve_name(name: &ResourceName, file_exists: bool) -> (r: Result<
    (ResourceKind, ResourceId),
    ResolveError,
>)
    ensures
        r == resolution(*name, file_exists),
{
    match name {
        ResourceName::Empty => Err(ResolveError::Unset),
        ResourceName::Name(t) => {
            if t.as_str().is_empty() {
                Err(ResolveError::NameEmpty)
            } else if !ends_with_char(t.as_str(), '\0') {
                Err(ResolveError::NameUnterminated)
            } else {
                let upper = to_uppercase(t.as_str());
                match kind_from_upper(upper.as_str()) {
                    Some(k) => Ok((k, ResourceId::Text(t.clone()))),
                    None => Err(ResolveError::NameInvalid),
                }
            }
        },
        ResourceName::FilePath(t) => {
            if t.as_str().is_empty() {
                Err(ResolveError::FileNameEmpty)
            } else if !ends_with_char(t.as_str(), '\0') {
                Err(ResolveError::FileNameUnterminated)
            } else {
                let path = trim_trailing_nul(t.as_str());
                match extension(path) {
                    None => Err(ResolveError::NoExtension),
                    Some(e) => match kind_from_extension(e) {
                        None => Err(ResolveError::BadExtension),
                        Some(k) => {
                            if contains_char(path, '\u{FFFD}') {
                                Err(ResolveError::InvalidUnicode)
                            } else if !file_exists {
                                Err(ResolveError::FileMissing)
                            } else {
                                Ok((k, ResourceId::Text(t.clone())))
                            }
                        },
                    },
                }
            }
        },
        ResourceName::EmbeddedOrdinal(k, id) => Ok((*k, ResourceId::Ordinal(*id))),
        ResourceName::SystemConstant(k, id) => {
            if *k == SystemKind::Cursor && (*id == OCR_SIZE || *id == OCR_ICON || *id
                == OCR_ICOCUR) {
                Err(ResolveError::ReservedCursor)
            } else {
                Ok((k.kind(), ResourceId::Ordinal(*id)))
            }
        },
    }
}

/// The text a name or path carries; other names carry none.
pub open spec fn name_text(name: ResourceName) -> Seq<char> {
    match name {
        ResourceName::Name(t) => t@,
        ResourceName::FilePath(t) => t@,
        _ => Seq::empty(),
    }
}

/// The error line logged when `name` fails to resolve with `e`.
pub open spec fn resolve_message(name: ResourceName, e: ResolveError) -> Seq<char> {
    let text = name_text(name);
    let path = trim_nul(text);
    match e {
        ResolveError::Unset => "ResourceBuilder::name_as_pcstr() Name is empty"@,
        ResolveError::NameEmpty => "ResourceBuilder::name_as_pcstr() Name can not be empty"@,
        ResolveError::NameUnterminated => "ResourceBuilder::name_as_pcstr() Name needs to end in '\\0': "@
            + text,
        ResolveError::NameInvalid => "ResourceBuilder::name_as_pcstr() Name is invalid: "@ + text,
        ResolveError::FileNameEmpty => "ResourceBuilder::name_as_pcstr() Filename can not be empty"@,
        ResolveError::FileNameUnterminated =>
            "ResourceBuilder::name_as_pcstr() Filename needs to end in '\\0': "@ + text,
        ResolveError::NoExtension => "ResourceBuilder::name_as_pcstr() No file extension"@,
        ResolveError::BadExtension => "ResourceBuilder::name_as_pcstr() File extension is not valid: ."@
            + match extension_of(path) {
            Some(ext) => ext,
            None => Seq::empty(),
        },
        ResolveError::InvalidUnicode =>
            "ResourceBuilder::name_as_pcstr() File should not have invalid Unicode: "@ + path,
        ResolveError::FileMissing => "ResourceBuilder::name_as_pcstr() File does not exist: "@ + path,
        ResolveError::ReservedCursor =>
            "ResourceBuilder::name_as_pcstr() OCR_SIZE, OCR_ICON and OCR_ICOCUR are no-op with system cursor constants"@,
    }
}

/// The error line for `name` failing to resolve with `e`.
pub fn resolve_error_text(name: &ResourceName, e: ResolveError) -> (r: String)
    ensures
        r@ == resolve_message(*name, e),
{
    proof {
        reveal_strlit("");
    }
    let text: &str = match name {
        ResourceName::Name(t) => t.as_str(),
        ResourceName::FilePath(t) => t.as_str(),
        _ => "",
    };
    assert(text@ == name_text(*name));
    match e {
        ResolveError::Unset => String::from_str("ResourceBuilder::name_as_pcstr() Name is empty"),
        ResolveError::NameEmpty => String::from_str(
            "ResourceBuilder::name_as_pcstr() Name can not be empty",
        ),
        ResolveError::NameUnterminated => String::from_str(
            "ResourceBuilder::name_as_pcstr() Name needs to end in '\\0': ",
        ).concat(text),
        ResolveError::NameInvalid => String::from_str(
            "ResourceBuilder::name_as_pcstr() Name is invalid: ",
        ).concat(text),
        ResolveError::FileNameEmpty => String::from_str(
            "ResourceBuilder::name_as_pcstr() Filename can not be empty",
        ),
        ResolveError::FileNameUnterminated => String::from_str(
            "ResourceBuilder::name_as_pcstr() Filename needs to end in '\\0': ",
        ).concat(text),
        ResolveError::NoExtension => String::from_str(
            "ResourceBuilder::name_as_pcstr() No file extension",
        ),
        ResolveError::BadExtension => {
            let ext: &str = match extension(trim_trailing_nul(text)) {
                Some(x) => x,
                None => "",
            };
            String::from_str("ResourceBuilder::name_as_pcstr() File extension is not valid: .").concat(
                ext,
            )
        },
        ResolveError::InvalidUnicode => String::from_str(
            "ResourceBuilder::name_as_pcstr() File should not have invalid Unicode: ",
        ).concat(trim_trailing_nul(text)),
        ResolveError::FileMissing => String::from_str(
            "ResourceBuilder::name_as_pcstr() File does not exist: ",
        ).concat(trim_trailing_nul(text)),
        ResolveError::ReservedCursor => String::from_str(
            "ResourceBuilder::name_as_pcstr() OCR_SIZE, OCR_ICON and OCR_ICOCUR are no-op with system cursor constants",
        ),
    }
}

} // verus!
