//! What resolution, validation and the load steps guarantee across inputs
//! and across calls, proved from their specifications.
use crate::builder::{
    has_flag, load_outcome, load_start, lookup_accepts, lookup_outcome, resolved_state, validated,
    warnings, wrong_variant_message, BuilderView, Dimension, LoadError, Warning,
};
use crate::logger::{log_line, Level, LogLine};
use crate::resource::{
    extension_kind, is_reserved_cursor, resolution, resolve_message, upper_of,
    ResolveError, ResourceId, ResourceKind, ResourceName, SystemKind, LR_LOADFROMFILE, LR_SHARED,
    SYSTEM_MODULE,
};
use crate::text::{extension_of, has_substring, occurs_at, trim_nul};
use vstd::prelude::*;

verus! {

/// Resolution either succeeds and logs nothing, or fails and offers exactly
/// one error line, the one for its error.
pub proof fn lemma_resolution_logs_only_failures(s: BuilderView, file_exists: bool)
    ensures
        resolution(s.name, file_exists) is Ok ==> resolved_state(s, file_exists).log == s.log,
        resolution(s.name, file_exists) matches Err(e) ==> resolved_state(s, file_exists).log
            == log_line(s.log, s.threshold, Level::Error, resolve_message(s.name, e)),
{
}

/// An empty symbolic name never loads: the load stops with `NameEmpty`
/// before the loader, and logs exactly one error line, which says that the
/// name can not be empty.
pub proof fn lemma_empty_name_fails(s: BuilderView, t: String, file_exists: bool)
    requires
        s.name == ResourceName::Name(t),
        t@.len() == 0,
        s.threshold >= 1,
    ensures
        load_outcome(s, file_exists).1 == Err::<crate::builder::ImageRequest, LoadError>(
            LoadError::Resolve(ResolveError::NameEmpty),
        ),
        load_outcome(s, file_exists).0.log == s.log.push(
            LogLine {
                level: Level::Error,
                text: resolve_message(s.name, ResolveError::NameEmpty),
                newline: true,
            },
        ),
        has_substring(resolve_message(s.name, ResolveError::NameEmpty), "can not be empty"@),
{
    let m = resolve_message(s.name, ResolveError::NameEmpty);
    reveal_strlit("ResourceBuilder::name_as_pcstr() Name can not be empty");
    reveal_strlit("can not be empty");
    assert(m.subrange(38, 54) =~= "can not be empty"@);
    assert(occurs_at(m, "can not be empty"@, 38));
}

/// A terminated symbolic name that holds `BMP`, `CUR` or `ICO` in any case
/// resolves, to the kind of the first of them in that order, with the name
/// itself as identifier, and resolving it logs nothing.
pub proof fn lemma_marked_name_resolves(s: BuilderView, t: String, file_exists: bool)
    requires
        s.name == ResourceName::Name(t),
        t@.len() > 0,
        t@.last() == '\0',
        has_substring(upper_of(t@), "BMP"@) || has_substring(upper_of(t@), "CUR"@)
            || has_substring(upper_of(t@), "ICO"@),
    ensures
        ({
            let k = if has_substring(upper_of(t@), "BMP"@) {
                ResourceKind::Bitmap
            } else if has_substring(upper_of(t@), "CUR"@) {
                ResourceKind::Cursor
            } else {
                ResourceKind::Icon
            };
            &&& resolution(s.name, file_exists) == Ok::<(ResourceKind, ResourceId), ResolveError>(
                (k, ResourceId::Text(t)),
            )
            &&& resolved_state(s, file_exists).kind == k
            &&& resolved_state(s, file_exists).log == s.log
        }),
{
}

/// A terminated path whose extension is none of `ico`, `cur` and `bmp` fails
/// with `BadExtension`, and its error line ends with that extension, exactly.
pub proof fn lemma_bad_extension_named(t: String, ext: Seq<char>, file_exists: bool)
    requires
        t@.len() > 0,
        t@.last() == '\0',
        extension_of(trim_nul(t@)) == Some(ext),
        extension_kind(ext) is None,
    ensures
        resolution(ResourceName::FilePath(t), file_exists) == Err::<
            (ResourceKind, ResourceId),
            ResolveError,
        >(ResolveError::BadExtension),
        resolve_message(ResourceName::FilePath(t), ResolveError::BadExtension)
            == "ResourceBuilder::name_as_pcstr() File extension is not valid: ."@ + ext,
{
}

/// A terminated path with a valid extension and no replacement character, to
/// a file that does not exist, fails with `FileMissing`; its error line says
/// "does not exist" and holds the path without its terminators.
pub proof fn lemma_missing_file_named(t: String)
    requires
        t@.len() > 0,
        t@.last() == '\0',
        extension_of(trim_nul(t@)) matches Some(ext) && extension_kind(ext) is Some,
        !trim_nul(t@).contains('\u{FFFD}'),
    ensures
        resolution(ResourceName::FilePath(t), false) == Err::<
            (ResourceKind, ResourceId),
            ResolveError,
        >(ResolveError::FileMissing),
        has_substring(
            resolve_message(ResourceName::FilePath(t), ResolveError::FileMissing),
            "does not exist"@,
        ),
        has_substring(
            resolve_message(ResourceName::FilePath(t), ResolveError::FileMissing),
            trim_nul(t@),
        ),
{
    let prefix = "ResourceBuilder::name_as_pcstr() File does not exist: "@;
    let path = trim_nul(t@);
    let m = resolve_message(ResourceName::FilePath(t), ResolveError::FileMissing);
    reveal_strlit("ResourceBuilder::name_as_pcstr() File does not exist: ");
    reveal_strlit("does not exist");
    assert(m == prefix + path);
    assert(m.subrange(38, 52) =~= "does not exist"@);
    assert(occurs_at(m, "does not exist"@, 38));
    assert(m.subrange(prefix.len() as int, (prefix.len() + path.len()) as int) =~= path);
    assert(occurs_at(m, path, prefix.len() as int));
}

/// A reserved system cursor id does not resolve and logs an error line, yet
/// the shared flag, the cursor kind and the system module are forced all the
/// same; a load from it stops before the loader.
pub proof fn lemma_reserved_cursor_fails(s: BuilderView, id: u32, file_exists: bool)
    requires
        s.name == ResourceName::SystemConstant(SystemKind::Cursor, id),
        is_reserved_cursor(id),
        s.threshold >= 1,
    ensures
        load_outcome(s, file_exists).1 == Err::<crate::builder::ImageRequest, LoadError>(
            LoadError::Resolve(ResolveError::ReservedCursor),
        ),
        load_outcome(s, file_exists).0.log == s.log.push(
            LogLine {
                level: Level::Error,
                text: resolve_message(s.name, ResolveError::ReservedCursor),
                newline: true,
            },
        ),
        load_outcome(s, file_exists).0.flags == s.flags | LR_SHARED,
        has_flag(load_outcome(s, file_exists).0.flags, LR_SHARED),
        load_outcome(s, file_exists).0.kind == ResourceKind::Cursor,
        load_outcome(s, file_exists).0.instance == SYSTEM_MODULE,
{
    let f = s.flags;
    assert((f | 0x8000u32) & 0x8000u32 == 0x8000u32) by (bit_vector);
}

/// Loading an icon from a path, a symbolic name or any cursor-kind name
/// fails with `WrongVariant` and changes nothing but the one error line:
/// neither the kind, the flags nor the module, so no check of the resolver
/// ran.
pub proof fn lemma_icon_refuses_other_variants(s: BuilderView)
    requires
        s.name is Name || s.name is FilePath || s.name matches ResourceName::SystemConstant(
            SystemKind::Cursor,
            _,
        ) || s.name matches ResourceName::EmbeddedOrdinal(ResourceKind::Cursor, _),
    ensures
        lookup_outcome(s, SystemKind::Icon).1 == Err::<crate::builder::LookupRequest, LoadError>(
            LoadError::WrongVariant,
        ),
        lookup_outcome(s, SystemKind::Icon).0 == (BuilderView {
            log: lookup_outcome(s, SystemKind::Icon).0.log,
            ..s
        }),
        lookup_outcome(s, SystemKind::Icon).0.log == log_line(
            s.log,
            s.threshold,
            Level::Error,
            wrong_variant_message(SystemKind::Icon),
        ),
{
    assert(!lookup_accepts(SystemKind::Icon, s.name));
}

proof fn lemma_or_twice(x: u32, y: u32)
    ensures
        (x | y) | y == x | y,
{
    assert((x | y) | y == x | y) by (bit_vector);
}

/// A second load of a name that resolved, on the same builder, gives the
/// same request, the same kind and the same warnings as the first: each
/// load's forcing of flags and module is already in place the second time.
pub proof fn lemma_load_repeatable(s: BuilderView, file_exists: bool)
    requires
        resolution(load_start(s).name, file_exists) is Ok,
    ensures
        ({
            let (s1, r1) = load_outcome(s, file_exists);
            let (s2, r2) = load_outcome(s1, file_exists);
            &&& r2 == r1
            &&& s2.kind == s1.kind
            &&& warnings(resolved_state(load_start(s1), file_exists)) == warnings(
                resolved_state(load_start(s), file_exists),
            )
            &&& s2 == validated(s1)
        }),
{
    let a = resolved_state(load_start(s), file_exists);
    let b = resolved_state(load_start(validated(a)), file_exists);
    lemma_or_twice(s.flags, LR_LOADFROMFILE);
    lemma_or_twice(s.flags, LR_SHARED);
    lemma_or_twice(s.flags | LR_LOADFROMFILE, LR_LOADFROMFILE);
    assert(b == validated(a));
}

/// The size warnings: an unset dimension draws "default system" when the
/// default size is asked for and "original image" otherwise, width before
/// height; a set dimension draws none.
pub proof fn lemma_dimension_warnings(s: BuilderView)
    ensures
        s.dimensions == (0i32, 0i32) && has_flag(s.flags, crate::resource::LR_DEFAULTSIZE)
            ==> warnings(s).subrange(0, 2) == seq![
            Warning::DefaultSize(Dimension::Width),
            Warning::DefaultSize(Dimension::Height),
        ],
        s.dimensions == (0i32, 0i32) && !has_flag(s.flags, crate::resource::LR_DEFAULTSIZE)
            ==> warnings(s).subrange(0, 2) == seq![
            Warning::OriginalSize(Dimension::Width),
            Warning::OriginalSize(Dimension::Height),
        ],
        s.dimensions.0 != 0 ==> forall|i: int|
            0 <= i < warnings(s).len() ==> warnings(s)[i] != Warning::DefaultSize(Dimension::Width)
                && warnings(s)[i] != Warning::OriginalSize(Dimension::Width),
        s.dimensions.1 != 0 ==> forall|i: int|
            0 <= i < warnings(s).len() ==> warnings(s)[i] != Warning::DefaultSize(Dimension::Height)
                && warnings(s)[i] != Warning::OriginalSize(Dimension::Height),
{
    let w = warnings(s);
    if s.dimensions == (0i32, 0i32) {
        assert(w.subrange(0, 2) =~= seq![w[0], w[1]]);
    }
}

} // verus!
