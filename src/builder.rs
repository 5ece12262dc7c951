//! The resource builder: options accumulated by chained setters, then
//! resolved, checked and turned into one request for the platform loader.
use crate::logger::{log_line, Level, LogLine, Logger};
use crate::resource::{
    resolution, resolve_error_text, resolve_message, resolve_name, ResolveError, ResourceId,
    ResourceKind, ResourceName, SystemKind, LR_CREATEDIBSECTION, LR_DEFAULTSIZE, LR_LOADFROMFILE,
    LR_LOADMAP3DCOLORS, LR_LOADTRANSPARENT, LR_MONOCHROME, LR_SHARED, LR_VGACOLOR, SYSTEM_MODULE,
};
use vstd::prelude::*;

verus! {

/// The whole state of a builder.
pub struct BuilderView {
    pub flags: u32,
    pub kind: ResourceKind,
    pub dimensions: (i32, i32),
    pub name: ResourceName,
    pub instance: usize,
    pub threshold: usize,
    pub log: Seq<LogLine>,
}

/// Whether every bit of `flag` is set in `flags`.
pub open spec fn has_flag(flags: u32, flag: u32) -> bool {
    flags & flag == flag
}

/// The state after resolving its name: system resources force the kind, the
/// shared flag and the system module whatever the outcome; a name or a path
/// sets the kind on success, and a path also the load-from-file flag; a
/// failure logs its error line.
pub open spec fn resolved_state(s: BuilderView, file_exists: bool) -> BuilderView {
    let outcome = resolution(s.name, file_exists);
    let forced = match s.name {
        ResourceName::EmbeddedOrdinal(k, _) => BuilderView {
            kind: k,
            flags: s.flags | LR_SHARED,
            instance: SYSTEM_MODULE,
            ..s
        },
        ResourceName::SystemConstant(k, _) => BuilderView {
            kind: k.spec_kind(),
            flags: s.flags | LR_SHARED,
            instance: SYSTEM_MODULE,
            ..s
        },
        ResourceName::FilePath(_) => match outcome {
            Ok((k, _)) => BuilderView { kind: k, flags: s.flags | LR_LOADFROMFILE, ..s },
            Err(_) => s,
        },
        _ => match outcome {
            Ok((k, _)) => BuilderView { kind: k, ..s },
            Err(_) => s,
        },
    };
    match outcome {
        Ok(_) => forced,
        Err(e) => BuilderView {
            log: log_line(s.log, s.threshold, Level::Error, resolve_message(s.name, e)),
            ..forced
        },
    }
}

#[derive(Clone, Copy, Debug, PartialEq, Eq, Structural)]
pub enum Dimension {
    Width,
    Height,
}

/// A configuration that loads, but where an option does nothing or a size
/// falls back to a default.
#[derive(Clone, Copy, Debug, PartialEq, Eq, Structural)]
pub enum Warning {
    /// The dimension is unset and the system default is asked for.
    DefaultSize(Dimension),
    /// The dimension is unset: the image's own is used.
    OriginalSize(Dimension),
    /// A DIB section is asked for a resource that is not a bitmap.
    DibNoOp(ResourceKind),
    /// 3D or VGA colors are asked for together with monochrome.
    ColorNoOp,
}

/// The warning line logged for `w`.
pub open spec fn warning_message(w: Warning) -> Seq<char> {
    match w {
        Warning::DefaultSize(Dimension::Width) =>
            "ResourceBuilder::validator() The default system width will be used"@,
        Warning::DefaultSize(Dimension::Height) =>
            "ResourceBuilder::validator() The default system height will be used"@,
        Warning::OriginalSize(Dimension::Width) =>
            "ResourceBuilder::validator() The original image width will be used"@,
        Warning::OriginalSize(Dimension::Height) =>
            "ResourceBuilder::validator() The original image height will be used"@,
        Warning::DibNoOp(ResourceKind::Cursor) =>
            "ResourceBuilder::validator() DIB section bitmap is no-op with resource type: 'IMAGE_CURSOR'"@,
        Warning::DibNoOp(ResourceKind::Icon) =>
            "ResourceBuilder::validator() DIB section bitmap is no-op with resource type: 'IMAGE_ICON'"@,
        Warning::DibNoOp(ResourceKind::Bitmap) =>
            "ResourceBuilder::validator() DIB section bitmap is no-op with resource type: 'IMAGE_BITMAP'"@,
        Warning::ColorNoOp => "ResourceBuilder::validator() 3D and VGA color are no-op when mono is used"@,
    }
}

/// The warning for one dimension: none when it is set.
pub open spec fn dimension_warnings(value: i32, flags: u32, d: Dimension) -> Seq<Warning> {
    if value == 0 {
        if has_flag(flags, LR_DEFAULTSIZE) {
            seq![Warning::DefaultSize(d)]
        } else {
            seq![Warning::OriginalSize(d)]
        }
    } else {
        Seq::empty()
    }
}

/// The warning on a DIB section asked for a cursor or an icon.
pub open spec fn dib_warnings(flags: u32, kind: ResourceKind) -> Seq<Warning> {
    if has_flag(flags, LR_CREATEDIBSECTION) && kind != ResourceKind::Bitmap {
        seq![Warning::DibNoOp(kind)]
    } else {
        Seq::empty()
    }
}

/// The warning on colors that monochrome overrides.
pub open spec fn color_warnings(flags: u32) -> Seq<Warning> {
    if has_flag(flags, LR_MONOCHROME) && (has_flag(flags, LR_LOADMAP3DCOLORS) || has_flag(
        flags,
        LR_VGACOLOR,
    )) {
        seq![Warning::ColorNoOp]
    } else {
        Seq::empty()
    }
}

/// Every warning a state draws, in the order they are logged: width, height,
/// DIB section, colors.
pub open spec fn warnings(s: BuilderView) -> Seq<Warning> {
    dimension_warnings(s.dimensions.0, s.flags, Dimension::Width) + dimension_warnings(
        s.dimensions.1,
        s.flags,
        Dimension::Height,
    ) + dib_warnings(s.flags, s.kind) + color_warnings(s.flags)
}

/// `log` after each of `ws` was offered as a warning line, in order.
pub open spec fn log_warnings(log: Seq<LogLine>, threshold: usize, ws: Seq<Warning>) -> Seq<LogLine>
    decreases ws.len(),
{
    if ws.len() == 0 {
        log
    } else {
        log_line(
            log_warnings(log, threshold, ws.drop_last()),
            threshold,
            Level::Warning,
            warning_message(ws.last()),
        )
    }
}

/// The state after the validator ran on it.
pub open spec fn validated(s: BuilderView) -> BuilderView {
    BuilderView { log: log_warnings(s.log, s.threshold, warnings(s)), ..s }
}

/// Offering two runs of warnings one after the other offers their concatenation.
pub proof fn lemma_log_warnings_concat(
    log: Seq<LogLine>,
    threshold: usize,
    a: Seq<Warning>,
    b: Seq<Warning>,
)
    ensures
        log_warnings(log, threshold, a + b) == log_warnings(
            log_warnings(log, threshold, a),
            threshold,
            b,
        ),
    decreases b.len(),
{
    if b.len() == 0 {
        assert(a + b =~= a);
    } else {
        lemma_log_warnings_concat(log, threshold, a, b.drop_last());
        assert((a + b).drop_last() =~= a + b.drop_last());
        assert((a + b).last() == b.last());
    }
}

proof fn lemma_log_warnings_short(log: Seq<LogLine>, threshold: usize, ws: Seq<Warning>)
    requires
        ws.len() <= 1,
    ensures
        ws.len() == 0 ==> log_warnings(log, threshold, ws) == log,
        ws.len() == 1 ==> log_warnings(log, threshold, ws) == log_line(
            log,
            threshold,
            Level::Warning,
            warning_message(ws[0]),
        ),
{
    reveal_with_fuel(log_warnings, 2);
    if ws.len() == 1 {
        assert(ws.drop_last() =~= Seq::<Warning>::empty());
    }
}

/// A loaded resource: the handle the platform handed out for it.
pub struct Resource {
    id: usize,
}

impl View for Resource {
    type V = usize;

    closed spec fn view(&self) -> usize {
        self.id
    }
}

impl Resource {
    pub fn new(id: usize) -> (r: Self)
        ensures
            r@ == id,
    {
        Resource { id }
    }

    pub fn id(&self) -> (r: usize)
        ensures
            r == self@,
    {
        self.id
    }
}

/// Everything the platform's image loader takes.
pub struct ImageRequest {
    pub instance: usize,
    pub id: ResourceId,
    pub kind: ResourceKind,
    pub width: i32,
    pub height: i32,
    pub flags: u32,
}

/// Everything the platform's icon or cursor loader takes.
pub struct LookupRequest {
    pub instance: usize,
    pub id: ResourceId,
}

/// Why a load fails.
#[derive(Clone, Copy, Debug, PartialEq, Eq, Structural)]
pub enum LoadError {
    /// The name did not resolve.
    Resolve(ResolveError),
    /// The name is of a variant that the operation does not take.
    WrongVariant,
    /// The platform loader refused the resolved request.
    Rejected,
}

/// The state a load starts from: a path asks for loading from a file.
pub open spec fn load_start(s: BuilderView) -> BuilderView {
    match s.name {
        ResourceName::FilePath(_) => BuilderView { flags: s.flags | LR_LOADFROMFILE, ..s },
        _ => s,
    }
}

/// The image request that state `s` makes for identifier `id`.
pub open spec fn image_request(s: BuilderView, id: ResourceId) -> ImageRequest {
    ImageRequest {
        instance: s.instance,
        id,
        kind: s.kind,
        width: s.dimensions.0,
        height: s.dimensions.1,
        flags: s.flags,
    }
}

/// The error line logged when the image loader refuses a request.
pub open spec fn load_failure_message() -> Seq<char> {
    "ResourceBuilder::load() Failed to create a handle for the resource"@
}

/// Whether the icon (or cursor) loader takes `name`: a system constant or an
/// embedded ordinal of that kind.
pub open spec fn lookup_accepts(k: SystemKind, name: ResourceName) -> bool {
    match name {
        ResourceName::SystemConstant(j, _) => j == k,
        ResourceName::EmbeddedOrdinal(j, _) => j == k.spec_kind(),
        _ => false,
    }
}

/// The error line logged when the icon or cursor loader is handed a name it
/// does not take.
pub open spec fn wrong_variant_message(k: SystemKind) -> Seq<char> {
    match k {
        SystemKind::Icon =>
            "ResourceBuilder::load_icon() Wrong variant for icon loading: 'ResourceName::SystemConstant' or 'ResourceName::EmbeddedOrdinal' of kind Icon should be used"@,
        SystemKind::Cursor =>
            "ResourceBuilder::load_cursor() Wrong variant for cursor loading: 'ResourceName::SystemConstant' or 'ResourceName::EmbeddedOrdinal' of kind Cursor should be used"@,
    }
}

/// The error line logged when the icon or cursor loader refuses a request.
pub open spec fn lookup_failure_message(k: SystemKind) -> Seq<char> {
    match k {
        SystemKind::Icon => "ResourceBuilder::load_icon() Failed to create a handle for the icon"@,
        SystemKind::Cursor =>
            "ResourceBuilder::load_cursor() Failed to create a handle for the cursor"@,
    }
}

/// The identifier an icon or cursor lookup hands over: the resolved one, or
/// none when resolution failed.
pub open spec fn lookup_id(name: ResourceName) -> ResourceId {
    match resolution(name, false) {
        Ok((_, id)) => id,
        Err(_) => ResourceId::Null,
    }
}

/// What the first step of a load does to state `s`: the state after it and
/// the request it gives or the error it stops with.
pub open spec fn load_outcome(s: BuilderView, file_exists: bool) -> (
    BuilderView,
    Result<ImageRequest, LoadError>,
) {
    let s0 = load_start(s);
    let s1 = resolved_state(s0, file_exists);
    match resolution(s0.name, file_exists) {
        Ok((_, id)) => (validated(s1), Ok(image_request(s1, id))),
        Err(e) => (s1, Err(LoadError::Resolve(e))),
    }
}

/// What the first step of an icon (or cursor) load does to state `s`.
pub open spec fn lookup_outcome(s: BuilderView, k: SystemKind) -> (
    BuilderView,
    Result<LookupRequest, LoadError>,
) {
    if lookup_accepts(k, s.name) {
        let s1 = resolved_state(s, false);
        (s1, Ok(LookupRequest { instance: s1.instance, id: lookup_id(s.name) }))
    } else {
        (
            BuilderView {
                log: log_line(s.log, s.threshold, Level::Error, wrong_variant_message(k)),
                ..s
            },
            Err(LoadError::WrongVariant),
        )
    }
}

/// What the last step of a load does to state `s` given the handle that the
/// loader gave; `failure` is the line logged when it gave none.
pub open spec fn finish_outcome(s: BuilderView, handle: Option<usize>, failure: Seq<char>) -> (
    BuilderView,
    Option<usize>,
) {
    match handle {
        Some(h) => (s, Some(h)),
        None => (BuilderView { log: log_line(s.log, s.threshold, Level::Error, failure), ..s }, None),
    }
}

pub struct ResourceBuilder {
    flags: u32,
    kind: ResourceKind,
    dimensions: (i32, i32),
    name: ResourceName,
    instance: usize,
    logger: Logger,
}

impl View for ResourceBuilder {
    type V = BuilderView;

    closed spec fn view(&self) -> BuilderView {
        BuilderView {
            flags: self.flags,
            kind: self.kind,
            dimensions: self.dimensions,
            name: self.name,
            instance: self.instance,
            threshold: self.logger.level_threshold(),
            log: self.logger@,
        }
    }
}

impl ResourceBuilder {
    /// A builder with no options and no name, whose resources come from
    /// the module `instance` (the current process, as a rule).
    pub fn new(logger: Logger, instance: usize) -> (r: Self)
        ensures
            r@ == (BuilderView {
                flags: 0,
                kind: ResourceKind::Bitmap,
                dimensions: (0, 0),
                name: ResourceName::Empty,
                instance,
                threshold: logger.level_threshold(),
                log: logger@,
            }),
    {
        ResourceBuilder {
            flags: 0,
            kind: ResourceKind::Bitmap,
            dimensions: (0, 0),
            name: ResourceName::Empty,
            instance,
            logger,
        }
    }

    /// Sets the width and height of the icon or image; `(0, 0)` keeps the
    /// default or original size.
    pub fn set_dimensions(&mut self, w: i32, h: i32) -> (r: &mut Self)
        ensures
            (*r)@ == (BuilderView { dimensions: (w, h), ..old(self)@ }),
            *final(self) == *final(r),
    {
        self.dimensions = (w, h);
        self
    }

    fn add_flag(&mut self, flag: u32) -> (r: &mut Self)
        ensures
            (*r)@ == (BuilderView { flags: old(self)@.flags | flag, ..old(self)@ }),
            *final(self) == *final(r),
    {
        self.flags = self.flags | flag;
        self
    }

    /// Uses the system default size for the resource.
    pub fn use_sysdefault(&mut self) -> (r: &mut Self)
        ensures
            (*r)@ == (BuilderView { flags: old(self)@.flags | LR_DEFAULTSIZE, ..old(self)@ }),
            *final(self) == *final(r),
    {
        self.add_flag(LR_DEFAULTSIZE)
    }

    /// Uses a DIB section bitmap rather than a compatible one.
    pub fn use_dib(&mut self) -> (r: &mut Self)
        ensures
            (*r)@ == (BuilderView { flags: old(self)@.flags | LR_CREATEDIBSECTION, ..old(self)@ }),
            *final(self) == *final(r),
    {
        self.add_flag(LR_CREATEDIBSECTION)
    }

    /// Makes every pixel that matches the first pixel of the image
    /// transparent. Not for bitmaps deeper than 8 bits per pixel.
    pub fn use_transparent(&mut self) -> (r: &mut Self)
        ensures
            (*r)@ == (BuilderView { flags: old(self)@.flags | LR_LOADTRANSPARENT, ..old(self)@ }),
            *final(self) == *final(r),
    {
        self.add_flag(LR_LOADTRANSPARENT)
    }

    /// Replaces gray shades with their 3D colors. Not for bitmaps deeper
    /// than 8 bits per pixel.
    pub fn use_3d(&mut self) -> (r: &mut Self)
        ensures
            (*r)@ == (BuilderView { flags: old(self)@.flags | LR_LOADMAP3DCOLORS, ..old(self)@ }),
            *final(self) == *final(r),
    {
        self.add_flag(LR_LOADMAP3DCOLORS)
    }

    /// Loads the image in black and white.
    pub fn use_mono(&mut self) -> (r: &mut Self)
        ensures
            (*r)@ == (BuilderView { flags: old(self)@.flags | LR_MONOCHROME, ..old(self)@ }),
            *final(self) == *final(r),
    {
        self.add_flag(LR_MONOCHROME)
    }

    /// Loads the image with true VGA colors.
    pub fn use_vga(&mut self) -> (r: &mut Self)
        ensures
            (*r)@ == (BuilderView { flags: old(self)@.flags | LR_VGACOLOR, ..old(self)@ }),
            *final(self) == *final(r),
    {
        self.add_flag(LR_VGACOLOR)
    }

    /// Sets the module that holds the resource.
    pub fn set_instance(&mut self, instance: usize) -> (r: &mut Self)
        ensures
            (*r)@ == (BuilderView { instance, ..old(self)@ }),
            *final(self) == *final(r),
    {
        self.instance = instance;
        self
    }

    /// Sets the name of the resource to load.
    pub fn set_name(&mut self, name: ResourceName) -> (r: &mut Self)
        ensures
            (*r)@ == (BuilderView { name, ..old(self)@ }),
            *final(self) == *final(r),
    {
        self.name = name;
        self
    }

    pub fn flags(&self) -> (r: u32)
        ensures
            r == self@.flags,
    {
        self.flags
    }

    pub fn kind(&self) -> (r: ResourceKind)
        ensures
            r == self@.kind,
    {
        self.kind
    }

    pub fn dimensions(&self) -> (r: (i32, i32))
        ensures
            r == self@.dimensions,
    {
        self.dimensions
    }

    pub fn instance(&self) -> (r: usize)
        ensures
            r == self@.instance,
    {
        self.instance
    }

    pub fn name(&self) -> (r: &ResourceName)
        ensures
            *r == self@.name,
    {
        &self.name
    }

    pub fn logger(&self) -> (r: &Logger)
        ensures
            r@ == self@.log,
            r.level_threshold() == self@.threshold,
    {
        &self.logger
    }

    /// Whether every bit of `flag` is set.
    pub fn is_flag(&self, flag: u32) -> (r: bool)
        ensures
            r == has_flag(self@.flags, flag),
    {
        self.flags & flag == flag
    }

    fn warn(&mut self, w: Warning)
        ensures
            final(self)@ == (BuilderView {
                log: log_line(old(self)@.log, old(self)@.threshold, Level::Warning, warning_message(w)),
                ..old(self)@
            }),
    {
        let msg = match w {
            Warning::DefaultSize(Dimension::Width) =>
                "ResourceBuilder::validator() The default system width will be used",
            Warning::DefaultSize(Dimension::Height) =>
                "ResourceBuilder::validator() The default system height will be used",
            Warning::OriginalSize(Dimension::Width) =>
                "ResourceBuilder::validator() The original image width will be used",
            Warning::OriginalSize(Dimension::Height) =>
                "ResourceBuilder::validator() The original image height will be used",
            Warning::DibNoOp(ResourceKind::Cursor) =>
                "ResourceBuilder::validator() DIB section bitmap is no-op with resource type: 'IMAGE_CURSOR'",
            Warning::DibNoOp(ResourceKind::Icon) =>
                "ResourceBuilder::validator() DIB section bitmap is no-op with resource type: 'IMAGE_ICON'",
            Warning::DibNoOp(ResourceKind::Bitmap) =>
                "ResourceBuilder::validator() DIB section bitmap is no-op with resource type: 'IMAGE_BITMAP'",
            Warning::ColorNoOp =>
                "ResourceBuilder::validator() 3D and VGA color are no-op when mono is used",
        };
        self.logger.wlogln(msg);
    }

    fn check_dimension(&mut self, value: i32, d: Dimension)
        ensures
            final(self)@ == (BuilderView {
                log: log_warnings(
                    old(self)@.log,
                    old(self)@.threshold,
                    dimension_warnings(value, old(self)@.flags, d),
                ),
                ..old(self)@
            }),
    {
        let ghost s = self@;
        proof {
            lemma_log_warnings_short(s.log, s.threshold, dimension_warnings(value, s.flags, d));
        }
        if value == 0 {
            if self.is_flag(LR_DEFAULTSIZE) {
                self.warn(Warning::DefaultSize(d));
            } else {
                self.warn(Warning::OriginalSize(d));
            }
        }
    }

    /// Logs a warning for every option that does nothing or falls back to a
    /// default; it changes nothing else.
    pub fn validator(&mut self)
        ensures
            final(self)@ == validated(old(self)@),
    {
        let ghost s = self@;
        let ghost th = s.threshold;
        let ghost a = dimension_warnings(s.dimensions.0, s.flags, Dimension::Width);
        let ghost b = dimension_warnings(s.dimensions.1, s.flags, Dimension::Height);
        let ghost c = dib_warnings(s.flags, s.kind);
        let ghost d = color_warnings(s.flags);
        let ghost log_ab = log_warnings(s.log, th, a + b);
        proof {
            lemma_log_warnings_short(log_ab, th, c);
            lemma_log_warnings_short(log_warnings(log_ab, th, c), th, d);
        }
        let (width, height) = self.dimensions;
        self.check_dimension(width, Dimension::Width);
        self.check_dimension(height, Dimension::Height);
        proof {
            lemma_log_warnings_concat(s.log, th, a, b);
        }
        if self.is_flag(LR_CREATEDIBSECTION) {
            match self.kind {
                ResourceKind::Cursor => self.warn(Warning::DibNoOp(ResourceKind::Cursor)),
                ResourceKind::Icon => self.warn(Warning::DibNoOp(ResourceKind::Icon)),
                ResourceKind::Bitmap => {},
            }
        }
        proof {
            lemma_log_warnings_concat(s.log, th, a + b, c);
        }
        if self.is_flag(LR_MONOCHROME) {
            if self.is_flag(LR_LOADMAP3DCOLORS) || self.is_flag(LR_VGACOLOR) {
                self.warn(Warning::ColorNoOp);
            }
        }
        proof {
            lemma_log_warnings_concat(s.log, th, a + b + c, d);
        }
    }

    /// First step of a load: resolves the name (a path first asks for loading
    /// from a file), runs the validator when that succeeded, and gives the
    /// request for the platform's image loader. `file_exists` says whether the
    /// file that a path names exists.
    pub fn prepare_load(&mut self, file_exists: bool) -> (r: Result<ImageRequest, LoadError>)
        ensures
            (final(self)@, r) == load_outcome(old(self)@, file_exists),
    {
        if let ResourceName::FilePath(_) = &self.name {
            self.flags = self.flags | LR_LOADFROMFILE;
        }
        match self.name_as_pcstr(file_exists) {
            Ok(id) => {
                self.validator();
                Ok(
                    ImageRequest {
                        instance: self.instance,
                        id,
                        kind: self.kind,
                        width: self.dimensions.0,
                        height: self.dimensions.1,
                        flags: self.flags,
                    },
                )
            },
            Err(e) => Err(LoadError::Resolve(e)),
        }
    }

    /// Last step of a load: takes the handle the image loader gave, or
    /// `None` when it refused, and logs the refusal.
    pub fn finish_load(&mut self, handle: Option<usize>) -> (r: Result<Resource, LoadError>)
        ensures
            ({
                let (s1, h1) = finish_outcome(old(self)@, handle, load_failure_message());
                &&& final(self)@ == s1
                &&& match h1 {
                    Some(h) => r matches Ok(res) && res@ == h,
                    None => r == Err::<Resource, LoadError>(LoadError::Rejected),
                }
            }),
    {
        match handle {
            Some(h) => Ok(Resource::new(h)),
            None => {
                self.logger.elogln(
                    "ResourceBuilder::load() Failed to create a handle for the resource",
                );
                Err(LoadError::Rejected)
            },
        }
    }

    fn prepare_lookup(&mut self, k: SystemKind) -> (r: Result<LookupRequest, LoadError>)
        ensures
            (final(self)@, r) == lookup_outcome(old(self)@, k),
    {
        let accepted = match &self.name {
            ResourceName::SystemConstant(j, _) => *j == k,
            ResourceName::EmbeddedOrdinal(j, _) => *j == k.kind(),
            _ => false,
        };
        if accepted {
            let id = match self.name_as_pcstr(false) {
                Ok(id) => id,
                Err(_) => ResourceId::Null,
            };
            Ok(LookupRequest { instance: self.instance, id })
        } else {
            let msg = match k {
                SystemKind::Icon =>
                    "ResourceBuilder::load_icon() Wrong variant for icon loading: 'ResourceName::SystemConstant' or 'ResourceName::EmbeddedOrdinal' of kind Icon should be used",
                SystemKind::Cursor =>
                    "ResourceBuilder::load_cursor() Wrong variant for cursor loading: 'ResourceName::SystemConstant' or 'ResourceName::EmbeddedOrdinal' of kind Cursor should be used",
            };
            self.logger.elogln(msg);
            Err(LoadError::WrongVariant)
        }
    }

    fn finish_lookup(&mut self, k: SystemKind, handle: Option<usize>) -> (r: Result<
        Resource,
        LoadError,
    >)
        ensures
            ({
                let (s1, h1) = finish_outcome(old(self)@, handle, lookup_failure_message(k));
                &&& final(self)@ == s1
                &&& match h1 {
                    Some(h) => r matches Ok(res) && res@ == h,
                    None => r == Err::<Resource, LoadError>(LoadError::Rejected),
                }
            }),
    {
        match handle {
            Some(h) => Ok(Resource::new(h)),
            None => {
                let msg = match k {
                    SystemKind::Icon =>
                        "ResourceBuilder::load_icon() Failed to create a handle for the icon",
                    SystemKind::Cursor =>
                        "ResourceBuilder::load_cursor() Failed to create a handle for the cursor",
                };
                self.logger.elogln(msg);
                Err(LoadError::Rejected)
            },
        }
    }

    /// First step of loading an icon: takes only a system constant or an
    /// embedded ordinal of kind icon, and never looks at the file system. A
    /// failed resolution hands over no identifier rather than stopping.
    pub fn prepare_icon(&mut self) -> (r: Result<LookupRequest, LoadError>)
        ensures
            (final(self)@, r) == lookup_outcome(old(self)@, SystemKind::Icon),
    {
        self.prepare_lookup(SystemKind::Icon)
    }

    /// Last step of loading an icon: takes the handle the icon loader gave,
    /// or `None` when it refused, and logs the refusal.
    pub fn finish_icon(&mut self, handle: Option<usize>) -> (r: Result<Resource, LoadError>)
        ensures
            ({
                let (s1, h1) = finish_outcome(old(self)@, handle, lookup_failure_message(SystemKind::Icon));
                &&& final(self)@ == s1
                &&& match h1 {
                    Some(h) => r matches Ok(res) && res@ == h,
                    None => r == Err::<Resource, LoadError>(LoadError::Rejected),
                }
            }),
    {
        self.finish_lookup(SystemKind::Icon, handle)
    }

    /// First step of loading a cursor: takes only a system constant or an
    /// embedded ordinal of kind cursor, and never looks at the file system. A
    /// failed resolution hands over no identifier rather than stopping.
    pub fn prepare_cursor(&mut self) -> (r: Result<LookupRequest, LoadError>)
        ensures
            (final(self)@, r) == lookup_outcome(old(self)@, SystemKind::Cursor),
    {
        self.prepare_lookup(SystemKind::Cursor)
    }

    /// Last step of loading a cursor: takes the handle the cursor loader
    /// gave, or `None` when it refused, and logs the refusal.
    pub fn finish_cursor(&mut self, handle: Option<usize>) -> (r: Result<Resource, LoadError>)
        ensures
            ({
                let (s1, h1) = finish_outcome(old(self)@, handle, lookup_failure_message(SystemKind::Cursor));
                &&& final(self)@ == s1
                &&& match h1 {
                    Some(h) => r matches Ok(res) && res@ == h,
                    None => r == Err::<Resource, LoadError>(LoadError::Rejected),
                }
            }),
    {
        self.finish_lookup(SystemKind::Cursor, handle)
    }

    /// Resolves the name into the loader's identifier, writing back the kind
    /// and the options that the name forces. `file_exists` says whether the
    /// file that a path names exists; it is read for paths only.
    pub fn name_as_pcstr(&mut self, file_exists: bool) -> (r: Result<ResourceId, ResolveError>)
        ensures
            r == match resolution(old(self)@.name, file_exists) {
                Ok((_, id)) => Ok::<ResourceId, ResolveError>(id),
                Err(e) => Err(e),
            },
            final(self)@ == resolved_state(old(self)@, file_exists),
    {
        let outcome = resolve_name(&self.name, file_exists);
        match &self.name {
            ResourceName::EmbeddedOrdinal(k, _) => {
                self.kind = *k;
                self.flags = self.flags | LR_SHARED;
                self.instance = SYSTEM_MODULE;
            },
            ResourceName::SystemConstant(k, _) => {
                self.kind = k.kind();
                self.flags = self.flags | LR_SHARED;
                self.instance = SYSTEM_MODULE;
            },
            ResourceName::FilePath(_) => {
                if let Ok((k, _)) = &outcome {
                    self.kind = *k;
                    self.flags = self.flags | LR_LOADFROMFILE;
                }
            },
            _ => {
                if let Ok((k, _)) = &outcome {
                    self.kind = *k;
                }
            },
        }
        match outcome {
            Ok((_, id)) => Ok(id),
            Err(e) => {
                let msg = resolve_error_text(&self.name, e);
                self.logger.elogln(msg.as_str());
                Err(e)
            },
        }
    }
}

} // verus!
