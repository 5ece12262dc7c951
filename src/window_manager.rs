//! The window manager: a window class configured by chained setters, checked
//! before the platform registers it.
use crate::text::same_text;
use vstd::prelude::*;

verus! {

/// Redraw the whole window when the client area's height changes.
pub const CS_VREDRAW: u32 = 0x1;

/// Redraw the whole window when the client area's width changes.
pub const CS_HREDRAW: u32 = 0x2;

/// Send double-click messages.
pub const CS_DBLCLKS: u32 = 0x8;

/// A private device context for each window.
pub const CS_OWNDC: u32 = 0x20;

/// One device context shared by every window of the class.
pub const CS_CLASSDC: u32 = 0x40;

/// Windows draw in their parent's device context.
pub const CS_PARENTDC: u32 = 0x80;

/// No close entry on the window menu.
pub const CS_NOCLOSE: u32 = 0x200;

/// Keep what a window hides as a bitmap.
pub const CS_SAVEBITS: u32 = 0x800;

/// Align the client area on a byte boundary.
pub const CS_BYTEALIGNCLIENT: u32 = 0x1000;

/// Align the window on a byte boundary.
pub const CS_BYTEALIGNWINDOW: u32 = 0x2000;

/// An application global class.
pub const CS_GLOBALCLASS: u32 = 0x4000;

/// A drop shadow under top-level windows.
pub const CS_DROPSHADOW: u32 = 0x20000;

/// The message that asks a window to paint itself.
pub const WM_PAINT: u32 = 15;

/// The message that a window is being destroyed.
pub const WM_DESTROY: u32 = 2;

/// The whole state of a window manager builder.
pub struct ManagerView {
    pub style: u32,
    pub metadata: i32,
    pub window_metadata: i32,
    pub instance: usize,
    pub menuname: Option<Seq<char>>,
    pub classname: Seq<char>,
}

/// Whether `style` already holds one of the two device-context styles.
pub open spec fn dc_taken(style: u32, a: u32, b: u32) -> bool {
    style & a != 0 || style & b != 0
}

/// The state after asking for device-context style `dc`, which gives way to
/// either of the two others already set.
pub open spec fn with_dc(s: ManagerView, dc: u32, other1: u32, other2: u32) -> ManagerView {
    if dc_taken(s.style, other1, other2) {
        s
    } else {
        ManagerView { style: s.style | dc, ..s }
    }
}

/// What the platform's class registration takes.
pub struct WindowClass {
    pub class_name: String,
    pub menu_name: Option<String>,
    pub instance: usize,
    pub style: u32,
    pub class_extra: i32,
    pub window_extra: i32,
}

/// Why a class cannot be registered.
#[derive(Clone, Copy, Debug, PartialEq, Eq, Structural)]
pub enum BuildError {
    /// The class has no name.
    EmptyName,
    /// A menu was set with an empty name.
    EmptyMenu,
}

/// Whether a menu was set with an empty name.
pub open spec fn menu_empty(s: ManagerView) -> bool {
    match s.menuname {
        Some(m) => m.len() == 0,
        None => false,
    }
}

/// Whether `c` registers the class that `s` configures.
pub open spec fn describes(c: WindowClass, s: ManagerView) -> bool {
    &&& c.class_name@ == s.classname
    &&& match s.menuname {
        Some(m) => c.menu_name is Some && c.menu_name.unwrap()@ == m,
        None => c.menu_name is None,
    }
    &&& c.instance == s.instance
    &&& c.style == s.style
    &&& c.class_extra == s.metadata
    &&& c.window_extra == s.window_metadata
}

pub struct WindowManagerBuilder {
    style: u32,
    metadata: i32,
    window_metadata: i32,
    instance: usize,
    menuname: Option<String>,
    classname: String,
}

impl View for WindowManagerBuilder {
    type V = ManagerView;

    closed spec fn view(&self) -> ManagerView {
        ManagerView {
            style: self.style,
            metadata: self.metadata,
            window_metadata: self.window_metadata,
            instance: self.instance,
            menuname: match self.menuname {
                Some(m) => Some(m@),
                None => None,
            },
            classname: self.classname@,
        }
    }
}

impl WindowManagerBuilder {
    /// A builder with no style, no name and no menu, for the module
    /// `instance` (the current process, as a rule).
    pub fn new(instance: usize) -> (r: Self)
        ensures
            r@ == (ManagerView {
                style: 0,
                metadata: 0,
                window_metadata: 0,
                instance,
                menuname: None,
                classname: Seq::empty(),
            }),
    {
        WindowManagerBuilder {
            style: 0,
            metadata: 0,
            window_metadata: 0,
            instance,
            menuname: None,
            classname: String::new(),
        }
    }

    /// Sets the module that owns the class.
    pub fn set_instance(&mut self, instance: usize) -> (r: &mut Self)
        ensures
            (*r)@ == (ManagerView { instance, ..old(self)@ }),
            *final(self) == *final(r),
    {
        self.instance = instance;
        self
    }

    /// Sets the class name, which must be unique.
    pub fn set_name(&mut self, name: &str) -> (r: &mut Self)
        ensures
            (*r)@ == (ManagerView { classname: name@, ..old(self)@ }),
            *final(self) == *final(r),
    {
        self.classname = String::from_str(name);
        self
    }

    /// Sets the default menu.
    pub fn set_menu(&mut self, name: &str) -> (r: &mut Self)
        ensures
            (*r)@ == (ManagerView { menuname: Some(name@), ..old(self)@ }),
            *final(self) == *final(r),
    {
        self.menuname = Some(String::from_str(name));
        self
    }

    fn add_style(&mut self, style: u32) -> (r: &mut Self)
        ensures
            (*r)@ == (ManagerView { style: old(self)@.style | style, ..old(self)@ }),
            *final(self) == *final(r),
    {
        self.style = self.style | style;
        self
    }

    /// Aligns the client area of the windows on a byte boundary on the x-axis.
    pub fn align_byte_client(&mut self) -> (r: &mut Self)
        ensures
            (*r)@ == (ManagerView { style: old(self)@.style | CS_BYTEALIGNCLIENT, ..old(self)@ }),
            *final(self) == *final(r),
    {
        self.add_style(CS_BYTEALIGNCLIENT)
    }

    /// Aligns the windows on a byte boundary on the x-axis.
    pub fn align_byte_window(&mut self) -> (r: &mut Self)
        ensures
            (*r)@ == (ManagerView { style: old(self)@.style | CS_BYTEALIGNWINDOW, ..old(self)@ }),
            *final(self) == *final(r),
    {
        self.add_style(CS_BYTEALIGNWINDOW)
    }

    /// Listens for double clicks in the windows.
    pub fn listen_to_dbclick(&mut self) -> (r: &mut Self)
        ensures
            (*r)@ == (ManagerView { style: old(self)@.style | CS_DBLCLKS, ..old(self)@ }),
            *final(self) == *final(r),
    {
        self.add_style(CS_DBLCLKS)
    }

    /// Draws a drop shadow; the windows must be top-level ones.
    pub fn enable_drop_shadow(&mut self) -> (r: &mut Self)
        ensures
            (*r)@ == (ManagerView { style: old(self)@.style | CS_DROPSHADOW, ..old(self)@ }),
            *final(self) == *final(r),
    {
        self.add_style(CS_DROPSHADOW)
    }

    /// Makes the class an application global class.
    pub fn make_global(&mut self) -> (r: &mut Self)
        ensures
            (*r)@ == (ManagerView { style: old(self)@.style | CS_GLOBALCLASS, ..old(self)@ }),
            *final(self) == *final(r),
    {
        self.add_style(CS_GLOBALCLASS)
    }

    /// Redraws the whole window when the client area's height changes.
    pub fn listen_to_vert(&mut self) -> (r: &mut Self)
        ensures
            (*r)@ == (ManagerView { style: old(self)@.style | CS_VREDRAW, ..old(self)@ }),
            *final(self) == *final(r),
    {
        self.add_style(CS_VREDRAW)
    }

    /// Redraws the whole window when the client area's width changes.
    pub fn listen_to_hori(&mut self) -> (r: &mut Self)
        ensures
            (*r)@ == (ManagerView { style: old(self)@.style | CS_HREDRAW, ..old(self)@ }),
            *final(self) == *final(r),
    {
        self.add_style(CS_HREDRAW)
    }

    /// Removes the close entry from the window menu.
    pub fn disable_close(&mut self) -> (r: &mut Self)
        ensures
            (*r)@ == (ManagerView { style: old(self)@.style | CS_NOCLOSE, ..old(self)@ }),
            *final(self) == *final(r),
    {
        self.add_style(CS_NOCLOSE)
    }

    /// Whether either device-context style is set already.
    fn is_dc_set(&self, class1: u32, class2: u32) -> (r: bool)
        ensures
            r == dc_taken(self@.style, class1, class2),
    {
        self.style & class1 != 0 || self.style & class2 != 0
    }

    /// Shares one device context among all windows, unless another
    /// device-context style was chosen first.
    pub fn create_single_dc(&mut self) -> (r: &mut Self)
        ensures
            (*r)@ == with_dc(old(self)@, CS_CLASSDC, CS_OWNDC, CS_PARENTDC),
            *final(self) == *final(r),
    {
        if self.is_dc_set(CS_OWNDC, CS_PARENTDC) {
            return self;
        }
        self.add_style(CS_CLASSDC)
    }

    /// Gives each window a private device context, unless another
    /// device-context style was chosen first.
    pub fn create_unique_dc(&mut self) -> (r: &mut Self)
        ensures
            (*r)@ == with_dc(old(self)@, CS_OWNDC, CS_CLASSDC, CS_PARENTDC),
            *final(self) == *final(r),
    {
        if self.is_dc_set(CS_CLASSDC, CS_PARENTDC) {
            return self;
        }
        self.add_style(CS_OWNDC)
    }

    /// Lets windows draw in the device context of their parent, unless
    /// another device-context style was chosen first.
    pub fn create_cache_dc(&mut self) -> (r: &mut Self)
        ensures
            (*r)@ == with_dc(old(self)@, CS_PARENTDC, CS_CLASSDC, CS_OWNDC),
            *final(self) == *final(r),
    {
        if self.is_dc_set(CS_CLASSDC, CS_OWNDC) {
            return self;
        }
        self.add_style(CS_PARENTDC)
    }

    /// Keeps what the windows hide as bitmaps, trading memory for redraws.
    pub fn save_bitmap(&mut self) -> (r: &mut Self)
        ensures
            (*r)@ == (ManagerView { style: old(self)@.style | CS_SAVEBITS, ..old(self)@ }),
            *final(self) == *final(r),
    {
        self.add_style(CS_SAVEBITS)
    }

    /// Bytes to set aside for each window.
    pub fn allocate_window_metadata(&mut self, bytes: i32) -> (r: &mut Self)
        ensures
            (*r)@ == (ManagerView { window_metadata: bytes, ..old(self)@ }),
            *final(self) == *final(r),
    {
        self.window_metadata = bytes;
        self
    }

    /// Bytes to set aside for the class, shared by all its windows.
    pub fn allocate_metadata(&mut self, bytes: i32) -> (r: &mut Self)
        ensures
            (*r)@ == (ManagerView { metadata: bytes, ..old(self)@ }),
            *final(self) == *final(r),
    {
        self.metadata = bytes;
        self
    }

    pub fn style(&self) -> (r: u32)
        ensures
            r == self@.style,
    {
        self.style
    }

    pub fn classname(&self) -> (r: &str)
        ensures
            r@ == self@.classname,
    {
        self.classname.as_str()
    }

    pub fn menuname(&self) -> (r: Option<&str>)
        ensures
            match self@.menuname {
                Some(m) => r is Some && r.unwrap()@ == m,
                None => r is None,
            },
    {
        match &self.menuname {
            Some(m) => Some(m.as_str()),
            None => None,
        }
    }

    /// The class to register: refused when the name is empty, or when a
    /// menu was set with an empty name.
    pub fn build_class(&self) -> (r: Result<WindowClass, BuildError>)
        ensures
            self@.classname.len() == 0 ==> r == Err::<WindowClass, BuildError>(
                BuildError::EmptyName,
            ),
            self@.classname.len() > 0 && menu_empty(self@) ==> r == Err::<WindowClass, BuildError>(
                BuildError::EmptyMenu,
            ),
            self@.classname.len() > 0 && !menu_empty(self@) ==> (r matches Ok(c) && describes(
                c,
                self@,
            )),
    {
        if self.classname.as_str().is_empty() {
            return Err(BuildError::EmptyName);
        }
        let menu_name = match &self.menuname {
            Some(m) => {
                if m.as_str().is_empty() {
                    return Err(BuildError::EmptyMenu);
                }
                Some(m.clone())
            },
            None => None,
        };
        Ok(
            WindowClass {
                class_name: self.classname.clone(),
                menu_name,
                instance: self.instance,
                style: self.style,
                class_extra: self.metadata,
                window_extra: self.window_metadata,
            },
        )
    }
}

/// A window the manager keeps.
pub struct Window {
    pub title: String,
    pub x: i32,
    pub y: i32,
    pub width: u32,
    pub height: u32,
}

/// A registered window class and the windows made from it.
pub struct WindowManager {
    name: String,
    windows: Vec<Window>,
}

impl WindowManager {
    pub fn new(name: &str) -> (r: Self)
        ensures
            r.spec_name() == name@,
            r.spec_window_count() == 0,
    {
        WindowManager { name: String::from_str(name), windows: Vec::new() }
    }

    pub closed spec fn spec_name(&self) -> Seq<char> {
        self.name@
    }

    pub closed spec fn spec_window_count(&self) -> nat {
        self.windows@.len()
    }

    pub fn name(&self) -> (r: &str)
        ensures
            r@ == self.spec_name(),
    {
        self.name.as_str()
    }

    /// Whether the manager's class is named `name`.
    pub fn is_named(&self, name: &str) -> (r: bool)
        ensures
            r == (self.spec_name() == name@),
    {
        same_text(self.name.as_str(), name)
    }
}

/// What a window procedure does with a message.
#[derive(Clone, Copy, Debug, PartialEq, Eq, Structural)]
pub enum MessageAction {
    /// Mark the window painted and answer 0.
    Validate,
    /// Post the quit message and answer 0.
    Quit,
    /// Hand the message to the default procedure.
    Default,
}

/// The action for `message`: paint and destroy are handled, the rest is
/// passed on.
pub fn message_action(message: u32) -> (r: MessageAction)
    ensures
        r == if message == WM_PAINT {
            MessageAction::Validate
        } else if message == WM_DESTROY {
            MessageAction::Quit
        } else {
            MessageAction::Default
        },
{
    if message == WM_PAINT {
        MessageAction::Validate
    } else if message == WM_DESTROY {
        MessageAction::Quit
    } else {
        MessageAction::Default
    }
}

/// The platform color value of red `r`, green `g` and blue `b`:
/// `0x00bbggrr`.
pub fn colorref(r: u8, g: u8, b: u8) -> (c: u32)
    ensures
        c == b as u32 * 65536 + g as u32 * 256 + r as u32,
{
    let c = ((b as u32) << 16u32) | ((g as u32) << 8u32) | r as u32;
    let (rr, gg, bb) = (r as u32, g as u32, b as u32);
    assert(rr < 256 && gg < 256 && bb < 256 ==> ((bb << 16u32) | (gg << 8u32) | rr) == bb * 65536
        + gg * 256 + rr) by (bit_vector);
    c
}

} // verus!
