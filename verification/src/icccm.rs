//! ICCCM hint records and the replies of the ICCCM property requests.
//!
//! A hint record is a flags word and a fixed set of fields. A field counts
//! only while its bit is set in the flags word: the accessors report a field
//! as `Some` exactly then, and the builders set the bit together with the
//! field.

use crate::reply::{Cookie, ProtocolError, ReplyError};
use crate::xproto::{Atom, Gravity, Pixmap, Window, ATOM_NONE};
use vstd::prelude::*;

verus! {

pub type WmState = i32;

pub const WM_STATE_WITHDRAWN: WmState = 0;

pub const WM_STATE_NORMAL: WmState = 1;

pub const WM_STATE_ICONIC: WmState = 3;

pub const SIZE_HINT_US_POSITION: u32 = 0x001;

pub const SIZE_HINT_US_SIZE: u32 = 0x002;

pub const SIZE_HINT_P_POSITION: u32 = 0x004;

pub const SIZE_HINT_P_SIZE: u32 = 0x008;

pub const SIZE_HINT_P_MIN_SIZE: u32 = 0x010;

pub const SIZE_HINT_P_MAX_SIZE: u32 = 0x020;

pub const SIZE_HINT_P_RESIZE_INC: u32 = 0x040;

pub const SIZE_HINT_P_ASPECT: u32 = 0x080;

pub const SIZE_HINT_BASE_SIZE: u32 = 0x100;

pub const SIZE_HINT_P_WIN_GRAVITY: u32 = 0x200;

pub const WM_HINT_INPUT: i32 = 0x001;

pub const WM_HINT_STATE: i32 = 0x002;

pub const WM_HINT_ICON_PIXMAP: i32 = 0x004;

pub const WM_HINT_ICON_WINDOW: i32 = 0x008;

pub const WM_HINT_ICON_POSITION: i32 = 0x010;

pub const WM_HINT_ICON_MASK: i32 = 0x020;

pub const WM_HINT_WINDOW_GROUP: i32 = 0x040;

pub const WM_HINT_X_URGENCY: i32 = 0x100;

/// The size hints of a window, as the property stores them.
#[derive(Clone, Copy, Debug, PartialEq, Eq, Structural)]
pub struct SizeHints {
    pub flags: u32,
    pub x: i32,
    pub y: i32,
    pub width: i32,
    pub height: i32,
    pub min_width: i32,
    pub min_height: i32,
    pub max_width: i32,
    pub max_height: i32,
    pub width_inc: i32,
    pub height_inc: i32,
    pub min_aspect_num: i32,
    pub min_aspect_den: i32,
    pub max_aspect_num: i32,
    pub max_aspect_den: i32,
    pub base_width: i32,
    pub base_height: i32,
    pub win_gravity: u32,
}

/// What a size-hints record says: each hint with its value, or `None` where
/// the record does not carry it.
pub struct SizeHintsView {
    pub position: Option<(i32, i32)>,
    pub size: Option<(i32, i32)>,
    pub min_size: Option<(i32, i32)>,
    pub max_size: Option<(i32, i32)>,
    pub resize: Option<(i32, i32)>,
    pub aspect: Option<((i32, i32), (i32, i32))>,
    pub base: Option<(i32, i32)>,
    pub gravity: Option<Gravity>,
}

impl View for SizeHints {
    type V = SizeHintsView;

    open spec fn view(&self) -> SizeHintsView {
        SizeHintsView {
            position: if self.flags & SIZE_HINT_P_POSITION != 0 {
                Some((self.x, self.y))
            } else {
                None
            },
            size: if self.flags & SIZE_HINT_P_SIZE != 0 {
                Some((self.width, self.height))
            } else {
                None
            },
            min_size: if self.flags & SIZE_HINT_P_MIN_SIZE != 0 {
                Some((self.min_width, self.min_height))
            } else {
                None
            },
            max_size: if self.flags & SIZE_HINT_P_MAX_SIZE != 0 {
                Some((self.max_width, self.max_height))
            } else {
                None
            },
            resize: if self.flags & SIZE_HINT_P_RESIZE_INC != 0 {
                Some((self.width_inc, self.height_inc))
            } else {
                None
            },
            aspect: if self.flags & SIZE_HINT_P_ASPECT != 0 {
                Some(
                    (
                        (self.min_aspect_num, self.min_aspect_den),
                        (self.max_aspect_num, self.max_aspect_den),
                    ),
                )
            } else {
                None
            },
            base: if self.flags & SIZE_HINT_BASE_SIZE != 0 {
                Some((self.base_width, self.base_height))
            } else {
                None
            },
            gravity: if self.flags & SIZE_HINT_P_WIN_GRAVITY != 0 {
                Some(self.win_gravity)
            } else {
                None
            },
        }
    }
}

impl SizeHints {
    /// The record in which every word is zero: it carries no hint.
    pub open spec fn zeroed() -> SizeHints {
        SizeHints {
            flags: 0,
            x: 0,
            y: 0,
            width: 0,
            height: 0,
            min_width: 0,
            min_height: 0,
            max_width: 0,
            max_height: 0,
            width_inc: 0,
            height_inc: 0,
            min_aspect_num: 0,
            min_aspect_den: 0,
            max_aspect_num: 0,
            max_aspect_den: 0,
            base_width: 0,
            base_height: 0,
            win_gravity: 0,
        }
    }

    /// This record after it was given the program-chosen position; a user-chosen position is withdrawn.
    pub open spec fn with_position(self, x: i32, y: i32) -> SizeHints {
        SizeHints {
            flags: (self.flags & !(SIZE_HINT_US_POSITION | SIZE_HINT_P_POSITION)) | SIZE_HINT_P_POSITION,
            x,
            y,
            ..self
        }
    }

    /// This record after it was given the program-chosen size; a user-chosen size is withdrawn.
    pub open spec fn with_size(self, width: i32, height: i32) -> SizeHints {
        SizeHints {
            flags: (self.flags & !(SIZE_HINT_US_SIZE | SIZE_HINT_P_SIZE)) | SIZE_HINT_P_SIZE,
            width,
            height,
            ..self
        }
    }

    /// This record after it was given the minimum size.
    pub open spec fn with_min_size(self, width: i32, height: i32) -> SizeHints {
        SizeHints {
            flags: self.flags | SIZE_HINT_P_MIN_SIZE,
            min_width: width,
            min_height: height,
            ..self
        }
    }

    /// This record after it was given the maximum size.
    pub open spec fn with_max_size(self, width: i32, height: i32) -> SizeHints {
        SizeHints {
            flags: self.flags | SIZE_HINT_P_MAX_SIZE,
            max_width: width,
            max_height: height,
            ..self
        }
    }

    /// This record after it was given the resize increments.
    pub open spec fn with_resize(self, width: i32, height: i32) -> SizeHints {
        SizeHints {
            flags: self.flags | SIZE_HINT_P_RESIZE_INC,
            width_inc: width,
            height_inc: height,
            ..self
        }
    }

    /// This record after it was given the smallest and the largest aspect ratio.
    pub open spec fn with_aspect(self, min: (i32, i32), max: (i32, i32)) -> SizeHints {
        SizeHints {
            flags: self.flags | SIZE_HINT_P_ASPECT,
            min_aspect_num: min.0,
            min_aspect_den: min.1,
            max_aspect_num: max.0,
            max_aspect_den: max.1,
            ..self
        }
    }

    /// This record after it was given the base size.
    pub open spec fn with_base(self, width: i32, height: i32) -> SizeHints {
        SizeHints {
            flags: self.flags | SIZE_HINT_BASE_SIZE,
            base_width: width,
            base_height: height,
            ..self
        }
    }

    /// This record after it was given the window gravity.
    pub open spec fn with_gravity(self, gravity: Gravity) -> SizeHints {
        SizeHints {
            flags: self.flags | SIZE_HINT_P_WIN_GRAVITY,
            win_gravity: gravity,
            ..self
        }
    }

    /// Starts a record that carries no hint.
    pub fn empty() -> (builder: SizeHintsBuilder)
        ensures
            builder.hints() == SizeHints::zeroed(),
    {
        SizeHintsBuilder(
            SizeHints {
                flags: 0,
                x: 0,
                y: 0,
                width: 0,
                height: 0,
                min_width: 0,
                min_height: 0,
                max_width: 0,
                max_height: 0,
                width_inc: 0,
                height_inc: 0,
                min_aspect_num: 0,
                min_aspect_den: 0,
                max_aspect_num: 0,
                max_aspect_den: 0,
                base_width: 0,
                base_height: 0,
                win_gravity: 0,
            },
        )
    }

    /// The program-chosen position.
    pub fn position(&self) -> (hint: Option<(i32, i32)>)
        ensures
            hint == self@.position,
    {
        if self.flags & SIZE_HINT_P_POSITION != 0 {
            Some((self.x, self.y))
        } else {
            None
        }
    }

    /// The program-chosen size.
    pub fn size(&self) -> (hint: Option<(i32, i32)>)
        ensures
            hint == self@.size,
    {
        if self.flags & SIZE_HINT_P_SIZE != 0 {
            Some((self.width, self.height))
        } else {
            None
        }
    }

    /// The minimum size.
    pub fn min_size(&self) -> (hint: Option<(i32, i32)>)
        ensures
            hint == self@.min_size,
    {
        if self.flags & SIZE_HINT_P_MIN_SIZE != 0 {
            Some((self.min_width, self.min_height))
        } else {
            None
        }
    }

    /// The maximum size.
    pub fn max_size(&self) -> (hint: Option<(i32, i32)>)
        ensures
            hint == self@.max_size,
    {
        if self.flags & SIZE_HINT_P_MAX_SIZE != 0 {
            Some((self.max_width, self.max_height))
        } else {
            None
        }
    }

    /// The resize increments.
    pub fn resize(&self) -> (hint: Option<(i32, i32)>)
        ensures
            hint == self@.resize,
    {
        if self.flags & SIZE_HINT_P_RESIZE_INC != 0 {
            Some((self.width_inc, self.height_inc))
        } else {
            None
        }
    }

    /// The smallest and the largest aspect ratio, each as numerator and denominator.
    pub fn aspect(&self) -> (hint: Option<((i32, i32), (i32, i32))>)
        ensures
            hint == self@.aspect,
    {
        if self.flags & SIZE_HINT_P_ASPECT != 0 {
            Some(
                (
                    (self.min_aspect_num, self.min_aspect_den),
                    (self.max_aspect_num, self.max_aspect_den),
                ),
            )
        } else {
            None
        }
    }

    /// The base size.
    pub fn base(&self) -> (hint: Option<(i32, i32)>)
        ensures
            hint == self@.base,
    {
        if self.flags & SIZE_HINT_BASE_SIZE != 0 {
            Some((self.base_width, self.base_height))
        } else {
            None
        }
    }

    /// The window gravity.
    pub fn gravity(&self) -> (hint: Option<Gravity>)
        ensures
            hint == self@.gravity,
    {
        if self.flags & SIZE_HINT_P_WIN_GRAVITY != 0 {
            Some(self.win_gravity)
        } else {
            None
        }
    }
}

/// A size-hints record under construction.
#[derive(Clone, Copy, Debug)]
pub struct SizeHintsBuilder(SizeHints);

impl SizeHintsBuilder {
    /// The record as built so far.
    pub closed spec fn hints(self) -> SizeHints {
        self.0
    }

    /// Sets the program-chosen position and withdraws a user-chosen one.
    pub fn position(self, x: i32, y: i32) -> (builder: SizeHintsBuilder)
        ensures
            builder.hints() == self.hints().with_position(x, y),
    {
        let mut hints = self.0;
        hints.flags = (hints.flags & !(SIZE_HINT_US_POSITION | SIZE_HINT_P_POSITION)) | SIZE_HINT_P_POSITION;
        hints.x = x;
        hints.y = y;
        SizeHintsBuilder(hints)
    }

    /// Sets the program-chosen size and withdraws a user-chosen one.
    pub fn size(self, width: i32, height: i32) -> (builder: SizeHintsBuilder)
        ensures
            builder.hints() == self.hints().with_size(width, height),
    {
        let mut hints = self.0;
        hints.flags = (hints.flags & !(SIZE_HINT_US_SIZE | SIZE_HINT_P_SIZE)) | SIZE_HINT_P_SIZE;
        hints.width = width;
        hints.height = height;
        SizeHintsBuilder(hints)
    }

    /// Sets the minimum size.
    pub fn min_size(self, width: i32, height: i32) -> (builder: SizeHintsBuilder)
        ensures
            builder.hints() == self.hints().with_min_size(width, height),
    {
        let mut hints = self.0;
        hints.flags = hints.flags | SIZE_HINT_P_MIN_SIZE;
        hints.min_width = width;
        hints.min_height = height;
        SizeHintsBuilder(hints)
    }

    /// Sets the maximum size.
    pub fn max_size(self, width: i32, height: i32) -> (builder: SizeHintsBuilder)
        ensures
            builder.hints() == self.hints().with_max_size(width, height),
    {
        let mut hints = self.0;
        hints.flags = hints.flags | SIZE_HINT_P_MAX_SIZE;
        hints.max_width = width;
        hints.max_height = height;
        SizeHintsBuilder(hints)
    }

    /// Sets the resize increments.
    pub fn resize(self, width: i32, height: i32) -> (builder: SizeHintsBuilder)
        ensures
            builder.hints() == self.hints().with_resize(width, height),
    {
        let mut hints = self.0;
        hints.flags = hints.flags | SIZE_HINT_P_RESIZE_INC;
        hints.width_inc = width;
        hints.height_inc = height;
        SizeHintsBuilder(hints)
    }

    /// Sets the smallest and the largest aspect ratio.
    pub fn aspect(self, min: (i32, i32), max: (i32, i32)) -> (builder: SizeHintsBuilder)
        ensures
            builder.hints() == self.hints().with_aspect(min, max),
    {
        let mut hints = self.0;
        hints.flags = hints.flags | SIZE_HINT_P_ASPECT;
        hints.min_aspect_num = min.0;
        hints.min_aspect_den = min.1;
        hints.max_aspect_num = max.0;
        hints.max_aspect_den = max.1;
        SizeHintsBuilder(hints)
    }

    /// Sets the base size.
    pub fn base(self, width: i32, height: i32) -> (builder: SizeHintsBuilder)
        ensures
            builder.hints() == self.hints().with_base(width, height),
    {
        let mut hints = self.0;
        hints.flags = hints.flags | SIZE_HINT_BASE_SIZE;
        hints.base_width = width;
        hints.base_height = height;
        SizeHintsBuilder(hints)
    }

    /// Sets the window gravity.
    pub fn gravity(self, gravity: Gravity) -> (builder: SizeHintsBuilder)
        ensures
            builder.hints() == self.hints().with_gravity(gravity),
    {
        let mut hints = self.0;
        hints.flags = hints.flags | SIZE_HINT_P_WIN_GRAVITY;
        hints.win_gravity = gravity;
        SizeHintsBuilder(hints)
    }

    /// Finishes the record.
    pub fn build(self) -> (hints: SizeHints)
        ensures
            hints == self.hints(),
    {
        self.0
    }
}

/// A record that was just started carries no hint.
pub proof fn empty_size_hints_carry_nothing()
    ensures
        SizeHints::zeroed()@ == (SizeHintsView {
            position: None,
            size: None,
            min_size: None,
            max_size: None,
            resize: None,
            aspect: None,
            base: None,
            gravity: None,
        }),
{
    assert(0u32 & 0x004 == 0 && 0u32 & 0x008 == 0 && 0u32 & 0x010 == 0 && 0u32 & 0x020 == 0
        && 0u32 & 0x040 == 0 && 0u32 & 0x080 == 0 && 0u32 & 0x100 == 0 && 0u32 & 0x200 == 0)
        by (bit_vector);
}

/// Setting the position makes the record report it, and changes no other hint.
pub proof fn set_position_then_read(hints: SizeHints, x: i32, y: i32)
    ensures
        hints.with_position(x, y)@ == (SizeHintsView { position: Some((x, y)), ..hints@ }),
{
    let f = hints.flags;
    let g = (f & !(0x001u32 | 0x004u32)) | 0x004u32;
    assert(g == hints.with_position(x, y).flags);
    assert(g & 0x004 != 0
        && g & 0x008 == f & 0x008
        && g & 0x010 == f & 0x010
        && g & 0x020 == f & 0x020
        && g & 0x040 == f & 0x040
        && g & 0x080 == f & 0x080
        && g & 0x100 == f & 0x100
        && g & 0x200 == f & 0x200) by (bit_vector)
        requires
            g == (f & !(0x001u32 | 0x004u32)) | 0x004u32,
    ;
}

/// Setting the size makes the record report it, and changes no other hint.
pub proof fn set_size_then_read(hints: SizeHints, width: i32, height: i32)
    ensures
        hints.with_size(width, height)@ == (SizeHintsView { size: Some((width, height)), ..hints@ }),
{
    let f = hints.flags;
    let g = (f & !(0x002u32 | 0x008u32)) | 0x008u32;
    assert(g == hints.with_size(width, height).flags);
    assert(g & 0x004 == f & 0x004
        && g & 0x008 != 0
        && g & 0x010 == f & 0x010
        && g & 0x020 == f & 0x020
        && g & 0x040 == f & 0x040
        && g & 0x080 == f & 0x080
        && g & 0x100 == f & 0x100
        && g & 0x200 == f & 0x200) by (bit_vector)
        requires
            g == (f & !(0x002u32 | 0x008u32)) | 0x008u32,
    ;
}

/// Setting the minimum size makes the record report it, and changes no other hint.
pub proof fn set_min_size_then_read(hints: SizeHints, width: i32, height: i32)
    ensures
        hints.with_min_size(width, height)@ == (SizeHintsView { min_size: Some((width, height)), ..hints@ }),
{
    let f = hints.flags;
    let g = f | 0x010u32;
    assert(g == hints.with_min_size(width, height).flags);
    assert(g & 0x004 == f & 0x004
        && g & 0x008 == f & 0x008
        && g & 0x010 != 0
        && g & 0x020 == f & 0x020
        && g & 0x040 == f & 0x040
        && g & 0x080 == f & 0x080
        && g & 0x100 == f & 0x100
        && g & 0x200 == f & 0x200) by (bit_vector)
        requires
            g == f | 0x010u32,
    ;
}

/// Setting the maximum size makes the record report it, and changes no other hint.
pub proof fn set_max_size_then_read(hints: SizeHints, width: i32, height: i32)
    ensures
        hints.with_max_size(width, height)@ == (SizeHintsView { max_size: Some((width, height)), ..hints@ }),
{
    let f = hints.flags;
    let g = f | 0x020u32;
    assert(g == hints.with_max_size(width, height).flags);
    assert(g & 0x004 == f & 0x004
        && g & 0x008 == f & 0x008
        && g & 0x010 == f & 0x010
        && g & 0x020 != 0
        && g & 0x040 == f & 0x040
        && g & 0x080 == f & 0x080
        && g & 0x100 == f & 0x100
        && g & 0x200 == f & 0x200) by (bit_vector)
        requires
            g == f | 0x020u32,
    ;
}

/// Setting the resize increments makes the record report it, and changes no other hint.
pub proof fn set_resize_then_read(hints: SizeHints, width: i32, height: i32)
    ensures
        hints.with_resize(width, height)@ == (SizeHintsView { resize: Some((width, height)), ..hints@ }),
{
    let f = hints.flags;
    let g = f | 0x040u32;
    assert(g == hints.with_resize(width, height).flags);
    assert(g & 0x004 == f & 0x004
        && g & 0x008 == f & 0x008
        && g & 0x010 == f & 0x010
        && g & 0x020 == f & 0x020
        && g & 0x040 != 0
        && g & 0x080 == f & 0x080
        && g & 0x100 == f & 0x100
        && g & 0x200 == f & 0x200) by (bit_vector)
        requires
            g == f | 0x040u32,
    ;
}

/// Setting the aspect ratios makes the record report it, and changes no other hint.
pub proof fn set_aspect_then_read(hints: SizeHints, min: (i32, i32), max: (i32, i32))
    ensures
        hints.with_aspect(min, max)@ == (SizeHintsView { aspect: Some((min, max)), ..hints@ }),
{
    let f = hints.flags;
    let g = f | 0x080u32;
    assert(g == hints.with_aspect(min, max).flags);
    assert(g & 0x004 == f & 0x004
        && g & 0x008 == f & 0x008
        && g & 0x010 == f & 0x010
        && g & 0x020 == f & 0x020
        && g & 0x040 == f & 0x040
        && g & 0x080 != 0
        && g & 0x100 == f & 0x100
        && g & 0x200 == f & 0x200) by (bit_vector)
        requires
            g == f | 0x080u32,
    ;
}

/// Setting the base size makes the record report it, and changes no other hint.
pub proof fn set_base_then_read(hints: SizeHints, width: i32, height: i32)
    ensures
        hints.with_base(width, height)@ == (SizeHintsView { base: Some((width, height)), ..hints@ }),
{
    let f = hints.flags;
    let g = f | 0x100u32;
    assert(g == hints.with_base(width, height).flags);
    assert(g & 0x004 == f & 0x004
        && g & 0x008 == f & 0x008
        && g & 0x010 == f & 0x010
        && g & 0x020 == f & 0x020
        && g & 0x040 == f & 0x040
        && g & 0x080 == f & 0x080
        && g & 0x100 != 0
        && g & 0x200 == f & 0x200) by (bit_vector)
        requires
            g == f | 0x100u32,
    ;
}

/// Setting the window gravity makes the record report it, and changes no other hint.
pub proof fn set_gravity_then_read(hints: SizeHints, gravity: Gravity)
    ensures
        hints.with_gravity(gravity)@ == (SizeHintsView { gravity: Some(gravity), ..hints@ }),
{
    let f = hints.flags;
    let g = f | 0x200u32;
    assert(g == hints.with_gravity(gravity).flags);
    assert(g & 0x004 == f & 0x004
        && g & 0x008 == f & 0x008
        && g & 0x010 == f & 0x010
        && g & 0x020 == f & 0x020
        && g & 0x040 == f & 0x040
        && g & 0x080 == f & 0x080
        && g & 0x100 == f & 0x100
        && g & 0x200 != 0) by (bit_vector)
        requires
            g == f | 0x200u32,
    ;
}

/// The window-manager hints of a window, as the property stores them.
#[derive(Clone, Copy, Debug, PartialEq, Eq, Structural)]
pub struct WmHints {
    pub flags: i32,
    pub input: u32,
    pub initial_state: i32,
    pub icon_pixmap: Pixmap,
    pub icon_window: Window,
    pub icon_x: i32,
    pub icon_y: i32,
    pub icon_mask: Pixmap,
    pub window_group: Window,
}

/// What a window-manager hints record says: each hint with its value, or
/// `None` where the record does not carry it.
pub struct WmHintsView {
    pub input: Option<bool>,
    pub initial_state: Option<WmState>,
    pub icon_pixmap: Option<Pixmap>,
    pub icon_mask: Option<Pixmap>,
    pub icon_window: Option<Window>,
    pub window_group: Option<Window>,
    pub urgent: Option<bool>,
}

impl View for WmHints {
    type V = WmHintsView;

    open spec fn view(&self) -> WmHintsView {
        WmHintsView {
            input: if self.flags & WM_HINT_INPUT != 0 {
                Some(self.input != 0)
            } else {
                None
            },
            initial_state: if self.flags & WM_HINT_STATE != 0 {
                Some(self.initial_state)
            } else {
                None
            },
            icon_pixmap: if self.flags & WM_HINT_ICON_PIXMAP != 0 {
                Some(self.icon_pixmap)
            } else {
                None
            },
            icon_mask: if self.flags & WM_HINT_ICON_MASK != 0 {
                Some(self.icon_mask)
            } else {
                None
            },
            icon_window: if self.flags & WM_HINT_ICON_WINDOW != 0 {
                Some(self.icon_window)
            } else {
                None
            },
            window_group: if self.flags & WM_HINT_WINDOW_GROUP != 0 {
                Some(self.window_group)
            } else {
                None
            },
            urgent: if self.flags & WM_HINT_X_URGENCY != 0 {
                Some(true)
            } else {
                None
            },
        }
    }
}

impl WmHints {
    /// The record in which every word is zero: it carries no hint.
    pub open spec fn zeroed() -> WmHints {
        WmHints {
            flags: 0,
            input: 0,
            initial_state: 0,
            icon_pixmap: 0,
            icon_window: 0,
            icon_x: 0,
            icon_y: 0,
            icon_mask: 0,
            window_group: 0,
        }
    }

    /// This record after it was told whether the window takes keyboard input.
    pub open spec fn with_input(self, value: bool) -> WmHints {
        WmHints {
            flags: self.flags | WM_HINT_INPUT,
            input: if value {
                1
            } else {
                0
            },
            ..self
        }
    }

    /// This record after it was given the iconic initial state.
    pub open spec fn with_iconic(self) -> WmHints {
        WmHints {
            flags: self.flags | WM_HINT_STATE,
            initial_state: WM_STATE_ICONIC,
            ..self
        }
    }

    /// This record after it was given the normal initial state.
    pub open spec fn with_normal(self) -> WmHints {
        WmHints {
            flags: self.flags | WM_HINT_STATE,
            initial_state: WM_STATE_NORMAL,
            ..self
        }
    }

    /// This record after it was given the withdrawn initial state.
    pub open spec fn with_withdrawn(self) -> WmHints {
        WmHints {
            flags: self.flags | WM_HINT_STATE,
            initial_state: WM_STATE_WITHDRAWN,
            ..self
        }
    }

    /// This record after it had its initial state withdrawn.
    pub open spec fn with_none(self) -> WmHints {
        WmHints {
            flags: self.flags & !WM_HINT_STATE,
            ..self
        }
    }

    /// This record after it was given the icon pixmap.
    pub open spec fn with_icon_pixmap(self, icon: Pixmap) -> WmHints {
        WmHints {
            flags: self.flags | WM_HINT_ICON_PIXMAP,
            icon_pixmap: icon,
            ..self
        }
    }

    /// This record after it was given the icon mask.
    pub open spec fn with_icon_mask(self, icon: Pixmap) -> WmHints {
        WmHints {
            flags: self.flags | WM_HINT_ICON_MASK,
            icon_mask: icon,
            ..self
        }
    }

    /// This record after it was given the icon window.
    pub open spec fn with_icon_window(self, icon: Window) -> WmHints {
        WmHints {
            flags: self.flags | WM_HINT_ICON_WINDOW,
            icon_window: icon,
            ..self
        }
    }

    /// This record after it was given the window group.
    pub open spec fn with_window_group(self, group: Window) -> WmHints {
        WmHints {
            flags: self.flags | WM_HINT_WINDOW_GROUP,
            window_group: group,
            ..self
        }
    }

    /// This record after it was marked urgent.
    pub open spec fn with_urgency(self) -> WmHints {
        WmHints {
            flags: self.flags | WM_HINT_X_URGENCY,
            ..self
        }
    }

    /// Starts a record that carries no hint.
    pub fn empty() -> (builder: WmHintsBuilder)
        ensures
            builder.hints() == WmHints::zeroed(),
    {
        WmHintsBuilder(
            WmHints {
                flags: 0,
                input: 0,
                initial_state: 0,
                icon_pixmap: 0,
                icon_window: 0,
                icon_x: 0,
                icon_y: 0,
                icon_mask: 0,
                window_group: 0,
            },
        )
    }

    /// Whether the window takes keyboard input.
    pub fn input(&self) -> (hint: Option<bool>)
        ensures
            hint == self@.input,
    {
        if self.flags & WM_HINT_INPUT != 0 {
            Some(self.input != 0)
        } else {
            None
        }
    }

    /// `true` when the record asks for the window to start iconic.
    pub fn is_iconic(&self) -> (iconic: bool)
        ensures
            iconic == (self@.initial_state == Some(WM_STATE_ICONIC)),
    {
        self.flags & WM_HINT_STATE != 0 && self.initial_state == WM_STATE_ICONIC
    }

    /// `true` when the record asks for the window to start in the normal
    /// state.
    pub fn is_normal(&self) -> (normal: bool)
        ensures
            normal == (self@.initial_state == Some(WM_STATE_NORMAL)),
    {
        self.flags & WM_HINT_STATE != 0 && self.initial_state == WM_STATE_NORMAL
    }

    /// `true` when the record asks for the window to start withdrawn.
    pub fn is_withdrawn(&self) -> (withdrawn: bool)
        ensures
            withdrawn == (self@.initial_state == Some(WM_STATE_WITHDRAWN)),
    {
        self.flags & WM_HINT_STATE != 0 && self.initial_state == WM_STATE_WITHDRAWN
    }

    /// `true` when the record names none of the three initial states.
    pub fn is_none(&self) -> (none: bool)
        ensures
            none == !(self@.initial_state == Some(WM_STATE_ICONIC) || self@.initial_state == Some(
                WM_STATE_NORMAL,
            ) || self@.initial_state == Some(WM_STATE_WITHDRAWN)),
    {
        self.flags & WM_HINT_STATE == 0 || (self.initial_state != WM_STATE_ICONIC
            && self.initial_state != WM_STATE_NORMAL && self.initial_state
            != WM_STATE_WITHDRAWN)
    }

    /// The icon pixmap.
    pub fn icon_pixmap(&self) -> (hint: Option<Pixmap>)
        ensures
            hint == self@.icon_pixmap,
    {
        if self.flags & WM_HINT_ICON_PIXMAP != 0 {
            Some(self.icon_pixmap)
        } else {
            None
        }
    }

    /// The icon mask.
    pub fn icon_mask(&self) -> (hint: Option<Pixmap>)
        ensures
            hint == self@.icon_mask,
    {
        if self.flags & WM_HINT_ICON_MASK != 0 {
            Some(self.icon_mask)
        } else {
            None
        }
    }

    /// The icon window.
    pub fn icon_window(&self) -> (hint: Option<Window>)
        ensures
            hint == self@.icon_window,
    {
        if self.flags & WM_HINT_ICON_WINDOW != 0 {
            Some(self.icon_window)
        } else {
            None
        }
    }

    /// The window group.
    pub fn window_group(&self) -> (hint: Option<Window>)
        ensures
            hint == self@.window_group,
    {
        if self.flags & WM_HINT_WINDOW_GROUP != 0 {
            Some(self.window_group)
        } else {
            None
        }
    }

    /// The urgency mark: `Some(true)` when the record carries it, `None` when
    /// it does not.
    pub fn is_urgent(&self) -> (hint: Option<bool>)
        ensures
            hint == self@.urgent,
    {
        if self.flags & WM_HINT_X_URGENCY != 0 {
            Some(true)
        } else {
            None
        }
    }
}

/// A window-manager hints record under construction.
#[derive(Clone, Copy, Debug)]
pub struct WmHintsBuilder(WmHints);

impl WmHintsBuilder {
    /// The record as built so far.
    pub closed spec fn hints(self) -> WmHints {
        self.0
    }

    /// Says whether the window takes keyboard input.
    pub fn input(self, value: bool) -> (builder: WmHintsBuilder)
        ensures
            builder.hints() == self.hints().with_input(value),
    {
        let mut hints = self.0;
        hints.flags = hints.flags | WM_HINT_INPUT;
        hints.input = if value {
            1
        } else {
            0
        };
        WmHintsBuilder(hints)
    }

    /// Asks for the window to start iconic.
    pub fn is_iconic(self) -> (builder: WmHintsBuilder)
        ensures
            builder.hints() == self.hints().with_iconic(),
    {
        let mut hints = self.0;
        hints.flags = hints.flags | WM_HINT_STATE;
        hints.initial_state = WM_STATE_ICONIC;
        WmHintsBuilder(hints)
    }

    /// Asks for the window to start in the normal state.
    pub fn is_normal(self) -> (builder: WmHintsBuilder)
        ensures
            builder.hints() == self.hints().with_normal(),
    {
        let mut hints = self.0;
        hints.flags = hints.flags | WM_HINT_STATE;
        hints.initial_state = WM_STATE_NORMAL;
        WmHintsBuilder(hints)
    }

    /// Asks for the window to start withdrawn.
    pub fn is_withdrawn(self) -> (builder: WmHintsBuilder)
        ensures
            builder.hints() == self.hints().with_withdrawn(),
    {
        let mut hints = self.0;
        hints.flags = hints.flags | WM_HINT_STATE;
        hints.initial_state = WM_STATE_WITHDRAWN;
        WmHintsBuilder(hints)
    }

    /// Withdraws the initial state.
    pub fn is_none(self) -> (builder: WmHintsBuilder)
        ensures
            builder.hints() == self.hints().with_none(),
    {
        let mut hints = self.0;
        hints.flags = hints.flags & !WM_HINT_STATE;
        WmHintsBuilder(hints)
    }

    /// Sets the icon pixmap.
    pub fn icon_pixmap(self, icon: Pixmap) -> (builder: WmHintsBuilder)
        ensures
            builder.hints() == self.hints().with_icon_pixmap(icon),
    {
        let mut hints = self.0;
        hints.flags = hints.flags | WM_HINT_ICON_PIXMAP;
        hints.icon_pixmap = icon;
        WmHintsBuilder(hints)
    }

    /// Sets the icon mask.
    pub fn icon_mask(self, icon: Pixmap) -> (builder: WmHintsBuilder)
        ensures
            builder.hints() == self.hints().with_icon_mask(icon),
    {
        let mut hints = self.0;
        hints.flags = hints.flags | WM_HINT_ICON_MASK;
        hints.icon_mask = icon;
        WmHintsBuilder(hints)
    }

    /// Sets the icon window.
    pub fn icon_window(self, icon: Window) -> (builder: WmHintsBuilder)
        ensures
            builder.hints() == self.hints().with_icon_window(icon),
    {
        let mut hints = self.0;
        hints.flags = hints.flags | WM_HINT_ICON_WINDOW;
        hints.icon_window = icon;
        WmHintsBuilder(hints)
    }

    /// Sets the window group.
    pub fn window_group(self, group: Window) -> (builder: WmHintsBuilder)
        ensures
            builder.hints() == self.hints().with_window_group(group),
    {
        let mut hints = self.0;
        hints.flags = hints.flags | WM_HINT_WINDOW_GROUP;
        hints.window_group = group;
        WmHintsBuilder(hints)
    }

    /// Marks the window as urgent.
    pub fn is_urgent(self) -> (builder: WmHintsBuilder)
        ensures
            builder.hints() == self.hints().with_urgency(),
    {
        let mut hints = self.0;
        hints.flags = hints.flags | WM_HINT_X_URGENCY;
        WmHintsBuilder(hints)
    }

    /// Finishes the record.
    pub fn build(self) -> (hints: WmHints)
        ensures
            hints == self.hints(),
    {
        self.0
    }
}

/// A record that was just started carries no hint.
pub proof fn empty_wm_hints_carry_nothing()
    ensures
        WmHints::zeroed()@ == (WmHintsView {
            input: None,
            initial_state: None,
            icon_pixmap: None,
            icon_mask: None,
            icon_window: None,
            window_group: None,
            urgent: None,
        }),
{
    assert(0i32 & 0x001 == 0 && 0i32 & 0x002 == 0 && 0i32 & 0x004 == 0 && 0i32 & 0x008 == 0
        && 0i32 & 0x020 == 0 && 0i32 & 0x040 == 0 && 0i32 & 0x100 == 0) by (bit_vector);
}

/// Setting the input hint makes the record report it, and changes no other hint.
pub proof fn set_input_then_read(hints: WmHints, value: bool)
    ensures
        hints.with_input(value)@ == (WmHintsView { input: Some(value), ..hints@ }),
{
    let f = hints.flags;
    let g = f | 0x001i32;
    assert(g == hints.with_input(value).flags);
    assert(g & 0x001 != 0
        && g & 0x002 == f & 0x002
        && g & 0x004 == f & 0x004
        && g & 0x008 == f & 0x008
        && g & 0x020 == f & 0x020
        && g & 0x040 == f & 0x040
        && g & 0x100 == f & 0x100) by (bit_vector)
        requires
            g == f | 0x001i32,
    ;
}

/// Setting the iconic initial state makes the record report it, and changes no other hint.
pub proof fn set_iconic_then_read(hints: WmHints)
    ensures
        hints.with_iconic()@ == (WmHintsView { initial_state: Some(WM_STATE_ICONIC), ..hints@ }),
{
    let f = hints.flags;
    let g = f | 0x002i32;
    assert(g == hints.with_iconic().flags);
    assert(g & 0x001 == f & 0x001
        && g & 0x002 != 0
        && g & 0x004 == f & 0x004
        && g & 0x008 == f & 0x008
        && g & 0x020 == f & 0x020
        && g & 0x040 == f & 0x040
        && g & 0x100 == f & 0x100) by (bit_vector)
        requires
            g == f | 0x002i32,
    ;
}

/// Setting the normal initial state makes the record report it, and changes no other hint.
pub proof fn set_normal_then_read(hints: WmHints)
    ensures
        hints.with_normal()@ == (WmHintsView { initial_state: Some(WM_STATE_NORMAL), ..hints@ }),
{
    let f = hints.flags;
    let g = f | 0x002i32;
    assert(g == hints.with_normal().flags);
    assert(g & 0x001 == f & 0x001
        && g & 0x002 != 0
        && g & 0x004 == f & 0x004
        && g & 0x008 == f & 0x008
        && g & 0x020 == f & 0x020
        && g & 0x040 == f & 0x040
        && g & 0x100 == f & 0x100) by (bit_vector)
        requires
            g == f | 0x002i32,
    ;
}

/// Setting the withdrawn initial state makes the record report it, and changes no other hint.
pub proof fn set_withdrawn_then_read(hints: WmHints)
    ensures
        hints.with_withdrawn()@ == (WmHintsView { initial_state: Some(WM_STATE_WITHDRAWN), ..hints@ }),
{
    let f = hints.flags;
    let g = f | 0x002i32;
    assert(g == hints.with_withdrawn().flags);
    assert(g & 0x001 == f & 0x001
        && g & 0x002 != 0
        && g & 0x004 == f & 0x004
        && g & 0x008 == f & 0x008
        && g & 0x020 == f & 0x020
        && g & 0x040 == f & 0x040
        && g & 0x100 == f & 0x100) by (bit_vector)
        requires
            g == f | 0x002i32,
    ;
}

/// Withdrawing the initial state makes the record report none, and changes
/// no other hint.
pub proof fn set_none_then_read(hints: WmHints)
    ensures
        hints.with_none()@ == (WmHintsView { initial_state: None, ..hints@ }),
{
    let f = hints.flags;
    let g = f & !0x002i32;
    assert(g == hints.with_none().flags);
    assert(g & 0x001 == f & 0x001
        && g & 0x002 == 0
        && g & 0x004 == f & 0x004
        && g & 0x008 == f & 0x008
        && g & 0x020 == f & 0x020
        && g & 0x040 == f & 0x040
        && g & 0x100 == f & 0x100) by (bit_vector)
        requires
            g == f & !0x002i32,
    ;
}

/// Setting the icon pixmap makes the record report it, and changes no other hint.
pub proof fn set_icon_pixmap_then_read(hints: WmHints, icon: Pixmap)
    ensures
        hints.with_icon_pixmap(icon)@ == (WmHintsView { icon_pixmap: Some(icon), ..hints@ }),
{
    let f = hints.flags;
    let g = f | 0x004i32;
    assert(g == hints.with_icon_pixmap(icon).flags);
    assert(g & 0x001 == f & 0x001
        && g & 0x002 == f & 0x002
        && g & 0x004 != 0
        && g & 0x008 == f & 0x008
        && g & 0x020 == f & 0x020
        && g & 0x040 == f & 0x040
        && g & 0x100 == f & 0x100) by (bit_vector)
        requires
            g == f | 0x004i32,
    ;
}

/// Setting the icon mask makes the record report it, and changes no other hint.
pub proof fn set_icon_mask_then_read(hints: WmHints, icon: Pixmap)
    ensures
        hints.with_icon_mask(icon)@ == (WmHintsView { icon_mask: Some(icon), ..hints@ }),
{
    let f = hints.flags;
    let g = f | 0x020i32;
    assert(g == hints.with_icon_mask(icon).flags);
    assert(g & 0x001 == f & 0x001
        && g & 0x002 == f & 0x002
        && g & 0x004 == f & 0x004
        && g & 0x008 == f & 0x008
        && g & 0x020 != 0
        && g & 0x040 == f & 0x040
        && g & 0x100 == f & 0x100) by (bit_vector)
        requires
            g == f | 0x020i32,
    ;
}

/// Setting the icon window makes the record report it, and changes no other hint.
pub proof fn set_icon_window_then_read(hints: WmHints, icon: Window)
    ensures
        hints.with_icon_window(icon)@ == (WmHintsView { icon_window: Some(icon), ..hints@ }),
{
    let f = hints.flags;
    let g = f | 0x008i32;
    assert(g == hints.with_icon_window(icon).flags);
    assert(g & 0x001 == f & 0x001
        && g & 0x002 == f & 0x002
        && g & 0x004 == f & 0x004
        && g & 0x008 != 0
        && g & 0x020 == f & 0x020
        && g & 0x040 == f & 0x040
        && g & 0x100 == f & 0x100) by (bit_vector)
        requires
            g == f | 0x008i32,
    ;
}

/// Setting the window group makes the record report it, and changes no other hint.
pub proof fn set_window_group_then_read(hints: WmHints, group: Window)
    ensures
        hints.with_window_group(group)@ == (WmHintsView { window_group: Some(group), ..hints@ }),
{
    let f = hints.flags;
    let g = f | 0x040i32;
    assert(g == hints.with_window_group(group).flags);
    assert(g & 0x001 == f & 0x001
        && g & 0x002 == f & 0x002
        && g & 0x004 == f & 0x004
        && g & 0x008 == f & 0x008
        && g & 0x020 == f & 0x020
        && g & 0x040 != 0
        && g & 0x100 == f & 0x100) by (bit_vector)
        requires
            g == f | 0x040i32,
    ;
}

/// Setting the urgency mark makes the record report it, and changes no other hint.
pub proof fn set_urgency_then_read(hints: WmHints)
    ensures
        hints.with_urgency()@ == (WmHintsView { urgent: Some(true), ..hints@ }),
{
    let f = hints.flags;
    let g = f | 0x100i32;
    assert(g == hints.with_urgency().flags);
    assert(g & 0x001 == f & 0x001
        && g & 0x002 == f & 0x002
        && g & 0x004 == f & 0x004
        && g & 0x008 == f & 0x008
        && g & 0x020 == f & 0x020
        && g & 0x040 == f & 0x040
        && g & 0x100 != 0) by (bit_vector)
        requires
            g == f | 0x100i32,
    ;
}

/// A record is in exactly one of four cases: it asks for the iconic, the
/// normal or the withdrawn state, or for none of them.
pub proof fn initial_state_cases(hints: WmHints)
    ensures
        ({
            let state = hints@.initial_state;
            let iconic: int = if state == Some(WM_STATE_ICONIC) { 1 } else { 0 };
            let normal: int = if state == Some(WM_STATE_NORMAL) { 1 } else { 0 };
            let withdrawn: int = if state == Some(WM_STATE_WITHDRAWN) { 1 } else { 0 };
            let none: int = if !(state == Some(WM_STATE_ICONIC) || state == Some(WM_STATE_NORMAL)
                || state == Some(WM_STATE_WITHDRAWN)) { 1 } else { 0 };
            iconic + normal + withdrawn + none == 1
        }),
{
}

/// The reply to a text property request.
#[derive(Clone, Debug, PartialEq, Eq)]
pub struct GetTextPropertyReply {
    pub encoding: Atom,
    pub name: String,
    pub format: u8,
}

impl GetTextPropertyReply {
    /// The atom that names the text's encoding.
    pub fn encoding(&self) -> (encoding: Atom)
        ensures
            encoding == self.encoding,
    {
        self.encoding
    }

    /// The text.
    pub fn name(&self) -> (name: &str)
        ensures
            name@ == self.name@,
    {
        self.name.as_str()
    }

    /// The width of one item of the text, in bits.
    pub fn format(&self) -> (format: u8)
        ensures
            format == self.format,
    {
        self.format
    }
}

/// The reply to a request for the colormap windows of a window.
#[derive(Clone, Debug, PartialEq, Eq)]
pub struct GetWmColormapWindowsReply {
    pub windows: Vec<Window>,
}

impl GetWmColormapWindowsReply {
    /// The windows, in the order of the property. An empty property gives an
    /// empty slice.
    pub fn windows(&self) -> (windows: &[Window])
        ensures
            windows@ == self.windows@,
    {
        self.windows.as_slice()
    }
}

/// The reply to a request for the class of a window.
#[derive(Clone, Debug, PartialEq, Eq)]
pub struct GetWmClassReply {
    pub instance_name: String,
    pub class_name: String,
}

impl GetWmClassReply {
    /// The name of this instance of the application.
    pub fn instance(&self) -> (instance: &str)
        ensures
            instance@ == self.instance_name@,
    {
        self.instance_name.as_str()
    }

    /// The name of the application's class.
    pub fn class(&self) -> (class: &str)
        ensures
            class@ == self.class_name@,
    {
        self.class_name.as_str()
    }
}

/// The reply to a request for the protocols that a window takes part in.
#[derive(Clone, Debug, PartialEq, Eq)]
pub struct GetWmProtocolsReply {
    pub atoms: Vec<Atom>,
}

impl GetWmProtocolsReply {
    /// The atoms of the protocols, in the order of the property. An empty
    /// property gives an empty slice.
    pub fn atoms(&self) -> (atoms: &[Atom])
        ensures
            atoms@ == self.atoms@,
    {
        self.atoms.as_slice()
    }
}

/// A property as the server returned it: its type, and its value as 32-bit
/// items.
#[derive(Clone, Debug, PartialEq, Eq)]
pub struct GetPropertyReply {
    pub type_: Atom,
    pub value: Vec<u32>,
}

/// The cookie of a request for the state of a window.
#[derive(Clone, Copy, Debug, PartialEq, Eq, Structural)]
pub struct GetWmStateCookie(pub Cookie);

/// The state property of a window.
#[derive(Clone, Debug, PartialEq, Eq)]
pub struct GetWmStateReply(pub GetPropertyReply);

impl GetWmStateCookie {
    /// Concludes the request from what fetching the property gave.
    ///
    /// An error of the server is passed on. A property without a type does
    /// not exist on the window: that is reported as [`ReplyError::Missing`].
    /// Any other property is handed out unchanged.
    pub fn get_reply(self, fetched: Result<GetPropertyReply, ProtocolError>) -> (result: Result<
        GetWmStateReply,
        ReplyError,
    >)
        ensures
            result == match fetched {
                Err(error) => Err::<GetWmStateReply, ReplyError>(ReplyError::Protocol(error)),
                Ok(property) => if property.type_ == ATOM_NONE {
                    Err(ReplyError::Missing)
                } else {
                    Ok(GetWmStateReply(property))
                },
            },
    {
        match fetched {
            Err(error) => Err(ReplyError::Protocol(error)),
            Ok(property) => if property.type_ == ATOM_NONE {
                Err(ReplyError::Missing)
            } else {
                Ok(GetWmStateReply(property))
            },
        }
    }
}

impl GetWmStateReply {
    /// The state of the window: the first item of the property.
    pub fn state(&self) -> (state: WmState)
        requires
            self.0.value@.len() >= 1,
        ensures
            state == self.0.value@[0] as i32,
    {
        self.0.value[0] as i32
    }

    /// The icon window: the second item of the property.
    pub fn icon(&self) -> (icon: Window)
        requires
            self.0.value@.len() >= 2,
        ensures
            icon == self.0.value@[1],
    {
        self.0.value[1]
    }
}

} // verus!
