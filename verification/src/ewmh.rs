//! EWMH records, replies and the table of interned atoms.
//!
//! The records mirror what the window-manager properties hold. A reply owns a
//! copy of the decoded data, so its accessors are plain reads; list-valued
//! replies report exactly the items that were decoded, and none for an empty
//! property.

use crate::reply::ProtocolError;
use crate::util::utf8;
use crate::xproto::{Atom, Window};
use vstd::prelude::*;
use vstd::string::StringSliceAdditionalSpecFns;
use vstd::utf8::encode_utf8;

verus! {

pub type ClientSourceType = u32;

pub const CLIENT_SOURCE_TYPE_NONE: ClientSourceType = 0;

pub const CLIENT_SOURCE_TYPE_NORMAL: ClientSourceType = 1;

pub const CLIENT_SOURCE_TYPE_OTHER: ClientSourceType = 2;

pub type DesktopLayoutOrientation = u32;

pub const ORIENTATION_HORZ: DesktopLayoutOrientation = 0;

pub const ORIENTATION_VERT: DesktopLayoutOrientation = 1;

pub type DesktopLayoutStartingCorner = u32;

pub const TOP_LEFT: DesktopLayoutStartingCorner = 0;

pub const TOP_RIGHT: DesktopLayoutStartingCorner = 1;

pub const BOTTOM_RIGHT: DesktopLayoutStartingCorner = 2;

pub const BOTTOM_LEFT: DesktopLayoutStartingCorner = 3;

pub type MoveResizeWindowFlags = u32;

pub const MOVE_RESIZE_WINDOW_X: MoveResizeWindowFlags = 0x100;

pub const MOVE_RESIZE_WINDOW_Y: MoveResizeWindowFlags = 0x200;

pub const MOVE_RESIZE_WINDOW_WIDTH: MoveResizeWindowFlags = 0x400;

pub const MOVE_RESIZE_WINDOW_HEIGHT: MoveResizeWindowFlags = 0x800;

pub type MoveResizeDirection = u32;

pub const MOVE_RESIZE_SIZE_TOPLEFT: MoveResizeDirection = 0;

pub const MOVE_RESIZE_SIZE_TOP: MoveResizeDirection = 1;

pub const MOVE_RESIZE_SIZE_TOPRIGHT: MoveResizeDirection = 2;

pub const MOVE_RESIZE_SIZE_RIGHT: MoveResizeDirection = 3;

pub const MOVE_RESIZE_SIZE_BOTTOMRIGHT: MoveResizeDirection = 4;

pub const MOVE_RESIZE_SIZE_BOTTOM: MoveResizeDirection = 5;

pub const MOVE_RESIZE_SIZE_BOTTOMLEFT: MoveResizeDirection = 6;

pub const MOVE_RESIZE_SIZE_LEFT: MoveResizeDirection = 7;

pub const MOVE_RESIZE_MOVE: MoveResizeDirection = 8;

pub const MOVE_RESIZE_SIZE_KEYBOARD: MoveResizeDirection = 9;

pub const MOVE_RESIZE_MOVE_KEYBOARD: MoveResizeDirection = 10;

pub const MOVE_RESIZE_CANCEL: MoveResizeDirection = 11;

pub type StateAction = u32;

pub const STATE_REMOVE: StateAction = 0;

pub const STATE_ADD: StateAction = 1;

pub const STATE_TOGGLE: StateAction = 2;

/// The origin of one desktop's viewport.
#[derive(Clone, Copy, Debug, PartialEq, Eq, Structural)]
pub struct Coordinates {
    pub x: u32,
    pub y: u32,
}

impl Coordinates {
    /// The horizontal coordinate.
    pub fn x(&self) -> (x: u32)
        ensures
            x == self.x,
    {
        self.x
    }

    /// The vertical coordinate.
    pub fn y(&self) -> (y: u32)
        ensures
            y == self.y,
    {
        self.y
    }
}

/// A rectangle on the screen.
#[derive(Clone, Copy, Debug, PartialEq, Eq, Structural)]
pub struct Geometry {
    pub x: u32,
    pub y: u32,
    pub width: u32,
    pub height: u32,
}

impl Geometry {
    /// The horizontal coordinate of the corner.
    pub fn x(&self) -> (x: u32)
        ensures
            x == self.x,
    {
        self.x
    }

    /// The vertical coordinate of the corner.
    pub fn y(&self) -> (y: u32)
        ensures
            y == self.y,
    {
        self.y
    }

    /// The width.
    pub fn width(&self) -> (width: u32)
        ensures
            width == self.width,
    {
        self.width
    }

    /// The height.
    pub fn height(&self) -> (height: u32)
        ensures
            height == self.height,
    {
        self.height
    }
}

/// Space that a window reserves at the edges of the screen, with the span of each reserved strip.
#[derive(Clone, Copy, Debug, PartialEq, Eq, Structural)]
pub struct StrutPartial {
    pub left: u32,
    pub right: u32,
    pub top: u32,
    pub bottom: u32,
    pub left_start_y: u32,
    pub left_end_y: u32,
    pub right_start_y: u32,
    pub right_end_y: u32,
    pub top_start_x: u32,
    pub top_end_x: u32,
    pub bottom_start_x: u32,
    pub bottom_end_x: u32,
}

impl StrutPartial {
    /// The width reserved at the left edge.
    pub fn left(&self) -> (left: u32)
        ensures
            left == self.left,
    {
        self.left
    }

    /// The width reserved at the right edge.
    pub fn right(&self) -> (right: u32)
        ensures
            right == self.right,
    {
        self.right
    }

    /// The height reserved at the top edge.
    pub fn top(&self) -> (top: u32)
        ensures
            top == self.top,
    {
        self.top
    }

    /// The height reserved at the bottom edge.
    pub fn bottom(&self) -> (bottom: u32)
        ensures
            bottom == self.bottom,
    {
        self.bottom
    }

    /// Where the left strip starts.
    pub fn left_start_y(&self) -> (left_start_y: u32)
        ensures
            left_start_y == self.left_start_y,
    {
        self.left_start_y
    }

    /// Where the left strip ends.
    pub fn left_end_y(&self) -> (left_end_y: u32)
        ensures
            left_end_y == self.left_end_y,
    {
        self.left_end_y
    }

    /// Where the right strip starts.
    pub fn right_start_y(&self) -> (right_start_y: u32)
        ensures
            right_start_y == self.right_start_y,
    {
        self.right_start_y
    }

    /// Where the right strip ends.
    pub fn right_end_y(&self) -> (right_end_y: u32)
        ensures
            right_end_y == self.right_end_y,
    {
        self.right_end_y
    }

    /// Where the top strip starts.
    pub fn top_start_x(&self) -> (top_start_x: u32)
        ensures
            top_start_x == self.top_start_x,
    {
        self.top_start_x
    }

    /// Where the top strip ends.
    pub fn top_end_x(&self) -> (top_end_x: u32)
        ensures
            top_end_x == self.top_end_x,
    {
        self.top_end_x
    }

    /// Where the bottom strip starts.
    pub fn bottom_start_x(&self) -> (bottom_start_x: u32)
        ensures
            bottom_start_x == self.bottom_start_x,
    {
        self.bottom_start_x
    }

    /// Where the bottom strip ends.
    pub fn bottom_end_x(&self) -> (bottom_end_x: u32)
        ensures
            bottom_end_x == self.bottom_end_x,
    {
        self.bottom_end_x
    }
}

/// The widths of the four borders that a window manager adds to a window.
#[derive(Clone, Copy, Debug, PartialEq, Eq, Structural)]
pub struct Extents {
    pub top: u32,
    pub bottom: u32,
    pub left: u32,
    pub right: u32,
}

impl Extents {
    /// The top border.
    pub fn top(&self) -> (top: u32)
        ensures
            top == self.top,
    {
        self.top
    }

    /// The bottom border.
    pub fn bottom(&self) -> (bottom: u32)
        ensures
            bottom == self.bottom,
    {
        self.bottom
    }

    /// The left border.
    pub fn left(&self) -> (left: u32)
        ensures
            left == self.left,
    {
        self.left
    }

    /// The right border.
    pub fn right(&self) -> (right: u32)
        ensures
            right == self.right,
    {
        self.right
    }
}

/// One icon of a window: its size and the first word of its pixels.
#[derive(Clone, Copy, Debug, PartialEq, Eq, Structural)]
pub struct WmIcon {
    pub width: u32,
    pub height: u32,
    pub id: u32,
}

impl WmIcon {
    /// The width in pixels.
    pub fn width(&self) -> (width: u32)
        ensures
            width == self.width,
    {
        self.width
    }

    /// The height in pixels.
    pub fn height(&self) -> (height: u32)
        ensures
            height == self.height,
    {
        self.height
    }

    /// The first word of the pixel data.
    pub fn id(&self) -> (id: u32)
        ensures
            id == self.id,
    {
        self.id
    }
}

/// The monitors whose edges bound a window in full-screen mode.
#[derive(Clone, Copy, Debug, PartialEq, Eq, Structural)]
pub struct WmFullScreenMonitors {
    pub top: u32,
    pub bottom: u32,
    pub left: u32,
    pub right: u32,
}

impl WmFullScreenMonitors {
    /// The monitor of the top edge.
    pub fn top(&self) -> (top: u32)
        ensures
            top == self.top,
    {
        self.top
    }

    /// The monitor of the bottom edge.
    pub fn bottom(&self) -> (bottom: u32)
        ensures
            bottom == self.bottom,
    {
        self.bottom
    }

    /// The monitor of the left edge.
    pub fn left(&self) -> (left: u32)
        ensures
            left == self.left,
    {
        self.left
    }

    /// The monitor of the right edge.
    pub fn right(&self) -> (right: u32)
        ensures
            right == self.right,
    {
        self.right
    }
}

/// How the desktops are laid out in the pager.
#[derive(Clone, Copy, Debug, PartialEq, Eq, Structural)]
pub struct GetDesktopLayoutReply {
    pub orientation: u32,
    pub columns: u32,
    pub rows: u32,
    pub starting_corner: u32,
}

impl GetDesktopLayoutReply {
    /// The orientation, one of the `ORIENTATION_` constants.
    pub fn orientation(&self) -> (orientation: u32)
        ensures
            orientation == self.orientation,
    {
        self.orientation
    }

    /// The number of columns.
    pub fn columns(&self) -> (columns: u32)
        ensures
            columns == self.columns,
    {
        self.columns
    }

    /// The number of rows.
    pub fn rows(&self) -> (rows: u32)
        ensures
            rows == self.rows,
    {
        self.rows
    }

    /// The corner that holds the first desktop.
    pub fn starting_corner(&self) -> (starting_corner: u32)
        ensures
            starting_corner == self.starting_corner,
    {
        self.starting_corner
    }
}

/// The reply to a request for the hints that the window manager supports.
#[derive(Clone, Debug, PartialEq, Eq)]
pub struct GetSupportedReply {
    pub atoms: Vec<Atom>,
}

impl GetSupportedReply {
    /// The atoms of the supported hints, in the order of the property.
    pub fn atoms(&self) -> (atoms: &[Atom])
        ensures
            atoms@ == self.atoms@,
    {
        self.atoms.as_slice()
    }
}

/// The reply to a request for the managed windows.
#[derive(Clone, Debug, PartialEq, Eq)]
pub struct GetClientListReply {
    pub windows: Vec<Window>,
}

impl GetClientListReply {
    /// The windows, oldest first.
    pub fn windows(&self) -> (windows: &[Window])
        ensures
            windows@ == self.windows@,
    {
        self.windows.as_slice()
    }
}

/// The reply to a request for the managed windows in stacking order.
#[derive(Clone, Debug, PartialEq, Eq)]
pub struct GetClientListStackingReply {
    pub windows: Vec<Window>,
}

impl GetClientListStackingReply {
    /// The windows, bottom first.
    pub fn windows(&self) -> (windows: &[Window])
        ensures
            windows@ == self.windows@,
    {
        self.windows.as_slice()
    }
}

/// The reply to a request for the viewports of the desktops.
#[derive(Clone, Debug, PartialEq, Eq)]
pub struct GetDesktopViewportReply {
    pub desktop_viewports: Vec<Coordinates>,
}

impl GetDesktopViewportReply {
    /// The origin of each desktop's viewport, in the order of the desktops.
    pub fn desktop_viewports(&self) -> (desktop_viewports: &[Coordinates])
        ensures
            desktop_viewports@ == self.desktop_viewports@,
    {
        self.desktop_viewports.as_slice()
    }
}

/// The reply to a request for the work areas of the desktops.
#[derive(Clone, Debug, PartialEq, Eq)]
pub struct GetWorkAreaReply {
    pub work_area: Vec<Geometry>,
}

impl GetWorkAreaReply {
    /// The work area of each desktop, in the order of the desktops.
    pub fn work_area(&self) -> (work_area: &[Geometry])
        ensures
            work_area@ == self.work_area@,
    {
        self.work_area.as_slice()
    }
}

/// The reply to a request for the types of a window.
#[derive(Clone, Debug, PartialEq, Eq)]
pub struct GetWmWindowTypeReply {
    pub atoms: Vec<Atom>,
}

impl GetWmWindowTypeReply {
    /// The atoms of the window types, preferred first.
    pub fn atoms(&self) -> (atoms: &[Atom])
        ensures
            atoms@ == self.atoms@,
    {
        self.atoms.as_slice()
    }
}

/// The reply to a request for the states of a window.
#[derive(Clone, Debug, PartialEq, Eq)]
pub struct GetWmStateReply {
    pub atoms: Vec<Atom>,
}

impl GetWmStateReply {
    /// The atoms of the states that are set.
    pub fn atoms(&self) -> (atoms: &[Atom])
        ensures
            atoms@ == self.atoms@,
    {
        self.atoms.as_slice()
    }
}

/// The reply to a request for the actions that a window allows.
#[derive(Clone, Debug, PartialEq, Eq)]
pub struct GetWmAllowedActionsReply {
    pub atoms: Vec<Atom>,
}

impl GetWmAllowedActionsReply {
    /// The atoms of the allowed actions.
    pub fn atoms(&self) -> (atoms: &[Atom])
        ensures
            atoms@ == self.atoms@,
    {
        self.atoms.as_slice()
    }
}

/// The reply to a request for the names of the desktops.
#[derive(Clone, Debug, PartialEq, Eq)]
pub struct GetDesktopNamesReply {
    /// The property's text: the names, each ended by a NUL byte.
    pub strings: String,
}

impl GetDesktopNamesReply {
    /// The names, in the order of the desktops.
    pub fn strings(&self) -> (strings: Vec<&str>)
        ensures
            utf8::bytes_of(strings@) == utf8::decoded(encode_utf8(self.strings@)),
            encode_utf8(self.strings@).len() == 0 ==> strings@.len() == 0,
    {
        utf8::into(self.strings.as_str())
    }
}

/// The reply to a request for the name of a window.
#[derive(Clone, Debug, PartialEq, Eq)]
pub struct GetWmNameReply {
    /// The property's text.
    pub strings: String,
}

impl GetWmNameReply {
    /// The name: the text up to the first NUL byte, or all of it where there
    /// is none. An empty property gives an empty name.
    pub fn string(&self) -> (string: &str)
        ensures
            string.spec_bytes() == utf8::first_item(encode_utf8(self.strings@)),
    {
        let items = utf8::into(self.strings.as_str());
        if items.len() > 0 {
            proof {
                assert(utf8::bytes_of(items@)[0] == items@[0].spec_bytes());
            }
            items[0]
        } else {
            proof {
                assert(utf8::bytes_of(items@).len() == 0);
                reveal_strlit("");
                assert("".spec_bytes() =~= Seq::<u8>::empty());
            }
            ""
        }
    }
}

/// An iterator over the icons of a window: the icons that are still to come.
#[derive(Clone, Debug, PartialEq, Eq)]
pub struct WmIconIterator {
    icons: Vec<WmIcon>,
    index: usize,
}

impl View for WmIconIterator {
    type V = Seq<WmIcon>;

    closed spec fn view(&self) -> Seq<WmIcon> {
        if self.index <= self.icons@.len() {
            self.icons@.skip(self.index as int)
        } else {
            Seq::empty()
        }
    }
}

impl WmIconIterator {
    /// Hands out the next icon, or `None` once all have been handed out.
    pub fn next(&mut self) -> (icon: Option<WmIcon>)
        ensures
            old(self)@.len() == 0 ==> icon is None && final(self)@ == old(self)@,
            old(self)@.len() > 0 ==> icon == Some(old(self)@[0]) && final(self)@ == old(self)@.skip(
                1,
            ),
    {
        if self.index < self.icons.len() {
            let icon = self.icons[self.index];
            proof {
                assert(self.icons@.skip(self.index as int).skip(1) =~= self.icons@.skip(
                    self.index + 1,
                ));
            }
            self.index = self.index + 1;
            Some(icon)
        } else {
            None
        }
    }
}

/// The reply to a request for the icons of a window.
#[derive(Clone, Debug, PartialEq, Eq)]
pub struct GetWmIconReply {
    pub icons: Vec<WmIcon>,
}

impl GetWmIconReply {
    /// The number of icons.
    pub fn len(&self) -> (len: usize)
        ensures
            len == self.icons@.len(),
    {
        self.icons.len()
    }

    /// An iterator over all the icons, first to last.
    pub fn icons(&self) -> (icons: WmIconIterator)
        ensures
            icons@ == self.icons@,
    {
        let icons = self.icons.clone();
        proof {
            assert(icons@ =~= self.icons@);
            assert(icons@.skip(0) =~= icons@);
        }
        WmIconIterator { icons, index: 0 }
    }
}

/// The atoms that a connection interned when it was set up.
#[derive(Clone, Debug, PartialEq, Eq)]
pub struct Atoms {
    /// The compositing-manager selection of each screen.
    pub wm_cm: Vec<Atom>,
    pub supported: Atom,
    pub client_list: Atom,
    pub client_list_stacking: Atom,
    pub number_of_desktops: Atom,
    pub desktop_geometry: Atom,
    pub desktop_viewport: Atom,
    pub current_desktop: Atom,
    pub desktop_names: Atom,
    pub active_window: Atom,
    pub workarea: Atom,
    pub supporting_wm_check: Atom,
    pub virtual_roots: Atom,
    pub desktop_layout: Atom,
    pub showing_desktop: Atom,
    pub close_window: Atom,
    pub moveresize_window: Atom,
    pub wm_moveresize: Atom,
    pub restack_window: Atom,
    pub request_frame_extents: Atom,
    pub wm_name: Atom,
    pub wm_visible_name: Atom,
    pub wm_icon_name: Atom,
    pub wm_visible_icon_name: Atom,
    pub wm_desktop: Atom,
    pub wm_window_type: Atom,
    pub wm_state: Atom,
    pub wm_allowed_actions: Atom,
    pub wm_strut: Atom,
    pub wm_strut_partial: Atom,
    pub wm_icon_geometry: Atom,
    pub wm_icon: Atom,
    pub wm_pid: Atom,
    pub wm_handled_icons: Atom,
    pub wm_user_time: Atom,
    pub wm_user_time_window: Atom,
    pub frame_extents: Atom,
    pub wm_ping: Atom,
    pub wm_sync_request: Atom,
    pub wm_sync_request_counter: Atom,
    pub wm_fullscreen_monitors: Atom,
    pub wm_full_placement: Atom,
    pub wm_protocols: Atom,
    pub manager: Atom,
    pub wm_window_type_desktop: Atom,
    pub wm_window_type_dock: Atom,
    pub wm_window_type_toolbar: Atom,
    pub wm_window_type_menu: Atom,
    pub wm_window_type_utility: Atom,
    pub wm_window_type_splash: Atom,
    pub wm_window_type_dialog: Atom,
    pub wm_window_type_dropdown_menu: Atom,
    pub wm_window_type_popup_menu: Atom,
    pub wm_window_type_tooltip: Atom,
    pub wm_window_type_notification: Atom,
    pub wm_window_type_combo: Atom,
    pub wm_window_type_dnd: Atom,
    pub wm_window_type_normal: Atom,
    pub wm_state_modal: Atom,
    pub wm_state_sticky: Atom,
    pub wm_state_maximized_vert: Atom,
    pub wm_state_maximized_horz: Atom,
    pub wm_state_shaded: Atom,
    pub wm_state_skip_taskbar: Atom,
    pub wm_state_skip_pager: Atom,
    pub wm_state_hidden: Atom,
    pub wm_state_fullscreen: Atom,
    pub wm_state_above: Atom,
    pub wm_state_below: Atom,
    pub wm_state_demands_attention: Atom,
    pub wm_action_move: Atom,
    pub wm_action_resize: Atom,
    pub wm_action_minimize: Atom,
    pub wm_action_shade: Atom,
    pub wm_action_stick: Atom,
    pub wm_action_maximize_horz: Atom,
    pub wm_action_maximize_vert: Atom,
    pub wm_action_fullscreen: Atom,
    pub wm_action_change_desktop: Atom,
    pub wm_action_close: Atom,
    pub wm_action_above: Atom,
    pub wm_action_below: Atom,
}

/// A connection whose EWMH atoms are interned.
#[derive(Clone, Debug, PartialEq, Eq)]
pub struct Connection {
    atoms: Atoms,
}

impl Connection {
    /// The atoms that the connection holds.
    pub closed spec fn atoms(&self) -> Atoms {
        self.atoms
    }

    /// Concludes the set-up from what interning the atoms gave: the
    /// connection with its atoms, or the error that the server reported.
    pub fn connect(atoms: Atoms, error: Option<ProtocolError>) -> (result: Result<
        Connection,
        ProtocolError,
    >)
        ensures
            match error {
                Some(e) => result == Err::<Connection, ProtocolError>(e),
                None => result is Ok && result->Ok_0.atoms() == atoms,
            },
    {
        match error {
            Some(e) => Err(e),
            None => Ok(Connection { atoms }),
        }
    }

    /// The compositing-manager selection of each screen, in the order of the
    /// screens.
    pub fn WM_CM(&self) -> (atoms: &[Atom])
        ensures
            atoms@ == self.atoms().wm_cm@,
    {
        self.atoms.wm_cm.as_slice()
    }

    /// The atom `_NET_SUPPORTED`.
    pub fn SUPPORTED(&self) -> (atom: Atom)
        ensures
            atom == self.atoms().supported,
    {
        self.atoms.supported
    }

    /// The atom `_NET_CLIENT_LIST`.
    pub fn CLIENT_LIST(&self) -> (atom: Atom)
        ensures
            atom == self.atoms().client_list,
    {
        self.atoms.client_list
    }

    /// The atom `_NET_CLIENT_LIST_STACKING`.
    pub fn CLIENT_LIST_STACKING(&self) -> (atom: Atom)
        ensures
            atom == self.atoms().client_list_stacking,
    {
        self.atoms.client_list_stacking
    }

    /// The atom `_NET_NUMBER_OF_DESKTOPS`.
    pub fn NUMBER_OF_DESKTOPS(&self) -> (atom: Atom)
        ensures
            atom == self.atoms().number_of_desktops,
    {
        self.atoms.number_of_desktops
    }

    /// The atom `_NET_DESKTOP_GEOMETRY`.
    pub fn DESKTOP_GEOMETRY(&self) -> (atom: Atom)
        ensures
            atom == self.atoms().desktop_geometry,
    {
        self.atoms.desktop_geometry
    }

    /// The atom `_NET_DESKTOP_VIEWPORT`.
    pub fn DESKTOP_VIEWPORT(&self) -> (atom: Atom)
        ensures
            atom == self.atoms().desktop_viewport,
    {
        self.atoms.desktop_viewport
    }

    /// The atom `_NET_CURRENT_DESKTOP`.
    pub fn CURRENT_DESKTOP(&self) -> (atom: Atom)
        ensures
            atom == self.atoms().current_desktop,
    {
        self.atoms.current_desktop
    }

    /// The atom `_NET_DESKTOP_NAMES`.
    pub fn DESKTOP_NAMES(&self) -> (atom: Atom)
        ensures
            atom == self.atoms().desktop_names,
    {
        self.atoms.desktop_names
    }

    /// The atom `_NET_ACTIVE_WINDOW`.
    pub fn ACTIVE_WINDOW(&self) -> (atom: Atom)
        ensures
            atom == self.atoms().active_window,
    {
        self.atoms.active_window
    }

    /// The atom `_NET_WORKAREA`.
    pub fn WORKAREA(&self) -> (atom: Atom)
        ensures
            atom == self.atoms().workarea,
    {
        self.atoms.workarea
    }

    /// The atom `_NET_SUPPORTING_WM_CHECK`.
    pub fn SUPPORTING_WM_CHECK(&self) -> (atom: Atom)
        ensures
            atom == self.atoms().supporting_wm_check,
    {
        self.atoms.supporting_wm_check
    }

    /// The atom `_NET_VIRTUAL_ROOTS`.
    pub fn VIRTUAL_ROOTS(&self) -> (atom: Atom)
        ensures
            atom == self.atoms().virtual_roots,
    {
        self.atoms.virtual_roots
    }

    /// The atom `_NET_DESKTOP_LAYOUT`.
    pub fn DESKTOP_LAYOUT(&self) -> (atom: Atom)
        ensures
            atom == self.atoms().desktop_layout,
    {
        self.atoms.desktop_layout
    }

    /// The atom `_NET_SHOWING_DESKTOP`.
    pub fn SHOWING_DESKTOP(&self) -> (atom: Atom)
        ensures
            atom == self.atoms().showing_desktop,
    {
        self.atoms.showing_desktop
    }

    /// The atom `_NET_CLOSE_WINDOW`.
    pub fn CLOSE_WINDOW(&self) -> (atom: Atom)
        ensures
            atom == self.atoms().close_window,
    {
        self.atoms.close_window
    }

    /// The atom `_NET_MOVERESIZE_WINDOW`.
    pub fn MOVERESIZE_WINDOW(&self) -> (atom: Atom)
        ensures
            atom == self.atoms().moveresize_window,
    {
        self.atoms.moveresize_window
    }

    /// The atom `_NET_WM_MOVERESIZE`.
    pub fn WM_MOVERESIZE(&self) -> (atom: Atom)
        ensures
            atom == self.atoms().wm_moveresize,
    {
        self.atoms.wm_moveresize
    }

    /// The atom `_NET_RESTACK_WINDOW`.
    pub fn RESTACK_WINDOW(&self) -> (atom: Atom)
        ensures
            atom == self.atoms().restack_window,
    {
        self.atoms.restack_window
    }

    /// The atom `_NET_REQUEST_FRAME_EXTENTS`.
    pub fn REQUEST_FRAME_EXTENTS(&self) -> (atom: Atom)
        ensures
            atom == self.atoms().request_frame_extents,
    {
        self.atoms.request_frame_extents
    }

    /// The atom `_NET_WM_NAME`.
    pub fn WM_NAME(&self) -> (atom: Atom)
        ensures
            atom == self.atoms().wm_name,
    {
        self.atoms.wm_name
    }

    /// The atom `_NET_WM_VISIBLE_NAME`.
    pub fn WM_VISIBLE_NAME(&self) -> (atom: Atom)
        ensures
            atom == self.atoms().wm_visible_name,
    {
        self.atoms.wm_visible_name
    }

    /// The atom `_NET_WM_ICON_NAME`.
    pub fn WM_ICON_NAME(&self) -> (atom: Atom)
        ensures
            atom == self.atoms().wm_icon_name,
    {
        self.atoms.wm_icon_name
    }

    /// The atom `_NET_WM_VISIBLE_ICON_NAME`.
    pub fn WM_VISIBLE_ICON_NAME(&self) -> (atom: Atom)
        ensures
            atom == self.atoms().wm_visible_icon_name,
    {
        self.atoms.wm_visible_icon_name
    }

    /// The atom `_NET_WM_DESKTOP`.
    pub fn WM_DESKTOP(&self) -> (atom: Atom)
        ensures
            atom == self.atoms().wm_desktop,
    {
        self.atoms.wm_desktop
    }

    /// The atom `_NET_WM_WINDOW_TYPE`.
    pub fn WM_WINDOW_TYPE(&self) -> (atom: Atom)
        ensures
            atom == self.atoms().wm_window_type,
    {
        self.atoms.wm_window_type
    }

    /// The atom `_NET_WM_STATE`.
    pub fn WM_STATE(&self) -> (atom: Atom)
        ensures
            atom == self.atoms().wm_state,
    {
        self.atoms.wm_state
    }

    /// The atom `_NET_WM_ALLOWED_ACTIONS`.
    pub fn WM_ALLOWED_ACTIONS(&self) -> (atom: Atom)
        ensures
            atom == self.atoms().wm_allowed_actions,
    {
        self.atoms.wm_allowed_actions
    }

    /// The atom `_NET_WM_STRUT`.
    pub fn WM_STRUT(&self) -> (atom: Atom)
        ensures
            atom == self.atoms().wm_strut,
    {
        self.atoms.wm_strut
    }

    /// The atom `_NET_WM_STRUT_PARTIAL`.
    pub fn WM_STRUT_PARTIAL(&self) -> (atom: Atom)
        ensures
            atom == self.atoms().wm_strut_partial,
    {
        self.atoms.wm_strut_partial
    }

    /// The atom `_NET_WM_ICON_GEOMETRY`.
    pub fn WM_ICON_GEOMETRY(&self) -> (atom: Atom)
        ensures
            atom == self.atoms().wm_icon_geometry,
    {
        self.atoms.wm_icon_geometry
    }

    /// The atom `_NET_WM_ICON`.
    pub fn WM_ICON(&self) -> (atom: Atom)
        ensures
            atom == self.atoms().wm_icon,
    {
        self.atoms.wm_icon
    }

    /// The atom `_NET_WM_PID`.
    pub fn WM_PID(&self) -> (atom: Atom)
        ensures
            atom == self.atoms().wm_pid,
    {
        self.atoms.wm_pid
    }

    /// The atom `_NET_WM_HANDLED_ICONS`.
    pub fn WM_HANDLED_ICONS(&self) -> (atom: Atom)
        ensures
            atom == self.atoms().wm_handled_icons,
    {
        self.atoms.wm_handled_icons
    }

    /// The atom `_NET_WM_USER_TIME`.
    pub fn WM_USER_TIME(&self) -> (atom: Atom)
        ensures
            atom == self.atoms().wm_user_time,
    {
        self.atoms.wm_user_time
    }

    /// The atom `_NET_WM_USER_TIME_WINDOW`.
    pub fn WM_USER_TIME_WINDOW(&self) -> (atom: Atom)
        ensures
            atom == self.atoms().wm_user_time_window,
    {
        self.atoms.wm_user_time_window
    }

    /// The atom `_NET_FRAME_EXTENTS`.
    pub fn FRAME_EXTENTS(&self) -> (atom: Atom)
        ensures
            atom == self.atoms().frame_extents,
    {
        self.atoms.frame_extents
    }

    /// The atom `_NET_WM_PING`.
    pub fn WM_PING(&self) -> (atom: Atom)
        ensures
            atom == self.atoms().wm_ping,
    {
        self.atoms.wm_ping
    }

    /// The atom `_NET_WM_SYNC_REQUEST`.
    pub fn WM_SYNC_REQUEST(&self) -> (atom: Atom)
        ensures
            atom == self.atoms().wm_sync_request,
    {
        self.atoms.wm_sync_request
    }

    /// The atom `_NET_WM_SYNC_REQUEST_COUNTER`.
    pub fn WM_SYNC_REQUEST_COUNTER(&self) -> (atom: Atom)
        ensures
            atom == self.atoms().wm_sync_request_counter,
    {
        self.atoms.wm_sync_request_counter
    }

    /// The atom `_NET_WM_FULLSCREEN_MONITORS`.
    pub fn WM_FULLSCREEN_MONITORS(&self) -> (atom: Atom)
        ensures
            atom == self.atoms().wm_fullscreen_monitors,
    {
        self.atoms.wm_fullscreen_monitors
    }

    /// The atom `_NET_WM_FULL_PLACEMENT`.
    pub fn WM_FULL_PLACEMENT(&self) -> (atom: Atom)
        ensures
            atom == self.atoms().wm_full_placement,
    {
        self.atoms.wm_full_placement
    }

    /// The atom `WM_PROTOCOLS`.
    pub fn WM_PROTOCOLS(&self) -> (atom: Atom)
        ensures
            atom == self.atoms().wm_protocols,
    {
        self.atoms.wm_protocols
    }

    /// The atom `MANAGER`.
    pub fn MANAGER(&self) -> (atom: Atom)
        ensures
            atom == self.atoms().manager,
    {
        self.atoms.manager
    }

    /// The atom `_NET_WM_WINDOW_TYPE_DESKTOP`.
    pub fn WM_WINDOW_TYPE_DESKTOP(&self) -> (atom: Atom)
        ensures
            atom == self.atoms().wm_window_type_desktop,
    {
        self.atoms.wm_window_type_desktop
    }

    /// The atom `_NET_WM_WINDOW_TYPE_DOCK`.
    pub fn WM_WINDOW_TYPE_DOCK(&self) -> (atom: Atom)
        ensures
            atom == self.atoms().wm_window_type_dock,
    {
        self.atoms.wm_window_type_dock
    }

    /// The atom `_NET_WM_WINDOW_TYPE_TOOLBAR`.
    pub fn WM_WINDOW_TYPE_TOOLBAR(&self) -> (atom: Atom)
        ensures
            atom == self.atoms().wm_window_type_toolbar,
    {
        self.atoms.wm_window_type_toolbar
    }

    /// The atom `_NET_WM_WINDOW_TYPE_MENU`.
    pub fn WM_WINDOW_TYPE_MENU(&self) -> (atom: Atom)
        ensures
            atom == self.atoms().wm_window_type_menu,
    {
        self.atoms.wm_window_type_menu
    }

    /// The atom `_NET_WM_WINDOW_TYPE_UTILITY`.
    pub fn WM_WINDOW_TYPE_UTILITY(&self) -> (atom: Atom)
        ensures
            atom == self.atoms().wm_window_type_utility,
    {
        self.atoms.wm_window_type_utility
    }

    /// The atom `_NET_WM_WINDOW_TYPE_SPLASH`.
    pub fn WM_WINDOW_TYPE_SPLASH(&self) -> (atom: Atom)
        ensures
            atom == self.atoms().wm_window_type_splash,
    {
        self.atoms.wm_window_type_splash
    }

    /// The atom `_NET_WM_WINDOW_TYPE_DIALOG`.
    pub fn WM_WINDOW_TYPE_DIALOG(&self) -> (atom: Atom)
        ensures
            atom == self.atoms().wm_window_type_dialog,
    {
        self.atoms.wm_window_type_dialog
    }

    /// The atom `_NET_WM_WINDOW_TYPE_DROPDOWN_MENU`.
    pub fn WM_WINDOW_TYPE_DROPDOWN_MENU(&self) -> (atom: Atom)
        ensures
            atom == self.atoms().wm_window_type_dropdown_menu,
    {
        self.atoms.wm_window_type_dropdown_menu
    }

    /// The atom `_NET_WM_WINDOW_TYPE_POPUP_MENU`.
    pub fn WM_WINDOW_TYPE_POPUP_MENU(&self) -> (atom: Atom)
        ensures
            atom == self.atoms().wm_window_type_popup_menu,
    {
        self.atoms.wm_window_type_popup_menu
    }

    /// The atom `_NET_WM_WINDOW_TYPE_TOOLTIP`.
    pub fn WM_WINDOW_TYPE_TOOLTIP(&self) -> (atom: Atom)
        ensures
            atom == self.atoms().wm_window_type_tooltip,
    {
        self.atoms.wm_window_type_tooltip
    }

    /// The atom `_NET_WM_WINDOW_TYPE_NOTIFICATION`.
    pub fn WM_WINDOW_TYPE_NOTIFICATION(&self) -> (atom: Atom)
        ensures
            atom == self.atoms().wm_window_type_notification,
    {
        self.atoms.wm_window_type_notification
    }

    /// The atom `_NET_WM_WINDOW_TYPE_COMBO`.
    pub fn WM_WINDOW_TYPE_COMBO(&self) -> (atom: Atom)
        ensures
            atom == self.atoms().wm_window_type_combo,
    {
        self.atoms.wm_window_type_combo
    }

    /// The atom `_NET_WM_WINDOW_TYPE_DND`.
    pub fn WM_WINDOW_TYPE_DND(&self) -> (atom: Atom)
        ensures
            atom == self.atoms().wm_window_type_dnd,
    {
        self.atoms.wm_window_type_dnd
    }

    /// The atom `_NET_WM_WINDOW_TYPE_NORMAL`.
    pub fn WM_WINDOW_TYPE_NORMAL(&self) -> (atom: Atom)
        ensures
            atom == self.atoms().wm_window_type_normal,
    {
        self.atoms.wm_window_type_normal
    }

    /// The atom `_NET_WM_STATE_MODAL`.
    pub fn WM_STATE_MODAL(&self) -> (atom: Atom)
        ensures
            atom == self.atoms().wm_state_modal,
    {
        self.atoms.wm_state_modal
    }

    /// The atom `_NET_WM_STATE_STICKY`.
    pub fn WM_STATE_STICKY(&self) -> (atom: Atom)
        ensures
            atom == self.atoms().wm_state_sticky,
    {
        self.atoms.wm_state_sticky
    }

    /// The atom `_NET_WM_STATE_MAXIMIZED_VERT`.
    pub fn WM_STATE_MAXIMIZED_VERT(&self) -> (atom: Atom)
        ensures
            atom == self.atoms().wm_state_maximized_vert,
    {
        self.atoms.wm_state_maximized_vert
    }

    /// The atom `_NET_WM_STATE_MAXIMIZED_HORZ`.
    pub fn WM_STATE_MAXIMIZED_HORZ(&self) -> (atom: Atom)
        ensures
            atom == self.atoms().wm_state_maximized_horz,
    {
        self.atoms.wm_state_maximized_horz
    }

    /// The atom `_NET_WM_STATE_SHADED`.
    pub fn WM_STATE_SHADED(&self) -> (atom: Atom)
        ensures
            atom == self.atoms().wm_state_shaded,
    {
        self.atoms.wm_state_shaded
    }

    /// The atom `_NET_WM_STATE_SKIP_TASKBAR`.
    pub fn WM_STATE_SKIP_TASKBAR(&self) -> (atom: Atom)
        ensures
            atom == self.atoms().wm_state_skip_taskbar,
    {
        self.atoms.wm_state_skip_taskbar
    }

    /// The atom `_NET_WM_STATE_SKIP_PAGER`.
    pub fn WM_STATE_SKIP_PAGER(&self) -> (atom: Atom)
        ensures
            atom == self.atoms().wm_state_skip_pager,
    {
        self.atoms.wm_state_skip_pager
    }

    /// The atom `_NET_WM_STATE_HIDDEN`.
    pub fn WM_STATE_HIDDEN(&self) -> (atom: Atom)
        ensures
            atom == self.atoms().wm_state_hidden,
    {
        self.atoms.wm_state_hidden
    }

    /// The atom `_NET_WM_STATE_FULLSCREEN`.
    pub fn WM_STATE_FULLSCREEN(&self) -> (atom: Atom)
        ensures
            atom == self.atoms().wm_state_fullscreen,
    {
        self.atoms.wm_state_fullscreen
    }

    /// The atom `_NET_WM_STATE_ABOVE`.
    pub fn WM_STATE_ABOVE(&self) -> (atom: Atom)
        ensures
            atom == self.atoms().wm_state_above,
    {
        self.atoms.wm_state_above
    }

    /// The atom `_NET_WM_STATE_BELOW`.
    pub fn WM_STATE_BELOW(&self) -> (atom: Atom)
        ensures
            atom == self.atoms().wm_state_below,
    {
        self.atoms.wm_state_below
    }

    /// The atom `_NET_WM_STATE_DEMANDS_ATTENTION`.
    pub fn WM_STATE_DEMANDS_ATTENTION(&self) -> (atom: Atom)
        ensures
            atom == self.atoms().wm_state_demands_attention,
    {
        self.atoms.wm_state_demands_attention
    }

    /// The atom `_NET_WM_ACTION_MOVE`.
    pub fn WM_ACTION_MOVE(&self) -> (atom: Atom)
        ensures
            atom == self.atoms().wm_action_move,
    {
        self.atoms.wm_action_move
    }

    /// The atom `_NET_WM_ACTION_RESIZE`.
    pub fn WM_ACTION_RESIZE(&self) -> (atom: Atom)
        ensures
            atom == self.atoms().wm_action_resize,
    {
        self.atoms.wm_action_resize
    }

    /// The atom `_NET_WM_ACTION_MINIMIZE`.
    pub fn WM_ACTION_MINIMIZE(&self) -> (atom: Atom)
        ensures
            atom == self.atoms().wm_action_minimize,
    {
        self.atoms.wm_action_minimize
    }

    /// The atom `_NET_WM_ACTION_SHADE`.
    pub fn WM_ACTION_SHADE(&self) -> (atom: Atom)
        ensures
            atom == self.atoms().wm_action_shade,
    {
        self.atoms.wm_action_shade
    }

    /// The atom `_NET_WM_ACTION_STICK`.
    pub fn WM_ACTION_STICK(&self) -> (atom: Atom)
        ensures
            atom == self.atoms().wm_action_stick,
    {
        self.atoms.wm_action_stick
    }

    /// The atom `_NET_WM_ACTION_MAXIMIZE_HORZ`.
    pub fn WM_ACTION_MAXIMIZE_HORZ(&self) -> (atom: Atom)
        ensures
            atom == self.atoms().wm_action_maximize_horz,
    {
        self.atoms.wm_action_maximize_horz
    }

    /// The atom `_NET_WM_ACTION_MAXIMIZE_VERT`.
    pub fn WM_ACTION_MAXIMIZE_VERT(&self) -> (atom: Atom)
        ensures
            atom == self.atoms().wm_action_maximize_vert,
    {
        self.atoms.wm_action_maximize_vert
    }

    /// The atom `_NET_WM_ACTION_FULLSCREEN`.
    pub fn WM_ACTION_FULLSCREEN(&self) -> (atom: Atom)
        ensures
            atom == self.atoms().wm_action_fullscreen,
    {
        self.atoms.wm_action_fullscreen
    }

    /// The atom `_NET_WM_ACTION_CHANGE_DESKTOP`.
    pub fn WM_ACTION_CHANGE_DESKTOP(&self) -> (atom: Atom)
        ensures
            atom == self.atoms().wm_action_change_desktop,
    {
        self.atoms.wm_action_change_desktop
    }

    /// The atom `_NET_WM_ACTION_CLOSE`.
    pub fn WM_ACTION_CLOSE(&self) -> (atom: Atom)
        ensures
            atom == self.atoms().wm_action_close,
    {
        self.atoms.wm_action_close
    }

    /// The atom `_NET_WM_ACTION_ABOVE`.
    pub fn WM_ACTION_ABOVE(&self) -> (atom: Atom)
        ensures
            atom == self.atoms().wm_action_above,
    {
        self.atoms.wm_action_above
    }

    /// The atom `_NET_WM_ACTION_BELOW`.
    pub fn WM_ACTION_BELOW(&self) -> (atom: Atom)
        ensures
            atom == self.atoms().wm_action_below,
    {
        self.atoms.wm_action_below
    }
}

} // verus!
