//! Where the parts of a session go on a screen of a given size.
//!
//! The room key, where it is shown, takes a strip at the top; the
//! participants, where they are shown, a column at the left; the message being
//! typed a strip at the bottom; the history takes what is left. On a screen
//! too small for all of them the boxes shrink, down to nothing, and never
//! reach over the screen's edge.

use vstd::prelude::*;

verus! {

/// Rows of the box that shows the room key.
pub const KEY_BOX_HEIGHT: u16 = 3;

/// Columns of the box that shows the participants.
pub const USERS_BOX_WIDTH: u16 = 20;

/// Rows of the box that shows the message being typed.
pub const INPUT_BOX_HEIGHT: u16 = 4;

/// Rows and columns that a box's border takes.
pub const BORDER: u16 = 2;

/// A rectangle of the screen, in cells from the top-left corner.
#[derive(Clone, Copy, Debug, PartialEq, Eq, Structural)]
pub struct Region {
    pub x: u16,
    pub y: u16,
    pub width: u16,
    pub height: u16,
}

/// Where each part of a session is drawn.
#[derive(Clone, Copy, Debug, PartialEq, Eq, Structural)]
pub struct ScreenPlan {
    /// The room key, if it is shown.
    pub key_box: Option<Region>,
    /// The participants, if they are shown.
    pub users_box: Option<Region>,
    /// The history.
    pub history_box: Region,
    /// The message being typed.
    pub input_box: Region,
    /// How many lines of history fit between the borders of their box.
    pub history_rows: u16,
}

/// The smaller of two numbers.
pub open spec fn least(a: u16, b: u16) -> u16 {
    if a <= b {
        a
    } else {
        b
    }
}

/// Rows that the room key takes on a screen of the given height.
pub open spec fn key_rows(height: u16, show_key: bool) -> u16 {
    if show_key {
        least(KEY_BOX_HEIGHT, height)
    } else {
        0
    }
}

/// Columns that the participants take on a screen of the given width.
pub open spec fn users_columns(width: u16, show_users: bool) -> u16 {
    if show_users {
        least(USERS_BOX_WIDTH, width)
    } else {
        0
    }
}

/// The plan for a screen of the given size.
pub open spec fn plan_spec(width: u16, height: u16, show_key: bool, show_users: bool) -> ScreenPlan {
    let top = key_rows(height, show_key);
    let left = users_columns(width, show_users);
    let height_left = (height - top) as u16;
    let width_left = (width - left) as u16;
    let input_rows = least(INPUT_BOX_HEIGHT, height_left);
    let history_height = (height_left - input_rows) as u16;
    ScreenPlan {
        key_box: if show_key {
            Some(Region { x: 0, y: 0, width, height: top })
        } else {
            None
        },
        users_box: if show_users {
            Some(Region { x: 0, y: top, width: left, height: height_left })
        } else {
            None
        },
        history_box: Region { x: left, y: top, width: width_left, height: history_height },
        input_box: Region {
            x: left,
            y: (height - input_rows) as u16,
            width: width_left,
            height: input_rows,
        },
        history_rows: if history_height >= BORDER {
            (history_height - BORDER) as u16
        } else {
            0
        },
    }
}

/// Whether a region lies within a screen of the given size.
pub open spec fn within(region: Region, width: u16, height: u16) -> bool {
    region.x + region.width <= width && region.y + region.height <= height
}

/// Whether two regions share no cell.
pub open spec fn apart(a: Region, b: Region) -> bool {
    ||| a.width == 0
    ||| a.height == 0
    ||| b.width == 0
    ||| b.height == 0
    ||| a.x + a.width <= b.x
    ||| b.x + b.width <= a.x
    ||| a.y + a.height <= b.y
    ||| b.y + b.height <= a.y
}

fn smaller(a: u16, b: u16) -> (r: u16)
    ensures
        r == least(a, b),
{
    if a <= b {
        a
    } else {
        b
    }
}

/// Plans a screen of the given size.
pub fn plan(width: u16, height: u16, show_key: bool, show_users: bool) -> (r: ScreenPlan)
    ensures
        r == plan_spec(width, height, show_key, show_users),
{
    let top: u16 = if show_key {
        smaller(KEY_BOX_HEIGHT, height)
    } else {
        0
    };
    let left: u16 = if show_users {
        smaller(USERS_BOX_WIDTH, width)
    } else {
        0
    };
    let height_left: u16 = height - top;
    let width_left: u16 = width - left;
    let input_rows: u16 = smaller(INPUT_BOX_HEIGHT, height_left);
    let history_height: u16 = height_left - input_rows;
    ScreenPlan {
        key_box: if show_key {
            Some(Region { x: 0, y: 0, width, height: top })
        } else {
            None
        },
        users_box: if show_users {
            Some(Region { x: 0, y: top, width: left, height: height_left })
        } else {
            None
        },
        history_box: Region { x: left, y: top, width: width_left, height: history_height },
        input_box: Region {
            x: left,
            y: height - input_rows,
            width: width_left,
            height: input_rows,
        },
        history_rows: if history_height >= BORDER {
            history_height - BORDER
        } else {
            0
        },
    }
}

/// Every box of a plan lies within the screen, and no two of them share a
/// cell.
pub proof fn lemma_plan_fits(width: u16, height: u16, show_key: bool, show_users: bool)
    ensures
        ({
            let p = plan_spec(width, height, show_key, show_users);
            &&& within(p.history_box, width, height)
            &&& within(p.input_box, width, height)
            &&& apart(p.history_box, p.input_box)
            &&& p.key_box is Some == show_key
            &&& p.users_box is Some == show_users
            &&& p.key_box matches Some(k) ==> within(k, width, height) && apart(k, p.history_box)
                && apart(k, p.input_box)
            &&& p.users_box matches Some(u) ==> within(u, width, height) && apart(u, p.history_box)
                && apart(u, p.input_box)
            &&& show_key && show_users ==> apart(p.key_box.unwrap(), p.users_box.unwrap())
            &&& p.history_rows + BORDER <= p.history_box.height || p.history_rows == 0
        }),
{
}

/// On a screen with room for every box the plan is the plain one: the key box
/// three rows high, the participants twenty columns wide, the input four rows
/// high, and the history with six rows fewer than are left under the key.
pub proof fn lemma_plan_on_a_roomy_screen(width: u16, height: u16, show_key: bool, show_users: bool)
    requires
        width >= USERS_BOX_WIDTH,
        height >= KEY_BOX_HEIGHT + INPUT_BOX_HEIGHT + BORDER,
    ensures
        ({
            let p = plan_spec(width, height, show_key, show_users);
            let height_left = if show_key {
                height - KEY_BOX_HEIGHT
            } else {
                height as int
            };
            let width_left = if show_users {
                width - USERS_BOX_WIDTH
            } else {
                width as int
            };
            &&& p.key_box matches Some(k) ==> k == (Region {
                x: 0,
                y: 0,
                width,
                height: KEY_BOX_HEIGHT,
            })
            &&& p.users_box matches Some(u) ==> u.width == USERS_BOX_WIDTH && u.height
                == height_left && u.y == height - height_left
            &&& p.history_box.x == width - width_left
            &&& p.history_box.y == height - height_left
            &&& p.history_box.width == width_left
            &&& p.history_box.height == height_left - INPUT_BOX_HEIGHT
            &&& p.input_box.y == height - INPUT_BOX_HEIGHT
            &&& p.input_box.height == INPUT_BOX_HEIGHT
            &&& p.history_rows == height_left - INPUT_BOX_HEIGHT - BORDER
        }),
{
}

} // verus!
