//! The screen partition the render pass uses: one bottom row for the help
//! area, and the rest split into a menu column (a fifth of the width) and
//! the content page beside it. The embedding program hands these regions
//! to its drawing backend.
use vstd::prelude::*;

verus! {

/// A rectangular screen region, in terminal cells.
#[derive(Debug, Copy, Clone, PartialEq, Eq, Structural)]
pub struct Region {
    pub x: u16,
    pub y: u16,
    pub width: u16,
    pub height: u16,
}

/// The named regions of one frame.
#[derive(Debug, Copy, Clone, PartialEq, Eq, Structural)]
pub struct ScreenRegions {
    pub main: Region,
    pub help: Region,
    pub menu: Region,
    pub page: Region,
}

/// Partition a `width` by `height` frame: the bottom row is the help area,
/// the rest is the main area; the main area's left fifth is the menu
/// column and the remainder is the content page. The partition is exact:
/// menu and page tile the main area, and main and help tile the frame.
pub fn compute_layout(width: u16, height: u16) -> (r: ScreenRegions)
    ensures
        r.main == (Region {
            x: 0u16,
            y: 0u16,
            width,
            height: if height > 0 {
                (height - 1) as u16
            } else {
                0u16
            },
        }),
        r.help == (Region { x: 0u16, y: r.main.height, width, height: (height - r.main.height) as u16 }),
        r.menu == (Region { x: 0u16, y: 0u16, width: (width / 5) as u16, height: r.main.height }),
        r.page == (Region {
            x: r.menu.width,
            y: 0u16,
            width: (width - r.menu.width) as u16,
            height: r.main.height,
        }),
        r.menu.width + r.page.width == width,
        r.main.height + r.help.height == height,
{
    let main_height: u16 = if height > 0 {
        height - 1
    } else {
        0
    };
    let menu_width: u16 = width / 5;
    ScreenRegions {
        main: Region { x: 0, y: 0, width, height: main_height },
        help: Region { x: 0, y: main_height, width, height: height - main_height },
        menu: Region { x: 0, y: 0, width: menu_width, height: main_height },
        page: Region { x: menu_width, y: 0, width: width - menu_width, height: main_height },
    }
}

} // verus!
