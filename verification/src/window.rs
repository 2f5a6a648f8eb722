//! The settings of the game's window.

use vstd::prelude::*;
use crate::icon::Icon;

verus! {

/// Width of the window in pixels.
pub const WINDOW_WIDTH: i32 = 432;

/// Height of the window in pixels.
pub const WINDOW_HEIGHT: i32 = 768;

/// What the window is opened with.
#[derive(Clone, Copy, Debug)]
pub struct WindowConf {
    pub window_title: &'static str,
    pub icon: Option<Icon>,
    pub window_width: i32,
    pub window_height: i32,
    pub window_resizable: bool,
}

/// The settings of the game's window: its title, the icon given, its fixed
/// size, and that it cannot be resized.
pub fn window_conf(icon: Icon) -> (conf: WindowConf)
    ensures
        conf.window_title@ == "DiscoBird"@,
        conf.icon matches Some(i) && i.small@ == icon.small@ && i.medium@ == icon.medium@
            && i.big@ == icon.big@,
        conf.window_width == WINDOW_WIDTH,
        conf.window_height == WINDOW_HEIGHT,
        !conf.window_resizable,
{
    WindowConf {
        window_title: "DiscoBird",
        icon: Some(icon),
        window_width: WINDOW_WIDTH,
        window_height: WINDOW_HEIGHT,
        window_resizable: false,
    }
}

} // verus!
