//! Options accepted when creating a window, with their defaults.

use vstd::prelude::*;

verus! {

/// Options for `create_window`. Fields left out by the caller take the
/// defaults below.
#[derive(Clone, Debug)]
pub struct WindowOptions {
    pub width: u32,
    pub height: u32,
    pub maximized: bool,
    pub fullscreen: bool,
    pub title: String,
    pub resizable: bool,
    pub frameless: bool,
    pub always_on_top: bool,
    pub initial_url: Option<String>,
    pub restore_state: bool,
    pub root: Option<String>,
    pub transparent: bool,
    pub visible: bool,
    pub id: Option<String>,
    pub wm_class: Option<String>,
}

impl Default for WindowOptions {
    /// The documented defaults: a visible, resizable, decorated 1024 by 768
    /// window titled "Lotus App" whose geometry is restored when a record
    /// exists.
    fn default() -> (r: WindowOptions)
        ensures
            r.width == 1024,
            r.height == 768,
            !r.maximized,
            !r.fullscreen,
            r.title@ == "Lotus App"@,
            r.resizable,
            !r.frameless,
            !r.always_on_top,
            r.initial_url is None,
            r.restore_state,
            r.root is None,
            !r.transparent,
            r.visible,
            r.id is None,
            r.wm_class is None,
    {
        WindowOptions {
            width: 1024,
            height: 768,
            maximized: false,
            fullscreen: false,
            title: "Lotus App".to_owned(),
            resizable: true,
            frameless: false,
            always_on_top: false,
            initial_url: None,
            restore_state: true,
            root: None,
            transparent: false,
            visible: true,
            id: None,
            wm_class: None,
        }
    }
}

} // verus!
