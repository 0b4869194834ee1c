//! The state of the loader's in-game window.
use vstd::prelude::*;
use crate::input::Key;
use crate::metadata::PluginMetadataV0;

verus! {

/// The loader's own built-in plugin.
#[derive(Debug, Copy, Clone, PartialEq, Eq, Structural)]
pub struct CauldronCore {}

/// Which of the interface library's debug windows are open.
#[derive(Debug, Copy, Clone, PartialEq, Eq, Structural)]
pub struct EguiToggles {
    pub settings: bool,
    pub inspection: bool,
    pub memory: bool,
}

/// The loader's window: whether it and its plugin list are open, which
/// debug windows are open, the key that opens it, and the plugins it lists.
#[derive(Debug)]
pub struct CauldronUI {
    pub ui_open: bool,
    pub ui_plugins_open: bool,
    pub ui_egui: EguiToggles,
    pub open_key: Key,
    pub plugins: Vec<PluginMetadataV0>,
}

impl CauldronUI {
    /// A closed window listing `plugins`, opened with `open_key`.
    pub fn new(plugins: Vec<PluginMetadataV0>, open_key: Key) -> (r: CauldronUI)
        ensures
            !r.ui_open,
            !r.ui_plugins_open,
            r.ui_egui == (EguiToggles { settings: false, inspection: false, memory: false }),
            r.open_key == open_key,
            r.plugins@ == plugins@,
    {
        CauldronUI {
            ui_open: false,
            ui_plugins_open: false,
            ui_egui: EguiToggles { settings: false, inspection: false, memory: false },
            open_key,
            plugins,
        }
    }

    /// Before each frame: pressing the open key opens or closes the window.
    pub fn before_render(&mut self, open_key_pressed: bool)
        ensures
            final(self).ui_open == (old(self).ui_open != open_key_pressed),
            final(self).ui_plugins_open == old(self).ui_plugins_open,
            final(self).ui_egui == old(self).ui_egui,
            final(self).open_key == old(self).open_key,
            final(self).plugins@ == old(self).plugins@,
    {
        if open_key_pressed {
            self.ui_open = !self.ui_open;
        }
    }

    /// The "Plugins" button opens or closes the plugin list.
    pub fn toggle_plugins(&mut self)
        ensures
            final(self).ui_plugins_open == !old(self).ui_plugins_open,
            final(self).ui_open == old(self).ui_open,
            final(self).ui_egui == old(self).ui_egui,
            final(self).open_key == old(self).open_key,
            final(self).plugins@ == old(self).plugins@,
    {
        self.ui_plugins_open = !self.ui_plugins_open;
    }

    /// Whether anything is drawn this frame: only when the window is open.
    pub fn is_visible(&self) -> (r: bool)
        ensures
            r == self.ui_open,
    {
        self.ui_open
    }
}

} // verus!
