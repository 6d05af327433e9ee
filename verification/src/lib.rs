//! Tab, pane and shortcut-editor logic of the Limux Linux host, with the
//! state of a pane's tab strip modelled as plain values.

pub mod browser;
pub mod drop;
pub mod ids;
pub mod keybinds;
pub mod text;
pub mod layout;
pub mod payload;
pub mod tab_laws;
pub mod tabs;
