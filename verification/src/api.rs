//! Values plugins exchange with the host: log levels, plugin summaries,
//! media tracks and the pieces of user interface a plugin can add.

use vstd::prelude::*;

use crate::plugin::PluginId;

verus! {

/// Log level for host logging.
#[derive(Debug, Clone, Copy, PartialEq, Eq, Structural)]
pub enum LogLevel {
    Trace,
    Debug,
    Info,
    Warn,
    Error,
}

/// A plugin as the host reports it.
#[derive(Debug, Clone)]
pub struct PluginInfo {
    pub id: PluginId,
    pub name: String,
    pub version: String,
    pub enabled: bool,
}

/// An audio or subtitle track of the playing media.
#[derive(Debug, Clone)]
pub struct TrackInfo {
    pub index: u32,
    pub language: Option<String>,
    pub title: Option<String>,
    pub is_default: bool,
}

/// An entry a plugin adds to a menu.
#[derive(Debug, Clone)]
pub struct MenuItem {
    pub id: String,
    pub label: String,
    pub shortcut: Option<String>,
    pub icon: Option<String>,
    /// Action to perform when clicked.
    pub action: String,
    pub enabled: bool,
    /// Whether the item is checked (for checkbox items).
    pub checked: Option<bool>,
}

/// Style of a dialog button.
#[derive(Debug, Clone, Copy, PartialEq, Eq, Structural)]
pub enum DialogButtonStyle {
    Default,
    Primary,
    Danger,
}

/// A button of a dialog.
#[derive(Debug, Clone)]
pub struct DialogButton {
    pub id: String,
    pub label: String,
    pub style: DialogButtonStyle,
}

/// A dialog a plugin opens.
#[derive(Debug, Clone)]
pub struct DialogConfig {
    pub id: String,
    pub title: String,
    /// Dialog content (HTML or markdown).
    pub content: String,
    pub buttons: Vec<DialogButton>,
    pub width: Option<u32>,
    pub height: Option<u32>,
    pub modal: bool,
}

/// One choice of a select setting.
#[derive(Debug, Clone)]
pub struct SelectOption {
    pub value: String,
    pub label: String,
}

/// Kinds of setting.
#[derive(Debug, Clone)]
pub enum SettingsItemType {
    Text,
    Number,
    Boolean,
    Select { options: Vec<SelectOption> },
    Color,
    Path,
}

/// An entry a plugin adds to the sidebar, with its children.
#[derive(Debug)]
pub struct SidebarItem {
    pub id: String,
    pub label: String,
    pub icon: Option<String>,
    pub order: u32,
    pub expandable: bool,
    pub children: Vec<SidebarItem>,
}

} // verus!
