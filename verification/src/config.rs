//! The settings that the library's rules read: key bindings and tool switches.

use vstd::prelude::*;
use vstd::string::*;

verus! {

/// Key combinations that show, hide and focus the overlay.
#[derive(Debug)]
pub struct KeybindConfig {
    pub toggle_overlay: String,
    pub focus_overlay: String,
}

/// Switches of the tools that the assistant may use.
#[derive(Clone, Copy, Debug, PartialEq, Eq, Structural)]
pub struct ToolConfig {
    pub capture_screen_text_enabled: bool,
}

/// Whether the capture tool is switched on when the settings do not say.
pub fn default_capture_tool_enabled() -> (enabled: bool)
    ensures
        enabled,
{
    true
}

/// Whether the model's reasoning is shown when the settings do not say.
pub fn default_show_thinking() -> (shown: bool)
    ensures
        shown,
{
    true
}

impl Default for ToolConfig {
    fn default() -> (out: Self)
        ensures
            out.capture_screen_text_enabled,
    {
        ToolConfig { capture_screen_text_enabled: default_capture_tool_enabled() }
    }
}

impl Default for KeybindConfig {
    fn default() -> (out: Self)
        ensures
            out.toggle_overlay@ == "Ctrl+Space"@,
            out.focus_overlay@ == "Ctrl+Shift+Space"@,
    {
        KeybindConfig {
            toggle_overlay: String::from_str("Ctrl+Space"),
            focus_overlay: String::from_str("Ctrl+Shift+Space"),
        }
    }
}

impl Clone for KeybindConfig {
    fn clone(&self) -> (out: Self)
        ensures
            out.toggle_overlay@ == self.toggle_overlay@,
            out.focus_overlay@ == self.focus_overlay@,
    {
        KeybindConfig {
            toggle_overlay: self.toggle_overlay.clone(),
            focus_overlay: self.focus_overlay.clone(),
        }
    }
}

/// Whether the settings allow a capture. It is asked anew for every request,
/// on settings read at that moment.
pub fn capture_tool_enabled(tools: &ToolConfig) -> (enabled: bool)
    ensures
        enabled == tools.capture_screen_text_enabled,
{
    tools.capture_screen_text_enabled
}

/// Switches the capture tool on or off in `tools`.
pub fn set_capture_tool_enabled_value(tools: &mut ToolConfig, enabled: bool)
    ensures
        final(tools).capture_screen_text_enabled == enabled,
{
    tools.capture_screen_text_enabled = enabled;
}

} // verus!
