use ai_copilot::config::{
    capture_tool_enabled, default_capture_tool_enabled, default_show_thinking,
    set_capture_tool_enabled_value, KeybindConfig, ToolConfig,
};

#[test]
fn defaults_are_on() {
    assert!(default_capture_tool_enabled());
    assert!(default_show_thinking());
    assert!(ToolConfig::default().capture_screen_text_enabled);
}

#[test]
fn default_key_bindings() {
    let keys = KeybindConfig::default();
    assert_eq!(keys.toggle_overlay, "Ctrl+Space");
    assert_eq!(keys.focus_overlay, "Ctrl+Shift+Space");
    let copy = keys.clone();
    assert_eq!(copy.toggle_overlay, keys.toggle_overlay);
    assert_eq!(copy.focus_overlay, keys.focus_overlay);
}

#[test]
fn gate_follows_the_setting() {
    let mut tools = ToolConfig::default();
    assert!(capture_tool_enabled(&tools));
    set_capture_tool_enabled_value(&mut tools, false);
    assert!(!capture_tool_enabled(&tools));
    assert_eq!(tools, ToolConfig { capture_screen_text_enabled: false });
    set_capture_tool_enabled_value(&mut tools, true);
    assert!(capture_tool_enabled(&tools));
}
