use dattorro_reverb::editor::{
    panel_heading, window_position, window_size, window_title, EditorState, WINDOW_HEIGHT,
    WINDOW_WIDTH,
};
use dattorro_reverb::info::{plugin_info, PluginCategory};

#[test]
fn geometry() {
    assert_eq!(window_position(), (0, 0));
    assert_eq!(window_size(), (300, 200));
    assert_eq!((WINDOW_WIDTH, WINDOW_HEIGHT), (300, 200));
    assert_eq!(window_title(), "Dattorro Reverb");
    assert_eq!(panel_heading(), "Made with egui and glicol_synth");
}

#[test]
fn open_close_cycle() {
    let mut e: EditorState<&str> = EditorState::new();
    assert!(!e.is_open());
    assert!(e.begin_open());
    assert!(e.is_open());
    e.attach_window("w1");
    // a second open while open is refused and keeps the window
    assert!(!e.begin_open());
    assert!(e.is_open());
    assert_eq!(e.close(), Some("w1"));
    assert!(!e.is_open());
    // closing twice hands back nothing the second time
    assert_eq!(e.close(), None);
    assert!(e.begin_open());
    e.attach_window("w2");
    assert_eq!(e.close(), Some("w2"));
}

#[test]
fn close_without_window() {
    let mut e: EditorState<u8> = EditorState::new();
    assert_eq!(e.close(), None);
    assert!(e.begin_open());
    assert_eq!(e.close(), None);
    assert!(!e.is_open());
}

#[test]
fn info() {
    let i = plugin_info();
    assert_eq!(i.name, "Dattorro Reverb");
    assert_eq!(i.vendor, "chaosprint");
    assert_eq!(i.unique_id, 19891010);
    assert_eq!(i.version, 1);
    assert_eq!((i.inputs, i.outputs, i.parameters), (1, 2, 4));
    assert_eq!(i.category, PluginCategory::Effect);
}
