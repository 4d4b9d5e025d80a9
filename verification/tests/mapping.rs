use koosh_cursor_tools::cursor_mapping::{
    get_cursor_hotspot, get_cursor_symlinks, get_windows_to_x11_mapping, windows_to_x11,
};

#[test]
fn windows_mapping_contents() {
    let map = get_windows_to_x11_mapping();
    assert_eq!(map.len(), 17);
    assert_eq!(map[0], ("Normal", "left_ptr"));
    assert_eq!(map[16], ("Diagonal2", "size_fdiag"));
    assert!(map.contains(&("Busy", "wait")));
    assert!(map.contains(&("Unavailable", "not-allowed")));
}

#[test]
fn windows_lookup() {
    assert_eq!(windows_to_x11("Normal"), Some("left_ptr"));
    assert_eq!(windows_to_x11("Busy"), Some("wait"));
    assert_eq!(windows_to_x11("Diagonal1"), Some("size_bdiag"));
    assert_eq!(windows_to_x11("left_ptr"), None);
    assert_eq!(windows_to_x11(""), None);
}

#[test]
fn symlink_table_contents() {
    let links = get_cursor_symlinks();
    assert_eq!(links.len(), 94);
    assert_eq!(links[0], ("left_ptr", "arrow"));
    assert_eq!(links[93], ("X_cursor", "x-cursor"));
    assert!(links.contains(&("progress", "left_ptr_watch")));
    assert!(links.contains(&("left_ptr_watch", "00000000000000020006000e7e9ffc3f")));
    assert!(links.contains(&("not-allowed", "forbidden")));
}

#[test]
fn hotspots_by_cursor_kind() {
    assert_eq!(get_cursor_hotspot("left_ptr"), (125, 125));
    assert_eq!(get_cursor_hotspot("not-allowed"), (125, 125));
    assert_eq!(get_cursor_hotspot("unavailable"), (125, 125));
    assert_eq!(get_cursor_hotspot("text"), (500, 500));
    assert_eq!(get_cursor_hotspot("xterm"), (500, 500));
    assert_eq!(get_cursor_hotspot("ibeam"), (500, 500));
    assert_eq!(get_cursor_hotspot("pointer"), (300, 125));
    assert_eq!(get_cursor_hotspot("pointer2"), (300, 125));
    assert_eq!(get_cursor_hotspot("hand2"), (300, 125));
    // "pointing_hand" matches neither prefix, so it takes the default.
    assert_eq!(get_cursor_hotspot("pointing_hand"), (500, 500));
    assert_eq!(get_cursor_hotspot("pencil"), (125, 125));
    assert_eq!(get_cursor_hotspot("move"), (500, 500));
    assert_eq!(get_cursor_hotspot("size_hor"), (500, 500));
    assert_eq!(get_cursor_hotspot("something_else"), (500, 500));
}
