use koosh_cursor_tools::commands::add_links::{choose_cursor_source, find_cursor_source};
use koosh_cursor_tools::CursorError as Error;
use koosh_cursor_tools::{
    get_home_dir, get_icons_dir, icons_dir_of, icon_cache_args, join_path, CommandUtils,
    CursorError, CursorTheme,
};

#[test]
fn path_joining() {
    assert_eq!(join_path("/tmp", "cursors"), "/tmp/cursors");
    assert_eq!(join_path("", "x"), "/x");
}

#[test]
fn theme_layout() {
    let theme = CursorTheme::new("Koosh-X11".to_string(), "/work/Koosh-X11".to_string());
    assert_eq!(theme.name, "Koosh-X11");
    assert_eq!(theme.path, "/work/Koosh-X11");
    assert_eq!(theme.cursors_dir, "/work/Koosh-X11/cursors");
}

#[test]
fn missing_theme_is_not_on_disk() {
    let theme = CursorTheme::new(
        "Nowhere".to_string(),
        "/definitely/not/a/real/theme/path".to_string(),
    );
    assert!(!theme.exists_on_disk());
}

#[test]
fn error_messages() {
    assert_eq!(
        CursorError::ThemeNotFound("/a/b".to_string()).message(),
        "Theme directory not found: /a/b"
    );
    assert_eq!(
        CursorError::CursorNotFound("/a/c".to_string()).message(),
        "Cursor file not found: /a/c"
    );
    assert_eq!(
        CursorError::CommandFailed {
            command: "xcursorgen cursor.config cursor".to_string(),
            error: "boom".to_string(),
        }
        .message(),
        "Command failed: xcursorgen cursor.config cursor - boom"
    );
    assert_eq!(
        CursorError::Io("disk full".to_string()).message(),
        "IO error: disk full"
    );
}

#[test]
fn command_lines() {
    let args = vec!["-f".to_string(), "-t".to_string(), "/x".to_string()];
    assert_eq!(
        CommandUtils::command_line("gtk-update-icon-cache", &args),
        "gtk-update-icon-cache -f -t /x"
    );
    assert_eq!(CommandUtils::command_line("which", &Vec::new()), "which ");
}

#[test]
fn icon_cache_arguments() {
    assert_eq!(icon_cache_args("/home/u/.icons/K"), vec!["-f", "-t", "/home/u/.icons/K"]);
}

#[test]
fn icons_dir_shape() {
    assert_eq!(icons_dir_of("/home/u"), "/home/u/.icons");
    if let Some(dir) = get_icons_dir() {
        assert!(dir.ends_with("/.icons"));
    }
    // However the environment answers, the call must not panic.
    let _ = get_home_dir();
}

#[test]
fn cursor_source_choice_follows_the_search_order() {
    let explicit = Some("/given".to_string());
    // The explicit directory wins whenever it is present.
    let r = choose_cursor_source(&explicit, true, "/w", true, true, "/i", true);
    assert_eq!(r.unwrap(), "/given");
    // An absent explicit directory is passed over.
    let r = choose_cursor_source(&explicit, false, "/w", true, true, "/i", true);
    assert_eq!(r.unwrap(), "/w/cursors");
    let r = choose_cursor_source(&None, false, "/w", true, true, "/i", true);
    assert_eq!(r.unwrap(), "/w/cursors");
    let r = choose_cursor_source(&None, false, "/w", false, true, "/i", true);
    assert_eq!(r.unwrap(), "/w/Koosh/cursors");
    let r = choose_cursor_source(&None, false, "/w", false, false, "/i", true);
    assert_eq!(r.unwrap(), "/i/Koosh/cursors");
    let r = choose_cursor_source(&None, false, "/w", false, false, "/i", false);
    assert!(matches!(r, Err(Error::CursorNotFound(_))));
}

#[test]
fn cursor_source_prefers_the_explicit_directory() {
    // A directory that surely exists is taken as given.
    let explicit = Some("/".to_string());
    let found = find_cursor_source(&explicit, "/definitely/not/here", "/nor/here");
    assert_eq!(found.unwrap(), "/");
    // With nothing on disk, the search reports failure.
    let found = find_cursor_source(&None, "/definitely/not/here", "/nor/here");
    assert!(found.is_err());
}
