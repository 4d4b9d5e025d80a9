use koosh_cursor_tools::theme_config::{
    create_cursor_theme, create_hyprcursor_manifest, create_index_theme, create_theme_files,
    standard_sizes,
};

#[test]
fn standard_sizes_list() {
    assert_eq!(standard_sizes(), vec![24, 32, 48, 64, 72, 96]);
}

#[test]
fn index_theme_without_sizes() {
    let text = create_index_theme("Koosh-Complete", "A comment", None);
    let expected = "[Icon Theme]\n\
                    Name=Koosh-Complete\n\
                    Comment=A comment\n\
                    Inherits=hicolor\n\
                    \n\
                    # Directory list\n\
                    Directories=cursors\n\
                    \n\
                    [cursors]\n\
                    Context=Cursors\n\
                    Type=Fixed\n";
    assert_eq!(text, expected);
}

#[test]
fn index_theme_with_sizes() {
    let sizes = vec![24, 32];
    let text = create_index_theme("T", "C", Some(&sizes));
    let expected = "[Icon Theme]\n\
                    Name=T\n\
                    Comment=C\n\
                    Inherits=hicolor\n\
                    \n\
                    # Directory list\n\
                    Directories=cursors\n\
                    \n\
                    [cursors]\n\
                    Context=Cursors\n\
                    Type=Fixed\n\
                    \n\
                    [cursors/24]\n\
                    Size=24\n\
                    Context=Cursors\n\
                    Type=Fixed\n\
                    \n\
                    [cursors/32]\n\
                    Size=32\n\
                    Context=Cursors\n\
                    Type=Fixed\n";
    assert_eq!(text, expected);
}

#[test]
fn cursor_theme_inherits_itself() {
    let text = create_cursor_theme("Koosh-X11", "Koosh cursor theme");
    let expected = "[Icon Theme]\n\
                    Name=Koosh-X11\n\
                    Comment=Koosh cursor theme\n\
                    Inherits=Koosh-X11\n";
    assert_eq!(text, expected);
}

#[test]
fn theme_file_pair() {
    let (index, cursor) = create_theme_files("T", "C", None);
    assert_eq!(index, create_index_theme("T", "C", None));
    assert_eq!(cursor, create_cursor_theme("T", "C"));
}

#[test]
fn hyprcursor_manifest() {
    let text = create_hyprcursor_manifest("Koosh-Hyprcursor2", "A theme", "1.0");
    let expected = "name = Koosh-Hyprcursor2\n\
                    description = A theme\n\
                    version = 1.0\n\
                    cursors_directory = cursors\n";
    assert_eq!(text, expected);
}
