use koosh_cursor_tools::commands::add_links::plan_symlinks;
use koosh_cursor_tools::commands::create_animated::{
    build_multi_size_plan, count_extracted_frames, frame_png_name, hotspot_coord, scale_command,
    sized_png_name, sorted_unique_sizes,
};
use koosh_cursor_tools::commands::create_hyprcursor::{
    create_hyprcursor_index_theme, extracted_dir_name, hyprcursor_create_args,
    hyprcursor_extract_args, theme_output_dir_name, update_manifest_content,
};
use koosh_cursor_tools::commands::rename_cursors::plan_renames;

fn names(v: &[&str]) -> Vec<String> {
    v.iter().map(|s| s.to_string()).collect()
}

#[test]
fn rename_plan_keeps_known_names_in_order() {
    let files = names(&["Normal", "Unknown", "Busy"]);
    let plan = plan_renames(&files);
    assert_eq!(plan.len(), 2);
    assert_eq!(plan[0], ("Normal".to_string(), "left_ptr"));
    assert_eq!(plan[1], ("Busy".to_string(), "wait"));
}

#[test]
fn rename_plan_of_nothing_is_empty() {
    assert!(plan_renames(&Vec::new()).is_empty());
}

#[test]
fn symlink_plan_needs_the_target() {
    let plan = plan_symlinks(&names(&["left_ptr"]));
    assert_eq!(
        plan,
        vec![
            ("left_ptr", "arrow"),
            ("left_ptr", "default"),
            ("left_ptr", "top_left_arrow"),
            ("left_ptr", "wayland-cursor"),
        ]
    );
}

#[test]
fn symlink_plan_skips_existing_links() {
    let plan = plan_symlinks(&names(&["left_ptr", "arrow"]));
    assert_eq!(
        plan,
        vec![
            ("left_ptr", "default"),
            ("left_ptr", "top_left_arrow"),
            ("left_ptr", "wayland-cursor"),
        ]
    );
}

#[test]
fn symlink_plan_chains_through_created_links() {
    // The link made for "progress" is itself the target of the
    // hex-named aliases further down the table.
    let plan = plan_symlinks(&names(&["progress"]));
    assert_eq!(
        plan,
        vec![
            ("progress", "left_ptr_watch"),
            ("left_ptr_watch", "00000000000000020006000e7e9ffc3f"),
            ("left_ptr_watch", "08e8e1c95fe2fc01f976f1e063a24ccd"),
            ("left_ptr_watch", "3ecb610c1bf2410f44200f48c40d3599"),
        ]
    );
}

#[test]
fn symlink_plan_of_nothing_is_empty() {
    assert!(plan_symlinks(&Vec::new()).is_empty());
}

#[test]
fn frame_counting() {
    let files = names(&[
        "wait_000.png",
        "wait_001.png",
        "wait.png",
        "watch_000.png",
        "wait_002.txt",
    ]);
    assert_eq!(count_extracted_frames(&files, "wait"), 2);
    assert_eq!(count_extracted_frames(&files, "watch"), 1);
    assert_eq!(count_extracted_frames(&files, "cross"), 0);
}

#[test]
fn hotspot_coordinates() {
    assert_eq!(hotspot_coord(24, 125), 3);
    assert_eq!(hotspot_coord(24, 300), 7);
    assert_eq!(hotspot_coord(96, 500), 48);
    assert_eq!(hotspot_coord(8, 125), 1);
    assert_eq!(hotspot_coord(4, 125), 1);
    assert_eq!(hotspot_coord(0, 500), 1);
}

#[test]
fn frame_file_names() {
    assert_eq!(frame_png_name("wait", 0), "wait_000.png");
    assert_eq!(frame_png_name("left_ptr", 12), "left_ptr_012.png");
    assert_eq!(sized_png_name(24, 2), "24_002.png");
}

#[test]
fn multi_size_plan() {
    let sizes = vec![24, 48];
    let frames = vec![true, false, true];
    let (config, ops) = build_multi_size_plan("wait", &sizes, 48, (500, 500), &frames);
    let expected_config = "24 12 12 24_000.png 100\n\
                           24 12 12 24_002.png 100\n\
                           48 24 24 48_000.png 100\n\
                           48 24 24 48_002.png 100\n";
    assert_eq!(config, expected_config);
    assert_eq!(ops.len(), 4);
    assert_eq!(ops[0].src_name, "wait_000.png");
    assert_eq!(ops[0].dst_name, "24_000.png");
    assert_eq!(ops[0].size, 24);
    assert!(ops[0].scale);
    assert_eq!(ops[1].src_name, "wait_002.png");
    assert_eq!(ops[1].dst_name, "24_002.png");
    assert!(ops[1].scale);
    assert_eq!(ops[2].src_name, "wait_000.png");
    assert_eq!(ops[2].dst_name, "48_000.png");
    assert_eq!(ops[2].size, 48);
    assert!(!ops[2].scale);
    assert_eq!(ops[3].src_name, "wait_002.png");
    assert_eq!(ops[3].dst_name, "48_002.png");
    assert!(!ops[3].scale);
}

#[test]
fn multi_size_plan_with_no_frames() {
    let sizes = vec![24];
    let (config, ops) = build_multi_size_plan("wait", &sizes, 24, (125, 125), &Vec::new());
    assert_eq!(config, "");
    assert!(ops.is_empty());
}

#[test]
fn scale_commands() {
    let (prog, args) = scale_command("a.png", "b.png", 64, true);
    assert_eq!(prog, "magick");
    assert_eq!(args, vec!["a.png", "-resize", "64x64", "b.png"]);
    let (prog, args) = scale_command("a.png", "b.png", 32, false);
    assert_eq!(prog, "convert");
    assert_eq!(args, vec!["a.png", "-resize", "32x32", "b.png"]);
}

#[test]
fn size_listing_is_sorted_and_unique() {
    assert_eq!(
        sorted_unique_sizes(&vec![48, 24, 48, 96, 24]),
        vec![24, 48, 96]
    );
    assert_eq!(sorted_unique_sizes(&Vec::new()), Vec::<u32>::new());
}

#[test]
fn manifest_rewrite() {
    let manifest = "name = Koosh-Animated\n\
                    description = something old\n\
                    version = 0.1\n\
                    cursors_directory = cursors\n";
    let updated = update_manifest_content(manifest, "Koosh-Hyprcursor2");
    let expected = "name = Koosh-Hyprcursor2\n\
                    description = Koosh cursor theme with hyprcursor support for Wayland\n\
                    version = 1.0\n\
                    cursors_directory = cursors";
    assert_eq!(updated, expected);
}

#[test]
fn manifest_rewrite_keeps_unknown_lines() {
    let updated = update_manifest_content("other = x\nname = a", "b");
    assert_eq!(updated, "other = x\nname = b");
}

#[test]
fn hyprcursor_names_and_args() {
    assert_eq!(extracted_dir_name("Koosh-Animated"), "extracted_Koosh-Animated");
    assert_eq!(theme_output_dir_name("K2"), "theme_K2");
    assert_eq!(
        hyprcursor_extract_args("/home/u/.icons/K", "koosh_extract"),
        vec!["--extract", "/home/u/.icons/K", "--output", "koosh_extract"]
    );
    assert_eq!(
        hyprcursor_create_args("koosh_extract/extracted_K", "koosh_hyprcursor"),
        vec!["--create", "koosh_extract/extracted_K", "--output", "koosh_hyprcursor"]
    );
}

#[test]
fn hyprcursor_index_theme_text() {
    let text = create_hyprcursor_index_theme("K2");
    let expected = "[Icon Theme]\n\
                    Name=K2\n\
                    Comment=Koosh cursor theme with hyprcursor support for Wayland\n\
                    Inherits=hicolor\n\
                    \n\
                    # Directory list\n\
                    Directories=cursors hyprcursors\n\
                    \n\
                    [cursors]\n\
                    Context=Cursors\n\
                    Type=Fixed\n\
                    \n\
                    [hyprcursors]\n\
                    Context=Cursors\n\
                    Type=Fixed\n";
    assert_eq!(text, expected);
}
