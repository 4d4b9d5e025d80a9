//! The static name tables of the cursor tools: the Windows-to-X11 name
//! mapping, the compatibility symlink table, and the hotspot ratios.

use vstd::prelude::*;

verus! {

/// A table of name pairs held in executable form agrees entry for
/// entry with its mathematical model.
pub open spec fn table_matches(v: Seq<(&str, &str)>, t: Seq<(Seq<char>, Seq<char>)>) -> bool {
    &&& v.len() == t.len()
    &&& forall|i: int|
        0 <= i < v.len() ==> (#[trigger] v[i]).0@ == t[i].0 && v[i].1@ == t[i].1
}

/// The first value paired with `key`, if any.
pub open spec fn spec_table_lookup(t: Seq<(Seq<char>, Seq<char>)>, key: Seq<char>) -> Option<
    Seq<char>,
>
    decreases t.len(),
{
    if t.len() == 0 {
        None
    } else if t[0].0 == key {
        Some(t[0].1)
    } else {
        spec_table_lookup(t.skip(1), key)
    }
}

/// The mapping from Windows cursor names to X11 cursor names.
pub open spec fn windows_x11_pairs() -> Seq<(Seq<char>, Seq<char>)> {
    seq![
        ("Normal"@, "left_ptr"@),
        ("Link"@, "link"@),
        ("Person"@, "pointer"@),
        ("Handwriting"@, "pencil"@),
        ("Text"@, "text"@),
        ("Unavailable"@, "not-allowed"@),
        ("Busy"@, "wait"@),
        ("Working"@, "progress"@),
        ("Precision"@, "crosshair"@),
        ("Move"@, "move"@),
        ("Alternate"@, "question_arrow"@),
        ("Help"@, "help"@),
        ("Pin"@, "pin"@),
        ("Horizontal"@, "size_hor"@),
        ("Vertical"@, "size_ver"@),
        ("Diagonal1"@, "size_bdiag"@),
        ("Diagonal2"@, "size_fdiag"@),
    ]
}

/// The X11 name mapped to a Windows cursor name.
pub open spec fn spec_windows_to_x11(key: Seq<char>) -> Option<Seq<char>> {
    spec_table_lookup(windows_x11_pairs(), key)
}

/// Mapping from Windows cursor names to X11 cursor names, as pairs in
/// the table's order.
pub fn get_windows_to_x11_mapping() -> (r: Vec<(&'static str, &'static str)>)
    ensures
        table_matches(r@, windows_x11_pairs()),
{
    let mut v: Vec<(&'static str, &'static str)> = Vec::new();
    v.push(("Normal", "left_ptr"));
    v.push(("Link", "link"));
    v.push(("Person", "pointer"));
    v.push(("Handwriting", "pencil"));
    v.push(("Text", "text"));
    v.push(("Unavailable", "not-allowed"));
    v.push(("Busy", "wait"));
    v.push(("Working", "progress"));
    v.push(("Precision", "crosshair"));
    v.push(("Move", "move"));
    v.push(("Alternate", "question_arrow"));
    v.push(("Help", "help"));
    v.push(("Pin", "pin"));
    v.push(("Horizontal", "size_hor"));
    v.push(("Vertical", "size_ver"));
    v.push(("Diagonal1", "size_bdiag"));
    v.push(("Diagonal2", "size_fdiag"));
    v
}

/// Look a Windows cursor name up in the mapping.
pub fn windows_to_x11(name: &str) -> (r: Option<&'static str>)
    ensures
        r matches Some(x) ==> spec_windows_to_x11(name@) == Some(x@),
        r is None ==> spec_windows_to_x11(name@) is None,
{
    let table = get_windows_to_x11_mapping();
    let ghost pairs = windows_x11_pairs();
    proof {
        assert(pairs.skip(0) =~= pairs);
    }
    let mut i: usize = 0;
    while i < table.len()
        invariant
            0 <= i <= table.len(),
            table_matches(table@, pairs),
            pairs == windows_x11_pairs(),
            spec_windows_to_x11(name@) == spec_table_lookup(pairs.skip(i as int), name@),
        decreases table.len() - i,
    {
        proof {
            assert(pairs.skip(i as int)[0] == pairs[i as int]);
            assert(pairs.skip(i as int).skip(1) =~= pairs.skip(i as int + 1));
        }
        if crate::text::str_eq(table[i].0, name) {
            return Some(table[i].1);
        }
        i = i + 1;
    }
    proof {
        assert(pairs.skip(pairs.len() as int) =~= Seq::<(Seq<char>, Seq<char>)>::empty());
    }
    None
}

/// The compatibility symlink table: each entry maps a link target to a
/// link name that should point at it.
pub open spec fn cursor_symlink_pairs() -> Seq<(Seq<char>, Seq<char>)> {
    seq![
        ("left_ptr"@, "arrow"@),
        ("left_ptr"@, "default"@),
        ("left_ptr"@, "top_left_arrow"@),
        ("pointer"@, "hand1"@),
        ("pointer"@, "hand2"@),
        ("pointer"@, "pointing_hand"@),
        ("pointer"@, "openhand"@),
        ("pointer"@, "grab"@),
        ("move"@, "fleur"@),
        ("move"@, "all-scroll"@),
        ("move"@, "size_all"@),
        ("wait"@, "watch"@),
        ("progress"@, "left_ptr_watch"@),
        ("crosshair"@, "cross"@),
        ("text"@, "xterm"@),
        ("text"@, "ibeam"@),
        ("pencil"@, "draft"@),
        ("question_arrow"@, "help"@),
        ("question_arrow"@, "whats_this"@),
        ("question_arrow"@, "left_ptr_help"@),
        ("not-allowed"@, "crossed_circle"@),
        ("not-allowed"@, "forbidden"@),
        ("not-allowed"@, "no_drop"@),
        ("not-allowed"@, "dnd_no_drop"@),
        ("size_hor"@, "sb_h_double_arrow"@),
        ("size_hor"@, "h_double_arrow"@),
        ("size_hor"@, "ew-resize"@),
        ("size_hor"@, "col-resize"@),
        ("size_hor"@, "split_h"@),
        ("size_ver"@, "sb_v_double_arrow"@),
        ("size_ver"@, "v_double_arrow"@),
        ("size_ver"@, "ns-resize"@),
        ("size_ver"@, "row-resize"@),
        ("size_ver"@, "split_v"@),
        ("size_bdiag"@, "fd_double_arrow"@),
        ("size_bdiag"@, "nesw-resize"@),
        ("size_fdiag"@, "bd_double_arrow"@),
        ("size_fdiag"@, "nwse-resize"@),
        ("left_ptr"@, "wayland-cursor"@),
        ("left_ptr_watch"@, "00000000000000020006000e7e9ffc3f"@),
        ("left_ptr_watch"@, "08e8e1c95fe2fc01f976f1e063a24ccd"@),
        ("left_ptr_watch"@, "3ecb610c1bf2410f44200f48c40d3599"@),
        ("sb_v_double_arrow"@, "00008160000006810000408080010102"@),
        ("sb_v_double_arrow"@, "2870a09082c103050810ffdffffe0204"@),
        ("sb_h_double_arrow"@, "028006030e0e7ebffc7f7070c0600140"@),
        ("sb_h_double_arrow"@, "14fef782d02440884392942c1120523"@),
        ("crossed_circle"@, "03b6e0fcb3499374a867c041f52298f0"@),
        ("question_arrow"@, "5c6cd98b3f3ebcb1f9c7f1c204630408"@),
        ("question_arrow"@, "d9ce0ab605698f320427677b458ad60b"@),
        ("move"@, "4498f0e0c1937ffe01fd06f973665830"@),
        ("move"@, "9081237383d90e509aa00f00170e968f"@),
        ("link"@, "3085a0e285430894940527032f8b26df"@),
        ("link"@, "640fb0e74195791501fd1ed57b41487f"@),
        ("link"@, "a2a266d0498c3104214a47bd64ab0fc8"@),
        ("hand2"@, "9d800788f1b08800ae810202380a0822"@),
        ("hand2"@, "e29285e634086352946a0e7090d73106"@),
        ("size_fdiag"@, "c7088f0f3e6c8088236ef8e1e3e70000"@),
        ("size_bdiag"@, "fcf1c3c7cd4491d801f1e1c78f100000"@),
        ("copy"@, "1081e37283d90000800003c07f3ef6bf"@),
        ("copy"@, "6407b0e94181790501fd1e167b474872"@),
        ("copy"@, "b66166c04f8c3109214a4fbd64a50fc8"@),
        ("dnd-link"@, "alias"@),
        ("plus"@, "cell"@),
        ("grabbing"@, "closedhand"@),
        ("tcross"@, "color-picker"@),
        ("cross"@, "cross_reverse"@),
        ("cross"@, "diamond_cross"@),
        ("grabbing"@, "dnd-move"@),
        ("grabbing"@, "dnd-none"@),
        ("dotbox"@, "dot_box_mask"@),
        ("sb_v_double_arrow"@, "double_arrow"@),
        ("sb_down_arrow"@, "down-arrow"@),
        ("right_ptr"@, "draft_large"@),
        ("right_ptr"@, "draft_small"@),
        ("dotbox"@, "draped_box"@),
        ("right_side"@, "e-resize"@),
        ("grabbing"@, "fcf21c00b30f7e3f83fe0dfd12e71cff"@),
        ("dotbox"@, "icon"@),
        ("sb_left_arrow"@, "left-arrow"@),
        ("top_right_corner"@, "ne-resize"@),
        ("dnd_no_drop"@, "no-drop"@),
        ("top_side"@, "n-resize"@),
        ("top_left_corner"@, "nw-resize"@),
        ("X_cursor"@, "pirate"@),
        ("sb_right_arrow"@, "right-arrow"@),
        ("bottom_right_corner"@, "se-resize"@),
        ("sb_h_double_arrow"@, "size-hor"@),
        ("sb_v_double_arrow"@, "size-ver"@),
        ("bottom_side"@, "s-resize"@),
        ("bottom_left_corner"@, "sw-resize"@),
        ("dotbox"@, "target"@),
        ("sb_up_arrow"@, "up-arrow"@),
        ("left_side"@, "w-resize"@),
        ("X_cursor"@, "x-cursor"@),
    ]
}

/// Common cursor symlinks for compatibility, as (target, link name)
/// pairs in the table's order.
#[verifier::rlimit(100)]
pub fn get_cursor_symlinks() -> (r: Vec<(&'static str, &'static str)>)
    ensures
        table_matches(r@, cursor_symlink_pairs()),
{
    let mut v: Vec<(&'static str, &'static str)> = Vec::new();
    v.push(("left_ptr", "arrow"));
    v.push(("left_ptr", "default"));
    v.push(("left_ptr", "top_left_arrow"));
    v.push(("pointer", "hand1"));
    v.push(("pointer", "hand2"));
    v.push(("pointer", "pointing_hand"));
    v.push(("pointer", "openhand"));
    v.push(("pointer", "grab"));
    v.push(("move", "fleur"));
    v.push(("move", "all-scroll"));
    v.push(("move", "size_all"));
    v.push(("wait", "watch"));
    v.push(("progress", "left_ptr_watch"));
    v.push(("crosshair", "cross"));
    v.push(("text", "xterm"));
    v.push(("text", "ibeam"));
    v.push(("pencil", "draft"));
    v.push(("question_arrow", "help"));
    v.push(("question_arrow", "whats_this"));
    v.push(("question_arrow", "left_ptr_help"));
    v.push(("not-allowed", "crossed_circle"));
    v.push(("not-allowed", "forbidden"));
    v.push(("not-allowed", "no_drop"));
    v.push(("not-allowed", "dnd_no_drop"));
    v.push(("size_hor", "sb_h_double_arrow"));
    v.push(("size_hor", "h_double_arrow"));
    v.push(("size_hor", "ew-resize"));
    v.push(("size_hor", "col-resize"));
    v.push(("size_hor", "split_h"));
    v.push(("size_ver", "sb_v_double_arrow"));
    v.push(("size_ver", "v_double_arrow"));
    v.push(("size_ver", "ns-resize"));
    v.push(("size_ver", "row-resize"));
    v.push(("size_ver", "split_v"));
    v.push(("size_bdiag", "fd_double_arrow"));
    v.push(("size_bdiag", "nesw-resize"));
    v.push(("size_fdiag", "bd_double_arrow"));
    v.push(("size_fdiag", "nwse-resize"));
    v.push(("left_ptr", "wayland-cursor"));
    v.push(("left_ptr_watch", "00000000000000020006000e7e9ffc3f"));
    v.push(("left_ptr_watch", "08e8e1c95fe2fc01f976f1e063a24ccd"));
    v.push(("left_ptr_watch", "3ecb610c1bf2410f44200f48c40d3599"));
    v.push(("sb_v_double_arrow", "00008160000006810000408080010102"));
    v.push(("sb_v_double_arrow", "2870a09082c103050810ffdffffe0204"));
    v.push(("sb_h_double_arrow", "028006030e0e7ebffc7f7070c0600140"));
    v.push(("sb_h_double_arrow", "14fef782d02440884392942c1120523"));
    v.push(("crossed_circle", "03b6e0fcb3499374a867c041f52298f0"));
    v.push(("question_arrow", "5c6cd98b3f3ebcb1f9c7f1c204630408"));
    v.push(("question_arrow", "d9ce0ab605698f320427677b458ad60b"));
    v.push(("move", "4498f0e0c1937ffe01fd06f973665830"));
    v.push(("move", "9081237383d90e509aa00f00170e968f"));
    v.push(("link", "3085a0e285430894940527032f8b26df"));
    v.push(("link", "640fb0e74195791501fd1ed57b41487f"));
    v.push(("link", "a2a266d0498c3104214a47bd64ab0fc8"));
    v.push(("hand2", "9d800788f1b08800ae810202380a0822"));
    v.push(("hand2", "e29285e634086352946a0e7090d73106"));
    v.push(("size_fdiag", "c7088f0f3e6c8088236ef8e1e3e70000"));
    v.push(("size_bdiag", "fcf1c3c7cd4491d801f1e1c78f100000"));
    v.push(("copy", "1081e37283d90000800003c07f3ef6bf"));
    v.push(("copy", "6407b0e94181790501fd1e167b474872"));
    v.push(("copy", "b66166c04f8c3109214a4fbd64a50fc8"));
    v.push(("dnd-link", "alias"));
    v.push(("plus", "cell"));
    v.push(("grabbing", "closedhand"));
    v.push(("tcross", "color-picker"));
    v.push(("cross", "cross_reverse"));
    v.push(("cross", "diamond_cross"));
    v.push(("grabbing", "dnd-move"));
    v.push(("grabbing", "dnd-none"));
    v.push(("dotbox", "dot_box_mask"));
    v.push(("sb_v_double_arrow", "double_arrow"));
    v.push(("sb_down_arrow", "down-arrow"));
    v.push(("right_ptr", "draft_large"));
    v.push(("right_ptr", "draft_small"));
    v.push(("dotbox", "draped_box"));
    v.push(("right_side", "e-resize"));
    v.push(("grabbing", "fcf21c00b30f7e3f83fe0dfd12e71cff"));
    v.push(("dotbox", "icon"));
    v.push(("sb_left_arrow", "left-arrow"));
    v.push(("top_right_corner", "ne-resize"));
    v.push(("dnd_no_drop", "no-drop"));
    v.push(("top_side", "n-resize"));
    v.push(("top_left_corner", "nw-resize"));
    v.push(("X_cursor", "pirate"));
    v.push(("sb_right_arrow", "right-arrow"));
    v.push(("bottom_right_corner", "se-resize"));
    v.push(("sb_h_double_arrow", "size-hor"));
    v.push(("sb_v_double_arrow", "size-ver"));
    v.push(("bottom_side", "s-resize"));
    v.push(("bottom_left_corner", "sw-resize"));
    v.push(("dotbox", "target"));
    v.push(("sb_up_arrow", "up-arrow"));
    v.push(("left_side", "w-resize"));
    v.push(("X_cursor", "x-cursor"));
    v
}

/// The hotspot of a cursor, as thousandths of the image size in x and
/// y.  The tip cursors anchor near the top-left corner, the hand
/// cursors at the fingertip, and the rest at the center.
pub open spec fn spec_cursor_hotspot(name: Seq<char>) -> (u32, u32) {
    if name == "left_ptr"@ || name == "not-allowed"@ || name == "unavailable"@ {
        (125, 125)
    } else if name == "text"@ || name == "xterm"@ || name == "ibeam"@ {
        (500, 500)
    } else if crate::text::starts_with(name, "pointer"@) || crate::text::starts_with(
        name,
        "hand"@,
    ) {
        (300, 125)
    } else if name == "pencil"@ {
        (125, 125)
    } else if name == "move"@ {
        (500, 500)
    } else if crate::text::starts_with(name, "size_"@) {
        (500, 500)
    } else {
        (500, 500)
    }
}

/// Get the hotspot ratio for a cursor, in thousandths of the image
/// size.
pub fn get_cursor_hotspot(cursor_name: &str) -> (r: (u32, u32))
    ensures
        r == spec_cursor_hotspot(cursor_name@),
{
    if crate::text::str_eq(cursor_name, "left_ptr") || crate::text::str_eq(
        cursor_name,
        "not-allowed",
    ) || crate::text::str_eq(cursor_name, "unavailable") {
        (125, 125)
    } else if crate::text::str_eq(cursor_name, "text") || crate::text::str_eq(cursor_name, "xterm")
        || crate::text::str_eq(cursor_name, "ibeam") {
        (500, 500)
    } else if crate::text::str_starts_with(cursor_name, "pointer") || crate::text::str_starts_with(
        cursor_name,
        "hand",
    ) {
        (300, 125)
    } else if crate::text::str_eq(cursor_name, "pencil") {
        (125, 125)
    } else if crate::text::str_eq(cursor_name, "move") {
        (500, 500)
    } else if crate::text::str_starts_with(cursor_name, "size_") {
        (500, 500)
    } else {
        (500, 500)
    }
}

} // verus!
