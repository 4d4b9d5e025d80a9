//! The contents of the theme metadata files: `index.theme`,
//! `cursor.theme`, and the hyprcursor `manifest.hl`.  Each builder
//! returns the full text of one file; writing it to disk is the
//! caller's business.

use vstd::prelude::*;
use crate::text::dec_rep;
use crate::text::u32_to_string;

verus! {

/// The sizes modern cursor themes carry.
pub open spec fn spec_standard_sizes() -> Seq<u32> {
    seq![24u32, 32u32, 48u32, 64u32, 72u32, 96u32]
}

/// Standard cursor sizes used by modern themes.
pub fn standard_sizes() -> (r: Vec<u32>)
    ensures
        r@ == spec_standard_sizes(),
{
    let mut v: Vec<u32> = Vec::new();
    v.push(24);
    v.push(32);
    v.push(48);
    v.push(64);
    v.push(72);
    v.push(96);
    proof {
        assert(v@ =~= spec_standard_sizes());
    }
    v
}

/// The fixed part of an `index.theme` file, around the theme's name
/// and comment.
pub open spec fn index_theme_header(name: Seq<char>, comment: Seq<char>) -> Seq<char> {
    "[Icon Theme]\nName="@ + name + "\nComment="@ + comment
        + "\nInherits=hicolor\n\n# Directory list\nDirectories=cursors\n\n[cursors]\nContext=Cursors\nType=Fixed\n"@
}

/// The `index.theme` section that declares one cursor size.
pub open spec fn size_section(size: u32) -> Seq<char> {
    "\n[cursors/"@ + dec_rep(size as nat) + "]\nSize="@ + dec_rep(size as nat)
        + "\nContext=Cursors\nType=Fixed\n"@
}

/// The size sections for a list of sizes, in order.
pub open spec fn size_sections(sizes: Seq<u32>) -> Seq<char>
    decreases sizes.len(),
{
    if sizes.len() == 0 {
        seq![]
    } else {
        size_section(sizes[0]) + size_sections(sizes.skip(1))
    }
}

/// The full text of an `index.theme` file: the header, then one
/// section for each size if sizes are given.
pub open spec fn index_theme_content(
    name: Seq<char>,
    comment: Seq<char>,
    sizes: Option<Seq<u32>>,
) -> Seq<char> {
    match sizes {
        None => index_theme_header(name, comment),
        Some(ss) => index_theme_header(name, comment) + size_sections(ss),
    }
}

/// Build the text of an `index.theme` file for a cursor theme.
pub fn create_index_theme(theme_name: &str, comment: &str, sizes: Option<&Vec<u32>>) -> (r: String)
    ensures
        (r@ == index_theme_content(
            theme_name@,
            comment@,
            match sizes {
                Some(v) => Some(v@),
                None => None,
            },
        )),
{
    let mut s = "[Icon Theme]\nName=".to_owned();
    s.append(theme_name);
    s.append("\nComment=");
    s.append(comment);
    s.append(
        "\nInherits=hicolor\n\n# Directory list\nDirectories=cursors\n\n[cursors]\nContext=Cursors\nType=Fixed\n",
    );
    match sizes {
        None => s,
        Some(v) => {
            let ghost header = index_theme_header(theme_name@, comment@);
            proof {
                assert(v@.skip(0) =~= v@);
            }
            let mut i: usize = 0;
            while i < v.len()
                invariant
                    0 <= i <= v.len(),
                    header + size_sections(v@) == s@ + size_sections(v@.skip(i as int)),
                decreases v.len() - i,
            {
                proof {
                    assert(v@.skip(i as int)[0] == v@[i as int]);
                    assert(v@.skip(i as int).skip(1) =~= v@.skip(i as int + 1));
                }
                s.append("\n[cursors/");
                s.append(u32_to_string(v[i]).as_str());
                s.append("]\nSize=");
                s.append(u32_to_string(v[i]).as_str());
                s.append("\nContext=Cursors\nType=Fixed\n");
                i = i + 1;
            }
            proof {
                assert(v@.skip(v@.len() as int) =~= Seq::<u32>::empty());
                assert(s@ =~= header + size_sections(v@));
            }
            s
        },
    }
}

/// The full text of a `cursor.theme` file: the theme names itself as
/// what it inherits.
pub open spec fn cursor_theme_content(name: Seq<char>, comment: Seq<char>) -> Seq<char> {
    "[Icon Theme]\nName="@ + name + "\nComment="@ + comment + "\nInherits="@ + name + "\n"@
}

/// Build the text of a `cursor.theme` file for a cursor theme.
pub fn create_cursor_theme(theme_name: &str, comment: &str) -> (r: String)
    ensures
        r@ == cursor_theme_content(theme_name@, comment@),
{
    let mut s = "[Icon Theme]\nName=".to_owned();
    s.append(theme_name);
    s.append("\nComment=");
    s.append(comment);
    s.append("\nInherits=");
    s.append(theme_name);
    s.append("\n");
    s
}

/// Build the texts of both theme configuration files: the
/// `index.theme` text first, the `cursor.theme` text second.
pub fn create_theme_files(theme_name: &str, comment: &str, sizes: Option<&Vec<u32>>) -> (r: (
    String,
    String,
))
    ensures
        (r.0@ == index_theme_content(
            theme_name@,
            comment@,
            match sizes {
                Some(v) => Some(v@),
                None => None,
            },
        )),
        r.1@ == cursor_theme_content(theme_name@, comment@),
{
    let index = create_index_theme(theme_name, comment, sizes);
    let cursor = create_cursor_theme(theme_name, comment);
    (index, cursor)
}

/// The full text of a hyprcursor `manifest.hl` file.
pub open spec fn hyprcursor_manifest_content(
    name: Seq<char>,
    description: Seq<char>,
    version: Seq<char>,
) -> Seq<char> {
    "name = "@ + name + "\ndescription = "@ + description + "\nversion = "@ + version
        + "\ncursors_directory = cursors\n"@
}

/// Build the text of a hyprcursor `manifest.hl` file.
pub fn create_hyprcursor_manifest(theme_name: &str, description: &str, version: &str) -> (r:
    String)
    ensures
        r@ == hyprcursor_manifest_content(theme_name@, description@, version@),
{
    let mut s = "name = ".to_owned();
    s.append(theme_name);
    s.append("\ndescription = ");
    s.append(description);
    s.append("\nversion = ");
    s.append(version);
    s.append("\ncursors_directory = cursors\n");
    s
}

} // verus!
