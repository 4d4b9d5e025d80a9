//! Building a hyprcursor theme from an existing animated theme: the
//! verified rewrite of the extracted manifest, the names of the
//! working directories, the argument lists handed to the conversion
//! tool, and the contents of the theme's configuration files.

use vstd::prelude::*;
use crate::text::{
    spec_lines, spec_unlines, split_lines, join_lines, starts_with, str_starts_with,
};

verus! {

/// Arguments for the create-hyprcursor command.
#[derive(Debug)]
pub struct CreateHyprcursorArgs {
    pub source_theme: String,
    pub dest_theme: String,
}

/// The comment that the hyprcursor theme files carry.
pub open spec fn hyprcursor_comment() -> Seq<char> {
    "Koosh cursor theme with hyprcursor support for Wayland"@
}

/// One manifest line after the rewrite: the name line gets the new
/// theme name, the description and version lines get their fixed new
/// values, and every other line stays as it is.
pub open spec fn spec_manifest_line(line: Seq<char>, dest_theme: Seq<char>) -> Seq<char> {
    if starts_with(line, "name = "@) {
        "name = "@ + dest_theme
    } else if starts_with(line, "description = "@) {
        "description = "@ + hyprcursor_comment()
    } else if starts_with(line, "version = "@) {
        "version = 1.0"@
    } else {
        line
    }
}

/// The whole manifest after the rewrite: each line rewritten, joined
/// back with single line feeds and no final one.
pub open spec fn spec_manifest_update(content: Seq<char>, dest_theme: Seq<char>) -> Seq<char> {
    spec_unlines(spec_lines(content).map_values(|l: Seq<char>| spec_manifest_line(l, dest_theme)))
}

/// Rewrite an extracted manifest for the destination theme.
pub fn update_manifest_content(content: &str, dest_theme: &str) -> (r: String)
    ensures
        r@ == spec_manifest_update(content@, dest_theme@),
{
    let lines = split_lines(content);
    let ghost ls = lines@.map_values(|l: String| l@);
    let mut out: Vec<String> = Vec::new();
    let mut i: usize = 0;
    while i < lines.len()
        invariant
            0 <= i <= lines.len(),
            ls == lines@.map_values(|l: String| l@),
            out@.len() == i,
            forall|j: int|
                0 <= j < i ==> (#[trigger] out@[j])@ == spec_manifest_line(ls[j], dest_theme@),
        decreases lines.len() - i,
    {
        let line = &lines[i];
        let new_line: String = if str_starts_with(line.as_str(), "name = ") {
            let mut s = "name = ".to_owned();
            s.append(dest_theme);
            s
        } else if str_starts_with(line.as_str(), "description = ") {
            let mut s = "description = ".to_owned();
            s.append("Koosh cursor theme with hyprcursor support for Wayland");
            s
        } else if str_starts_with(line.as_str(), "version = ") {
            "version = 1.0".to_owned()
        } else {
            line.clone()
        };
        out.push(new_line);
        i = i + 1;
    }
    proof {
        assert(out@.map_values(|l: String| l@) =~= ls.map_values(
            |l: Seq<char>| spec_manifest_line(l, dest_theme@),
        ));
    }
    join_lines(&out)
}

/// The directory the conversion tool extracts a theme into.
pub fn extracted_dir_name(source_theme: &str) -> (r: String)
    ensures
        r@ == "extracted_"@ + source_theme@,
{
    let mut s = "extracted_".to_owned();
    s.append(source_theme);
    s
}

/// The directory the conversion tool writes a built theme into.
pub fn theme_output_dir_name(dest_theme: &str) -> (r: String)
    ensures
        r@ == "theme_"@ + dest_theme@,
{
    let mut s = "theme_".to_owned();
    s.append(dest_theme);
    s
}

/// The arguments that ask the conversion tool to extract a theme.
pub fn hyprcursor_extract_args(source_path: &str, output_dir: &str) -> (r: Vec<String>)
    ensures
        r@.map_values(|a: String| a@) == seq!["--extract"@, source_path@, "--output"@, output_dir@],
{
    let mut v: Vec<String> = Vec::new();
    v.push("--extract".to_owned());
    v.push(source_path.to_owned());
    v.push("--output".to_owned());
    v.push(output_dir.to_owned());
    proof {
        assert(v@.map_values(|a: String| a@) =~= seq![
            "--extract"@,
            source_path@,
            "--output"@,
            output_dir@,
        ]);
    }
    v
}

/// The arguments that ask the conversion tool to build a theme.
pub fn hyprcursor_create_args(extracted_dir: &str, output_dir: &str) -> (r: Vec<String>)
    ensures
        r@.map_values(|a: String| a@) == seq!["--create"@, extracted_dir@, "--output"@, output_dir@],
{
    let mut v: Vec<String> = Vec::new();
    v.push("--create".to_owned());
    v.push(extracted_dir.to_owned());
    v.push("--output".to_owned());
    v.push(output_dir.to_owned());
    proof {
        assert(v@.map_values(|a: String| a@) =~= seq![
            "--create"@,
            extracted_dir@,
            "--output"@,
            output_dir@,
        ]);
    }
    v
}

/// The full text of the hyprcursor theme's `index.theme` file, which
/// declares both the X11 and the hyprcursor cursor directories.
pub open spec fn hyprcursor_index_theme_content(name: Seq<char>) -> Seq<char> {
    "[Icon Theme]\nName="@ + name + "\nComment="@ + hyprcursor_comment()
        + "\nInherits=hicolor\n\n# Directory list\nDirectories=cursors hyprcursors\n\n[cursors]\nContext=Cursors\nType=Fixed\n\n[hyprcursors]\nContext=Cursors\nType=Fixed\n"@
}

/// Build the text of the hyprcursor theme's `index.theme` file.
pub fn create_hyprcursor_index_theme(theme_name: &str) -> (r: String)
    ensures
        r@ == hyprcursor_index_theme_content(theme_name@),
{
    let mut s = "[Icon Theme]\nName=".to_owned();
    s.append(theme_name);
    s.append("\nComment=");
    s.append("Koosh cursor theme with hyprcursor support for Wayland");
    s.append(
        "\nInherits=hicolor\n\n# Directory list\nDirectories=cursors hyprcursors\n\n[cursors]\nContext=Cursors\nType=Fixed\n\n[hyprcursors]\nContext=Cursors\nType=Fixed\n",
    );
    s
}

} // verus!
