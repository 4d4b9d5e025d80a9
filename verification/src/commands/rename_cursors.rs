//! Renaming cursor files from Windows names to X11 names: the verified
//! planning of which files are copied under which new name.

use vstd::prelude::*;
use crate::cursor_mapping::{spec_windows_to_x11, windows_to_x11};

verus! {

/// Arguments for the rename-cursors command.
#[derive(Debug)]
pub struct RenameCursorsArgs {
    pub input_dir: String,
    pub output_theme: String,
}

/// The rename plan for a list of file names: each file whose name the
/// Windows-to-X11 mapping knows is paired with its X11 name, in the
/// input's order; the rest are skipped.
pub open spec fn spec_rename_plan(files: Seq<Seq<char>>) -> Seq<(Seq<char>, Seq<char>)>
    decreases files.len(),
{
    if files.len() == 0 {
        seq![]
    } else {
        let rest = spec_rename_plan(files.skip(1));
        match spec_windows_to_x11(files[0]) {
            Some(x11) => seq![(files[0], x11)] + rest,
            None => rest,
        }
    }
}

/// A rename plan held in executable form agrees entry for entry with
/// its mathematical model.
pub open spec fn rename_plan_matches(
    v: Seq<(String, &str)>,
    t: Seq<(Seq<char>, Seq<char>)>,
) -> bool {
    &&& v.len() == t.len()
    &&& forall|i: int|
        0 <= i < v.len() ==> (#[trigger] v[i]).0@ == t[i].0 && v[i].1@ == t[i].1
}

/// Plan the renames for the given file names: each pair holds the
/// original file name and the X11 name it is copied to.
pub fn plan_renames(files: &Vec<String>) -> (r: Vec<(String, &'static str)>)
    ensures
        rename_plan_matches(r@, spec_rename_plan(files@.map_values(|f: String| f@))),
{
    let ghost fs = files@.map_values(|f: String| f@);
    let mut out: Vec<(String, &'static str)> = Vec::new();
    let ghost done: Seq<(Seq<char>, Seq<char>)> = seq![];
    proof {
        assert(fs.skip(0) =~= fs);
        assert(done + spec_rename_plan(fs) =~= spec_rename_plan(fs));
    }
    let mut i: usize = 0;
    while i < files.len()
        invariant
            0 <= i <= files.len(),
            fs == files@.map_values(|f: String| f@),
            rename_plan_matches(out@, done),
            spec_rename_plan(fs) == done + spec_rename_plan(fs.skip(i as int)),
        decreases files.len() - i,
    {
        proof {
            assert(fs.skip(i as int)[0] == fs[i as int]);
            assert(fs.skip(i as int).skip(1) =~= fs.skip(i as int + 1));
        }
        let ghost done_old = done;
        match windows_to_x11(files[i].as_str()) {
            Some(x11) => {
                out.push((files[i].clone(), x11));
                proof {
                    done = done_old + seq![(fs[i as int], x11@)];
                    assert(rename_plan_matches(out@, done));
                    assert(done + spec_rename_plan(fs.skip(i as int + 1)) =~= done_old + (seq![
                        (fs[i as int], x11@),
                    ] + spec_rename_plan(fs.skip(i as int + 1))));
                }
            },
            None => {},
        }
        i = i + 1;
    }
    proof {
        assert(fs.skip(fs.len() as int) =~= Seq::<Seq<char>>::empty());
        assert(done + spec_rename_plan(fs.skip(fs.len() as int)) =~= done);
    }
    out
}

} // verus!
