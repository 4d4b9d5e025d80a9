//! Adding compatibility symlinks to a cursor theme: the verified
//! planning of which links are created, and the search order for the
//! cursor source directory.

use vstd::prelude::*;
use crate::cursor_mapping::{cursor_symlink_pairs, get_cursor_symlinks, table_matches};
use crate::text::str_eq;
use crate::{path_join, path_exists, CursorError};

verus! {

/// Arguments for the add-links command.
#[derive(Debug)]
pub struct AddLinksArgs {
    pub theme_name: String,
    pub source_dir: Option<String>,
}

/// The set of character sequences named by a list of strings.
pub open spec fn names_set(names: Seq<String>) -> Set<Seq<char>> {
    names.map_values(|s: String| s@).to_set()
}

/// Appending one name inserts its character sequence into the set.
proof fn lemma_names_set_push(names: Seq<String>, x: String)
    ensures
        names_set(names.push(x)) == names_set(names).insert(x@),
{
    let m0 = names.map_values(|s: String| s@);
    let m1 = names.push(x).map_values(|s: String| s@);
    assert(m1 =~= m0.push(x@));
    assert forall|e: Seq<char>|
        names_set(names.push(x)).contains(e) <==> names_set(names).insert(x@).contains(e) by {
        if m0.push(x@).contains(e) {
            let i = choose|i: int| 0 <= i < m0.push(x@).len() && m0.push(x@)[i] == e;
            if i < m0.len() {
                assert(m0[i] == e);
            }
        }
        if m0.contains(e) {
            let i = choose|i: int| 0 <= i < m0.len() && m0[i] == e;
            assert(m0.push(x@)[i] == e);
        }
        if e == x@ {
            assert(m0.push(x@)[m0.len() as int] == e);
        }
    }
    assert(names_set(names.push(x)) =~= names_set(names).insert(x@));
}

/// Is a name among the listed names?
fn contains_name(names: &Vec<String>, name: &str) -> (r: bool)
    ensures
        r == names_set(names@).contains(name@),
{
    let ghost m = names@.map_values(|s: String| s@);
    let mut i: usize = 0;
    while i < names.len()
        invariant
            0 <= i <= names.len(),
            m == names@.map_values(|s: String| s@),
            forall|j: int| 0 <= j < i ==> m[j] != name@,
        decreases names.len() - i,
    {
        if str_eq(names[i].as_str(), name) {
            proof {
                assert(m[i as int] == name@);
            }
            return true;
        }
        i = i + 1;
    }
    false
}

/// The symlink plan for a table of (target, link) pairs, given the set
/// of names already present: an entry is planned when its target is
/// present and its link name is not, and a planned link counts as
/// present for the entries after it.
pub open spec fn spec_symlink_plan_from(
    table: Seq<(Seq<char>, Seq<char>)>,
    present: Set<Seq<char>>,
) -> Seq<(Seq<char>, Seq<char>)>
    decreases table.len(),
{
    if table.len() == 0 {
        seq![]
    } else {
        let target = table[0].0;
        let link = table[0].1;
        if present.contains(target) && !present.contains(link) {
            seq![(target, link)] + spec_symlink_plan_from(table.skip(1), present.insert(link))
        } else {
            spec_symlink_plan_from(table.skip(1), present)
        }
    }
}

/// The symlink plan over the full compatibility table.
pub open spec fn spec_symlink_plan(present: Set<Seq<char>>) -> Seq<(Seq<char>, Seq<char>)> {
    spec_symlink_plan_from(cursor_symlink_pairs(), present)
}

/// Plan the compatibility symlinks to create in a cursors directory
/// holding the given names: each pair holds the link target and the
/// link name, in the table's order.
pub fn plan_symlinks(existing: &Vec<String>) -> (r: Vec<(&'static str, &'static str)>)
    ensures
        table_matches(r@, spec_symlink_plan(names_set(existing@))),
{
    let table = get_cursor_symlinks();
    let ghost pairs = cursor_symlink_pairs();
    let mut present: Vec<String> = Vec::new();
    let mut i: usize = 0;
    while i < existing.len()
        invariant
            0 <= i <= existing.len(),
            present@.len() == i,
            forall|j: int| 0 <= j < i ==> (#[trigger] present@[j])@ == existing@[j]@,
        decreases existing.len() - i,
    {
        present.push(existing[i].clone());
        i = i + 1;
    }
    proof {
        assert(present@.map_values(|s: String| s@) =~= existing@.map_values(|s: String| s@));
        assert(names_set(present@) == names_set(existing@));
    }
    let ghost init = names_set(existing@);
    let mut out: Vec<(&'static str, &'static str)> = Vec::new();
    let ghost done: Seq<(Seq<char>, Seq<char>)> = seq![];
    proof {
        assert(pairs.skip(0) =~= pairs);
        assert(done + spec_symlink_plan(init) =~= spec_symlink_plan(init));
    }
    let mut k: usize = 0;
    while k < table.len()
        invariant
            0 <= k <= table.len(),
            pairs == cursor_symlink_pairs(),
            table_matches(table@, pairs),
            table_matches(out@, done),
            spec_symlink_plan(init) == done + spec_symlink_plan_from(
                pairs.skip(k as int),
                names_set(present@),
            ),
        decreases table.len() - k,
    {
        proof {
            assert(pairs.skip(k as int)[0] == pairs[k as int]);
            assert(pairs.skip(k as int).skip(1) =~= pairs.skip(k as int + 1));
        }
        let target = table[k].0;
        let link = table[k].1;
        let ghost done_old = done;
        let ghost present_old = present@;
        if contains_name(&present, target) && !contains_name(&present, link) {
            out.push((target, link));
            present.push(link.to_owned());
            proof {
                done = done_old + seq![(target@, link@)];
                lemma_names_set_push(present_old, present@.last());
                assert(table_matches(out@, done));
                assert(done + spec_symlink_plan_from(pairs.skip(k as int + 1), names_set(present@))
                    =~= done_old + (seq![(target@, link@)] + spec_symlink_plan_from(
                    pairs.skip(k as int + 1),
                    names_set(present@),
                )));
            }
        }
        k = k + 1;
    }
    proof {
        assert(pairs.skip(pairs.len() as int) =~= Seq::<(Seq<char>, Seq<char>)>::empty());
        assert(done + spec_symlink_plan_from(
            pairs.skip(pairs.len() as int),
            names_set(present@),
        ) =~= done);
    }
    out
}

/// Pick the cursor source from the candidates' existence answers: the
/// explicitly given directory wins when it is present, then `cursors`
/// under the current directory, then `Koosh/cursors` there, then
/// `Koosh/cursors` under the user's icons directory; when none is
/// present the search reports that no cursor theme was found.
pub fn choose_cursor_source(
    source_dir: &Option<String>,
    source_exists: bool,
    current_dir: &str,
    cwd_cursors_exists: bool,
    cwd_koosh_exists: bool,
    icons_dir: &str,
    icons_koosh_exists: bool,
) -> (r: Result<String, CursorError>)
    ensures
        source_dir matches Some(d) ==> source_exists ==> (r matches Ok(p) && p@ == d@),
        (source_dir is None || !source_exists) && cwd_cursors_exists ==> (r matches Ok(p) && p@
            == path_join(current_dir@, "cursors"@)),
        (source_dir is None || !source_exists) && !cwd_cursors_exists && cwd_koosh_exists ==> (
        r matches Ok(p) && p@ == path_join(path_join(current_dir@, "Koosh"@), "cursors"@)),
        (source_dir is None || !source_exists) && !cwd_cursors_exists && !cwd_koosh_exists
            && icons_koosh_exists ==> (r matches Ok(p) && p@ == path_join(
            path_join(icons_dir@, "Koosh"@),
            "cursors"@,
        )),
        (source_dir is None || !source_exists) && !cwd_cursors_exists && !cwd_koosh_exists
            && !icons_koosh_exists ==> (r matches Err(e) && e is CursorNotFound),
{
    match source_dir {
        Some(dir) => {
            if source_exists {
                return Ok(dir.clone());
            }
        },
        None => {},
    }
    if cwd_cursors_exists {
        return Ok(crate::join_path(current_dir, "cursors"));
    }
    if cwd_koosh_exists {
        return Ok(crate::join_path(crate::join_path(current_dir, "Koosh").as_str(), "cursors"));
    }
    if icons_koosh_exists {
        return Ok(crate::join_path(crate::join_path(icons_dir, "Koosh").as_str(), "cursors"));
    }
    Err(
        CursorError::CursorNotFound(
            "Could not find Koosh cursor theme; run from the Koosh directory or name the source directory".to_owned(),
        ),
    )
}

/// Search for the directory holding the cursor files.  The file system
/// is asked about each candidate, and `choose_cursor_source` turns the
/// answers into the choice: the explicitly given directory first, then
/// `cursors` and `Koosh/cursors` under the current directory, then
/// `Koosh/cursors` under the user's icons directory.
pub fn find_cursor_source(
    source_dir: &Option<String>,
    current_dir: &str,
    icons_dir: &str,
) -> (r: Result<String, CursorError>)
    ensures
        (r matches Ok(p) ==> {
            ||| (source_dir matches Some(d) && p@ == d@)
            ||| p@ == path_join(current_dir@, "cursors"@)
            ||| p@ == path_join(path_join(current_dir@, "Koosh"@), "cursors"@)
            ||| p@ == path_join(path_join(icons_dir@, "Koosh"@), "cursors"@)
        }),
        r matches Err(e) ==> e is CursorNotFound,
{
    let source_exists = match source_dir {
        Some(dir) => path_exists(dir.as_str()),
        None => false,
    };
    let cwd_cursors = crate::join_path(current_dir, "cursors");
    let cwd_cursors_exists = path_exists(cwd_cursors.as_str());
    let cwd_koosh = crate::join_path(crate::join_path(current_dir, "Koosh").as_str(), "cursors");
    let cwd_koosh_exists = path_exists(cwd_koosh.as_str());
    let icons_koosh = crate::join_path(crate::join_path(icons_dir, "Koosh").as_str(), "cursors");
    let icons_koosh_exists = path_exists(icons_koosh.as_str());
    choose_cursor_source(
        source_dir,
        source_exists,
        current_dir,
        cwd_cursors_exists,
        cwd_koosh_exists,
        icons_dir,
        icons_koosh_exists,
    )
}

} // verus!
