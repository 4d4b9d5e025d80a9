//! Building a multi-size animated cursor theme: the verified counting
//! of extracted frames, the hotspot arithmetic, the file names of the
//! scaled frames, the scaling commands, and the assembly of the cursor
//! generator's configuration.

use vstd::prelude::*;
use crate::text::{
    dec_rep, ends_with, frame_label, frame_label_rep, starts_with, str_ends_with, str_starts_with,
    u32_to_string,
};

verus! {

/// Arguments for the create-animated command.
#[derive(Debug)]
pub struct CreateAnimatedArgs {
    pub input_theme: String,
    pub output_theme: String,
}

/// The name of an extracted animation frame: the cursor's name, an
/// underscore, the three-digit frame label, and the image suffix.
pub open spec fn spec_frame_file(cursor: Seq<char>, frame: nat) -> Seq<char> {
    cursor + "_"@ + frame_label_rep(frame) + ".png"@
}

/// Build the file name of an extracted animation frame.
pub fn frame_png_name(cursor_name: &str, frame: u32) -> (r: String)
    ensures
        r@ == spec_frame_file(cursor_name@, frame as nat),
{
    let mut s = cursor_name.to_owned();
    s.append("_");
    s.append(frame_label(frame).as_str());
    s.append(".png");
    s
}

/// The name of a scaled frame: the size, an underscore, the
/// three-digit frame label, and the image suffix.
pub open spec fn spec_sized_file(size: u32, frame: nat) -> Seq<char> {
    dec_rep(size as nat) + "_"@ + frame_label_rep(frame) + ".png"@
}

/// Build the file name of a scaled frame.
pub fn sized_png_name(size: u32, frame: u32) -> (r: String)
    ensures
        r@ == spec_sized_file(size, frame as nat),
{
    let mut s = u32_to_string(size);
    s.append("_");
    s.append(frame_label(frame).as_str());
    s.append(".png");
    s
}

/// Is this file an extracted frame of the named cursor?
pub open spec fn is_frame_file(name: Seq<char>, cursor: Seq<char>) -> bool {
    starts_with(name, cursor + "_"@) && ends_with(name, ".png"@)
}

/// How many of the names are frames of the named cursor.
pub open spec fn spec_frame_count(names: Seq<Seq<char>>, cursor: Seq<char>) -> int
    decreases names.len(),
{
    if names.len() == 0 {
        0
    } else {
        spec_frame_count(names.skip(1), cursor) + if is_frame_file(names[0], cursor) {
            1int
        } else {
            0int
        }
    }
}

/// Count the extracted frame images of a cursor among the given file
/// names.
pub fn count_extracted_frames(names: &Vec<String>, cursor_name: &str) -> (r: usize)
    ensures
        r == spec_frame_count(names@.map_values(|n: String| n@), cursor_name@),
{
    let ghost ns = names@.map_values(|n: String| n@);
    let mut prefix = cursor_name.to_owned();
    prefix.append("_");
    let mut count: usize = 0;
    proof {
        assert(ns.skip(0) =~= ns);
    }
    let mut i: usize = 0;
    while i < names.len()
        invariant
            0 <= i <= names.len(),
            count <= i,
            ns == names@.map_values(|n: String| n@),
            prefix@ == cursor_name@ + "_"@,
            spec_frame_count(ns, cursor_name@) == count + spec_frame_count(
                ns.skip(i as int),
                cursor_name@,
            ),
        decreases names.len() - i,
    {
        proof {
            assert(ns.skip(i as int)[0] == ns[i as int]);
            assert(ns.skip(i as int).skip(1) =~= ns.skip(i as int + 1));
        }
        if str_starts_with(names[i].as_str(), prefix.as_str()) && str_ends_with(
            names[i].as_str(),
            ".png",
        ) {
            count = count + 1;
        }
        i = i + 1;
    }
    proof {
        assert(ns.skip(ns.len() as int) =~= Seq::<Seq<char>>::empty());
    }
    count
}

/// A hotspot coordinate: the size scaled by a ratio in thousandths,
/// rounded down, but never less than one pixel.
pub open spec fn spec_hotspot_coord(size: int, ratio_mil: int) -> int {
    let v = (size * ratio_mil) / 1000;
    if v < 1 {
        1
    } else {
        v
    }
}

/// Compute a hotspot coordinate for a cursor size.
pub fn hotspot_coord(size: u32, ratio_mil: u32) -> (r: u32)
    requires
        ratio_mil <= 1000,
    ensures
        r as int == spec_hotspot_coord(size as int, ratio_mil as int),
        r <= size || r == 1,
{
    proof {
        assert(size as int * ratio_mil as int <= size as int * 1000) by (nonlinear_arith)
            requires
                ratio_mil <= 1000,
                size >= 0,
        ;
    }
    let p: u64 = (size as u64) * (ratio_mil as u64);
    let c: u64 = p / 1000;
    if c < 1 {
        1
    } else {
        c as u32
    }
}

/// One line of the cursor generator's configuration: the size, the two
/// hotspot coordinates, the scaled frame's file name, and the fixed
/// frame delay of one hundred milliseconds.
pub open spec fn spec_config_line(size: u32, hx: int, hy: int, frame: nat) -> Seq<char> {
    dec_rep(size as nat) + " "@ + dec_rep(hx as nat) + " "@ + dec_rep(hy as nat) + " "@
        + spec_sized_file(size, frame) + " 100\n"@
}

/// Build one configuration line.
fn config_line(size: u32, hx: u32, hy: u32, frame: u32) -> (r: String)
    ensures
        r@ == spec_config_line(size, hx as int, hy as int, frame as nat),
{
    let mut s = u32_to_string(size);
    s.append(" ");
    s.append(u32_to_string(hx).as_str());
    s.append(" ");
    s.append(u32_to_string(hy).as_str());
    s.append(" ");
    s.append(sized_png_name(size, frame).as_str());
    s.append(" 100\n");
    s
}

/// The configuration lines of one size: one line for each frame that
/// was extracted, in frame order, starting at frame `f`.
pub open spec fn spec_size_config(
    size: u32,
    hx: int,
    hy: int,
    present: Seq<bool>,
    f: nat,
) -> Seq<char>
    decreases present.len(),
{
    if present.len() == 0 {
        seq![]
    } else {
        let rest = spec_size_config(size, hx, hy, present.skip(1), f + 1);
        if present[0] {
            spec_config_line(size, hx, hy, f) + rest
        } else {
            rest
        }
    }
}

/// The whole configuration: the lines of each size in the sizes'
/// order, with the hotspot recomputed for each size from the ratios.
pub open spec fn spec_multi_config(
    sizes: Seq<u32>,
    hx_mil: u32,
    hy_mil: u32,
    present: Seq<bool>,
) -> Seq<char>
    decreases sizes.len(),
{
    if sizes.len() == 0 {
        seq![]
    } else {
        let s = sizes[0];
        let hx = spec_hotspot_coord(s as int, hx_mil as int);
        let hy = spec_hotspot_coord(s as int, hy_mil as int);
        spec_size_config(s, hx, hy, present, 0) + spec_multi_config(
            sizes.skip(1),
            hx_mil,
            hy_mil,
            present,
        )
    }
}

/// One image-preparation step of a multi-size cursor: produce
/// `dst_name` at `size` from the extracted frame `src_name`, scaling
/// it unless the frame is already that size.
#[derive(Debug)]
pub struct FrameOp {
    pub src_name: String,
    pub dst_name: String,
    pub size: u32,
    pub scale: bool,
}

/// A list of frame operations agrees entry for entry with its
/// mathematical model of (source, destination, size, scale) tuples.
pub open spec fn ops_match(v: Seq<FrameOp>, t: Seq<(Seq<char>, Seq<char>, u32, bool)>) -> bool {
    &&& v.len() == t.len()
    &&& forall|i: int|
        0 <= i < v.len() ==> {
            let op = #[trigger] v[i];
            op.src_name@ == t[i].0 && op.dst_name@ == t[i].1 && op.size == t[i].2 && op.scale
                == t[i].3
        }
}

/// The frame operations of one size, in frame order, starting at
/// frame `f`: each extracted frame is copied when the size is the
/// original one and scaled otherwise.
pub open spec fn spec_size_ops(
    cursor: Seq<char>,
    size: u32,
    orig: u32,
    present: Seq<bool>,
    f: nat,
) -> Seq<(Seq<char>, Seq<char>, u32, bool)>
    decreases present.len(),
{
    if present.len() == 0 {
        seq![]
    } else {
        let rest = spec_size_ops(cursor, size, orig, present.skip(1), f + 1);
        if present[0] {
            seq![(spec_frame_file(cursor, f), spec_sized_file(size, f), size, size != orig)] + rest
        } else {
            rest
        }
    }
}

/// The frame operations of all sizes, in the sizes' order.
pub open spec fn spec_multi_ops(
    cursor: Seq<char>,
    sizes: Seq<u32>,
    orig: u32,
    present: Seq<bool>,
) -> Seq<(Seq<char>, Seq<char>, u32, bool)>
    decreases sizes.len(),
{
    if sizes.len() == 0 {
        seq![]
    } else {
        spec_size_ops(cursor, sizes[0], orig, present, 0) + spec_multi_ops(
            cursor,
            sizes.skip(1),
            orig,
            present,
        )
    }
}

/// Plan a multi-size cursor from its extracted frames.  `frames_present`
/// says, for each frame number from zero up, whether the frame's image
/// was extracted.  The result holds the cursor generator's full
/// configuration text and the image-preparation steps that make the
/// scaled frames the configuration names.
pub fn build_multi_size_plan(
    cursor_name: &str,
    sizes: &Vec<u32>,
    orig_size: u32,
    hotspot_mil: (u32, u32),
    frames_present: &Vec<bool>,
) -> (r: (String, Vec<FrameOp>))
    requires
        hotspot_mil.0 <= 1000,
        hotspot_mil.1 <= 1000,
        frames_present@.len() <= 0xffff_ffff,
    ensures
        r.0@ == spec_multi_config(sizes@, hotspot_mil.0, hotspot_mil.1, frames_present@),
        ops_match(
            r.1@,
            spec_multi_ops(cursor_name@, sizes@, orig_size, frames_present@),
        ),
{
    let ghost full_config = spec_multi_config(sizes@, hotspot_mil.0, hotspot_mil.1, frames_present@);
    let ghost full_ops = spec_multi_ops(cursor_name@, sizes@, orig_size, frames_present@);
    let ghost fp = frames_present@;
    let mut config = String::new();
    let mut ops: Vec<FrameOp> = Vec::new();
    let ghost done_ops: Seq<(Seq<char>, Seq<char>, u32, bool)> = seq![];
    proof {
        assert(sizes@.skip(0) =~= sizes@);
        assert(done_ops + full_ops =~= full_ops);
    }
    let mut si: usize = 0;
    while si < sizes.len()
        invariant
            0 <= si <= sizes.len(),
            fp == frames_present@,
            fp.len() <= 0xffff_ffff,
            hotspot_mil.0 <= 1000,
            hotspot_mil.1 <= 1000,
            ops_match(ops@, done_ops),
            full_config == spec_multi_config(sizes@, hotspot_mil.0, hotspot_mil.1, fp),
            full_ops == spec_multi_ops(cursor_name@, sizes@, orig_size, fp),
            full_config == config@ + spec_multi_config(
                sizes@.skip(si as int),
                hotspot_mil.0,
                hotspot_mil.1,
                fp,
            ),
            full_ops == done_ops + spec_multi_ops(
                cursor_name@,
                sizes@.skip(si as int),
                orig_size,
                fp,
            ),
        decreases sizes.len() - si,
    {
        let s = sizes[si];
        let hx = hotspot_coord(s, hotspot_mil.0);
        let hy = hotspot_coord(s, hotspot_mil.1);
        proof {
            assert(sizes@.skip(si as int)[0] == sizes@[si as int]);
            assert(sizes@.skip(si as int).skip(1) =~= sizes@.skip(si as int + 1));
            assert(fp.skip(0) =~= fp);
        }
        let ghost rest_config = spec_multi_config(
            sizes@.skip(si as int + 1),
            hotspot_mil.0,
            hotspot_mil.1,
            fp,
        );
        let ghost rest_ops = spec_multi_ops(cursor_name@, sizes@.skip(si as int + 1), orig_size, fp);
        let mut fi: usize = 0;
        while fi < frames_present.len()
            invariant
                0 <= fi <= frames_present.len(),
                fp == frames_present@,
                fp.len() <= 0xffff_ffff,
                hx as int == spec_hotspot_coord(s as int, hotspot_mil.0 as int),
                hy as int == spec_hotspot_coord(s as int, hotspot_mil.1 as int),
                ops_match(ops@, done_ops),
                full_config == config@ + spec_size_config(s, hx as int, hy as int, fp.skip(fi as int), fi as nat)
                    + rest_config,
                full_ops == done_ops + spec_size_ops(
                    cursor_name@,
                    s,
                    orig_size,
                    fp.skip(fi as int),
                    fi as nat,
                ) + rest_ops,
            decreases frames_present.len() - fi,
        {
            proof {
                assert(fp.skip(fi as int)[0] == fp[fi as int]);
                assert(fp.skip(fi as int).skip(1) =~= fp.skip(fi as int + 1));
            }
            let ghost done_old = done_ops;
            if frames_present[fi] {
                let line = config_line(s, hx, hy, fi as u32);
                config.append(line.as_str());
                let op = FrameOp {
                    src_name: frame_png_name(cursor_name, fi as u32),
                    dst_name: sized_png_name(s, fi as u32),
                    size: s,
                    scale: s != orig_size,
                };
                ops.push(op);
                proof {
                    done_ops = done_old + seq![
                        (
                            spec_frame_file(cursor_name@, fi as nat),
                            spec_sized_file(s, fi as nat),
                            s,
                            s != orig_size,
                        ),
                    ];
                    assert(ops_match(ops@, done_ops));
                    assert(done_ops + spec_size_ops(
                        cursor_name@,
                        s,
                        orig_size,
                        fp.skip(fi as int + 1),
                        fi as nat + 1,
                    ) + rest_ops =~= done_old + (seq![
                        (
                            spec_frame_file(cursor_name@, fi as nat),
                            spec_sized_file(s, fi as nat),
                            s,
                            s != orig_size,
                        ),
                    ] + spec_size_ops(
                        cursor_name@,
                        s,
                        orig_size,
                        fp.skip(fi as int + 1),
                        fi as nat + 1,
                    )) + rest_ops);
                }
            }
            fi = fi + 1;
        }
        proof {
            assert(fp.skip(fp.len() as int) =~= Seq::<bool>::empty());
            assert(config@ + rest_config =~= config@ + (spec_size_config(
                s,
                hx as int,
                hy as int,
                fp.skip(fp.len() as int),
                fp.len() as nat,
            ) + rest_config));
            assert(done_ops + rest_ops =~= done_ops + (spec_size_ops(
                cursor_name@,
                s,
                orig_size,
                fp.skip(fp.len() as int),
                fp.len() as nat,
            ) + rest_ops));
        }
        si = si + 1;
    }
    proof {
        assert(sizes@.skip(sizes@.len() as int) =~= Seq::<u32>::empty());
        assert(config@ + spec_multi_config(
            sizes@.skip(sizes@.len() as int),
            hotspot_mil.0,
            hotspot_mil.1,
            fp,
        ) =~= config@);
        assert(done_ops + spec_multi_ops(
            cursor_name@,
            sizes@.skip(sizes@.len() as int),
            orig_size,
            fp,
        ) =~= done_ops);
    }
    (config, ops)
}

/// The elements grow strictly from left to right, so each value
/// appears once.
pub open spec fn strictly_increasing(s: Seq<u32>) -> bool {
    forall|i: int, j: int| 0 <= i < j < s.len() ==> s[i] < s[j]
}

/// Insert a value into a sorted list of distinct values, keeping it
/// sorted and distinct.
fn insert_sorted_unique(v: &mut Vec<u32>, x: u32)
    requires
        strictly_increasing(old(v)@),
    ensures
        strictly_increasing(final(v)@),
        forall|y: u32| final(v)@.contains(y) <==> old(v)@.contains(y) || y == x,
{
    let ghost v0 = v@;
    let mut idx: usize = 0;
    while idx < v.len() && v[idx] < x
        invariant
            0 <= idx <= v.len(),
            v@ == v0,
            strictly_increasing(v0),
            forall|j: int| 0 <= j < idx ==> v0[j] < x,
        decreases v.len() - idx,
    {
        idx = idx + 1;
    }
    if idx < v.len() && v[idx] == x {
        proof {
            assert(v0[idx as int] == x);
            assert(v0.contains(x));
        }
    } else {
        v.insert(idx, x);
        proof {
            v0.insert_ensures(idx as int, x);
            assert forall|i: int, j: int| 0 <= i < j < v@.len() implies v@[i] < v@[j] by {
                if j < idx {
                } else if i < idx && j == idx {
                } else if i < idx && j > idx {
                    assert(v@[j] == v0[j - 1]);
                    assert(v0[idx as int] > x || idx >= v0.len());
                } else if i == idx {
                    assert(v@[j] == v0[j - 1]);
                    if idx < v0.len() {
                        assert(v0[idx as int] != x && v0[idx as int] >= x);
                    }
                } else {
                    assert(v@[i] == v0[i - 1] && v@[j] == v0[j - 1]);
                }
            }
            assert forall|y: u32| v@.contains(y) <==> v0.contains(y) || y == x by {
                if v@.contains(y) {
                    let k = choose|k: int| 0 <= k < v@.len() && v@[k] == y;
                    if k < idx {
                        assert(v0[k] == y);
                    } else if k == idx {
                    } else {
                        assert(v0[k - 1] == y);
                    }
                }
                if v0.contains(y) {
                    let k = choose|k: int| 0 <= k < v0.len() && v0[k] == y;
                    if k < idx {
                        assert(v@[k] == y);
                    } else {
                        assert(v@[k + 1] == y);
                    }
                }
                if y == x {
                    assert(v@[idx as int] == y);
                }
            }
        }
    }
}

/// The distinct sizes among the given ones, in increasing order, as
/// the sizes of a generated cursor are reported.
pub fn sorted_unique_sizes(sizes: &Vec<u32>) -> (r: Vec<u32>)
    ensures
        strictly_increasing(r@),
        forall|y: u32| r@.contains(y) <==> sizes@.contains(y),
{
    let mut out: Vec<u32> = Vec::new();
    let mut i: usize = 0;
    while i < sizes.len()
        invariant
            0 <= i <= sizes.len(),
            strictly_increasing(out@),
            forall|y: u32| out@.contains(y) <==> sizes@.take(i as int).contains(y),
        decreases sizes.len() - i,
    {
        let ghost before = out@;
        insert_sorted_unique(&mut out, sizes[i]);
        proof {
            assert forall|y: u32|
                out@.contains(y) <==> sizes@.take(i as int + 1).contains(y) by {
                assert(sizes@.take(i as int + 1).drop_last() =~= sizes@.take(i as int));
                assert(sizes@.take(i as int + 1).last() == sizes@[i as int]);
                if out@.contains(y) {
                    if before.contains(y) {
                        let k = choose|k: int|
                            0 <= k < sizes@.take(i as int).len() && #[trigger] sizes@.take(
                                i as int,
                            )[k] == y;
                        assert(sizes@.take(i as int + 1)[k] == y);
                    } else {
                        assert(sizes@.take(i as int + 1)[i as int] == y);
                    }
                }
                if sizes@.take(i as int + 1).contains(y) {
                    let k = choose|k: int|
                        0 <= k < sizes@.take(i as int + 1).len() && #[trigger] sizes@.take(
                            i as int + 1,
                        )[k] == y;
                    if k < i {
                        assert(sizes@.take(i as int)[k] == y);
                    }
                }
            }
        }
        i = i + 1;
    }
    proof {
        assert(sizes@.take(sizes@.len() as int) =~= sizes@);
    }
    out
}

/// The size argument handed to the image scaler, as `<size>x<size>`.
pub open spec fn spec_size_arg(size: u32) -> Seq<char> {
    dec_rep(size as nat) + "x"@ + dec_rep(size as nat)
}

/// The command that scales one frame image: the `magick` tool when it
/// is available, the older `convert` entry point otherwise, with the
/// source, the resize argument, and the destination.
pub fn scale_command(src: &str, dst: &str, size: u32, have_magick: bool) -> (r: (
    String,
    Vec<String>,
))
    ensures
        r.0@ == if have_magick {
            "magick"@
        } else {
            "convert"@
        },
        r.1@.map_values(|a: String| a@) == seq![src@, "-resize"@, spec_size_arg(size), dst@],
{
    let program = if have_magick {
        "magick".to_owned()
    } else {
        "convert".to_owned()
    };
    let mut size_arg = u32_to_string(size);
    size_arg.append("x");
    size_arg.append(u32_to_string(size).as_str());
    let mut args: Vec<String> = Vec::new();
    args.push(src.to_owned());
    args.push("-resize".to_owned());
    args.push(size_arg);
    args.push(dst.to_owned());
    proof {
        assert(args@.map_values(|a: String| a@) =~= seq![src@, "-resize"@, spec_size_arg(size), dst@]);
    }
    (program, args)
}

} // verus!
