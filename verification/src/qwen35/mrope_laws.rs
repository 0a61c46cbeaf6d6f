//! Where the tokens of a prompt stand on the three axes.

use vstd::arithmetic::div_mod::lemma_fundamental_div_mod_converse;
use vstd::prelude::*;

use crate::qwen35::multimodal::{
    cells, image_run, is_maximum, is_valid_grid, merged, run_end, shows, text_run, walk,
    MropeFault, MropeWalk,
};

verus! {

proof fn a_run_ends_where_the_modality_changes(types: Seq<u8>, start: int)
    requires
        0 <= start < types.len(),
    ensures
        start < run_end(types, start) <= types.len(),
        forall|i: int| start <= i < run_end(types, start) ==> types[i] == types[start],
        run_end(types, start) < types.len() ==> types[run_end(types, start)] != types[start],
    decreases types.len() - start,
{
    if start + 1 < types.len() && types[start + 1] == types[start] {
        a_run_ends_where_the_modality_changes(types, start + 1);
    }
}

/// The cell of an image in frame `t`, row `y` and column `x` stands `t`, `y` and
/// `x` behind the first cell of the image, and the cells follow each other frame
/// by frame and row by row. Rows and columns are those that are left after
/// merging.
pub proof fn a_cell_stands_at_its_place(
    grid: [u32; 3],
    merge: int,
    current: int,
    t: int,
    y: int,
    x: int,
)
    requires
        merge > 0,
        0 <= t < grid[0],
        0 <= y < grid[1] as int / merge,
        0 <= x < grid[2] as int / merge,
    ensures
        ({
            let height = grid[1] as int / merge;
            let width = grid[2] as int / merge;
            let place = (t * height + y) * width + x;
            let run = image_run(grid, merge, current);
            &&& run.len() == grid[0] * height * width
            &&& 0 <= place < run.len()
            &&& run[place] == (current + t, current + y, current + x)
        }),
{
    let height = grid[1] as int / merge;
    let width = grid[2] as int / merge;
    let frames = grid[0] as int;
    let line = t * height + y;
    let place = line * width + x;
    assert(0 <= line < frames * height) by (nonlinear_arith)
        requires
            line == t * height + y,
            0 <= t < frames,
            0 <= y < height,
    {
        assert((t + 1) * height <= frames * height);
        assert((t + 1) * height == t * height + height);
        assert(0 <= t * height);
    }
    assert(0 <= place < frames * height * width) by (nonlinear_arith)
        requires
            place == line * width + x,
            0 <= line < frames * height,
            0 <= x < width,
    {
        assert((line + 1) * width <= (frames * height) * width);
        assert((line + 1) * width == line * width + width);
        assert(0 <= line * width);
    }
    lemma_fundamental_div_mod_converse(place, width, line, x);
    lemma_fundamental_div_mod_converse(line, height, t, y);
    let within = y * width + x;
    assert(0 <= within < height * width && place == t * (height * width) + within)
        by (nonlinear_arith)
        requires
            within == y * width + x,
            place == line * width + x,
            line == t * height + y,
            0 <= y < height,
            0 <= x < width,
    {
        assert((y + 1) * width <= height * width);
        assert((y + 1) * width == y * width + width);
        assert(0 <= y * width);
        assert((t * height + y) * width == t * (height * width) + y * width);
    }
    assert(t * (height * width) + within == (height * width) * t + within) by (nonlinear_arith);
    lemma_fundamental_div_mod_converse(place, height * width, t, within);
}

/// The position that follows a token: one further on every axis behind text, and
/// one further than the last row and the last column behind an image.
pub open spec fn behind(modality: u8, position: (int, int, int)) -> int {
    if modality == 0 {
        position.0 + 1
    } else if position.1 < position.2 {
        position.2 + 1
    } else {
        position.1 + 1
    }
}

proof fn last_cell(grid: [u32; 3], merge: int, current: int)
    requires
        merge > 0,
        is_valid_grid(grid, merge),
    ensures
        ({
            let run = image_run(grid, merge, current);
            let (frames, height, width) = merged(grid, merge);
            &&& run.len() == cells(grid, merge)
            &&& run.len() > 0
            &&& run[0] == (current, current, current)
            &&& run.last() == (current + frames - 1, current + height - 1, current + width - 1)
        }),
{
    let (frames, height, width) = merged(grid, merge);
    a_cell_stands_at_its_place(grid, merge, current, 0, 0, 0);
    a_cell_stands_at_its_place(grid, merge, current, frames - 1, height - 1, width - 1);
    assert(((frames - 1) * height + (height - 1)) * width + (width - 1) == frames * height * width
        - 1) by (nonlinear_arith);
    assert((0 * height + 0) * width + 0 == 0) by (nonlinear_arith);
}

/// Along a prompt, the positions go on without a gap: each text token stands at
/// one position on all axes, whatever comes behind a text token stands one
/// further, and whatever comes behind an image stands one further than its
/// longer side.
pub proof fn positions_go_on_without_a_gap(
    types: Seq<u8>,
    grids: Seq<[u32; 3]>,
    merge: int,
    start: int,
    image: int,
    current: int,
    walked: MropeWalk,
)
    requires
        merge > 0,
        0 <= start <= types.len(),
        0 <= image,
        walk(types, grids, merge, start, image, current) == Ok::<MropeWalk, MropeFault>(walked),
    ensures
        walked.positions.len() == types.len() - start,
        start < types.len() ==> walked.positions[0] == (current, current, current),
        forall|i: int|
            start <= i < types.len() && #[trigger] types[i] == 0 ==> {
                let p = walked.positions[i - start];
                p.0 == p.1 && p.1 == p.2
            },
        forall|i: int|
            start <= i < types.len() - 1 && (#[trigger] types[i] == 0 || types[i + 1] == 0) ==> {
                let next = behind(types[i], walked.positions[i - start]);
                walked.positions[i + 1 - start] == (next, next, next)
            },
    decreases types.len() - start,
{
    if start < types.len() {
        a_run_ends_where_the_modality_changes(types, start);
        let end = run_end(types, start);
        let (run, moved, seen) = if types[start] == 0 {
            (text_run(end - start, current), current + (end - start), image)
        } else {
            last_cell(grids[image], merge, current);
            let (_, height, width) = merged(grids[image], merge);
            (
                image_run(grids[image], merge, current),
                current + if height < width {
                    width
                } else {
                    height
                },
                image + 1,
            )
        };
        assert(run.len() == end - start);
        let rest = walk(types, grids, merge, end, seen, moved);
        assert(rest is Ok);
        let tail = rest->Ok_0;
        positions_go_on_without_a_gap(types, grids, merge, end, seen, moved, tail);
        assert(walked.positions == run + tail.positions);
        assert forall|i: int|
            start <= i < types.len() - 1 && (#[trigger] types[i] == 0 || types[i + 1] == 0) implies ({
            let next = behind(types[i], walked.positions[i - start]);
            walked.positions[i + 1 - start] == (next, next, next)
        }) by {
            if i + 1 < end {
                assert(types[i] == types[start] && types[i + 1] == types[start]);
            } else if i >= end {
                assert(walked.positions[i - start] == tail.positions[i - end]);
                assert(walked.positions[i + 1 - start] == tail.positions[i + 1 - end]);
            } else {
                assert(i == end - 1);
                assert(types[i] == types[start]);
                assert(walked.positions[i - start] == run.last());
                assert(walked.positions[i + 1 - start] == tail.positions[0]);
            }
        }
        assert forall|i: int| start <= i < types.len() && #[trigger] types[i] == 0 implies ({
            let p = walked.positions[i - start];
            p.0 == p.1 && p.1 == p.2
        }) by {
            if i < end {
                assert(types[i] == types[start]);
            } else {
                assert(walked.positions[i - start] == tail.positions[i - end]);
            }
        }
    }
}

/// Every image takes the next grid, and its tokens stand as its cells do.
pub proof fn an_image_is_laid_out_on_its_grid(
    types: Seq<u8>,
    grids: Seq<[u32; 3]>,
    merge: int,
    start: int,
    image: int,
    current: int,
    walked: MropeWalk,
    t: int,
    y: int,
    x: int,
)
    requires
        merge > 0,
        0 <= start < types.len(),
        0 <= image,
        types[start] != 0,
        walk(types, grids, merge, start, image, current) == Ok::<MropeWalk, MropeFault>(walked),
        0 <= t < grids[image][0],
        0 <= y < grids[image][1] as int / merge,
        0 <= x < grids[image][2] as int / merge,
    ensures
        types[start] == 1,
        image < grids.len(),
        ({
            let height = grids[image][1] as int / merge;
            let width = grids[image][2] as int / merge;
            let place = (t * height + y) * width + x;
            &&& grids[image][1] == height * merge
            &&& grids[image][2] == width * merge
            &&& types[start + place] == 1
            &&& walked.positions[place] == (current + t, current + y, current + x)
        }),
{
    a_run_ends_where_the_modality_changes(types, start);
    a_cell_stands_at_its_place(grids[image], merge, current, t, y, x);
    vstd::arithmetic::div_mod::lemma_fundamental_div_mod(grids[image][1] as int, merge);
    vstd::arithmetic::div_mod::lemma_fundamental_div_mod(grids[image][2] as int, merge);
    assert(merge * (grids[image][1] as int / merge) == (grids[image][1] as int / merge) * merge)
        by (nonlinear_arith);
    assert(merge * (grids[image][2] as int / merge) == (grids[image][2] as int / merge) * merge)
        by (nonlinear_arith);
}

/// The token that is decoded behind a prompt stands one further than every
/// position of the prompt, on every axis.
pub proof fn decoding_goes_on_behind_the_prompt(
    positions: Seq<[u32; 3]>,
    decode_delta: int,
    i: int,
    axis: int,
)
    requires
        is_maximum(positions, decode_delta + positions.len() - 1),
        0 <= i < positions.len(),
        0 <= axis < 3,
    ensures
        positions[i][axis] < positions.len() + decode_delta,
        exists|j: int, k: int|
            0 <= j < positions.len() && 0 <= k < 3 && #[trigger] positions[j][k] + 1
                == positions.len() + decode_delta,
{
}

/// The positions are shown axis by axis: temporal, vertical, horizontal.
pub proof fn positions_are_shown_axis_by_axis(
    positions: Seq<[u32; 3]>,
    walked: Seq<(int, int, int)>,
    i: int,
)
    requires
        shows(positions, walked),
        0 <= i < positions.len(),
    ensures
        positions.len() == walked.len(),
        walked[i] == (positions[i][0] as int, positions[i][1] as int, positions[i][2] as int),
{
}

} // verus!
