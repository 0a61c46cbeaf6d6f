//! Positions of text and image tokens for multi-axis rotary embeddings.
//!
//! Modality 0 is text and modality 1 is image. Text tokens have the same
//! position on all three axes; the tokens of an image are laid out on a grid
//! of temporal, vertical and horizontal positions.

use vstd::arithmetic::div_mod::{lemma_mod_bound, lemma_multiply_divide_lt};
use vstd::prelude::*;

use crate::error::Error;

verus! {

/// Positions on the temporal, vertical and horizontal axis, and what to add to
/// the length of the sequence to get the position of the next token.
#[derive(Debug, PartialEq, Eq)]
pub struct Qwen35MropePositions {
    pub positions: Vec<[u32; 3]>,
    pub decode_delta: i64,
}

/// The end of the run of equal modalities that starts at `start`.
pub open spec fn run_end(types: Seq<u8>, start: int) -> int
    decreases types.len() - start,
{
    if start + 1 >= types.len() || types[start + 1] != types[start] {
        start + 1
    } else {
        run_end(types, start + 1)
    }
}

/// The cells of a grid after merging, on the temporal, vertical and horizontal
/// axis.
pub open spec fn merged(grid: [u32; 3], merge: int) -> (int, int, int) {
    (grid[0] as int, grid[1] as int / merge, grid[2] as int / merge)
}

/// The grid has cells, and its sides are divisible by the merge size.
pub open spec fn is_valid_grid(grid: [u32; 3], merge: int) -> bool {
    &&& merged(grid, merge).0 > 0
    &&& merged(grid, merge).1 > 0
    &&& merged(grid, merge).2 > 0
    &&& grid[1] as int % merge == 0
    &&& grid[2] as int % merge == 0
}

/// The number of tokens of an image.
pub open spec fn cells(grid: [u32; 3], merge: int) -> int {
    merged(grid, merge).0 * merged(grid, merge).1 * merged(grid, merge).2
}

/// The number of tokens of an image is a machine size.
pub open spec fn grid_fits(grid: [u32; 3], merge: int) -> bool {
    &&& merged(grid, merge).0 * merged(grid, merge).1 <= usize::MAX
    &&& cells(grid, merge) <= usize::MAX
}

/// The positions of a run of text.
pub open spec fn text_run(length: int, current: int) -> Seq<(int, int, int)> {
    Seq::new(length as nat, |o: int| (current + o, current + o, current + o))
}

/// The positions of an image: its cells in row-major order.
pub open spec fn image_run(grid: [u32; 3], merge: int, current: int) -> Seq<(int, int, int)> {
    let (_, height, width) = merged(grid, merge);
    Seq::new(
        cells(grid, merge) as nat,
        |o: int|
            (current + o / (height * width), current + o / width % height, current + o % width),
    )
}

/// Why positions cannot be computed.
pub enum MropeFault {
    MissingGrid,
    InvalidGrid { image: int },
    GroupLength { tokens: int, image: int },
    Modality { modality: u8 },
}

/// Positions, and the number of images that were used.
pub struct MropeWalk {
    pub positions: Seq<(int, int, int)>,
    pub images: int,
}

/// The positions of the tokens from `start` on, run by run. The first run
/// starts at position `current`; an image moves the position on by its longer
/// side.
pub open spec fn walk(
    types: Seq<u8>,
    grids: Seq<[u32; 3]>,
    merge: int,
    start: int,
    image: int,
    current: int,
) -> Result<MropeWalk, MropeFault>
    decreases types.len() - start,
{
    let end = run_end(types, start);
    if !(0 <= start < end <= types.len()) {
        Ok(MropeWalk { positions: Seq::empty(), images: image })
    } else if types[start] == 0 {
        before(
            text_run(end - start, current),
            walk(types, grids, merge, end, image, current + (end - start)),
        )
    } else if types[start] != 1 {
        Err(MropeFault::Modality { modality: types[start] })
    } else if image >= grids.len() {
        Err(MropeFault::MissingGrid)
    } else if !is_valid_grid(grids[image], merge) {
        Err(MropeFault::InvalidGrid { image })
    } else if end - start != cells(grids[image], merge) {
        Err(MropeFault::GroupLength { tokens: end - start, image })
    } else {
        let (_, height, width) = merged(grids[image], merge);
        before(
            image_run(grids[image], merge, current),
            walk(
                types,
                grids,
                merge,
                end,
                image + 1,
                current + if height < width {
                    width
                } else {
                    height
                },
            ),
        )
    }
}

/// What the walk computes of the tokens from `start` on is in range: the
/// positions of every run that it lays out, and the number of cells of every
/// valid grid that it reaches.
pub open spec fn walk_fits(
    types: Seq<u8>,
    grids: Seq<[u32; 3]>,
    merge: int,
    start: int,
    image: int,
    current: int,
) -> bool
    decreases types.len() - start,
{
    let end = run_end(types, start);
    if !(0 <= start < end <= types.len()) {
        true
    } else if types[start] == 0 {
        &&& current + (end - start) - 1 <= u32::MAX
        &&& walk_fits(types, grids, merge, end, image, current + (end - start))
    } else if types[start] != 1 || image >= grids.len() || !is_valid_grid(grids[image], merge) {
        true
    } else {
        let (temporal, height, width) = merged(grids[image], merge);
        let side = if height < width {
            width
        } else {
            height
        };
        &&& grid_fits(grids[image], merge)
        &&& end - start == cells(grids[image], merge) ==> {
            &&& current + temporal - 1 <= u32::MAX
            &&& current + side - 1 <= u32::MAX
            &&& walk_fits(types, grids, merge, end, image + 1, current + side)
        }
    }
}

/// Positions in front of those of the runs that follow.
pub open spec fn before(
    positions: Seq<(int, int, int)>,
    rest: Result<MropeWalk, MropeFault>,
) -> Result<MropeWalk, MropeFault> {
    match rest {
        Ok(walk) => Ok(
            MropeWalk { positions: positions + walk.positions, images: walk.images },
        ),
        Err(fault) => Err(fault),
    }
}

/// The positions are those of the walk.
pub open spec fn shows(positions: Seq<[u32; 3]>, walked: Seq<(int, int, int)>) -> bool {
    &&& positions.len() == walked.len()
    &&& forall|i: int|
        #![trigger positions[i]]
        0 <= i < positions.len() ==> positions[i][0] == walked[i].0 && positions[i][1]
            == walked[i].1 && positions[i][2] == walked[i].2
}

/// `maximum` is the greatest position on any axis.
pub open spec fn is_maximum(positions: Seq<[u32; 3]>, maximum: int) -> bool {
    &&& forall|i: int, axis: int|
        #![trigger positions[i][axis]]
        0 <= i < positions.len() && 0 <= axis < 3 ==> positions[i][axis] <= maximum
    &&& exists|i: int, axis: int|
        0 <= i < positions.len() && 0 <= axis < 3 && #[trigger] positions[i][axis] == maximum
}

/// The error tells of the fault.
pub open spec fn is_mrope_error(
    fault: MropeFault,
    grids: Seq<[u32; 3]>,
    merge: u32,
    e: Error,
) -> bool {
    match fault {
        MropeFault::MissingGrid => e == Error::MropeMissingGrid,
        MropeFault::InvalidGrid { image } => e == (Error::MropeInvalidGrid {
            temporal: grids[image][0],
            height: grids[image][1],
            width: grids[image][2],
            merge,
        }),
        MropeFault::GroupLength { tokens, image } => e == (Error::MropeGroupLength {
            tokens: tokens as usize,
            expected: cells(grids[image], merge as int) as usize,
            temporal: grids[image][0],
            height: grids[image][1],
            width: grids[image][2],
        }),
        MropeFault::Modality { modality } => e == (Error::MropeModality { modality }),
    }
}

proof fn run_end_is_later(types: Seq<u8>, start: int)
    requires
        0 <= start < types.len(),
    ensures
        start < run_end(types, start) <= types.len(),
        forall|i: int| start <= i < run_end(types, start) ==> types[i] == types[start],
    decreases types.len() - start,
{
    if start + 1 < types.len() && types[start + 1] == types[start] {
        run_end_is_later(types, start + 1);
    }
}

proof fn sides_are_within(t: int, h: int, w: int)
    requires
        t > 0,
        h > 0,
        w > 0,
    ensures
        h <= t * h * w,
        w <= t * h * w,
        h * w > 0,
{
    assert(h <= t * h * w && w <= t * h * w && h * w > 0) by (nonlinear_arith)
        requires
            t > 0,
            h > 0,
            w > 0,
    {
        assert(t * h >= h);
        assert(t * h >= 1);
        assert(t * h * w >= t * h);
        assert(t * h * w >= w);
    }
}

proof fn cell_is_within(o: int, h: int, w: int)
    requires
        0 <= o,
        h > 0,
        w > 0,
        h * w > 0,
    ensures
        0 <= o / (h * w) <= o,
        0 <= o / w % h <= o,
        0 <= o % w <= o,
{
    assert(0 <= o / (h * w) <= o) by (nonlinear_arith)
        requires
            0 <= o,
            h * w > 0,
    ;
    assert(0 <= o / w <= o) by (nonlinear_arith)
        requires
            0 <= o,
            w > 0,
    ;
    assert(0 <= o / w % h <= o / w) by (nonlinear_arith)
        requires
            0 <= o / w,
            h > 0,
    ;
    assert(0 <= o % w <= o) by (nonlinear_arith)
        requires
            0 <= o,
            w > 0,
    ;
}

proof fn cell_is_on_grid(o: int, t: int, h: int, w: int)
    requires
        0 <= o < t * h * w,
        h > 0,
        w > 0,
        h * w > 0,
    ensures
        o / (h * w) < t,
        o / w % h < h,
        o % w < w,
{
    assert(t * h * w == (h * w) * t) by (nonlinear_arith);
    lemma_multiply_divide_lt(o, h * w, t);
    lemma_mod_bound(o / w, h);
    lemma_mod_bound(o, w);
}

fn end_of_run(types: &[u8], start: usize) -> (end: usize)
    requires
        start < types@.len(),
    ensures
        end == run_end(types@, start as int),
        start < end <= types@.len(),
{
    let n: usize = types.len();
    let mut end: usize = start + 1;
    while end < n && types[end] == types[start]
        invariant
            n == types@.len(),
            start < end <= types@.len(),
            types@[end - 1] == types@[start as int],
            run_end(types@, start as int) == run_end(types@, end - 1),
        decreases types@.len() - end,
    {
        end = end + 1;
    }
    end
}

fn push_text(positions: &mut Vec<[u32; 3]>, length: usize, current: u64)
    requires
        current + length - 1 <= u32::MAX,
    ensures
        forall|walked: Seq<(int, int, int)>| #[trigger]
            shows(old(positions)@, walked) ==> shows(
                final(positions)@,
                walked + text_run(length as int, current as int),
            ),
{
    let ghost old_positions = positions@;
    let mut offset: usize = 0;
    while offset < length
        invariant
            offset <= length,
            current + length - 1 <= u32::MAX,
            positions@.len() == old_positions.len() + offset,
            positions@.take(old_positions.len() as int) =~= old_positions,
            forall|o: int|
                #![trigger positions@[old_positions.len() + o]]
                0 <= o < offset ==> positions@[old_positions.len() + o][0] == current + o
                    && positions@[old_positions.len() + o][1] == current + o
                    && positions@[old_positions.len() + o][2] == current + o,
        decreases length - offset,
    {
        let position: u32 = (current + offset as u64) as u32;
        positions.push([position, position, position]);
        offset = offset + 1;
    }
    proof {
        assert forall|walked: Seq<(int, int, int)>| #[trigger]
            shows(old_positions, walked) implies shows(
            positions@,
            walked + text_run(length as int, current as int),
        ) by {
            let n = old_positions.len() as int;
            assert forall|i: int|
                #![trigger positions@[i]]
                0 <= i < positions@.len() implies positions@[i][0] == (walked + text_run(
                length as int,
                current as int,
            ))[i].0 && positions@[i][1] == (walked + text_run(
                length as int,
                current as int,
            ))[i].1 && positions@[i][2] == (walked + text_run(
                length as int,
                current as int,
            ))[i].2 by {
                if i < n {
                    assert(positions@[i] == positions@.take(n)[i]);
                    assert(positions@[i] == old_positions[i]);
                } else {
                    assert(positions@[n + (i - n)] == positions@[i]);
                }
            }
        }
    }
}

fn push_image(positions: &mut Vec<[u32; 3]>, grid: [u32; 3], merge: u32, current: u64)
    requires
        merge > 0,
        is_valid_grid(grid, merge as int),
        grid_fits(grid, merge as int),
        current + merged(grid, merge as int).0 - 1 <= u32::MAX,
        current + merged(grid, merge as int).1 - 1 <= u32::MAX,
        current + merged(grid, merge as int).2 - 1 <= u32::MAX,
    ensures
        forall|walked: Seq<(int, int, int)>| #[trigger]
            shows(old(positions)@, walked) ==> shows(
                final(positions)@,
                walked + image_run(grid, merge as int, current as int),
            ),
{
    let ghost old_positions = positions@;
    let ghost run = image_run(grid, merge as int, current as int);
    let temporal: usize = grid[0] as usize;
    let height: usize = (grid[1] / merge) as usize;
    let width: usize = (grid[2] / merge) as usize;
    proof {
        sides_are_within(temporal as int, height as int, width as int);
        assert(temporal * height * width == temporal * (height * width)) by (nonlinear_arith);
        assert(height * width <= temporal * (height * width)) by (nonlinear_arith)
            requires
                temporal > 0,
                height * width > 0,
        ;
    }
    let length: usize = temporal * height * width;
    let plane: usize = height * width;
    let mut offset: usize = 0;
    while offset < length
        invariant
            offset <= length,
            length == temporal * height * width,
            current + temporal - 1 <= u32::MAX,
            current + height - 1 <= u32::MAX,
            current + width - 1 <= u32::MAX,
            height > 0,
            width > 0,
            plane == height * width,
            plane > 0,
            run.len() == length,
            forall|o: int|
                #![trigger run[o]]
                0 <= o < length ==> run[o] == (
                    current + o / (height * width),
                    current + o / (width as int) % (height as int),
                    current + o % (width as int),
                ),
            positions@.len() == old_positions.len() + offset,
            positions@.take(old_positions.len() as int) =~= old_positions,
            forall|o: int|
                #![trigger positions@[old_positions.len() + o]]
                0 <= o < offset ==> positions@[old_positions.len() + o][0] == run[o].0
                    && positions@[old_positions.len() + o][1] == run[o].1
                    && positions@[old_positions.len() + o][2] == run[o].2,
        decreases length - offset,
    {
        proof {
            cell_is_within(offset as int, height as int, width as int);
            cell_is_on_grid(offset as int, temporal as int, height as int, width as int);
            assert(run[offset as int] == run[offset as int]);
        }
        positions.push(
            [
                (current + (offset / plane) as u64) as u32,
                (current + (offset / width % height) as u64) as u32,
                (current + (offset % width) as u64) as u32,
            ],
        );
        offset = offset + 1;
    }
    proof {
        assert forall|walked: Seq<(int, int, int)>| #[trigger]
            shows(old_positions, walked) implies shows(positions@, walked + run) by {
            let n = old_positions.len() as int;
            assert forall|i: int|
                #![trigger positions@[i]]
                0 <= i < positions@.len() implies positions@[i][0] == (walked + run)[i].0
                && positions@[i][1] == (walked + run)[i].1 && positions@[i][2] == (walked
                + run)[i].2 by {
                if i < n {
                    assert(positions@[i] == positions@.take(n)[i]);
                    assert(positions@[i] == old_positions[i]);
                } else {
                    assert(positions@[n + (i - n)] == positions@[i]);
                }
            }
        }
    }
}

fn maximum_of(positions: &Vec<[u32; 3]>) -> (maximum: u32)
    requires
        positions@.len() > 0,
    ensures
        is_maximum(positions@, maximum as int),
{
    let mut maximum: u32 = positions[0][0];
    let mut i: usize = 0;
    proof {
        assert(positions@[0][0] == maximum);
    }
    while i < positions.len()
        invariant
            i <= positions@.len(),
            positions@.len() > 0,
            forall|j: int, axis: int|
                #![trigger positions@[j][axis]]
                0 <= j < i && 0 <= axis < 3 ==> positions@[j][axis] <= maximum,
            exists|j: int, axis: int|
                0 <= j < positions@.len() && 0 <= axis < 3 && #[trigger] positions@[j][axis]
                    == maximum,
        decreases positions@.len() - i,
    {
        let position: [u32; 3] = positions[i];
        let ghost earlier = maximum;
        if position[0] > maximum {
            maximum = position[0];
        }
        if position[1] > maximum {
            maximum = position[1];
        }
        if position[2] > maximum {
            maximum = position[2];
        }
        proof {
            assert(positions@[i as int][0] <= maximum);
            assert(positions@[i as int][1] <= maximum);
            assert(positions@[i as int][2] <= maximum);
            assert(maximum == earlier || maximum == positions@[i as int][0] || maximum
                == positions@[i as int][1] || maximum == positions@[i as int][2]);
        }
        i = i + 1;
    }
    maximum
}

/// Computes the positions of one unpadded sequence.
///
/// Fails on an empty sequence, a zero merge size, an unknown modality, an
/// image without a grid, a grid that is empty or not divisible by the merge
/// size, an image whose number of tokens is not that of its grid, and on grids
/// that no image used. Positions must be in range as far as the walk gets. The
/// bound on the length is one that every slice of bytes keeps.
pub fn compute_mrope_positions(
    modality_types: &[u8],
    image_grids: &[[u32; 3]],
    spatial_merge_size: u32,
) -> (r: Result<Qwen35MropePositions, Error>)
    requires
        modality_types@.len() <= i64::MAX,
        spatial_merge_size > 0 ==> walk_fits(
            modality_types@,
            image_grids@,
            spatial_merge_size as int,
            0,
            0,
            0,
        ),
    ensures
        if modality_types@.len() == 0 || spatial_merge_size == 0 {
            r == Err::<Qwen35MropePositions, Error>(Error::MropeEmpty)
        } else {
            match walk(modality_types@, image_grids@, spatial_merge_size as int, 0, 0, 0) {
                Err(fault) => r matches Err(e) && is_mrope_error(
                    fault,
                    image_grids@,
                    spatial_merge_size,
                    e,
                ),
                Ok(walked) => if walked.images != image_grids@.len() {
                    r == Err::<Qwen35MropePositions, Error>(
                        Error::MropeLeftoverGrids {
                            consumed: walked.images as usize,
                            grids: image_grids@.len() as usize,
                        },
                    )
                } else {
                    &&& r matches Ok(found)
                    &&& shows(found.positions@, walked.positions)
                    &&& found.positions@.len() == modality_types@.len()
                    &&& is_maximum(
                        found.positions@,
                        found.decode_delta + modality_types@.len() - 1,
                    )
                    &&& -(modality_types@.len() as int) < found.decode_delta <= 0
                },
            }
        },
{
    if modality_types.len() == 0 || spatial_merge_size == 0 {
        return Err(Error::MropeEmpty);
    }
    let ghost types = modality_types@;
    let ghost grids = image_grids@;
    let ghost merge = spatial_merge_size as int;
    let ghost all = walk(types, grids, merge, 0, 0, 0);
    let ghost mut walked: Seq<(int, int, int)> = Seq::empty();
    let mut positions: Vec<[u32; 3]> = Vec::new();
    let mut current: u64 = 0;
    let mut image_index: usize = 0;
    let mut start: usize = 0;
    proof {
        assert(shows(positions@, walked));
        if let Ok(rest) = all {
            assert(walked + rest.positions =~= rest.positions);
        }
    }
    while start < modality_types.len()
        invariant
            start <= types.len(),
            types == modality_types@,
            grids == image_grids@,
            merge == spatial_merge_size,
            merge > 0,
            walk_fits(
                types,
                grids,
                merge,
                start as int,
                image_index as int,
                current as int,
            ),
            image_index <= grids.len(),
            current <= start,
            all == walk(types, grids, merge, 0, 0, 0),
            all == before(
                walked,
                walk(types, grids, merge, start as int, image_index as int, current as int),
            ),
            shows(positions@, walked),
            walked.len() == start,
            forall|i: int|
                #![trigger walked[i]]
                0 <= i < walked.len() ==> walked[i].0 < start && walked[i].1 < start && walked[i].2
                    < start,
        decreases types.len() - start,
    {
        let end: usize = end_of_run(modality_types, start);
        let modality: u8 = modality_types[start];
        let length: usize = end - start;
        let ghost rest = walk(
            types,
            grids,
            merge,
            start as int,
            image_index as int,
            current as int,
        );
        if modality == 0 {
            push_text(&mut positions, length, current);
            proof {
                let run = text_run(length as int, current as int);
                if let Ok(w) = walk(
                    types,
                    grids,
                    merge,
                    end as int,
                    image_index as int,
                    current + length,
                ) {
                    assert(walked + (run + w.positions) =~= (walked + run) + w.positions);
                }
                walked = walked + run;
            }
            current = current + length as u64;
        } else if modality == 1 {
            if image_index >= image_grids.len() {
                return Err(Error::MropeMissingGrid);
            }
            let grid: [u32; 3] = image_grids[image_index];
            let temporal: u32 = grid[0];
            let height: u32 = grid[1] / spatial_merge_size;
            let width: u32 = grid[2] / spatial_merge_size;
            if temporal == 0 || height == 0 || width == 0 || grid[1] % spatial_merge_size != 0
                || grid[2] % spatial_merge_size != 0 {
                return Err(
                    Error::MropeInvalidGrid {
                        temporal: grid[0],
                        height: grid[1],
                        width: grid[2],
                        merge: spatial_merge_size,
                    },
                );
            }
            proof {
                assert(0 <= temporal * height) by (nonlinear_arith);
                sides_are_within(temporal as int, height as int, width as int);
            }
            let expected: usize = temporal as usize * height as usize * width as usize;
            if length != expected {
                return Err(
                    Error::MropeGroupLength {
                        tokens: length,
                        expected,
                        temporal: grid[0],
                        height: grid[1],
                        width: grid[2],
                    },
                );
            }
            push_image(&mut positions, grid, spatial_merge_size, current);
            let side: u32 = if height < width {
                width
            } else {
                height
            };
            proof {
                let run = image_run(grid, merge, current as int);
                if let Ok(w) = walk(
                    types,
                    grids,
                    merge,
                    end as int,
                    image_index + 1,
                    current + side,
                ) {
                    assert(walked + (run + w.positions) =~= (walked + run) + w.positions);
                }
                let joined = walked + run;
                assert forall|i: int|
                    #![trigger joined[i]]
                    0 <= i < joined.len() implies joined[i].0 < end && joined[i].1 < end
                    && joined[i].2 < end by {
                    if i < walked.len() {
                        assert(joined[i] == walked[i]);
                    } else {
                        assert(joined[i] == run[i - walked.len()]);
                        cell_is_within(i - walked.len(), height as int, width as int);
                    }
                }
                walked = joined;
            }
            image_index = image_index + 1;
            current = current + side as u64;
        } else {
            return Err(Error::MropeModality { modality });
        }
        start = end;
    }
    proof {
        if let Ok(rest) = walk(
            types,
            grids,
            merge,
            start as int,
            image_index as int,
            current as int,
        ) {
            assert(walked + rest.positions =~= walked);
        }
    }
    if image_index != image_grids.len() {
        return Err(
            Error::MropeLeftoverGrids { consumed: image_index, grids: image_grids.len() },
        );
    }
    let maximum: u32 = maximum_of(&positions);
    proof {
        let (i, axis) = choose|i: int, axis: int|
            0 <= i < positions@.len() && 0 <= axis < 3 && #[trigger] positions@[i][axis] == maximum;
        assert(positions@[i] == positions@[i]);
        assert(walked[i] == walked[i]);
        assert(maximum < types.len());
    }
    let decode_delta: i64 = maximum as i64 + 1 - modality_types.len() as i64;
    Ok(Qwen35MropePositions { positions, decode_delta })
}

/// In a sequence of text alone every token has its index as position on all
/// three axes.
pub proof fn text_positions_are_indices(types: Seq<u8>, merge: int)
    requires
        types.len() > 0,
        forall|i: int| 0 <= i < types.len() ==> types[i] == 0,
    ensures
        walk(types, Seq::empty(), merge, 0, 0, 0) == Ok::<MropeWalk, MropeFault>(
            MropeWalk { positions: text_run(types.len() as int, 0), images: 0 },
        ),
{
    text_is_one_run(types, 0);
    let rest = walk(types, Seq::empty(), merge, types.len() as int, 0, types.len() as int);
    assert(text_run(types.len() as int, 0) + Seq::<(int, int, int)>::empty() =~= text_run(
        types.len() as int,
        0,
    ));
}

proof fn text_is_one_run(types: Seq<u8>, start: int)
    requires
        0 <= start < types.len(),
        forall|i: int| 0 <= i < types.len() ==> types[i] == 0,
    ensures
        run_end(types, start) == types.len(),
    decreases types.len() - start,
{
    if start + 1 < types.len() {
        text_is_one_run(types, start + 1);
    }
}

} // verus!
