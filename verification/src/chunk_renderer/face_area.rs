//! The area of the faces of a working array, and the law that merging keeps
//! it: the faces that are left after merging cover exactly the faces that
//! were drawn before.

use vstd::prelude::*;
use crate::chunk::NB_BLOCKS_PER_CHUNK;
use crate::chunk_renderer::greedy_mesh::{
    lemma_pass_ends,
    lemma_pass_skips,
    lemma_pass_steps,
    longer,
    merged_on_x_axis,
    merged_on_y_axis,
    merged_on_z_axis,
    Pass,
};
use crate::block::Block;
use crate::chunk_renderer::covered_faces::culled_cells;
use crate::chunk_renderer::pre_mesh_creator::{
    initial_cells,
    lemma_from_xyz,
    BlockPreMesh,
    Stretch,
};
use crate::chunk_renderer::pre_mesh_to_bundle_conveter::quad_area;
use crate::chunk_renderer::renderer::Face;

verus! {

impl Pass {
    /// A direction along the axis that the faces of the pass look along.
    pub open spec fn looks_along(self) -> Face {
        match self {
            Pass::XFacesAlongZ | Pass::XFacesAlongY => Face::PositiveX,
            Pass::ZFacesAlongX | Pass::ZFacesAlongY => Face::PositiveZ,
            Pass::YFacesAlongX | Pass::YFacesAlongZ => Face::PositiveY,
        }
    }

    /// Whether the pass is the first of the two passes of its axis.
    pub open spec fn is_first(self) -> bool {
        self is XFacesAlongZ || self is ZFacesAlongX || self is YFacesAlongX
    }

    /// The shape of the faces that the pass starts from: faces of one block
    /// for the first pass of an axis; for the second, faces that are one
    /// block long along the axis of the pass.
    pub open spec fn takes(self, cell: BlockPreMesh) -> bool {
        let stretch = cell.spec_get_stretch();
        cell.spec_will_be_rendered() ==> match self {
            Pass::XFacesAlongZ | Pass::ZFacesAlongX | Pass::YFacesAlongX => stretch.0 == 0x1011,
            Pass::XFacesAlongY => stretch.spec_get_x() == 1 && stretch.spec_get_y() == 1,
            Pass::ZFacesAlongY => stretch.spec_get_z() == 1 && stretch.spec_get_y() == 1,
            Pass::YFacesAlongZ => stretch.spec_get_y() == 1 && stretch.spec_get_z() == 1,
        }
    }

    /// Whether the pass takes every cell of an array.
    pub open spec fn takes_all(self, cells: Seq<BlockPreMesh>) -> bool {
        &&& cells.len() == NB_BLOCKS_PER_CHUNK
        &&& forall|i: int| 0 <= i < NB_BLOCKS_PER_CHUNK ==> self.takes(#[trigger] cells[i])
    }

    /// The shape of the run that the pass has collected when it stands at
    /// cell `i`: no longer than the line up to that cell.
    pub open spec fn gives(self, cell: BlockPreMesh, i: int) -> bool {
        let stretch = cell.spec_get_stretch();
        cell.spec_will_be_rendered() ==> match self {
            Pass::XFacesAlongZ => stretch.spec_get_x() == 1 && stretch.spec_get_y() == 1
                && stretch.final_z() <= i % 16 + 1,
            Pass::XFacesAlongY => stretch.spec_get_x() == 1 && stretch.final_y() <= (i % 4096)
                / 16 + 1,
            Pass::ZFacesAlongX => stretch.spec_get_z() == 1 && stretch.spec_get_y() == 1
                && stretch.final_x() <= i / 4096 + 1,
            Pass::ZFacesAlongY => stretch.spec_get_z() == 1 && stretch.final_y() <= (i % 4096)
                / 16 + 1,
            Pass::YFacesAlongX => stretch.spec_get_y() == 1 && stretch.spec_get_z() == 1
                && stretch.final_x() <= i / 4096 + 1,
            Pass::YFacesAlongZ => stretch.spec_get_y() == 1 && stretch.final_z() <= i % 16 + 1,
        }
    }
}

/// The area of the face of a cell that looks along the axis of `direction`,
/// in faces of one block: the product of its extents along the two other
/// axes, or zero where the face is hidden.
pub open spec fn face_area(direction: Face, cell: BlockPreMesh) -> int {
    if !cell.spec_will_be_rendered() {
        0
    } else {
        quad_area(direction, cell.spec_get_stretch())
    }
}

/// The area of the faces of the first `count` cells.
pub open spec fn area_sum(direction: Face, cells: Seq<BlockPreMesh>, count: int) -> int
    decreases count,
{
    if count <= 0 {
        0
    } else {
        area_sum(direction, cells, count - 1) + face_area(direction, cells[count - 1])
    }
}

/// The number of faces that are drawn among the first `count` cells.
pub open spec fn drawn_count(cells: Seq<BlockPreMesh>, count: int) -> int
    decreases count,
{
    if count <= 0 {
        0
    } else {
        drawn_count(cells, count - 1) + if cells[count - 1].spec_will_be_rendered() {
            1int
        } else {
            0int
        }
    }
}

/// Whether every face of an array that is drawn is a face of one block, as
/// it is before merging.
pub open spec fn faces_are_single(cells: Seq<BlockPreMesh>) -> bool {
    &&& cells.len() == NB_BLOCKS_PER_CHUNK
    &&& forall|i: int|
        0 <= i < NB_BLOCKS_PER_CHUNK ==> (#[trigger] cells[i]).spec_will_be_rendered()
            ==> cells[i].spec_get_stretch().0 == 0x1011
}

/// Faces of one block each cover as many blocks as there are faces.
proof fn lemma_single_faces_area(direction: Face, cells: Seq<BlockPreMesh>, count: int)
    requires
        faces_are_single(cells),
        0 <= count <= NB_BLOCKS_PER_CHUNK,
    ensures
        area_sum(direction, cells, count) == drawn_count(cells, count),
    decreases count,
{
    if count > 0 {
        lemma_single_faces_area(direction, cells, count - 1);
        let cell = cells[count - 1];
        if cell.spec_will_be_rendered() {
            assert(cell.spec_get_stretch().0 == 0x1011);
            assert(face_area(direction, cell) == 1) by (nonlinear_arith)
                requires
                    cell.spec_will_be_rendered(),
                    cell.spec_get_stretch().final_x() == 1,
                    cell.spec_get_stretch().final_y() == 1,
                    cell.spec_get_stretch().final_z() == 1,
                    face_area(direction, cell) == match direction {
                        Face::PositiveX | Face::NegativeX => cell.spec_get_stretch().final_y()
                            * cell.spec_get_stretch().final_z(),
                        Face::PositiveY | Face::NegativeY => cell.spec_get_stretch().final_x()
                            * cell.spec_get_stretch().final_z(),
                        Face::PositiveZ | Face::NegativeZ => cell.spec_get_stretch().final_x()
                            * cell.spec_get_stretch().final_y(),
                    },
            ;
        }
    }
}

/// The area of an array in which one cell was replaced.
proof fn lemma_area_sum_update(
    direction: Face,
    cells: Seq<BlockPreMesh>,
    place: int,
    cell: BlockPreMesh,
    count: int,
)
    requires
        0 <= place < cells.len(),
        0 <= count <= cells.len(),
    ensures
        area_sum(direction, cells.update(place, cell), count) == area_sum(
            direction,
            cells,
            count,
        ) + if place < count {
            face_area(direction, cell) - face_area(direction, cells[place])
        } else {
            0
        },
    decreases count,
{
    if count > 0 {
        lemma_area_sum_update(direction, cells, place, cell, count - 1);
    }
}

/// The product of two extents where one of them grows by one block.
proof fn lemma_longer_product(length: int, width: int)
    ensures
        (length + 1) * width == length * width + width,
        width * (length + 1) == width * length + width,
        1 * width == width,
        width * 1 == width,
{
    assert((length + 1) * width == length * width + width) by (nonlinear_arith);
    assert(width * (length + 1) == width * length + width) by (nonlinear_arith);
}

/// A run that takes in the next face is drawn, is no longer than the line
/// up to that face, and covers what the run and the face covered.
proof fn lemma_merged_area(pass: Pass, earlier: BlockPreMesh, later: BlockPreMesh, i: int)
    requires
        pass.stride() <= i < NB_BLOCKS_PER_CHUNK,
        !pass.starts_line(i),
        pass.gives(earlier, i - pass.stride()),
        pass.takes(later),
        pass.mergeable(earlier, later),
    ensures
        pass.merged(earlier, later).spec_will_be_rendered(),
        pass.gives(pass.merged(earlier, later), i),
        face_area(pass.looks_along(), pass.merged(earlier, later)) == face_area(
            pass.looks_along(),
            earlier,
        ) + face_area(pass.looks_along(), later),
{
    let run = earlier.spec_get_stretch();
    let face = later.spec_get_stretch();
    let grown = pass.lengthened(run);
    let merged = pass.merged(earlier, later);
    assert(merged.spec_get_stretch() == grown);
    assert(run.0 != 0 && face.0 != 0);
    match pass {
        Pass::XFacesAlongZ => {
            assert(run.final_z() <= 15);
            assert(longer(run.spec_get_z()) == run.spec_get_z() + 1);
            lemma_from_xyz(1, run.spec_get_y(), longer(run.spec_get_z()));
            assert(grown.final_z() == run.final_z() + 1);
            lemma_longer_product(run.final_z(), 1);
        },
        Pass::XFacesAlongY => {
            assert(run.final_y() <= 255);
            lemma_from_xyz(1, longer(run.spec_get_y()), run.spec_get_z());
            assert(grown.final_y() == run.final_y() + 1);
            assert(grown.final_z() == run.final_z());
            assert(face.final_z() == run.final_z());
            lemma_longer_product(run.final_y(), run.final_z());
        },
        Pass::ZFacesAlongX => {
            assert(run.final_x() <= 15);
            assert(longer(run.spec_get_x()) == run.spec_get_x() + 1);
            lemma_from_xyz(longer(run.spec_get_x()), run.spec_get_y(), 1);
            assert(grown.final_x() == run.final_x() + 1);
            lemma_longer_product(run.final_x(), 1);
        },
        Pass::ZFacesAlongY => {
            assert(run.final_y() <= 255);
            lemma_from_xyz(run.spec_get_x(), longer(run.spec_get_y()), 1);
            assert(grown.final_y() == run.final_y() + 1);
            assert(grown.final_x() == run.final_x());
            assert(face.final_x() == run.final_x());
            lemma_longer_product(run.final_y(), run.final_x());
        },
        Pass::YFacesAlongX => {
            assert(run.final_x() <= 15);
            assert(longer(run.spec_get_x()) == run.spec_get_x() + 1);
            lemma_from_xyz(longer(run.spec_get_x()), 1, run.spec_get_z());
            assert(grown.final_x() == run.final_x() + 1);
            lemma_longer_product(run.final_x(), 1);
        },
        Pass::YFacesAlongZ => {
            assert(run.final_z() <= 15);
            assert(longer(run.spec_get_z()) == run.spec_get_z() + 1);
            lemma_from_xyz(run.spec_get_x(), 1, longer(run.spec_get_z()));
            assert(grown.final_z() == run.final_z() + 1);
            assert(grown.final_x() == run.final_x());
            assert(face.final_x() == run.final_x());
            lemma_longer_product(run.final_z(), run.final_x());
        },
    }
}

/// The run that a pass has collected at a cell is no longer than the line
/// up to that cell.
proof fn lemma_collected_fits(pass: Pass, cells: Seq<BlockPreMesh>, i: int)
    requires
        pass.takes_all(cells),
        0 <= i < NB_BLOCKS_PER_CHUNK,
    ensures
        pass.gives(pass.collected(cells, i), i),
    decreases i,
{
    assert(pass.takes(cells[i]));
    if !(i < pass.stride() || pass.starts_line(i)) {
        lemma_collected_fits(pass, cells, i - pass.stride());
        let earlier = pass.collected(cells, i - pass.stride());
        if pass.mergeable(earlier, cells[i]) {
            lemma_merged_area(pass, earlier, cells[i], i);
        }
    }
}

/// What a pass leaves in a cell is what the next pass of the same axis
/// starts from.
proof fn lemma_passed_fits(first: Pass, second: Pass, cells: Seq<BlockPreMesh>)
    requires
        first.takes_all(cells),
        first.is_first(),
        !second.is_first(),
        first.looks_along() == second.looks_along(),
    ensures
        second.takes_all(first.passed(cells)),
{
    assert forall|i: int| 0 <= i < NB_BLOCKS_PER_CHUNK implies second.takes(
        #[trigger] first.passed(cells)[i],
    ) by {
        lemma_collected_fits(first, cells, i);
    }
}

/// The array that a pass has made when it has done the steps before `i`.
pub open spec fn array_before_step(pass: Pass, start: Seq<BlockPreMesh>, i: int) -> Seq<
    BlockPreMesh,
> {
    Seq::new(NB_BLOCKS_PER_CHUNK as nat, |j: int| pass.cell_before_step(start, i, j))
}

/// A step that merges two cells whose faces cover together what the merged
/// face covers keeps the area of the faces.
proof fn lemma_merge_keeps_area(pass: Pass, current: Seq<BlockPreMesh>, i: int, stride: int)
    requires
        current.len() == NB_BLOCKS_PER_CHUNK,
        stride == pass.stride(),
        1 <= stride <= i < NB_BLOCKS_PER_CHUNK,
        pass.mergeable(current[i - stride], current[i]),
        face_area(pass.looks_along(), pass.merged(current[i - stride], current[i])) == face_area(
            pass.looks_along(),
            current[i - stride],
        ) + face_area(pass.looks_along(), current[i]),
    ensures
        area_sum(pass.looks_along(), pass.stepped(current, i), NB_BLOCKS_PER_CHUNK as int)
            == area_sum(pass.looks_along(), current, NB_BLOCKS_PER_CHUNK as int),
{
    let direction = pass.looks_along();
    let earlier = current[i - stride];
    let merged = pass.merged(earlier, current[i]);
    let halfway = current.update(i, merged);
    assert(pass.stepped(current, i) == halfway.update(i - stride, earlier.hidden()));
    lemma_area_sum_update(direction, current, i, merged, NB_BLOCKS_PER_CHUNK as int);
    lemma_area_sum_update(
        direction,
        halfway,
        i - stride,
        earlier.hidden(),
        NB_BLOCKS_PER_CHUNK as int,
    );
    assert(halfway[i - stride] == earlier);
    assert(!earlier.hidden().spec_will_be_rendered());
    assert(face_area(direction, earlier.hidden()) == 0);
}

/// A step of a pass keeps the area of the faces.
proof fn lemma_step_keeps_area(pass: Pass, start: Seq<BlockPreMesh>, i: int)
    requires
        pass.takes_all(start),
        pass.stride() <= i < NB_BLOCKS_PER_CHUNK,
        !pass.starts_line(i),
    ensures
        area_sum(
            pass.looks_along(),
            pass.stepped(array_before_step(pass, start, i), i),
            NB_BLOCKS_PER_CHUNK as int,
        ) == area_sum(
            pass.looks_along(),
            array_before_step(pass, start, i),
            NB_BLOCKS_PER_CHUNK as int,
        ),
{
    let stride = pass.stride();
    let current = array_before_step(pass, start, i);
    let earlier = current[i - stride];
    let later = current[i];
    assert(earlier == pass.cell_before_step(start, i, i - stride));
    assert(later == pass.cell_before_step(start, i, i));
    assert(earlier == pass.collected(start, i - stride));
    assert(later == start[i]);
    if pass.mergeable(earlier, later) {
        lemma_collected_fits(pass, start, i - stride);
        assert(pass.takes(start[i]));
        lemma_merged_area(pass, earlier, later, i);
        lemma_merge_keeps_area(pass, current, i, stride);
    }
}

/// The steps of a pass before `i` keep the area of the faces.
proof fn lemma_steps_keep_area(pass: Pass, start: Seq<BlockPreMesh>, i: int)
    requires
        pass.takes_all(start),
        0 <= i <= NB_BLOCKS_PER_CHUNK,
    ensures
        area_sum(
            pass.looks_along(),
            array_before_step(pass, start, i),
            NB_BLOCKS_PER_CHUNK as int,
        ) == area_sum(pass.looks_along(), start, NB_BLOCKS_PER_CHUNK as int),
    decreases i,
{
    if i == 0 {
        assert(array_before_step(pass, start, 0) =~= start);
    } else {
        let step = i - 1;
        lemma_steps_keep_area(pass, start, step);
        let before = array_before_step(pass, start, step);
        let after = array_before_step(pass, start, i);
        assert(pass.reached(before, start, step));
        if pass.starts_line(step) {
            lemma_pass_skips(pass, before, start, step);
            assert(after =~= before);
        } else {
            assert(step >= pass.stride());
            lemma_pass_steps(pass, before, start, step);
            lemma_step_keeps_area(pass, start, step);
            assert(after =~= pass.stepped(before, step));
        }
    }
}

/// A pass keeps the area of the faces.
proof fn lemma_pass_keeps_area(pass: Pass, start: Seq<BlockPreMesh>)
    requires
        pass.takes_all(start),
    ensures
        area_sum(pass.looks_along(), pass.passed(start), NB_BLOCKS_PER_CHUNK as int) == area_sum(
            pass.looks_along(),
            start,
            NB_BLOCKS_PER_CHUNK as int,
        ),
{
    let n = NB_BLOCKS_PER_CHUNK as int;
    lemma_steps_keep_area(pass, start, n);
    assert(pass.reached(array_before_step(pass, start, n), start, n));
    lemma_pass_ends(pass, array_before_step(pass, start, n), start);
}

/// The two passes of an axis keep the area of the faces.
proof fn lemma_passes_keep_area(first: Pass, second: Pass, cells: Seq<BlockPreMesh>)
    requires
        faces_are_single(cells),
        first.is_first(),
        !second.is_first(),
        first.looks_along() == second.looks_along(),
    ensures
        area_sum(
            first.looks_along(),
            second.passed(first.passed(cells)),
            NB_BLOCKS_PER_CHUNK as int,
        ) == drawn_count(cells, NB_BLOCKS_PER_CHUNK as int),
{
    assert(first.takes_all(cells));
    lemma_single_faces_area(first.looks_along(), cells, NB_BLOCKS_PER_CHUNK as int);
    lemma_pass_keeps_area(first, cells);
    lemma_passed_fits(first, second, cells);
    lemma_pass_keeps_area(second, first.passed(cells));
}

/// Merging keeps the area of the faces that look along `x`: the faces that
/// are left cover, by their extents along `y` and `z`, as many blocks as
/// faces were drawn before.
pub proof fn lemma_area_is_kept_on_x_axis(cells: Seq<BlockPreMesh>)
    requires
        faces_are_single(cells),
    ensures
        area_sum(Face::PositiveX, merged_on_x_axis(cells), NB_BLOCKS_PER_CHUNK as int)
            == drawn_count(cells, NB_BLOCKS_PER_CHUNK as int),
        area_sum(Face::NegativeX, merged_on_x_axis(cells), NB_BLOCKS_PER_CHUNK as int)
            == drawn_count(cells, NB_BLOCKS_PER_CHUNK as int),
{
    lemma_passes_keep_area(Pass::XFacesAlongZ, Pass::XFacesAlongY, cells);
    lemma_opposite_faces_area(
        Face::PositiveX,
        Face::NegativeX,
        merged_on_x_axis(cells),
        NB_BLOCKS_PER_CHUNK as int,
    );
}

/// Merging keeps the area of the faces that look along `y`: the faces that
/// are left cover, by their extents along `x` and `z`, as many blocks as
/// faces were drawn before.
pub proof fn lemma_area_is_kept_on_y_axis(cells: Seq<BlockPreMesh>)
    requires
        faces_are_single(cells),
    ensures
        area_sum(Face::PositiveY, merged_on_y_axis(cells), NB_BLOCKS_PER_CHUNK as int)
            == drawn_count(cells, NB_BLOCKS_PER_CHUNK as int),
        area_sum(Face::NegativeY, merged_on_y_axis(cells), NB_BLOCKS_PER_CHUNK as int)
            == drawn_count(cells, NB_BLOCKS_PER_CHUNK as int),
{
    lemma_passes_keep_area(Pass::YFacesAlongX, Pass::YFacesAlongZ, cells);
    lemma_opposite_faces_area(
        Face::PositiveY,
        Face::NegativeY,
        merged_on_y_axis(cells),
        NB_BLOCKS_PER_CHUNK as int,
    );
}

/// Merging keeps the area of the faces that look along `z`: the faces that
/// are left cover, by their extents along `x` and `y`, as many blocks as
/// faces were drawn before.
pub proof fn lemma_area_is_kept_on_z_axis(cells: Seq<BlockPreMesh>)
    requires
        faces_are_single(cells),
    ensures
        area_sum(Face::PositiveZ, merged_on_z_axis(cells), NB_BLOCKS_PER_CHUNK as int)
            == drawn_count(cells, NB_BLOCKS_PER_CHUNK as int),
        area_sum(Face::NegativeZ, merged_on_z_axis(cells), NB_BLOCKS_PER_CHUNK as int)
            == drawn_count(cells, NB_BLOCKS_PER_CHUNK as int),
{
    lemma_passes_keep_area(Pass::ZFacesAlongX, Pass::ZFacesAlongY, cells);
    lemma_opposite_faces_area(
        Face::PositiveZ,
        Face::NegativeZ,
        merged_on_z_axis(cells),
        NB_BLOCKS_PER_CHUNK as int,
    );
}

/// Faces that look in opposite directions have their area measured alike.
proof fn lemma_opposite_faces_area(
    direction: Face,
    opposite: Face,
    cells: Seq<BlockPreMesh>,
    count: int,
)
    requires
        forall|cell: BlockPreMesh| face_area(direction, cell) == face_area(opposite, cell),
    ensures
        area_sum(direction, cells, count) == area_sum(opposite, cells, count),
    decreases count,
{
    if count > 0 {
        lemma_opposite_faces_area(direction, opposite, cells, count - 1);
    }
}

/// The faces of a chunk that are drawn after culling, in whatever direction
/// and beside whatever neighbour, are faces of one block: what merging
/// starts from.
pub proof fn lemma_culled_faces_are_single(
    blocks: Seq<Block>,
    outside: Option<Seq<Block>>,
    direction: Face,
)
    ensures
        faces_are_single(culled_cells(initial_cells(blocks), outside, direction)),
{
    let cells = culled_cells(initial_cells(blocks), outside, direction);
    assert forall|i: int|
        0 <= i < NB_BLOCKS_PER_CHUNK && (
        #[trigger] cells[i]).spec_will_be_rendered() implies cells[i].spec_get_stretch().0
        == 0x1011 by {
        assert(initial_cells(blocks)[i].spec_get_stretch().0 == 0 || initial_cells(
            blocks,
        )[i].spec_get_stretch().0 == 0x1011);
    }
}

} // verus!
