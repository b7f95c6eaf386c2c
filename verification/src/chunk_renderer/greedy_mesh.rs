//! Face merging: runs of equal faces collapse into one face that records
//! the length of the run.
//!
//! Each direction is merged in two passes, one along each axis of the face's
//! plane. A pass walks the cells in linear order. An earlier cell and the
//! cell one step further along the axis merge where both faces are drawn,
//! both hold the same block and both stretch equally far along the other
//! axis of the plane: the later cell then takes the earlier one's stretch,
//! one block longer along the axis of the pass, and the earlier cell is
//! hidden. The extent wraps in its field, so a run over the whole chunk ends
//! with a field of zero.

use vstd::prelude::*;
use crate::chunk::{CHUNK_SIZE, NB_BLOCKS_PER_CHUNK};
use crate::chunk_renderer::pre_mesh_creator::{
    BlockPreMesh,
    ChunkPreMeshOneDirection,
    Stretch,
    NB_BLOCK_ON_CHUNK_SIDE,
};

verus! {

/// A pass of face merging: the axis the faces look along and the axis that
/// runs are collected along.
pub enum Pass {
    XFacesAlongZ,
    XFacesAlongY,
    ZFacesAlongX,
    ZFacesAlongY,
    YFacesAlongX,
    YFacesAlongZ,
}

/// An extent that is one block longer, wrapping from 255 to zero.
pub open spec fn longer(extent: u8) -> u8 {
    if extent == 255 {
        0
    } else {
        (extent + 1) as u8
    }
}

impl Pass {
    /// The distance in the linear order between a cell and the next one
    /// along the axis of the pass.
    pub open spec fn stride(self) -> int {
        match self {
            Pass::XFacesAlongZ | Pass::YFacesAlongZ => 1,
            Pass::XFacesAlongY | Pass::ZFacesAlongY => 16,
            Pass::ZFacesAlongX | Pass::YFacesAlongX => 4096,
        }
    }

    /// Whether cell `i` is the first along the axis of the pass, with no
    /// cell before it to merge with.
    pub open spec fn starts_line(self, i: int) -> bool {
        match self {
            Pass::XFacesAlongZ | Pass::YFacesAlongZ => i % 16 == 0,
            Pass::XFacesAlongY | Pass::ZFacesAlongY => i % 4096 < 16,
            Pass::ZFacesAlongX | Pass::YFacesAlongX => i < 4096,
        }
    }

    /// Whether two stretches are equally long along the axis of the face's
    /// plane that the pass does not collect along.
    pub open spec fn agree(self, earlier: Stretch, later: Stretch) -> bool {
        match self {
            Pass::XFacesAlongZ | Pass::ZFacesAlongX => earlier.spec_get_y()
                == later.spec_get_y(),
            Pass::XFacesAlongY | Pass::YFacesAlongX => earlier.spec_get_z()
                == later.spec_get_z(),
            Pass::ZFacesAlongY | Pass::YFacesAlongZ => earlier.spec_get_x()
                == later.spec_get_x(),
        }
    }

    /// The stretch of a run that was `earlier` and is now one block longer.
    pub open spec fn lengthened(self, earlier: Stretch) -> Stretch {
        match self {
            Pass::XFacesAlongZ => Stretch::spec_from_xyz(
                1,
                earlier.spec_get_y(),
                longer(earlier.spec_get_z()),
            ),
            Pass::XFacesAlongY => Stretch::spec_from_xyz(
                1,
                longer(earlier.spec_get_y()),
                earlier.spec_get_z(),
            ),
            Pass::ZFacesAlongX => Stretch::spec_from_xyz(
                longer(earlier.spec_get_x()),
                earlier.spec_get_y(),
                1,
            ),
            Pass::ZFacesAlongY => Stretch::spec_from_xyz(
                earlier.spec_get_x(),
                longer(earlier.spec_get_y()),
                1,
            ),
            Pass::YFacesAlongX => Stretch::spec_from_xyz(
                longer(earlier.spec_get_x()),
                1,
                earlier.spec_get_z(),
            ),
            Pass::YFacesAlongZ => Stretch::spec_from_xyz(
                earlier.spec_get_x(),
                1,
                longer(earlier.spec_get_z()),
            ),
        }
    }

    /// Whether an earlier cell and the next one along the axis merge.
    pub open spec fn mergeable(self, earlier: BlockPreMesh, later: BlockPreMesh) -> bool {
        &&& earlier.spec_will_be_rendered()
        &&& later.spec_will_be_rendered()
        &&& earlier.spec_get_block() == later.spec_get_block()
        &&& self.agree(earlier.spec_get_stretch(), later.spec_get_stretch())
    }

    /// What the later of two cells becomes when they merge.
    pub open spec fn merged(self, earlier: BlockPreMesh, later: BlockPreMesh) -> BlockPreMesh {
        BlockPreMesh::spec_new(
            later.spec_get_block(),
            self.lengthened(earlier.spec_get_stretch()),
        )
    }

    /// The array after the step of the pass at cell `i`.
    pub open spec fn stepped(self, cells: Seq<BlockPreMesh>, i: int) -> Seq<BlockPreMesh> {
        let earlier = cells[i - self.stride()];
        let later = cells[i];
        if self.mergeable(earlier, later) {
            cells.update(i, self.merged(earlier, later)).update(
                i - self.stride(),
                earlier.hidden(),
            )
        } else {
            cells
        }
    }

    /// Cell `i` when the pass has reached it: the run that ends there.
    pub open spec fn collected(self, cells: Seq<BlockPreMesh>, i: int) -> BlockPreMesh
        decreases i,
    {
        if i < self.stride() || self.starts_line(i) {
            cells[i]
        } else {
            let earlier = self.collected(cells, i - self.stride());
            if self.mergeable(earlier, cells[i]) {
                self.merged(earlier, cells[i])
            } else {
                cells[i]
            }
        }
    }

    /// Whether the run that ends at cell `i` goes on into the next cell along
    /// the axis.
    pub open spec fn goes_on(self, cells: Seq<BlockPreMesh>, i: int) -> bool {
        &&& i + self.stride() < NB_BLOCKS_PER_CHUNK
        &&& !self.starts_line(i + self.stride())
        &&& self.mergeable(self.collected(cells, i), cells[i + self.stride()])
    }

    /// Cell `i` after the pass: the run that ends there, or a hidden cell
    /// where the run goes on.
    pub open spec fn passed_cell(self, cells: Seq<BlockPreMesh>, i: int) -> BlockPreMesh {
        if self.goes_on(cells, i) {
            self.collected(cells, i).hidden()
        } else {
            self.collected(cells, i)
        }
    }

    /// The array after the pass.
    pub open spec fn passed(self, cells: Seq<BlockPreMesh>) -> Seq<BlockPreMesh> {
        Seq::new(NB_BLOCKS_PER_CHUNK as nat, |i: int| self.passed_cell(cells, i))
    }

    /// Cell `j` when the pass over `cells` has done the steps before `i`.
    pub open spec fn cell_before_step(
        self,
        cells: Seq<BlockPreMesh>,
        i: int,
        j: int,
    ) -> BlockPreMesh {
        if j + self.stride() < i {
            self.passed_cell(cells, j)
        } else if j < i {
            self.collected(cells, j)
        } else {
            cells[j]
        }
    }

    /// Whether `current` is what the pass over `start` has made when it has
    /// done the steps before `i`.
    pub open spec fn reached(
        self,
        current: Seq<BlockPreMesh>,
        start: Seq<BlockPreMesh>,
        i: int,
    ) -> bool {
        &&& current.len() == NB_BLOCKS_PER_CHUNK
        &&& start.len() == NB_BLOCKS_PER_CHUNK
        &&& forall|j: int|
            0 <= j < NB_BLOCKS_PER_CHUNK ==> #[trigger] current[j] == self.cell_before_step(
                start,
                i,
                j,
            )
    }
}

/// The faces that look along `x` after both passes: along `z`, then along `y`.
pub open spec fn merged_on_x_axis(cells: Seq<BlockPreMesh>) -> Seq<BlockPreMesh> {
    Pass::XFacesAlongY.passed(Pass::XFacesAlongZ.passed(cells))
}

/// The faces that look along `z` after both passes: along `x`, then along `y`.
pub open spec fn merged_on_z_axis(cells: Seq<BlockPreMesh>) -> Seq<BlockPreMesh> {
    Pass::ZFacesAlongY.passed(Pass::ZFacesAlongX.passed(cells))
}

/// The faces that look along `y` after both passes: along `x`, then along `z`.
pub open spec fn merged_on_y_axis(cells: Seq<BlockPreMesh>) -> Seq<BlockPreMesh> {
    Pass::YFacesAlongZ.passed(Pass::YFacesAlongX.passed(cells))
}

/// A pass keeps the block of every cell.
pub proof fn lemma_pass_keeps_blocks(pass: Pass, cells: Seq<BlockPreMesh>, i: int)
    requires
        0 <= i < NB_BLOCKS_PER_CHUNK,
    ensures
        pass.collected(cells, i).spec_get_block() == cells[i].spec_get_block(),
        pass.passed_cell(cells, i).spec_get_block() == cells[i].spec_get_block(),
        pass.passed(cells)[i].spec_get_block() == cells[i].spec_get_block(),
{
}

/// Merging keeps the block of every cell, whatever the axis the faces look
/// along.
pub proof fn lemma_merging_keeps_blocks(cells: Seq<BlockPreMesh>, i: int)
    requires
        0 <= i < NB_BLOCKS_PER_CHUNK,
    ensures
        merged_on_x_axis(cells)[i].spec_get_block() == cells[i].spec_get_block(),
        merged_on_y_axis(cells)[i].spec_get_block() == cells[i].spec_get_block(),
        merged_on_z_axis(cells)[i].spec_get_block() == cells[i].spec_get_block(),
        merged_on_x_axis(cells).len() == NB_BLOCKS_PER_CHUNK,
        merged_on_y_axis(cells).len() == NB_BLOCKS_PER_CHUNK,
        merged_on_z_axis(cells).len() == NB_BLOCKS_PER_CHUNK,
{
    lemma_pass_keeps_blocks(Pass::XFacesAlongZ, cells, i);
    lemma_pass_keeps_blocks(Pass::XFacesAlongY, Pass::XFacesAlongZ.passed(cells), i);
    lemma_pass_keeps_blocks(Pass::YFacesAlongX, cells, i);
    lemma_pass_keeps_blocks(Pass::YFacesAlongZ, Pass::YFacesAlongX.passed(cells), i);
    lemma_pass_keeps_blocks(Pass::ZFacesAlongX, cells, i);
    lemma_pass_keeps_blocks(Pass::ZFacesAlongY, Pass::ZFacesAlongX.passed(cells), i);
}

/// Where no face of an array is drawn, a pass draws none.
pub proof fn lemma_pass_keeps_hidden(pass: Pass, cells: Seq<BlockPreMesh>, i: int)
    requires
        cells.len() == NB_BLOCKS_PER_CHUNK,
        forall|j: int|
            0 <= j < NB_BLOCKS_PER_CHUNK ==> !(#[trigger] cells[j]).spec_will_be_rendered(),
        0 <= i < NB_BLOCKS_PER_CHUNK,
    ensures
        !pass.collected(cells, i).spec_will_be_rendered(),
        !pass.passed(cells)[i].spec_will_be_rendered(),
    decreases i,
{
    assert(!cells[i].spec_will_be_rendered());
    if !(i < pass.stride() || pass.starts_line(i)) {
        lemma_pass_keeps_hidden(pass, cells, i - pass.stride());
    }
}

/// Where no face of an array is drawn, merging draws none, whatever the
/// axis the faces look along.
pub proof fn lemma_merging_keeps_hidden(cells: Seq<BlockPreMesh>)
    requires
        cells.len() == NB_BLOCKS_PER_CHUNK,
        forall|j: int|
            0 <= j < NB_BLOCKS_PER_CHUNK ==> !(#[trigger] cells[j]).spec_will_be_rendered(),
    ensures
        forall|i: int|
            0 <= i < NB_BLOCKS_PER_CHUNK ==> !(#[trigger] merged_on_x_axis(
                cells,
            )[i]).spec_will_be_rendered(),
        forall|i: int|
            0 <= i < NB_BLOCKS_PER_CHUNK ==> !(#[trigger] merged_on_y_axis(
                cells,
            )[i]).spec_will_be_rendered(),
        forall|i: int|
            0 <= i < NB_BLOCKS_PER_CHUNK ==> !(#[trigger] merged_on_z_axis(
                cells,
            )[i]).spec_will_be_rendered(),
{
    let x_first = Pass::XFacesAlongZ.passed(cells);
    let y_first = Pass::YFacesAlongX.passed(cells);
    let z_first = Pass::ZFacesAlongX.passed(cells);
    assert forall|j: int| 0 <= j < NB_BLOCKS_PER_CHUNK implies !(
    #[trigger] x_first[j]).spec_will_be_rendered() by {
        lemma_pass_keeps_hidden(Pass::XFacesAlongZ, cells, j);
    }
    assert forall|j: int| 0 <= j < NB_BLOCKS_PER_CHUNK implies !(
    #[trigger] y_first[j]).spec_will_be_rendered() by {
        lemma_pass_keeps_hidden(Pass::YFacesAlongX, cells, j);
    }
    assert forall|j: int| 0 <= j < NB_BLOCKS_PER_CHUNK implies !(
    #[trigger] z_first[j]).spec_will_be_rendered() by {
        lemma_pass_keeps_hidden(Pass::ZFacesAlongX, cells, j);
    }
    assert forall|i: int| 0 <= i < NB_BLOCKS_PER_CHUNK implies !(#[trigger] merged_on_x_axis(
        cells,
    )[i]).spec_will_be_rendered() by {
        lemma_pass_keeps_hidden(Pass::XFacesAlongY, x_first, i);
    }
    assert forall|i: int| 0 <= i < NB_BLOCKS_PER_CHUNK implies !(#[trigger] merged_on_y_axis(
        cells,
    )[i]).spec_will_be_rendered() by {
        lemma_pass_keeps_hidden(Pass::YFacesAlongZ, y_first, i);
    }
    assert forall|i: int| 0 <= i < NB_BLOCKS_PER_CHUNK implies !(#[trigger] merged_on_z_axis(
        cells,
    )[i]).spec_will_be_rendered() by {
        lemma_pass_keeps_hidden(Pass::ZFacesAlongY, z_first, i);
    }
}

/// A pass that has done no step that changes a cell has left the array as
/// it was.
pub proof fn lemma_pass_begins(pass: Pass, start: Seq<BlockPreMesh>, i: int)
    requires
        start.len() == NB_BLOCKS_PER_CHUNK,
        0 <= i <= pass.stride(),
        forall|j: int| 0 <= j < i ==> pass.starts_line(j),
    ensures
        pass.reached(start, start, i),
{
}

/// A pass that skips a cell at the start of a line has done its step there.
pub proof fn lemma_pass_skips(
    pass: Pass,
    current: Seq<BlockPreMesh>,
    start: Seq<BlockPreMesh>,
    i: int,
)
    requires
        pass.reached(current, start, i),
        0 <= i < NB_BLOCKS_PER_CHUNK,
        pass.starts_line(i),
    ensures
        pass.reached(current, start, i + 1),
{
    assert forall|j: int| 0 <= j < NB_BLOCKS_PER_CHUNK implies #[trigger] current[j]
        == pass.cell_before_step(start, i + 1, j) by {
        assert(current[j] == pass.cell_before_step(start, i, j));
    }
}

/// A step of a pass takes the array from what the steps before it have made
/// to what the steps up to it make.
pub proof fn lemma_pass_steps(
    pass: Pass,
    current: Seq<BlockPreMesh>,
    start: Seq<BlockPreMesh>,
    i: int,
)
    requires
        pass.reached(current, start, i),
        0 <= i < NB_BLOCKS_PER_CHUNK,
        i >= pass.stride(),
        !pass.starts_line(i),
    ensures
        pass.reached(pass.stepped(current, i), start, i + 1),
{
    let next = pass.stepped(current, i);
    assert(current[i - pass.stride()] == pass.cell_before_step(start, i, i - pass.stride()));
    assert(current[i] == pass.cell_before_step(start, i, i));
    assert forall|j: int| 0 <= j < NB_BLOCKS_PER_CHUNK implies #[trigger] next[j]
        == pass.cell_before_step(start, i + 1, j) by {
        assert(current[j] == pass.cell_before_step(start, i, j));
    }
}

/// A pass that has done all its steps has made the array after the pass.
pub proof fn lemma_pass_ends(pass: Pass, current: Seq<BlockPreMesh>, start: Seq<BlockPreMesh>)
    requires
        pass.reached(current, start, NB_BLOCKS_PER_CHUNK as int),
    ensures
        current == pass.passed(start),
{
    assert forall|j: int| 0 <= j < NB_BLOCKS_PER_CHUNK implies current[j] == pass.passed_cell(
        start,
        j,
    ) by {
        assert(current[j] == pass.cell_before_step(start, NB_BLOCKS_PER_CHUNK as int, j));
    }
    assert(current =~= pass.passed(start));
}

/// Merges the face of cell `index` that looks along `x` with the one before it in `z`.
fn merge_faces_on_x_axis_along_z(pre_mesh_on_x_axis: &mut ChunkPreMeshOneDirection, index: usize)
    requires
        old(pre_mesh_on_x_axis).is_full(),
        1 <= index < NB_BLOCKS_PER_CHUNK,
    ensures
        final(pre_mesh_on_x_axis)@ == Pass::XFacesAlongZ.stepped(
            old(pre_mesh_on_x_axis)@,
            index as int,
        ),
{
    let pre_mesh_1 = pre_mesh_on_x_axis.get_pre_mesh(index - 1);
    let pre_mesh_2 = pre_mesh_on_x_axis.get_pre_mesh(index);

    if !pre_mesh_1.will_be_rendered() || !pre_mesh_2.will_be_rendered() {
        return;
    }

    if pre_mesh_1.get_block() != pre_mesh_2.get_block() {
        return;
    }

    let pre_mesh_1_stretch = pre_mesh_1.get_stretch();
    let pre_mesh_2_stretch = pre_mesh_2.get_stretch();

    if pre_mesh_1_stretch.get_y() != pre_mesh_2_stretch.get_y() {
        return;
    }

    let new_block = pre_mesh_2.get_block();
    let new_stretch = Stretch::from_xyz(
        1,
        pre_mesh_1_stretch.get_y(),
        pre_mesh_1_stretch.get_z().wrapping_add(1),
    );

    let new_pre_mesh = BlockPreMesh::new(new_block, new_stretch);
    pre_mesh_on_x_axis.set_pre_mesh(index, new_pre_mesh);
    pre_mesh_on_x_axis.should_not_be_rendered(index - 1);
}

/// Merges the face of cell `index` that looks along `x` with the one below it.
fn merge_faces_on_x_axis_along_y(pre_mesh_on_x_axis: &mut ChunkPreMeshOneDirection, index: usize)
    requires
        old(pre_mesh_on_x_axis).is_full(),
        16 <= index < NB_BLOCKS_PER_CHUNK,
    ensures
        final(pre_mesh_on_x_axis)@ == Pass::XFacesAlongY.stepped(
            old(pre_mesh_on_x_axis)@,
            index as int,
        ),
{
    let pre_mesh_1 = pre_mesh_on_x_axis.get_pre_mesh(index - CHUNK_SIZE);
    let pre_mesh_2 = pre_mesh_on_x_axis.get_pre_mesh(index);

    if !pre_mesh_1.will_be_rendered() || !pre_mesh_2.will_be_rendered() {
        return;
    }

    if pre_mesh_1.get_block() != pre_mesh_2.get_block() {
        return;
    }

    let pre_mesh_1_stretch = pre_mesh_1.get_stretch();
    let pre_mesh_2_stretch = pre_mesh_2.get_stretch();

    if pre_mesh_1_stretch.get_z() != pre_mesh_2_stretch.get_z() {
        return;
    }

    let new_block = pre_mesh_2.get_block();
    let new_stretch = Stretch::from_xyz(
        1,
        pre_mesh_1_stretch.get_y().wrapping_add(1),
        pre_mesh_1_stretch.get_z(),
    );

    let new_pre_mesh = BlockPreMesh::new(new_block, new_stretch);
    pre_mesh_on_x_axis.set_pre_mesh(index, new_pre_mesh);
    pre_mesh_on_x_axis.should_not_be_rendered(index - CHUNK_SIZE);
}

/// Merges the face of cell `index` that looks along `z` with the one before it in `x`.
fn merge_faces_on_z_axis_along_x(pre_mesh_on_z_axis: &mut ChunkPreMeshOneDirection, index: usize)
    requires
        old(pre_mesh_on_z_axis).is_full(),
        4096 <= index < NB_BLOCKS_PER_CHUNK,
    ensures
        final(pre_mesh_on_z_axis)@ == Pass::ZFacesAlongX.stepped(
            old(pre_mesh_on_z_axis)@,
            index as int,
        ),
{
    let pre_mesh_1 = pre_mesh_on_z_axis.get_pre_mesh(index - NB_BLOCK_ON_CHUNK_SIDE);
    let pre_mesh_2 = pre_mesh_on_z_axis.get_pre_mesh(index);

    if !pre_mesh_1.will_be_rendered() || !pre_mesh_2.will_be_rendered() {
        return;
    }

    if pre_mesh_1.get_block() != pre_mesh_2.get_block() {
        return;
    }

    let pre_mesh_1_stretch = pre_mesh_1.get_stretch();
    let pre_mesh_2_stretch = pre_mesh_2.get_stretch();

    if pre_mesh_1_stretch.get_y() != pre_mesh_2_stretch.get_y() {
        return;
    }

    let new_block = pre_mesh_2.get_block();
    let new_stretch = Stretch::from_xyz(
        pre_mesh_1_stretch.get_x().wrapping_add(1),
        pre_mesh_1_stretch.get_y(),
        1,
    );

    let new_pre_mesh = BlockPreMesh::new(new_block, new_stretch);
    pre_mesh_on_z_axis.set_pre_mesh(index, new_pre_mesh);
    pre_mesh_on_z_axis.should_not_be_rendered(index - NB_BLOCK_ON_CHUNK_SIDE);
}

/// Merges the face of cell `index` that looks along `z` with the one below it.
fn merge_faces_on_z_axis_along_y(pre_mesh_on_z_axis: &mut ChunkPreMeshOneDirection, index: usize)
    requires
        old(pre_mesh_on_z_axis).is_full(),
        16 <= index < NB_BLOCKS_PER_CHUNK,
    ensures
        final(pre_mesh_on_z_axis)@ == Pass::ZFacesAlongY.stepped(
            old(pre_mesh_on_z_axis)@,
            index as int,
        ),
{
    let pre_mesh_1 = pre_mesh_on_z_axis.get_pre_mesh(index - CHUNK_SIZE);
    let pre_mesh_2 = pre_mesh_on_z_axis.get_pre_mesh(index);

    if !pre_mesh_1.will_be_rendered() || !pre_mesh_2.will_be_rendered() {
        return;
    }

    if pre_mesh_1.get_block() != pre_mesh_2.get_block() {
        return;
    }

    let pre_mesh_1_stretch = pre_mesh_1.get_stretch();
    let pre_mesh_2_stretch = pre_mesh_2.get_stretch();

    if pre_mesh_1_stretch.get_x() != pre_mesh_2_stretch.get_x() {
        return;
    }

    let new_block = pre_mesh_2.get_block();
    let new_stretch = Stretch::from_xyz(
        pre_mesh_1_stretch.get_x(),
        pre_mesh_1_stretch.get_y().wrapping_add(1),
        1,
    );

    let new_pre_mesh = BlockPreMesh::new(new_block, new_stretch);
    pre_mesh_on_z_axis.set_pre_mesh(index, new_pre_mesh);
    pre_mesh_on_z_axis.should_not_be_rendered(index - CHUNK_SIZE);
}

/// Merges the face of cell `index` that looks along `y` with the one before it in `x`.
fn merge_faces_on_y_axis_along_x(pre_mesh_on_y_axis: &mut ChunkPreMeshOneDirection, index: usize)
    requires
        old(pre_mesh_on_y_axis).is_full(),
        4096 <= index < NB_BLOCKS_PER_CHUNK,
    ensures
        final(pre_mesh_on_y_axis)@ == Pass::YFacesAlongX.stepped(
            old(pre_mesh_on_y_axis)@,
            index as int,
        ),
{
    let pre_mesh_1 = pre_mesh_on_y_axis.get_pre_mesh(index - NB_BLOCK_ON_CHUNK_SIDE);
    let pre_mesh_2 = pre_mesh_on_y_axis.get_pre_mesh(index);

    if !pre_mesh_1.will_be_rendered() || !pre_mesh_2.will_be_rendered() {
        return;
    }

    if pre_mesh_1.get_block() != pre_mesh_2.get_block() {
        return;
    }

    let pre_mesh_1_stretch = pre_mesh_1.get_stretch();
    let pre_mesh_2_stretch = pre_mesh_2.get_stretch();

    if pre_mesh_1_stretch.get_z() != pre_mesh_2_stretch.get_z() {
        return;
    }

    let new_block = pre_mesh_2.get_block();
    let new_stretch = Stretch::from_xyz(
        pre_mesh_1_stretch.get_x().wrapping_add(1),
        1,
        pre_mesh_1_stretch.get_z(),
    );

    let new_pre_mesh = BlockPreMesh::new(new_block, new_stretch);
    pre_mesh_on_y_axis.set_pre_mesh(index, new_pre_mesh);
    pre_mesh_on_y_axis.should_not_be_rendered(index - NB_BLOCK_ON_CHUNK_SIDE);
}

/// Merges the face of cell `index` that looks along `y` with the one before it in `z`.
fn merge_faces_on_y_axis_along_z(pre_mesh_on_y_axis: &mut ChunkPreMeshOneDirection, index: usize)
    requires
        old(pre_mesh_on_y_axis).is_full(),
        1 <= index < NB_BLOCKS_PER_CHUNK,
    ensures
        final(pre_mesh_on_y_axis)@ == Pass::YFacesAlongZ.stepped(
            old(pre_mesh_on_y_axis)@,
            index as int,
        ),
{
    let pre_mesh_1 = pre_mesh_on_y_axis.get_pre_mesh(index - 1);
    let pre_mesh_2 = pre_mesh_on_y_axis.get_pre_mesh(index);

    if !pre_mesh_1.will_be_rendered() || !pre_mesh_2.will_be_rendered() {
        return;
    }

    if pre_mesh_1.get_block() != pre_mesh_2.get_block() {
        return;
    }

    let pre_mesh_1_stretch = pre_mesh_1.get_stretch();
    let pre_mesh_2_stretch = pre_mesh_2.get_stretch();

    if pre_mesh_1_stretch.get_x() != pre_mesh_2_stretch.get_x() {
        return;
    }

    let new_block = pre_mesh_2.get_block();
    let new_stretch = Stretch::from_xyz(
        pre_mesh_1_stretch.get_x(),
        1,
        pre_mesh_1_stretch.get_z().wrapping_add(1),
    );

    let new_pre_mesh = BlockPreMesh::new(new_block, new_stretch);
    pre_mesh_on_y_axis.set_pre_mesh(index, new_pre_mesh);
    pre_mesh_on_y_axis.should_not_be_rendered(index - 1);
}

/// Merges the faces that look towards `+x` and those that look towards `-x`:
/// along `z`, then along `y`.
pub fn merge_faces_on_x_axis(
    positive_x_pre_mesh: &mut ChunkPreMeshOneDirection,
    negative_x_pre_mesh: &mut ChunkPreMeshOneDirection,
)
    requires
        old(positive_x_pre_mesh).is_full(),
        old(negative_x_pre_mesh).is_full(),
    ensures
        final(positive_x_pre_mesh)@ == merged_on_x_axis(old(positive_x_pre_mesh)@),
        final(negative_x_pre_mesh)@ == merged_on_x_axis(old(negative_x_pre_mesh)@),
{
    let ghost positive_start = positive_x_pre_mesh@;
    let ghost negative_start = negative_x_pre_mesh@;
    proof {
        lemma_pass_begins(Pass::XFacesAlongZ, positive_start, 0);
        lemma_pass_begins(Pass::XFacesAlongZ, negative_start, 0);
    }
    for i in 0..NB_BLOCKS_PER_CHUNK
        invariant
            Pass::XFacesAlongZ.reached(positive_x_pre_mesh@, positive_start, i as int),
            Pass::XFacesAlongZ.reached(negative_x_pre_mesh@, negative_start, i as int),
    {
        let ghost positive_before = positive_x_pre_mesh@;
        let ghost negative_before = negative_x_pre_mesh@;
        if i % CHUNK_SIZE != 0 {
            merge_faces_on_x_axis_along_z(positive_x_pre_mesh, i);
            merge_faces_on_x_axis_along_z(negative_x_pre_mesh, i);
            proof {
                lemma_pass_steps(Pass::XFacesAlongZ, positive_before, positive_start, i as int);
                lemma_pass_steps(Pass::XFacesAlongZ, negative_before, negative_start, i as int);
            }
        } else {
            proof {
                lemma_pass_skips(Pass::XFacesAlongZ, positive_before, positive_start, i as int);
                lemma_pass_skips(Pass::XFacesAlongZ, negative_before, negative_start, i as int);
            }
        }
    }
    proof {
        lemma_pass_ends(Pass::XFacesAlongZ, positive_x_pre_mesh@, positive_start);
        lemma_pass_ends(Pass::XFacesAlongZ, negative_x_pre_mesh@, negative_start);
    }

    let ghost positive_start = positive_x_pre_mesh@;
    let ghost negative_start = negative_x_pre_mesh@;
    proof {
        lemma_pass_begins(Pass::XFacesAlongY, positive_start, 0);
        lemma_pass_begins(Pass::XFacesAlongY, negative_start, 0);
    }
    for i in 0..NB_BLOCKS_PER_CHUNK
        invariant
            Pass::XFacesAlongY.reached(positive_x_pre_mesh@, positive_start, i as int),
            Pass::XFacesAlongY.reached(negative_x_pre_mesh@, negative_start, i as int),
    {
        let ghost positive_before = positive_x_pre_mesh@;
        let ghost negative_before = negative_x_pre_mesh@;
        if i % NB_BLOCK_ON_CHUNK_SIDE >= CHUNK_SIZE {
            merge_faces_on_x_axis_along_y(positive_x_pre_mesh, i);
            merge_faces_on_x_axis_along_y(negative_x_pre_mesh, i);
            proof {
                lemma_pass_steps(Pass::XFacesAlongY, positive_before, positive_start, i as int);
                lemma_pass_steps(Pass::XFacesAlongY, negative_before, negative_start, i as int);
            }
        } else {
            proof {
                lemma_pass_skips(Pass::XFacesAlongY, positive_before, positive_start, i as int);
                lemma_pass_skips(Pass::XFacesAlongY, negative_before, negative_start, i as int);
            }
        }
    }
    proof {
        lemma_pass_ends(Pass::XFacesAlongY, positive_x_pre_mesh@, positive_start);
        lemma_pass_ends(Pass::XFacesAlongY, negative_x_pre_mesh@, negative_start);
    }
}

/// Merges the faces that look towards `+z` and those that look towards `-z`:
/// along `x`, then along `y`.
pub fn merge_faces_on_z_axis(
    positive_z_pre_mesh: &mut ChunkPreMeshOneDirection,
    negative_z_pre_mesh: &mut ChunkPreMeshOneDirection,
)
    requires
        old(positive_z_pre_mesh).is_full(),
        old(negative_z_pre_mesh).is_full(),
    ensures
        final(positive_z_pre_mesh)@ == merged_on_z_axis(old(positive_z_pre_mesh)@),
        final(negative_z_pre_mesh)@ == merged_on_z_axis(old(negative_z_pre_mesh)@),
{
    let ghost positive_start = positive_z_pre_mesh@;
    let ghost negative_start = negative_z_pre_mesh@;
    proof {
        lemma_pass_begins(Pass::ZFacesAlongX, positive_start, 4096);
        lemma_pass_begins(Pass::ZFacesAlongX, negative_start, 4096);
    }
    for i in NB_BLOCK_ON_CHUNK_SIDE..NB_BLOCKS_PER_CHUNK
        invariant
            Pass::ZFacesAlongX.reached(positive_z_pre_mesh@, positive_start, i as int),
            Pass::ZFacesAlongX.reached(negative_z_pre_mesh@, negative_start, i as int),
    {
        let ghost positive_before = positive_z_pre_mesh@;
        let ghost negative_before = negative_z_pre_mesh@;
        merge_faces_on_z_axis_along_x(positive_z_pre_mesh, i);
        merge_faces_on_z_axis_along_x(negative_z_pre_mesh, i);
        proof {
            lemma_pass_steps(Pass::ZFacesAlongX, positive_before, positive_start, i as int);
            lemma_pass_steps(Pass::ZFacesAlongX, negative_before, negative_start, i as int);
        }
    }
    proof {
        lemma_pass_ends(Pass::ZFacesAlongX, positive_z_pre_mesh@, positive_start);
        lemma_pass_ends(Pass::ZFacesAlongX, negative_z_pre_mesh@, negative_start);
    }

    let ghost positive_start = positive_z_pre_mesh@;
    let ghost negative_start = negative_z_pre_mesh@;
    proof {
        lemma_pass_begins(Pass::ZFacesAlongY, positive_start, 0);
        lemma_pass_begins(Pass::ZFacesAlongY, negative_start, 0);
    }
    for i in 0..NB_BLOCKS_PER_CHUNK
        invariant
            Pass::ZFacesAlongY.reached(positive_z_pre_mesh@, positive_start, i as int),
            Pass::ZFacesAlongY.reached(negative_z_pre_mesh@, negative_start, i as int),
    {
        let ghost positive_before = positive_z_pre_mesh@;
        let ghost negative_before = negative_z_pre_mesh@;
        if i % NB_BLOCK_ON_CHUNK_SIDE >= CHUNK_SIZE {
            merge_faces_on_z_axis_along_y(positive_z_pre_mesh, i);
            merge_faces_on_z_axis_along_y(negative_z_pre_mesh, i);
            proof {
                lemma_pass_steps(Pass::ZFacesAlongY, positive_before, positive_start, i as int);
                lemma_pass_steps(Pass::ZFacesAlongY, negative_before, negative_start, i as int);
            }
        } else {
            proof {
                lemma_pass_skips(Pass::ZFacesAlongY, positive_before, positive_start, i as int);
                lemma_pass_skips(Pass::ZFacesAlongY, negative_before, negative_start, i as int);
            }
        }
    }
    proof {
        lemma_pass_ends(Pass::ZFacesAlongY, positive_z_pre_mesh@, positive_start);
        lemma_pass_ends(Pass::ZFacesAlongY, negative_z_pre_mesh@, negative_start);
    }
}

/// Merges the faces that look up and those that look down: along `x`, then along `z`.
pub fn merge_faces_on_y_axis(
    positive_y_pre_mesh: &mut ChunkPreMeshOneDirection,
    negative_y_pre_mesh: &mut ChunkPreMeshOneDirection,
)
    requires
        old(positive_y_pre_mesh).is_full(),
        old(negative_y_pre_mesh).is_full(),
    ensures
        final(positive_y_pre_mesh)@ == merged_on_y_axis(old(positive_y_pre_mesh)@),
        final(negative_y_pre_mesh)@ == merged_on_y_axis(old(negative_y_pre_mesh)@),
{
    let ghost positive_start = positive_y_pre_mesh@;
    let ghost negative_start = negative_y_pre_mesh@;
    proof {
        lemma_pass_begins(Pass::YFacesAlongX, positive_start, 4096);
        lemma_pass_begins(Pass::YFacesAlongX, negative_start, 4096);
    }
    for i in NB_BLOCK_ON_CHUNK_SIDE..NB_BLOCKS_PER_CHUNK
        invariant
            Pass::YFacesAlongX.reached(positive_y_pre_mesh@, positive_start, i as int),
            Pass::YFacesAlongX.reached(negative_y_pre_mesh@, negative_start, i as int),
    {
        let ghost positive_before = positive_y_pre_mesh@;
        let ghost negative_before = negative_y_pre_mesh@;
        merge_faces_on_y_axis_along_x(positive_y_pre_mesh, i);
        merge_faces_on_y_axis_along_x(negative_y_pre_mesh, i);
        proof {
            lemma_pass_steps(Pass::YFacesAlongX, positive_before, positive_start, i as int);
            lemma_pass_steps(Pass::YFacesAlongX, negative_before, negative_start, i as int);
        }
    }
    proof {
        lemma_pass_ends(Pass::YFacesAlongX, positive_y_pre_mesh@, positive_start);
        lemma_pass_ends(Pass::YFacesAlongX, negative_y_pre_mesh@, negative_start);
    }

    let ghost positive_start = positive_y_pre_mesh@;
    let ghost negative_start = negative_y_pre_mesh@;
    proof {
        lemma_pass_begins(Pass::YFacesAlongZ, positive_start, 0);
        lemma_pass_begins(Pass::YFacesAlongZ, negative_start, 0);
    }
    for i in 0..NB_BLOCKS_PER_CHUNK
        invariant
            Pass::YFacesAlongZ.reached(positive_y_pre_mesh@, positive_start, i as int),
            Pass::YFacesAlongZ.reached(negative_y_pre_mesh@, negative_start, i as int),
    {
        let ghost positive_before = positive_y_pre_mesh@;
        let ghost negative_before = negative_y_pre_mesh@;
        if i % CHUNK_SIZE != 0 {
            merge_faces_on_y_axis_along_z(positive_y_pre_mesh, i);
            merge_faces_on_y_axis_along_z(negative_y_pre_mesh, i);
            proof {
                lemma_pass_steps(Pass::YFacesAlongZ, positive_before, positive_start, i as int);
                lemma_pass_steps(Pass::YFacesAlongZ, negative_before, negative_start, i as int);
            }
        } else {
            proof {
                lemma_pass_skips(Pass::YFacesAlongZ, positive_before, positive_start, i as int);
                lemma_pass_skips(Pass::YFacesAlongZ, negative_before, negative_start, i as int);
            }
        }
    }
    proof {
        lemma_pass_ends(Pass::YFacesAlongZ, positive_y_pre_mesh@, positive_start);
        lemma_pass_ends(Pass::YFacesAlongZ, negative_y_pre_mesh@, negative_start);
    }
}

} // verus!
