use vstd::prelude::*;

use crate::block_mesh::{spec_material, BlockMesh, MeshDraw, Rgb, TextureHandle, Translation};
use crate::block_mesh::{CUBE_INDEX_COUNT, CUBE_VERTEX_FLOAT_COUNT};
use crate::errors::EngineError;
use vstd::pervasive::unreached;

verus! {

/// A registered block template: its identity and its mesh. `is_opaque`
/// records whether the block fully hides what stands behind it.
#[derive(Clone, Copy, Debug)]
pub struct Block {
    pub block_id: i32,
    pub mesh: BlockMesh,
    pub is_opaque: bool,
}

/// One placement: a template, by id, at an integer grid coordinate.
#[derive(Clone, Copy, Debug, PartialEq, Eq, Structural)]
pub struct BlockInstance {
    pub block_id: i32,
    pub x: i32,
    pub y: i32,
    pub z: i32,
}

/// One record of the render dispatch: which template's resources the draw
/// binds, and the mesh draw itself.
#[derive(Clone, Copy, Debug, PartialEq, Eq, Structural)]
pub struct DrawCall {
    pub block_id: i32,
    pub draw: MeshDraw,
}

/// Ids are dense and zero-based: the template at index `i` carries id `i`.
pub open spec fn wf_blocks(blocks: Seq<Block>) -> bool {
    &&& blocks.len() <= i32::MAX as int
    &&& forall|i: int| 0 <= i < blocks.len() ==> (#[trigger] blocks[i]).block_id == i
}

/// An id resolves exactly when it lies in the registered range.
pub open spec fn valid_id(blocks: Seq<Block>, id: i32) -> bool {
    0 <= id < blocks.len()
}

/// What resolution returns: the template at the id's index, or nothing for
/// an id outside the registered range.
pub open spec fn spec_resolve(blocks: Seq<Block>, id: i32) -> Option<Block> {
    if valid_id(blocks, id) {
        Some(blocks[id as int])
    } else {
        None
    }
}

/// The append-only store of block templates, owner of their GPU resources.
pub struct BlockRegistry {
    pub blocks: Vec<Block>,
}

impl BlockRegistry {
    pub open spec fn wf(self) -> bool {
        wf_blocks(self.blocks@)
    }

    /// An empty registry; the first registration will hand out id zero.
    pub fn new() -> (r: BlockRegistry)
        ensures
            r.blocks@.len() == 0,
            r.wf(),
    {
        BlockRegistry { blocks: Vec::new() }
    }

    /// Appends a template and hands out its id: the number of templates
    /// registered before it. Ids are never reused, templates never removed.
    pub fn register(&mut self, mesh: BlockMesh) -> (id: i32)
        requires
            old(self).wf(),
            old(self).blocks@.len() < i32::MAX as int,
        ensures
            final(self).wf(),
            id == old(self).blocks@.len(),
            final(self).blocks@ == old(self).blocks@.push(
                Block { block_id: id, mesh, is_opaque: true },
            ),
    {
        let id = self.blocks.len() as i32;
        self.blocks.push(Block { block_id: id, mesh, is_opaque: true });
        id
    }

    /// Looks a template up by id: the template registered under `id`, or
    /// `UnknownTemplateId` for an id outside the registered range.
    pub fn resolve(&self, id: i32) -> (r: Result<&Block, EngineError>)
        ensures
            r is Ok <==> valid_id(self.blocks@, id),
            r matches Ok(b) ==> Some(*b) == spec_resolve(self.blocks@, id),
            self.wf() ==> (r matches Ok(b) ==> b.block_id == id),
            r matches Err(e) ==> e == EngineError::UnknownTemplateId(id),
    {
        if id >= 0 && (id as usize) < self.blocks.len() {
            Ok(&self.blocks[id as usize])
        } else {
            Err(EngineError::UnknownTemplateId(id))
        }
    }

    /// The number of templates registered so far.
    pub fn len(&self) -> (n: usize)
        ensures
            n == self.blocks@.len(),
    {
        self.blocks.len()
    }
}

/// The model transform of a placement: blocks are unit cubes set two units
/// apart, so the translation is twice the grid coordinate on each axis.
pub open spec fn spec_translation(inst: BlockInstance) -> Translation {
    Translation { x: (2 * inst.x) as i64, y: (2 * inst.y) as i64, z: (2 * inst.z) as i64 }
}

/// The draw a placement produces: it binds the resources of the template its
/// `block_id` names, under the placement's translation, with that template's
/// material path.
pub open spec fn spec_draw(blocks: Seq<Block>, inst: BlockInstance) -> DrawCall {
    DrawCall {
        block_id: inst.block_id,
        draw: MeshDraw {
            translation: spec_translation(inst),
            material: spec_material(blocks[inst.block_id as int].mesh),
        },
    }
}

/// Every placement's template id resolves in the registry.
pub open spec fn all_ids_valid(blocks: Seq<Block>, chunk: Seq<BlockInstance>) -> bool {
    forall|i: int|
        0 <= i < chunk.len() ==> valid_id(blocks, (#[trigger] chunk[i]).block_id)
}

/// The full dispatch: one draw per placement, in insertion order.
pub open spec fn spec_draws(blocks: Seq<Block>, chunk: Seq<BlockInstance>) -> Seq<DrawCall> {
    Seq::new(chunk.len(), |i: int| spec_draw(blocks, chunk[i]))
}

/// The world: the template registry and the placements that make up the
/// scene, both append-only.
pub struct World {
    pub registry: BlockRegistry,
    pub chunk: Vec<BlockInstance>,
}

impl World {
    pub open spec fn wf(self) -> bool {
        self.registry.wf()
    }

    /// An empty world: no templates, no placements.
    pub fn new() -> (w: World)
        ensures
            w.registry.blocks@.len() == 0,
            w.chunk@.len() == 0,
            w.wf(),
    {
        World { registry: BlockRegistry::new(), chunk: Vec::new() }
    }

    /// Appends a placement of the template `block_id` at the given grid
    /// coordinate. The id is not checked here; the dispatch validates it and
    /// reports `UnknownTemplateId` for a placement that resolves to nothing.
    pub fn set_block(&mut self, x: i32, y: i32, z: i32, block_id: i32)
        ensures
            final(self).chunk@ == old(self).chunk@.push(BlockInstance { block_id, x, y, z }),
            final(self).registry == old(self).registry,
    {
        self.chunk.push(BlockInstance { block_id, x, y, z });
    }

    /// Registers a textured cube template and returns its id: a cube mesh of
    /// unconnected faces, white, with the given texture bound. The shell
    /// creates the GPU buffers and the texture itself; this records the
    /// template they belong to.
    pub fn create_block(&mut self, texture: TextureHandle) -> (id: i32)
        requires
            old(self).wf(),
            old(self).registry.blocks@.len() < i32::MAX as int,
        ensures
            final(self).wf(),
            id == old(self).registry.blocks@.len(),
            final(self).chunk == old(self).chunk,
            final(self).registry.blocks@ == old(self).registry.blocks@.push(
                Block { block_id: id, mesh: spec_cube_mesh(texture), is_opaque: true },
            ),
    {
        let mut mesh = match BlockMesh::new(
            CUBE_INDEX_COUNT,
            CUBE_VERTEX_FLOAT_COUNT,
            CUBE_VERTEX_FLOAT_COUNT,
        ) {
            Ok(m) => m,
            Err(_) => unreached(),
        };
        mesh.texture = Some(texture);
        self.registry.register(mesh)
    }

    /// The render dispatch. Walks the placements in insertion order and
    /// records, for each, exactly one draw: the placement's template under
    /// the translation twice its grid coordinate. Succeeds exactly when
    /// every placement's id resolves; the first dangling id aborts the pass
    /// with `UnknownTemplateId`, and nothing is drawn for that frame.
    pub fn render(&self) -> (r: Result<Vec<DrawCall>, EngineError>)
        ensures
            r is Ok <==> all_ids_valid(self.registry.blocks@, self.chunk@),
            r matches Ok(ds) ==> ds@ == spec_draws(self.registry.blocks@, self.chunk@),
            r matches Err(e) ==> exists|k: int|
                {
                    &&& 0 <= k < self.chunk@.len()
                    &&& !valid_id(self.registry.blocks@, (#[trigger] self.chunk@[k]).block_id)
                    &&& forall|j: int|
                        0 <= j < k ==> valid_id(
                            self.registry.blocks@,
                            (#[trigger] self.chunk@[j]).block_id,
                        )
                    &&& e == EngineError::UnknownTemplateId(self.chunk@[k].block_id)
                },
    {
        let mut draws: Vec<DrawCall> = Vec::new();
        let mut i: usize = 0;
        while i < self.chunk.len()
            invariant
                i <= self.chunk@.len(),
                draws@.len() == i,
                forall|j: int|
                    0 <= j < i ==> valid_id(
                        self.registry.blocks@,
                        (#[trigger] self.chunk@[j]).block_id,
                    ),
                forall|j: int|
                    0 <= j < i ==> draws@[j] == spec_draw(self.registry.blocks@, self.chunk@[j]),
            decreases self.chunk@.len() - i,
        {
            let inst = self.chunk[i];
            let transformation = Translation {
                x: 2 * (inst.x as i64),
                y: 2 * (inst.y as i64),
                z: 2 * (inst.z as i64),
            };
            match self.registry.resolve(inst.block_id) {
                Ok(block) => {
                    let d = block.mesh.render(transformation);
                    draws.push(DrawCall { block_id: inst.block_id, draw: d });
                },
                Err(e) => {
                    return Err(e);
                },
            }
            i += 1;
        }
        proof {
            assert(draws@ =~= spec_draws(self.registry.blocks@, self.chunk@));
        }
        Ok(draws)
    }
}

/// The cube template `create_block` registers for a texture.
pub open spec fn spec_cube_mesh(texture: TextureHandle) -> BlockMesh {
    BlockMesh {
        position_capacity: CUBE_VERTEX_FLOAT_COUNT,
        normal_capacity: CUBE_VERTEX_FLOAT_COUNT,
        index_count: CUBE_INDEX_COUNT,
        color: Rgb { r: 255, g: 255, b: 255 },
        texture: Some(texture),
        diffuse_intensity_milli: 500u32,
        specular_intensity_milli: 200u32,
        specular_power_milli: 6000u32,
    }
}

/// Registration hands out dense, zero-based, monotonic ids: the template
/// appended to a well-formed registry carries as id the count of templates
/// registered before it, the registry stays well-formed, and resolving that
/// id yields exactly the new template.
pub proof fn lemma_register_assigns_next_id(blocks: Seq<Block>, b: Block)
    requires
        wf_blocks(blocks),
        blocks.len() < i32::MAX as int,
        b.block_id == blocks.len(),
    ensures
        wf_blocks(blocks.push(b)),
        spec_resolve(blocks.push(b), b.block_id) == Some(b),
{
    let pushed = blocks.push(b);
    assert forall|i: int| 0 <= i < pushed.len() implies (#[trigger] pushed[i]).block_id == i by {
        if i < blocks.len() {
            assert(pushed[i] == blocks[i]);
        }
    }
}

/// Each placement produces exactly one draw, in insertion order: the
/// dispatch has one entry per placement, the entry at a placement's position
/// references the placement's template id, and its translation is twice the
/// placement's grid coordinate on each axis.
pub proof fn lemma_one_draw_per_placement(blocks: Seq<Block>, chunk: Seq<BlockInstance>, i: int)
    requires
        0 <= i < chunk.len(),
    ensures
        spec_draws(blocks, chunk).len() == chunk.len(),
        spec_draws(blocks, chunk)[i].block_id == chunk[i].block_id,
        spec_draws(blocks, chunk)[i].draw.translation.x == 2 * chunk[i].x,
        spec_draws(blocks, chunk)[i].draw.translation.y == 2 * chunk[i].y,
        spec_draws(blocks, chunk)[i].draw.translation.z == 2 * chunk[i].z,
{
}

/// The dispatch is deterministic: with no mutation in between, two render
/// passes over the same world record the same ordered draw sequence.
pub proof fn lemma_render_deterministic(
    blocks: Seq<Block>,
    chunk: Seq<BlockInstance>,
    d1: Seq<DrawCall>,
    d2: Seq<DrawCall>,
)
    requires
        d1 == spec_draws(blocks, chunk),
        d2 == spec_draws(blocks, chunk),
    ensures
        d1 == d2,
{
}

} // verus!

