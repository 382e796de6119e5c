use vstd::prelude::*;

use crate::errors::EngineError;

verus! {

/// Index into the texture table that the rendering shell owns. The core
/// never looks inside a texture; it only records which one a draw binds.
#[derive(Clone, Copy, Debug, PartialEq, Eq, Structural)]
pub struct TextureHandle {
    pub id: usize,
}

/// A base color, one byte per channel. The shell converts to the unit-range
/// floats its color uniform takes; the core holds no floating point.
#[derive(Clone, Copy, Debug, PartialEq, Eq, Structural)]
pub struct Rgb {
    pub r: u8,
    pub g: u8,
    pub b: u8,
}

/// The one material binding a draw makes: either the texture sampler or the
/// flat-color uniform, never both.
#[derive(Clone, Copy, Debug, PartialEq, Eq, Structural)]
pub enum Material {
    Textured(TextureHandle),
    FlatColor(Rgb),
}

/// A translation-only model transform, one coordinate per axis.
#[derive(Clone, Copy, Debug, PartialEq, Eq, Structural)]
pub struct Translation {
    pub x: i64,
    pub y: i64,
    pub z: i64,
}

/// What one template draw submits: its model transform and the single
/// material path it binds.
#[derive(Clone, Copy, Debug, PartialEq, Eq, Structural)]
pub struct MeshDraw {
    pub translation: Translation,
    pub material: Material,
}

/// Element count of the index buffer of a cube built from unconnected faces:
/// six faces, two triangles each.
pub const CUBE_INDEX_COUNT: usize = 36;

/// Element count of the position (and normal) buffer of such a cube: six
/// faces with four corners each, three floats per vertex.
pub const CUBE_VERTEX_FLOAT_COUNT: usize = 72;

/// One block template's mesh and material state. Geometry lives in
/// fixed-size GPU buffers owned by the shell; the core records their element
/// counts, which is all the update and dispatch logic reads. Material
/// fields may change after construction; the buffers' sizes may not.
///
/// Lighting coefficients are kept in thousandths, the core holding no
/// floating point; the shell divides by one thousand for its uniforms.
#[derive(Clone, Copy, Debug)]
pub struct BlockMesh {
    pub position_capacity: usize,
    pub normal_capacity: usize,
    pub index_count: usize,
    pub color: Rgb,
    pub texture: Option<TextureHandle>,
    pub diffuse_intensity_milli: u32,
    pub specular_intensity_milli: u32,
    pub specular_power_milli: u32,
}

/// The material path a template's draw binds: the texture sampler when a
/// texture is set, the flat-color uniform otherwise.
pub open spec fn spec_material(m: BlockMesh) -> Material {
    match m.texture {
        Some(t) => Material::Textured(t),
        None => Material::FlatColor(m.color),
    }
}

/// Geometry buffers describe whole vertices: positions and normals have the
/// same element count, three floats per vertex.
pub open spec fn well_shaped(position_count: usize, normal_count: usize) -> bool {
    position_count == normal_count && position_count % 3 == 0
}

impl BlockMesh {
    /// Builds a template over geometry buffers of the given element counts,
    /// with the default material: white, untextured, the standard lighting
    /// coefficients. Rejects geometry that does not describe whole vertices,
    /// as the GPU buffer constructors would.
    pub fn new(index_count: usize, position_count: usize, normal_count: usize) -> (r: Result<
        BlockMesh,
        EngineError,
    >)
        ensures
            r is Ok <==> well_shaped(position_count, normal_count),
            r matches Ok(m) ==> m == (BlockMesh {
                position_capacity: position_count,
                normal_capacity: normal_count,
                index_count,
                color: Rgb { r: 255, g: 255, b: 255 },
                texture: None::<TextureHandle>,
                diffuse_intensity_milli: 500u32,
                specular_intensity_milli: 200u32,
                specular_power_milli: 6000u32,
            }),
            r is Err ==> r == Err::<BlockMesh, EngineError>(EngineError::ResourceCreation),
    {
        if position_count == normal_count && position_count % 3 == 0 {
            Ok(BlockMesh {
                position_capacity: position_count,
                normal_capacity: normal_count,
                index_count,
                color: Rgb { r: 255, g: 255, b: 255 },
                texture: None,
                diffuse_intensity_milli: 500,
                specular_intensity_milli: 200,
                specular_power_milli: 6000,
            })
        } else {
            Err(EngineError::ResourceCreation)
        }
    }

    /// Accepts a refill of the position buffer exactly when the new element
    /// count matches the capacity fixed at construction; the template's own
    /// state never changes.
    pub fn update_positions(&mut self, position_count: usize) -> (r: Result<(), EngineError>)
        ensures
            *final(self) == *old(self),
            r is Ok <==> position_count == old(self).position_capacity,
            r is Err ==> r == Err::<(), EngineError>(
                EngineError::BufferSizeMismatch {
                    expected: old(self).position_capacity,
                    actual: position_count,
                },
            ),
    {
        if position_count == self.position_capacity {
            Ok(())
        } else {
            Err(EngineError::BufferSizeMismatch {
                expected: self.position_capacity,
                actual: position_count,
            })
        }
    }

    /// As `update_positions`, for the normal buffer.
    pub fn update_normals(&mut self, normal_count: usize) -> (r: Result<(), EngineError>)
        ensures
            *final(self) == *old(self),
            r is Ok <==> normal_count == old(self).normal_capacity,
            r is Err ==> r == Err::<(), EngineError>(
                EngineError::BufferSizeMismatch {
                    expected: old(self).normal_capacity,
                    actual: normal_count,
                },
            ),
    {
        if normal_count == self.normal_capacity {
            Ok(())
        } else {
            Err(EngineError::BufferSizeMismatch {
                expected: self.normal_capacity,
                actual: normal_count,
            })
        }
    }

    /// Records the one draw this template submits under the given model
    /// transform: the transform itself and the single material path selected
    /// by whether a texture is set.
    pub fn render(&self, transformation: Translation) -> (d: MeshDraw)
        ensures
            d.translation == transformation,
            d.material == spec_material(*self),
    {
        let material = match self.texture {
            Some(t) => Material::Textured(t),
            None => Material::FlatColor(self.color),
        };
        MeshDraw { translation: transformation, material }
    }
}

/// A draw binds exactly one material path: the texture sampler when and only
/// when the template holds a texture, the flat-color uniform when and only
/// when it holds none, and never both.
pub proof fn lemma_material_path_exclusive(m: BlockMesh)
    ensures
        spec_material(m) is Textured <==> m.texture is Some,
        spec_material(m) is FlatColor <==> m.texture is None,
        !(spec_material(m) is Textured && spec_material(m) is FlatColor),
{
}

} // verus!
