//! The plain records of a scene graph.
//!
//! Each record keeps the fields of its foreign counterpart, with three
//! changes of representation: pointers become arena indices or owned
//! vectors, fixed-capacity channel arrays become vectors of optional
//! channels, and every 32-bit float is carried as its IEEE-754 bit pattern,
//! which this library never interprets.
use vstd::prelude::*;

verus! {

/// Capacity of the foreign bounded string buffer, terminating zero included.
pub const MAXLEN: usize = 1024;

/// Maximum number of vertex color channels of a mesh.
pub const AI_MAX_NUMBER_OF_COLOR_SETS: usize = 8;

/// Maximum number of texture-coordinate channels of a mesh.
pub const AI_MAX_NUMBER_OF_TEXTURECOORDS: usize = 8;

/// Scene flag: the import did not produce a complete scene.
pub const AI_SCENE_FLAGS_INCOMPLETE: u32 = 1;

/// A bounded byte string with an explicit length; the bytes may hold zeros.
#[derive(Clone, Debug)]
pub struct aiString {
    /// Declared length in bytes, terminating zero excluded.
    pub length: usize,
    /// The bytes of the string.
    pub data: Vec<u8>,
}

/// A 4x4 transform, row-major, each entry an `f32` bit pattern.
#[derive(Clone, Copy, Debug, PartialEq, Eq)]
pub struct aiMatrix4x4 {
    pub bits: [u32; 16],
}

/// A 3D vector, each component an `f32` bit pattern.
#[derive(Clone, Copy, Debug, PartialEq, Eq)]
pub struct aiVector3D {
    pub x: u32,
    pub y: u32,
    pub z: u32,
}

/// An RGBA color, each component an `f32` bit pattern.
#[derive(Clone, Copy, Debug, PartialEq, Eq)]
pub struct aiColor4D {
    pub r: u32,
    pub g: u32,
    pub b: u32,
    pub a: u32,
}

/// One property of a material: a key, its texture semantic and index, a type
/// tag and the raw bytes of its value, which are not decoded here.
#[derive(Clone, Debug)]
pub struct aiMaterialProperty {
    pub key: aiString,
    pub semantic: u32,
    pub index: u32,
    pub property_type: u32,
    pub data: Vec<u8>,
}

/// An unordered collection of material properties.
#[derive(Clone, Debug)]
pub struct aiMaterial {
    pub properties: Vec<aiMaterialProperty>,
}

/// A node of the scene tree. `parent` and `children` are indices into the
/// scene's node arena; `meshes` are indices into the scene's mesh collection.
#[derive(Clone, Debug)]
pub struct aiNode {
    pub name: aiString,
    pub transformation: aiMatrix4x4,
    pub parent: Option<usize>,
    pub children: Vec<usize>,
    pub meshes: Vec<u32>,
}

/// A face: the vertex indices of one primitive.
#[derive(Clone, Debug)]
pub struct aiFace {
    pub indices: Vec<u32>,
}

/// The influence of a bone on one vertex; `weight` is an `f32` bit pattern.
#[derive(Clone, Copy, Debug, PartialEq, Eq)]
pub struct aiVertexWeight {
    pub vertex_id: u32,
    pub weight: u32,
}

/// A bone: its name, the vertices it influences and its bind-pose offset.
#[derive(Clone, Debug)]
pub struct aiBone {
    pub name: aiString,
    pub weights: Vec<aiVertexWeight>,
    pub offset_matrix: aiMatrix4x4,
}

/// A mesh with one material. Each per-vertex channel is either absent or has
/// exactly `num_vertices` entries.
#[derive(Clone, Debug)]
pub struct aiMesh {
    pub primitive_types: u32,
    pub num_vertices: u32,
    pub num_faces: u32,
    pub vertices: Option<Vec<aiVector3D>>,
    pub normals: Option<Vec<aiVector3D>>,
    pub tangents: Option<Vec<aiVector3D>>,
    pub bitangents: Option<Vec<aiVector3D>>,
    pub colors: Vec<Option<Vec<aiColor4D>>>,
    pub texture_coords: Vec<Option<Vec<aiVector3D>>>,
    pub num_uv_components: Vec<u32>,
    pub faces: Vec<aiFace>,
    pub bones: Vec<aiBone>,
    pub material_index: u32,
    pub name: aiString,
}

/// An embedded texture; its contents are not read by this library.
#[derive(Clone, Copy, Debug, PartialEq, Eq)]
pub struct aiTexture;

/// An animation; its contents are not read by this library.
#[derive(Clone, Copy, Debug, PartialEq, Eq)]
pub struct aiAnimation;

/// A light source; its contents are not read by this library.
#[derive(Clone, Copy, Debug, PartialEq, Eq)]
pub struct aiLight;

/// A camera; its contents are not read by this library.
#[derive(Clone, Copy, Debug, PartialEq, Eq)]
pub struct aiCamera;

/// The unchecked contents of one imported scene. The node tree is an arena:
/// the root, if any, is node 0, and every other node comes after its parent.
#[derive(Clone, Debug)]
pub struct SceneData {
    pub flags: u32,
    pub nodes: Vec<aiNode>,
    pub meshes: Vec<aiMesh>,
    pub materials: Vec<aiMaterial>,
    pub animations: Vec<aiAnimation>,
    pub textures: Vec<aiTexture>,
    pub lights: Vec<aiLight>,
    pub cameras: Vec<aiCamera>,
}

impl aiString {
    /// The raw bytes of the string, which may hold zeros.
    pub fn as_bytes(&self) -> (r: &[u8])
        ensures
            r@ == self.data@,
    {
        self.data.as_slice()
    }

    /// The declared length in bytes.
    pub fn len(&self) -> (r: usize)
        ensures
            r == self.length,
    {
        self.length
    }
}

impl aiNode {
    /// The node's name.
    pub fn name(&self) -> (r: &aiString)
        ensures
            *r == self.name,
    {
        &self.name
    }

    /// The arena index of the node's parent; `None` at the root.
    pub fn parent(&self) -> (r: Option<usize>)
        ensures
            r == self.parent,
    {
        self.parent
    }

    /// The arena indices of the node's children, in the importer's order.
    pub fn children(&self) -> (r: &[usize])
        ensures
            r@ == self.children@,
    {
        self.children.as_slice()
    }

    /// The indices of the node's meshes in the scene's mesh collection.
    pub fn mesh_indices(&self) -> (r: &[u32])
        ensures
            r@ == self.meshes@,
    {
        self.meshes.as_slice()
    }
}

} // verus!
