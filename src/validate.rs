//! Structural well-formedness of scene contents, as spec functions, and
//! executable checks that decide each of them exactly.
use vstd::prelude::*;
use crate::types::{
    aiBone, aiFace, aiMaterial, aiMaterialProperty, aiMesh, aiNode, aiString, SceneData,
    AI_MAX_NUMBER_OF_COLOR_SETS, AI_MAX_NUMBER_OF_TEXTURECOORDS, AI_SCENE_FLAGS_INCOMPLETE, MAXLEN,
};

verus! {

/// The declared length matches the bytes and fits the foreign buffer.
pub open spec fn string_wf(s: aiString) -> bool {
    s.length == s.data@.len() && s.length < MAXLEN
}

/// A per-vertex channel is absent or has one entry per vertex.
pub open spec fn channel_wf<T>(c: Option<Vec<T>>, n: nat) -> bool {
    match c {
        Some(v) => v@.len() == n,
        None => true,
    }
}

/// Every channel of a channel list is well formed.
pub open spec fn channels_wf<T>(cs: Seq<Option<Vec<T>>>, n: nat) -> bool {
    forall|k: int| 0 <= k < cs.len() ==> channel_wf(#[trigger] cs[k], n)
}

/// Every index of the face names a vertex of the mesh.
pub open spec fn face_wf(f: aiFace, num_vertices: nat) -> bool {
    forall|k: int| 0 <= k < f.indices@.len() ==> (#[trigger] f.indices@[k] as nat) < num_vertices
}

/// Every weight of the bone names a vertex of the mesh.
pub open spec fn bone_wf(b: aiBone, num_vertices: nat) -> bool {
    &&& string_wf(b.name)
    &&& forall|k: int|
        0 <= k < b.weights@.len() ==> (#[trigger] b.weights@[k].vertex_id as nat) < num_vertices
}

/// The per-vertex channels, faces, bones and material index of a mesh are
/// consistent with its vertex count and the scene's material count.
pub open spec fn mesh_wf(m: aiMesh, material_count: nat) -> bool {
    let nv = m.num_vertices as nat;
    &&& string_wf(m.name)
    &&& channel_wf(m.vertices, nv)
    &&& channel_wf(m.normals, nv)
    &&& channel_wf(m.tangents, nv)
    &&& channel_wf(m.bitangents, nv)
    &&& m.colors@.len() <= AI_MAX_NUMBER_OF_COLOR_SETS
    &&& channels_wf(m.colors@, nv)
    &&& m.texture_coords@.len() <= AI_MAX_NUMBER_OF_TEXTURECOORDS
    &&& m.num_uv_components@.len() == m.texture_coords@.len()
    &&& channels_wf(m.texture_coords@, nv)
    &&& m.faces@.len() == m.num_faces as nat
    &&& forall|k: int| 0 <= k < m.faces@.len() ==> face_wf(#[trigger] m.faces@[k], nv)
    &&& forall|k: int| 0 <= k < m.bones@.len() ==> bone_wf(#[trigger] m.bones@[k], nv)
    &&& (m.material_index as nat) < material_count
}

/// A property has a well-formed key and a non-empty value buffer.
pub open spec fn property_wf(p: aiMaterialProperty) -> bool {
    string_wf(p.key) && p.data@.len() > 0
}

/// Every property of the material is well formed.
pub open spec fn material_wf(m: aiMaterial) -> bool {
    forall|k: int| 0 <= k < m.properties@.len() ==> property_wf(#[trigger] m.properties@[k])
}

/// Node `i` of the arena is consistent with the tree shape: node 0 is the
/// root, every other node has an earlier parent that lists it as a child,
/// every listed child points back, children are listed in increasing order,
/// and every mesh index is below `mesh_count`.
pub open spec fn node_wf(nodes: Seq<aiNode>, i: int, mesh_count: nat) -> bool {
    let n = nodes[i];
    &&& string_wf(n.name)
    &&& i == 0 ==> n.parent is None
    &&& i > 0 ==> {
        &&& n.parent is Some
        &&& n.parent->Some_0 < i
        &&& nodes[n.parent->Some_0 as int].children@.contains(i as usize)
    }
    &&& forall|k: int|
        0 <= k < n.children@.len() ==> {
            &&& (#[trigger] n.children@[k] as int) < nodes.len()
            &&& nodes[n.children@[k] as int].parent == Some(i as usize)
        }
    &&& forall|k: int| 0 < k < n.children@.len() ==> n.children@[k - 1] < #[trigger] n.children@[k]
    &&& forall|k: int| 0 <= k < n.meshes@.len() ==> (#[trigger] n.meshes@[k] as nat) < mesh_count
}

/// Every node of the arena is well formed.
pub open spec fn nodes_wf(nodes: Seq<aiNode>, mesh_count: nat) -> bool {
    forall|i: int| 0 <= i < nodes.len() ==> #[trigger] node_wf(nodes, i, mesh_count)
}

/// The incomplete flag is clear.
pub open spec fn scene_complete(d: SceneData) -> bool {
    d.flags & AI_SCENE_FLAGS_INCOMPLETE == 0
}

/// The whole scene is well formed: a complete scene has a root, a mesh and a
/// material, the nodes form a tree, and all meshes and materials are well
/// formed.
pub open spec fn scene_wf(d: SceneData) -> bool {
    &&& scene_complete(d) ==> {
        &&& d.nodes@.len() > 0
        &&& d.meshes@.len() > 0
        &&& d.materials@.len() > 0
    }
    &&& nodes_wf(d.nodes@, d.meshes@.len())
    &&& forall|k: int|
        0 <= k < d.meshes@.len() ==> mesh_wf(#[trigger] d.meshes@[k], d.materials@.len())
    &&& forall|k: int| 0 <= k < d.materials@.len() ==> material_wf(#[trigger] d.materials@[k])
}

/// Decides `string_wf`.
pub fn check_string(s: &aiString) -> (r: bool)
    ensures
        r == string_wf(*s),
{
    s.length == s.data.len() && s.length < MAXLEN
}

/// Decides `channel_wf`.
pub fn check_channel<T>(c: &Option<Vec<T>>, n: u32) -> (r: bool)
    ensures
        r == channel_wf(*c, n as nat),
{
    match c {
        Some(v) => v.len() == n as usize,
        None => true,
    }
}

/// Decides `channels_wf`.
pub fn check_channels<T>(cs: &Vec<Option<Vec<T>>>, n: u32) -> (r: bool)
    ensures
        r == channels_wf(cs@, n as nat),
{
    let mut k: usize = 0;
    while k < cs.len()
        invariant
            k <= cs@.len(),
            forall|j: int| 0 <= j < k ==> channel_wf(#[trigger] cs@[j], n as nat),
        decreases cs@.len() - k,
    {
        if !check_channel(&cs[k], n) {
            return false;
        }
        k = k + 1;
    }
    true
}

/// Decides `face_wf`.
pub fn check_face(f: &aiFace, num_vertices: u32) -> (r: bool)
    ensures
        r == face_wf(*f, num_vertices as nat),
{
    let mut k: usize = 0;
    while k < f.indices.len()
        invariant
            k <= f.indices@.len(),
            forall|j: int| 0 <= j < k ==> (#[trigger] f.indices@[j] as nat) < num_vertices as nat,
        decreases f.indices@.len() - k,
    {
        if f.indices[k] >= num_vertices {
            return false;
        }
        k = k + 1;
    }
    true
}

/// Decides `bone_wf`.
pub fn check_bone(b: &aiBone, num_vertices: u32) -> (r: bool)
    ensures
        r == bone_wf(*b, num_vertices as nat),
{
    if !check_string(&b.name) {
        return false;
    }
    let mut k: usize = 0;
    while k < b.weights.len()
        invariant
            k <= b.weights@.len(),
            forall|j: int|
                0 <= j < k ==> (#[trigger] b.weights@[j].vertex_id as nat) < num_vertices as nat,
        decreases b.weights@.len() - k,
    {
        if b.weights[k].vertex_id >= num_vertices {
            return false;
        }
        k = k + 1;
    }
    true
}

/// Decides `mesh_wf`.
pub fn check_mesh(m: &aiMesh, material_count: usize) -> (r: bool)
    ensures
        r == mesh_wf(*m, material_count as nat),
{
    let nv = m.num_vertices;
    if !(check_string(&m.name) && check_channel(&m.vertices, nv) && check_channel(&m.normals, nv)
        && check_channel(&m.tangents, nv) && check_channel(&m.bitangents, nv)) {
        return false;
    }
    if !(m.colors.len() <= AI_MAX_NUMBER_OF_COLOR_SETS && check_channels(&m.colors, nv)) {
        return false;
    }
    if !(m.texture_coords.len() <= AI_MAX_NUMBER_OF_TEXTURECOORDS && m.num_uv_components.len()
        == m.texture_coords.len() && check_channels(&m.texture_coords, nv)) {
        return false;
    }
    if m.faces.len() != m.num_faces as usize || m.material_index as usize >= material_count {
        return false;
    }
    let mut k: usize = 0;
    while k < m.faces.len()
        invariant
            k <= m.faces@.len(),
            nv == m.num_vertices,
            forall|j: int| 0 <= j < k ==> face_wf(#[trigger] m.faces@[j], nv as nat),
        decreases m.faces@.len() - k,
    {
        if !check_face(&m.faces[k], nv) {
            return false;
        }
        k = k + 1;
    }
    let mut k: usize = 0;
    while k < m.bones.len()
        invariant
            k <= m.bones@.len(),
            nv == m.num_vertices,
            forall|j: int| 0 <= j < k ==> bone_wf(#[trigger] m.bones@[j], nv as nat),
        decreases m.bones@.len() - k,
    {
        if !check_bone(&m.bones[k], nv) {
            return false;
        }
        k = k + 1;
    }
    true
}

/// Decides `material_wf`.
pub fn check_material(m: &aiMaterial) -> (r: bool)
    ensures
        r == material_wf(*m),
{
    let mut k: usize = 0;
    while k < m.properties.len()
        invariant
            k <= m.properties@.len(),
            forall|j: int| 0 <= j < k ==> property_wf(#[trigger] m.properties@[j]),
        decreases m.properties@.len() - k,
    {
        let p = &m.properties[k];
        if !(check_string(&p.key) && p.data.len() > 0) {
            return false;
        }
        k = k + 1;
    }
    true
}

/// Decides whether `v` holds `x`.
fn contains_index(v: &Vec<usize>, x: usize) -> (r: bool)
    ensures
        r == v@.contains(x),
{
    let mut k: usize = 0;
    while k < v.len()
        invariant
            k <= v@.len(),
            forall|j: int| 0 <= j < k ==> v@[j] != x,
        decreases v@.len() - k,
    {
        if v[k] == x {
            return true;
        }
        k = k + 1;
    }
    false
}

/// Decides `node_wf`.
pub fn check_node(nodes: &Vec<aiNode>, i: usize, mesh_count: usize) -> (r: bool)
    requires
        i < nodes@.len(),
    ensures
        r == node_wf(nodes@, i as int, mesh_count as nat),
{
    let n = &nodes[i];
    if !check_string(&n.name) {
        return false;
    }
    match n.parent {
        None => {
            if i != 0 {
                return false;
            }
        },
        Some(p) => {
            if i == 0 || p >= i || !contains_index(&nodes[p].children, i) {
                return false;
            }
        },
    }
    let mut k: usize = 0;
    while k < n.children.len()
        invariant
            k <= n.children@.len(),
            n == nodes@[i as int],
            i < nodes@.len(),
            forall|j: int|
                0 <= j < k ==> {
                    &&& (#[trigger] n.children@[j] as int) < nodes@.len()
                    &&& nodes@[n.children@[j] as int].parent == Some(i)
                },
            forall|j: int| 0 < j < k ==> n.children@[j - 1] < #[trigger] n.children@[j],
        decreases n.children@.len() - k,
    {
        let c = n.children[k];
        assert(n.children@[k as int] == c);
        if c >= nodes.len() {
            return false;
        }
        match nodes[c].parent {
            Some(p) => {
                if p != i {
                    return false;
                }
            },
            None => {
                return false;
            },
        }
        if k > 0 && n.children[k - 1] >= c {
            return false;
        }
        k = k + 1;
    }
    let mut k: usize = 0;
    while k < n.meshes.len()
        invariant
            k <= n.meshes@.len(),
            n == nodes@[i as int],
            i < nodes@.len(),
            forall|j: int| 0 <= j < k ==> (#[trigger] n.meshes@[j] as nat) < mesh_count as nat,
        decreases n.meshes@.len() - k,
    {
        if n.meshes[k] as usize >= mesh_count {
            return false;
        }
        k = k + 1;
    }
    true
}

/// Decides `scene_wf`.
pub fn check_scene(d: &SceneData) -> (r: bool)
    ensures
        r == scene_wf(*d),
{
    if d.flags & AI_SCENE_FLAGS_INCOMPLETE == 0 && (d.nodes.len() == 0 || d.meshes.len() == 0
        || d.materials.len() == 0) {
        return false;
    }
    let mut i: usize = 0;
    while i < d.nodes.len()
        invariant
            i <= d.nodes@.len(),
            forall|j: int| 0 <= j < i ==> #[trigger] node_wf(d.nodes@, j, d.meshes@.len()),
        decreases d.nodes@.len() - i,
    {
        if !check_node(&d.nodes, i, d.meshes.len()) {
            return false;
        }
        i = i + 1;
    }
    let mut k: usize = 0;
    while k < d.meshes.len()
        invariant
            k <= d.meshes@.len(),
            forall|j: int| 0 <= j < k ==> mesh_wf(#[trigger] d.meshes@[j], d.materials@.len()),
        decreases d.meshes@.len() - k,
    {
        if !check_mesh(&d.meshes[k], d.materials.len()) {
            return false;
        }
        k = k + 1;
    }
    let mut k: usize = 0;
    while k < d.materials.len()
        invariant
            k <= d.materials@.len(),
            forall|j: int| 0 <= j < k ==> material_wf(#[trigger] d.materials@[j]),
        decreases d.materials@.len() - k,
    {
        if !check_material(&d.materials[k]) {
            return false;
        }
        k = k + 1;
    }
    true
}

} // verus!
