//! The owning scene handle and its bounds-checked, borrowed views.
use vstd::prelude::*;
use crate::types::{
    aiAnimation, aiCamera, aiLight, aiMaterial, aiMesh, aiNode, aiTexture, SceneData,
    AI_SCENE_FLAGS_INCOMPLETE,
};
use crate::tree::{lemma_root_path, lemma_root_path_unique, parent_chain, root_path};
use crate::validate::{
    channel_wf, check_scene, face_wf, mesh_wf, node_wf, scene_complete, scene_wf,
};

verus! {

/// A failed request for an element of a scene.
#[derive(Clone, Copy, Debug, PartialEq, Eq, Structural)]
pub enum SceneError {
    /// `index` is not below `count`, the size of the collection asked.
    IndexOutOfRange { index: usize, count: usize },
}

/// An imported scene. It owns all of its contents, and only `from_data`, which
/// checks them, builds one; every view it hands out borrows from it and
/// cannot outlive it.
pub struct aiScene {
    data: SceneData,
}

impl View for aiScene {
    type V = SceneData;

    closed spec fn view(&self) -> SceneData {
        self.data
    }
}

/// The error for `index` in a collection of `count` elements.
pub open spec fn index_error(index: usize, count: nat) -> SceneError {
    SceneError::IndexOutOfRange { index, count: count as usize }
}

/// The result of looking up `index` in a collection of `count` elements.
pub open spec fn lookup_outcome<T>(r: Result<&T, SceneError>, s: Seq<T>, index: usize) -> bool {
    &&& (index < s.len()) == (r is Ok)
    &&& r matches Ok(x) ==> *x == s[index as int]
    &&& r matches Err(e) ==> e == index_error(index, s.len())
}

/// Looks up `index` in `v`.
fn lookup<T>(v: &Vec<T>, index: usize) -> (r: Result<&T, SceneError>)
    ensures
        lookup_outcome(r, v@, index),
{
    if index < v.len() {
        Ok(&v[index])
    } else {
        Err(SceneError::IndexOutOfRange { index, count: v.len() })
    }
}

impl aiScene {
    /// The scene's contents are well formed. Every scene that `from_data`
    /// hands out is.
    pub open spec fn wf(&self) -> bool {
        scene_wf(self@)
    }

    /// Takes ownership of `d` if it is well formed; hands it back otherwise.
    pub fn from_data(d: SceneData) -> (r: Result<aiScene, SceneData>)
        ensures
            (r is Ok) == scene_wf(d),
            r matches Ok(s) ==> s@ == d && s.wf(),
            r matches Err(e) ==> e == d,
    {
        if check_scene(&d) {
            Ok(aiScene { data: d })
        } else {
            Err(d)
        }
    }

    /// The scene's flags bitmask.
    pub fn flags(&self) -> (r: u32)
        ensures
            r == self@.flags,
    {
        self.data.flags
    }

    /// Whether the import flagged the scene as incomplete.
    pub fn is_incomplete(&self) -> (r: bool)
        ensures
            r == !scene_complete(self@),
    {
        self.data.flags & AI_SCENE_FLAGS_INCOMPLETE != 0
    }

    /// The root of the node tree, absent only in an incomplete scene.
    pub fn root_node(&self) -> (r: Option<&aiNode>)
        ensures
            (r is Some) == (self@.nodes@.len() > 0),
            r matches Some(n) ==> *n == self@.nodes@[0],
    {
        if self.data.nodes.len() > 0 {
            Some(&self.data.nodes[0])
        } else {
            None
        }
    }

    /// The number of nodes in the tree.
    pub fn node_count(&self) -> (r: usize)
        ensures
            r == self@.nodes@.len(),
    {
        self.data.nodes.len()
    }

    /// The number of meshes.
    pub fn mesh_count(&self) -> (r: usize)
        ensures
            r == self@.meshes@.len(),
    {
        self.data.meshes.len()
    }

    /// The number of materials.
    pub fn material_count(&self) -> (r: usize)
        ensures
            r == self@.materials@.len(),
    {
        self.data.materials.len()
    }

    /// The number of animations.
    pub fn animation_count(&self) -> (r: usize)
        ensures
            r == self@.animations@.len(),
    {
        self.data.animations.len()
    }

    /// The number of embedded textures.
    pub fn texture_count(&self) -> (r: usize)
        ensures
            r == self@.textures@.len(),
    {
        self.data.textures.len()
    }

    /// The number of lights.
    pub fn light_count(&self) -> (r: usize)
        ensures
            r == self@.lights@.len(),
    {
        self.data.lights.len()
    }

    /// The number of cameras.
    pub fn camera_count(&self) -> (r: usize)
        ensures
            r == self@.cameras@.len(),
    {
        self.data.cameras.len()
    }

    /// Child `k` of node `i`, in the order the importer listed them.
    pub fn child_at(&self, i: usize, k: usize) -> (r: Result<&aiNode, SceneError>)
        requires
            self.wf(),
        ensures
            (r is Ok) == (i < self@.nodes@.len() && k < self@.nodes@[i as int].children@.len()),
            r matches Ok(c) ==> *c == self@.nodes@[self@.nodes@[i as int].children@[k as int] as int],
            r matches Err(e) ==> e == if i < self@.nodes@.len() {
                index_error(k, self@.nodes@[i as int].children@.len())
            } else {
                index_error(i, self@.nodes@.len())
            },
    {
        let n = lookup(&self.data.nodes, i)?;
        let c = *lookup(&n.children, k)?;
        proof {
            assert(node_wf(self@.nodes@, i as int, self@.meshes@.len()));
            assert(n.children@[k as int] == c);
        }
        Ok(&self.data.nodes[c])
    }

    /// The parent of node `i`; `None` at the root.
    pub fn parent_of(&self, i: usize) -> (r: Result<Option<&aiNode>, SceneError>)
        requires
            self.wf(),
        ensures
            (r is Ok) == (i < self@.nodes@.len()),
            r matches Ok(o) ==> (o is Some) == (i > 0) && (o matches Some(p) ==> *p
                == self@.nodes@[self@.nodes@[i as int].parent->Some_0 as int]),
            r matches Err(e) ==> e == index_error(i, self@.nodes@.len()),
    {
        let n = lookup(&self.data.nodes, i)?;
        proof {
            assert(node_wf(self@.nodes@, i as int, self@.meshes@.len()));
        }
        match n.parent {
            Some(p) => Ok(Some(&self.data.nodes[p])),
            None => Ok(None),
        }
    }

    /// Mesh number `k` of node `i`, looked up in the scene's meshes.
    pub fn node_mesh(&self, i: usize, k: usize) -> (r: Result<&aiMesh, SceneError>)
        requires
            self.wf(),
        ensures
            (r is Ok) == (i < self@.nodes@.len() && k < self@.nodes@[i as int].meshes@.len()),
            r matches Ok(m) ==> *m == self@.meshes@[self@.nodes@[i as int].meshes@[k as int] as int],
            r matches Err(e) ==> e == if i < self@.nodes@.len() {
                index_error(k, self@.nodes@[i as int].meshes@.len())
            } else {
                index_error(i, self@.nodes@.len())
            },
    {
        let n = lookup(&self.data.nodes, i)?;
        let m = *lookup(&n.meshes, k)?;
        proof {
            assert(node_wf(self@.nodes@, i as int, self@.meshes@.len()));
            assert(n.meshes@[k as int] == m);
        }
        Ok(&self.data.meshes[m as usize])
    }

    /// The material of mesh `i`.
    pub fn mesh_material(&self, i: usize) -> (r: Result<&aiMaterial, SceneError>)
        requires
            self.wf(),
        ensures
            (r is Ok) == (i < self@.meshes@.len()),
            r matches Ok(m) ==> *m == self@.materials@[self@.meshes@[i as int].material_index as int],
            r matches Err(e) ==> e == index_error(i, self@.meshes@.len()),
    {
        let m = lookup(&self.data.meshes, i)?;
        proof {
            assert(mesh_wf(self@.meshes@[i as int], self@.materials@.len()));
        }
        Ok(&self.data.materials[m.material_index as usize])
    }

    /// The indices of the nodes from node `i` up to the root, `i` first.
    pub fn path_to_root(&self, i: usize) -> (r: Result<Vec<usize>, SceneError>)
        requires
            self.wf(),
        ensures
            (r is Ok) == (i < self@.nodes@.len()),
            r matches Ok(p) ==> p@ == root_path(self@.nodes@, i),
            r matches Err(e) ==> e == index_error(i, self@.nodes@.len()),
    {
        if i >= self.data.nodes.len() {
            return Err(SceneError::IndexOutOfRange { index: i, count: self.data.nodes.len() });
        }
        let ghost nodes = self@.nodes@;
        let mut path: Vec<usize> = Vec::new();
        let mut cur: usize = i;
        loop
            invariant
                self.wf(),
                nodes == self@.nodes@,
                (cur as int) < nodes.len(),
                (i as int) < nodes.len(),
                path@ + root_path(nodes, cur) == root_path(nodes, i),
            decreases cur,
        {
            proof {
                assert(node_wf(nodes, cur as int, self@.meshes@.len()));
                assert(path@.push(cur) + root_path(nodes, nodes[cur as int].parent->Some_0) =~= path@
                    + (seq![cur] + root_path(nodes, nodes[cur as int].parent->Some_0)));
                assert(path@.push(cur) =~= path@ + seq![cur]);
            }
            path.push(cur);
            match self.data.nodes[cur].parent {
                Some(p) => {
                    cur = p;
                },
                None => {
                    return Ok(path);
                },
            }
        }
    }

    /// Node `i` of the tree.
    pub fn node_at(&self, i: usize) -> (r: Result<&aiNode, SceneError>)
        ensures
            lookup_outcome(r, self@.nodes@, i),
    {
        lookup(&self.data.nodes, i)
    }

    /// Mesh `i`.
    pub fn mesh_at(&self, i: usize) -> (r: Result<&aiMesh, SceneError>)
        ensures
            lookup_outcome(r, self@.meshes@, i),
    {
        lookup(&self.data.meshes, i)
    }

    /// Material `i`.
    pub fn material_at(&self, i: usize) -> (r: Result<&aiMaterial, SceneError>)
        ensures
            lookup_outcome(r, self@.materials@, i),
    {
        lookup(&self.data.materials, i)
    }

    /// Animation `i`.
    pub fn animation_at(&self, i: usize) -> (r: Result<&aiAnimation, SceneError>)
        ensures
            lookup_outcome(r, self@.animations@, i),
    {
        lookup(&self.data.animations, i)
    }

    /// Embedded texture `i`.
    pub fn texture_at(&self, i: usize) -> (r: Result<&aiTexture, SceneError>)
        ensures
            lookup_outcome(r, self@.textures@, i),
    {
        lookup(&self.data.textures, i)
    }

    /// Light `i`.
    pub fn light_at(&self, i: usize) -> (r: Result<&aiLight, SceneError>)
        ensures
            lookup_outcome(r, self@.lights@, i),
    {
        lookup(&self.data.lights, i)
    }

    /// Camera `i`.
    pub fn camera_at(&self, i: usize) -> (r: Result<&aiCamera, SceneError>)
        ensures
            lookup_outcome(r, self@.cameras@, i),
    {
        lookup(&self.data.cameras, i)
    }
}

/// A scene with the incomplete flag clear has a root node, at least one mesh
/// and at least one material.
pub proof fn lemma_complete_scene_nonempty(s: &aiScene)
    requires
        s.wf(),
    ensures
        scene_complete(s@) ==> {
            &&& s@.nodes@.len() > 0
            &&& s@.meshes@.len() > 0
            &&& s@.materials@.len() > 0
        },
{
}

/// Every node of a scene has exactly one path to the root along parent
/// links: `root_path` is such a path, it never revisits a node, and any other
/// walk along parent links from the node to a parentless node equals it.
/// Only its parent lists a node as a child.
pub proof fn lemma_tree_paths(s: &aiScene, i: usize, q: Seq<usize>)
    requires
        s.wf(),
        i < s@.nodes@.len(),
    ensures
        ({
            let p = root_path(s@.nodes@, i);
            &&& p[0] == i
            &&& p.last() == 0
            &&& s@.nodes@[0].parent is None
            &&& parent_chain(s@.nodes@, p)
            &&& forall|k: int| 0 < k < p.len() ==> #[trigger] p[k] < p[k - 1]
            &&& forall|k: int| 0 < k < p.len() ==> #[trigger] p[k] != i
        }),
        q.len() > 0 && q[0] == i && parent_chain(s@.nodes@, q) && s@.nodes@[q.last() as int].parent
            is None ==> q == root_path(s@.nodes@, i),
        forall|a: int|
            0 <= a < s@.nodes@.len() && (#[trigger] s@.nodes@[a]).children@.contains(i) ==> s@.nodes@[i as int].parent
                == Some(a as usize),
{
    assert forall|a: int|
        0 <= a < s@.nodes@.len() && (#[trigger] s@.nodes@[a]).children@.contains(i) implies s@.nodes@[i as int].parent
            == Some(a as usize) by {
        assert(node_wf(s@.nodes@, a, s@.meshes@.len()));
    }
    lemma_root_path(s@.nodes@, s@.meshes@.len(), i);
    if q.len() > 0 && q[0] == i && parent_chain(s@.nodes@, q) && s@.nodes@[q.last() as int].parent
        is None {
        lemma_root_path_unique(s@.nodes@, s@.meshes@.len(), q);
    }
}

/// Every mesh index held by a node names a mesh of the scene.
pub proof fn lemma_node_mesh_in_range(s: &aiScene, i: int, k: int)
    requires
        s.wf(),
        0 <= i < s@.nodes@.len(),
        0 <= k < s@.nodes@[i].meshes@.len(),
    ensures
        (s@.nodes@[i].meshes@[k] as int) < s@.meshes@.len(),
{
    assert(node_wf(s@.nodes@, i, s@.meshes@.len()));
}

/// Every per-vertex channel that a mesh holds has one entry per vertex.
pub proof fn lemma_channels_sized(s: &aiScene, m: int)
    requires
        s.wf(),
        0 <= m < s@.meshes@.len(),
    ensures
        ({
            let mesh = s@.meshes@[m];
            let n = mesh.num_vertices as nat;
            &&& mesh.vertices matches Some(v) ==> v@.len() == n
            &&& mesh.normals matches Some(v) ==> v@.len() == n
            &&& mesh.tangents matches Some(v) ==> v@.len() == n
            &&& mesh.bitangents matches Some(v) ==> v@.len() == n
            &&& forall|c: int|
                0 <= c < mesh.colors@.len() ==> (#[trigger] mesh.colors@[c] matches Some(v)
                    ==> v@.len() == n)
            &&& forall|c: int|
                0 <= c < mesh.texture_coords@.len() ==> (#[trigger] mesh.texture_coords@[c] matches Some(
                    v,
                ) ==> v@.len() == n)
        }),
{
    let mesh = s@.meshes@[m];
    assert(mesh_wf(mesh, s@.materials@.len()));
    assert forall|c: int| 0 <= c < mesh.colors@.len() implies (#[trigger] mesh.colors@[c] matches Some(
        v,
    ) ==> v@.len() == mesh.num_vertices as nat) by {
        assert(channel_wf(mesh.colors@[c], mesh.num_vertices as nat));
    }
    assert forall|c: int| 0 <= c < mesh.texture_coords@.len() implies (
    #[trigger] mesh.texture_coords@[c] matches Some(v) ==> v@.len() == mesh.num_vertices as nat) by {
        assert(channel_wf(mesh.texture_coords@[c], mesh.num_vertices as nat));
    }
}

/// Every vertex index that a face or a bone weight of a mesh holds names a
/// vertex of that mesh, and the mesh's material index names a material.
pub proof fn lemma_vertex_refs_in_range(s: &aiScene, m: int)
    requires
        s.wf(),
        0 <= m < s@.meshes@.len(),
    ensures
        ({
            let mesh = s@.meshes@[m];
            &&& (mesh.material_index as int) < s@.materials@.len()
            &&& forall|f: int, k: int|
                0 <= f < mesh.faces@.len() && 0 <= k < mesh.faces@[f].indices@.len() ==> (
                #[trigger] mesh.faces@[f].indices@[k] as int) < mesh.num_vertices
            &&& forall|b: int, k: int|
                0 <= b < mesh.bones@.len() && 0 <= k < mesh.bones@[b].weights@.len() ==> (
                #[trigger] mesh.bones@[b].weights@[k].vertex_id as int) < mesh.num_vertices
        }),
{
    let mesh = s@.meshes@[m];
    assert(mesh_wf(mesh, s@.materials@.len()));
    assert forall|f: int, k: int|
        0 <= f < mesh.faces@.len() && 0 <= k < mesh.faces@[f].indices@.len() implies (
        #[trigger] mesh.faces@[f].indices@[k] as int) < mesh.num_vertices by {
        assert(face_wf(mesh.faces@[f], mesh.num_vertices as nat));
    }
}

} // verus!
