use assimp::{
    aiBone, aiColor4D, aiFace, aiMaterial, aiMaterialProperty, aiMatrix4x4, aiMesh, aiNode,
    aiScene, aiString, aiVector3D, aiVertexWeight, c_path, finish_import, ImportError, SceneData,
    SceneError, AI_SCENE_FLAGS_INCOMPLETE,
};

fn name(s: &str) -> aiString {
    aiString { length: s.len(), data: s.as_bytes().to_vec() }
}

fn identity() -> aiMatrix4x4 {
    let one = 1.0f32.to_bits();
    let mut bits = [0u32; 16];
    bits[0] = one;
    bits[5] = one;
    bits[10] = one;
    bits[15] = one;
    aiMatrix4x4 { bits }
}

fn node(n: &str, parent: Option<usize>, children: Vec<usize>, meshes: Vec<u32>) -> aiNode {
    aiNode { name: name(n), transformation: identity(), parent, children, meshes }
}

fn v(x: f32, y: f32, z: f32) -> aiVector3D {
    aiVector3D { x: x.to_bits(), y: y.to_bits(), z: z.to_bits() }
}

fn triangle() -> aiMesh {
    aiMesh {
        primitive_types: 4,
        num_vertices: 3,
        num_faces: 1,
        vertices: Some(vec![v(0.0, 0.0, 0.0), v(1.0, 0.0, 0.0), v(0.0, 1.0, 0.0)]),
        normals: None,
        tangents: None,
        bitangents: None,
        colors: vec![],
        texture_coords: vec![],
        num_uv_components: vec![],
        faces: vec![aiFace { indices: vec![0, 1, 2] }],
        bones: vec![],
        material_index: 0,
        name: name("tri"),
    }
}

fn material() -> aiMaterial {
    aiMaterial {
        properties: vec![aiMaterialProperty {
            key: name("?mat.name"),
            semantic: 0,
            index: 0,
            property_type: 3,
            data: b"default".to_vec(),
        }],
    }
}

fn triangle_scene() -> SceneData {
    SceneData {
        flags: 0,
        nodes: vec![node("root", None, vec![], vec![0])],
        meshes: vec![triangle()],
        materials: vec![material()],
        animations: vec![],
        textures: vec![],
        lights: vec![],
        cameras: vec![],
    }
}

/// root(0) -> a(1) -> c(3); root -> b(2)
fn tree_scene() -> SceneData {
    let mut d = triangle_scene();
    d.meshes.push(triangle());
    d.nodes = vec![
        node("root", None, vec![1, 2], vec![]),
        node("a", Some(0), vec![3], vec![0]),
        node("b", Some(0), vec![], vec![1]),
        node("c", Some(1), vec![], vec![1, 0]),
    ];
    d
}

fn accepted(d: SceneData) -> bool {
    aiScene::from_data(d).is_ok()
}

#[test]
fn missing_path_is_load_failure() {
    let r = finish_import("missing.obj", None);
    match r {
        Err(e) => assert_eq!(e, ImportError::LoadFailure { path: "missing.obj".to_string() }),
        Ok(_) => panic!("no scene may be built"),
    }
}

#[test]
fn embedded_nul_is_encoding_error() {
    assert_eq!(c_path("mod\0el.obj"), Err(ImportError::EncodingError { position: 3 }));
    assert_eq!(c_path("\0"), Err(ImportError::EncodingError { position: 0 }));
}

#[test]
fn clean_path_is_zero_terminated() {
    assert_eq!(c_path("a.obj").unwrap(), b"a.obj\0".to_vec());
    assert_eq!(c_path("").unwrap(), vec![0u8]);
}

#[test]
fn single_triangle_scene() {
    let s = finish_import("tri.obj", Some(triangle_scene())).unwrap();
    assert_eq!(s.mesh_count(), 1);
    let m = s.mesh_at(0).unwrap();
    assert_eq!(m.num_vertices, 3);
    assert_eq!(m.num_faces, 1);
    assert_eq!(m.faces.len(), 1);
    assert_eq!(m.faces[0].indices, vec![0, 1, 2]);
    assert!(!s.is_incomplete());
    assert_eq!(s.root_node().unwrap().name().as_bytes(), b"root");
}

#[test]
fn mesh_at_out_of_range() {
    let mut d = triangle_scene();
    d.meshes.push(triangle());
    let s = aiScene::from_data(d).ok().unwrap();
    assert_eq!(s.mesh_count(), 2);
    assert_eq!(s.mesh_at(5).err(), Some(SceneError::IndexOutOfRange { index: 5, count: 2 }));
}

#[test]
fn other_collections_are_bounds_checked() {
    let s = aiScene::from_data(triangle_scene()).ok().unwrap();
    assert_eq!(s.material_at(1).err(), Some(SceneError::IndexOutOfRange { index: 1, count: 1 }));
    assert_eq!(s.animation_at(0).err(), Some(SceneError::IndexOutOfRange { index: 0, count: 0 }));
    assert_eq!(s.texture_at(0).err(), Some(SceneError::IndexOutOfRange { index: 0, count: 0 }));
    assert_eq!(s.light_at(0).err(), Some(SceneError::IndexOutOfRange { index: 0, count: 0 }));
    assert_eq!(s.camera_at(2).err(), Some(SceneError::IndexOutOfRange { index: 2, count: 0 }));
    assert_eq!(s.node_at(1).err(), Some(SceneError::IndexOutOfRange { index: 1, count: 1 }));
    assert!(s.material_at(0).is_ok());
    assert_eq!(
        (s.animation_count(), s.texture_count(), s.light_count(), s.camera_count()),
        (0, 0, 0, 0)
    );
}

#[test]
fn complete_scene_needs_mesh_material_and_root() {
    let mut d = triangle_scene();
    d.meshes.clear();
    d.nodes[0].meshes.clear();
    assert!(!accepted(d));
    let mut d = triangle_scene();
    d.materials.clear();
    assert!(!accepted(d));
    let mut d = triangle_scene();
    d.nodes.clear();
    assert!(!accepted(d));
}

#[test]
fn incomplete_scene_may_be_empty() {
    let d = SceneData {
        flags: AI_SCENE_FLAGS_INCOMPLETE,
        nodes: vec![],
        meshes: vec![],
        materials: vec![],
        animations: vec![],
        textures: vec![],
        lights: vec![],
        cameras: vec![],
    };
    let s = aiScene::from_data(d).ok().unwrap();
    assert!(s.is_incomplete());
    assert_eq!(s.flags(), AI_SCENE_FLAGS_INCOMPLETE);
    assert!(s.root_node().is_none());
    assert_eq!(s.node_count(), 0);
}

#[test]
fn tree_views_follow_edges() {
    let s = aiScene::from_data(tree_scene()).ok().unwrap();
    assert_eq!(s.node_count(), 4);
    let root = s.root_node().unwrap();
    assert_eq!(root.children(), &[1, 2]);
    assert_eq!(root.parent(), None);
    assert_eq!(s.child_at(0, 1).unwrap().name().as_bytes(), b"b");
    assert_eq!(s.child_at(1, 0).unwrap().name().as_bytes(), b"c");
    assert_eq!(s.child_at(2, 0).err(), Some(SceneError::IndexOutOfRange { index: 0, count: 0 }));
    assert_eq!(s.child_at(9, 0).err(), Some(SceneError::IndexOutOfRange { index: 9, count: 4 }));
    assert!(s.parent_of(0).unwrap().is_none());
    assert_eq!(s.parent_of(3).unwrap().unwrap().name().as_bytes(), b"a");
    assert_eq!(s.node_at(3).unwrap().mesh_indices(), &[1, 0]);
}

#[test]
fn every_node_reaches_the_root_once() {
    let s = aiScene::from_data(tree_scene()).ok().unwrap();
    assert_eq!(s.path_to_root(3).unwrap(), vec![3, 1, 0]);
    assert_eq!(s.path_to_root(2).unwrap(), vec![2, 0]);
    assert_eq!(s.path_to_root(0).unwrap(), vec![0]);
    assert_eq!(s.path_to_root(4).err(), Some(SceneError::IndexOutOfRange { index: 4, count: 4 }));
}

#[test]
fn non_trees_are_rejected() {
    // a cycle between two nodes
    let mut d = tree_scene();
    d.nodes[1].parent = Some(3);
    d.nodes[3].children = vec![1];
    d.nodes[1].children = vec![3];
    assert!(!accepted(d));
    // a second root
    let mut d = tree_scene();
    d.nodes[2].parent = None;
    d.nodes[0].children = vec![1];
    assert!(!accepted(d));
    // a child listed by a node that is not its parent
    let mut d = tree_scene();
    d.nodes[2].children = vec![3];
    assert!(!accepted(d));
    // a child listed twice
    let mut d = tree_scene();
    d.nodes[0].children = vec![1, 1, 2];
    assert!(!accepted(d));
    // a node whose parent does not list it
    let mut d = tree_scene();
    d.nodes[0].children = vec![1];
    assert!(!accepted(d));
    // a child index past the arena
    let mut d = tree_scene();
    d.nodes[2].children = vec![7];
    assert!(!accepted(d));
}

#[test]
fn node_mesh_indices_stay_in_range() {
    let s = aiScene::from_data(tree_scene()).ok().unwrap();
    assert_eq!(s.node_mesh(3, 0).unwrap().name.as_bytes(), b"tri");
    assert_eq!(s.node_mesh(3, 2).err(), Some(SceneError::IndexOutOfRange { index: 2, count: 2 }));
    assert_eq!(s.node_mesh(8, 0).err(), Some(SceneError::IndexOutOfRange { index: 8, count: 4 }));
    let mut d = tree_scene();
    d.nodes[2].meshes = vec![2];
    assert!(!accepted(d));
}

#[test]
fn present_channels_match_vertex_count() {
    let mut d = triangle_scene();
    d.meshes[0].normals = Some(vec![v(0.0, 0.0, 1.0); 3]);
    d.meshes[0].colors = vec![None, Some(vec![aiColor4D { r: 0, g: 0, b: 0, a: 0 }; 3])];
    d.meshes[0].texture_coords = vec![Some(vec![v(0.0, 0.0, 0.0); 3])];
    d.meshes[0].num_uv_components = vec![2];
    assert!(accepted(d.clone()));
    let mut e = d.clone();
    e.meshes[0].tangents = Some(vec![v(1.0, 0.0, 0.0); 2]);
    assert!(!accepted(e));
    let mut e = d.clone();
    e.meshes[0].colors[0] = Some(vec![aiColor4D { r: 0, g: 0, b: 0, a: 0 }; 4]);
    assert!(!accepted(e));
    let mut e = d.clone();
    e.meshes[0].texture_coords[0] = Some(vec![]);
    assert!(!accepted(e));
    let mut e = d.clone();
    e.meshes[0].vertices = Some(vec![v(0.0, 0.0, 0.0)]);
    assert!(!accepted(e));
    let mut e = d;
    e.meshes[0].colors = vec![None; 9];
    assert!(!accepted(e));
}

#[test]
fn faces_and_material_index_stay_in_range() {
    let mut d = triangle_scene();
    d.meshes[0].faces[0].indices = vec![0, 1, 3];
    assert!(!accepted(d));
    let mut d = triangle_scene();
    d.meshes[0].num_faces = 2;
    assert!(!accepted(d));
    let mut d = triangle_scene();
    d.meshes[0].material_index = 1;
    assert!(!accepted(d));
    let s = aiScene::from_data(triangle_scene()).ok().unwrap();
    assert_eq!(s.mesh_material(0).unwrap().properties[0].data, b"default".to_vec());
    assert_eq!(s.mesh_material(1).err(), Some(SceneError::IndexOutOfRange { index: 1, count: 1 }));
}

#[test]
fn bone_weights_name_mesh_vertices() {
    let bone = |id: u32| aiBone {
        name: name("arm"),
        weights: vec![aiVertexWeight { vertex_id: id, weight: 0.5f32.to_bits() }],
        offset_matrix: identity(),
    };
    let mut d = triangle_scene();
    d.meshes[0].bones = vec![bone(2)];
    assert!(accepted(d));
    let mut d = triangle_scene();
    d.meshes[0].bones = vec![bone(3)];
    assert!(!accepted(d));
}

#[test]
fn names_keep_raw_bytes_and_length() {
    let mut d = triangle_scene();
    d.nodes[0].name = aiString { length: 3, data: vec![b'a', 0, b'b'] };
    let s = aiScene::from_data(d).ok().unwrap();
    let n = s.root_node().unwrap().name();
    assert_eq!(n.len(), 3);
    assert_eq!(n.as_bytes(), &[b'a', 0, b'b']);
    let mut d = triangle_scene();
    d.nodes[0].name = aiString { length: 5, data: vec![b'a'] };
    assert!(!accepted(d));
    let mut d = triangle_scene();
    d.nodes[0].name = aiString { length: 1024, data: vec![b'x'; 1024] };
    assert!(!accepted(d));
    let mut d = triangle_scene();
    d.nodes[0].name = aiString { length: 1023, data: vec![b'x'; 1023] };
    assert!(accepted(d));
}

#[test]
fn material_values_may_not_be_empty() {
    let mut d = triangle_scene();
    d.materials[0].properties[0].data.clear();
    assert!(!accepted(d));
}

#[test]
fn malformed_contents_are_a_load_failure() {
    let mut d = triangle_scene();
    d.meshes[0].material_index = 4;
    match finish_import("bad.obj", Some(d)) {
        Err(e) => assert_eq!(e, ImportError::LoadFailure { path: "bad.obj".to_string() }),
        Ok(_) => panic!("malformed contents may not make a scene"),
    }
}

#[test]
fn importing_twice_gives_equal_independent_scenes() {
    let a = finish_import("scene.obj", Some(tree_scene())).unwrap();
    let b = finish_import("scene.obj", Some(tree_scene())).unwrap();
    assert_eq!(a.node_count(), b.node_count());
    assert_eq!(a.mesh_count(), b.mesh_count());
    for i in 0..a.node_count() {
        let (x, y) = (a.node_at(i).unwrap(), b.node_at(i).unwrap());
        assert_eq!(x.name().as_bytes(), y.name().as_bytes());
        assert_eq!(x.children(), y.children());
        assert_eq!(x.mesh_indices(), y.mesh_indices());
        assert!(!std::ptr::eq(x, y));
    }
}

#[test]
fn rejected_contents_are_handed_back() {
    let mut d = triangle_scene();
    d.flags = 8;
    d.materials.clear();
    let back = aiScene::from_data(d).err().unwrap();
    assert_eq!(back.flags, 8);
    assert_eq!(back.meshes.len(), 1);
}
