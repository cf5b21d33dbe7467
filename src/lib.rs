//! A verified, safe view of the scene graph that the Open Asset Import
//! Library produces.
//!
//! The foreign import call and the raw record layouts live at the program's
//! edge. What reaches this library is a plain, arena-indexed copy of the
//! foreign scene. The library checks every structural invariant of that copy
//! once, at import time, and from then on hands out only bounds-checked,
//! borrowed views whose lifetime is tied to the owning [`aiScene`].
#![allow(non_camel_case_types)]

pub mod types;
pub mod validate;
pub mod scene;
pub mod tree;
pub mod gateway;

pub use types::{
    aiAnimation, aiBone, aiCamera, aiColor4D, aiFace, aiLight, aiMaterial, aiMaterialProperty,
    aiMatrix4x4, aiMesh, aiNode, aiString, aiTexture, aiVector3D, aiVertexWeight, SceneData,
    AI_MAX_NUMBER_OF_COLOR_SETS, AI_MAX_NUMBER_OF_TEXTURECOORDS, AI_SCENE_FLAGS_INCOMPLETE,
    MAXLEN,
};

pub use scene::{aiScene, SceneError};
pub use gateway::{c_path, finish_import, ImportError};
