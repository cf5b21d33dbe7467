//! The decisions around the one foreign import call: whether a path can be
//! handed to it, and what the caller gets for what it returned.
use vstd::prelude::*;
use vstd::string::StringSliceAdditionalSpecFns;
use crate::scene::aiScene;
use crate::types::SceneData;
use crate::validate::scene_wf;

verus! {

/// Why an import produced no scene.
#[derive(Clone, Debug, PartialEq, Eq)]
pub enum ImportError {
    /// The path holds a zero byte at `position`, so it has no
    /// zero-terminated form; nothing was asked of the importer.
    EncodingError { position: usize },
    /// The importer produced no usable scene for `path`.
    LoadFailure { path: String },
}

/// The path's bytes hold no zero byte before `n`.
pub open spec fn zero_free(b: Seq<u8>, n: int) -> bool {
    forall|j: int| 0 <= j < n ==> #[trigger] b[j] != 0
}

/// What the import of `path` yields when the importer returned `imported`:
/// the scene if the importer produced well-formed contents, a load failure
/// naming the path otherwise.
pub open spec fn import_outcome(
    path: Seq<char>,
    imported: Option<SceneData>,
    r: Result<aiScene, ImportError>,
) -> bool {
    if imported is Some && scene_wf(imported->Some_0) {
        r is Ok && r->Ok_0@ == imported->Some_0
    } else {
        r is Err && r->Err_0 is LoadFailure && r->Err_0->LoadFailure_path@ == path
    }
}

/// The zero-terminated form of `path`, or the position of the first zero
/// byte that prevents one.
pub fn c_path(path: &str) -> (r: Result<Vec<u8>, ImportError>)
    ensures
        (r is Ok) == zero_free(path.spec_bytes(), path.spec_bytes().len() as int),
        r matches Ok(v) ==> v@ == path.spec_bytes().push(0u8),
        r matches Err(e) ==> e matches ImportError::EncodingError { position } && position
            < path.spec_bytes().len() && path.spec_bytes()[position as int] == 0 && zero_free(
            path.spec_bytes(),
            position as int,
        ),
{
    let b = path.as_bytes();
    let mut v: Vec<u8> = Vec::new();
    let mut k: usize = 0;
    while k < b.len()
        invariant
            b@ == path.spec_bytes(),
            k <= b@.len(),
            zero_free(b@, k as int),
            v@ == b@.subrange(0, k as int),
        decreases b@.len() - k,
    {
        if b[k] == 0 {
            return Err(ImportError::EncodingError { position: k });
        }
        v.push(b[k]);
        k = k + 1;
        assert(v@ =~= b@.subrange(0, k as int));
    }
    v.push(0u8);
    assert(b@.subrange(0, b@.len() as int) =~= b@);
    Ok(v)
}

/// Turns what the importer returned for `path` into the caller's result.
/// `None` stands for the importer's failure signal.
pub fn finish_import(path: &str, imported: Option<SceneData>) -> (r: Result<aiScene, ImportError>)
    ensures
        import_outcome(path@, imported, r),
        r matches Ok(s) ==> s.wf(),
{
    match imported {
        Some(d) => match aiScene::from_data(d) {
            Ok(s) => Ok(s),
            Err(_) => Err(ImportError::LoadFailure { path: path.to_owned() }),
        },
        None => Err(ImportError::LoadFailure { path: path.to_owned() }),
    }
}

/// Importing equal contents for one path twice gives equal outcomes: either
/// two scenes with equal contents, held apart, or two load failures.
pub proof fn lemma_import_repeatable(
    path: Seq<char>,
    a: Option<SceneData>,
    b: Option<SceneData>,
    ra: Result<aiScene, ImportError>,
    rb: Result<aiScene, ImportError>,
)
    requires
        a == b,
        import_outcome(path, a, ra),
        import_outcome(path, b, rb),
    ensures
        (ra is Ok) == (rb is Ok),
        ra is Ok ==> ra->Ok_0@ == rb->Ok_0@,
        ra is Err ==> ra->Err_0->LoadFailure_path@ == rb->Err_0->LoadFailure_path@,
{
}

} // verus!
