//! Where the speech synthesis model is loaded from.
use vstd::prelude::*;

verus! {

/// What to load the synthesis model from: the directory of its ONNX files
/// and whether to run it on the GPU.
#[derive(Debug)]
pub struct ModelSource {
    pub onnx_dir: String,
    pub use_gpu: bool,
}

/// The ONNX directory under the assets directory.
pub open spec fn onnx_dir_of(assets: Seq<char>) -> Seq<char> {
    assets + seq!['/', 'o', 'n', 'n', 'x']
}

/// The ONNX directory is the assets path followed by "/onnx": it begins with
/// the assets path, ends with "/onnx", and different assets paths give
/// different directories.
pub proof fn lemma_onnx_dir(a: Seq<char>, b: Seq<char>)
    ensures
        onnx_dir_of(a).len() == a.len() + 5,
        onnx_dir_of(a).take(a.len() as int) == a,
        onnx_dir_of(a).skip(a.len() as int) == seq!['/', 'o', 'n', 'n', 'x'],
        onnx_dir_of(a) == onnx_dir_of(b) ==> a == b,
{
    assert(onnx_dir_of(a).take(a.len() as int) =~= a);
    assert(onnx_dir_of(a).skip(a.len() as int) =~= seq!['/', 'o', 'n', 'n', 'x']);
    if onnx_dir_of(a) == onnx_dir_of(b) {
        assert(onnx_dir_of(b).take(b.len() as int) =~= b);
        assert(a =~= b);
    }
}

/// The model of the assets directory `assets_path`: its ONNX files lie in
/// `{assets_path}/onnx`.
pub fn load_model(assets_path: &str, use_gpu: bool) -> (m: ModelSource)
    ensures
        m.onnx_dir@ == onnx_dir_of(assets_path@),
        m.onnx_dir@ == assets_path@ + seq!['/', 'o', 'n', 'n', 'x'],
        m.use_gpu == use_gpu,
{
    let mut onnx_dir = assets_path.to_owned();
    onnx_dir.append("/onnx");
    proof {
        reveal_strlit("/onnx");
    }
    assert(onnx_dir@ =~= onnx_dir_of(assets_path@));
    ModelSource { onnx_dir, use_gpu }
}

} // verus!
