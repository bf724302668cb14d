//! The models the server offers: only "supertonic".
use vstd::prelude::*;
use crate::error::{AppJson, OpenAIError};

verus! {

/// A model as the models endpoints describe it.
#[derive(Debug)]
pub struct Model {
    pub id: String,
    pub object: String,
    pub created: u64,
    pub owned_by: String,
}

/// "supertonic"
pub open spec fn supertonic_id() -> Seq<char> {
    seq!['s', 'u', 'p', 'e', 'r', 't', 'o', 'n', 'i', 'c']
}

/// The one model of the server: id "supertonic", object "model", created at
/// 0, owned by "unknown".
pub open spec fn is_supertonic_model(m: Model) -> bool {
    &&& m.id@ == supertonic_id()
    &&& m.object@ == seq!['m', 'o', 'd', 'e', 'l']
    &&& m.created == 0
    &&& m.owned_by@ == seq!['u', 'n', 'k', 'n', 'o', 'w', 'n']
}

fn supertonic_model() -> (m: Model)
    ensures
        is_supertonic_model(m),
{
    proof {
        reveal_strlit("supertonic");
        reveal_strlit("model");
        reveal_strlit("unknown");
    }
    let m = Model {
        id: "supertonic".to_owned(),
        object: "model".to_owned(),
        created: 0,
        owned_by: "unknown".to_owned(),
    };
    assert(m.id@ =~= supertonic_id());
    assert(m.object@ =~= seq!['m', 'o', 'd', 'e', 'l']);
    assert(m.owned_by@ =~= seq!['u', 'n', 'k', 'n', 'o', 'w', 'n']);
    m
}

/// All models of the server, in order.
pub fn models() -> (ms: Vec<Model>)
    ensures
        ms@.len() == 1,
        is_supertonic_model(ms@[0]),
{
    let mut ms: Vec<Model> = Vec::new();
    ms.push(supertonic_model());
    ms
}

/// Lists the models.
pub fn list_models() -> (r: AppJson<Vec<Model>>)
    ensures
        r.0@.len() == 1,
        is_supertonic_model(r.0@[0]),
{
    AppJson::new(models())
}

/// The model with the given id, or `ModelNotFound`.
pub fn get_model(model_id: String) -> (r: Result<AppJson<Model>, OpenAIError>)
    ensures
        match r {
            Ok(m) => model_id@ == supertonic_id() && is_supertonic_model(m.0),
            Err(e) => model_id@ != supertonic_id() && e == OpenAIError::ModelNotFound(),
        },
{
    let mut ms = models();
    let mut i: usize = 0;
    while i < ms.len()
        invariant
            i <= ms@.len(),
            ms@.len() == 1,
            is_supertonic_model(ms@[0]),
            forall|j: int| 0 <= j < i ==> ms@[j].id@ != model_id@,
        decreases ms@.len() - i,
    {
        if ms[i].id == model_id {
            let m = ms.swap_remove(i);
            return Ok(AppJson::new(m));
        }
        i = i + 1;
    }
    Err(OpenAIError::ModelNotFound())
}

} // verus!
