use vstd::prelude::*;

verus! {

/// The deep view of a `Result`, both sides taken to their mathematical values.
pub open spec fn res_dv<T: DeepView, E: DeepView>(r: Result<T, E>) -> Result<T::V, E::V> {
    match r {
        Ok(v) => Ok(v.deep_view()),
        Err(e) => Err(e.deep_view()),
    }
}

} // verus!
