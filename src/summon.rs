use vstd::prelude::*;

verus! {

/// Resolves an identifier to an object, or fails with an error.
pub trait Summoner<Obj> {
    type Id;

    type Err;

    fn summon(&self, id: Self::Id) -> Result<Obj, Self::Err>;
}

} // verus!
