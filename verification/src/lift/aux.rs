use vstd::prelude::*;

verus! {

/// What every type list is. The module that holds this trait is private, so
/// no type outside this library can implement it: the only type lists are
/// `Nil` and `Cons`.
pub trait TyListAux: Sized + Clone + Copy + Default {
}

} // verus!
