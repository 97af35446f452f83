use vstd::prelude::*;
use std::marker::PhantomData;

pub mod lift;
pub mod laws;

verus! {

/// What a witness of `A` = `B` does to a value that lies under a type-level
/// function: a value of type `TF(A)` is read as one of type `TF(B)`.
pub trait Congruence<A: ?Sized, B: ?Sized, TF: lift::TyFun<A> + lift::TyFun<B>> {
    /// The value `x`, of type `TF(A)`, at type `TF(B)`.
    spec fn under(&self, x: &<TF as lift::TyFun<A>>::Result) -> &<TF as lift::TyFun<B>>::Result;
}

/// A witness that the types `A` and `B` are one and the same type.
///
/// The witness is read in two directions: `forward` takes a value of type
/// `A` to type `B`, and `backward` takes a value of type `B` to type `A`.
/// The two undo each other, and no conversion changes the value: under the
/// identity mapping a value is converted as `forward` does, and under a
/// constant mapping it stays as it is.
pub trait Identity<A: ?Sized, B: ?Sized>: Sized {
    /// The type of the witness of `B` = `A`.
    type Inverse;

    /// The value `x`, of type `A`, at type `B`.
    spec fn forward(&self, x: &A) -> &B;

    /// The value `y`, of type `B`, at type `A`.
    spec fn backward(&self, y: &B) -> &A;

    /// The witness read in the other direction.
    spec fn spec_inv(&self) -> Self::Inverse;

    /// Forward and then backward gives the value back.
    proof fn lemma_backward_forward(&self, x: &A)
        ensures
            self.backward(self.forward(x)) == x,
    ;

    /// Backward and then forward gives the value back.
    proof fn lemma_forward_backward(&self, y: &B)
        ensures
            self.forward(self.backward(y)) == y,
    ;

    /// Under the identity mapping a value is converted as `forward` does.
    proof fn lemma_under_identity(&self, x: &A) where Self: Congruence<A, B, lift::Id>
        ensures
            Congruence::<A, B, lift::Id>::under(self, x) == self.forward(x),
    ;

    /// Under a constant mapping a value stays as it is.
    proof fn lemma_under_constant<X: ?Sized>(&self, x: &X) where Self: Congruence<A, B, lift::Const<X>>
        ensures
            Congruence::<A, B, lift::Const<X>>::under(self, x) == x,
    ;

    /// Converts a value of type `A` into the same value of type `B`.
    fn conv(&self, x: A) -> (y: B) where A: Sized, B: Sized
        ensures
            y == self.forward(&x),
    ;

    /// Converts a shared reference to an `A` into one to the same value as
    /// a `B`.
    fn conv_ref<'a>(&self, x: &'a A) -> (y: &'a B)
        ensures
            y == self.forward(x),
    ;

    /// Converts an exclusive reference to an `A` into one to the same place
    /// as a `B`: it holds the value that `x` held, and what is written
    /// through it is what `x` holds afterwards.
    fn conv_mut<'a>(&self, x: &'a mut A) -> (y: &'a mut B)
        ensures
            &*y == self.forward(&*old(x)),
            &*final(x) == self.backward(&*final(y)),
    ;

    /// Converts an owned, boxed `A` into the same value as a boxed `B`.
    fn conv_box(&self, x: Box<A>) -> (y: Box<B>)
        ensures
            &*y == self.forward(&*x),
    ;

    /// Converts a value of type `TF(A)` into the same value of type `TF(B)`.
    fn conv_under<TF: lift::TyFun<A> + lift::TyFun<B>>(
        &self,
        x: <TF as lift::TyFun<A>>::Result,
    ) -> (y: <TF as lift::TyFun<B>>::Result) where
        <TF as lift::TyFun<A>>::Result: Sized,
        <TF as lift::TyFun<B>>::Result: Sized,
        Self: Congruence<A, B, TF>,

        ensures
            y == Congruence::<A, B, TF>::under(self, &x),
    ;

    /// The witness of `B` = `A`.
    fn inv(&self) -> (r: &Self::Inverse)
        ensures
            *r == self.spec_inv(),
    ;

    /// From a value of type `Prop(A, Refl<A>)`, the case of reflexivity,
    /// gives one of type `Prop(B, Self)`, the case of this witness. Which
    /// value that is, is said by each witness for itself: the two types
    /// differ until the witness is known.
    fn elim<Prop: lift::TyFun2<A, Refl<A>> + lift::TyFun2<B, Self>>(
        &self,
        refl_case: <Prop as lift::TyFun2<A, Refl<A>>>::Result,
    ) -> (y: <Prop as lift::TyFun2<B, Self>>::Result) where
        <Prop as lift::TyFun2<A, Refl<A>>>::Result: Sized,
        <Prop as lift::TyFun2<B, Self>>::Result: Sized,
    ;
}

/// A witness whose inverse is a witness in turn, and is its inverse in what
/// it does: the inverse converts forward as the witness converts backward,
/// and the inverse of the inverse is the witness itself.
pub trait Symmetric<A: ?Sized, B: ?Sized>: Identity<A, B> where
    <Self as Identity<A, B>>::Inverse: Identity<B, A, Inverse = Self>,
{
    /// The inverse converts forward as the witness converts backward.
    proof fn lemma_inverse_forward(&self, y: &B)
        ensures
            self.spec_inv().forward(y) == self.backward(y),
    ;

    /// The inverse converts backward as the witness converts forward.
    proof fn lemma_inverse_backward(&self, x: &A)
        ensures
            self.spec_inv().backward(x) == self.forward(x),
    ;

    /// The inverse of the inverse is the witness.
    proof fn lemma_double_inverse(&self)
        ensures
            self.spec_inv().spec_inv() == *self,
    ;
}

/// The witness that a type is equal to itself.
#[derive(Debug, Hash)]
pub struct Refl<A: ?Sized> {
    phantom: PhantomData<A>,
}

impl<A: ?Sized> Refl<A> {
    /// The one value of this type.
    pub closed spec fn tag() -> Self {
        Refl { phantom: PhantomData }
    }

    /// A `Refl<A>` carries no data: any two of them are equal.
    pub proof fn lemma_unique(a: Self, b: Self)
        ensures
            a == b,
    {
    }
}

/// The witness that `A` is equal to itself.
pub fn refl<A: ?Sized>() -> (r: Refl<A>)
    ensures
        r == Refl::<A>::tag(),
{
    Refl::default()
}

impl<A: ?Sized> Clone for Refl<A> {
    fn clone(&self) -> (r: Self)
        ensures
            r == *self,
    {
        refl()
    }
}

impl<A: ?Sized> Copy for Refl<A> {}

impl<A: ?Sized> Default for Refl<A> {
    fn default() -> (r: Self)
        ensures
            r == Self::tag(),
    {
        Refl { phantom: PhantomData }
    }
}

impl<A: ?Sized, TF: lift::TyFun<A>> Congruence<A, A, TF> for Refl<A> {
    open spec fn under(&self, x: &TF::Result) -> &TF::Result {
        x
    }
}

impl<A: ?Sized> Identity<A, A> for Refl<A> {
    type Inverse = Self;

    open spec fn forward(&self, x: &A) -> &A {
        x
    }

    open spec fn backward(&self, y: &A) -> &A {
        y
    }

    open spec fn spec_inv(&self) -> Self {
        *self
    }

    proof fn lemma_backward_forward(&self, x: &A) {
    }

    proof fn lemma_forward_backward(&self, y: &A) {
    }

    proof fn lemma_under_identity(&self, x: &A) {
    }

    proof fn lemma_under_constant<X: ?Sized>(&self, x: &X) {
    }

    fn conv(&self, x: A) -> (y: A) where A: Sized
        ensures
            y == x,
    {
        x
    }

    fn conv_ref<'a>(&self, x: &'a A) -> (y: &'a A)
        ensures
            y == x,
    {
        x
    }

    fn conv_mut<'a>(&self, x: &'a mut A) -> (y: &'a mut A)
        ensures
            &*y == &*old(x),
            &*final(x) == &*final(y),
    {
        x
    }

    fn conv_box(&self, x: Box<A>) -> (y: Box<A>)
        ensures
            y == x,
    {
        x
    }

    fn conv_under<TF: lift::TyFun<A>>(&self, x: TF::Result) -> (y: TF::Result) where
        TF::Result: Sized,

        ensures
            y == x,
    {
        x
    }

    fn inv(&self) -> (r: &Self)
        ensures
            r == self,
    {
        self
    }

    fn elim<Prop: lift::TyFun2<A, Refl<A>>>(
        &self,
        refl_case: <Prop as lift::TyFun2<A, Refl<A>>>::Result,
    ) -> (y: <Prop as lift::TyFun2<A, Refl<A>>>::Result) where
        <Prop as lift::TyFun2<A, Refl<A>>>::Result: Sized,

        ensures
            y == refl_case,
            y == Congruence::<A, A, AtRefl<Prop>>::under(self, &refl_case),
    {
        self.conv_under::<AtRefl<Prop>>(refl_case)
    }
}

impl<A: ?Sized> Symmetric<A, A> for Refl<A> {
    proof fn lemma_inverse_forward(&self, y: &A) {
    }

    proof fn lemma_inverse_backward(&self, x: &A) {
    }

    proof fn lemma_double_inverse(&self) {
    }
}

/// A mapping of two parameters, a type and a witness, read along the
/// witnesses of reflexivity: `AtRefl<Prop>` maps a type `X` to
/// `Prop(X, Refl<X>)`.
#[derive(Debug, Copy, Default, Hash)]
pub struct AtRefl<Prop> {
    inner: Prop,
}

impl<Prop> AtRefl<Prop> {
    /// The mapping of two parameters that is read.
    pub closed spec fn inner(self) -> Prop {
        self.inner
    }
}

impl<Prop: Clone> Clone for AtRefl<Prop> {
    fn clone(&self) -> (r: Self)
        ensures
            cloned(self.inner(), r.inner()),
    {
        AtRefl { inner: self.inner.clone() }
    }
}

impl<X: ?Sized, Prop: lift::TyFun2<X, Refl<X>>> lift::TyFun<X> for AtRefl<Prop> {
    type Result = <Prop as lift::TyFun2<X, Refl<X>>>::Result;
}

/// A type is equal to `Other` when a witness of that can be given.
pub trait Equals<Other: ?Sized> {
    type IdentityWitness: Identity<Self, Other>;

    /// The witness that `Self` is equal to `Other`.
    fn identity_witness() -> Self::IdentityWitness;
}

impl<T: ?Sized> Equals<T> for T {
    type IdentityWitness = Refl<T>;

    fn identity_witness() -> (r: Refl<T>)
        ensures
            r == Refl::<T>::tag(),
    {
        refl()
    }
}

} // verus!
