use vstd::prelude::*;
use crate::{AtRefl, Congruence, Identity, Refl, Symmetric};
use crate::lift::{
    AndThen, Ap, ApTyFun0, ApTyFun1, Compose, Cons, Const, ConstTyFun, Flip, FlipTyFun, Flipped, Id,
    LiFun, LiFunToTyFun, LiToTy, Nil, TyFun, TyFun2, TyFunToLiFun, TyList, TyPair, TyTriple, TysFun,
    Uncurry,
};

verus! {

// The laws of the witnesses.
//
// A law of a witness is stated over `forward`, `backward`, `spec_inv` and
// `under`, in which the contracts of the conversions are written.

/// Reflexivity converts every value into itself, in both directions and
/// under every mapping.
pub proof fn law_reflexivity<A: ?Sized, TF: TyFun<A>>(w: Refl<A>, x: &A, z: &TF::Result)
    ensures
        w.forward(x) == x,
        w.backward(x) == x,
        Congruence::<A, A, TF>::under(&w, z) == z,
        w.spec_inv() == w,
{
}

/// Converting a value with a witness and then with the witness's inverse
/// gives the value back, and so does converting with the inverse first.
pub proof fn law_inverse_round_trip<A: ?Sized, B: ?Sized, Ev: Symmetric<A, B>>(
    w: Ev,
    x: &A,
    y: &B,
) where Ev::Inverse: Identity<B, A, Inverse = Ev>
    ensures
        w.spec_inv().forward(w.forward(x)) == x,
        w.forward(w.spec_inv().forward(y)) == y,
{
    w.lemma_inverse_forward(w.forward(x));
    w.lemma_backward_forward(x);
    w.lemma_inverse_forward(y);
    w.lemma_forward_backward(y);
}

/// The inverse of the inverse of a witness is the witness. So it converts
/// as the witness does: a value, a shared reference and a box by `forward`,
/// an exclusive reference by `forward` for what it holds and by `backward`
/// for what is written through it.
pub proof fn law_double_inverse<A: ?Sized, B: ?Sized, Ev: Symmetric<A, B>>(w: Ev, x: &A, y: &B) where
    Ev::Inverse: Identity<B, A, Inverse = Ev>,

    ensures
        w.spec_inv().spec_inv() == w,
        w.spec_inv().spec_inv().forward(x) == w.forward(x),
        w.spec_inv().spec_inv().backward(y) == w.backward(y),
{
    w.lemma_double_inverse();
}

/// Under the identity mapping a witness converts as it does on the value
/// itself.
pub proof fn law_congruence_identity<
    A: ?Sized,
    B: ?Sized,
    Ev: Identity<A, B> + Congruence<A, B, Id>,
>(w: Ev, x: &A)
    ensures
        Congruence::<A, B, Id>::under(&w, x) == w.forward(x),
{
    w.lemma_under_identity(x);
}

/// Under a constant mapping a witness leaves the value as it is, whatever
/// the witness.
pub proof fn law_congruence_constant<
    A: ?Sized,
    B: ?Sized,
    X: ?Sized,
    Ev: Identity<A, B> + Congruence<A, B, Const<X>>,
>(w: Ev, x: &X)
    ensures
        Congruence::<A, B, Const<X>>::under(&w, x) == x,
{
    w.lemma_under_constant::<X>(x);
}

// The laws of the mappings.
//
// A law of a mapping says that two types are one and the same type. The
// function that states it takes a value of the one type and gives it back
// as a value of the other.

/// `Id` maps every parameter to itself.
pub proof fn law_id<P: ?Sized>(x: &<Id as TyFun<P>>::Result) -> (y: &P)
    ensures
        y == x,
{
    x
}

/// `Const<X>` maps every parameter to `X`.
pub proof fn law_const<X: ?Sized, P: ?Sized>(x: &<Const<X> as TyFun<P>>::Result) -> (y: &X)
    ensures
        y == x,
{
    x
}

/// `Compose<F, G>` maps a parameter `P` to `F(G(P))`.
pub proof fn law_compose<P: ?Sized, F, G>(x: &<Compose<F, G> as TyFun<P>>::Result) -> (y: &<F as TyFun<
    <G as TyFun<P>>::Result,
>>::Result) where G: TyFun<P>, F: TyFun<<G as TyFun<P>>::Result>
    ensures
        y == x,
{
    x
}

/// `AndThen<F, G>` maps a parameter `P` to `G(F(P))`.
pub proof fn law_and_then<P: ?Sized, F, G>(x: &<AndThen<F, G> as TyFun<P>>::Result) -> (y: &<G as TyFun<
    <F as TyFun<P>>::Result,
>>::Result) where F: TyFun<P>, G: TyFun<<F as TyFun<P>>::Result>
    ensures
        y == x,
{
    x
}

/// `Compose<Id, F>` maps every parameter to what `F` maps it to.
pub proof fn law_compose_left_identity<P: ?Sized, F: TyFun<P>>(
    x: &<Compose<Id, F> as TyFun<P>>::Result,
) -> (y: &<F as TyFun<P>>::Result)
    ensures
        y == x,
{
    x
}

/// `Compose<F, Id>` maps every parameter to what `F` maps it to.
pub proof fn law_compose_right_identity<P: ?Sized, F: TyFun<P>>(
    x: &<Compose<F, Id> as TyFun<P>>::Result,
) -> (y: &<F as TyFun<P>>::Result)
    ensures
        y == x,
{
    x
}

/// `Flip<F>` applied to `B` and then to `A` is `F` applied to `A` and then
/// to `B`.
pub proof fn law_flip<A: ?Sized, B: ?Sized, F: TyFun<A>>(
    x: &<<Flip<F> as TyFun<B>>::Result as TyFun<A>>::Result,
) -> (y: &<<F as TyFun<A>>::Result as TyFun<B>>::Result) where <F as TyFun<A>>::Result: TyFun<B>
    ensures
        y == x,
{
    x
}

/// `Flip<Flip<F>>` applied to `A` and then to `B` is `F` applied to `A` and
/// then to `B`.
pub proof fn law_flip_involution<A: ?Sized, B: ?Sized, F: TyFun<A>>(
    x: &<<Flip<Flip<F>> as TyFun<A>>::Result as TyFun<B>>::Result,
) -> (y: &<<F as TyFun<A>>::Result as TyFun<B>>::Result) where <F as TyFun<A>>::Result: TyFun<B>
    ensures
        y == x,
{
    x
}

/// `Ap<F, G>` maps a parameter `P` to `F(P)` applied to `G(P)`.
pub proof fn law_ap<P: ?Sized, F: TyFun<P>, G: TyFun<P>>(x: &<Ap<F, G> as TyFun<P>>::Result) -> (y: &<<F as TyFun<
    P,
>>::Result as TyFun<<G as TyFun<P>>::Result>>::Result) where
    <F as TyFun<P>>::Result: TyFun<<G as TyFun<P>>::Result>,

    ensures
        y == x,
{
    x
}

/// `ConstTyFun` maps a type `X` to the constant mapping `Const<X>`.
pub proof fn law_const_ty_fun<X: ?Sized>(x: &<ConstTyFun as TyFun<X>>::Result) -> (y: &Const<X>)
    ensures
        y == x,
{
    x
}

/// `FlipTyFun` maps a mapping `F` to `Flip<F>`.
pub proof fn law_flip_ty_fun<F>(x: &<FlipTyFun as TyFun<F>>::Result) -> (y: &Flip<F>)
    ensures
        y == x,
{
    x
}

/// `Flip<F>` maps a parameter `B` to `Flipped<F, B>`.
pub proof fn law_flipped<B: ?Sized, F>(x: &<Flip<F> as TyFun<B>>::Result) -> (y: &Flipped<F, B>)
    ensures
        y == x,
{
    x
}

/// `ApTyFun0` applied to `F` and then to `G` is `Ap<F, G>`.
pub proof fn law_ap_ty_fun<F, G>(x: &<<ApTyFun0 as TyFun<F>>::Result as TyFun<G>>::Result) -> (y: &Ap<F, G>)
    ensures
        y == x,
{
    x
}

/// `ApTyFun1<F>` maps a mapping `G` to `Ap<F, G>`.
pub proof fn law_ap_ty_fun1<F, G>(x: &<ApTyFun1<F> as TyFun<G>>::Result) -> (y: &Ap<F, G>)
    ensures
        y == x,
{
    x
}

/// A mapping of two parameters applied to `A` and `B` is the mapping
/// applied to `A` and its result applied to `B`.
pub proof fn law_ty_fun2<A: ?Sized, B: ?Sized, F: TyFun<A>>(x: &<F as TyFun2<A, B>>::Result) -> (y: &<<F as TyFun<
    A,
>>::Result as TyFun<B>>::Result) where <F as TyFun<A>>::Result: TyFun<B>
    ensures
        y == x,
{
    x
}

/// Applied to the empty type list, a type is itself.
pub proof fn law_tys_fun_nil<R: ?Sized>(x: &<R as TysFun<Nil>>::Result) -> (y: &R)
    ensures
        y == x,
{
    x
}

/// Applied to a type list that begins with `P`, a mapping is applied to `P`
/// and its result to the rest of the list.
pub proof fn law_tys_fun_cons<P: ?Sized, Ps: TyList, F: TyFun<P>>(
    x: &<F as TysFun<Cons<P, Ps>>>::Result,
) -> (y: &<<F as TyFun<P>>::Result as TysFun<Ps>>::Result) where <F as TyFun<P>>::Result: TysFun<Ps>
    ensures
        y == x,
{
    x
}

/// Applied to the list of `A` and `B`, a mapping is applied to `A` and its
/// result to `B`.
pub proof fn law_tys_fun_pair<A: ?Sized, B: ?Sized, F: TyFun<A>>(
    x: &<F as TysFun<TyPair<A, B>>>::Result,
) -> (y: &<<F as TyFun<A>>::Result as TyFun<B>>::Result) where <F as TyFun<A>>::Result: TyFun<B>
    ensures
        y == x,
{
    x
}

/// Applied to the list of `A`, `B` and `C`, a mapping is applied to `A`, its
/// result to `B` and the result of that to `C`.
pub proof fn law_tys_fun_triple<A: ?Sized, B: ?Sized, C: ?Sized, F: TyFun<A>>(
    x: &<F as TysFun<TyTriple<A, B, C>>>::Result,
) -> (y: &<<<F as TyFun<A>>::Result as TyFun<B>>::Result as TyFun<C>>::Result) where
    <F as TyFun<A>>::Result: TyFun<B>,
    <<F as TyFun<A>>::Result as TyFun<B>>::Result: TyFun<C>,

    ensures
        y == x,
{
    x
}

/// `Uncurry<F>` maps a type list to what `F` gives when it is applied to
/// the types of the list, one after the other.
pub proof fn law_uncurry<Ps: TyList, F: TysFun<Ps>>(x: &<Uncurry<F> as TyFun<Ps>>::Result) -> (y: &<F as TysFun<
    Ps,
>>::Result)
    ensures
        y == x,
{
    x
}

/// `AtRefl<Prop>` maps a type `X` to `Prop` applied to `X` and `Refl<X>`.
pub proof fn law_at_refl<X: ?Sized, Prop: TyFun2<X, Refl<X>>>(
    x: &<AtRefl<Prop> as TyFun<X>>::Result,
) -> (y: &<Prop as TyFun2<X, Refl<X>>>::Result)
    ensures
        y == x,
{
    x
}

/// A shared reference to a mapping, an exclusive reference to it and a box
/// of it map every parameter to what the mapping maps it to.
pub proof fn law_borrowed<'a, 'x, P: ?Sized, F: TyFun<P>>(
    x: &'a <&'x F as TyFun<P>>::Result,
    x_mut: &'a <&'x mut F as TyFun<P>>::Result,
    x_box: &'a <Box<F> as TyFun<P>>::Result,
) -> (y: (&'a <F as TyFun<P>>::Result, &'a <F as TyFun<P>>::Result, &'a <F as TyFun<P>>::Result))
    ensures
        y.0 == x,
        y.1 == x_mut,
        y.2 == x_box,
{
    (x, x_mut, x_box)
}

/// `LiFunToTyFun<F>` maps the type that stands for a lifetime to what `F`
/// maps that lifetime to.
pub proof fn law_li_fun_to_ty_fun<'a, 'p, F: LiFun<'p>>(
    x: &'a <LiFunToTyFun<F> as TyFun<LiToTy<'p>>>::Result,
) -> (y: &'a <F as LiFun<'p>>::Result)
    ensures
        y == x,
{
    x
}

/// `TyFunToLiFun<F>` maps a lifetime to what `F` maps the type that stands
/// for that lifetime to.
pub proof fn law_ty_fun_to_li_fun<'a, 'p, F: TyFun<LiToTy<'p>>>(
    x: &'a <TyFunToLiFun<F> as LiFun<'p>>::Result,
) -> (y: &'a <F as TyFun<LiToTy<'p>>>::Result)
    ensures
        y == x,
{
    x
}

/// On a lifetime too, `Compose<F, G>` maps a parameter to `F` of what `G`
/// maps it to.
pub proof fn law_compose_lifetime<'a, 'p, F, G>(x: &'a <Compose<F, G> as LiFun<'p>>::Result) -> (y: &'a <F as TyFun<
    <G as LiFun<'p>>::Result,
>>::Result) where G: LiFun<'p>, F: TyFun<<G as LiFun<'p>>::Result>
    ensures
        y == x,
{
    x
}

/// On a lifetime too, `Const<X>` maps every parameter to `X`, and
/// `Ap<F, G>` maps a parameter to the result of `F` applied to that of `G`.
pub proof fn law_const_ap_lifetime<'a, 'p, X: ?Sized, F: LiFun<'p>, G: LiFun<'p>>(
    x: &'a <Const<X> as LiFun<'p>>::Result,
    z: &'a <Ap<F, G> as LiFun<'p>>::Result,
) -> (y: (&'a X, &'a <<F as LiFun<'p>>::Result as TyFun<<G as LiFun<'p>>::Result>>::Result)) where
    <F as LiFun<'p>>::Result: TyFun<<G as LiFun<'p>>::Result>,

    ensures
        y.0 == x,
        y.1 == z,
{
    (x, z)
}

} // verus!
