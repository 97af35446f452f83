use vstd::prelude::*;
use std::marker::PhantomData;

mod aux;

verus! {

/// A mapping from types to types, carried by a tag value: for every parameter
/// type that the tag accepts, `Result` is the type the parameter is mapped to.
pub trait TyFun<Param: ?Sized>: Sized {
    type Result: ?Sized;
}

impl<'x, Param: ?Sized, F: TyFun<Param>> TyFun<Param> for &'x F {
    type Result = F::Result;
}

impl<'x, Param: ?Sized, F: TyFun<Param>> TyFun<Param> for &'x mut F {
    type Result = F::Result;
}

impl<Param: ?Sized, F: TyFun<Param>> TyFun<Param> for Box<F> {
    type Result = F::Result;
}

/// A mapping from lifetimes to types, carried by a tag value.
pub trait LiFun<'param>: Sized {
    type Result: ?Sized;
}

impl<'x, 'param, F: LiFun<'param>> LiFun<'param> for &'x F {
    type Result = F::Result;
}

impl<'x, 'param, F: LiFun<'param>> LiFun<'param> for &'x mut F {
    type Result = F::Result;
}

impl<'param, F: LiFun<'param>> LiFun<'param> for Box<F> {
    type Result = F::Result;
}

/// A type that stands for the lifetime `'param`, so that a lifetime can be
/// handed to a `TyFun` as its parameter.
#[derive(Debug, Hash)]
pub struct LiToTy<'param> {
    phantom: PhantomData<&'param ()>,
}

impl<'param> LiToTy<'param> {
    /// The one value of this type.
    pub closed spec fn tag() -> Self {
        LiToTy { phantom: PhantomData }
    }

    /// A `LiToTy` carries no data: any two of them are equal.
    pub proof fn lemma_unique(a: Self, b: Self)
        ensures
            a == b,
    {
    }
}

impl<'param> Clone for LiToTy<'param> {
    fn clone(&self) -> (r: Self)
        ensures
            r == *self,
    {
        LiToTy::default()
    }
}

impl<'param> Copy for LiToTy<'param> {}

impl<'param> Default for LiToTy<'param> {
    fn default() -> (r: Self)
        ensures
            r == Self::tag(),
    {
        LiToTy { phantom: PhantomData }
    }
}

/// Reads a `LiFun` as a `TyFun` whose parameter is `LiToTy<'param>`.
#[derive(Debug, Copy, Default, Hash)]
pub struct LiFunToTyFun<F> {
    inner: F,
}

impl<F> LiFunToTyFun<F> {
    /// The mapping that is read.
    pub closed spec fn inner(self) -> F {
        self.inner
    }
}

impl<F: Clone> Clone for LiFunToTyFun<F> {
    fn clone(&self) -> (r: Self)
        ensures
            cloned(self.inner(), r.inner()),
    {
        LiFunToTyFun { inner: self.inner.clone() }
    }
}

impl<'param, F: LiFun<'param>> TyFun<LiToTy<'param>> for LiFunToTyFun<F> {
    type Result = F::Result;
}

/// Reads a `TyFun` over `LiToTy<'param>` as a `LiFun`.
#[derive(Debug, Copy, Default, Hash)]
pub struct TyFunToLiFun<F> {
    inner: F,
}

impl<F> TyFunToLiFun<F> {
    /// The mapping that is read.
    pub closed spec fn inner(self) -> F {
        self.inner
    }
}

impl<F: Clone> Clone for TyFunToLiFun<F> {
    fn clone(&self) -> (r: Self)
        ensures
            cloned(self.inner(), r.inner()),
    {
        TyFunToLiFun { inner: self.inner.clone() }
    }
}

impl<'param, F: TyFun<LiToTy<'param>>> LiFun<'param> for TyFunToLiFun<F> {
    type Result = F::Result;
}

/// The identity mapping: every parameter is mapped to itself.
#[derive(Debug, Clone, Copy, Default, Hash)]
pub struct Id;

impl<Param: ?Sized> TyFun<Param> for Id {
    type Result = Param;
}

/// The identity mapping, as a value.
pub fn ty_id() -> (r: Id)
    ensures
        r == Id,
{
    Id
}

/// The constant mapping: every parameter is mapped to `X`.
#[derive(Debug, Hash)]
pub struct Const<X: ?Sized> {
    phantom: PhantomData<X>,
}

impl<X: ?Sized> Const<X> {
    /// The one value of this type.
    pub closed spec fn tag() -> Self {
        Const { phantom: PhantomData }
    }

    /// A `Const<X>` carries no data: any two of them are equal.
    pub proof fn lemma_unique(a: Self, b: Self)
        ensures
            a == b,
    {
    }
}

impl<X: ?Sized> Clone for Const<X> {
    fn clone(&self) -> (r: Self)
        ensures
            r == *self,
    {
        Const::default()
    }
}

impl<X: ?Sized> Copy for Const<X> {}

impl<X: ?Sized> Default for Const<X> {
    fn default() -> (r: Self)
        ensures
            r == Self::tag(),
    {
        Const { phantom: PhantomData }
    }
}

/// The constant mapping to `X`, as a value.
pub fn ty_const<X: ?Sized>() -> (r: Const<X>)
    ensures
        r == Const::<X>::tag(),
{
    Const::default()
}

impl<Param: ?Sized, X: ?Sized> TyFun<Param> for Const<X> {
    type Result = X;
}

impl<'param, X: ?Sized> LiFun<'param> for Const<X> {
    type Result = X;
}

/// The mapping that sends a type `X` to the constant mapping `Const<X>`.
#[derive(Debug, Clone, Copy, Default, Hash)]
pub struct ConstTyFun;

impl<X: ?Sized> TyFun<X> for ConstTyFun {
    type Result = Const<X>;
}

/// Composition in the mathematical order: `Compose<TFa, TFb>` maps a
/// parameter `P` to `TFa(TFb(P))`.
#[derive(Debug, Copy, Default, Hash)]
pub struct Compose<TFa, TFb> {
    tf_a: TFa,
    tf_b: TFb,
}

/// Composition in pipeline order: `AndThen<TFa, TFb>` maps a parameter `P`
/// to `TFb(TFa(P))`.
pub type AndThen<TFa, TFb> = Compose<TFb, TFa>;

impl<TFa, TFb> Compose<TFa, TFb> {
    /// The mapping that is applied last.
    pub closed spec fn outer(self) -> TFa {
        self.tf_a
    }

    /// The mapping that is applied first.
    pub closed spec fn inner(self) -> TFb {
        self.tf_b
    }

    /// A `Compose` is determined by its two components: two of them with
    /// the same components are equal.
    pub proof fn lemma_ext(a: Self, b: Self)
        requires
            a.outer() == b.outer(),
            a.inner() == b.inner(),
        ensures
            a == b,
    {
    }
}

impl<TFa: Clone, TFb: Clone> Clone for Compose<TFa, TFb> {
    fn clone(&self) -> (r: Self)
        ensures
            cloned(self.outer(), r.outer()),
            cloned(self.inner(), r.inner()),
    {
        Compose { tf_a: self.tf_a.clone(), tf_b: self.tf_b.clone() }
    }
}

impl<Param: ?Sized, TFa, TFb> TyFun<Param> for Compose<TFa, TFb>
    where TFb: TyFun<Param>, TFa: TyFun<TFb::Result> {
    type Result = TFa::Result;
}

impl<'param, TFa, TFb> LiFun<'param> for Compose<TFa, TFb>
    where TFb: LiFun<'param>, TFa: TyFun<TFb::Result> {
    type Result = TFa::Result;
}

/// The composition that applies `tf_b` first and `tf_a` to its result.
pub fn ty_compose<TFa, TFb>(tf_a: TFa, tf_b: TFb) -> (r: Compose<TFa, TFb>)
    ensures
        r.outer() == tf_a,
        r.inner() == tf_b,
{
    Compose { tf_a: tf_a, tf_b: tf_b }
}

/// The composition that applies `tf_a` first and `tf_b` to its result: the
/// composition of `tf_b` and `tf_a` in the mathematical order.
pub fn ty_and_then<TFa, TFb>(tf_a: TFa, tf_b: TFb) -> (r: AndThen<TFa, TFb>)
    ensures
        r.outer() == tf_b,
        r.inner() == tf_a,
{
    Compose { tf_a: tf_b, tf_b: tf_a }
}

/// Application under a shared parameter: `Ap<F, G>` maps a parameter `P` to
/// `F(P)`, itself a mapping, applied to `G(P)`.
#[derive(Debug, Copy, Default, Hash)]
pub struct Ap<F, G> {
    inner_f: F,
    inner_g: G,
}

impl<F, G> Ap<F, G> {
    /// The mapping whose result is applied.
    pub closed spec fn function(self) -> F {
        self.inner_f
    }

    /// The mapping whose result is the argument.
    pub closed spec fn argument(self) -> G {
        self.inner_g
    }

    /// An `Ap` is determined by its two components: two of them with the
    /// same components are equal.
    pub proof fn lemma_ext(a: Self, b: Self)
        requires
            a.function() == b.function(),
            a.argument() == b.argument(),
        ensures
            a == b,
    {
    }
}

impl<F: Clone, G: Clone> Clone for Ap<F, G> {
    fn clone(&self) -> (r: Self)
        ensures
            cloned(self.function(), r.function()),
            cloned(self.argument(), r.argument()),
    {
        Ap { inner_f: self.inner_f.clone(), inner_g: self.inner_g.clone() }
    }
}

/// The mapping that applies the result of `f` to the result of `g`.
pub fn ty_ap<F, G>(f: F, g: G) -> (r: Ap<F, G>)
    ensures
        r.function() == f,
        r.argument() == g,
{
    Ap { inner_f: f, inner_g: g }
}

impl<Param: ?Sized, F, G> TyFun<Param> for Ap<F, G>
    where F: TyFun<Param>, G: TyFun<Param>, F::Result: TyFun<G::Result> {
    type Result = <F::Result as TyFun<G::Result>>::Result;
}

impl<'param, F, G> LiFun<'param> for Ap<F, G>
    where F: LiFun<'param>, G: LiFun<'param>, F::Result: TyFun<G::Result> {
    type Result = <F::Result as TyFun<G::Result>>::Result;
}

/// The mapping that sends `F` to `ApTyFun1<F>`: `Ap` taken one argument at a
/// time.
#[derive(Debug, Clone, Copy, Default, Hash)]
pub struct ApTyFun0;

impl<F> TyFun<F> for ApTyFun0 {
    type Result = ApTyFun1<F>;
}

/// The mapping that sends `G` to `Ap<F, G>`.
#[derive(Debug, Copy, Default, Hash)]
pub struct ApTyFun1<F> {
    inner: F,
}

impl<F> ApTyFun1<F> {
    /// The mapping whose result is applied.
    pub closed spec fn function(self) -> F {
        self.inner
    }
}

impl<F: Clone> Clone for ApTyFun1<F> {
    fn clone(&self) -> (r: Self)
        ensures
            cloned(self.function(), r.function()),
    {
        ApTyFun1 { inner: self.inner.clone() }
    }
}

impl<F, G> TyFun<G> for ApTyFun1<F> {
    type Result = Ap<F, G>;
}

/// A two-parameter mapping with its parameters swapped: `Flip<F>` applied to
/// `b` and then to `a` is `F` applied to `a` and then to `b`.
#[derive(Debug, Copy, Default, Hash)]
pub struct Flip<F> {
    inner: F,
}

impl<F> Flip<F> {
    /// The mapping whose parameters are swapped.
    pub closed spec fn inner(self) -> F {
        self.inner
    }

    /// A `Flip` is determined by the mapping it swaps: two of them with the
    /// same mapping are equal.
    pub proof fn lemma_ext(a: Self, b: Self)
        requires
            a.inner() == b.inner(),
        ensures
            a == b,
    {
    }
}

impl<F: Clone> Clone for Flip<F> {
    fn clone(&self) -> (r: Self)
        ensures
            cloned(self.inner(), r.inner()),
    {
        Flip { inner: self.inner.clone() }
    }
}

impl<ParamB: ?Sized, F> TyFun<ParamB> for Flip<F> {
    type Result = Flipped<F, ParamB>;
}

/// `Flip<F>` after its first application, to `ParamB`: it maps a parameter
/// `a` to `F(a)` applied to `ParamB`.
#[derive(Debug, Hash)]
pub struct Flipped<F, ParamB: ?Sized> {
    inner: F,
    phantom: PhantomData<ParamB>,
}

impl<F, ParamB: ?Sized> Flipped<F, ParamB> {
    /// The mapping whose parameters are swapped.
    pub closed spec fn inner(self) -> F {
        self.inner
    }

    /// A `Flipped` is determined by the mapping it swaps: two of them with
    /// the same mapping are equal.
    pub proof fn lemma_ext(a: Self, b: Self)
        requires
            a.inner() == b.inner(),
        ensures
            a == b,
    {
    }
}

impl<F: Clone, ParamB: ?Sized> Clone for Flipped<F, ParamB> {
    fn clone(&self) -> (r: Self)
        ensures
            cloned(self.inner(), r.inner()),
    {
        Flipped { inner: self.inner.clone(), phantom: PhantomData }
    }
}

impl<F: Copy, ParamB: ?Sized> Copy for Flipped<F, ParamB> {}

impl<F: Default, ParamB: ?Sized> Default for Flipped<F, ParamB> {
    fn default() -> (r: Self)
        ensures
            call_ensures(F::default, (), r.inner()),
    {
        Flipped { inner: F::default(), phantom: PhantomData }
    }
}

impl<ParamA: ?Sized, ParamB: ?Sized, F: TyFun<ParamA>> TyFun<ParamA> for Flipped<F, ParamB>
    where F::Result: TyFun<ParamB> {
    type Result = <F::Result as TyFun<ParamB>>::Result;
}

/// The mapping `f` with its two parameters swapped.
pub fn ty_flip<F>(f: F) -> (r: Flip<F>)
    ensures
        r.inner() == f,
{
    Flip { inner: f }
}

/// The mapping that sends `F` to `Flip<F>`.
#[derive(Debug, Clone, Copy, Default, Hash)]
pub struct FlipTyFun;

impl<F> TyFun<F> for FlipTyFun {
    type Result = Flip<F>;
}

/// A dependent function: called with a value of any parameter type, it
/// gives a value of the type that `TF` maps that parameter type to.
pub trait Pi<TF> {
    fn call<Param>(self, x: Param) -> TF::Result where TF: TyFun<Param>, TF::Result: Sized;
}

/// A dependent pair: a value of some parameter type together with a value of
/// the type that `TF` maps that parameter type to.
pub trait Sigma<TF> where TF: TyFun<Self::Param>, TF::Result: Sized {
    type Param;

    /// The first component.
    fn fst(self) -> Self::Param;

    /// The second component.
    fn snd(self) -> TF::Result;
}

/// A universal value: it can be instantiated at any parameter type, and
/// gives a value of the type that `TF` maps that parameter type to.
pub trait Forall<TF> {
    /// The value at `Param`.
    fn instance<Param: ?Sized>(self) -> TF::Result where TF: TyFun<Param>, TF::Result: Sized;
}

/// An existential value: for one parameter type, which stays hidden, it
/// holds a value of the type that `TF` maps that parameter type to.
pub trait Exists<TF> where TF: TyFun<Self::Param>, TF::Result: Sized {
    type Param: ?Sized;

    /// The value that is packed.
    fn value(self) -> TF::Result;
}

/// Every universal value is a dependent function: called with an argument
/// of type `Param`, it gives its instance at `Param`, whatever the argument.
impl<TF, X: Forall<TF>> Pi<TF> for X {
    fn call<Param>(self, x: Param) -> (r: TF::Result) where TF: TyFun<Param>, TF::Result: Sized
        ensures
            call_ensures(X::instance::<Param>, (self,), r),
    {
        self.instance::<Param>()
    }
}

/// Every dependent pair is an existential value: its parameter type is the
/// type of the first component, and its value is the second component.
impl<TF, X: Sigma<TF>> Exists<TF> for X where TF: TyFun<X::Param>, TF::Result: Sized {
    type Param = X::Param;

    fn value(self) -> (r: TF::Result)
        ensures
            call_ensures(X::snd, (self,), r),
    {
        self.snd()
    }
}

/// A list of types, of fixed length: `Nil`, or `Cons` of a type and a list.
pub trait TyList: aux::TyListAux {
}

impl<L: aux::TyListAux> TyList for L {
}

/// The empty type list.
#[derive(Debug, Clone, Copy, Default, Hash)]
pub struct Nil;

impl aux::TyListAux for Nil {
}

/// The type list whose first type is `A` and whose other types are `As`.
#[derive(Debug, Hash)]
pub struct Cons<A: ?Sized, As: TyList> {
    phantom: PhantomData<A>,
    rest: As,
}

impl<A: ?Sized, As: TyList> Cons<A, As> {
    /// The list without its first type.
    pub closed spec fn rest(self) -> As {
        self.rest
    }

    /// A `Cons` is determined by the list that follows its first type: two
    /// of them with the same rest are equal.
    pub proof fn lemma_ext(a: Self, b: Self)
        requires
            a.rest() == b.rest(),
        ensures
            a == b,
    {
    }
}

impl<A: ?Sized, As: TyList> Clone for Cons<A, As> {
    fn clone(&self) -> (r: Self)
        ensures
            cloned(self.rest(), r.rest()),
    {
        Cons { phantom: PhantomData, rest: self.rest.clone() }
    }
}

impl<A: ?Sized, As: TyList> Copy for Cons<A, As> {}

impl<A: ?Sized, As: TyList> Default for Cons<A, As> {
    fn default() -> (r: Self)
        ensures
            call_ensures(As::default, (), r.rest()),
    {
        Cons { phantom: PhantomData, rest: As::default() }
    }
}

impl<A: ?Sized, As: TyList> aux::TyListAux for Cons<A, As> {
}

/// A mapping of several parameters, given as a type list and taken one
/// after the other: applied to the empty list a type is itself; applied to
/// `Cons<Param, Params>`, a `TyFun` is applied to `Param` and its result to
/// `Params`.
pub trait TysFun<Params: TyList> {
    type Result: ?Sized;
}

impl<R: ?Sized> TysFun<Nil> for R {
    type Result = R;
}

impl<Param: ?Sized, Params: TyList, F: TyFun<Param>> TysFun<Cons<Param, Params>> for F
    where F::Result: TysFun<Params> {
    type Result = <F::Result as TysFun<Params>>::Result;
}

/// Reads a mapping of several parameters as a `TyFun` of one parameter, the
/// type list of them.
#[derive(Debug, Copy, Default, Hash)]
pub struct Uncurry<F> {
    inner: F,
}

impl<F> Uncurry<F> {
    /// The mapping of several parameters that is read.
    pub closed spec fn inner(self) -> F {
        self.inner
    }
}

impl<F: Clone> Clone for Uncurry<F> {
    fn clone(&self) -> (r: Self)
        ensures
            cloned(self.inner(), r.inner()),
    {
        Uncurry { inner: self.inner.clone() }
    }
}

impl<Params: TyList, F: TysFun<Params>> TyFun<Params> for Uncurry<F> {
    type Result = F::Result;
}

/// The type list of two types.
pub type TyPair<A: ?Sized, B: ?Sized> = Cons<A, Cons<B, Nil>>;

/// The type list of three types.
pub type TyTriple<A: ?Sized, B: ?Sized, C: ?Sized> = Cons<A, Cons<B, Cons<C, Nil>>>;

/// A mapping of two parameters, taken one after the other: a `TyFun` whose
/// result at `ParamA` is a `TyFun` that accepts `ParamB`.
pub trait TyFun2<ParamA: ?Sized, ParamB: ?Sized>: Sized {
    type Result: ?Sized;
}

impl<ParamA: ?Sized, ParamB: ?Sized, F: TyFun<ParamA>> TyFun2<ParamA, ParamB> for F
    where F::Result: TyFun<ParamB> {
    type Result = <F::Result as TyFun<ParamB>>::Result;
}

} // verus!
