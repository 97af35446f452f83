use type_equality::lift::{Compose, Const, Id, TyFun};
use type_equality::{refl, AtRefl, Equals, Identity, Refl};

fn inv_conv<A, B, Ev: Identity<A, B>>(ev: Ev, x: B) -> A
where
    Ev::Inverse: Identity<B, A>,
{
    ev.inv().conv(x)
}

fn round_trip<A, B, Ev: Identity<A, B>>(ev: &Ev, x: A) -> A
where
    Ev::Inverse: Identity<B, A>,
{
    ev.inv().conv(ev.conv(x))
}

fn twice_inverted<'a, A: ?Sized + 'a, B: ?Sized + 'a, Ev: Identity<A, B>>(ev: &'a Ev) -> &'a Ev
where
    Ev::Inverse: Identity<B, A, Inverse = Ev>,
{
    ev.inv().inv()
}

struct InVec;

impl<T> TyFun<T> for InVec {
    type Result = Vec<T>;
}

struct InOption;

impl<T> TyFun<T> for InOption {
    type Result = Option<T>;
}

/// Maps a type and a witness to a list of the type: a mapping of two
/// parameters whose second parameter does not matter.
struct ListOfFirst;

impl<T> TyFun<T> for ListOfFirst {
    type Result = Const<Vec<T>>;
}

#[test]
fn inv_conv_test() {
    assert_eq!(inv_conv(Refl::default(), 0), 0)
}

#[test]
fn conv_of_identity_witness_is_identity() {
    let w = <i32 as Equals<i32>>::identity_witness();
    assert_eq!(w.conv(0), 0);
    assert_eq!(w.conv(-17), -17);
    assert_eq!(w.conv(i32::MAX), i32::MAX);
    let s = <String as Equals<String>>::identity_witness();
    assert_eq!(s.conv(String::from("abc")), "abc");
    assert_eq!(refl::<(u8, bool)>().conv((3, true)), (3, true));
}

#[test]
fn conv_then_inverse_gives_the_value_back() {
    assert_eq!(round_trip(&refl::<u64>(), 42), 42);
    assert_eq!(round_trip(&refl::<Vec<u8>>(), vec![1, 2, 3]), vec![1, 2, 3]);
    assert_eq!(round_trip(&refl::<i32>().inv().clone(), -5), -5);
}

#[test]
fn double_inverse_converts_a_value_as_the_witness() {
    let w = refl::<i32>();
    assert_eq!(twice_inverted(&w).conv(7), w.conv(7));
    assert_eq!(twice_inverted(&w).conv(7), 7);
}

#[test]
fn double_inverse_converts_a_shared_reference_as_the_witness() {
    let w = refl::<str>();
    let text = "shared";
    assert_eq!(twice_inverted(&w).conv_ref(text), w.conv_ref(text));
    assert!(std::ptr::eq(twice_inverted(&w).conv_ref(text), text));
}

#[test]
fn double_inverse_converts_an_exclusive_reference_as_the_witness() {
    let w = refl::<Vec<i32>>();
    let mut direct = vec![1, 2];
    w.conv_mut(&mut direct).push(3);
    let mut inverted = vec![1, 2];
    twice_inverted(&w).conv_mut(&mut inverted).push(3);
    assert_eq!(direct, vec![1, 2, 3]);
    assert_eq!(inverted, direct);
}

#[test]
fn double_inverse_converts_a_box_as_the_witness() {
    let w = refl::<[u8]>();
    let direct: Box<[u8]> = w.conv_box(vec![9, 8].into_boxed_slice());
    let inverted: Box<[u8]> = twice_inverted(&w).conv_box(vec![9, 8].into_boxed_slice());
    assert_eq!(direct, inverted);
    assert_eq!(&*direct, &[9, 8]);
}

#[test]
fn conv_ref_keeps_the_place() {
    let w = refl::<i64>();
    let x = 11i64;
    let y = w.conv_ref(&x);
    assert_eq!(*y, 11);
    assert!(std::ptr::eq(y, &x));
}

#[test]
fn conv_mut_writes_to_the_place() {
    let w = refl::<i64>();
    let mut x = 11i64;
    let y = w.conv_mut(&mut x);
    assert_eq!(*y, 11);
    *y = 12;
    assert_eq!(x, 12);
}

#[test]
fn conv_box_moves_the_box_without_copying_the_pointee() {
    let w = refl::<String>();
    let before = Box::new(String::from("heap"));
    let place = format!("{:p}", before);
    let after = w.conv_box(before);
    assert_eq!(format!("{:p}", after), place);
    assert_eq!(*after, "heap");
}

#[test]
fn conv_under_identity_is_conv() {
    let w = refl::<u16>();
    assert_eq!(w.conv_under::<Id>(500), w.conv(500));
    assert_eq!(w.conv_under::<Id>(500), 500);
}

#[test]
fn conv_under_constant_leaves_the_value() {
    let w = refl::<u16>();
    assert_eq!(w.conv_under::<Const<&str>>("kept"), "kept");
    assert_eq!(refl::<String>().conv_under::<Const<bool>>(true), true);
}

#[test]
fn conv_under_composition_retypes_a_nested_container() {
    let w = <i32 as Equals<i32>>::identity_witness();
    let nested: Vec<Option<i32>> = vec![Some(1), None, Some(-3)];
    let retyped: Vec<Option<i32>> = w.conv_under::<Compose<InVec, InOption>>(nested.clone());
    assert_eq!(retyped, nested);
    assert_eq!(retyped, vec![Some(1), None, Some(-3)]);
}

#[test]
fn elim_of_reflexivity_is_the_reflexivity_case() {
    let w = refl::<u8>();
    let case: Vec<u8> = vec![4, 5];
    assert_eq!(w.elim::<ListOfFirst>(case.clone()), case);
    assert_eq!(w.elim::<Const<Const<&str>>>("base"), "base");
}

#[test]
fn elim_is_conv_under_along_reflexivity() {
    let w = refl::<u8>();
    let case: Vec<u8> = vec![4, 5];
    assert_eq!(
        w.elim::<ListOfFirst>(case.clone()),
        w.conv_under::<AtRefl<ListOfFirst>>(case)
    );
}

#[test]
fn reflexivity_is_its_own_inverse() {
    let w = refl::<char>();
    let i: &Refl<char> = w.inv();
    assert_eq!(i.conv('x'), 'x');
    assert_eq!(inv_conv(w, 'y'), 'y');
}

#[test]
fn witnesses_have_no_size() {
    assert_eq!(std::mem::size_of::<Refl<i32>>(), 0);
    assert_eq!(std::mem::size_of::<Refl<str>>(), 0);
    assert_eq!(std::mem::size_of_val(&refl::<[u64]>()), 0);
}

#[test]
fn witnesses_are_copied_cloned_and_made_by_default() {
    let w = refl::<i32>();
    let copy = w;
    let clone = w.clone();
    let default = Refl::<i32>::default();
    assert_eq!(copy.conv(1), 1);
    assert_eq!(clone.conv(2), 2);
    assert_eq!(default.conv(3), 3);
    assert_eq!(format!("{:?}", w), format!("{:?}", default));
}
