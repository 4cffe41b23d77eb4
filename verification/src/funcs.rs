use vstd::prelude::*;

verus! {

/// Takes a fixed-size array by value.
pub fn receive_array(a: [u8; 5]) {
}

/// Takes several arguments; the unused ones draw warnings.
pub fn many_argument(a1: i32, a2: u8, a3: bool) {
}

/// The same, with the unused argument named away.
pub fn many_argument_without_warning(a1: i32, a2: u8, a3: bool, _c: char) {
    many_argument(a1, a2, a3);
}

/// Borrows its argument.
pub fn ref_argument(n: &i32) {
}

/// Borrows its argument mutably, and leaves it alone.
pub fn mut_ref_argument(n: &mut i32)
    ensures
        *final(n) == *old(n),
{
}

/// Takes ownership of the vector.
pub fn move_argument(a: Vec<i32>) {
}

/// Borrows the vector instead.
pub fn dont_move_argument(a: &Vec<i32>) {
}

/// The argument needs barely a name to be taken.
pub fn no_name_argument(_a: Vec<i32>) {
}

/// The parameter itself is mutable; the caller sees nothing of it.
pub fn mut_argument(mut v: Vec<i32>) {
    v.push(1);
}

/// Adds two machine integers; the contract rules out overflow.
pub fn sum(a: i32, b: i32) -> (r: i32)
    requires
        i32::MIN <= a + b <= i32::MAX,
    ensures
        r == a + b,
{
    a + b
}

/// Returns the unit value, spelled out.
pub fn unit_return() -> () {
}

/// Returns the unit value through an explicit `return`.
pub fn empty() {
    return ();
}

/// A constant result, by `return`.
pub fn with_result() -> (r: i32)
    ensures
        r == 0,
{
    return 0;
}

/// A constant result, as a tail expression.
pub fn with_result_no_semicolon() -> (r: i32)
    ensures
        r == 20,
{
    let a: i32 = 20;

    a
}

/// Hands the borrow straight back.
pub fn return_ref(a: &i32) -> (r: &i32)
    ensures
        r == a,
{
    a
}

/// A callback for [`receive_func`].
pub fn bar() -> (r: i32)
    ensures
        r == 1,
{
    1
}

/// Calls whatever callback it is handed and returns its result.
pub fn receive_func<F: Fn() -> i32>(callback: F) -> (r: i32)
    requires
        callback.requires(()),
    ensures
        callback.ensures((), r),
{
    callback()
}

} // verus!
