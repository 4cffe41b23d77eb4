use vstd::prelude::*;
use crate::dispatch::Foo;

verus! {

/// Hands the implementor back; the concrete type is known at compile
/// time.
pub fn do_something_impl<T: Foo>(foo: T) -> (r: T)
    ensures
        r == foo,
{
    foo
}

/// Hands the trait object back; the concrete type is behind the
/// reference.
pub fn do_something_dyn_ref<'a>(foo: &'a dyn Foo) -> &'a dyn Foo {
    foo
}

/// Hands the owned trait object back.
pub fn do_something_dyn_box(foo: Box<dyn Foo>) -> Box<dyn Foo> {
    foo
}

} // verus!
