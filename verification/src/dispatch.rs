use vstd::prelude::*;
use crate::digits::spec_decimal;
use crate::digits::u64_to_decimal;

verus! {

/// A tiny trait to dispatch on: every implementor can describe itself.
pub trait Foo {
    spec fn spec_method(&self) -> Seq<char>;

    fn method(&self) -> (r: String)
        ensures
            r@ == self.spec_method(),
    ;
}

impl Foo for u8 {
    /// A byte describes itself with its decimal value.
    open spec fn spec_method(&self) -> Seq<char> {
        "u8: "@ + spec_decimal(*self as nat)
    }

    fn method(&self) -> (r: String) {
        let mut r = "u8: ".to_owned();
        let digits = u64_to_decimal(*self as u64);
        r.append(digits.as_str());
        r
    }
}

impl Foo for String {
    /// A string describes itself with its own content.
    open spec fn spec_method(&self) -> Seq<char> {
        "string: "@ + self@
    }

    fn method(&self) -> (r: String) {
        let mut r = "string: ".to_owned();
        r.append(self.as_str());
        r
    }
}

/// Static dispatch: the implementation is picked at compile time.
pub fn do_something<T: Foo>(x: T) {
    let _ = x.method();
}

/// The monomorphic form the compiler writes for a byte.
pub fn do_something_u8(x: u8) {
    let _ = x.method();
}

/// The monomorphic form the compiler writes for a string.
pub fn do_something_string(x: String) {
    let _ = x.method();
}

/// Dynamic dispatch: the implementation is picked at run time through the
/// reference.
pub fn do_something_dyn(x: &dyn Foo) {
    let _ = x.method();
}

/// Dynamic dispatch through an owning pointer.
pub fn do_something_dyn_box(x: Box<dyn Foo>) {
    let _ = x.method();
}

} // verus!
