use vstd::prelude::*;

verus! {

/// The person of the ownership lessons; here the name is open to every
/// caller.
#[derive(Clone)]
pub struct Person {
    pub name: String,
}

impl Person {
    /// A person with the given name.
    pub fn new(name: &str) -> (p: Person)
        ensures
            p.name@ == name@,
    {
        Person { name: name.to_owned() }
    }
}

/// A small value that can only be cloned.
#[derive(Clone, Default)]
pub struct CloneSmall {
    pub a: [u8; 10],
}

/// A small value that is copied implicitly.
#[derive(Copy, Clone, Default)]
pub struct CopySmall {
    pub a: [u8; 10],
}

/// Takes ownership of a clone-only value.
pub fn move_small(_obj: CloneSmall) {
}

/// Takes a copyable value; the caller keeps its own copy.
pub fn copy_small(_obj: CopySmall) {
}

/// A large value that can only be cloned.
#[derive(Clone)]
pub struct CloneLarge {
    pub a: [u8; 1000],
}

/// A large value that is copied implicitly.
#[derive(Copy, Clone)]
pub struct CopyLarge {
    pub a: [u8; 1000],
}

impl Default for CloneLarge {
    /// All zeroes.
    fn default() -> (r: Self)
        ensures
            r.a@ == Seq::new(1000, |i: int| 0u8),
    {
        let r = Self { a: [0u8; 1000] };
        proof {
            assert(r.a@ =~= Seq::new(1000, |i: int| 0u8));
        }
        r
    }
}

impl Default for CopyLarge {
    /// All zeroes.
    fn default() -> (r: Self)
        ensures
            r.a@ == Seq::new(1000, |i: int| 0u8),
    {
        let r = Self { a: [0u8; 1000] };
        proof {
            assert(r.a@ =~= Seq::new(1000, |i: int| 0u8));
        }
        r
    }
}

/// Takes ownership of a large clone-only value.
pub fn move_large(_obj: CloneLarge) {
}

/// Takes a large copyable value; the caller keeps its own copy.
pub fn copy_large(_obj: CopyLarge) {
}

} // verus!
