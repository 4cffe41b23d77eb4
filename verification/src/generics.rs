use vstd::prelude::*;

verus! {

/// Stores `valor` at `pos`, reporting whether the position was in range.
pub fn add_valor_i32(array: &mut [i32], pos: usize, valor: i32) -> (ok: bool)
    ensures
        ok == (pos < old(array)@.len()),
        ok ==> final(array)@ == old(array)@.update(pos as int, valor),
        !ok ==> final(array)@ == old(array)@,
{
    if pos >= array.len() {
        return false;
    }

    array[pos] = valor;

    true
}

/// Stores `valor` at `pos`, reporting whether the position was in range.
pub fn add_valor_char(array: &mut [char], pos: usize, valor: char) -> (ok: bool)
    ensures
        ok == (pos < old(array)@.len()),
        ok ==> final(array)@ == old(array)@.update(pos as int, valor),
        !ok ==> final(array)@ == old(array)@,
{
    if pos >= array.len() {
        return false;
    }

    array[pos] = valor;

    true
}

/// The generic form: stores `valor` at `pos` and hands back the first
/// element; out of range, the array is untouched and `valor` itself comes
/// back.
pub fn add_valor<T: Copy>(array: &mut [T], pos: usize, valor: T) -> (r: T)
    ensures
        pos < old(array)@.len() ==> final(array)@ == old(array)@.update(pos as int, valor) && r
            == final(array)@[0],
        pos >= old(array)@.len() ==> final(array)@ == old(array)@ && r == valor,
{
    if pos >= array.len() {
        return valor;
    }

    array[pos] = valor;

    array[0]
}

/// A point with both coordinates of one type.
#[derive(Debug)]
pub struct Point<T> {
    pub x: T,
    pub y: T,
}

impl<T> Point<T> {
    /// A point from its coordinates.
    pub fn new(x: T, y: T) -> (p: Self)
        ensures
            p == (Point { x, y }),
    {
        Self { x, y }
    }
}

/// A person whose circle of friends is borrowed.
#[derive(Debug)]
pub struct PersonRef<'a> {
    pub(crate) name: String,
    pub(crate) friends: &'a [String],
}

impl<'a> PersonRef<'a> {
    /// The person's name.
    pub closed spec fn spec_name(&self) -> Seq<char> {
        self.name@
    }

    /// The borrowed friends.
    pub closed spec fn spec_friends(&self) -> &'a [String] {
        self.friends
    }

    /// A person with the given name and friends.
    pub fn new(name: &str, friends: &'a [String]) -> (p: Self)
        ensures
            p.spec_name() == name@,
            p.spec_friends() == friends,
    {
        Self { name: name.to_owned(), friends }
    }
}

impl PersonRef<'static> {
    /// Friends borrowed for the whole program live that long themselves.
    pub fn static_friends(&self) -> (f: &'static [String])
        ensures
            f == self.spec_friends(),
    {
        self.friends
    }
}

/// A person whose circle of friends is owned, with its size in the type.
#[derive(Debug)]
pub struct Person<const N: usize> {
    pub(crate) name: String,
    pub(crate) friends: [String; N],
}

impl<const N: usize> Person<N> {
    /// The person's name.
    pub closed spec fn spec_name(&self) -> Seq<char> {
        self.name@
    }

    /// The owned friends.
    pub closed spec fn spec_friends(&self) -> [String; N] {
        self.friends
    }

    /// A person with the given name and friends.
    pub fn new(name: &str, friends: [String; N]) -> (p: Self)
        ensures
            p.spec_name() == name@,
            p.spec_friends() == friends,
    {
        Self { name: name.to_owned(), friends }
    }
}

/// One list after the other, as a fresh vector.
pub fn cat_slices<const N: usize>(first: &[i32], second: &[i32]) -> (r: Vec<i32>)
    ensures
        r@ == first@ + second@,
{
    let mut out: Vec<i32> = Vec::new();
    let mut i: usize = 0;
    while i < first.len()
        invariant
            0 <= i <= first@.len(),
            out@ == first@.take(i as int),
        decreases first@.len() - i,
    {
        out.push(first[i]);
        proof {
            assert(out@ =~= first@.take(i as int + 1));
        }
        i += 1;
    }
    let mut j: usize = 0;
    while j < second.len()
        invariant
            0 <= j <= second@.len(),
            out@ == first@ + second@.take(j as int),
        decreases second@.len() - j,
    {
        out.push(second[j]);
        proof {
            assert(out@ =~= first@ + second@.take(j as int + 1));
        }
        j += 1;
    }
    proof {
        assert(first@.take(first@.len() as int) =~= first@);
        assert(second@.take(second@.len() as int) =~= second@);
        assert(out@ =~= first@ + second@);
    }
    out
}

} // verus!
