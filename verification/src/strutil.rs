use vstd::prelude::*;

verus! {

/// Relies on `String::push`: it appends exactly the one character.
#[verifier::external_body]
pub fn push_char(s: &mut String, c: char)
    ensures
        final(s)@ == old(s)@.push(c),
{
    s.push(c);
}

/// The character `c`, `n` times over.
pub open spec fn spec_repeat(c: char, n: nat) -> Seq<char> {
    Seq::new(n, |i: int| c)
}

/// Builds the string that holds `c` exactly `n` times.
pub fn repeat_char(c: char, n: usize) -> (s: String)
    ensures
        s@ == spec_repeat(c, n as nat),
{
    let mut s = String::new();
    let mut i: usize = 0;
    while i < n
        invariant
            0 <= i <= n,
            s@ == spec_repeat(c, i as nat),
        decreases n - i,
    {
        push_char(&mut s, c);
        proof {
            assert(s@ =~= spec_repeat(c, i as nat + 1));
        }
        i += 1;
    }
    s
}

} // verus!
