use vstd::prelude::*;

verus! {

/// One raw accelerometer sample, as the sensor hands it out.
pub struct Acc {
    pub val: u16,
}

impl Acc {
    /// The raw sample value.
    pub fn raw(&self) -> (v: u16)
        ensures
            v == self.val,
    {
        self.val
    }
}

impl From<u16> for Acc {
    /// A sample from its raw value.
    fn from(value: u16) -> (a: Acc) {
        Acc { val: value }
    }
}

impl vstd::std_specs::convert::FromSpecImpl<u16> for Acc {
    open spec fn obeys_from_spec() -> bool {
        true
    }

    open spec fn from_spec(value: u16) -> Acc {
        Acc { val: value }
    }
}

/// The sample a sensor sends as two little-endian bytes.
pub fn array_to_u16(array: &[u8]) -> (r: u16)
    requires
        array@.len() >= 2,
    ensures
        r == array@[1] as u16 * 256 + array@[0] as u16,
{
    let r = ((array[1] as u16) << 8u16) | (array[0] as u16);
    proof {
        let hi = array@[1] as u16;
        let lo = array@[0] as u16;
        assert(((hi << 8u16) | lo) == hi * 256 + lo) by (bit_vector)
            requires
                hi <= 255 && lo <= 255,
        ;
    }
    r
}

} // verus!
