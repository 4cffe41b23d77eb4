use vstd::prelude::*;

verus! {

/// A bus that can be opened once, yielding the driver that talks over it.
pub trait Interface {
    type Driver: Driver;

    fn open(self) -> (d: Self::Driver)
        ensures
            d.stored() == Seq::<u8>::empty(),
    ;
}

/// A byte-stream driver: what was written can be read back, in order.
pub trait Driver {
    spec fn stored(&self) -> Seq<u8>;

    fn write(&mut self, content: Vec<u8>)
        ensures
            final(self).stored() == old(self).stored() + content@,
    ;

    fn read(&self) -> (r: Vec<u8>)
        ensures
            r@ == self.stored(),
    ;
}

/// The SPI bus of the lessons.
pub struct SpiIterface;

impl Interface for SpiIterface {
    type Driver = SpiDriver;

    /// Opening the bus hands out a driver with nothing written yet.
    fn open(self) -> (d: SpiDriver) {
        SpiDriver { content: Vec::new() }
    }
}

/// The driver the SPI bus hands out; it keeps everything written to it.
pub struct SpiDriver {
    content: Vec<u8>,
}

impl SpiDriver {
    /// Everything written so far.
    pub closed spec fn spec_content(&self) -> Seq<u8> {
        self.content@
    }
}

impl Driver for SpiDriver {
    open spec fn stored(&self) -> Seq<u8> {
        self.spec_content()
    }

    fn write(&mut self, content: Vec<u8>) {
        let mut data = content;
        self.content.append(&mut data);
    }

    fn read(&self) -> (r: Vec<u8>) {
        let mut out: Vec<u8> = Vec::new();
        let mut i: usize = 0;
        while i < self.content.len()
            invariant
                0 <= i <= self.content@.len(),
                out@ == self.content@.take(i as int),
            decreases self.content@.len() - i,
        {
            out.push(self.content[i]);
            proof {
                assert(out@ =~= self.content@.take(i as int + 1));
            }
            i += 1;
        }
        proof {
            assert(self.content@.take(self.content@.len() as int) =~= self.content@);
        }
        out
    }
}

/// Writes three bytes to a fresh driver; what reads back is proved to be
/// exactly those bytes, so the original's runtime check cannot fail.
pub fn driver_test_routine(driver: &mut impl Driver) -> (result: Vec<u8>)
    requires
        old(driver).stored() == Seq::<u8>::empty(),
    ensures
        result@ == seq![1u8, 2u8, 3u8],
        final(driver).stored() == seq![1u8, 2u8, 3u8],
{
    let mut data: Vec<u8> = Vec::new();
    data.push(1);
    data.push(2);
    data.push(3);
    let ghost sent = data@;
    driver.write(data);

    let result = driver.read();
    proof {
        assert(sent =~= seq![1u8, 2u8, 3u8]);
        assert(Seq::<u8>::empty() + sent =~= sent);
    }
    result
}

} // verus!
