use vstd::prelude::*;
use crate::storage::{SDCard, SPIFlash};

verus! {

/// A capability shared by the block-device mocks: writing replaces the
/// content stored under a path, reading it back yields exactly what was
/// stored, and flushing changes nothing observable.
///
/// `stored` is the device's abstract state, `resolve` says under which
/// key a path is filed, and `setup` is what the device was configured
/// with — its mount root and bus speed, empty or zero where a device has
/// no such thing; none of the three may drift while the device is used.
pub trait Storage {
    spec fn stored(&self) -> Map<Seq<char>, Seq<char>>;

    spec fn resolve(&self, path: Seq<char>) -> Seq<char>;

    spec fn setup(&self) -> (Seq<char>, int);

    fn write(&mut self, path: &str, data: &str)
        ensures
            final(self).stored() == old(self).stored().insert(
                old(self).resolve(path@),
                data@,
            ),
            forall|p: Seq<char>| final(self).resolve(p) == old(self).resolve(p),
            final(self).setup() == old(self).setup(),
    ;

    fn read(&self, path: &str) -> (r: Option<String>)
        ensures
            match r {
                None => !self.stored().contains_key(self.resolve(path@)),
                Some(content) => self.stored().contains_key(self.resolve(path@))
                    && content@ == self.stored()[self.resolve(path@)],
            },
    ;

    fn flush(&mut self)
        ensures
            final(self).stored() == old(self).stored(),
            forall|p: Seq<char>| final(self).resolve(p) == old(self).resolve(p),
            final(self).setup() == old(self).setup(),
    {
    }
}

impl Storage for SDCard {
    open spec fn stored(&self) -> Map<Seq<char>, Seq<char>> {
        self.contents()
    }

    open spec fn resolve(&self, path: Seq<char>) -> Seq<char> {
        self.resolved(path)
    }

    open spec fn setup(&self) -> (Seq<char>, int) {
        (self.root_view(), 0int)
    }

    fn write(&mut self, path: &str, data: &str)
        ensures
            final(self).root_view() == old(self).root_view(),
    {
        SDCard::write(self, path, data);
        self.flush();
    }

    fn read(&self, path: &str) -> (r: Option<String>) {
        SDCard::read(self, path)
    }
}

impl Storage for SPIFlash {
    open spec fn stored(&self) -> Map<Seq<char>, Seq<char>> {
        self.contents()
    }

    open spec fn resolve(&self, path: Seq<char>) -> Seq<char> {
        self.resolved(path)
    }

    open spec fn setup(&self) -> (Seq<char>, int) {
        (Seq::empty(), self.spec_speed() as int)
    }

    fn write(&mut self, path: &str, data: &str)
        ensures
            final(self).spec_speed() == old(self).spec_speed(),
    {
        SPIFlash::write(self, path, data);
        self.flush();
    }

    fn read(&self, path: &str) -> (r: Option<String>) {
        SPIFlash::read(self, path)
    }
}

/// Writes then reads back through any storage device; the contract promises
/// that the round trip succeeds and returns the content just written.
pub fn driver_test_routine(driver: &mut impl Storage) -> (ok: bool)
    ensures
        ok,
        final(driver).stored() == old(driver).stored().insert(
            old(driver).resolve("hello.txt"@),
            "Hello, World!\n"@,
        ),
        forall|p: Seq<char>| final(driver).resolve(p) == old(driver).resolve(p),
        final(driver).setup() == old(driver).setup(),
{
    let file_name = "hello.txt";
    let content = "Hello, World!\n";

    driver.write(file_name, content);

    match driver.read(file_name) {
        None => false,
        Some(read_content) => read_content.eq(&content.to_owned()),
    }
}

/// The same round trip, for callers that hand the device over by value and
/// want it back.
pub fn driver_test_routine_ret<S: Storage>(driver: S) -> (r: (S, bool))
    ensures
        r.1,
        r.0.stored() == driver.stored().insert(driver.resolve("hello.txt"@), "Hello, World!\n"@),
        forall|p: Seq<char>| r.0.resolve(p) == driver.resolve(p),
        r.0.setup() == driver.setup(),
{
    let mut driver = driver;
    let file_name = "hello.txt";
    let content = "Hello, World!\n";

    driver.write(file_name, content);

    let ok = match driver.read(file_name) {
        None => false,
        Some(read_content) => read_content.eq(&content.to_owned()),
    };
    (driver, ok)
}

} // verus!
