use vstd::prelude::*;
use vstd::hash_map::StringHashMap;
use crate::storage::{SDCard, SPIFlash};

verus! {

impl SDCard {
    /// A freshly mounted card is empty.
    pub fn new(root: &'static str) -> (card: Self)
        ensures
            card.root_view() == root@,
            card.contents() == Map::<Seq<char>, Seq<char>>::empty(),
    {
        let card = SDCard { root: root.to_owned(), buffer: StringHashMap::new() };
        proof {
            assert(card.contents() =~= Map::<Seq<char>, Seq<char>>::empty());
        }
        card
    }

    /// Writing stores `data` under the resolved path, replacing any
    /// previous content.
    pub fn write(&mut self, path: &str, data: &str)
        ensures
            final(self).root_view() == old(self).root_view(),
            final(self).contents() == old(self).contents().insert(
                old(self).resolved(path@),
                data@,
            ),
    {
        let mut path_buf = self.root.clone();
        path_buf.append(path);
        self.buffer.insert(path_buf, data.to_owned());
        proof {
            assert(self.contents() =~= old(self).contents().insert(
                old(self).resolved(path@),
                data@,
            ));
        }
    }

    /// Reading a path that was never written yields `None`; otherwise the
    /// stored content comes back.
    pub fn read(&self, path: &str) -> (r: Option<String>)
        ensures
            match r {
                None => !self.contents().contains_key(self.resolved(path@)),
                Some(content) => self.contents().contains_key(self.resolved(path@))
                    && content@ == self.contents()[self.resolved(path@)],
            },
    {
        let mut path_buf = self.root.clone();
        path_buf.append(path);

        if !self.buffer.contains_key(path_buf.as_str()) {
            return None;
        }

        Some(self.buffer.get(path_buf.as_str()).unwrap().clone())
    }
}

impl SPIFlash {
    /// A fresh flash is empty and remembers the configured bus speed.
    pub fn new(speed: usize) -> (flash: Self)
        ensures
            flash.spec_speed() == speed,
            flash.contents() == Map::<Seq<char>, Seq<char>>::empty(),
    {
        let flash = SPIFlash { speed, buffer: StringHashMap::new() };
        proof {
            assert(flash.contents() =~= Map::<Seq<char>, Seq<char>>::empty());
        }
        flash
    }

    /// The bus speed the device was configured with.
    pub fn speed(&self) -> (s: usize)
        ensures
            s == self.spec_speed(),
    {
        self.speed
    }

    /// Writing stores `data` under `path`, replacing any previous content.
    pub fn write(&mut self, path: &str, data: &str)
        ensures
            final(self).spec_speed() == old(self).spec_speed(),
            final(self).contents() == old(self).contents().insert(path@, data@),
    {
        self.buffer.insert(path.to_owned(), data.to_owned());
        proof {
            assert(self.contents() =~= old(self).contents().insert(path@, data@));
        }
    }

    /// Reading a path that was never written yields `None`; otherwise the
    /// stored content comes back.
    pub fn read(&self, path: &str) -> (r: Option<String>)
        ensures
            match r {
                None => !self.contents().contains_key(path@),
                Some(content) => self.contents().contains_key(path@)
                    && content@ == self.contents()[path@],
            },
    {
        if !self.buffer.contains_key(path) {
            return None;
        }

        Some(self.buffer.get(path).unwrap().clone())
    }
}

/// Writes a greeting to the card and reads it back; the contract promises
/// the round trip succeeds.
pub fn sd_card_routine(driver: &mut SDCard) -> (ok: bool)
    ensures
        ok,
        final(driver).root_view() == old(driver).root_view(),
        final(driver).contents() == old(driver).contents().insert(
            old(driver).resolved("hello.txt"@),
            "Hello, World!\n"@,
        ),
{
    let file_name = "hello.txt";
    let content = "Hello, World!\n";

    driver.write(file_name, content);

    match driver.read(file_name) {
        None => false,
        Some(read_content) => read_content.eq(&content.to_owned()),
    }
}

/// The same round trip against the flash mock.
pub fn spi_flash_routine(driver: &mut SPIFlash) -> (ok: bool)
    ensures
        ok,
        final(driver).spec_speed() == old(driver).spec_speed(),
        final(driver).contents() == old(driver).contents().insert("hello.txt"@, "Hello, World!\n"@),
{
    let file_name = "hello.txt";
    let content = "Hello, World!\n";

    driver.write(file_name, content);

    match driver.read(file_name) {
        None => false,
        Some(read_content) => read_content.eq(&content.to_owned()),
    }
}

} // verus!
