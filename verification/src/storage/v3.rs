use vstd::prelude::*;
use crate::storage::{SDCard, SPIFlash};

verus! {

/// Severity that a logger level grants: anything below the configured
/// level is dropped.
pub open spec fn severity(level: LoggerLevel) -> int {
    match level {
        LoggerLevel::Disabled => 0,
        LoggerLevel::Error => 1,
        LoggerLevel::Warning => 2,
        LoggerLevel::Info => 3,
        LoggerLevel::Debug => 4,
    }
}

/// Executable counterpart of [`severity`].
pub fn level_rank(level: LoggerLevel) -> (r: u8)
    ensures
        r as int == severity(level),
{
    match level {
        LoggerLevel::Disabled => 0,
        LoggerLevel::Error => 1,
        LoggerLevel::Warning => 2,
        LoggerLevel::Info => 3,
        LoggerLevel::Debug => 4,
    }
}

/// The storage capability the logger writes through: like the earlier
/// version, plus `append`, which concatenates onto the stored content or
/// creates the entry.
pub trait Storage {
    spec fn stored(&self) -> Map<Seq<char>, Seq<char>>;

    spec fn resolve(&self, path: Seq<char>) -> Seq<char>;

    spec fn setup(&self) -> (Seq<char>, int);

    fn write(&mut self, path: &str, data: &str)
        ensures
            final(self).stored() == old(self).stored().insert(
                old(self).resolve(path@),
                data@,
            ),
            forall|p: Seq<char>| final(self).resolve(p) == old(self).resolve(p),
            final(self).setup() == old(self).setup(),
    ;

    fn read(&self, path: &str) -> (r: Option<String>)
        ensures
            match r {
                None => !self.stored().contains_key(self.resolve(path@)),
                Some(content) => self.stored().contains_key(self.resolve(path@))
                    && content@ == self.stored()[self.resolve(path@)],
            },
    ;

    fn append(&mut self, path: &str, data: &str)
        ensures
            final(self).stored() == old(self).stored().insert(
                old(self).resolve(path@),
                (if old(self).stored().contains_key(old(self).resolve(path@)) {
                    old(self).stored()[old(self).resolve(path@)]
                } else {
                    Seq::<char>::empty()
                }) + data@,
            ),
            forall|p: Seq<char>| final(self).resolve(p) == old(self).resolve(p),
            final(self).setup() == old(self).setup(),
    ;

    fn flush(&mut self)
        ensures
            final(self).stored() == old(self).stored(),
            forall|p: Seq<char>| final(self).resolve(p) == old(self).resolve(p),
            final(self).setup() == old(self).setup(),
    {
    }
}

impl Storage for SDCard {
    open spec fn stored(&self) -> Map<Seq<char>, Seq<char>> {
        self.contents()
    }

    open spec fn resolve(&self, path: Seq<char>) -> Seq<char> {
        self.resolved(path)
    }

    open spec fn setup(&self) -> (Seq<char>, int) {
        (self.root_view(), 0int)
    }

    fn write(&mut self, path: &str, data: &str)
        ensures
            final(self).root_view() == old(self).root_view(),
    {
        SDCard::write(self, path, data);
        self.flush();
    }

    fn read(&self, path: &str) -> (r: Option<String>) {
        SDCard::read(self, path)
    }

    fn append(&mut self, path: &str, data: &str)
        ensures
            final(self).root_view() == old(self).root_view(),
    {
        match SDCard::read(self, path) {
            None => {
                SDCard::write(self, path, data);
                proof {
                    assert(Seq::<char>::empty() + data@ =~= data@);
                }
            },
            Some(read_content) => {
                let content = read_content.concat(data);
                SDCard::write(self, path, content.as_str());
            },
        }
        self.flush();
    }
}

impl Storage for SPIFlash {
    open spec fn stored(&self) -> Map<Seq<char>, Seq<char>> {
        self.contents()
    }

    open spec fn resolve(&self, path: Seq<char>) -> Seq<char> {
        self.resolved(path)
    }

    open spec fn setup(&self) -> (Seq<char>, int) {
        (Seq::empty(), self.spec_speed() as int)
    }

    fn write(&mut self, path: &str, data: &str)
        ensures
            final(self).spec_speed() == old(self).spec_speed(),
    {
        SPIFlash::write(self, path, data);
    }

    fn read(&self, path: &str) -> (r: Option<String>) {
        SPIFlash::read(self, path)
    }

    fn append(&mut self, path: &str, data: &str)
        ensures
            final(self).spec_speed() == old(self).spec_speed(),
    {
        match SPIFlash::read(self, path) {
            None => {
                SPIFlash::write(self, path, data);
                proof {
                    assert(Seq::<char>::empty() + data@ =~= data@);
                }
            },
            Some(read_content) => {
                let content = read_content.concat(data);
                SPIFlash::write(self, path, content.as_str());
            },
        }
    }
}

/// The levels a logger can be configured with, from everything off up to
/// the chattiest.
#[derive(Debug, Copy, Clone)]
pub enum LoggerLevel {
    Disabled,
    Error,
    Warning,
    Info,
    Debug,
}

/// A logger that owns a storage device, drops messages below its
/// configured level and appends the rest, newline-terminated, to the
/// current log file.
pub struct Logger<T: Storage> {
    driver: T,
    level: LoggerLevel,
    file_name: Option<String>,
}

impl<T: Storage> Logger<T> {
    /// The configured minimum level.
    pub closed spec fn spec_level(&self) -> LoggerLevel {
        self.level
    }

    /// The owned storage device.
    pub closed spec fn spec_driver(&self) -> T {
        self.driver
    }

    /// The current log file, if one was set.
    pub closed spec fn spec_file_name(&self) -> Option<Seq<char>> {
        match self.file_name {
            Some(ref f) => Some(f@),
            None => None,
        }
    }

    /// What one logging call does: a message below the configured level
    /// leaves the logger untouched; anything else is appended to the
    /// current log file with a terminating newline.
    pub open spec fn log_outcome(pre: Self, post: Self, message: Seq<char>, ref_level: LoggerLevel) -> bool {
        if severity(pre.spec_level()) < severity(ref_level) {
            post == pre
        } else {
            pre.spec_file_name() matches Some(fname) && {
                let key = pre.spec_driver().resolve(fname);
                let old_content = if pre.spec_driver().stored().contains_key(key) {
                    pre.spec_driver().stored()[key]
                } else {
                    Seq::<char>::empty()
                };
                &&& post.spec_level() == pre.spec_level()
                &&& post.spec_file_name() == pre.spec_file_name()
                &&& post.spec_driver().stored() == pre.spec_driver().stored().insert(
                    key,
                    old_content + message + seq!['\n'],
                )
                &&& forall|p: Seq<char>| post.spec_driver().resolve(p) == pre.spec_driver().resolve(p)
                &&& post.spec_driver().setup() == pre.spec_driver().setup()
            }
        }
    }

    /// Logging below the configured level is a no-op: whatever one call
    /// does, if the message's level does not reach the logger's, the
    /// logger afterwards is exactly the logger before.
    pub proof fn lemma_log_below_level_is_noop(
        pre: Self,
        post: Self,
        message: Seq<char>,
        ref_level: LoggerLevel,
    )
        requires
            Self::log_outcome(pre, post, message, ref_level),
            severity(pre.spec_level()) < severity(ref_level),
        ensures
            post == pre,
    {
    }

    /// A fresh logger has no log file yet.
    pub fn new(level: LoggerLevel, driver: T) -> (logger: Self)
        ensures
            logger.spec_level() == level,
            logger.spec_driver() == driver,
            logger.spec_file_name() is None,
    {
        Self { level, driver, file_name: None }
    }

    /// The configured minimum level.
    pub fn level(&self) -> (l: LoggerLevel)
        ensures
            l == self.spec_level(),
    {
        self.level
    }

    /// A borrow of the owned storage device.
    pub fn driver(&self) -> (d: &T)
        ensures
            *d == self.spec_driver(),
    {
        &self.driver
    }

    /// Makes `path` the current log file; the device is untouched.
    pub fn new_log_file(&mut self, path: &str)
        ensures
            final(self).spec_level() == old(self).spec_level(),
            final(self).spec_driver() == old(self).spec_driver(),
            final(self).spec_file_name() == Some(path@),
    {
        self.file_name = Some(path.to_owned());
    }

    /// Logging without a current log file is a precondition violation
    /// whenever the message would actually be emitted.
    fn core_log(&mut self, message: &str, ref_level: LoggerLevel)
        requires
            severity(old(self).spec_level()) >= severity(ref_level)
                ==> old(self).spec_file_name() is Some,
        ensures
            Self::log_outcome(*old(self), *final(self), message@, ref_level),
    {
        if level_rank(self.level) < level_rank(ref_level) {
            return;
        }

        let file_name: String = match &self.file_name {
            Some(f) => f.clone(),
            None => {
                proof {
                    assert(false);
                }
                String::new()
            },
        };

        let mut line = message.to_owned();
        line.append("\n");
        self.driver.append(file_name.as_str(), line.as_str());
        proof {
            reveal_strlit("\n");
            let key = old(self).spec_driver().resolve(file_name@);
            let old_content = if old(self).spec_driver().stored().contains_key(key) {
                old(self).spec_driver().stored()[key]
            } else {
                Seq::<char>::empty()
            };
            assert(old_content + line@ =~= old_content + message@ + seq!['\n']);
        }
    }

    /// Logs at the `Debug` level.
    pub fn dbg(&mut self, message: &str)
        requires
            severity(old(self).spec_level()) >= severity(LoggerLevel::Debug)
                ==> old(self).spec_file_name() is Some,
        ensures
            Self::log_outcome(*old(self), *final(self), message@, LoggerLevel::Debug),
    {
        self.core_log(message, LoggerLevel::Debug);
    }

    /// Logs at the `Info` level.
    pub fn inf(&mut self, message: &str)
        requires
            severity(old(self).spec_level()) >= severity(LoggerLevel::Info)
                ==> old(self).spec_file_name() is Some,
        ensures
            Self::log_outcome(*old(self), *final(self), message@, LoggerLevel::Info),
    {
        self.core_log(message, LoggerLevel::Info);
    }

    /// Logs at the `Warning` level.
    pub fn wrn(&mut self, message: &str)
        requires
            severity(old(self).spec_level()) >= severity(LoggerLevel::Warning)
                ==> old(self).spec_file_name() is Some,
        ensures
            Self::log_outcome(*old(self), *final(self), message@, LoggerLevel::Warning),
    {
        self.core_log(message, LoggerLevel::Warning);
    }

    /// Logs at the `Error` level.
    pub fn err(&mut self, message: &str)
        requires
            severity(old(self).spec_level()) >= severity(LoggerLevel::Error)
                ==> old(self).spec_file_name() is Some,
        ensures
            Self::log_outcome(*old(self), *final(self), message@, LoggerLevel::Error),
    {
        self.core_log(message, LoggerLevel::Error);
    }
}

} // verus!
