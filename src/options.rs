//! The configuration of a wait.
use std::time::Duration;
use vstd::prelude::*;

verus! {

/// How the awaited file is opened once it exists; handed to the open call unchanged.
#[derive(Clone, Copy, Debug, PartialEq, Eq, Structural)]
pub struct AccessMode {
    pub read: bool,
    pub write: bool,
    pub append: bool,
}

impl AccessMode {
    /// Read-only access.
    pub fn read_only() -> (r: AccessMode)
        ensures
            r == (AccessMode { read: true, write: false, append: false }),
    {
        AccessMode { read: true, write: false, append: false }
    }

    /// Read and write access.
    pub fn read_write() -> (r: AccessMode)
        ensures
            r == (AccessMode { read: true, write: true, append: false }),
    {
        AccessMode { read: true, write: true, append: false }
    }

    /// Read access, with writes appended at the end.
    pub fn read_append() -> (r: AccessMode)
        ensures
            r == (AccessMode { read: true, write: false, append: true }),
    {
        AccessMode { read: true, write: false, append: true }
    }
}

/// Configuration of one wait: built once by chained calls, then only read.
///
/// The defaults take no robustness measure at all: a fluke is an error, there is no
/// polling fallback, and creation is not assumed to be atomic.
pub struct Options {
    open_options: AccessMode,
    retry_flukes: bool,
    create_is_atomic: bool,
    polling_fallback: Option<Duration>,
}

impl Options {
    /// How the file is opened.
    pub closed spec fn access_spec(&self) -> AccessMode {
        self.open_options
    }

    /// Whether a file that disappears after it was signalled ready is waited for again.
    pub closed spec fn retries_flukes(&self) -> bool {
        self.retry_flukes
    }

    /// Whether a creation already counts as completion.
    pub closed spec fn creation_is_atomic(&self) -> bool {
        self.create_is_atomic
    }

    /// The interval of the polling fallback, if there is one.
    pub closed spec fn polling_interval(&self) -> Option<Duration> {
        self.polling_fallback
    }

    /// Creates the configuration with the given access mode and no robustness setting.
    pub fn with_open_options(open_options: AccessMode) -> (r: Options)
        ensures
            r.access_spec() == open_options,
            !r.retries_flukes(),
            !r.creation_is_atomic(),
            r.polling_interval() is None,
    {
        Options { open_options, retry_flukes: false, create_is_atomic: false, polling_fallback: None }
    }

    /// Sets whether to keep waiting when the file is removed between its completion
    /// signal and the open.
    pub fn retry_on_fluke(self, retry: bool) -> (r: Options)
        ensures
            r.retries_flukes() == retry,
            r.access_spec() == self.access_spec(),
            r.creation_is_atomic() == self.creation_is_atomic(),
            r.polling_interval() == self.polling_interval(),
    {
        let mut s = self;
        s.retry_flukes = retry;
        s
    }

    /// Falls back to re-checking at this interval when notifications cannot be used.
    pub fn polling_fallback_interval(self, interval: Duration) -> (r: Options)
        ensures
            r.polling_interval() == Some(interval),
            r.access_spec() == self.access_spec(),
            r.retries_flukes() == self.retries_flukes(),
            r.creation_is_atomic() == self.creation_is_atomic(),
    {
        let mut s = self;
        s.polling_fallback = Some(interval);
        s
    }

    /// Sets whether the creation of the file already makes it safe to open.
    pub fn assume_create_is_atomic(self, is_atomic: bool) -> (r: Options)
        ensures
            r.creation_is_atomic() == is_atomic,
            r.access_spec() == self.access_spec(),
            r.retries_flukes() == self.retries_flukes(),
            r.polling_interval() == self.polling_interval(),
    {
        let mut s = self;
        s.create_is_atomic = is_atomic;
        s
    }

    /// How the file is to be opened.
    pub fn access_mode(&self) -> (r: AccessMode)
        ensures
            r == self.access_spec(),
    {
        self.open_options
    }

    /// Whether a creation already counts as completion.
    pub fn create_is_atomic(&self) -> (r: bool)
        ensures
            r == self.creation_is_atomic(),
    {
        self.create_is_atomic
    }

    /// Whether a fluke is waited through.
    pub fn retries_on_fluke(&self) -> (r: bool)
        ensures
            r == self.retries_flukes(),
    {
        self.retry_flukes
    }

    /// The interval of the polling fallback, if one was set.
    pub fn polling_fallback(&self) -> (r: Option<Duration>)
        ensures
            r == self.polling_interval(),
    {
        self.polling_fallback
    }
}

} // verus!
