//! The log: where its file lives, what its lines look like, and a writer that
//! feeds several sinks at once.

use vstd::prelude::*;
use crate::backend::text::joined;

verus! {

/// Directory of the log files, relative to the working directory.
pub const LOG_DIR: &'static str = "./logs";

/// What a log file's name starts with.
pub const LOG_FILE_PREFIX: &'static str = "./logs/campus_network_";

/// What a log file's name ends in.
pub const LOG_FILE_SUFFIX: &'static str = ".log";

/// Sets the log up.
#[derive(Clone, Copy, Debug)]
pub struct Logger;

/// How much a record matters.
#[derive(Clone, Copy, Debug, PartialEq, Eq, Structural)]
pub enum LogLevel {
    Error,
    Warn,
    Info,
    Debug,
    Trace,
}

/// Colour that a record's level is printed in.
#[derive(Clone, Copy, Debug, PartialEq, Eq, Structural)]
pub enum LevelColor {
    Red,
    Yellow,
    Green,
    Blue,
    Cyan,
}

impl LogLevel {
    /// The colour of this level.
    pub open spec fn color_of(self) -> LevelColor {
        match self {
            LogLevel::Error => LevelColor::Red,
            LogLevel::Warn => LevelColor::Yellow,
            LogLevel::Info => LevelColor::Green,
            LogLevel::Debug => LevelColor::Blue,
            LogLevel::Trace => LevelColor::Cyan,
        }
    }

    /// The colour of this level.
    pub fn color(&self) -> (color: LevelColor)
        ensures
            color == self.color_of(),
    {
        match self {
            LogLevel::Error => LevelColor::Red,
            LogLevel::Warn => LevelColor::Yellow,
            LogLevel::Info => LevelColor::Green,
            LogLevel::Debug => LevelColor::Blue,
            LogLevel::Trace => LevelColor::Cyan,
        }
    }
}

impl Logger {
    /// The name of the log file of the month `month`, written as year, hyphen
    /// and month.
    pub fn log_file_name(month: &str) -> (name: String)
        ensures
            name@ == LOG_FILE_PREFIX@ + month@ + LOG_FILE_SUFFIX@,
    {
        let mut name = joined(LOG_FILE_PREFIX, month);
        name.append(LOG_FILE_SUFFIX);
        name
    }

    /// The line that a run puts at the head of its records: one wording for a
    /// file that is new, another for a file that was there before.
    pub fn file_header(file_existed: bool, time: &str) -> (header: String)
        ensures
            header@ == (if file_existed {
                "\n=== 程序启动于 "@
            } else {
                "\n=== 日志开始于 "@
            }) + time@ + " ===\n"@,
    {
        let mut header = joined(
            if file_existed {
                "\n=== 程序启动于 "
            } else {
                "\n=== 日志开始于 "
            },
            time,
        );
        header.append(" ===\n");
        header
    }
}

/// Something that takes bytes.
pub trait Sink {
    /// Whether this sink keeps account of the bytes it takes. What is said of
    /// the bytes of a sink holds of the sinks that do.
    open spec fn keeps_account(&self) -> bool {
        false
    }

    /// The bytes taken so far, for a sink that keeps account of them.
    open spec fn taken(&self) -> Seq<u8> {
        Seq::empty()
    }

    /// Whether everything taken so far has been passed on to where it
    /// belongs, for a sink that keeps account. Taking more may undo this.
    open spec fn passed_on(&self) -> bool {
        false
    }

    /// Whether this sink, as it stands, takes all of `buf` when it is handed
    /// to it, for a sink that keeps account.
    open spec fn accepts(&self, buf: Seq<u8>) -> bool {
        false
    }

    /// Whether this sink, as it stands, passes on what it has taken when it is
    /// asked to, for a sink that keeps account.
    open spec fn flushes(&self) -> bool {
        false
    }

    /// Takes all of `buf`, or fails. A sink that fails may have taken a part.
    fn write_all(&mut self, buf: &[u8]) -> (done: bool)
        ensures
            final(self).keeps_account() == old(self).keeps_account(),
            old(self).keeps_account() ==> done == old(self).accepts(buf@),
            old(self).keeps_account() && done ==> final(self).taken() == old(self).taken() + buf@,
    ;

    /// Passes on what was taken, or fails. Nothing is taken or lost.
    fn flush(&mut self) -> (done: bool)
        ensures
            final(self).keeps_account() == old(self).keeps_account(),
            old(self).keeps_account() ==> done == old(self).flushes(),
            old(self).keeps_account() ==> final(self).taken() == old(self).taken(),
            old(self).keeps_account() && done ==> final(self).passed_on(),
    ;
}

/// A sink that keeps what it takes in memory, up to a limit.
#[derive(Debug)]
pub struct MemorySink {
    pub bytes: Vec<u8>,
    pub limit: usize,
}

impl MemorySink {
    /// An empty sink that takes up to `limit` bytes.
    pub fn new(limit: usize) -> (sink: MemorySink)
        ensures
            sink.bytes@ == Seq::<u8>::empty(),
            sink.limit == limit,
    {
        MemorySink { bytes: Vec::new(), limit }
    }
}

impl Sink for MemorySink {
    open spec fn keeps_account(&self) -> bool {
        true
    }

    open spec fn taken(&self) -> Seq<u8> {
        self.bytes@
    }

    /// What this sink takes is where it belongs at once.
    open spec fn passed_on(&self) -> bool {
        true
    }

    /// A buffer is taken when it fits within the limit.
    open spec fn accepts(&self, buf: Seq<u8>) -> bool {
        self.bytes@.len() + buf.len() <= self.limit
    }

    /// There is never anything left to pass on.
    open spec fn flushes(&self) -> bool {
        true
    }

    /// Takes all of `buf` if that stays within the limit, and nothing of it
    /// otherwise.
    fn write_all(&mut self, buf: &[u8]) -> (done: bool)
        ensures
            done == (old(self).bytes@.len() + buf@.len() <= old(self).limit),
            !done ==> *final(self) == *old(self),
            final(self).limit == old(self).limit,
    {
        if self.bytes.len() > self.limit || buf.len() > self.limit - self.bytes.len() {
            return false;
        }
        let mut i: usize = 0;
        while i < buf.len()
            invariant
                i <= buf@.len(),
                self.limit == old(self).limit,
                self.bytes@ == old(self).bytes@ + buf@.take(i as int),
            decreases buf@.len() - i,
        {
            self.bytes.push(buf[i]);
            i = i + 1;
            assert(self.bytes@ =~= old(self).bytes@ + buf@.take(i as int));
        }
        assert(buf@.take(buf@.len() as int) =~= buf@);
        true
    }

    fn flush(&mut self) -> (done: bool)
        ensures
            done,
            *final(self) == *old(self),
    {
        true
    }
}

/// Writes everything to each of its sinks, in order.
pub struct MultiWriter<S: Sink> {
    writers: Vec<S>,
}

impl<S: Sink> MultiWriter<S> {
    /// The sink at position `i`.
    pub closed spec fn sink(&self, i: int) -> S {
        self.writers@[i]
    }

    /// Number of sinks.
    pub closed spec fn count(&self) -> nat {
        self.writers@.len()
    }

    /// True when the sink at position `i` has taken `buf` on top of what the
    /// sink at that position of `before` had taken, as far as it keeps account.
    pub open spec fn has_taken(&self, before: &Self, i: int, buf: Seq<u8>) -> bool {
        &&& self.sink(i).keeps_account() == before.sink(i).keeps_account()
        &&& before.sink(i).keeps_account() ==> self.sink(i).taken() == before.sink(i).taken() + buf
    }

    /// True when the sink at position `i` takes `buf`, as far as it keeps
    /// account.
    pub open spec fn takes(&self, i: int, buf: Seq<u8>) -> bool {
        self.sink(i).keeps_account() ==> self.sink(i).accepts(buf)
    }

    /// True when the sink at position `i` does not take `buf`, as far as it
    /// keeps account.
    pub open spec fn refuses(&self, i: int, buf: Seq<u8>) -> bool {
        self.sink(i).keeps_account() ==> !self.sink(i).accepts(buf)
    }

    /// True when the sink at position `i` has passed on all it has taken, as
    /// far as it keeps account.
    pub open spec fn has_passed_on(&self, i: int) -> bool {
        self.sink(i).keeps_account() ==> self.sink(i).passed_on()
    }

    /// A writer that feeds `writers`.
    pub fn new(writers: Vec<S>) -> (multi: MultiWriter<S>)
        ensures
            multi.count() == writers@.len(),
            forall|i: int|
                #![trigger multi.sink(i)]
                #![trigger writers@[i]]
                0 <= i < writers@.len() ==> multi.sink(i) == writers@[i],
    {
        MultiWriter { writers }
    }

    /// The sink at position `index`, if there is one.
    pub fn get(&self, index: usize) -> (sink: Option<&S>)
        ensures
            index < self.count() ==> sink == Some(&self.sink(index as int)),
            index >= self.count() ==> sink is None,
    {
        if index < self.writers.len() {
            Some(&self.writers[index])
        } else {
            None
        }
    }

    /// The sinks, back from the writer.
    pub fn into_writers(self) -> (writers: Vec<S>)
        ensures
            writers@.len() == self.count(),
            forall|i: int|
                #![trigger self.sink(i)]
                #![trigger writers@[i]]
                0 <= i < writers@.len() ==> writers@[i] == self.sink(i),
    {
        self.writers
    }

    /// Writes all of `buf` to every sink, in order, and stops at the first
    /// sink that fails. `Ok` holds the length of `buf`: every sink took all
    /// of it. `Err` holds the position of the first sink that did not: the
    /// sinks before it took all of `buf`, the sinks behind it were not
    /// touched. So the result is `Ok` whenever every sink takes `buf`.
    pub fn write(&mut self, buf: &[u8]) -> (written: Result<usize, usize>)
        ensures
            final(self).count() == old(self).count(),
            match written {
                Ok(n) => n == buf@.len() && forall|i: int|
                    #![trigger final(self).sink(i)]
                    #![trigger old(self).sink(i)]
                    0 <= i < old(self).count() ==> old(self).takes(i, buf@) && final(self).has_taken(
                        old(self),
                        i,
                        buf@,
                    ),
                Err(k) => k < old(self).count() && old(self).refuses(k as int, buf@) && (forall|
                    i: int,
                |
                    #![trigger final(self).sink(i)]
                    #![trigger old(self).sink(i)]
                    0 <= i < k ==> old(self).takes(i, buf@) && final(self).has_taken(
                        old(self),
                        i,
                        buf@,
                    )) && (forall|i: int|
                    #![trigger final(self).sink(i)]
                    #![trigger old(self).sink(i)]
                    k < i < old(self).count() ==> final(self).sink(i) == old(self).sink(i)),
            },
    {
        let n = self.writers.len();
        let mut k: usize = 0;
        while k < n
            invariant
                k <= n,
                n == self.writers@.len(),
                n == old(self).writers@.len(),
                forall|i: int| 0 <= i < k ==> self.has_taken(old(self), i, buf@),
                forall|i: int| 0 <= i < k ==> old(self).takes(i, buf@),
                forall|i: int| k <= i < n ==> self.writers@[i] == old(self).writers@[i],
            decreases n - k,
        {
            let ghost before = *self;
            let done = self.writers[k].write_all(buf);
            assert forall|i: int| 0 <= i < k implies self.has_taken(old(self), i, buf@) by {
                assert(self.writers@[i] == before.writers@[i]);
                assert(before.has_taken(old(self), i, buf@));
            }
            if !done {
                return Err(k);
            }
            k = k + 1;
        }
        Ok(buf.len())
    }

    /// True when the sink at position `i` passes on what it has taken when
    /// asked to, as far as it keeps account.
    pub open spec fn can_flush(&self, i: int) -> bool {
        self.sink(i).keeps_account() ==> self.sink(i).flushes()
    }

    /// True when the sink at position `i` does not pass on what it has taken
    /// when asked to, as far as it keeps account.
    pub open spec fn cannot_flush(&self, i: int) -> bool {
        self.sink(i).keeps_account() ==> !self.sink(i).flushes()
    }

    /// Flushes every sink, in order, and stops at the first sink that fails.
    /// `Ok` means that every sink has passed on all it has taken. `Err` holds
    /// the position of the first sink that failed: the sinks before it have
    /// passed on all they have taken, the sinks behind it were not touched.
    /// No sink takes or loses anything.
    pub fn flush(&mut self) -> (flushed: Result<(), usize>)
        ensures
            final(self).count() == old(self).count(),
            forall|i: int|
                #![trigger final(self).sink(i)]
                #![trigger old(self).sink(i)]
                0 <= i < old(self).count() ==> final(self).has_taken(
                    old(self),
                    i,
                    Seq::<u8>::empty(),
                ),
            match flushed {
                Ok(()) => forall|i: int|
                    #![trigger final(self).sink(i)]
                    #![trigger old(self).sink(i)]
                    0 <= i < old(self).count() ==> old(self).can_flush(i) && final(self).has_passed_on(i),
                Err(k) => k < old(self).count() && old(self).cannot_flush(k as int) && (forall|
                    i: int,
                |
                    #![trigger final(self).sink(i)]
                    #![trigger old(self).sink(i)]
                    0 <= i < k ==> old(self).can_flush(i) && final(self).has_passed_on(i)) && (
                forall|i: int|
                    #![trigger final(self).sink(i)]
                    #![trigger old(self).sink(i)]
                    k < i < old(self).count() ==> final(self).sink(i) == old(self).sink(i)),
            },
    {
        let n = self.writers.len();
        let mut k: usize = 0;
        while k < n
            invariant
                k <= n,
                n == self.writers@.len(),
                n == old(self).writers@.len(),
                forall|i: int| 0 <= i < k ==> self.has_taken(old(self), i, Seq::<u8>::empty()),
                forall|i: int| 0 <= i < k ==> self.has_passed_on(i),
                forall|i: int| 0 <= i < k ==> old(self).can_flush(i),
                forall|i: int| k <= i < n ==> self.writers@[i] == old(self).writers@[i],
            decreases n - k,
        {
            let ghost before = *self;
            let done = self.writers[k].flush();
            assert(self.writers@[k as int].keeps_account() ==> self.writers@[k as int].taken()
                =~= old(self).writers@[k as int].taken() + Seq::<u8>::empty());
            assert forall|i: int| 0 <= i < k implies self.has_taken(
                old(self),
                i,
                Seq::<u8>::empty(),
            ) by {
                assert(self.writers@[i] == before.writers@[i]);
                assert(before.has_taken(old(self), i, Seq::<u8>::empty()));
            }
            assert forall|i: int| 0 <= i < k implies self.has_passed_on(i) by {
                assert(self.writers@[i] == before.writers@[i]);
                assert(before.has_passed_on(i));
            }
            if !done {
                assert forall|i: int| 0 <= i < n implies self.has_taken(
                    old(self),
                    i,
                    Seq::<u8>::empty(),
                ) by {
                    if i > k {
                        assert(self.writers@[i].taken() =~= old(self).writers@[i].taken()
                            + Seq::<u8>::empty());
                    }
                }
                return Err(k);
            }
            k = k + 1;
        }
        Ok(())
    }
}

} // verus!
