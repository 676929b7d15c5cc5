//! Fetching the browser and its driver: where they come from, how a download
//! is retried, and what is done with each entry of the archives.
//!
//! Sending requests, reading streams and writing files is the caller's
//! business. The library counts the attempts, collects the bytes, decides when
//! a download is complete, when it is tried again and after how long, and when
//! it is given up.

use vstd::prelude::*;
use bytes::Bytes;
use bytes::BytesMut;
use crate::backend::text::contains;
use crate::backend::text::ends_with;
use crate::backend::text::has;
use crate::backend::text::has_suffix;

verus! {

/// Version of the driver that is fetched.
pub const CHROMEDRIVER_VERSION: &'static str = "131.0.6778.204";

/// Version of the browser that is fetched.
pub const CHROME_VERSION: &'static str = "131.0.6778.204";

/// Where the browser's archive is fetched from.
pub const CHROME_DOWNLOAD_URL: &'static str =
    "https://storage.googleapis.com/chrome-for-testing-public/131.0.6778.204/win32/chrome-win32.zip";

/// Where the driver's archive is fetched from.
pub const CHROMEDRIVER_DOWNLOAD_URL: &'static str =
    "https://storage.googleapis.com/chrome-for-testing-public/131.0.6778.204/win32/chromedriver-win32.zip";

/// Attempts that one download gets.
pub const MAX_RETRIES: u32 = 3;

/// Seconds to wait after the first failed attempt; the wait after the `n`-th
/// is `n` times as long.
pub const RETRY_WAIT_TIME: u64 = 5;

/// Seconds after which a request is given up.
pub const REQUEST_TIMEOUT_SECS: u64 = 300;

/// Most bytes that are set aside before the first chunk arrives.
pub const PREALLOCATE_LIMIT: usize = 0x400_0000;

/// Directory that the browser is unpacked into.
pub const CHROME_DIR: &'static str = "chrome-win32";

/// File name of the driver.
pub const CHROMEDRIVER_FILE: &'static str = "chromedriver.exe";

/// File name under which the browser's archive is kept while it is unpacked.
pub const CHROME_ARCHIVE: &'static str = "chrome.zip";

/// File name under which the driver's archive is kept while it is unpacked.
pub const CHROMEDRIVER_ARCHIVE: &'static str = "chromedriver.zip";

/// Fetches and installs the browser and its driver.
#[derive(Clone, Copy, Debug)]
pub struct Downloader;

#[verifier::external_type_specification]
#[verifier::external_body]
pub struct ExBytesMut(BytesMut);

#[verifier::external_type_specification]
#[verifier::external_body]
pub struct ExBytes(Bytes);

/// The bytes that a growing buffer holds, in order.
pub uninterp spec fn buffer_bytes(buffer: BytesMut) -> Seq<u8>;

/// The bytes that a finished buffer holds, in order.
pub uninterp spec fn frozen_bytes(bytes: Bytes) -> Seq<u8>;

/// Calls `BytesMut::with_capacity`: the buffer that comes back holds nothing.
/// The capacity is kept small enough for the allocation behind it.
#[verifier::external_body]
fn buffer_with_capacity(capacity: usize) -> (buffer: BytesMut)
    requires
        capacity <= PREALLOCATE_LIMIT,
    ensures
        buffer_bytes(buffer) == Seq::<u8>::empty(),
{
    BytesMut::with_capacity(capacity)
}

/// Calls `BytesMut::len`: the number of bytes that the buffer holds.
#[verifier::external_body]
fn buffer_len(buffer: &BytesMut) -> (len: usize)
    ensures
        len == buffer_bytes(*buffer).len(),
{
    buffer.len()
}

/// Calls `BytesMut::extend_from_slice`: the bytes of `data` are appended to
/// what the buffer holds. The call panics when the new length is more than an
/// allocation can hold, which the precondition rules out.
#[verifier::external_body]
fn buffer_extend(buffer: &mut BytesMut, data: &[u8])
    requires
        buffer_bytes(*old(buffer)).len() + data@.len() <= isize::MAX,
    ensures
        buffer_bytes(*final(buffer)) == buffer_bytes(*old(buffer)) + data@,
{
    buffer.extend_from_slice(data)
}

/// Calls `BytesMut::freeze`: the finished buffer holds what the growing one
/// held.
#[verifier::external_body]
fn buffer_freeze(buffer: BytesMut) -> (bytes: Bytes)
    ensures
        frozen_bytes(bytes) == buffer_bytes(buffer),
{
    buffer.freeze()
}

/// Why a download was given up.
#[derive(Clone, Copy, Debug, PartialEq, Eq, Structural)]
pub enum DownloadError {
    /// The request could not be sent, or was not answered.
    RequestFailed,
    /// The answer's status was not a success.
    BadStatus,
    /// The stream broke.
    StreamBroken,
    /// The stream ended before the announced number of bytes had come.
    Incomplete,
}

/// Where a download stands.
#[derive(Clone, Copy, Debug, PartialEq, Eq, Structural)]
pub enum DownloadPhase {
    /// The next attempt can be made.
    Ready,
    /// A request is out.
    Requesting,
    /// The body is coming in.
    Streaming,
    /// An attempt failed; the next one follows after a wait.
    Waiting,
    /// All bytes are there.
    Finished,
    /// The download was given up.
    Failed(DownloadError),
}

/// What happened to the attempt under way.
#[derive(Clone, Copy, Debug, PartialEq, Eq, Structural)]
pub enum DownloadEvent {
    /// The caller is ready for the next attempt: at the start, and when a wait
    /// is over.
    Proceed,
    /// The request could not be sent, or was not answered.
    RequestFailed,
    /// The answer's status was not a success.
    BadStatus,
    /// A successful answer began. `total_size` is the length that it
    /// announced, zero if it announced none.
    Started { total_size: u64 },
    /// The stream broke.
    ChunkFailed,
    /// The stream ended.
    StreamEnded,
}

/// What the caller does next for a download.
#[derive(Clone, Copy, Debug, PartialEq, Eq, Structural)]
pub enum DownloadStep {
    /// Report that the next attempt can be made.
    Begin,
    /// Send the request and report how it was answered.
    SendRequest,
    /// Read the next chunk and hand it in, or report how the stream ended.
    ReadChunk,
    /// Wait this many seconds, then report that the next attempt can be made.
    Wait { secs: u64 },
    /// Take the bytes.
    Done,
    /// Give up.
    GiveUp(DownloadError),
}

/// What a download is in contracts.
pub struct DownloadView {
    pub retry_count: u32,
    /// Attempts made so far, the one under way included.
    pub attempts: u32,
    pub phase: DownloadPhase,
    /// Length that the answer announced, zero if it announced none.
    pub total_size: u64,
    /// Bytes that came in with the attempt under way.
    pub downloaded: u64,
    pub data: Seq<u8>,
}

impl DownloadView {
    /// What holds of every download.
    pub open spec fn wf(self) -> bool {
        &&& self.phase == DownloadPhase::Ready ==> self.attempts == 0
        &&& self.phase == DownloadPhase::Waiting ==> self.attempts < self.retry_count
    }

    /// What the caller does next.
    pub open spec fn pending(self) -> DownloadStep {
        match self.phase {
            DownloadPhase::Ready => DownloadStep::Begin,
            DownloadPhase::Requesting => DownloadStep::SendRequest,
            DownloadPhase::Streaming => DownloadStep::ReadChunk,
            DownloadPhase::Waiting => DownloadStep::Wait {
                secs: (RETRY_WAIT_TIME * self.attempts) as u64,
            },
            DownloadPhase::Finished => DownloadStep::Done,
            DownloadPhase::Failed(error) => DownloadStep::GiveUp(error),
        }
    }

    /// An attempt failed with `error`: the download is given up when that was
    /// its last attempt, and waits for the next one otherwise.
    pub open spec fn fail(self, error: DownloadError) -> DownloadView {
        if self.attempts >= self.retry_count {
            DownloadView { phase: DownloadPhase::Failed(error), ..self }
        } else {
            DownloadView { phase: DownloadPhase::Waiting, ..self }
        }
    }

    /// The stream is over. The download is complete when as many bytes came as
    /// were announced, and also when none were announced; otherwise the
    /// attempt has failed.
    pub open spec fn settle(self) -> DownloadView {
        if self.downloaded == self.total_size || self.total_size == 0 {
            DownloadView { phase: DownloadPhase::Finished, ..self }
        } else {
            self.fail(DownloadError::Incomplete)
        }
    }

    /// The download after `event`. An event that does not fit the phase
    /// changes nothing.
    pub open spec fn step(self, event: DownloadEvent) -> DownloadView {
        match (self.phase, event) {
            (DownloadPhase::Ready, DownloadEvent::Proceed) | (
                DownloadPhase::Waiting,
                DownloadEvent::Proceed,
            ) => DownloadView {
                attempts: (self.attempts + 1) as u32,
                phase: DownloadPhase::Requesting,
                ..self
            },
            (DownloadPhase::Requesting, DownloadEvent::RequestFailed) => self.fail(
                DownloadError::RequestFailed,
            ),
            (DownloadPhase::Requesting, DownloadEvent::BadStatus) => self.fail(
                DownloadError::BadStatus,
            ),
            (DownloadPhase::Requesting, DownloadEvent::Started { total_size }) => DownloadView {
                phase: DownloadPhase::Streaming,
                total_size,
                downloaded: 0,
                data: Seq::empty(),
                ..self
            },
            (DownloadPhase::Streaming, DownloadEvent::ChunkFailed) => if self.attempts
                >= self.retry_count {
                DownloadView { phase: DownloadPhase::Failed(DownloadError::StreamBroken), ..self }
            } else {
                self.settle()
            },
            (DownloadPhase::Streaming, DownloadEvent::StreamEnded) => self.settle(),
            _ => self,
        }
    }

    /// The download after a chunk came in. Outside the streaming phase a chunk
    /// changes nothing. A chunk that would make the count of bytes overflow, or
    /// the buffer larger than an allocation can be, breaks the stream.
    pub open spec fn chunk(self, data: Seq<u8>) -> DownloadView {
        if self.phase != DownloadPhase::Streaming {
            self
        } else if self.downloaded + data.len() > u64::MAX || self.data.len() + data.len()
            > isize::MAX {
            self.step(DownloadEvent::ChunkFailed)
        } else {
            DownloadView {
                downloaded: (self.downloaded + data.len()) as u64,
                data: self.data + data,
                ..self
            }
        }
    }
}

/// One download, from the first attempt to the last.
pub struct Download {
    retry_count: u32,
    attempts: u32,
    phase: DownloadPhase,
    total_size: u64,
    downloaded: u64,
    buffer: BytesMut,
}

impl View for Download {
    type V = DownloadView;

    closed spec fn view(&self) -> DownloadView {
        DownloadView {
            retry_count: self.retry_count,
            attempts: self.attempts,
            phase: self.phase,
            total_size: self.total_size,
            downloaded: self.downloaded,
            data: buffer_bytes(self.buffer),
        }
    }
}

impl Download {
    #[verifier::type_invariant]
    spec fn inv(self) -> bool {
        self@.wf()
    }

    /// A download that gets `retry_count` attempts and has made none.
    pub fn new(retry_count: u32) -> (download: Download)
        ensures
            download@ == (DownloadView {
                retry_count,
                attempts: 0,
                phase: DownloadPhase::Ready,
                total_size: 0,
                downloaded: 0,
                data: Seq::empty(),
            }),
    {
        Download {
            retry_count,
            attempts: 0,
            phase: DownloadPhase::Ready,
            total_size: 0,
            downloaded: 0,
            buffer: buffer_with_capacity(0),
        }
    }

    /// Attempts made so far, the one under way included.
    pub fn attempts(&self) -> (attempts: u32)
        ensures
            attempts == self@.attempts,
    {
        self.attempts
    }

    /// Where the download stands.
    pub fn phase(&self) -> (phase: DownloadPhase)
        ensures
            phase == self@.phase,
    {
        self.phase
    }

    /// Bytes that came in with the attempt under way.
    pub fn downloaded(&self) -> (downloaded: u64)
        ensures
            downloaded == self@.downloaded,
    {
        self.downloaded
    }

    /// What the caller does next.
    pub fn pending(&self) -> (step: DownloadStep)
        ensures
            step == self@.pending(),
            self@.wf(),
    {
        proof {
            use_type_invariant(self);
        }
        match self.phase {
            DownloadPhase::Ready => DownloadStep::Begin,
            DownloadPhase::Requesting => DownloadStep::SendRequest,
            DownloadPhase::Streaming => DownloadStep::ReadChunk,
            DownloadPhase::Waiting => {
                assert(RETRY_WAIT_TIME * self.attempts <= 5 * u32::MAX);
                DownloadStep::Wait { secs: RETRY_WAIT_TIME * (self.attempts as u64) }
            },
            DownloadPhase::Finished => DownloadStep::Done,
            DownloadPhase::Failed(error) => DownloadStep::GiveUp(error),
        }
    }

    /// Takes what happened, and says what to do next.
    pub fn step(&mut self, event: DownloadEvent) -> (next: DownloadStep)
        ensures
            final(self)@ == old(self)@.step(event),
            next == final(self)@.pending(),
            final(self)@.wf(),
    {
        proof {
            use_type_invariant(&*self);
        }
        let last = self.attempts >= self.retry_count;
        let complete = self.downloaded == self.total_size || self.total_size == 0;
        match (self.phase, event) {
            (DownloadPhase::Ready, DownloadEvent::Proceed) | (
                DownloadPhase::Waiting,
                DownloadEvent::Proceed,
            ) => {
                let attempts = self.attempts + 1;
                self.phase = DownloadPhase::Requesting;
                self.attempts = attempts;
            },
            (DownloadPhase::Requesting, DownloadEvent::RequestFailed) => {
                self.phase = if last {
                    DownloadPhase::Failed(DownloadError::RequestFailed)
                } else {
                    DownloadPhase::Waiting
                };
            },
            (DownloadPhase::Requesting, DownloadEvent::BadStatus) => {
                self.phase = if last {
                    DownloadPhase::Failed(DownloadError::BadStatus)
                } else {
                    DownloadPhase::Waiting
                };
            },
            (DownloadPhase::Requesting, DownloadEvent::Started { total_size }) => {
                let wanted = if total_size <= PREALLOCATE_LIMIT as u64 {
                    total_size as usize
                } else {
                    PREALLOCATE_LIMIT
                };
                let fresh = buffer_with_capacity(wanted);
                self.phase = DownloadPhase::Streaming;
                self.total_size = total_size;
                self.downloaded = 0;
                self.buffer = fresh;
            },
            (DownloadPhase::Streaming, DownloadEvent::ChunkFailed) => {
                self.phase = if last {
                    DownloadPhase::Failed(DownloadError::StreamBroken)
                } else if complete {
                    DownloadPhase::Finished
                } else {
                    DownloadPhase::Waiting
                };
            },
            (DownloadPhase::Streaming, DownloadEvent::StreamEnded) => {
                self.phase = if complete {
                    DownloadPhase::Finished
                } else if last {
                    DownloadPhase::Failed(DownloadError::Incomplete)
                } else {
                    DownloadPhase::Waiting
                };
            },
            _ => {},
        }
        self.pending()
    }

    /// Takes a chunk of the body, and says what to do next.
    pub fn chunk(&mut self, data: &[u8]) -> (next: DownloadStep)
        ensures
            final(self)@ == old(self)@.chunk(data@),
            next == final(self)@.pending(),
    {
        proof {
            use_type_invariant(&*self);
        }
        match self.phase {
            DownloadPhase::Streaming => {
                let held = buffer_len(&self.buffer);
                let room = isize::MAX as usize;
                if data.len() as u64 > u64::MAX - self.downloaded || held > room || data.len()
                    > room - held {
                    self.step(DownloadEvent::ChunkFailed)
                } else {
                    self.downloaded = self.downloaded + data.len() as u64;
                    let mut grown = buffer_with_capacity(0);
                    core::mem::swap(&mut self.buffer, &mut grown);
                    buffer_extend(&mut grown, data);
                    core::mem::swap(&mut self.buffer, &mut grown);
                    self.pending()
                }
            },
            _ => self.pending(),
        }
    }

    /// The bytes of a finished download; nothing while it is not finished.
    pub fn take(self) -> (bytes: Option<Bytes>)
        ensures
            self@.phase == DownloadPhase::Finished ==> bytes is Some && frozen_bytes(bytes->Some_0)
                == self@.data,
            self@.phase != DownloadPhase::Finished ==> bytes is None,
    {
        match self.phase {
            DownloadPhase::Finished => Some(buffer_freeze(self.buffer)),
            _ => None,
        }
    }
}

/// What has to be fetched.
#[derive(Clone, Copy, Debug, PartialEq, Eq, Structural)]
pub struct InstallPlan {
    pub chrome: bool,
    pub chromedriver: bool,
}

/// What is done with one entry of the browser's archive.
#[derive(Clone, Copy, Debug, PartialEq, Eq, Structural)]
pub enum EntryAction {
    /// The entry's name leads out of the directory; it is left alone.
    Skip,
    /// The entry is a directory; it is created.
    CreateDir,
    /// The entry is a file; its parent is created if need be and the file is
    /// written.
    WriteFile,
}

/// Which of the two could not be fetched.
#[derive(Clone, Copy, Debug, PartialEq, Eq, Structural)]
pub enum InstallError {
    Chrome,
    ChromeDriver,
}

/// What an installation does next.
#[derive(Clone, Copy, Debug, PartialEq, Eq, Structural)]
pub enum InstallStep {
    /// Fetch and unpack the browser.
    FetchChrome,
    /// Fetch and unpack the driver.
    FetchChromeDriver,
    /// Everything planned is there.
    Finished,
    /// A fetch failed; nothing further is tried.
    Failed(InstallError),
}

impl InstallPlan {
    /// What is done next, given how the planned fetches went as far as they
    /// were made: the browser comes first, the driver is fetched only once the
    /// browser is there or was not planned, and a failure ends it all.
    pub open spec fn next_step(self, chrome: Option<bool>, chromedriver: Option<bool>) -> InstallStep {
        if self.chrome && chrome is None {
            InstallStep::FetchChrome
        } else if self.chrome && chrome == Some(false) {
            InstallStep::Failed(InstallError::Chrome)
        } else if self.chromedriver && chromedriver is None {
            InstallStep::FetchChromeDriver
        } else if self.chromedriver && chromedriver == Some(false) {
            InstallStep::Failed(InstallError::ChromeDriver)
        } else {
            InstallStep::Finished
        }
    }

    /// What is done next, given how the planned fetches went as far as they
    /// were made: `None` for a fetch not made yet, else whether it succeeded.
    pub fn next(&self, chrome: Option<bool>, chromedriver: Option<bool>) -> (step: InstallStep)
        ensures
            step == self.next_step(chrome, chromedriver),
    {
        if self.chrome {
            match chrome {
                None => {
                    return InstallStep::FetchChrome;
                },
                Some(false) => {
                    return InstallStep::Failed(InstallError::Chrome);
                },
                Some(true) => {},
            }
        }
        if self.chromedriver {
            match chromedriver {
                None => {
                    return InstallStep::FetchChromeDriver;
                },
                Some(false) => {
                    return InstallStep::Failed(InstallError::ChromeDriver);
                },
                Some(true) => {},
            }
        }
        InstallStep::Finished
    }
}

/// Why an address cannot be probed.
#[derive(Clone, Copy, Debug, PartialEq, Eq, Structural)]
pub enum UrlError {
    /// The text is not an absolute URL.
    Malformed,
    /// The URL names no host.
    NoHost,
}

/// What `Url::parse` followed by `Url::host_str` makes of a text: `None` when
/// the text does not parse, `Some(None)` when the URL has no host, and the host
/// otherwise.
pub uninterp spec fn parsed_host(url: Seq<char>) -> Option<Option<Seq<char>>>;

/// Calls `reqwest::Url::parse` and, on the URL that comes back,
/// `Url::host_str`. Both depend on the text alone; the result is named, not
/// described.
#[verifier::external_body]
fn parse_host(url: &str) -> (host: Option<Option<String>>)
    ensures
        match host {
            None => parsed_host(url@) is None,
            Some(None) => parsed_host(url@) == Some(None::<Seq<char>>),
            Some(Some(name)) => parsed_host(url@) == Some(Some(name@)),
        },
{
    match reqwest::Url::parse(url) {
        Ok(parsed) => Some(parsed.host_str().map(String::from)),
        Err(_) => None,
    }
}

/// What becomes of a parsed address: its host, or the reason why it has none.
pub open spec fn host_result(parsed: Option<Option<Seq<char>>>) -> Result<Seq<char>, UrlError> {
    match parsed {
        None => Err(UrlError::Malformed),
        Some(None) => Err(UrlError::NoHost),
        Some(Some(name)) => Ok(name),
    }
}

/// The arguments of the command that asks one host for one echo.
pub open spec fn ping_arguments_of(host: Seq<char>) -> Seq<Seq<char>> {
    seq!["-n"@, "1"@, host]
}

impl Downloader {
    /// What has to be fetched, given what is already on the disk.
    pub fn ensure_chrome_and_driver_async(chrome_dir_exists: bool, chromedriver_exists: bool) -> (plan:
        InstallPlan)
        ensures
            plan == (InstallPlan { chrome: !chrome_dir_exists, chromedriver: !chromedriver_exists }),
    {
        InstallPlan { chrome: !chrome_dir_exists, chromedriver: !chromedriver_exists }
    }

    /// The host of a parsed address, or the reason why it has none.
    pub fn host_from(parsed: Option<Option<String>>) -> (host: Result<String, UrlError>)
        ensures
            match host {
                Ok(name) => parsed matches Some(Some(found)) && found@ == name@,
                Err(error) => (parsed is None && error == UrlError::Malformed) || (parsed == Some(
                    None::<String>,
                ) && error == UrlError::NoHost),
            },
    {
        match parsed {
            None => Err(UrlError::Malformed),
            Some(None) => Err(UrlError::NoHost),
            Some(Some(name)) => Ok(name),
        }
    }

    /// The host to probe before `url` is fetched from.
    pub fn check_url_accessibility(url: &str) -> (host: Result<String, UrlError>)
        ensures
            match host {
                Ok(name) => host_result(parsed_host(url@)) == Ok::<Seq<char>, UrlError>(name@),
                Err(error) => host_result(parsed_host(url@)) == Err::<Seq<char>, UrlError>(error),
            },
    {
        Self::host_from(parse_host(url))
    }

    /// The arguments of the command that asks `host` for one echo.
    pub fn ping_arguments(host: &str) -> (arguments: Vec<String>)
        ensures
            arguments@.len() == 3,
            arguments@[0]@ == "-n"@,
            arguments@[1]@ == "1"@,
            arguments@[2]@ == host@,
    {
        let mut arguments: Vec<String> = Vec::new();
        arguments.push(String::from_str("-n"));
        arguments.push(String::from_str("1"));
        arguments.push(String::from_str(host));
        arguments
    }

    /// What is done with an entry of the browser's archive. `enclosed` says
    /// whether the entry's name stays within the directory it is unpacked
    /// into.
    pub fn chrome_entry_action(enclosed: bool, name: &str) -> (action: EntryAction)
        ensures
            action == if !enclosed {
                EntryAction::Skip
            } else if ends_with(name@, "/"@) {
                EntryAction::CreateDir
            } else {
                EntryAction::WriteFile
            },
    {
        if !enclosed {
            EntryAction::Skip
        } else if has_suffix(name, "/") {
            EntryAction::CreateDir
        } else {
            EntryAction::WriteFile
        }
    }

    /// Whether an entry of the driver's archive is the driver itself.
    pub fn is_chromedriver_entry(name: &str) -> (found: bool)
        ensures
            found == contains(name@, CHROMEDRIVER_FILE@),
    {
        has(name, CHROMEDRIVER_FILE)
    }

    /// The position of the driver among the names of an archive's entries: the
    /// first entry that is the driver is unpacked, and none after it.
    pub fn find_chromedriver(names: &Vec<String>) -> (found: Option<usize>)
        ensures
            match found {
                Some(i) => i < names@.len() && contains(names@[i as int]@, CHROMEDRIVER_FILE@)
                    && forall|j: int|
                    0 <= j < i ==> !contains(#[trigger] names@[j]@, CHROMEDRIVER_FILE@),
                None => forall|j: int|
                    0 <= j < names@.len() ==> !contains(#[trigger] names@[j]@, CHROMEDRIVER_FILE@),
            },
    {
        let mut i: usize = 0;
        while i < names.len()
            invariant
                i <= names@.len(),
                forall|j: int| 0 <= j < i ==> !contains(#[trigger] names@[j]@, CHROMEDRIVER_FILE@),
            decreases names@.len() - i,
        {
            if Self::is_chromedriver_entry(names[i].as_str()) {
                return Some(i);
            }
            i = i + 1;
        }
        None
    }
}

} // verus!
