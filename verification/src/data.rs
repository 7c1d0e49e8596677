//! The runtime of the data player: a plugin that plays the bytes of a file,
//! or of a built-in source, as audio.
//!
//! The runtime never reads the file. Where a window of the file is due it
//! says so; the host adapter reads the window at the offset that the runtime
//! names and hands the bytes in, or reports why it could not.

use vstd::prelude::*;
use vstd::string::*;
use crate::console::{log_to, ConsoleSender};
use crate::feed::{Drawn, FeedError, FeedModel, SampleFeed, wanting};
use crate::runtime_data::RuntimeData;
use crate::text::{decimal, decimal_text};
use crate::timer::{timed_line, Timer};

verus! {

/// What a data runtime is, to its callers.
pub struct RuntimeModel {
    pub sample_rate: u32,
    pub buffer_size: usize,
    pub channels: usize,
    pub last_playing: bool,
    pub feed: FeedModel,
}

impl RuntimeModel {
    /// The runtime after the host has fixed the sample rate: the rate is on
    /// record and the built-in source is the current window.
    pub open spec fn initialized(self, sample_rate: u32, source: Seq<u8>) -> RuntimeModel {
        RuntimeModel { sample_rate, feed: self.feed.installed(source), ..self }
    }

    /// The runtime at the start of a block. The size and the channels of the
    /// block and the state of playback go on record; a file that was asked
    /// for is put behind the feed.
    pub open spec fn begun(
        self,
        frames: usize,
        channels: usize,
        playing: bool,
        load_path: Option<Seq<char>>,
    ) -> RuntimeModel {
        RuntimeModel {
            buffer_size: frames,
            channels,
            last_playing: playing,
            feed: match load_path {
                Some(path) => FeedModel { path: Some(path), ..self.feed },
                None => self.feed,
            },
            ..self
        }
    }

    /// What is published, given the smoothed block time.
    pub open spec fn published(self, run_ms: u32) -> RuntimeData {
        RuntimeData {
            sample_rate: self.sample_rate,
            buffer_size: self.buffer_size,
            channels: self.channels,
            run_ms,
            ..RuntimeData::zero()
        }
    }
}

/// How far into a file of `file_len` bytes `offset` lies, in whole percent.
pub open spec fn percent_of(offset: u64, file_len: u64) -> nat
    recommends
        file_len > 0,
{
    (offset * 100 / (file_len as int)) as nat
}

/// The log line for a window of `bytes` bytes read at `offset` in a file of
/// `file_len` bytes.
pub open spec fn read_text(bytes: nat, offset: u64, file_len: u64) -> Seq<char> {
    "File read "@ + decimal_text(bytes) + " bytes at "@ + decimal_text(percent_of(offset, file_len))
        + "%"@
}

/// The log line for a file that could not be read.
pub open spec fn load_failure_text(path: Seq<char>, reason: Seq<char>) -> Seq<char> {
    "Failed to load file at path \""@ + path + "\": "@ + reason
}

/// Puts together the log line for a window that was read.
pub fn read_line(bytes: usize, offset: u64, file_len: u64) -> (s: String)
    requires
        file_len > 0,
    ensures
        s@ == read_text(bytes as nat, offset, file_len),
{
    let percent: u128 = offset as u128 * 100 / (file_len as u128);
    let mut s = String::from_str("File read ");
    let count = decimal(bytes as u128);
    s.append(count.as_str());
    s.append(" bytes at ");
    let share = decimal(percent);
    s.append(share.as_str());
    s.append("%");
    s
}

/// Puts together the log line for a file that could not be read.
pub fn load_failure_line(path: &str, reason: &str) -> (s: String)
    ensures
        s@ == load_failure_text(path@, reason@),
{
    let mut s = String::from_str("Failed to load file at path \"");
    s.append(path);
    s.append("\": ");
    s.append(reason);
    s
}

/// The runtime of the data player.
pub struct Runtime {
    pub console: Option<ConsoleSender>,
    sample_rate: u32,
    buffer_size: usize,
    channels: usize,
    last_playing: bool,
    feed: SampleFeed,
}

impl View for Runtime {
    type V = RuntimeModel;

    closed spec fn view(&self) -> RuntimeModel {
        RuntimeModel {
            sample_rate: self.sample_rate,
            buffer_size: self.buffer_size,
            channels: self.channels,
            last_playing: self.last_playing,
            feed: self.feed@,
        }
    }
}

impl Runtime {
    /// The feed of the runtime is in order.
    pub open spec fn wf(&self) -> bool {
        self@.feed.wf()
    }

    /// A runtime that knows nothing yet, with an empty feed.
    pub fn new(console: Option<ConsoleSender>) -> (runtime: Runtime)
        ensures
            runtime.wf(),
            runtime@.sample_rate == 0,
            runtime@.buffer_size == 0,
            runtime@.channels == 0,
            !runtime@.last_playing,
            runtime@.feed.len == 0,
            runtime@.feed.pos == 0,
            runtime@.feed.path is None,
            runtime@.feed.offset == 0,
    {
        Runtime {
            console,
            sample_rate: 0,
            buffer_size: 0,
            channels: 0,
            last_playing: false,
            feed: SampleFeed::new(),
        }
    }

    /// Takes note of the sample rate, in Hz, and makes `source` the current
    /// window, as much of it as the arena holds.
    pub fn init(&mut self, sample_rate: u32, source: &[u8])
        requires
            old(self).wf(),
        ensures
            final(self).wf(),
            final(self)@ == old(self)@.initialized(sample_rate, source@),
    {
        let execute_timer = Timer::new();
        self.sample_rate = sample_rate;
        let execute_time = execute_timer.elapsed_nanos();
        self.update_data_from_array(source);
        self.log(timed_line("Init", execute_time));
    }

    /// Playback goes on where it was; only the console hears of the reset.
    pub fn reset(&mut self)
        ensures
            final(self)@ == old(self)@,
    {
        let execute_timer = Timer::new();
        self.log(timed_line("Reset", execute_timer.elapsed_nanos()));
    }

    /// Begins a block of `frames` frames on `channels` channels. A file that
    /// was asked for is put behind the feed; the answer says whether there
    /// was one, and so whether its first window is to be read now.
    pub fn run(
        &mut self,
        frames: usize,
        channels: usize,
        playing: bool,
        load_path: Option<String>,
    ) -> (load_due: bool)
        requires
            old(self).wf(),
        ensures
            final(self).wf(),
            final(self)@ == old(self)@.begun(
                frames,
                channels,
                playing,
                match load_path {
                    Some(path) => Some(path@),
                    None => None,
                },
            ),
            load_due == load_path is Some,
    {
        self.buffer_size = frames;
        self.channels = channels;
        self.last_playing = playing;
        match load_path {
            Some(path) => {
                self.feed.set_source_path(path);
                true
            },
            None => false,
        }
    }

    /// The file behind the feed, if any.
    pub fn file_path(&self) -> (path: Option<String>)
        ensures
            match path {
                Some(p) => self@.feed.path == Some(p@),
                None => self@.feed.path is None,
            },
    {
        self.feed.source_path()
    }

    /// Where in a file of `file_len` bytes the next window is to be read.
    pub fn read_offset(&self, file_len: u64) -> (offset: u64)
        requires
            file_len > 0,
        ensures
            offset == self@.feed.read_offset(file_len),
            offset < file_len,
    {
        self.feed.read_offset(file_len)
    }

    /// Takes in `window`, read from the file behind the feed at
    /// [`read_offset`](Self::read_offset); `file_len` is the length of the
    /// file. A window that is taken goes to the console. Without a file
    /// behind the feed nothing is taken in and nothing changes; an empty
    /// file is refused and changes nothing.
    pub fn update_data_from_file(&mut self, file_len: u64, window: &[u8]) -> (r: Result<(), FeedError>)
        requires
            old(self).wf(),
        ensures
            final(self).wf(),
            r == old(self)@.feed.refill_check(file_len),
            final(self)@ == (RuntimeModel {
                feed: old(self)@.feed.refilled(file_len, window@),
                ..old(self)@
            }),
    {
        if !self.feed.has_path() {
            return Ok(());
        }
        if file_len == 0 {
            return Err(FeedError::EmptyFile);
        }
        let offset = self.feed.read_offset(file_len);
        let r = self.feed.refill(file_len, window);
        self.log(read_line(self.feed.len(), offset, file_len));
        r
    }

    /// Tells the console that the file behind the feed could not be read,
    /// and why. The feed goes on with the window it has.
    pub fn load_failed(&self, reason: &str) {
        match self.feed.source_path() {
            Some(path) => {
                self.log(load_failure_line(path.as_str(), reason));
            },
            None => {},
        }
    }

    /// Makes the start of `array` the current window, as much as the arena
    /// holds.
    pub fn update_data_from_array(&mut self, array: &[u8])
        requires
            old(self).wf(),
        ensures
            final(self).wf(),
            final(self)@ == (RuntimeModel { feed: old(self)@.feed.installed(array@), ..old(self)@ }),
    {
        self.feed.set_source(array);
    }

    /// Draws the next byte.
    pub fn next_data(&mut self) -> (drawn: Drawn)
        requires
            old(self).wf(),
        ensures
            final(self).wf(),
            drawn.byte == old(self)@.feed.current(),
            drawn.wrapped == old(self)@.feed.wraps(),
            final(self)@ == (RuntimeModel { feed: old(self)@.feed.stepped(), ..old(self)@ }),
    {
        self.feed.next_sample()
    }

    /// Draws bytes for the block into `drawn` until it holds `needed` of
    /// them or, with a file behind the feed, until the cursor has come
    /// round. Says whether it stopped because a new window is due; after
    /// the window was handed in, or could not be read, the next call goes
    /// on where this one stopped.
    pub fn fill(&mut self, needed: usize, drawn: &mut Vec<u8>) -> (refill_due: bool)
        requires
            old(self).wf(),
        ensures
            final(self).wf(),
            ({
                let feed = old(self)@.feed;
                let count = feed.run_length(wanting(needed, old(drawn)@.len()));
                &&& final(drawn)@ == old(drawn)@ + feed.bytes(count)
                &&& final(self)@ == (RuntimeModel { feed: feed.after(count), ..old(self)@ })
                &&& refill_due == (count > 0 && feed.path is Some && count == feed.to_wrap())
            }),
    {
        self.feed.fill(needed, drawn)
    }

    /// A copy of the bytes that come next, for the display: from the cursor
    /// to the end of the window, and no more than `capacity` of them.
    pub fn preview(&self, capacity: usize) -> (bytes: Vec<u8>)
        requires
            self.wf(),
        ensures
            bytes@ == self@.feed.upcoming(capacity as nat),
    {
        self.feed.preview(capacity)
    }

    /// The figures to publish. `run_ms` is the smoothed block time.
    pub fn update_params(&self, run_ms: u32) -> (data: RuntimeData)
        ensures
            data == self@.published(run_ms),
    {
        RuntimeData {
            sample_rate: self.sample_rate,
            buffer_size: self.buffer_size,
            channels: self.channels,
            run_ms,
            active_time_nanos: 0,
            lufs_global_loudness: 0,
            lufs_momentary_loudness: 0,
            lufs_range_loudness: 0,
            lufs_shortterm_loudness: 0,
        }
    }

    fn log(&self, message: String) {
        log_to(&self.console, message);
    }
}

} // verus!
