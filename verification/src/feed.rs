//! The sample feed: a cursor that goes round a window of bytes, one byte per
//! audio sample, and takes a new window from a file each time it comes round.
//!
//! The feed never touches the file itself. Whoever owns it reads the window
//! that the feed asks for and hands the bytes in.

use vstd::prelude::*;

verus! {

/// The size of the byte arena: one mebibyte.
pub const MAX_DATA_SIZE: usize = 1048576;

/// The denominator of a sample value (see [`sample_numerator`]).
pub const SAMPLE_SCALE: i32 = 510;

/// The value that a byte is played as, in units of 1/510: a byte `b` stands
/// for `b / 255 * 2 - 1/2`. The range is lopsided, from -1/2 to 3/2.
pub open spec fn sample_value(byte: u8) -> int {
    4 * byte - 255
}

/// A sample value held to the range from -1 to 1, in units of 1/510.
pub open spec fn clipped_value(value: int) -> int {
    if value < -SAMPLE_SCALE {
        -SAMPLE_SCALE as int
    } else if value > SAMPLE_SCALE {
        SAMPLE_SCALE as int
    } else {
        value
    }
}

/// The value that `byte` is played as, in units of 1/510.
pub fn sample_numerator(byte: u8) -> (value: i32)
    ensures
        value == sample_value(byte),
        -255 <= value <= 765,
{
    4 * (byte as i32) - 255
}

/// Holds a sample value, in units of 1/510, to the range from -1 to 1.
pub fn clip_numerator(value: i32) -> (clipped: i32)
    ensures
        clipped == clipped_value(value as int),
        -SAMPLE_SCALE <= clipped <= SAMPLE_SCALE,
{
    if value < -SAMPLE_SCALE {
        -SAMPLE_SCALE
    } else if value > SAMPLE_SCALE {
        SAMPLE_SCALE
    } else {
        value
    }
}

/// Why a window of a file was not taken in.
#[derive(Clone, Copy, Debug, PartialEq, Eq, Structural)]
pub enum FeedError {
    /// The file holds nothing.
    EmptyFile,
}

/// One byte drawn from the feed.
#[derive(Clone, Copy, Debug, PartialEq, Eq, Structural)]
pub struct Drawn {
    /// The byte under the cursor.
    pub byte: u8,
    /// Whether the cursor came round to the start with this draw.
    pub wrapped: bool,
}

/// What a feed is, to its callers.
pub struct FeedModel {
    /// The whole arena; only the first `len` bytes are the current window.
    pub arena: Seq<u8>,
    /// The length of the current window.
    pub len: nat,
    /// The cursor.
    pub pos: nat,
    /// The file behind the feed, if any.
    pub path: Option<Seq<char>>,
    /// Where in the file the next window starts.
    pub offset: u64,
}

impl FeedModel {
    /// The arena has its size, the window lies in it, and the cursor lies in
    /// the window (at its start where the window is empty).
    pub open spec fn wf(self) -> bool {
        &&& self.arena.len() == MAX_DATA_SIZE
        &&& self.len <= MAX_DATA_SIZE
        &&& (self.pos < self.len || self.pos == 0)
    }

    /// The current window.
    pub open spec fn source(self) -> Seq<u8> {
        self.arena.take(self.len as int)
    }

    /// The byte under the cursor.
    pub open spec fn current(self) -> u8 {
        self.arena[self.pos as int]
    }

    /// Whether the next draw brings the cursor round to the start.
    pub open spec fn wraps(self) -> bool {
        self.pos + 1 >= self.len
    }

    /// The feed after one draw.
    pub open spec fn stepped(self) -> FeedModel {
        FeedModel { pos: if self.wraps() { 0 } else { self.pos + 1 }, ..self }
    }

    /// The feed after `count` draws with no window taken in between.
    pub open spec fn after(self, count: nat) -> FeedModel
        decreases count,
    {
        if count == 0 {
            self
        } else {
            self.stepped().after((count - 1) as nat)
        }
    }

    /// The bytes of `count` draws with no window taken in between.
    pub open spec fn bytes(self, count: nat) -> Seq<u8>
        decreases count,
    {
        if count == 0 {
            Seq::empty()
        } else {
            seq![self.current()] + self.stepped().bytes((count - 1) as nat)
        }
    }

    /// How many draws bring the cursor round to the start.
    pub open spec fn to_wrap(self) -> nat {
        if self.len == 0 {
            1
        } else {
            (self.len - self.pos) as nat
        }
    }

    /// How many of `want` draws can be made before a new window is due: all
    /// of them without a file, else no more than bring the cursor round.
    pub open spec fn run_length(self, want: nat) -> nat {
        if self.path is None || want <= self.to_wrap() {
            want
        } else {
            self.to_wrap()
        }
    }

    /// The feed with the start of `bytes` as its window, as much as the arena
    /// holds, and the cursor at the start. The rest of the arena stays.
    pub open spec fn installed(self, bytes: Seq<u8>) -> FeedModel {
        let n = if bytes.len() <= MAX_DATA_SIZE { bytes.len() } else { MAX_DATA_SIZE as nat };
        FeedModel {
            arena: bytes.take(n as int) + self.arena.skip(n as int),
            len: n,
            pos: 0,
            ..self
        }
    }

    /// The bytes that come next, from the cursor to the end of the window,
    /// and no more than `capacity` of them.
    pub open spec fn upcoming(self, capacity: nat) -> Seq<u8> {
        let rest = (self.len - self.pos) as nat;
        let count = if rest <= capacity { rest } else { capacity };
        self.arena.subrange(self.pos as int, (self.pos + count) as int)
    }

    /// Where in a file of `file_len` bytes the next window starts.
    pub open spec fn read_offset(self, file_len: u64) -> u64
        recommends
            file_len > 0,
    {
        self.offset % file_len
    }

    /// The outcome of handing in a window of a file of `file_len` bytes. A
    /// feed without a file has nothing to take in and nothing to complain
    /// of; with a file, an empty one is refused.
    pub open spec fn refill_check(self, file_len: u64) -> Result<(), FeedError> {
        if self.path is Some && file_len == 0 {
            Err(FeedError::EmptyFile)
        } else {
            Ok(())
        }
    }

    /// The feed after `window`, read from a file of `file_len` bytes at
    /// [`read_offset`](Self::read_offset), was handed in. With a file behind
    /// the feed that is not empty, the window becomes the current window and
    /// the offset moves on by its length, round the end of the file. Without
    /// a file, or with an empty one, nothing changes.
    pub open spec fn refilled(self, file_len: u64, window: Seq<u8>) -> FeedModel {
        if self.path is Some && file_len > 0 {
            let taken = self.installed(window);
            FeedModel {
                offset: ((self.read_offset(file_len) + taken.len) % (file_len as int)) as u64,
                ..taken
            }
        } else {
            self
        }
    }
}

/// What goes out for one sample of a block.
#[derive(Clone, Copy, Debug, PartialEq, Eq, Structural)]
pub enum Emit {
    /// Nothing: the output is muted.
    Silence,
    /// The given byte, played as [`sample_value`] says and held to the range
    /// from -1 to 1.
    Level(u8),
}

impl Emit {
    /// The value that goes out, in units of 1/510.
    pub open spec fn value(self) -> int {
        match self {
            Emit::Silence => 0,
            Emit::Level(byte) => clipped_value(sample_value(byte)),
        }
    }

    /// The value that goes out, in units of 1/510.
    pub fn numerator(&self) -> (value: i32)
        ensures
            value == self.value(),
            -255 <= value <= SAMPLE_SCALE,
    {
        match self {
            Emit::Silence => 0,
            Emit::Level(byte) => clip_numerator(sample_numerator(*byte)),
        }
    }
}

/// How many bytes a block of `frames` frames on `channels` channels draws:
/// one per frame where all channels play the same, else one per sample.
/// Muting plays no part in it.
pub open spec fn draws_needed(frames: usize, channels: usize, mono: bool) -> int {
    if mono {
        frames as int
    } else {
        frames * channels
    }
}

/// Which of the bytes drawn for a block the sample of `channel` in `frame`
/// plays.
pub open spec fn draw_index(channels: usize, mono: bool, frame: usize, channel: usize) -> int {
    if mono {
        frame as int
    } else {
        frame * channels + channel
    }
}

/// What goes out for the sample of `channel` in `frame`, given the bytes
/// drawn for the block.
pub open spec fn cell(
    drawn: Seq<u8>,
    channels: usize,
    mono: bool,
    mute: bool,
    frame: usize,
    channel: usize,
) -> Emit {
    if mute {
        Emit::Silence
    } else {
        Emit::Level(drawn[draw_index(channels, mono, frame, channel)])
    }
}

/// How many bytes are still to be drawn when `have` of `needed` are there.
pub open spec fn wanting(needed: usize, have: nat) -> nat {
    if needed > have {
        (needed - have) as nat
    } else {
        0
    }
}

/// A block as the feed plays it with no window taken in on the way.
pub struct Block {
    /// Where the feed stands afterwards.
    pub feed: FeedModel,
    /// The bytes drawn, in the order of drawing.
    pub drawn: Seq<u8>,
    /// What goes out, frame by frame and in each frame channel by channel.
    pub cells: Seq<Seq<Emit>>,
}

/// The block of `frames` frames on `channels` channels, played from `feed`.
pub open spec fn block(
    feed: FeedModel,
    frames: usize,
    channels: usize,
    mono: bool,
    mute: bool,
) -> Block {
    let count = draws_needed(frames, channels, mono) as nat;
    let drawn = feed.bytes(count);
    Block {
        feed: feed.after(count),
        drawn,
        cells: Seq::new(
            frames as nat,
            |f: int|
                Seq::new(
                    channels as nat,
                    |c: int| cell(drawn, channels, mono, mute, f as usize, c as usize),
                ),
        ),
    }
}

/// One more draw: the feed after it, and the bytes with it.
pub proof fn lemma_one_more_draw(m: FeedModel, count: nat)
    ensures
        m.after(count + 1) == m.after(count).stepped(),
        m.bytes(count + 1) == m.bytes(count).push(m.after(count).current()),
        m.bytes(count).len() == count,
    decreases count,
{
    if count == 0 {
        assert(m.after(1) == m.stepped().after(0));
        assert(m.bytes(1) =~= seq![m.current()] + m.stepped().bytes(0));
        assert(m.bytes(1) =~= m.bytes(0).push(m.current()));
    } else {
        lemma_one_more_draw(m.stepped(), (count - 1) as nat);
        assert(m.after(count + 1) == m.stepped().after(count));
        assert(m.bytes(count + 1) =~= seq![m.current()] + m.stepped().bytes(count));
        assert(m.bytes(count + 1) =~= m.bytes(count).push(m.after(count).current()));
    }
}

/// Draws move the cursor and nothing else; in a window that is not empty
/// the cursor goes round it.
pub proof fn lemma_cursor_after(m: FeedModel, count: nat)
    requires
        m.wf(),
    ensures
        m.after(count).wf(),
        m.after(count) == (FeedModel { pos: m.after(count).pos, ..m }),
        m.len > 0 ==> m.after(count).pos == ((m.pos + count) as int) % (m.len as int),
        m.len == 0 ==> m.after(count).pos == 0,
    decreases count,
{
    if count == 0 {
        if m.len > 0 {
            vstd::arithmetic::div_mod::lemma_small_mod(m.pos, m.len);
        }
    } else {
        lemma_cursor_after(m, (count - 1) as nat);
        lemma_one_more_draw(m, (count - 1) as nat);
        if m.len > 0 {
            let a: int = m.pos + count - 1;
            let n = m.len as int;
            let q = a / n;
            let r = a % n;
            vstd::arithmetic::div_mod::lemma_fundamental_div_mod(a, n);
            vstd::arithmetic::div_mod::lemma_mod_bound(a, n);
            if r + 1 == n {
                assert(a + 1 == (q + 1) * n + 0) by (nonlinear_arith)
                    requires
                        a == n * q + r,
                        r + 1 == n,
                ;
                vstd::arithmetic::div_mod::lemma_fundamental_div_mod_converse(a + 1, n, q + 1, 0);
            } else {
                assert(a + 1 == q * n + (r + 1)) by (nonlinear_arith)
                    requires
                        a == n * q + r,
                ;
                vstd::arithmetic::div_mod::lemma_fundamental_div_mod_converse(a + 1, n, q, r + 1);
            }
            assert(m.after((count - 1) as nat).pos == r);
            assert(m.after(count).pos == (a + 1) % n);
        }
    }
}

/// Going round: from the start of a window of `L` bytes, with no window
/// taken in on the way, draw number `k` (counted from zero) gives byte
/// `k mod L` of the window. So the first `L` draws give the window in order,
/// each byte once, and the next draw gives its first byte again.
pub proof fn lemma_feed_cycles(m: FeedModel, k: nat)
    requires
        m.wf(),
        m.len > 0,
        m.pos == 0,
    ensures
        m.after(k).current() == m.source()[(k % m.len) as int],
        m.bytes(k + 1).last() == m.source()[(k % m.len) as int],
        m.bytes(m.len) == m.source(),
        m.after(m.len) == m,
{
    lemma_cursor_after(m, k);
    lemma_one_more_draw(m, k);
    vstd::arithmetic::div_mod::lemma_mod_bound(k as int, m.len as int);
    lemma_cursor_after(m, m.len);
    vstd::arithmetic::div_mod::lemma_mod_self_0(m.len as int);
    assert(m.bytes(m.len) =~= m.source()) by {
        lemma_one_more_draw(m, m.len);
        assert forall|i: int| 0 <= i < m.len implies m.bytes(m.len)[i] == m.source()[i] by {
            lemma_bytes_prefix(m, i as nat, m.len);
            lemma_one_more_draw(m, i as nat);
            lemma_cursor_after(m, i as nat);
            vstd::arithmetic::div_mod::lemma_small_mod(i as nat, m.len);
        }
    }
}

/// The bytes of fewer draws are the start of the bytes of more.
pub proof fn lemma_bytes_prefix(m: FeedModel, i: nat, count: nat)
    requires
        i < count,
    ensures
        m.bytes(count).len() == count,
        m.bytes(count)[i as int] == m.after(i).current(),
    decreases count,
{
    lemma_one_more_draw(m, (count - 1) as nat);
    if i < count - 1 {
        lemma_bytes_prefix(m, i, (count - 1) as nat);
    }
}

/// Muting changes what goes out, never where the cursor goes: a block leaves
/// the feed in the same place and draws the same bytes whether it is muted
/// or not. Muted, every sample of it is silence; not muted, every sample is
/// the byte drawn for it.
pub proof fn lemma_mute_preserves_position(
    feed: FeedModel,
    frames: usize,
    channels: usize,
    mono: bool,
)
    ensures
        block(feed, frames, channels, mono, true).feed == block(
            feed,
            frames,
            channels,
            mono,
            false,
        ).feed,
        block(feed, frames, channels, mono, true).drawn == block(
            feed,
            frames,
            channels,
            mono,
            false,
        ).drawn,
        forall|f: int, c: int|
            0 <= f < frames && 0 <= c < channels ==> #[trigger] block(
                feed,
                frames,
                channels,
                mono,
                true,
            ).cells[f][c] == Emit::Silence,
        forall|f: int, c: int|
            0 <= f < frames && 0 <= c < channels ==> #[trigger] block(
                feed,
                frames,
                channels,
                mono,
                false,
            ).cells[f][c] == Emit::Level(
                block(feed, frames, channels, mono, false).drawn[draw_index(
                    channels,
                    mono,
                    f as usize,
                    c as usize,
                )],
            ),
{
}

/// The byte feed of the data player.
pub struct SampleFeed {
    file_path: Option<String>,
    file_offset: u64,
    data: Vec<u8>,
    data_len: usize,
    data_pos: usize,
}

impl View for SampleFeed {
    type V = FeedModel;

    closed spec fn view(&self) -> FeedModel {
        FeedModel {
            arena: self.data@,
            len: self.data_len as nat,
            pos: self.data_pos as nat,
            path: match self.file_path {
                Some(path) => Some(path@),
                None => None,
            },
            offset: self.file_offset,
        }
    }
}

impl SampleFeed {
    /// A feed with an empty window over an arena of zeros, and no file.
    pub fn new() -> (feed: SampleFeed)
        ensures
            feed@.wf(),
            feed@.len == 0,
            feed@.pos == 0,
            feed@.path is None,
            feed@.offset == 0,
            forall|i: int| 0 <= i < MAX_DATA_SIZE ==> feed@.arena[i] == 0u8,
    {
        SampleFeed {
            file_path: None,
            file_offset: 0,
            data: vec![0u8; MAX_DATA_SIZE],
            data_len: 0,
            data_pos: 0,
        }
    }

    /// Makes the start of `bytes` the current window, as much as the arena
    /// holds, and puts the cursor at its start.
    pub fn set_source(&mut self, bytes: &[u8])
        requires
            old(self)@.wf(),
        ensures
            final(self)@.wf(),
            final(self)@ == old(self)@.installed(bytes@),
    {
        let len = if bytes.len() <= MAX_DATA_SIZE { bytes.len() } else { MAX_DATA_SIZE };
        let mut i: usize = 0;
        assert(self.data@ =~= bytes@.take(0) + old(self).data@.skip(0));
        while i < len
            invariant
                i <= len,
                len <= bytes@.len(),
                len <= MAX_DATA_SIZE,
                self.data@.len() == MAX_DATA_SIZE,
                self.file_path == old(self).file_path,
                self.file_offset == old(self).file_offset,
                old(self).data@.len() == MAX_DATA_SIZE,
                self.data@ == bytes@.take(i as int) + old(self).data@.skip(i as int),
            decreases len - i,
        {
            self.data.set(i, bytes[i]);
            i = i + 1;
            assert(self.data@ =~= bytes@.take(i as int) + old(self).data@.skip(i as int));
        }
        self.data_len = len;
        self.data_pos = 0;
    }

    /// Puts a file behind the feed. The window stays as it is until bytes of
    /// the file are handed in.
    pub fn set_source_path(&mut self, path: String)
        requires
            old(self)@.wf(),
        ensures
            final(self)@.wf(),
            final(self)@ == (FeedModel { path: Some(path@), ..old(self)@ }),
    {
        self.file_path = Some(path);
    }

    /// The file behind the feed, if any.
    pub fn source_path(&self) -> (path: Option<String>)
        ensures
            match path {
                Some(p) => self@.path == Some(p@),
                None => self@.path is None,
            },
    {
        match &self.file_path {
            Some(p) => Some(p.clone()),
            None => None,
        }
    }

    /// Where in a file of `file_len` bytes the next window is to be read.
    pub fn read_offset(&self, file_len: u64) -> (offset: u64)
        requires
            file_len > 0,
        ensures
            offset == self@.read_offset(file_len),
            offset < file_len,
    {
        self.file_offset % file_len
    }

    /// Takes in `window`, read from a file of `file_len` bytes at
    /// [`read_offset`](Self::read_offset). A feed without a file takes
    /// nothing in and stays as it is; an empty file is refused, with nothing
    /// changed.
    pub fn refill(&mut self, file_len: u64, window: &[u8]) -> (r: Result<(), FeedError>)
        requires
            old(self)@.wf(),
        ensures
            final(self)@.wf(),
            r == old(self)@.refill_check(file_len),
            final(self)@ == old(self)@.refilled(file_len, window@),
    {
        if self.file_path.is_none() {
            return Ok(());
        }
        if file_len == 0 {
            return Err(FeedError::EmptyFile);
        }
        let start: u64 = self.file_offset % file_len;
        self.set_source(window);
        let moved: u128 = start as u128 + self.data_len as u128;
        self.file_offset = (moved % (file_len as u128)) as u64;
        Ok(())
    }

    /// Draws the byte under the cursor and moves the cursor on, round to the
    /// start at the end of the window.
    pub fn next_sample(&mut self) -> (drawn: Drawn)
        requires
            old(self)@.wf(),
        ensures
            final(self)@.wf(),
            drawn.byte == old(self)@.current(),
            drawn.wrapped == old(self)@.wraps(),
            final(self)@ == old(self)@.stepped(),
    {
        let byte = self.data[self.data_pos];
        let wrapped = self.data_pos + 1 >= self.data_len;
        if wrapped {
            self.data_pos = 0;
        } else {
            self.data_pos = self.data_pos + 1;
        }
        Drawn { byte, wrapped }
    }

    /// Draws into `drawn` until it holds `needed` bytes or, with a file behind
    /// the feed, until the cursor has come round. Says whether it stopped
    /// because a new window is due.
    pub fn fill(&mut self, needed: usize, drawn: &mut Vec<u8>) -> (refill_due: bool)
        requires
            old(self)@.wf(),
        ensures
            final(self)@.wf(),
            ({
                let count = old(self)@.run_length(wanting(needed, old(drawn)@.len()));
                &&& final(drawn)@ == old(drawn)@ + old(self)@.bytes(count)
                &&& final(self)@ == old(self)@.after(count)
                &&& refill_due == (count > 0 && old(self)@.path is Some && count == old(
                    self,
                )@.to_wrap())
            }),
    {
        let ghost start = self@;
        let ghost want = wanting(needed, drawn@.len());
        let ghost mut count: nat = 0;
        let mut due = false;
        assert(drawn@ =~= old(drawn)@ + start.bytes(0));
        while drawn.len() < needed && !due
            invariant
                start == old(self)@,
                start.wf(),
                self@.wf(),
                want == wanting(needed, old(drawn)@.len()),
                count <= want,
                drawn@.len() == old(drawn)@.len() + count,
                drawn@ == old(drawn)@ + start.bytes(count),
                self@ == start.after(count),
                start.path is Some ==> count <= start.to_wrap(),
                due <==> start.path is Some && count == start.to_wrap(),
            decreases needed - drawn.len() + if due { 0int } else { 1int },
        {
            proof {
                lemma_one_more_draw(start, count);
                lemma_cursor_after(start, count);
                if start.path is Some {
                    if start.len > 0 {
                        vstd::arithmetic::div_mod::lemma_small_mod(
                            (start.pos + count) as nat,
                            start.len,
                        );
                    }
                }
            }
            let d = self.next_sample();
            drawn.push(d.byte);
            if d.wrapped && self.file_path.is_some() {
                due = true;
            }
            proof {
                assert(drawn@ =~= old(drawn)@ + start.bytes(count + 1));
                count = count + 1;
            }
        }
        due
    }

    /// A copy of the bytes that come next, from the cursor to the end of
    /// the window, and no more than `capacity` of them.
    pub fn preview(&self, capacity: usize) -> (bytes: Vec<u8>)
        requires
            self@.wf(),
        ensures
            bytes@ == self@.upcoming(capacity as nat),
    {
        let rest = self.data_len - self.data_pos;
        let count = if rest <= capacity { rest } else { capacity };
        let mut bytes: Vec<u8> = Vec::new();
        let mut i: usize = 0;
        while i < count
            invariant
                i <= count,
                self.data_pos + count <= self.data_len,
                self.data_len <= self.data@.len(),
                bytes@ == self.data@.subrange(self.data_pos as int, self.data_pos + i),
            decreases count - i,
        {
            bytes.push(self.data[self.data_pos + i]);
            i = i + 1;
            assert(bytes@ =~= self.data@.subrange(self.data_pos as int, self.data_pos + i));
        }
        bytes
    }

    /// Whether a file stands behind the feed.
    pub fn has_path(&self) -> (r: bool)
        ensures
            r == (self@.path is Some),
    {
        self.file_path.is_some()
    }

    /// The length of the current window.
    pub fn len(&self) -> (len: usize)
        ensures
            len == self@.len,
    {
        self.data_len
    }

    /// The cursor.
    pub fn position(&self) -> (pos: usize)
        ensures
            pos == self@.pos,
    {
        self.data_pos
    }
}

/// How many bytes a block draws, or nothing where that number cannot be
/// counted on this machine.
pub fn count_draws(frames: usize, channels: usize, mono: bool) -> (count: Option<usize>)
    ensures
        match count {
            Some(n) => n == draws_needed(frames, channels, mono),
            None => draws_needed(frames, channels, mono) > usize::MAX,
        },
{
    if mono {
        Some(frames)
    } else {
        frames.checked_mul(channels)
    }
}

/// What goes out for the sample of `channel` in `frame`, given the bytes
/// drawn for the block.
pub fn emit(
    drawn: &[u8],
    channels: usize,
    mono: bool,
    mute: bool,
    frame: usize,
    channel: usize,
) -> (e: Emit)
    requires
        channel < channels || mono,
        draw_index(channels, mono, frame, channel) < drawn@.len(),
    ensures
        e == cell(drawn@, channels, mono, mute, frame, channel),
{
    if mute {
        Emit::Silence
    } else if mono {
        Emit::Level(drawn[frame])
    } else {
        let n = drawn.len();
        assert(frame * channels + channel < n);
        Emit::Level(drawn[frame * channels + channel])
    }
}

} // verus!
