//! The log console: any number of senders post lines without blocking, one
//! receiver numbers them and keeps the newest few for display.

use vstd::prelude::*;
use vstd::string::*;
use std::collections::VecDeque;
use std::sync::mpsc::{Receiver, Sender};
use crate::text::{padded, padded_text};

verus! {

/// How many lines the receiver keeps; the oldest line leaves when one more
/// arrives.
pub const STATUS_CAPACITY: usize = 64;

/// `std::sync::mpsc::Sender`, the sending end of a channel. Nothing of its
/// inside is known here.
#[verifier::external_type_specification]
#[verifier::external_body]
#[verifier::reject_recursive_types(T)]
pub struct ExSender<T>(Sender<T>);

/// `std::sync::mpsc::Receiver`, the receiving end of a channel. Nothing of
/// its inside is known here.
#[verifier::external_type_specification]
#[verifier::external_body]
#[verifier::reject_recursive_types(T)]
pub struct ExReceiver<T>(Receiver<T>);

/// Whether `c` is white space: one of the code points with the Unicode
/// property White_Space.
pub open spec fn is_space(c: char) -> bool {
    let code = c as u32;
    ||| 0x0009 <= code <= 0x000D
    ||| code == 0x0020
    ||| code == 0x0085
    ||| code == 0x00A0
    ||| code == 0x1680
    ||| 0x2000 <= code <= 0x200A
    ||| code == 0x2028
    ||| code == 0x2029
    ||| code == 0x202F
    ||| code == 0x205F
    ||| code == 0x3000
}

/// `char::is_whitespace`: whether the character has the Unicode property
/// White_Space, which [`is_space`] writes out.
#[verifier::external_body]
fn is_whitespace(c: char) -> (r: bool)
    ensures
        r == is_space(c),
{
    c.is_whitespace()
}

/// `std::sync::mpsc::channel`: a fresh unbounded channel. Nothing is claimed
/// of the two ends.
#[verifier::external_body]
fn open_channel() -> (ends: (Sender<ConsoleLog>, Receiver<ConsoleLog>)) {
    std::sync::mpsc::channel()
}

/// `Sender::clone`: one more sending end of the same channel. Nothing is
/// claimed of it.
pub assume_specification<T>[ <Sender<T> as Clone>::clone ](sender: &Sender<T>) -> (copy: Sender<T>);

/// `Sender::send`: queues the line without blocking. A line sent after the
/// receiver is gone is lost, as the caller cannot do anything about it.
#[verifier::external_body]
fn post(sender: &Sender<ConsoleLog>, log: ConsoleLog) {
    let _ = sender.send(log);
}

/// `Receiver::try_iter`: the lines that are waiting right now, oldest first,
/// without blocking. Which lines those are depends on the senders, so nothing
/// is claimed of them.
#[verifier::external_body]
fn drain(receiver: &Receiver<ConsoleLog>) -> (batch: Vec<ConsoleLog>) {
    receiver.try_iter().collect()
}

/// One line on its way to the console.
pub struct ConsoleLog {
    pub message: String,
}

impl ConsoleLog {
    pub fn new(message: String) -> (log: ConsoleLog)
        ensures
            log.message == message,
    {
        ConsoleLog { message }
    }
}

/// A sending end of the console. It can be cloned freely and used from any
/// thread.
#[derive(Clone)]
pub struct ConsoleSender {
    sender: Sender<ConsoleLog>,
}

impl ConsoleSender {
    /// Posts `message` to the console. Never blocks.
    pub fn log(&self, message: String) {
        let log = ConsoleLog::new(message);
        self.send_log(log);
    }

    fn send_log(&self, log: ConsoleLog) {
        post(&self.sender, log);
    }
}

/// The line that the console keeps for a message: its number, zero-filled to
/// four digits, in square brackets, the message, and a line feed.
pub open spec fn entry_text(count: u32, message: Seq<char>) -> Seq<char> {
    seq!['['] + padded_text(count as nat, 4) + seq![']', ' '] + message + seq!['\n']
}

/// The kept lines after `entry` came in: the new line first, and no more than
/// [`STATUS_CAPACITY`] of them.
pub open spec fn retained(entries: Seq<Seq<char>>, entry: Seq<char>) -> Seq<Seq<char>> {
    let all = seq![entry] + entries;
    if all.len() <= STATUS_CAPACITY {
        all
    } else {
        all.take(STATUS_CAPACITY as int)
    }
}

/// The number after `count`; the numbering starts over after the last one.
pub open spec fn next_count(count: u32) -> u32 {
    if count == u32::MAX {
        0
    } else {
        (count + 1) as u32
    }
}

/// All lines in a row, first to last.
pub open spec fn joined(entries: Seq<Seq<char>>) -> Seq<char>
    decreases entries.len(),
{
    if entries.len() == 0 {
        Seq::empty()
    } else {
        joined(entries.drop_last()) + entries.last()
    }
}

/// `s` without the white space at its end.
pub open spec fn trimmed(s: Seq<char>) -> Seq<char>
    decreases s.len(),
{
    if s.len() > 0 && is_space(s.last()) {
        trimmed(s.drop_last())
    } else {
        s
    }
}

/// The messages of a batch of lines.
pub open spec fn messages_of(batch: Seq<ConsoleLog>) -> Seq<Seq<char>> {
    batch.map_values(|log: ConsoleLog| log.message@)
}

/// What a console holds: the kept lines, newest first; the number that the
/// next line gets; and the text last put together for display.
pub struct ConsoleState {
    pub entries: Seq<Seq<char>>,
    pub counter: u32,
    pub text: Seq<char>,
}

impl ConsoleState {
    /// The console after one message came in.
    pub open spec fn logged(self, message: Seq<char>) -> ConsoleState {
        ConsoleState {
            entries: retained(self.entries, entry_text(self.counter, message)),
            counter: next_count(self.counter),
            text: self.text,
        }
    }

    /// The console after the messages of `batch` came in, first to last.
    pub open spec fn absorbed(self, batch: Seq<Seq<char>>) -> ConsoleState
        decreases batch.len(),
    {
        if batch.len() == 0 {
            self
        } else {
            self.logged(batch[0]).absorbed(batch.skip(1))
        }
    }

    /// The console after its display text was asked for. The text is put
    /// together anew from the kept lines only when no line came in just
    /// before; otherwise the text of the last time stands.
    pub open spec fn displayed(self, updated: bool) -> ConsoleState {
        if updated {
            self
        } else {
            ConsoleState { text: trimmed(joined(self.entries)), ..self }
        }
    }

    /// The newest line, or nothing where there is none.
    pub open spec fn last_log(self) -> Seq<char> {
        if self.entries.len() > 0 {
            self.entries[0]
        } else {
            Seq::empty()
        }
    }
}

/// The receiving end of the console, with the lines it keeps.
pub struct ConsoleReceiver {
    logs: VecDeque<String>,
    receiver: Receiver<ConsoleLog>,
    sender: Sender<ConsoleLog>,
    log_counter: u32,
    log_string: String,
}

impl View for ConsoleReceiver {
    type V = ConsoleState;

    closed spec fn view(&self) -> ConsoleState {
        ConsoleState {
            entries: self.logs@.map_values(|s: String| s@),
            counter: self.log_counter,
            text: self.log_string@,
        }
    }
}

fn format_entry(count: u32, message: &str) -> (s: String)
    ensures
        s@ == entry_text(count, message@),
{
    proof {
        reveal_strlit("[");
        reveal_strlit("] ");
        reveal_strlit("\n");
    }
    let mut s = String::from_str("[");
    let number = padded(count as u128, 4);
    s.append(number.as_str());
    s.append("] ");
    s.append(message);
    s.append("\n");
    assert(s@ =~= entry_text(count, message@));
    s
}

fn trim_end(s: &str) -> (r: String)
    ensures
        r@ == trimmed(s@),
{
    let mut end: usize = s.unicode_len();
    let mut done = false;
    assert(s@.take(end as int) =~= s@);
    while end > 0 && !done
        invariant
            end <= s@.len(),
            trimmed(s@) == trimmed(s@.take(end as int)),
            done ==> end > 0 && !is_space(s@[end - 1]),
        decreases end + if done { 0int } else { 1int },
    {
        let c = s.get_char(end - 1);
        let ghost head = s@.take(end as int);
        assert(head.last() == c);
        if is_whitespace(c) {
            assert(head.drop_last() =~= s@.take(end - 1));
            end = end - 1;
        } else {
            done = true;
        }
    }
    let kept = s.substring_char(0, end);
    assert(kept@ =~= s@.take(end as int));
    assert(end > 0 ==> kept@.last() == s@[end - 1]);
    String::from_str(kept)
}

impl ConsoleReceiver {
    /// The console holds no more lines than it may keep.
    pub open spec fn wf(&self) -> bool {
        self@.entries.len() <= STATUS_CAPACITY
    }

    /// An empty console on a channel of its own.
    pub fn new() -> (console: ConsoleReceiver)
        ensures
            console.wf(),
            console@.entries.len() == 0,
            console@.counter == 0,
            console@.text.len() == 0,
    {
        let (sender, receiver) = open_channel();
        let console = ConsoleReceiver {
            logs: VecDeque::new(),
            receiver,
            sender,
            log_counter: 0,
            log_string: String::new(),
        };
        console
    }

    /// A sending end for another part of the program.
    pub fn create_sender(&self) -> (console_sender: ConsoleSender) {
        ConsoleSender { sender: self.sender.clone() }
    }

    /// Takes in what the senders have posted, then gives the display text
    /// (see [`ConsoleState::displayed`]).
    pub fn get_log_string(&mut self) -> (text: String)
        requires
            old(self).wf(),
        ensures
            final(self).wf(),
            text@ == final(self)@.text,
            exists|batch: Seq<Seq<char>>|
                final(self)@ == (#[trigger] old(self)@.absorbed(batch)).displayed(batch.len() > 0),
    {
        let batch = drain(&self.receiver);
        let ghost messages = messages_of(batch@);
        let updated = self.absorb(batch);
        let text = self.display(updated);
        assert(self@ == old(self)@.absorbed(messages).displayed(messages.len() > 0));
        text
    }

    /// Gives the display text without looking for new lines, putting it
    /// together anew unless `updated` says that lines have just come in.
    pub fn display(&mut self, updated: bool) -> (text: String)
        requires
            old(self).wf(),
        ensures
            final(self).wf(),
            final(self)@ == old(self)@.displayed(updated),
            text@ == final(self)@.text,
    {
        if !updated {
            let mut all = String::new();
            let n = self.logs.len();
            let mut i: usize = 0;
            while i < n
                invariant
                    i <= n,
                    n == self.logs@.len(),
                    self@ == old(self)@,
                    all@ == joined(self@.entries.take(i as int)),
                decreases n - i,
            {
                all.append(self.logs[i].as_str());
                proof {
                    let next = self@.entries.take(i + 1);
                    assert(next.drop_last() =~= self@.entries.take(i as int));
                    assert(next.last() == self.logs@[i as int]@);
                }
                i = i + 1;
            }
            assert(self@.entries.take(n as int) =~= self@.entries);
            self.log_string = trim_end(all.as_str());
        }
        self.log_string.clone()
    }

    /// Takes in what the senders have posted, then gives the newest line.
    pub fn get_last_log(&mut self) -> (line: String)
        requires
            old(self).wf(),
        ensures
            final(self).wf(),
            line@ == final(self)@.last_log(),
            exists|batch: Seq<Seq<char>>| final(self)@ == #[trigger] old(self)@.absorbed(batch),
    {
        let _ = self.update();
        if self.logs.len() > 0 {
            self.logs[0].clone()
        } else {
            String::new()
        }
    }

    /// Puts `message` into the console directly, as its newest line.
    pub fn log(&mut self, message: String)
        requires
            old(self).wf(),
        ensures
            final(self).wf(),
            final(self)@ == old(self)@.logged(message@),
    {
        let log = ConsoleLog::new(message);
        self.add_log(log);
    }

    /// Takes in what the senders have posted since the last time, oldest
    /// first, and says whether there was anything.
    pub fn update(&mut self) -> (updated: bool)
        requires
            old(self).wf(),
        ensures
            final(self).wf(),
            exists|batch: Seq<Seq<char>>|
                final(self)@ == #[trigger] old(self)@.absorbed(batch) && updated == (batch.len()
                    > 0),
    {
        let batch = drain(&self.receiver);
        let ghost messages = messages_of(batch@);
        let updated = self.absorb(batch);
        assert(self@ == old(self)@.absorbed(messages) && updated == (messages.len() > 0));
        updated
    }

    /// Takes in the lines of `batch`, first to last, and says whether there
    /// was any.
    pub fn absorb(&mut self, batch: Vec<ConsoleLog>) -> (updated: bool)
        requires
            old(self).wf(),
        ensures
            final(self).wf(),
            final(self)@ == old(self)@.absorbed(messages_of(batch@)),
            updated == (batch@.len() > 0),
    {
        let ghost messages = messages_of(batch@);
        let n = batch.len();
        let mut i: usize = 0;
        assert(messages.skip(0) =~= messages);
        while i < n
            invariant
                i <= n,
                n == batch@.len(),
                messages == messages_of(batch@),
                self.wf(),
                self@.absorbed(messages.skip(i as int)) == old(self)@.absorbed(messages),
            decreases n - i,
        {
            assert(messages.skip(i as int).skip(1) =~= messages.skip(i + 1));
            assert(messages.skip(i as int)[0] == batch@[i as int].message@);
            self.add_entry(batch[i].message.as_str());
            i = i + 1;
        }
        n > 0
    }

    fn add_log(&mut self, log: ConsoleLog)
        requires
            old(self).wf(),
        ensures
            final(self).wf(),
            final(self)@ == old(self)@.logged(log.message@),
    {
        self.add_entry(log.message.as_str());
    }

    fn add_entry(&mut self, message: &str)
        requires
            old(self).wf(),
        ensures
            final(self).wf(),
            final(self)@ == old(self)@.logged(message@),
    {
        let log_string = format_entry(self.log_counter, message);
        let ghost entry = log_string@;
        self.logs.push_front(log_string);
        self.log_counter = self.log_counter.wrapping_add(1);
        assert(self@.entries =~= seq![entry] + old(self)@.entries);
        if self.logs.len() > STATUS_CAPACITY {
            let _ = self.logs.pop_back();
            assert(self@.entries =~= (seq![entry] + old(self)@.entries).take(
                STATUS_CAPACITY as int,
            ));
        }
        assert(self@.entries == retained(old(self)@.entries, entry));
    }
}

/// Posts `message` to `console`, where there is one; without a console the
/// message is dropped.
pub fn log_to(console: &Option<ConsoleSender>, message: String) {
    match console {
        Some(c) => {
            c.log(message);
        },
        None => {},
    }
}

} // verus!
