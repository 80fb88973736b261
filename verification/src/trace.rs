//! A trace of what asynchronous tasks did: a log of time-stamped entries,
//! the bookkeeping of a future that reports each poll to the log, and the
//! steps of two sample tasks. The library keeps the log as a plain value;
//! sharing it between tasks is the caller's business.
use crate::text::{decimal, decimal_string, is_digit};
use vstd::prelude::*;
use vstd::string::*;

verus! {

/// The log of a run: its entries, oldest first.
#[derive(Debug, PartialEq, Eq)]
pub struct AsyncLogger {
    pub log: Vec<String>,
}

impl View for AsyncLogger {
    type V = Seq<Seq<char>>;

    open spec fn view(&self) -> Seq<Seq<char>> {
        self.log.deep_view()
    }
}

/// An entry of the log: the time, a colon and a space, the message.
pub open spec fn entry(stamp: Seq<char>, message: Seq<char>) -> Seq<char> {
    stamp + ": "@ + message
}

/// Whether `stamp` has the shape of a time of day: two digits each for
/// the hour, the minute and the second, with colons between them, then a
/// dot and three digits for the milliseconds.
pub open spec fn is_stamp(stamp: Seq<char>) -> bool {
    &&& stamp.len() == 12
    &&& is_digit(stamp[0])
    &&& is_digit(stamp[1])
    &&& stamp[2] == ':'
    &&& is_digit(stamp[3])
    &&& is_digit(stamp[4])
    &&& stamp[5] == ':'
    &&& is_digit(stamp[6])
    &&& is_digit(stamp[7])
    &&& stamp[8] == '.'
    &&& is_digit(stamp[9])
    &&& is_digit(stamp[10])
    &&& is_digit(stamp[11])
}

/// Whether `line` is an entry that holds `message` behind a time of day.
pub open spec fn is_entry_for(line: Seq<char>, message: Seq<char>) -> bool {
    exists|stamp: Seq<char>| is_stamp(stamp) && line == #[trigger] entry(stamp, message)
}

/// `chrono::Local::now`, formatted by `DateTime::format` with hour, minute
/// and second padded to two digits and the milliseconds to three. Which
/// time it is depends on the clock and the time zone of the machine, so
/// only the shape of the result is claimed. chrono reads the system clock
/// and the zone data and expects the clock not to stand before 1970.
#[verifier::external_body]
fn current_stamp() -> (stamp: String)
    ensures
        is_stamp(stamp@),
{
    chrono::Local::now().format("%H:%M:%S.%3f").to_string()
}

impl AsyncLogger {
    /// An empty log.
    pub fn new() -> (logger: AsyncLogger)
        ensures
            logger@ == Seq::<Seq<char>>::empty(),
    {
        let logger = AsyncLogger { log: Vec::new() };
        assert(logger@ =~= Seq::empty());
        logger
    }

    /// Appends the entry for `message` at the time `stamp`.
    pub fn log_at(&mut self, stamp: &str, message: &str)
        ensures
            final(self)@ == old(self)@.push(entry(stamp@, message@)),
    {
        let mut line = String::from_str(stamp);
        line.append(": ");
        line.append(message);
        self.log.push(line);
        assert(self@ =~= old(self)@.push(entry(stamp@, message@)));
    }

    /// Appends the entry for `message` at the current time of day. The
    /// entries that are there stay as they are.
    pub fn log(&mut self, message: &str)
        ensures
            final(self)@.len() == old(self)@.len() + 1,
            final(self)@.drop_last() == old(self)@,
            is_entry_for(final(self)@.last(), message@),
    {
        let stamp = current_stamp();
        self.log_at(stamp.as_str(), message);
        assert(self@.last() == entry(stamp@, message@));
        assert(self@.drop_last() =~= old(self)@);
    }

    /// The lines that show the log: a heading, the entries, a closing
    /// line.
    pub fn dump_log(&self) -> (lines: Vec<String>)
        ensures
            lines.deep_view() == seq!["=== Async Execution Log ==="@] + self@ + seq![
                "==========================="@,
            ],
    {
        let mut lines: Vec<String> = Vec::new();
        lines.push(String::from_str("=== Async Execution Log ==="));
        let mut i: usize = 0;
        while i < self.log.len()
            invariant
                i <= self.log@.len(),
                lines.deep_view() == seq!["=== Async Execution Log ==="@] + self@.take(i as int),
            decreases self.log@.len() - i,
        {
            let ghost before = lines.deep_view();
            lines.push(self.log[i].clone());
            assert(lines.deep_view() =~= before.push(self@[i as int]));
            assert(self@.take(i + 1) =~= self@.take(i as int).push(self@[i as int]));
            i = i + 1;
        }
        assert(self@.take(self.log@.len() as int) =~= self@);
        let ghost before = lines.deep_view();
        lines.push(String::from_str("==========================="));
        assert(lines.deep_view() =~= before.push("==========================="@));
        lines
    }

    /// A log of its own with the same entries. The two logs are apart from
    /// then on: what is logged to one does not show in the other. A
    /// caller who wants several tasks to write to one log shares the log
    /// itself.
    pub fn clone(&self) -> (copy: AsyncLogger)
        ensures
            copy@ == self@,
    {
        let mut log: Vec<String> = Vec::new();
        let mut i: usize = 0;
        while i < self.log.len()
            invariant
                i <= self.log@.len(),
                log@.len() == i,
                forall|k: int| 0 <= k < i ==> (#[trigger] log@[k])@ == self.log@[k]@,
            decreases self.log@.len() - i,
        {
            log.push(self.log[i].clone());
            i = i + 1;
        }
        let copy = AsyncLogger { log };
        assert(copy@ =~= self@);
        copy
    }
}

/// A future with a name and the log that its polls are reported to.
pub struct DebugFuture<F> {
    pub inner: F,
    pub name: &'static str,
    pub logger: AsyncLogger,
}

/// What is logged when the future `name` is polled.
pub open spec fn polling_message(name: Seq<char>) -> Seq<char> {
    "Polling future '"@ + name + "'"@
}

/// What is logged when a poll of the future `name` has come back.
pub open spec fn polled_message(name: Seq<char>, ready: bool) -> Seq<char> {
    if ready {
        "Future '"@ + name + "' completed"@
    } else {
        "Future '"@ + name + "' pending"@
    }
}

impl<F> DebugFuture<F> {
    /// Wraps `future` under `name`, with the log to report to.
    pub fn new(future: F, name: &'static str, logger: AsyncLogger) -> (wrapped: DebugFuture<F>)
        ensures
            wrapped.inner == future,
            wrapped.name@ == name@,
            wrapped.logger == logger,
    {
        DebugFuture { inner: future, name, logger }
    }

    /// Reports that the future is being polled.
    pub fn poll_started(&mut self)
        ensures
            final(self).inner == old(self).inner,
            final(self).name@ == old(self).name@,
            final(self).logger@.len() == old(self).logger@.len() + 1,
            final(self).logger@.drop_last() == old(self).logger@,
            is_entry_for(final(self).logger@.last(), polling_message(old(self).name@)),
    {
        let mut message = String::from_str("Polling future '");
        message.append(self.name);
        message.append("'");
        self.logger.log(message.as_str());
    }

    /// Reports how the poll came back: with the result (`ready`) or
    /// without it.
    pub fn poll_finished(&mut self, ready: bool)
        ensures
            final(self).inner == old(self).inner,
            final(self).name@ == old(self).name@,
            final(self).logger@.len() == old(self).logger@.len() + 1,
            final(self).logger@.drop_last() == old(self).logger@,
            is_entry_for(final(self).logger@.last(), polled_message(old(self).name@, ready)),
    {
        let mut message = String::from_str("Future '");
        message.append(self.name);
        if ready {
            message.append("' completed");
        } else {
            message.append("' pending");
        }
        self.logger.log(message.as_str());
    }
}

/// Wraps `future` under `name`, with the log to report to.
pub fn debug_future<F>(future: F, name: &'static str, logger: AsyncLogger) -> (wrapped:
    DebugFuture<F>)
    ensures
        wrapped.inner == future,
        wrapped.name@ == name@,
        wrapped.logger == logger,
{
    DebugFuture::new(future, name, logger)
}

/// How long the fetch of the record `id` takes, in milliseconds.
pub open spec fn fetch_delay(id: u32) -> int {
    id * 100
}

/// Whether the fetch of the record `id` fails: every fifth does.
pub open spec fn fetch_fails(id: u32) -> bool {
    id % 5 == 0
}

/// What the fetch of the record `id` yields where it succeeds.
pub open spec fn fetched_data(id: u32) -> Seq<char> {
    "Data for id "@ + decimal(id as nat)
}

/// The first step of a fetch: logs the start and says how many
/// milliseconds to wait before the second step.
pub fn begin_fetch(id: u32, logger: &mut AsyncLogger) -> (delay_ms: u64)
    ensures
        delay_ms == fetch_delay(id),
        final(logger)@.len() == old(logger)@.len() + 1,
        final(logger)@.drop_last() == old(logger)@,
        is_entry_for(
            final(logger)@.last(),
            "Starting fetch_data("@ + decimal(id as nat) + ")"@,
        ),
{
    let mut message = String::from_str("Starting fetch_data(");
    message.append(decimal_string(id as u64).as_str());
    message.append(")");
    logger.log(message.as_str());
    (id as u64) * 100
}

/// The second step of a fetch: logs how it ended and hands back the data,
/// or the reason of the failure.
pub fn finish_fetch(id: u32, logger: &mut AsyncLogger) -> (outcome: Result<String, &'static str>)
    ensures
        final(logger)@.len() == old(logger)@.len() + 1,
        final(logger)@.drop_last() == old(logger)@,
        fetch_fails(id) ==> outcome is Err && outcome->Err_0@ == "Data fetch failed"@
            && is_entry_for(
            final(logger)@.last(),
            "fetch_data("@ + decimal(id as nat) + ") failed"@,
        ),
        !fetch_fails(id) ==> outcome is Ok && outcome->Ok_0@ == fetched_data(id) && is_entry_for(
            final(logger)@.last(),
            "fetch_data("@ + decimal(id as nat) + ") succeeded"@,
        ),
{
    let number = decimal_string(id as u64);
    let mut message = String::from_str("fetch_data(");
    message.append(number.as_str());
    if id % 5 == 0 {
        message.append(") failed");
        logger.log(message.as_str());
        Err("Data fetch failed")
    } else {
        message.append(") succeeded");
        logger.log(message.as_str());
        let mut data = String::from_str("Data for id ");
        data.append(number.as_str());
        Ok(data)
    }
}

/// How long the processing of a record takes, in milliseconds.
pub const PROCESS_DELAY_MS: u64 = 300;

/// What the processing makes of `data`.
pub open spec fn processed(data: Seq<char>) -> Seq<char> {
    "Processed: "@ + data
}

/// The first step of the processing: logs the start and says how many
/// milliseconds to wait before the second step.
pub fn begin_process(data: &str, logger: &mut AsyncLogger) -> (delay_ms: u64)
    ensures
        delay_ms == PROCESS_DELAY_MS,
        final(logger)@.len() == old(logger)@.len() + 1,
        final(logger)@.drop_last() == old(logger)@,
        is_entry_for(final(logger)@.last(), "Starting process_data("@ + data@ + ")"@),
{
    let mut message = String::from_str("Starting process_data(");
    message.append(data);
    message.append(")");
    logger.log(message.as_str());
    PROCESS_DELAY_MS
}

/// The second step of the processing: logs the end and hands back the
/// result.
pub fn finish_process(data: &str, logger: &mut AsyncLogger) -> (result: String)
    ensures
        result@ == processed(data@),
        final(logger)@.len() == old(logger)@.len() + 1,
        final(logger)@.drop_last() == old(logger)@,
        is_entry_for(final(logger)@.last(), "Finished process_data: "@ + processed(data@)),
{
    let mut result = String::from_str("Processed: ");
    result.append(data);
    let mut message = String::from_str("Finished process_data: ");
    message.append(result.as_str());
    logger.log(message.as_str());
    result
}

} // verus!
