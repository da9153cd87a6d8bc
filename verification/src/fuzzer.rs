//! Supervision of one instance run: the liveness states a reader reports,
//! the watchdog that counts missed heartbeats, and the classification of a
//! run as success, crash or timeout.

use crate::corpus::{Corpus, CorpusView};
use crate::text::{decimal, decimal_text};
use crate::util::{discrete, nanos_of};
use std::time::Duration;
use vstd::prelude::*;
use vstd::string::*;

verus! {

/// What the reader of an instance's output last learned about it.
#[derive(Debug, Clone, Copy, PartialEq, Eq, Structural)]
pub enum Instance {
    Running,
    Stopped,
}

/// How one instance run ended.
#[derive(Debug, Clone, Copy, PartialEq, Eq, Structural)]
pub enum Status {
    Success,
    Timeout,
    Crashed,
}

/// What can end a campaign before its time.
#[derive(Debug, Clone, Copy, PartialEq, Eq, Structural)]
pub enum Fault {
    /// The corpus could not be read, or what was read is no corpus.
    OpenFailed,
    /// The corpus could not be written.
    SaveFailed,
    /// The instance could not be built.
    BuildFailed,
    /// The instance could not be started.
    SpawnFailed,
    /// The watchdog could not be joined.
    SupervisorJoinFailed,
}

/// The supervisor of a campaign: the corpus, the interval at which the
/// instance is looked after, and the time without a heartbeat after which it
/// is given up.
pub struct Fuzzer {
    heartbeat: Duration,
    timeout: Duration,
    corpus: Corpus,
}

/// What the supervisor has to do next for the instance it watches.
#[derive(Debug, Clone, Copy, PartialEq, Eq, Structural)]
pub enum Directive {
    /// Sleep one heartbeat interval, then take the liveness cell and report
    /// what it held.
    Sleep,
    /// Too many heartbeats were missed: terminate the instance and wait for it.
    Kill,
    /// The instance closed its output: wait for it to exit by itself.
    Reap,
}

/// The watchdog of one instance run. It counts the ticks at which no heartbeat
/// was seen, and gives up once that count reaches the threshold `lost`.
#[derive(Debug, Clone, Copy, PartialEq, Eq, Structural)]
pub struct Watchdog {
    pub skipped: u64,
    pub lost: u64,
    pub stopped: bool,
}

/// What a reader reports after one attempt to read a heartbeat byte: the
/// instance is running while bytes arrive, and stopped once its output ends.
pub open spec fn liveness(byte_read: bool) -> Instance {
    if byte_read {
        Instance::Running
    } else {
        Instance::Stopped
    }
}

/// `n` ticks in a row at which the liveness cell was found empty.
pub open spec fn silence(n: nat) -> Seq<Option<Instance>> {
    Seq::new(n, |i: int| None::<Instance>)
}

impl Instance {
    /// The report of a reader after one attempt to read a heartbeat byte.
    pub fn observed(byte_read: bool) -> (state: Instance)
        ensures
            state == liveness(byte_read),
    {
        if byte_read {
            Instance::Running
        } else {
            Instance::Stopped
        }
    }
}

/// The number of heartbeats in a row that an instance may miss before it is
/// given up: the timeout divided by the heartbeat interval, rounded down.
pub open spec fn threshold_of(timeout: int, heartbeat: int) -> int {
    timeout / heartbeat
}

/// The line that reports the outcome of the aggregate at `index`, counted
/// from zero, of `total`.
pub open spec fn progress_text(index: nat, total: nat, status: Status) -> Seq<char> {
    "Test "@ + decimal_text(index + 1) + "/"@ + decimal_text(total) + ": "@ + status.name_text()
}

/// The number of heartbeats in a row that an instance may miss before it is
/// given up, for intervals in nanoseconds.
pub fn threshold(timeout: u64, heartbeat: u64) -> (lost: u64)
    requires
        heartbeat > 0,
    ensures
        lost == threshold_of(timeout as int, heartbeat as int),
{
    timeout / heartbeat
}

/// The silence that the threshold stands for is as long as the timeout
/// allows and no longer: that many heartbeat intervals fit into the timeout,
/// and one more would not.
pub proof fn lemma_threshold_fills_timeout(timeout: int, heartbeat: int)
    requires
        0 <= timeout,
        0 < heartbeat,
    ensures
        0 <= threshold_of(timeout, heartbeat),
        threshold_of(timeout, heartbeat) * heartbeat <= timeout,
        timeout < (threshold_of(timeout, heartbeat) + 1) * heartbeat,
{
    vstd::arithmetic::div_mod::lemma_fundamental_div_mod(timeout, heartbeat);
    vstd::arithmetic::div_mod::lemma_mod_bound(timeout, heartbeat);
    vstd::arithmetic::div_mod::lemma_div_pos_is_pos(timeout, heartbeat);
    let lost = timeout / heartbeat;
    assert(heartbeat * lost == lost * heartbeat) by (nonlinear_arith);
    assert((lost + 1) * heartbeat == lost * heartbeat + heartbeat) by (nonlinear_arith);
}

/// Reports the outcome of the aggregate at `index`, counted from zero, of
/// `total`.
pub fn progress_line(index: usize, total: usize, status: Status) -> (line: String)
    requires
        index < total,
    ensures
        line@ == progress_text(index as nat, total as nat, status),
{
    let mut line = String::from_str("Test ");
    line.append(decimal((index + 1) as u64).as_str());
    line.append("/");
    line.append(decimal(total as u64).as_str());
    line.append(": ");
    line.append(status.name().as_str());
    line
}

impl Status {
    /// The name of the outcome.
    pub open spec fn name_text(self) -> Seq<char> {
        match self {
            Status::Success => "Success"@,
            Status::Timeout => "Timeout"@,
            Status::Crashed => "Crashed"@,
        }
    }

    /// Renders the name of the outcome.
    pub fn name(&self) -> (text: String)
        ensures
            text@ == self.name_text(),
    {
        match *self {
            Status::Success => String::from_str("Success"),
            Status::Timeout => String::from_str("Timeout"),
            Status::Crashed => String::from_str("Crashed"),
        }
    }
}

impl Fault {
    /// What is said of the fault.
    pub open spec fn message_text(self) -> Seq<char> {
        match self {
            Fault::OpenFailed => "failed to open corpus"@,
            Fault::SaveFailed => "failed to save corpus"@,
            Fault::BuildFailed => "failed to build instance"@,
            Fault::SpawnFailed => "failed to start instance"@,
            Fault::SupervisorJoinFailed => ""@,
        }
    }

    /// Renders what is said of the fault.
    pub fn message(&self) -> (text: String)
        ensures
            text@ == self.message_text(),
    {
        match *self {
            Fault::OpenFailed => String::from_str("failed to open corpus"),
            Fault::SaveFailed => String::from_str("failed to save corpus"),
            Fault::BuildFailed => String::from_str("failed to build instance"),
            Fault::SpawnFailed => String::from_str("failed to start instance"),
            Fault::SupervisorJoinFailed => String::from_str(""),
        }
    }
}

impl Fuzzer {
    #[verifier::type_invariant]
    spec fn intervals_fit(self) -> bool {
        &&& 0 < nanos_of(self.heartbeat) <= u64::MAX
        &&& nanos_of(self.timeout) <= u64::MAX
    }

    /// The heartbeat interval in nanoseconds.
    pub closed spec fn heartbeat_nanos(&self) -> int {
        nanos_of(self.heartbeat)
    }

    /// The timeout in nanoseconds.
    pub closed spec fn timeout_nanos(&self) -> int {
        nanos_of(self.timeout)
    }

    /// The corpus of the campaign.
    pub closed spec fn corpus_view(&self) -> CorpusView {
        self.corpus@
    }

    /// A supervisor for `corpus`, with a heartbeat interval of 100
    /// milliseconds and a timeout of 500.
    pub fn new(corpus: Corpus) -> (fuzzer: Fuzzer)
        ensures
            fuzzer.heartbeat_nanos() == 100_000_000,
            fuzzer.timeout_nanos() == 500_000_000,
            threshold_of(fuzzer.timeout_nanos(), fuzzer.heartbeat_nanos()) == 5,
            fuzzer.corpus_view() == corpus@,
    {
        Fuzzer {
            heartbeat: Duration::from_millis(100),
            timeout: Duration::from_millis(500),
            corpus: corpus,
        }
    }

    /// The heartbeat interval.
    pub fn heartbeat(&self) -> (interval: Duration)
        ensures
            nanos_of(interval) == self.heartbeat_nanos(),
    {
        self.heartbeat
    }

    /// The timeout.
    pub fn timeout(&self) -> (interval: Duration)
        ensures
            nanos_of(interval) == self.timeout_nanos(),
    {
        self.timeout
    }

    /// The corpus.
    pub fn corpus(&self) -> (corpus: &Corpus)
        ensures
            corpus@ == self.corpus_view(),
    {
        &self.corpus
    }

    /// The number of heartbeats in a row that an instance may miss before it
    /// is given up.
    pub fn lost(&self) -> (lost: u64)
        ensures
            lost == threshold_of(self.timeout_nanos(), self.heartbeat_nanos()),
    {
        proof {
            use_type_invariant(self);
        }
        threshold(discrete(self.timeout), discrete(self.heartbeat))
    }

    /// A watchdog for one instance of this campaign.
    pub fn watchdog(&self) -> (watchdog: Watchdog)
        ensures
            watchdog == Watchdog::fresh(
                threshold_of(self.timeout_nanos(), self.heartbeat_nanos()) as u64,
            ),
    {
        Watchdog::new(self.lost())
    }

    /// The arguments with which an instance is started: the seed, the
    /// number of serialization rounds and the number of mutation rounds,
    /// each in decimal.
    pub fn instance_arguments(&self) -> (arguments: Vec<String>)
        ensures
            arguments@.len() == 3,
            arguments@[0]@ == decimal_text(self.corpus_view().seed as nat),
            arguments@[1]@ == decimal_text(self.corpus_view().serializations as nat),
            arguments@[2]@ == decimal_text(self.corpus_view().mutations as nat),
    {
        let mut arguments: Vec<String> = Vec::new();
        arguments.push(decimal(self.corpus.seed));
        arguments.push(decimal(self.corpus.serializations as u64));
        arguments.push(decimal(self.corpus.mutations as u64));
        arguments
    }

    /// What a finished build means for the campaign: it goes on after a
    /// build that succeeded, and ends after one that failed.
    pub fn build_outcome(success: bool) -> (outcome: Result<(), Fault>)
        ensures
            success ==> outcome == Ok::<(), Fault>(()),
            !success ==> outcome == Err::<(), Fault>(Fault::BuildFailed),
    {
        if success {
            Ok(())
        } else {
            Err(Fault::BuildFailed)
        }
    }
}

impl Watchdog {
    /// The counter never passes the threshold, and an instance that was seen
    /// to stop was seen so before the threshold was reached.
    pub open spec fn wf(self) -> bool {
        &&& self.skipped <= self.lost
        &&& self.stopped ==> self.skipped < self.lost
    }

    /// The watchdog at the start of a run.
    pub open spec fn fresh(lost: u64) -> Watchdog {
        Watchdog { skipped: 0, lost, stopped: false }
    }

    /// What is to be done in this state.
    pub open spec fn next(self) -> Directive {
        if self.stopped {
            Directive::Reap
        } else if self.skipped >= self.lost {
            Directive::Kill
        } else {
            Directive::Sleep
        }
    }

    /// The state after one tick at which the liveness cell held `seen`. Once
    /// the watchdog has left its loop, nothing is observed any more.
    pub open spec fn after(self, seen: Option<Instance>) -> Watchdog {
        if self.next() != Directive::Sleep {
            self
        } else {
            match seen {
                Some(Instance::Stopped) => Watchdog { stopped: true, ..self },
                Some(Instance::Running) => Watchdog { skipped: 0, ..self },
                None => Watchdog { skipped: (self.skipped + 1) as u64, ..self },
            }
        }
    }

    /// The state after a sequence of ticks, oldest first.
    pub open spec fn run(self, seen: Seq<Option<Instance>>) -> Watchdog
        decreases seen.len(),
    {
        if seen.len() == 0 {
            self
        } else {
            self.run(seen.drop_last()).after(seen.last())
        }
    }

    /// The classification of a run that has left the watchdog's loop: a
    /// timeout where the threshold was reached, else by the exit status.
    pub open spec fn verdict(self, exit_success: bool) -> Status {
        if self.next() == Directive::Kill {
            Status::Timeout
        } else if exit_success {
            Status::Success
        } else {
            Status::Crashed
        }
    }

    /// A watchdog that gives up after `lost` missed heartbeats in a row.
    pub fn new(lost: u64) -> (watchdog: Watchdog)
        ensures
            watchdog == Watchdog::fresh(lost),
            watchdog.wf(),
    {
        Watchdog { skipped: 0, lost, stopped: false }
    }

    /// What the supervisor has to do now.
    pub fn directive(&self) -> (directive: Directive)
        ensures
            directive == self.next(),
    {
        if self.stopped {
            Directive::Reap
        } else if self.skipped >= self.lost {
            Directive::Kill
        } else {
            Directive::Sleep
        }
    }

    /// Takes in what the liveness cell held after one heartbeat interval of
    /// sleep: a stop ends the loop, a heartbeat clears the counter, and an
    /// empty cell counts as one missed heartbeat.
    pub fn observe(&mut self, seen: Option<Instance>)
        ensures
            *final(self) == old(self).after(seen),
            old(self).wf() ==> final(self).wf(),
    {
        if !self.stopped && self.skipped < self.lost {
            match seen {
                Some(Instance::Stopped) => {
                    self.stopped = true;
                },
                Some(Instance::Running) => {
                    self.skipped = 0;
                },
                None => {
                    self.skipped = self.skipped + 1;
                },
            }
        }
    }

    /// Classifies the run once the loop is left. `exit_success` is the exit
    /// status of the instance after it was waited for; it is not looked at
    /// where the instance had to be killed.
    pub fn classify(&self, exit_success: bool) -> (status: Status)
        ensures
            status == self.verdict(exit_success),
    {
        if !self.stopped && self.skipped >= self.lost {
            Status::Timeout
        } else if exit_success {
            Status::Success
        } else {
            Status::Crashed
        }
    }
}

/// A watchdog that sleeps gives up after exactly as many silent ticks as
/// separate its counter from the threshold: not one tick earlier.
pub proof fn lemma_silence_reaches_threshold(watchdog: Watchdog, ticks: nat)
    requires
        watchdog.wf(),
        !watchdog.stopped,
        ticks <= watchdog.lost - watchdog.skipped,
    ensures
        watchdog.run(silence(ticks)).skipped == watchdog.skipped + ticks,
        watchdog.run(silence(ticks)).lost == watchdog.lost,
        !watchdog.run(silence(ticks)).stopped,
        ticks < watchdog.lost - watchdog.skipped ==> watchdog.run(silence(ticks)).next()
            == Directive::Sleep,
        ticks == watchdog.lost - watchdog.skipped ==> watchdog.run(silence(ticks)).next()
            == Directive::Kill,
    decreases ticks,
{
    if ticks > 0 {
        let shorter = (ticks - 1) as nat;
        lemma_silence_reaches_threshold(watchdog, shorter);
        assert(silence(ticks).drop_last() =~= silence(shorter));
    }
}

/// A heartbeat seen while the watchdog sleeps clears the counter, so that the
/// full threshold of silent ticks is needed again before it gives up.
pub proof fn lemma_heartbeat_restarts_count(watchdog: Watchdog)
    requires
        watchdog.wf(),
        watchdog.next() == Directive::Sleep,
    ensures
        watchdog.after(Some(Instance::Running)) == Watchdog::fresh(watchdog.lost),
        watchdog.after(Some(Instance::Running)).run(silence(watchdog.lost as nat)).next()
            == Directive::Kill,
{
    lemma_silence_reaches_threshold(Watchdog::fresh(watchdog.lost), watchdog.lost as nat);
}

/// An instance seen to stop while the watchdog sleeps is never classified as
/// a timeout, whatever is observed afterwards: its exit status decides.
pub proof fn lemma_stop_is_final(
    watchdog: Watchdog,
    later: Seq<Option<Instance>>,
    exit_success: bool,
)
    requires
        watchdog.wf(),
        watchdog.next() == Directive::Sleep,
    ensures
        watchdog.after(Some(Instance::Stopped)).run(later).next() == Directive::Reap,
        watchdog.after(Some(Instance::Stopped)).run(later).verdict(exit_success) == (if exit_success {
            Status::Success
        } else {
            Status::Crashed
        }),
    decreases later.len(),
{
    if later.len() > 0 {
        lemma_stop_is_final(watchdog, later.drop_last(), exit_success);
    }
}

} // verus!
