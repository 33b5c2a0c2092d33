//! Deciding when to tell the front end whether developer mode is on: the
//! active window is polled, and a report goes out whenever the answer changes
//! and, to resynchronise, at least every two seconds; polling ends once a
//! report cannot be delivered.

use vstd::prelude::*;

verus! {

/// How often the active window is polled, in milliseconds.
pub const IDE_POLL_INTERVAL_MS: u64 = 500;

/// A report is repeated once this many milliseconds have passed since the
/// last one, even when nothing changed.
pub const IDE_RESYNC_INTERVAL_MS: u64 = 2000;

/// The next state `(last reported answer, time of the last report)` and
/// whether to report, after observing `ide` at time `now_ms`.
pub open spec fn spec_watch_step(
    last_ide: Option<bool>,
    last_report_ms: u64,
    ide: bool,
    now_ms: u64,
) -> (Option<bool>, u64, bool) {
    let elapsed: int = if now_ms >= last_report_ms {
        now_ms - last_report_ms
    } else {
        0
    };
    if last_ide != Some(ide) || elapsed >= IDE_RESYNC_INTERVAL_MS {
        (Some(ide), now_ms, true)
    } else {
        (last_ide, last_report_ms, false)
    }
}

/// What the watcher remembers between polls: the last answer it reported,
/// when (in milliseconds on a clock that starts with the watcher), and whether
/// it has stopped because a report could not be delivered.
pub struct IdeWatch {
    last_ide: Option<bool>,
    last_report_ms: u64,
    stopped: bool,
}

impl IdeWatch {
    /// The last answer reported, if any.
    pub closed spec fn spec_last_ide(self) -> Option<bool> {
        self.last_ide
    }

    /// The time of the last report, or of the start when there was none.
    pub closed spec fn spec_last_report_ms(self) -> u64 {
        self.last_report_ms
    }

    /// Whether the watcher has stopped polling.
    pub closed spec fn spec_stopped(self) -> bool {
        self.stopped
    }

    /// A running watcher that has reported nothing, started at time zero.
    pub fn new() -> (r: IdeWatch)
        ensures
            r.spec_last_ide() == None::<bool>,
            r.spec_last_report_ms() == 0,
            !r.spec_stopped(),
    {
        IdeWatch { last_ide: None, last_report_ms: 0, stopped: false }
    }

    /// Whether polling should go on: until a report fails to be delivered.
    pub fn is_running(&self) -> (r: bool)
        ensures
            r == !self.spec_stopped(),
    {
        !self.stopped
    }

    /// Records whether a report was delivered; an undelivered report stops
    /// the watcher for good. Returns whether polling goes on.
    pub fn report_delivered(&mut self, delivered: bool) -> (keep_polling: bool)
        ensures
            final(self).spec_stopped() == (old(self).spec_stopped() || !delivered),
            final(self).spec_last_ide() == old(self).spec_last_ide(),
            final(self).spec_last_report_ms() == old(self).spec_last_report_ms(),
            keep_polling == !final(self).spec_stopped(),
    {
        if !delivered {
            self.stopped = true;
        }
        !self.stopped
    }

    /// The last answer reported, if any.
    pub fn last_ide(&self) -> (r: Option<bool>)
        ensures
            r == self.spec_last_ide(),
    {
        self.last_ide
    }

    /// Observes whether an IDE is active at time `now_ms` and decides whether
    /// to report it: when the answer differs from the last report, or when
    /// the resynchronisation interval has passed since the last report. A
    /// stopped watcher reports nothing and stays as it is.
    pub fn observe(&mut self, ide: bool, now_ms: u64) -> (report: bool)
        ensures
            final(self).spec_stopped() == old(self).spec_stopped(),
            old(self).spec_stopped() ==> !report && final(self).spec_last_ide() == old(
                self,
            ).spec_last_ide() && final(self).spec_last_report_ms() == old(
                self,
            ).spec_last_report_ms(),
            !old(self).spec_stopped() ==> (
                final(self).spec_last_ide(),
                final(self).spec_last_report_ms(),
                report,
            ) == spec_watch_step(
                old(self).spec_last_ide(),
                old(self).spec_last_report_ms(),
                ide,
                now_ms,
            ),
    {
        if self.stopped {
            return false;
        }
        let elapsed: u64 = now_ms.saturating_sub(self.last_report_ms);
        let changed: bool = match self.last_ide {
            Some(last) => last != ide,
            None => true,
        };
        if changed || elapsed >= IDE_RESYNC_INTERVAL_MS {
            self.last_ide = Some(ide);
            self.last_report_ms = now_ms;
            true
        } else {
            false
        }
    }
}

/// A report records the time it was made, and a step that does not report
/// keeps the time of the previous report.
pub proof fn lemma_watch_report_records_its_time(
    last_ide: Option<bool>,
    last_report_ms: u64,
    ide: bool,
    now_ms: u64,
)
    ensures
        spec_watch_step(last_ide, last_report_ms, ide, now_ms).2 ==> spec_watch_step(
            last_ide,
            last_report_ms,
            ide,
            now_ms,
        ).1 == now_ms,
        !spec_watch_step(last_ide, last_report_ms, ide, now_ms).2 ==> spec_watch_step(
            last_ide,
            last_report_ms,
            ide,
            now_ms,
        ).1 == last_report_ms,
{
}

/// After a report, the same answer is reported again as soon as the
/// resynchronisation interval has passed since that report, and not before.
pub proof fn lemma_watch_resends_interval_after_each_report(
    last_ide: Option<bool>,
    last_report_ms: u64,
    ide: bool,
    first_ms: u64,
    second_ms: u64,
)
    requires
        spec_watch_step(last_ide, last_report_ms, ide, first_ms).2,
        first_ms <= second_ms,
    ensures
        ({
            let (l1, t1, _) = spec_watch_step(last_ide, last_report_ms, ide, first_ms);
            spec_watch_step(l1, t1, ide, second_ms).2 <==> second_ms - first_ms
                >= IDE_RESYNC_INTERVAL_MS
        }),
{
}

/// After any observation the watcher remembers the answer just observed.
pub proof fn lemma_watch_remembers_observation(
    last_ide: Option<bool>,
    last_report_ms: u64,
    ide: bool,
    now_ms: u64,
)
    ensures
        spec_watch_step(last_ide, last_report_ms, ide, now_ms).0 == Some(ide),
{
}

/// A change of answer is always reported.
pub proof fn lemma_watch_reports_changes(
    last_ide: Option<bool>,
    last_report_ms: u64,
    ide: bool,
    now_ms: u64,
)
    requires
        last_ide != Some(ide),
    ensures
        spec_watch_step(last_ide, last_report_ms, ide, now_ms).2,
{
}

/// The first observation is always reported.
pub proof fn lemma_watch_reports_first_observation(ide: bool, now_ms: u64)
    ensures
        spec_watch_step(None, 0, ide, now_ms).2,
{
}

/// Once the resynchronisation interval has passed since the last report, the
/// next observation is reported whatever it is.
pub proof fn lemma_watch_resynchronises(
    last_ide: Option<bool>,
    last_report_ms: u64,
    ide: bool,
    now_ms: u64,
)
    requires
        now_ms >= last_report_ms + IDE_RESYNC_INTERVAL_MS,
    ensures
        spec_watch_step(last_ide, last_report_ms, ide, now_ms).2,
{
}

/// An unchanged answer observed within the resynchronisation interval after a
/// report is not reported again, and the state stays as it was.
pub proof fn lemma_watch_quiet_when_stable(
    last_ide: Option<bool>,
    last_report_ms: u64,
    ide: bool,
    first_ms: u64,
    second_ms: u64,
)
    requires
        spec_watch_step(last_ide, last_report_ms, ide, first_ms).2,
        first_ms <= second_ms < first_ms + IDE_RESYNC_INTERVAL_MS,
    ensures
        ({
            let (l1, t1, _) = spec_watch_step(last_ide, last_report_ms, ide, first_ms);
            let (l2, t2, report) = spec_watch_step(l1, t1, ide, second_ms);
            !report && l2 == l1 && t2 == t1
        }),
{
}

} // verus!
