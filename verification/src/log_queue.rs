//! Bounded backlog of console lines with backfill-on-subscribe.
//!
//! The queue keeps the last `capacity` lines, evicting the oldest on
//! overflow. A subscriber first receives the backlog snapshot in order;
//! live forwarding of later lines is wiring outside the library.

use vstd::prelude::*;

use crate::text::{log_line_spec, trim_end_spec, LogSource};

verus! {

/// A timestamp rendered by the wall clock, used to prefix queued lines.
///
/// Relies on chrono's `Local::now` and `DateTime::format`: renders the
/// current local wall-clock time as "year-month-day hour:minute:second".
/// Nothing is assumed of the result: it depends on the clock.
#[verifier::external_body]
pub(crate) fn local_timestamp() -> String {
    chrono::Local::now().format("%Y-%m-%d %H:%M:%S").to_string()
}

/// One push into a backlog of bound `cap`: evict the oldest line first
/// when the backlog is full.
pub open spec fn push_model(q: Seq<String>, cap: nat, line: String) -> Seq<String> {
    if q.len() >= cap {
        q.subrange(1, q.len() as int).push(line)
    } else {
        q.push(line)
    }
}

/// `lines` pushed one after the other into backlog `q` of bound `cap`.
pub open spec fn push_all(q: Seq<String>, cap: nat, lines: Seq<String>) -> Seq<String>
    decreases lines.len(),
{
    if lines.len() == 0 {
        q
    } else {
        push_all(push_model(q, cap, lines[0]), cap, lines.drop_first())
    }
}

/// The last `cap` elements of `s`, or all of `s` if it is shorter.
pub open spec fn tail_window(s: Seq<String>, cap: nat) -> Seq<String> {
    if s.len() <= cap {
        s
    } else {
        s.subrange(s.len() - cap, s.len() as int)
    }
}

proof fn lemma_push_all_window(q: Seq<String>, cap: nat, lines: Seq<String>)
    requires
        1 <= cap,
        q.len() <= cap,
    ensures
        push_all(q, cap, lines) == tail_window(q + lines, cap),
    decreases lines.len(),
{
    if lines.len() == 0 {
        assert(q + lines =~= q);
    } else {
        let l0 = lines[0];
        let rest = lines.drop_first();
        let q2 = push_model(q, cap, l0);
        lemma_push_all_window(q2, cap, rest);
        if q.len() < cap {
            assert(q2 + rest =~= q + lines);
        } else {
            let s = q + lines;
            assert(q2 + rest =~= s.subrange(1, s.len() as int));
            let t = s.subrange(1, s.len() as int);
            if t.len() <= cap {
                assert(t =~= s.subrange(s.len() - cap, s.len() as int));
            } else {
                assert(t.subrange(t.len() - cap, t.len() as int) =~= s.subrange(
                    s.len() - cap,
                    s.len() as int,
                ));
            }
        }
    }
}

/// Backlog round trip: pushing `k` lines into a fresh queue of bound `cap`
/// and then subscribing yields exactly those `k` lines in insertion order
/// when `k` is within the bound, and exactly the last `cap` lines — the
/// oldest evicted first — when it is not.
pub proof fn lemma_backlog_round_trip(lines: Seq<String>, cap: nat)
    requires
        1 <= cap,
    ensures
        lines.len() <= cap ==> push_all(Seq::<String>::empty(), cap, lines) == lines,
        lines.len() > cap ==> push_all(Seq::<String>::empty(), cap, lines) == lines.subrange(
            lines.len() - cap,
            lines.len() as int,
        ),
{
    lemma_push_all_window(Seq::<String>::empty(), cap, lines);
    assert(Seq::<String>::empty() + lines =~= lines);
}

/// Bounded ring of the most recent log lines.
pub struct LogQueue {
    capacity: usize,
    cache: Vec<String>,
}

impl View for LogQueue {
    type V = Seq<String>;

    closed spec fn view(&self) -> Seq<String> {
        self.cache@
    }
}

impl LogQueue {
    /// The fixed bound the queue was created with.
    pub closed spec fn cap(self) -> nat {
        self.capacity as nat
    }

    /// The backlog never outgrows the bound, and the bound is positive.
    pub closed spec fn wf(self) -> bool {
        1 <= self.capacity && self.cache@.len() <= self.capacity
    }

    /// An empty queue with the given bound.
    pub fn new(max_size: usize) -> (r: LogQueue)
        requires
            1 <= max_size,
        ensures
            r.wf(),
            r.cap() == max_size,
            r@ == Seq::<String>::empty(),
    {
        LogQueue { capacity: max_size, cache: Vec::new() }
    }

    /// Append a line, evicting the oldest first if the backlog is full.
    pub fn push_data(&mut self, v: String)
        requires
            old(self).wf(),
        ensures
            final(self).wf(),
            final(self).cap() == old(self).cap(),
            final(self)@ == push_model(old(self)@, old(self).cap(), v),
    {
        if self.cache.len() == self.capacity {
            self.cache.remove(0);
            proof {
                assert(old(self)@.remove(0) =~= old(self)@.subrange(1, old(self)@.len() as int));
            }
        }
        self.cache.push(v);
    }

    /// The backlog snapshot a new subscriber replays before going live.
    pub fn subscribe(&self) -> (r: Vec<String>)
        ensures
            r@ == self@,
    {
        let r = self.cache.clone();
        proof {
            assert forall|i: int| 0 <= i < self.cache@.len() implies r@[i] == self.cache@[i] by {
                assert(cloned::<String>(self.cache@[i], r@[i]));
            }
            assert(r@ =~= self.cache@);
        }
        r
    }

    /// Timestamp `text` with the wall clock, tag it with its source and
    /// append it. The clock decides the timestamp, so the contract says
    /// only that some timestamp was spliced into the stored line.
    pub fn push_line(&mut self, source: LogSource, text: &str)
        requires
            old(self).wf(),
        ensures
            final(self).wf(),
            final(self).cap() == old(self).cap(),
            exists|line: String, ts: Seq<char>|
                final(self)@ == #[trigger] push_model(old(self)@, old(self).cap(), line) && line@
                    == #[trigger] log_line_spec(ts, source, trim_end_spec(text@)),
    {
        let ts = local_timestamp();
        let line = crate::text::format_log_line(ts.as_str(), source, text);
        let ghost tsv = ts@;
        let ghost linev = line;
        self.push_data(line);
        proof {
            assert(self@ == push_model(old(self)@, old(self).cap(), linev) && linev@
                == log_line_spec(tsv, source, trim_end_spec(text@)));
        }
    }
}

} // verus!
