//! The log relay: a bounded ring buffer that every log emission is appended
//! to, and the per-session view that periodically drains it.  Entries carry a
//! monotonically increasing sequence id, so the view pulls each line exactly
//! once and loses lines only to eviction.

use vstd::prelude::*;

use crate::text::{contains_str, has_match, is_space_char, trim_str, trimmed};

verus! {

/// How severe a log line is, judged from its text.
#[derive(Clone, Copy, Debug, PartialEq, Eq, Structural)]
pub enum Severity {
    Error,
    Warn,
    Info,
    Debug,
    Other,
}

/// One relayed log line.
#[derive(Clone, Debug)]
pub struct LogLine {
    /// Position of this line in the overall emission order.
    pub seq: u64,
    /// The line's display text, severity marker included.
    pub text: String,
    pub severity: Severity,
}

/// The severity read off a log line's text.
pub open spec fn severity_spec(s: Seq<char>) -> Severity {
    if has_match(s, "ERROR"@) {
        Severity::Error
    } else if has_match(s, "WARN"@) {
        Severity::Warn
    } else if has_match(s, "INFO"@) {
        Severity::Info
    } else if has_match(s, "DEBUG"@) {
        Severity::Debug
    } else {
        Severity::Other
    }
}

/// The marker prepended to a line of the given severity.
pub open spec fn severity_prefix(sev: Severity) -> Seq<char> {
    match sev {
        Severity::Error => "\u{2717} "@,
        Severity::Warn => "\u{26a0} "@,
        Severity::Info => "\u{2713} "@,
        Severity::Debug => "\u{2022} "@,
        Severity::Other => Seq::empty(),
    }
}

/// The display text of a raw line: trimmed, with its severity marker.
pub open spec fn display_text(raw: Seq<char>) -> Seq<char> {
    severity_prefix(severity_spec(trimmed(raw))) + trimmed(raw)
}

/// Judge a line's severity from its text.
pub fn severity_of(line: &str) -> (sev: Severity)
    ensures
        sev == severity_spec(line@),
{
    if contains_str(line, "ERROR") {
        Severity::Error
    } else if contains_str(line, "WARN") {
        Severity::Warn
    } else if contains_str(line, "INFO") {
        Severity::Info
    } else if contains_str(line, "DEBUG") {
        Severity::Debug
    } else {
        Severity::Other
    }
}

fn severity_marker(sev: Severity) -> (s: &'static str)
    ensures
        s@ == severity_prefix(sev),
{
    proof {
        reveal_strlit("\u{2717} ");
        reveal_strlit("\u{26a0} ");
        reveal_strlit("\u{2713} ");
        reveal_strlit("\u{2022} ");
        reveal_strlit("");
    }
    match sev {
        Severity::Error => "\u{2717} ",
        Severity::Warn => "\u{26a0} ",
        Severity::Info => "\u{2713} ",
        Severity::Debug => "\u{2022} ",
        Severity::Other => "",
    }
}

/// A bounded FIFO buffer of log lines, owned by the process and shared by
/// reference between log producers and the session's drain tick.
#[derive(Debug)]
pub struct RingBuffer {
    pub entries: Vec<LogLine>,
    pub capacity: usize,
    /// The sequence id the next appended line will get.
    pub next_seq: u64,
}

/// One FIFO step: append `x`, evicting the oldest entry when full.
pub open spec fn ring_step(entries: Seq<LogLine>, cap: int, x: LogLine) -> Seq<LogLine> {
    if entries.len() < cap {
        entries.push(x)
    } else {
        entries.drop_first().push(x)
    }
}

/// All of `xs` absorbed in order, starting from `entries`.
pub open spec fn ring_step_all(entries: Seq<LogLine>, cap: int, xs: Seq<LogLine>) -> Seq<LogLine>
    decreases xs.len(),
{
    if xs.len() == 0 {
        entries
    } else {
        ring_step_all(ring_step(entries, cap, xs[0]), cap, xs.drop_first())
    }
}

impl RingBuffer {
    /// The buffer never outgrows its capacity, and entry sequence ids are
    /// consecutive, ending just before `next_seq`.
    pub open spec fn wf(self) -> bool {
        &&& self.capacity >= 1
        &&& self.entries@.len() <= self.capacity
        &&& self.entries@.len() <= self.next_seq
        &&& forall|i: int|
            0 <= i < self.entries@.len() ==> self.entries@[i].seq == self.next_seq
                - self.entries@.len() + i
    }

    pub fn new(capacity: usize) -> (rb: RingBuffer)
        requires
            capacity >= 1,
        ensures
            rb.wf(),
            rb.capacity == capacity,
            rb.entries@.len() == 0,
            rb.next_seq == 0,
    {
        RingBuffer { entries: Vec::new(), capacity, next_seq: 0 }
    }

    /// Append one line, evicting the oldest when the buffer is full.
    pub fn push_line(&mut self, text: String, severity: Severity)
        requires
            old(self).wf(),
            old(self).next_seq < u64::MAX,
        ensures
            final(self).wf(),
            final(self).capacity == old(self).capacity,
            final(self).next_seq == old(self).next_seq + 1,
            final(self).entries@ == ring_step(
                old(self).entries@,
                old(self).capacity as int,
                LogLine { seq: old(self).next_seq, text: text, severity: severity },
            ),
    {
        if self.entries.len() == self.capacity {
            self.entries.remove(0);
        }
        let line = LogLine { seq: self.next_seq, text, severity };
        self.entries.push(line);
        self.next_seq = self.next_seq + 1;
    }

    /// Relay one raw log emission: trim it, skip it when blank, and
    /// otherwise append it tagged and marked with its severity.
    pub fn relay_line(&mut self, raw: &str)
        requires
            old(self).wf(),
            old(self).next_seq < u64::MAX,
        ensures
            final(self).wf(),
            final(self).capacity == old(self).capacity,
            trimmed(raw@).len() == 0 ==> *final(self) == *old(self),
            trimmed(raw@).len() > 0 ==> {
                &&& final(self).next_seq == old(self).next_seq + 1
                &&& final(self).entries@ == ring_step(
                    old(self).entries@,
                    old(self).capacity as int,
                    LogLine {
                        seq: old(self).next_seq,
                        text: final(self).entries@.last().text,
                        severity: severity_spec(trimmed(raw@)),
                    },
                )
                &&& final(self).entries@.last().text@ == display_text(raw@)
            },
    {
        let t = trim_str(raw);
        if t.as_str().unicode_len() == 0 {
            return ;
        }
        let sev = severity_of(t.as_str());
        let mut text = severity_marker(sev).to_owned();
        text.append(t.as_str());
        self.push_line(text, sev);
    }
}

proof fn lemma_ring_step_all_suffix(entries: Seq<LogLine>, cap: int, xs: Seq<LogLine>)
    requires
        cap >= 1,
        entries.len() <= cap,
    ensures
        ring_step_all(entries, cap, xs) == if entries.len() + xs.len() <= cap {
            entries + xs
        } else {
            (entries + xs).skip(entries.len() + xs.len() - cap)
        },
    decreases xs.len(),
{
    if xs.len() == 0 {
        assert(entries + xs =~= entries);
    } else {
        let x = xs[0];
        let rest = xs.drop_first();
        let stepped = ring_step(entries, cap, x);
        lemma_ring_step_all_suffix(stepped, cap, rest);
        if entries.len() < cap {
            assert(stepped + rest =~= entries + xs);
        } else {
            assert(stepped + rest =~= (entries + xs).skip(1));
            if stepped.len() + rest.len() <= cap {
                assert(stepped.len() == cap && rest.len() == 0);
                assert((entries + xs).skip(1) =~= (entries + xs).skip(
                    entries.len() + xs.len() - cap,
                ));
            } else {
                assert((entries + xs).skip(1).skip(stepped.len() + rest.len() - cap) =~= (entries
                    + xs).skip(entries.len() + xs.len() - cap));
            }
        }
    }
}

/// Law of the ring buffer: after a buffer of capacity `cap` absorbs the
/// lines `xs`, starting empty, it holds exactly the lines of `xs` when they
/// fit, and otherwise exactly the last `cap` of them, in their original
/// relative order.
pub proof fn lemma_ring_buffer_keeps_last_capacity(cap: int, xs: Seq<LogLine>)
    requires
        cap >= 1,
    ensures
        xs.len() <= cap ==> ring_step_all(Seq::empty(), cap, xs) == xs,
        xs.len() >= cap ==> ring_step_all(Seq::empty(), cap, xs) == xs.skip(xs.len() - cap),
{
    lemma_ring_step_all_suffix(Seq::empty(), cap, xs);
    if xs.len() <= cap {
        assert(Seq::empty() + xs =~= xs);
    } else {
        assert((Seq::empty() + xs).skip(xs.len() - cap) =~= xs.skip(xs.len() - cap));
    }
}

/// What draining `rb` does to a log view: exactly the entries not yet seen
/// are appended, in order, and then the oldest lines are trimmed to the
/// view's bound.
pub open spec fn sync_post(pre: LogView, post: LogView, rb: RingBuffer) -> bool {
    let unseen = if rb.next_seq - pre.seen_upto <= rb.entries@.len() {
        rb.next_seq - pre.seen_upto
    } else {
        rb.entries@.len() as int
    };
    let pulled = rb.entries@.skip(rb.entries@.len() - unseen).map_values(|e: LogLine| e.text);
    let all = pre.lines@ + pulled;
    &&& post.max_lines == pre.max_lines
    &&& post.seen_upto == rb.next_seq
    &&& post.lines@ == if all.len() <= pre.max_lines {
        all
    } else {
        all.skip(all.len() - pre.max_lines)
    }
}

/// The session's local view of the log stream.
#[derive(Debug)]
pub struct LogView {
    /// The lines drained so far, oldest first, at most `max_lines` of them.
    pub lines: Vec<String>,
    /// All buffer entries with sequence id below this have been drained.
    pub seen_upto: u64,
    pub max_lines: usize,
}

impl LogView {
    pub open spec fn wf(self) -> bool {
        &&& self.max_lines >= 1
        &&& self.lines@.len() <= self.max_lines
    }

    pub fn new(max_lines: usize) -> (v: LogView)
        requires
            max_lines >= 1,
        ensures
            v.wf(),
            v.lines@.len() == 0,
            v.seen_upto == 0,
            v.max_lines == max_lines,
    {
        LogView { lines: Vec::new(), seen_upto: 0, max_lines }
    }

    /// Drain every buffer entry not yet seen into the local view, in order,
    /// then trim the view's oldest lines down to its own bound.  No line is
    /// pulled twice, and none is missed except those already evicted from
    /// the buffer.
    pub fn sync_from(&mut self, rb: &RingBuffer)
        requires
            old(self).wf(),
            rb.wf(),
            old(self).seen_upto <= rb.next_seq,
        ensures
            final(self).wf(),
            sync_post(*old(self), *final(self), *rb),
    {
        let len = self.lines.len();
        let rb_len = rb.entries.len();
        let unseen64: u64 = rb.next_seq - self.seen_upto;
        let unseen: usize = if unseen64 <= rb_len as u64 {
            unseen64 as usize
        } else {
            rb_len
        };
        let ghost pulled = rb.entries@.skip(rb_len - unseen).map_values(|e: LogLine| e.text);
        let start = rb_len - unseen;
        let mut i = start;
        while i < rb_len
            invariant
                start <= i <= rb_len,
                rb_len == rb.entries@.len(),
                pulled == rb.entries@.skip(start as int).map_values(|e: LogLine| e.text),
                self.lines@ == old(self).lines@ + pulled.take(i - start),
                self.seen_upto == old(self).seen_upto,
                self.max_lines == old(self).max_lines,
            decreases rb_len - i,
        {
            self.lines.push(rb.entries[i].text.clone());
            proof {
                assert(pulled[i - start] == rb.entries@[i as int].text);
                assert(old(self).lines@ + pulled.take(i + 1 - start) =~= (old(self).lines@
                    + pulled.take(i - start)).push(rb.entries@[i as int].text));
            }
            i = i + 1;
        }
        proof {
            assert(pulled.take(rb_len - start) =~= pulled);
        }
        self.seen_upto = rb.next_seq;
        let total = self.lines.len();
        if total > self.max_lines {
            let excess = total - self.max_lines;
            let ghost all = self.lines@;
            let mut j: usize = 0;
            while j < excess
                invariant
                    0 <= j <= excess,
                    excess == all.len() - self.max_lines,
                    self.lines@ == all.skip(j as int),
                    self.seen_upto == rb.next_seq,
                    self.max_lines == old(self).max_lines,
                decreases excess - j,
            {
                self.lines.remove(0);
                proof {
                    assert(all.skip(j as int).drop_first() =~= all.skip(j + 1));
                }
                j = j + 1;
            }
        }
    }
}

} // verus!
