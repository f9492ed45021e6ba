//! Collection of a worker's output events for one call.
use vstd::prelude::*;

verus! {

/// One event from a running worker.
#[derive(Debug, Clone, PartialEq, Eq)]
pub enum Event {
    Stdout(Vec<u8>),
    Stderr(Vec<u8>),
    Terminated(Option<i32>),
    /// Any other notice from the transport; it carries no output.
    Other,
}

/// The two output buffers of one call, and whether the worker has terminated.
#[derive(Debug, Clone, PartialEq, Eq)]
pub struct Capture {
    pub stdout: Vec<u8>,
    pub stderr: Vec<u8>,
    pub terminated: bool,
}

/// The mathematical form of a [`Capture`].
pub struct CaptureView {
    pub stdout: Seq<u8>,
    pub stderr: Seq<u8>,
    pub terminated: bool,
}

impl View for Capture {
    type V = CaptureView;

    open spec fn view(&self) -> CaptureView {
        CaptureView { stdout: self.stdout@, stderr: self.stderr@, terminated: self.terminated }
    }
}

/// A capture before any event.
pub open spec fn empty_capture() -> CaptureView {
    CaptureView { stdout: Seq::empty(), stderr: Seq::empty(), terminated: false }
}

/// The effect of one event: output is appended to its own buffer until the
/// worker terminates; after that nothing changes.
pub open spec fn step(c: CaptureView, e: Event) -> CaptureView {
    if c.terminated {
        c
    } else {
        match e {
            Event::Stdout(b) => CaptureView {
                stdout: c.stdout + b@,
                stderr: c.stderr,
                terminated: false,
            },
            Event::Stderr(b) => CaptureView {
                stdout: c.stdout,
                stderr: c.stderr + b@,
                terminated: false,
            },
            Event::Terminated(_) => CaptureView {
                stdout: c.stdout,
                stderr: c.stderr,
                terminated: true,
            },
            Event::Other => c,
        }
    }
}

/// The capture after a whole sequence of events, in arrival order.
pub open spec fn replay(events: Seq<Event>) -> CaptureView
    decreases events.len(),
{
    if events.len() == 0 {
        empty_capture()
    } else {
        step(replay(events.drop_last()), events.last())
    }
}

/// Output buffers are append-only: what a capture holds after some events
/// begins what it holds after any further events. Once the worker has
/// terminated, further events change nothing.
pub proof fn lemma_append_only_then_frozen(events: Seq<Event>, more: Seq<Event>)
    ensures
        replay(events).stdout.len() <= replay(events + more).stdout.len(),
        replay(events + more).stdout.subrange(0, replay(events).stdout.len() as int)
            == replay(events).stdout,
        replay(events).stderr.len() <= replay(events + more).stderr.len(),
        replay(events + more).stderr.subrange(0, replay(events).stderr.len() as int)
            == replay(events).stderr,
        replay(events).terminated ==> replay(events + more) == replay(events),
    decreases more.len(),
{
    if more.len() == 0 {
        assert(events + more =~= events);
        assert(replay(events).stdout.subrange(0, replay(events).stdout.len() as int)
            =~= replay(events).stdout);
        assert(replay(events).stderr.subrange(0, replay(events).stderr.len() as int)
            =~= replay(events).stderr);
    } else {
        lemma_append_only_then_frozen(events, more.drop_last());
        assert((events + more).drop_last() =~= events + more.drop_last());
        let before = replay(events).stdout;
        let mid = replay(events + more.drop_last());
        let after = replay(events + more);
        assert(after.stdout.subrange(0, before.len() as int) =~= before) by {
            assert(mid.stdout.subrange(0, before.len() as int) == before);
            assert(after.stdout.subrange(0, mid.stdout.len() as int) =~= mid.stdout);
        }
        let b2 = replay(events).stderr;
        assert(after.stderr.subrange(0, b2.len() as int) =~= b2) by {
            assert(mid.stderr.subrange(0, b2.len() as int) == b2);
            assert(after.stderr.subrange(0, mid.stderr.len() as int) =~= mid.stderr);
        }
    }
}

impl Capture {
    /// Empty buffers, for a worker that has not terminated.
    pub fn new() -> (r: Capture)
        ensures
            r@ == empty_capture(),
    {
        Capture { stdout: Vec::new(), stderr: Vec::new(), terminated: false }
    }

    /// Takes one event; returns whether the worker has terminated, so that the
    /// caller stops reading events.
    pub fn on_event(&mut self, event: Event) -> (done: bool)
        ensures
            final(self)@ == step(old(self)@, event),
            done == final(self)@.terminated,
    {
        if self.terminated {
            return true;
        }
        match event {
            Event::Stdout(mut bytes) => {
                self.stdout.append(&mut bytes);
            },
            Event::Stderr(mut bytes) => {
                self.stderr.append(&mut bytes);
            },
            Event::Terminated(_) => {
                self.terminated = true;
            },
            Event::Other => {},
        }
        self.terminated
    }
}

/// Feeds a whole sequence of events, in order, to a fresh capture.
pub fn capture_all(events: Vec<Event>) -> (r: Capture)
    ensures
        r@ == replay(events@),
{
    let mut capture = Capture::new();
    let mut rest = events;
    let ghost all = rest@;
    let ghost mut k: int = 0;
    while rest.len() > 0
        invariant
            0 <= k <= all.len(),
            rest@ == all.subrange(k, all.len() as int),
            capture@ == replay(all.subrange(0, k)),
        decreases rest.len(),
    {
        let event = rest.remove(0);
        proof {
            assert(all.subrange(0, k + 1).drop_last() =~= all.subrange(0, k));
            assert(all.subrange(k + 1, all.len() as int) =~= rest@);
        }
        capture.on_event(event);
        proof {
            k = k + 1;
        }
    }
    assert(all.subrange(0, k) =~= all);
    capture
}

} // verus!
