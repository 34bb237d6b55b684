//! Streaming parser that finds live frames in an arbitrary byte stream.
//!
//! A start byte always restarts framing; the byte after it is taken as the
//! declared payload length; a frame is decoded when an end byte arrives and
//! exactly `declared length + 5` bytes have been gathered.

use vstd::prelude::*;
use crate::codec::{live_frame, live_payload, live_checksum, lemma_live_round_trip, Message, START_BYTE, END_BYTE};

verus! {

/// Largest number of bytes gathered before the accumulator starts over.
pub const ACC_CAPACITY: usize = 256;

/// Mathematical state of the parser.
pub struct ParserView {
    pub acc: Seq<u8>,
    pub start_flag: bool,
    pub declared_len: Option<u8>,
}

/// What one byte did.
pub enum StepView {
    Pending,
    Rejected,
    Decoded(Seq<u8>),
}

pub open spec fn initial_view() -> ParserView {
    ParserView { acc: Seq::empty(), start_flag: false, declared_len: None }
}

/// Whether feeding `b` in state `s` ends a candidate frame.
pub open spec fn attempts(s: ParserView, b: u8) -> bool {
    let dl = if s.start_flag { Some(b) } else { s.declared_len };
    let acc0 = if b == START_BYTE { Seq::empty() } else { s.acc };
    let acc1 = if acc0.len() >= ACC_CAPACITY { Seq::empty() } else { acc0 };
    let count = acc1.len() + 1;
    b == END_BYTE && count > 2 && match dl {
        Some(l) => l as int + 5 == count,
        None => false,
    }
}

/// The state after `b`, and what `b` did.
pub open spec fn step(s: ParserView, b: u8) -> (ParserView, StepView) {
    let dl = if s.start_flag { Some(b) } else { s.declared_len };
    let flag = b == START_BYTE;
    let acc0 = if b == START_BYTE { Seq::empty() } else { s.acc };
    let acc1 = if acc0.len() >= ACC_CAPACITY { Seq::empty() } else { acc0 };
    let acc = acc1.push(b);
    if attempts(s, b) {
        let ev = match live_payload(acc) {
            Some(p) => StepView::Decoded(p),
            None => StepView::Rejected,
        };
        (ParserView { acc: Seq::empty(), start_flag: flag, declared_len: dl }, ev)
    } else {
        (ParserView { acc, start_flag: flag, declared_len: dl }, StepView::Pending)
    }
}

/// The state after `bytes`, and what each byte did.
pub open spec fn run(s: ParserView, bytes: Seq<u8>) -> (ParserView, Seq<StepView>)
    decreases bytes.len(),
{
    if bytes.len() == 0 {
        (s, Seq::empty())
    } else {
        let (s1, evs) = run(s, bytes.drop_last());
        let (s2, ev) = step(s1, bytes.last());
        (s2, evs.push(ev))
    }
}

/// What one byte did, with a decoded payload.
pub enum ParseStep {
    Pending,
    Rejected,
    Decoded(Vec<u8>),
}

impl ParseStep {
    pub open spec fn view(&self) -> StepView {
        match self {
            ParseStep::Pending => StepView::Pending,
            ParseStep::Rejected => StepView::Rejected,
            ParseStep::Decoded(p) => StepView::Decoded(p@),
        }
    }
}

pub struct StreamParser {
    pub acc: Vec<u8>,
    pub start_flag: bool,
    pub declared_len: Option<u8>,
}

impl StreamParser {
    pub open spec fn view(&self) -> ParserView {
        ParserView { acc: self.acc@, start_flag: self.start_flag, declared_len: self.declared_len }
    }

    pub open spec fn wf(&self) -> bool {
        self.acc@.len() <= ACC_CAPACITY
    }

    pub fn new() -> (r: StreamParser)
        ensures
            r.view() == initial_view(),
            r.wf(),
    {
        StreamParser { acc: Vec::new(), start_flag: false, declared_len: None }
    }

    /// Feeds one byte.
    pub fn push_byte(&mut self, b: u8) -> (r: ParseStep)
        requires
            old(self).wf(),
        ensures
            final(self).wf(),
            (final(self).view(), r.view()) == step(old(self).view(), b),
    {
        let ghost s0 = self.view();
        if self.start_flag {
            self.declared_len = Some(b);
            self.start_flag = false;
        }
        if b == START_BYTE {
            self.acc = Vec::new();
            self.start_flag = true;
        }
        if self.acc.len() >= ACC_CAPACITY {
            self.acc = Vec::new();
        }
        self.acc.push(b);
        let count = self.acc.len();
        let attempt = match self.declared_len {
            Some(l) => b == END_BYTE && count > 2 && l as usize + 5 == count,
            None => false,
        };
        assert(attempt == attempts(s0, b));
        if attempt {
            let r = match Message::get_message(self.acc.as_slice()) {
                Some(p) => ParseStep::Decoded(p),
                None => ParseStep::Rejected,
            };
            self.acc = Vec::new();
            r
        } else {
            ParseStep::Pending
        }
    }

    /// Feeds a run of bytes and reports what each byte did.
    pub fn feed(&mut self, bytes: &[u8]) -> (r: Vec<ParseStep>)
        requires
            old(self).wf(),
        ensures
            final(self).wf(),
            (final(self).view(), r@.map_values(|e: ParseStep| e.view())) == run(
                old(self).view(),
                bytes@,
            ),
    {
        let ghost s0 = self.view();
        let mut out: Vec<ParseStep> = Vec::new();
        let mut i: usize = 0;
        while i < bytes.len()
            invariant
                0 <= i <= bytes@.len(),
                self.wf(),
                (self.view(), out@.map_values(|e: ParseStep| e.view())) == run(
                    s0,
                    bytes@.subrange(0, i as int),
                ),
            decreases bytes.len() - i,
        {
            let ghost before = out@;
            let ev = self.push_byte(bytes[i]);
            out.push(ev);
            proof {
                assert(bytes@.subrange(0, i + 1).drop_last() == bytes@.subrange(0, i as int));
                assert(out@.map_values(|e: ParseStep| e.view()) == before.map_values(
                    |e: ParseStep| e.view(),
                ).push(ev.view()));
            }
            i = i + 1;
        }
        proof {
            assert(bytes@.subrange(0, bytes@.len() as int) == bytes@);
        }
        out
    }

    /// Feeds a run of bytes and returns the payloads of the frames decoded.
    pub fn feed_payloads(&mut self, bytes: &[u8]) -> (r: Vec<Vec<u8>>)
        requires
            old(self).wf(),
        ensures
            final(self).wf(),
            final(self).view() == run(old(self).view(), bytes@).0,
            r@.map_values(|p: Vec<u8>| p@) == decoded_payloads(run(old(self).view(), bytes@).1),
    {
        let steps = self.feed(bytes);
        let ghost evs = steps@.map_values(|e: ParseStep| e.view());
        let mut out: Vec<Vec<u8>> = Vec::new();
        let mut i: usize = 0;
        while i < steps.len()
            invariant
                0 <= i <= steps@.len(),
                evs == steps@.map_values(|e: ParseStep| e.view()),
                out@.map_values(|p: Vec<u8>| p@) == decoded_payloads(evs.subrange(0, i as int)),
            decreases steps.len() - i,
        {
            let ghost before = out@;
            proof {
                assert(evs.subrange(0, i + 1).drop_last() == evs.subrange(0, i as int));
            }
            match &steps[i] {
                ParseStep::Decoded(p) => {
                    out.push(p.clone());
                    proof {
                        assert(out@.map_values(|p: Vec<u8>| p@) == before.map_values(
                            |p: Vec<u8>| p@,
                        ).push(p@));
                    }
                },
                _ => {},
            }
            i = i + 1;
        }
        proof {
            assert(evs.subrange(0, evs.len() as int) == evs);
        }
        out
    }
}

/// The payloads decoded, in order.
pub open spec fn decoded_payloads(evs: Seq<StepView>) -> Seq<Seq<u8>>
    decreases evs.len(),
{
    if evs.len() == 0 {
        Seq::empty()
    } else {
        let rest = decoded_payloads(evs.drop_last());
        match evs.last() {
            StepView::Decoded(p) => rest.push(p),
            _ => rest,
        }
    }
}

/// No byte of `p` is a start byte.
pub open spec fn no_start_byte(p: Seq<u8>) -> bool {
    forall|i: int| 0 <= i < p.len() ==> p[i] != START_BYTE
}

/// From a fresh parser, a stream without start bytes never ends a candidate
/// frame: no length is ever declared, so no decode is ever attempted.
pub proof fn lemma_no_start_no_decode(bytes: Seq<u8>)
    requires
        no_start_byte(bytes),
    ensures
        run(initial_view(), bytes).0.declared_len is None,
        !run(initial_view(), bytes).0.start_flag,
        forall|i: int|
            0 <= i < bytes.len() ==> #[trigger] run(initial_view(), bytes).1[i] is Pending,
        run(initial_view(), bytes).1.len() == bytes.len(),
    decreases bytes.len(),
{
    if bytes.len() > 0 {
        let prefix = bytes.drop_last();
        assert(no_start_byte(prefix)) by {
            assert forall|i: int| 0 <= i < prefix.len() implies prefix[i] != START_BYTE by {
                assert(prefix[i] == bytes[i]);
            }
        }
        lemma_no_start_no_decode(prefix);
        let (s1, evs) = run(initial_view(), prefix);
        assert(bytes.last() == bytes[bytes.len() - 1]);
        assert(!attempts(s1, bytes.last()));
        let evs2 = run(initial_view(), bytes).1;
        assert forall|i: int| 0 <= i < bytes.len() implies #[trigger] evs2[i] is Pending by {
            if i < prefix.len() {
                assert(evs2[i] == evs[i]);
            }
        }
    }
}

proof fn lemma_frame_prefix(s: ParserView, p: Seq<u8>, k: int)
    requires
        s.acc.len() <= ACC_CAPACITY,
        p.len() <= 251,
        no_start_byte(p),
        1 <= k <= live_frame(p).len(),
    ensures
        ({
            let f = live_frame(p);
            let (sk, evs) = run(s, f.subrange(0, k));
            &&& evs.len() == k
            &&& k == 1 ==> sk.acc == seq![START_BYTE] && sk.start_flag
            &&& 2 <= k < f.len() ==> sk.acc == f.subrange(0, k) && !sk.start_flag
                && sk.declared_len == Some(p.len() as u8) && evs.last() is Pending
            &&& k == f.len() ==> evs.last() == StepView::Decoded(p) && sk.acc.len() == 0
        }),
    decreases k,
{
    let f = live_frame(p);
    let n = f.len();
    let l = p.len();
    assert(n == l + 5);
    assert(f[0] == START_BYTE);
    assert(f[1] as int == l);
    assert(f.subrange(0, k).drop_last() == f.subrange(0, k - 1));
    assert(f.subrange(0, k).last() == f[k - 1]);
    if k == 1 {
        assert(f.subrange(0, 0).len() == 0);
        assert(run(s, f.subrange(0, 0)) == (s, Seq::<StepView>::empty()));
        assert(seq![START_BYTE] == Seq::<u8>::empty().push(START_BYTE));
    } else {
        lemma_frame_prefix(s, p, k - 1);
        let (sk1, evs1) = run(s, f.subrange(0, k - 1));
        let b = f[k - 1];
        let (hi, lo) = live_checksum(p);
        if 2 <= k - 1 < l + 2 {
            assert(b == p[k - 3]);
        } else if k - 1 == l + 2 {
            assert(b == hi);
        } else if k - 1 == l + 3 {
            assert(b == lo);
        }
        assert(b != START_BYTE);
        if k == 2 {
            assert(sk1.acc.push(b) == f.subrange(0, 2));
        } else {
            assert(sk1.acc.push(b) == f.subrange(0, k));
        }
        if k == n {
            assert(f.subrange(0, k) == f);
            lemma_live_round_trip(p);
        }
    }
}

/// Feeding the live frame of a payload, from any state whatever bytes came
/// before (even half a frame), decodes exactly that payload at the frame's
/// last byte, provided no byte of the payload is a start byte and the
/// frame fits the accumulator.
pub proof fn lemma_resync(s: ParserView, p: Seq<u8>)
    requires
        s.acc.len() <= ACC_CAPACITY,
        p.len() <= 251,
        no_start_byte(p),
    ensures
        run(s, live_frame(p)).1.last() == StepView::Decoded(p),
        run(s, live_frame(p)).1.len() == live_frame(p).len(),
        run(s, live_frame(p)).0.acc.len() == 0,
{
    let f = live_frame(p);
    lemma_frame_prefix(s, p, f.len() as int);
    assert(f.subrange(0, f.len() as int) == f);
}

/// A fresh parser fed the live frame of a payload decodes that payload.
pub proof fn lemma_parser_round_trip(p: Seq<u8>)
    requires
        p.len() <= 251,
        no_start_byte(p),
    ensures
        decoded_payloads(run(initial_view(), live_frame(p)).1) == seq![p],
{
    let f = live_frame(p);
    lemma_resync(initial_view(), p);
    lemma_frame_prefix(initial_view(), p, f.len() - 1);
    lemma_decoded_prefix_empty(initial_view(), p, f.len() - 1);
    assert(f.subrange(0, f.len() as int) == f);
    let evs = run(initial_view(), f).1;
    assert(evs.drop_last() == run(initial_view(), f.subrange(0, f.len() - 1)).1) by {
        assert(f.drop_last() == f.subrange(0, f.len() - 1));
    }
}

proof fn lemma_decoded_prefix_empty(s: ParserView, p: Seq<u8>, k: int)
    requires
        s.acc.len() <= ACC_CAPACITY,
        p.len() <= 251,
        no_start_byte(p),
        0 <= k < live_frame(p).len(),
    ensures
        decoded_payloads(run(s, live_frame(p).subrange(0, k)).1) == Seq::<Seq<u8>>::empty(),
    decreases k,
{
    let f = live_frame(p);
    if k == 0 {
        assert(f.subrange(0, 0).len() == 0);
    } else {
        lemma_decoded_prefix_empty(s, p, k - 1);
        lemma_frame_prefix(s, p, k);
        assert(f.subrange(0, k).drop_last() == f.subrange(0, k - 1));
        let (s0, evs0) = run(s, f.subrange(0, k - 1));
        let evs = run(s, f.subrange(0, k)).1;
        assert(evs == evs0.push(step(s0, f[k - 1]).1));
        assert(evs.drop_last() == evs0);
        if k == 1 {
            assert(f[0] == START_BYTE);
            assert(!attempts(s0, START_BYTE));
        }
        assert(evs.last() is Pending);
    }
}

} // verus!
