//! Bus transactions: every sensor operation is a fixed sequence of I2C
//! writes, register reads and waits, with a decision after each read.
//!
//! A [`Transaction`] holds such a sequence. The caller performs the
//! [`Action`] that the transaction asks for and hands back the [`Reply`]
//! of the bus; the transaction then decides whether to go on, to finish,
//! or to stop with an [`Error`].
use vstd::prelude::*;
use byteorder::{ByteOrder, LittleEndian};
use crate::error::Error;

verus! {

/// What is done with the bytes read from a register.
#[derive(Debug, Clone, Copy, PartialEq, Eq, Structural)]
pub enum Expect {
    /// One byte, the chip identifier: it must be `0x50` or `0x51`.
    ChipId,
    /// One byte, the `STATUS` register: NVM ready (bit 1) and no NVM error (bit 2).
    PowerUp,
    /// One byte, the `INT_STATUS` register: power-on-reset complete (bit 4).
    ResetDone,
    /// One byte, the `OSR_EFF` register: the ODR fits the oversampling (bit 7).
    OdrFits,
    /// Three bytes, a 24-bit little-endian signed sample that becomes the result.
    Sample,
}

/// The result of a finished transaction: the sample read, if any, or an error.
pub type Outcome = core::result::Result<Option<i32>, Error>;

/// One step of a transaction.
#[derive(Debug, PartialEq, Eq)]
pub enum Step {
    /// Write these bytes to the sensor (a register address and its new values).
    Write(Vec<u8>),
    /// Write the register address, then read the register's bytes.
    Read { reg: u8, expect: Expect },
    /// Wait this many milliseconds.
    DelayMs(u32),
    /// Wait this many microseconds.
    DelayUs(u32),
}

/// What the caller has to do next.
#[derive(Debug, PartialEq, Eq)]
pub enum Action {
    /// Write these bytes to the sensor.
    Write(Vec<u8>),
    /// Write `reg`, then read `len` bytes.
    WriteRead { reg: u8, len: usize },
    /// Wait this many milliseconds.
    DelayMs(u32),
    /// Wait this many microseconds.
    DelayUs(u32),
    /// The transaction is over, with this outcome.
    Done(Outcome),
}

/// What the bus answered to the last action.
#[derive(Debug, PartialEq, Eq)]
pub enum Reply {
    /// The write went through.
    Written,
    /// The write failed.
    WriteFailed,
    /// The read went through and gave these bytes.
    Read(Vec<u8>),
    /// The read failed.
    ReadFailed,
    /// The wait is over.
    Waited,
}

/// The mathematical value of a [`Step`].
pub enum StepView {
    Write(Seq<u8>),
    Read { reg: u8, expect: Expect },
    DelayMs(u32),
    DelayUs(u32),
}

/// The mathematical value of an [`Action`].
pub enum ActionView {
    Write(Seq<u8>),
    WriteRead { reg: u8, len: nat },
    DelayMs(u32),
    DelayUs(u32),
    Done(Outcome),
}

/// The mathematical value of a [`Reply`].
pub enum ReplyView {
    Written,
    WriteFailed,
    Read(Seq<u8>),
    ReadFailed,
    Waited,
}

impl View for Step {
    type V = StepView;

    open spec fn view(&self) -> StepView {
        match self {
            Step::Write(b) => StepView::Write(b@),
            Step::Read { reg, expect } => StepView::Read { reg: *reg, expect: *expect },
            Step::DelayMs(n) => StepView::DelayMs(*n),
            Step::DelayUs(n) => StepView::DelayUs(*n),
        }
    }
}

impl View for Action {
    type V = ActionView;

    open spec fn view(&self) -> ActionView {
        match self {
            Action::Write(b) => ActionView::Write(b@),
            Action::WriteRead { reg, len } => ActionView::WriteRead { reg: *reg, len: *len as nat },
            Action::DelayMs(n) => ActionView::DelayMs(*n),
            Action::DelayUs(n) => ActionView::DelayUs(*n),
            Action::Done(o) => ActionView::Done(*o),
        }
    }
}

impl View for Reply {
    type V = ReplyView;

    open spec fn view(&self) -> ReplyView {
        match self {
            Reply::Written => ReplyView::Written,
            Reply::WriteFailed => ReplyView::WriteFailed,
            Reply::Read(b) => ReplyView::Read(b@),
            Reply::ReadFailed => ReplyView::ReadFailed,
            Reply::Waited => ReplyView::Waited,
        }
    }
}

/// The values of a sequence of steps.
pub open spec fn step_views(s: Seq<Step>) -> Seq<StepView> {
    s.map_values(|x: Step| x@)
}

/// How many bytes a read of this kind takes.
pub open spec fn expect_len(e: Expect) -> nat {
    match e {
        Expect::Sample => 3,
        _ => 1,
    }
}

/// The signed 24-bit integer stored little-endian in three bytes.
pub open spec fn i24_le(b0: u8, b1: u8, b2: u8) -> int {
    let u = b0 as int + 256 * (b1 as int) + 65536 * (b2 as int);
    if u >= 0x80_0000 {
        u - 0x100_0000
    } else {
        u
    }
}

/// The decision taken on the bytes `d` read for `e`.
pub open spec fn check(e: Expect, d: Seq<u8>) -> Outcome {
    match e {
        Expect::ChipId => if d[0] == 0x50u8 || d[0] == 0x51u8 {
            Ok(None)
        } else {
            Err(Error::InvalidId)
        },
        Expect::PowerUp => if d[0] & 0x02u8 == 0u8 || d[0] & 0x04u8 != 0u8 {
            Err(Error::NotReady)
        } else {
            Ok(None)
        },
        Expect::ResetDone => if d[0] & 0x10u8 == 0u8 {
            Err(Error::NotReady)
        } else {
            Ok(None)
        },
        Expect::OdrFits => if d[0] & 0x80u8 == 0u8 {
            Err(Error::OdrInvalid)
        } else {
            Ok(None)
        },
        Expect::Sample => Ok(Some(i24_le(d[0], d[1], d[2]) as i32)),
    }
}

/// How `step` takes `reply`: `None` if the reply does not answer the step,
/// `Some(Ok(..))` if the step succeeded (with the sample it read, if any),
/// `Some(Err(e))` if the step failed with `e`.
pub open spec fn verdict(step: StepView, reply: ReplyView) -> Option<Outcome> {
    match step {
        StepView::Write(_) => match reply {
            ReplyView::Written => Some(Ok(None)),
            ReplyView::WriteFailed => Some(Err(Error::WriteError)),
            _ => None,
        },
        StepView::Read { reg, expect } => match reply {
            ReplyView::ReadFailed => Some(Err(Error::ReadError)),
            ReplyView::Read(d) => if d.len() == expect_len(expect) {
                Some(check(expect, d))
            } else {
                None
            },
            _ => None,
        },
        StepView::DelayMs(_) => match reply {
            ReplyView::Waited => Some(Ok(None)),
            _ => None,
        },
        StepView::DelayUs(_) => match reply {
            ReplyView::Waited => Some(Ok(None)),
            _ => None,
        },
    }
}

/// The reply answers the step and the step succeeds.
pub open spec fn accepts(step: StepView, reply: ReplyView) -> bool {
    verdict(step, reply) matches Some(Ok(_))
}

/// The reply answers the step and the step fails.
pub open spec fn rejects(step: StepView, reply: ReplyView) -> bool {
    verdict(step, reply) matches Some(Err(_))
}

/// The step writes register `reg` with the single value `val`.
pub open spec fn writes(s: StepView, reg: u8, val: u8) -> bool {
    s matches StepView::Write(b) && b.len() == 2 && b[0] == reg && b[1] == val
}

/// The step reads a 3-byte sample from register `reg`.
pub open spec fn reads_sample(s: StepView, reg: u8) -> bool {
    s matches StepView::Read { reg: r, expect: Expect::Sample } && r == reg
}

/// The mathematical value of a [`Transaction`].
pub struct TxView {
    /// All steps, in order.
    pub steps: Seq<StepView>,
    /// The index of the step now pending.
    pub pos: nat,
    /// The last sample read.
    pub sample: Option<i32>,
    /// The outcome, once the transaction is over.
    pub result: Option<Outcome>,
}

impl TxView {
    /// A transaction about to perform its first step.
    pub open spec fn start(steps: Seq<StepView>) -> TxView {
        TxView { steps, pos: 0, sample: None, result: None }
    }

    /// The pending step exists as long as the transaction is not over.
    pub open spec fn wf(self) -> bool {
        &&& self.pos <= self.steps.len()
        &&& self.result is None ==> self.pos < self.steps.len()
    }

    /// The transaction after the bus gave `reply` to the pending step.
    pub open spec fn answer(self, reply: ReplyView) -> TxView {
        if self.result is Some {
            self
        } else {
            match verdict(self.steps[self.pos as int], reply) {
                None => self,
                Some(Err(e)) => TxView { result: Some(Err(e)), ..self },
                Some(Ok(s)) => {
                    let sample = if s is Some { s } else { self.sample };
                    let pos = self.pos + 1;
                    TxView {
                        pos,
                        sample,
                        result: if pos == self.steps.len() { Some(Ok(sample)) } else { None },
                        ..self
                    }
                },
            }
        }
    }

    /// What the caller has to do next.
    pub open spec fn action(self) -> ActionView {
        match self.result {
            Some(o) => ActionView::Done(o),
            None => match self.steps[self.pos as int] {
                StepView::Write(b) => ActionView::Write(b),
                StepView::Read { reg, expect } => ActionView::WriteRead { reg, len: expect_len(expect) },
                StepView::DelayMs(n) => ActionView::DelayMs(n),
                StepView::DelayUs(n) => ActionView::DelayUs(n),
            },
        }
    }
}

/// The transaction after it took each reply in turn.
pub open spec fn run(tx: TxView, replies: Seq<ReplyView>) -> TxView
    decreases replies.len(),
{
    if replies.len() == 0 {
        tx
    } else {
        run(tx.answer(replies[0]), replies.drop_first())
    }
}

/// A transaction that is over stays over: later replies change nothing.
pub proof fn lemma_over_is_final(tx: TxView, replies: Seq<ReplyView>)
    requires
        tx.result is Some,
    ensures
        run(tx, replies) == tx,
    decreases replies.len(),
{
    if replies.len() > 0 {
        lemma_over_is_final(tx.answer(replies[0]), replies.drop_first());
    }
}

/// A reply that does not answer the pending step leaves the transaction as it was.
pub proof fn lemma_unanswered_reply(tx: TxView, reply: ReplyView)
    requires
        tx.wf(),
        tx.result is None,
        verdict(tx.steps[tx.pos as int], reply) is None,
    ensures
        tx.answer(reply) == tx,
{
}

/// What the caller is asked to do: the pending write, as is; for a pending
/// read, the register and one byte (three for a sample); the pending wait; or,
/// once the transaction is over, its outcome.
pub proof fn lemma_action_kinds(tx: TxView)
    requires
        tx.wf(),
    ensures
        tx.result matches Some(o) ==> tx.action() == ActionView::Done(o),
        tx.result is None ==> (tx.steps[tx.pos as int] matches StepView::Write(b) ==> tx.action()
            == ActionView::Write(b)),
        tx.result is None ==> (tx.steps[tx.pos as int] matches StepView::Read { reg, expect }
            ==> tx.action() == (ActionView::WriteRead {
            reg,
            len: if expect == Expect::Sample { 3nat } else { 1nat },
        })),
        tx.result is None ==> (tx.steps[tx.pos as int] matches StepView::DelayMs(n) ==> tx.action()
            == ActionView::DelayMs(n)),
        tx.result is None ==> (tx.steps[tx.pos as int] matches StepView::DelayUs(n) ==> tx.action()
            == ActionView::DelayUs(n)),
{
}

/// A pending step moves on only on the reply of its own kind: a write on
/// `Written`, a wait on `Waited`, a read on bytes of the right length whose
/// check passes. Any other reply either ends the transaction with an error
/// (a failed write or read, a failed check) or is ignored.
pub proof fn lemma_step_kinds(tx: TxView, reply: ReplyView)
    requires
        tx.wf(),
        tx.result is None,
    ensures
        tx.steps[tx.pos as int] is Write ==> (tx.answer(reply).pos == tx.pos + 1 <==> reply
            == ReplyView::Written),
        tx.steps[tx.pos as int] is DelayMs ==> (tx.answer(reply).pos == tx.pos + 1 <==> reply
            == ReplyView::Waited),
        tx.steps[tx.pos as int] is DelayUs ==> (tx.answer(reply).pos == tx.pos + 1 <==> reply
            == ReplyView::Waited),
        tx.steps[tx.pos as int] is Read && tx.answer(reply).pos == tx.pos + 1 ==> reply is Read,
        tx.steps[tx.pos as int] is Write && reply != ReplyView::Written && reply != ReplyView::WriteFailed
            ==> tx.answer(reply) == tx,
        (tx.steps[tx.pos as int] is DelayMs || tx.steps[tx.pos as int] is DelayUs) && reply
            != ReplyView::Waited ==> tx.answer(reply) == tx,
        tx.steps[tx.pos as int] is Read && !(reply is Read) && reply != ReplyView::ReadFailed
            ==> tx.answer(reply) == tx,
{
}

/// A failed write ends the transaction with `WriteError`, a failed read with
/// `ReadError`, whatever the step was about to write or read.
pub proof fn lemma_bus_failure(tx: TxView, reply: ReplyView)
    requires
        tx.wf(),
        tx.result is None,
        reply == ReplyView::WriteFailed || reply == ReplyView::ReadFailed,
    ensures
        tx.steps[tx.pos as int] is Write && reply == ReplyView::WriteFailed
            ==> tx.answer(reply).result == Some(Err::<Option<i32>, Error>(Error::WriteError)),
        tx.steps[tx.pos as int] is Read && reply == ReplyView::ReadFailed
            ==> tx.answer(reply).result == Some(Err::<Option<i32>, Error>(Error::ReadError)),
        tx.answer(reply).pos == tx.pos,
{
}

/// When every step succeeds, the transaction performs all its steps in order,
/// one per reply, and is over exactly after the last one, with success.
pub proof fn lemma_run_accepted(tx: TxView, replies: Seq<ReplyView>)
    requires
        tx.wf(),
        tx.result is None,
        replies.len() == tx.steps.len() - tx.pos,
        forall|i: int|
            0 <= i < replies.len() ==> accepts(tx.steps[tx.pos + i], #[trigger] replies[i]),
    ensures
        run(tx, replies).result matches Some(Ok(_)),
        run(tx, replies).pos == tx.steps.len(),
        tx.sample is None && (forall|i: int|
            tx.pos <= i < tx.steps.len() ==> !(#[trigger] tx.steps[i] matches StepView::Read {
                expect: Expect::Sample,
                ..
            })) ==> run(tx, replies).result == Some(Ok::<Option<i32>, Error>(None)),
        forall|k: int|
            0 <= k < replies.len() ==> (#[trigger] run(tx, replies.take(k))).result is None
                && run(tx, replies.take(k)).pos == tx.pos + k,
    decreases replies.len(),
{
    let t1 = tx.answer(replies[0]);
    assert(accepts(tx.steps[tx.pos + 0int], replies[0]));
    assert(run(tx, replies.take(0)) == tx) by {
        assert(replies.take(0).len() == 0);
    }
    if replies.len() == 1 {
        assert(replies.drop_first().len() == 0);
        assert(run(t1, replies.drop_first()) == t1);
    } else {
        let rest = replies.drop_first();
        assert forall|i: int| 0 <= i < rest.len() implies accepts(
            t1.steps[t1.pos + i],
            #[trigger] rest[i],
        ) by {
            assert(rest[i] == replies[i + 1]);
            assert(accepts(tx.steps[tx.pos + (i + 1)], replies[i + 1]));
        }
        lemma_run_accepted(t1, rest);
        assert forall|k: int| 0 <= k < replies.len() implies (#[trigger] run(
            tx,
            replies.take(k),
        )).result is None && run(tx, replies.take(k)).pos == tx.pos + k by {
            if k > 0 {
                let p = replies.take(k);
                assert(p[0] == replies[0]);
                assert(p.drop_first() =~= rest.take(k - 1));
                assert(run(tx, p) == run(t1, rest.take(k - 1)));
            }
        }
    }
}

/// When the first steps succeed and step `k` fails, the transaction ends with
/// the error of step `k`, whatever replies come after it.
pub proof fn lemma_run_rejected(tx: TxView, replies: Seq<ReplyView>, k: int)
    requires
        tx.wf(),
        tx.result is None,
        0 <= k < replies.len(),
        tx.pos + k < tx.steps.len(),
        forall|i: int| 0 <= i < k ==> accepts(tx.steps[tx.pos + i], #[trigger] replies[i]),
        rejects(tx.steps[tx.pos + k], replies[k]),
    ensures
        run(tx, replies).result == verdict(tx.steps[tx.pos + k], replies[k]),
        run(tx, replies).pos == tx.pos + k,
    decreases k,
{
    let t1 = tx.answer(replies[0]);
    let rest = replies.drop_first();
    if k == 0 {
        lemma_over_is_final(t1, rest);
    } else {
        assert(accepts(tx.steps[tx.pos + 0int], replies[0]));
        assert forall|i: int| 0 <= i < k - 1 implies accepts(
            t1.steps[t1.pos + i],
            #[trigger] rest[i],
        ) by {
            assert(rest[i] == replies[i + 1]);
            assert(accepts(tx.steps[tx.pos + (i + 1)], replies[i + 1]));
        }
        assert(rest[k - 1] == replies[k]);
        lemma_run_rejected(t1, rest, k - 1);
    }
}

/// `LittleEndian::read_i24` of the `byteorder` crate: reads the first three
/// bytes of `buf` as a little-endian signed 24-bit integer. The contract
/// claims exactly that value; the call panics on a shorter buffer, which the
/// `requires` rules out.
#[verifier::external_body]
fn read_i24_le(buf: &[u8]) -> (v: i32)
    requires
        buf@.len() >= 3,
    ensures
        v as int == i24_le(buf@[0], buf@[1], buf@[2]),
{
    LittleEndian::read_i24(buf)
}

proof fn lemma_i24_range(b0: u8, b1: u8, b2: u8)
    ensures
        -0x80_0000 <= i24_le(b0, b1, b2) < 0x80_0000,
{
}

impl Expect {
    /// How many bytes a read of this kind takes.
    pub fn len(&self) -> (n: usize)
        ensures
            n == expect_len(*self),
    {
        match self {
            Expect::Sample => 3,
            _ => 1,
        }
    }
}

fn check_bytes(e: Expect, d: &Vec<u8>) -> (o: Outcome)
    requires
        d@.len() == expect_len(e),
    ensures
        o == check(e, d@),
{
    match e {
        Expect::ChipId => if d[0] == 0x50u8 || d[0] == 0x51u8 {
            Ok(None)
        } else {
            Err(Error::InvalidId)
        },
        Expect::PowerUp => if d[0] & 0x02u8 == 0u8 || d[0] & 0x04u8 != 0u8 {
            Err(Error::NotReady)
        } else {
            Ok(None)
        },
        Expect::ResetDone => if d[0] & 0x10u8 == 0u8 {
            Err(Error::NotReady)
        } else {
            Ok(None)
        },
        Expect::OdrFits => if d[0] & 0x80u8 == 0u8 {
            Err(Error::OdrInvalid)
        } else {
            Ok(None)
        },
        Expect::Sample => {
            proof {
                lemma_i24_range(d@[0], d@[1], d@[2]);
            }
            Ok(Some(read_i24_le(d.as_slice())))
        },
    }
}

fn take_verdict(step: &Step, reply: &Reply) -> (v: Option<Outcome>)
    ensures
        v == verdict(step@, reply@),
{
    match step {
        Step::Write(_) => match reply {
            Reply::Written => Some(Ok(None)),
            Reply::WriteFailed => Some(Err(Error::WriteError)),
            _ => None,
        },
        Step::Read { reg, expect } => match reply {
            Reply::ReadFailed => Some(Err(Error::ReadError)),
            Reply::Read(d) => if d.len() == expect.len() {
                Some(check_bytes(*expect, d))
            } else {
                None
            },
            _ => None,
        },
        Step::DelayMs(_) => match reply {
            Reply::Waited => Some(Ok(None)),
            _ => None,
        },
        Step::DelayUs(_) => match reply {
            Reply::Waited => Some(Ok(None)),
            _ => None,
        },
    }
}

/// Appends a step to a list of steps.
pub fn push_step(v: &mut Vec<Step>, s: Step)
    ensures
        step_views(final(v)@) == step_views(old(v)@).push(s@),
{
    let ghost sv = s@;
    v.push(s);
    assert(step_views(v@) =~= step_views(old(v)@).push(sv));
}

/// Appends a write of `reg` followed by `val`.
pub fn push_write2(v: &mut Vec<Step>, reg: u8, val: u8)
    ensures
        step_views(final(v)@) == step_views(old(v)@).push(StepView::Write(seq![reg, val])),
{
    let mut b: Vec<u8> = Vec::new();
    b.push(reg);
    b.push(val);
    assert(b@ =~= seq![reg, val]);
    push_step(v, Step::Write(b));
}

/// Appends a read of `reg` whose bytes are taken as `expect` says.
pub fn push_read(v: &mut Vec<Step>, reg: u8, expect: Expect)
    ensures
        step_views(final(v)@) == step_views(old(v)@).push(StepView::Read { reg, expect }),
{
    push_step(v, Step::Read { reg, expect });
}

fn copy_bytes(src: &Vec<u8>) -> (dst: Vec<u8>)
    ensures
        dst@ == src@,
{
    let mut dst: Vec<u8> = Vec::new();
    let n = src.len();
    for i in 0..n
        invariant
            n == src@.len(),
            dst@ == src@.take(i as int),
    {
        dst.push(src[i]);
        assert(src@.take(i + 1) =~= src@.take(i as int).push(src@[i as int]));
    }
    assert(src@.take(n as int) =~= src@);
    dst
}

/// A sequence of bus steps under way.
pub struct Transaction {
    steps: Vec<Step>,
    pos: usize,
    sample: Option<i32>,
    result: Option<Outcome>,
}

impl View for Transaction {
    type V = TxView;

    closed spec fn view(&self) -> TxView {
        TxView {
            steps: step_views(self.steps@),
            pos: self.pos as nat,
            sample: self.sample,
            result: self.result,
        }
    }
}

impl Transaction {
    #[verifier::type_invariant]
    spec fn inv(self) -> bool {
        &&& self.pos <= self.steps@.len()
        &&& self.result is None ==> self.pos < self.steps@.len()
    }

    /// A transaction that will perform `steps` in order.
    pub fn new(steps: Vec<Step>) -> (t: Transaction)
        requires
            steps@.len() > 0,
        ensures
            t@ == TxView::start(step_views(steps@)),
            t@.wf(),
    {
        Transaction { steps, pos: 0, sample: None, result: None }
    }

    /// What the caller has to do next.
    pub fn action(&self) -> (a: Action)
        ensures
            a@ == self@.action(),
            self@.wf(),
    {
        proof {
            use_type_invariant(self);
        }
        match self.result {
            Some(o) => Action::Done(o),
            None => match &self.steps[self.pos] {
                Step::Write(b) => Action::Write(copy_bytes(b)),
                Step::Read { reg, expect } => Action::WriteRead { reg: *reg, len: expect.len() },
                Step::DelayMs(n) => Action::DelayMs(*n),
                Step::DelayUs(n) => Action::DelayUs(*n),
            },
        }
    }

    /// Hands the bus's reply to the pending step to the transaction.
    /// A reply that does not answer the pending step, or that comes after
    /// the transaction is over, changes nothing.
    pub fn advance(&mut self, reply: Reply)
        ensures
            old(self)@.wf(),
            final(self)@ == old(self)@.answer(reply@),
            final(self)@.wf(),
    {
        proof {
            use_type_invariant(&*self);
        }
        if self.result.is_some() {
            return;
        }
        let len = self.steps.len();
        let next = self.pos + 1;
        let v = take_verdict(&self.steps[self.pos], &reply);
        match v {
            None => {},
            Some(Err(e)) => {
                self.result = Some(Err(e));
            },
            Some(Ok(s)) => {
                if s.is_some() {
                    self.sample = s;
                }
                if next == len {
                    self.result = Some(Ok(self.sample));
                }
                self.pos = next;
            },
        }
        proof {
            use_type_invariant(&*self);
        }
    }

    /// The outcome, once the transaction is over.
    pub fn outcome(&self) -> (o: Option<Outcome>)
        ensures
            o == self@.result,
    {
        self.result
    }
}

} // verus!
