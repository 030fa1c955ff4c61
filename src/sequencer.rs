//! Register programs: what an operation does on the bus, as data.
//!
//! Each driver operation is a short list of steps (write a register, read a
//! register, read-modify-write some of its bits, check the device id, or
//! change the operating mode the driver remembers). An [`Execution`] walks
//! such a list one bus access at a time: it says which access comes next and
//! is told what the bus answered. The blocking driver and a non-blocking one
//! both drive the same `Execution`, so for the same answers from the device
//! they make the same accesses and reach the same decisions.
use crate::registers::{device_id, device_id_of, is_known, is_known_device_id, updated, OperatingMode, STATUS};
use crate::transport::Access;
use vstd::prelude::*;

verus! {

/// One step of a register program.
#[derive(Debug, Clone, Copy, PartialEq, Eq, Structural)]
pub enum Step {
    /// Write `value` to register `address`.
    Write { address: u8, value: u8 },
    /// Read register `address`, replace the bits under `mask` by those of
    /// `bits`, and write the byte back.
    Update { address: u8, mask: u8, bits: u8 },
    /// Read register `address`.
    Read { address: u8 },
    /// Read the status register, and end the program there unless the device
    /// id is one of the family's.
    Identify,
    /// Remember `mode` as the driver's operating mode. No bus access.
    Remember { mode: Option<OperatingMode> },
}

/// The number of bus accesses a step makes.
pub open spec fn width(s: Step) -> int {
    match s {
        Step::Update { .. } => 2,
        Step::Remember { .. } => 0,
        _ => 1,
    }
}

/// `t` is what step `s` does on the bus, given the values read in `t`.
pub open spec fn performs(s: Step, t: Seq<Access>) -> bool {
    match s {
        Step::Write { address, value } => t == seq![Access::Write { address, value }],
        Step::Read { address } => t.len() == 1 && t[0] is Read && t[0]->Read_address == address,
        Step::Update { address, mask, bits } => {
            &&& t.len() == 2
            &&& t[0] is Read
            &&& t[0]->Read_address == address
            &&& t[1] == Access::Write { address, value: updated(t[0]->Read_value, mask, bits) }
        },
        Step::Identify => {
            &&& t.len() == 1
            &&& t[0] is Read
            &&& t[0]->Read_address == STATUS
            &&& is_known_device_id(device_id_of(t[0]->Read_value))
        },
        Step::Remember { .. } => t.len() == 0,
    }
}

/// `t` is a complete run of `steps`: the accesses of each step in turn.
pub open spec fn runs(steps: Seq<Step>, t: Seq<Access>) -> bool
    decreases steps.len(),
{
    if steps.len() == 0 {
        t.len() == 0
    } else {
        let w = width(steps.last());
        &&& w <= t.len()
        &&& runs(steps.drop_last(), t.take(t.len() - w))
        &&& performs(steps.last(), t.skip(t.len() - w))
    }
}

/// The run of `steps` stopped inside step `n`, which accesses the bus: the
/// steps before it ran, and of step `n` at most its read happened.
pub open spec fn stalls_at(steps: Seq<Step>, n: int, t: Seq<Access>) -> bool {
    &&& !(steps[n] is Remember)
    &&& {
        ||| runs(steps.take(n), t)
        ||| {
            &&& steps[n] is Update
            &&& 0 < t.len()
            &&& runs(steps.take(n), t.drop_last())
            &&& t.last() is Read
            &&& t.last()->Read_address == steps[n]->Update_address
        }
    }
}

/// The run of `steps` was refused at step `n`: the steps before it ran, and
/// the identification of step `n` read a device id outside the family.
pub open spec fn refused_at(steps: Seq<Step>, n: int, t: Seq<Access>) -> bool {
    &&& 0 <= n < steps.len()
    &&& steps[n] is Identify
    &&& 0 < t.len()
    &&& runs(steps.take(n), t.drop_last())
    &&& t.last() is Read
    &&& t.last()->Read_address == STATUS
    &&& !is_known_device_id(device_id_of(t.last()->Read_value))
}

/// The operating mode remembered after the steps, starting from `initial`:
/// that of the last `Remember` step, or `initial` when there is none.
pub open spec fn remembered_after(steps: Seq<Step>, initial: Option<OperatingMode>) -> Option<OperatingMode>
    decreases steps.len(),
{
    if steps.len() == 0 {
        initial
    } else if steps.last() is Remember {
        steps.last()->Remember_mode
    } else {
        remembered_after(steps.drop_last(), initial)
    }
}

/// The value of the last read in `t`.
pub open spec fn last_read(t: Seq<Access>) -> Option<u8>
    decreases t.len(),
{
    if t.len() == 0 {
        None
    } else if t.last() is Read {
        Some(t.last()->Read_value)
    } else {
        last_read(t.drop_last())
    }
}

/// The number of accesses of a complete run.
pub open spec fn total_width(steps: Seq<Step>) -> int
    decreases steps.len(),
{
    if steps.len() == 0 {
        0
    } else {
        total_width(steps.drop_last()) + width(steps.last())
    }
}

/// The accesses of a program that only writes.
pub open spec fn write_accesses(steps: Seq<Step>) -> Seq<Access> {
    Seq::new(
        steps.len(),
        |i: int| Access::Write { address: steps[i]->Write_address, value: steps[i]->Write_value },
    )
}

/// A run extended by one step is a run of the extended program.
pub proof fn lemma_runs_push(steps: Seq<Step>, t: Seq<Access>, s: Step, u: Seq<Access>)
    requires
        runs(steps, t),
        performs(s, u),
    ensures
        runs(steps.push(s), t + u),
{
    let all = steps.push(s);
    let tu = t + u;
    assert(u.len() == width(s));
    assert(all.drop_last() =~= steps);
    assert(tu.take(tu.len() - width(s)) =~= t);
    assert(tu.skip(tu.len() - width(s)) =~= u);
}

/// A complete run begins with the accesses of the first step.
pub proof fn lemma_runs_first(steps: Seq<Step>, t: Seq<Access>)
    requires
        runs(steps, t),
        0 < steps.len(),
    ensures
        width(steps[0]) <= t.len(),
        performs(steps[0], t.take(width(steps[0]))),
    decreases steps.len(),
{
    let w = width(steps.last());
    let head = t.take(t.len() - w);
    if steps.len() == 1 {
        assert(steps.drop_last() =~= Seq::<Step>::empty());
        assert(runs(Seq::<Step>::empty(), head));
        assert(head.len() == 0);
        assert(t.skip(t.len() - w) =~= t);
        assert(t.take(w) =~= t);
    } else {
        let rest = steps.drop_last();
        lemma_runs_first(rest, head);
        assert(rest[0] == steps[0]);
        assert(head.take(width(steps[0])) =~= t.take(width(steps[0])));
    }
}

/// A complete run has as many accesses as the steps make.
pub proof fn lemma_runs_len(steps: Seq<Step>, t: Seq<Access>)
    requires
        runs(steps, t),
    ensures
        t.len() == total_width(steps),
    decreases steps.len(),
{
    if steps.len() > 0 {
        let w = width(steps.last());
        lemma_runs_len(steps.drop_last(), t.take(t.len() - w));
    }
}

/// A program that only writes has exactly one run: its writes, in order.
pub proof fn lemma_runs_writes(steps: Seq<Step>, t: Seq<Access>)
    requires
        forall|i: int| 0 <= i < steps.len() ==> #[trigger] steps[i] is Write,
        runs(steps, t),
    ensures
        t == write_accesses(steps),
    decreases steps.len(),
{
    if steps.len() > 0 {
        let head = t.take(t.len() - 1);
        let rest = steps.drop_last();
        assert forall|i: int| 0 <= i < rest.len() implies #[trigger] rest[i] is Write by {
            assert(rest[i] == steps[i]);
        }
        lemma_runs_writes(rest, head);
        assert(steps.last() is Write);
        assert(t =~= write_accesses(steps)) by {
            assert(t =~= head + t.skip(t.len() - 1));
        }
    }
}

/// A run is fixed by the program and by what the device answered: two runs of
/// the same program that read the same values make the same accesses.
pub proof fn lemma_run_determined(steps: Seq<Step>, t1: Seq<Access>, t2: Seq<Access>)
    requires
        runs(steps, t1),
        runs(steps, t2),
        forall|i: int| 0 <= i < t1.len() && #[trigger] t1[i] is Read ==> i < t2.len() && t2[i] == t1[i],
    ensures
        t1 == t2,
    decreases steps.len(),
{
    lemma_runs_len(steps, t1);
    lemma_runs_len(steps, t2);
    if steps.len() > 0 {
        let w = width(steps.last());
        let n = t1.len() - w;
        let h1 = t1.take(n);
        let h2 = t2.take(n);
        assert forall|i: int| 0 <= i < h1.len() && #[trigger] h1[i] is Read implies i < h2.len() && h2[i]
            == h1[i] by {
            assert(h1[i] == t1[i]);
            assert(t1[i] is Read);
        }
        lemma_run_determined(steps.drop_last(), h1, h2);
        let u1 = t1.skip(n);
        let u2 = t2.skip(n);
        match steps.last() {
            Step::Write { .. } => {},
            Step::Remember { .. } => {
                assert(u1 =~= u2);
            },
            Step::Identify | Step::Read { .. } => {
                assert(t1[n] is Read);
                assert(u1[0] == t1[n]);
                assert(u2[0] == t2[n]);
                assert(u1 =~= u2);
            },
            Step::Update { .. } => {
                assert(t1[n] is Read);
                assert(u1[0] == t1[n]);
                assert(u2[0] == t2[n]);
                assert(u1 =~= u2);
            },
        }
        assert(t1 =~= h1 + u1);
        assert(t2 =~= h2 + u2);
    }
}

/// `after` is `before` with more accesses at its end.
pub open spec fn extends(before: Seq<Access>, after: Seq<Access>) -> bool {
    before.len() <= after.len() && after.take(before.len() as int) == before
}

/// The accesses that `after` holds beyond `before`.
pub open spec fn added(before: Seq<Access>, after: Seq<Access>) -> Seq<Access> {
    after.skip(before.len() as int)
}

/// `after` is `before` followed by a complete run of `steps`.
pub open spec fn ran(steps: Seq<Step>, before: Seq<Access>, after: Seq<Access>) -> bool {
    extends(before, after) && runs(steps, added(before, after))
}

/// A program of one read has one access, that read.
pub proof fn lemma_single_read(address: u8, t: Seq<Access>)
    requires
        runs(seq![Step::Read { address }], t),
    ensures
        t.len() == 1,
        t[0] is Read,
        t[0]->Read_address == address,
        last_read(t) == Some(t[0]->Read_value),
{
    let steps = seq![Step::Read { address }];
    assert(steps.drop_last() =~= Seq::<Step>::empty());
    assert(runs(Seq::<Step>::empty(), t.take(t.len() - 1)));
    assert(t.take(t.len() - 1).len() == 0);
    assert(t.skip(0) =~= t);
}

/// Remember steps leave the remembered mode as it was when the program has none.
pub proof fn lemma_remembered_unchanged(steps: Seq<Step>, initial: Option<OperatingMode>)
    requires
        forall|i: int| 0 <= i < steps.len() ==> !(#[trigger] steps[i] is Remember),
    ensures
        remembered_after(steps, initial) == initial,
    decreases steps.len(),
{
    if steps.len() > 0 {
        let rest = steps.drop_last();
        assert forall|i: int| 0 <= i < rest.len() implies !(#[trigger] rest[i] is Remember) by {
            assert(rest[i] == steps[i]);
        }
        assert(!(steps[steps.len() - 1] is Remember));
        lemma_remembered_unchanged(rest, initial);
    }
}

/// Steps that remember no mode, added at the end, leave the remembered mode as it was.
pub proof fn lemma_remembered_append(a: Seq<Step>, b: Seq<Step>, initial: Option<OperatingMode>)
    requires
        forall|i: int| 0 <= i < b.len() ==> !(#[trigger] b[i] is Remember),
    ensures
        remembered_after(a + b, initial) == remembered_after(a, initial),
    decreases b.len(),
{
    if b.len() == 0 {
        assert(a + b =~= a);
    } else {
        let rest = b.drop_last();
        assert forall|i: int| 0 <= i < rest.len() implies !(#[trigger] rest[i] is Remember) by {
            assert(rest[i] == b[i]);
        }
        assert(!(b[b.len() - 1] is Remember));
        assert((a + b).drop_last() =~= a + rest);
        assert((a + b).last() == b.last());
        lemma_remembered_append(a, rest, initial);
    }
}

/// In a program with one `Remember` step, at index `k`, the steps before
/// index `n` leave the initial mode when `n <= k`, and the remembered one after.
pub proof fn lemma_remembered_single(steps: Seq<Step>, k: int, n: int, initial: Option<OperatingMode>)
    requires
        0 <= k < steps.len(),
        steps[k] is Remember,
        forall|i: int| 0 <= i < steps.len() && i != k ==> !(#[trigger] steps[i] is Remember),
        0 <= n <= steps.len(),
    ensures
        remembered_after(steps.take(n), initial) == if n <= k {
            initial
        } else {
            steps[k]->Remember_mode
        },
{
    if n <= k {
        let t = steps.take(n);
        assert forall|i: int| 0 <= i < t.len() implies !(#[trigger] t[i] is Remember) by {
            assert(t[i] == steps[i]);
        }
        lemma_remembered_unchanged(t, initial);
    } else {
        let head = steps.take(k + 1);
        let tail = steps.subrange(k + 1, n);
        assert forall|i: int| 0 <= i < tail.len() implies !(#[trigger] tail[i] is Remember) by {
            assert(tail[i] == steps[k + 1 + i]);
        }
        lemma_remembered_append(head, tail, initial);
        assert(steps.take(n) =~= head + tail);
        assert(head.last() == steps[k]);
    }
}

/// The bus access an [`Execution`] asks for next.
#[derive(Debug, Clone, Copy, PartialEq, Eq, Structural)]
pub enum Request {
    /// Read register `address` and report the value with `read_done`.
    Read { address: u8 },
    /// Write `value` to register `address` and report it with `write_done`.
    Write { address: u8, value: u8 },
    /// The program is complete, or was refused by an identification.
    Finished,
}

/// A register program being carried out.
pub struct Execution {
    steps: Vec<Step>,
    next: usize,
    pending: Option<u8>,
    refused: Option<u8>,
    fetched: Option<u8>,
    remembered: Option<OperatingMode>,
    initial: Ghost<Option<OperatingMode>>,
    done: Ghost<Seq<Access>>,
    log: Ghost<Seq<Access>>,
}

impl Execution {
    /// The program.
    pub closed spec fn plan(&self) -> Seq<Step> {
        self.steps@
    }

    /// The accesses completed so far.
    pub closed spec fn log(&self) -> Seq<Access> {
        self.log@
    }

    /// The remembered mode the program started from.
    pub closed spec fn initial(&self) -> Option<OperatingMode> {
        self.initial@
    }

    /// The index of the step being carried out; the program's length once
    /// it is complete.
    pub closed spec fn position(&self) -> int {
        self.next as int
    }

    /// The device id that an identification refused, if one did.
    pub closed spec fn refusal(&self) -> Option<u8> {
        self.refused
    }

    /// The state is consistent, with the current step possibly a `Remember`.
    closed spec fn consistent(&self) -> bool {
        &&& self.next <= self.steps@.len()
        &&& runs(self.steps@.take(self.next as int), self.done@)
        &&& self.fetched == last_read(self.log@)
        &&& self.remembered == remembered_after(self.steps@.take(self.next as int), self.initial@)
        &&& match self.pending {
            None => self.refused is None ==> self.log@ == self.done@,
            Some(v) => {
                &&& self.refused is None
                &&& self.next < self.steps@.len()
                &&& self.steps@[self.next as int] is Update
                &&& self.log@ == self.done@.push(
                    Access::Read { address: self.steps@[self.next as int]->Update_address, value: v },
                )
            },
        }
        &&& match self.refused {
            None => true,
            Some(found) => {
                &&& self.next < self.steps@.len()
                &&& self.steps@[self.next as int] is Identify
                &&& self.log@.len() == self.done@.len() + 1
                &&& self.log@.drop_last() == self.done@
                &&& self.log@.last() is Read
                &&& self.log@.last()->Read_address == STATUS
                &&& found == device_id_of(self.log@.last()->Read_value)
                &&& !is_known_device_id(found)
            },
        }
    }

    /// The state is consistent, and the current step accesses the bus.
    pub closed spec fn wf(&self) -> bool {
        &&& self.consistent()
        &&& self.next < self.steps@.len() ==> !(self.steps@[self.next as int] is Remember)
    }

    /// The access asked for next.
    pub closed spec fn spec_request(&self) -> Request {
        if self.refused is Some || self.next >= self.steps@.len() {
            Request::Finished
        } else {
            match self.steps@[self.next as int] {
                Step::Write { address, value } => Request::Write { address, value },
                Step::Read { address } => Request::Read { address },
                Step::Identify => Request::Read { address: STATUS },
                Step::Update { address, mask, bits } => match self.pending {
                    None => Request::Read { address },
                    Some(v) => Request::Write { address, value: updated(v, mask, bits) },
                },
                Step::Remember { .. } => Request::Finished,
            }
        }
    }

    /// How many accesses are left, at most.
    pub closed spec fn remaining(&self) -> nat {
        let left = 2 * (self.steps@.len() - self.next);
        if self.refused is Some {
            0
        } else if self.pending is Some {
            (left - 1) as nat
        } else {
            left as nat
        }
    }

    /// Carries out the `Remember` steps that come next.
    fn settle(&mut self)
        requires
            old(self).consistent(),
            old(self).pending is None,
            old(self).refused is None,
        ensures
            final(self).wf(),
            final(self).pending is None,
            final(self).refused is None,
            final(self).plan() == old(self).plan(),
            final(self).log() == old(self).log(),
            final(self).initial() == old(self).initial(),
            final(self).remaining() <= old(self).remaining(),
    {
        while self.next < self.steps.len() && self.steps[self.next].is_remember()
            invariant
                self.consistent(),
                self.pending is None,
                self.refused is None,
                self.plan() == old(self).plan(),
                self.log() == old(self).log(),
                self.initial() == old(self).initial(),
                self.remaining() <= old(self).remaining(),
            decreases self.steps@.len() - self.next,
        {
            let i = self.next;
            let mode = match self.steps[i] {
                Step::Remember { mode } => mode,
                _ => self.remembered,
            };
            proof {
                lemma_runs_push(self.steps@.take(i as int), self.done@, self.steps@[i as int], Seq::empty());
                assert(self.steps@.take(i as int).push(self.steps@[i as int]) =~= self.steps@.take(i + 1));
                assert(self.done@ + Seq::<Access>::empty() =~= self.done@);
                assert(self.steps@.take(i + 1).last() == self.steps@[i as int]);
            }
            self.remembered = mode;
            self.next = i + 1;
        }
    }

    /// Starts `steps` from the beginning, with `initial` as the remembered mode.
    pub fn new(steps: Vec<Step>, initial: Option<OperatingMode>) -> (r: Self)
        ensures
            r.wf(),
            r.plan() == steps@,
            r.log() == Seq::<Access>::empty(),
            r.initial() == initial,
    {
        let mut r = Execution {
            steps,
            next: 0,
            pending: None,
            refused: None,
            fetched: None,
            remembered: initial,
            initial: Ghost(initial),
            done: Ghost(Seq::empty()),
            log: Ghost(Seq::empty()),
        };
        assert(r.steps@.take(0) =~= Seq::<Step>::empty());
        r.settle();
        r
    }

    /// The access to make next. Once it is `Finished`, the log is a complete
    /// run of the program, or a run refused by an identification; before,
    /// the log is a run stopped inside the current step.
    pub fn request(&self) -> (r: Request)
        requires
            self.wf(),
        ensures
            r == self.spec_request(),
            0 <= self.position() <= self.plan().len(),
            r is Finished && self.refusal() is None ==> {
                &&& self.position() == self.plan().len()
                &&& runs(self.plan(), self.log())
            },
            self.refusal() is Some ==> r is Finished && refused_at(self.plan(), self.position(), self.log()),
            self.refusal() is Some ==> self.refusal() == Some(device_id_of(self.log().last()->Read_value)),
            !(r is Finished) ==> self.position() < self.plan().len() && stalls_at(
                self.plan(),
                self.position(),
                self.log(),
            ),
    {
        if self.refused.is_some() {
            return Request::Finished;
        }
        if self.next >= self.steps.len() {
            assert(self.steps@.take(self.next as int) =~= self.steps@);
            return Request::Finished;
        }
        proof {
            if self.pending is Some {
                assert(self.log@.drop_last() =~= self.done@);
            }
            assert(stalls_at(self.steps@, self.next as int, self.log@));
        }
        match self.steps[self.next] {
            Step::Write { address, value } => Request::Write { address, value },
            Step::Read { address } => Request::Read { address },
            Step::Identify => Request::Read { address: STATUS },
            Step::Update { address, mask, bits } => match self.pending {
                None => Request::Read { address },
                Some(v) => Request::Write { address, value: crate::registers::update_bits(v, mask, bits) },
            },
            Step::Remember { .. } => Request::Finished,
        }
    }

    /// The value of the last read so far.
    pub fn fetched(&self) -> (r: Option<u8>)
        requires
            self.wf(),
        ensures
            r == last_read(self.log()),
    {
        self.fetched
    }

    /// The device id that an identification refused, if one did.
    pub fn refused(&self) -> (r: Option<u8>)
        ensures
            r == self.refusal(),
    {
        self.refused
    }

    /// The operating mode remembered by the steps carried out so far.
    pub fn remembered(&self) -> (r: Option<OperatingMode>)
        requires
            self.wf(),
        ensures
            r == remembered_after(self.plan().take(self.position()), self.initial()),
    {
        self.remembered
    }

    /// Reports the value that the requested read returned.
    pub fn read_done(&mut self, value: u8)
        requires
            old(self).wf(),
            old(self).spec_request() is Read,
        ensures
            final(self).wf(),
            final(self).plan() == old(self).plan(),
            final(self).initial() == old(self).initial(),
            final(self).log() == old(self).log().push(
                Access::Read { address: old(self).spec_request()->Read_address, value },
            ),
            final(self).remaining() < old(self).remaining(),
    {
        let ghost old_log = self.log@;
        let ghost address = self.spec_request()->Read_address;
        let i = self.next;
        assert(i < self.steps.len());
        let access = Ghost(Access::Read { address, value });
        self.log = Ghost(self.log@.push(access@));
        self.fetched = Some(value);
        proof {
            assert(self.log@.drop_last() =~= old_log);
        }
        match self.steps[i] {
            Step::Update { .. } => {
                self.pending = Some(value);
            },
            Step::Identify => {
                let id = device_id(value);
                if is_known(id) {
                    proof {
                        let u = seq![access@];
                        lemma_runs_push(self.steps@.take(i as int), self.done@, self.steps@[i as int], u);
                        assert(self.steps@.take(i as int).push(self.steps@[i as int]) =~= self.steps@.take(
                            i + 1,
                        ));
                        assert(self.steps@.take(i + 1).drop_last() =~= self.steps@.take(i as int));
                        self.done@ = self.done@ + u;
                        assert(self.done@ =~= self.log@);
                    }
                    self.next = i + 1;
                    self.settle();
                } else {
                    self.refused = Some(id);
                }
            },
            _ => {
                proof {
                    let u = seq![access@];
                    lemma_runs_push(self.steps@.take(i as int), self.done@, self.steps@[i as int], u);
                    assert(self.steps@.take(i as int).push(self.steps@[i as int]) =~= self.steps@.take(
                        i + 1,
                    ));
                    assert(self.steps@.take(i + 1).drop_last() =~= self.steps@.take(i as int));
                    self.done@ = self.done@ + u;
                    assert(self.done@ =~= self.log@);
                }
                self.next = i + 1;
                self.settle();
            },
        }
    }

    /// Reports that the requested write completed.
    pub fn write_done(&mut self)
        requires
            old(self).wf(),
            old(self).spec_request() is Write,
        ensures
            final(self).wf(),
            final(self).plan() == old(self).plan(),
            final(self).initial() == old(self).initial(),
            final(self).log() == old(self).log().push(
                Access::Write {
                    address: old(self).spec_request()->Write_address,
                    value: old(self).spec_request()->Write_value,
                },
            ),
            final(self).remaining() < old(self).remaining(),
    {
        let ghost old_log = self.log@;
        let ghost address = self.spec_request()->Write_address;
        let ghost value = self.spec_request()->Write_value;
        let i = self.next;
        assert(i < self.steps.len());
        let ghost access = Access::Write { address, value };
        self.log = Ghost(self.log@.push(access));
        proof {
            assert(self.log@.drop_last() =~= old_log);
            let u = if self.pending is Some {
                seq![old_log.last(), access]
            } else {
                seq![access]
            };
            if self.pending is Some {
                assert(old_log =~= self.done@.push(old_log.last()));
            }
            lemma_runs_push(self.steps@.take(i as int), self.done@, self.steps@[i as int], u);
            assert(self.steps@.take(i as int).push(self.steps@[i as int]) =~= self.steps@.take(i + 1));
            assert(self.steps@.take(i + 1).drop_last() =~= self.steps@.take(i as int));
            self.done@ = self.done@ + u;
            assert(self.done@ =~= self.log@);
        }
        self.pending = None;
        self.next = i + 1;
        self.settle();
    }
}

impl Step {
    /// Whether this is a `Remember` step.
    pub fn is_remember(&self) -> (r: bool)
        ensures
            r == (*self is Remember),
    {
        match self {
            Step::Remember { .. } => true,
            _ => false,
        }
    }
}

} // verus!
