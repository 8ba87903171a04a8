//! Cursors: the documents of a result, buffered one chunk at a time.
//!
//! A cursor does no I/O. Asked for its next step, it yields a buffered
//! document, or asks its caller to send one continuation request, or
//! reports the end. The caller hands the response to the request back.
use crate::datum::{lemma_view_items, view_items, Datum, Value};
use crate::errors::{Error, ErrorKind};
use crate::response::{Response, ResponseKind, ResponseModel};
use vstd::prelude::*;

verus! {

/// Where a cursor stands.
#[derive(Clone, Copy, Debug, PartialEq, Eq, Structural)]
pub enum CursorState {
    /// Documents are buffered, or the end is known.
    Buffered,
    /// A continuation request is out; its response is awaited.
    AwaitingContinuation,
    /// Every document was yielded.
    Exhausted,
}

/// A cursor over the documents of a result.
#[derive(Debug)]
pub struct Cursor {
    chunk: Vec<Datum>,
    pos: usize,
    more: bool,
    token: u64,
    state: CursorState,
}

/// The mathematical value of a `Cursor`.
pub struct CursorModel {
    pub chunk: Seq<Value>,
    pub pos: int,
    pub more: bool,
    pub token: nat,
    pub state: CursorState,
}

/// What a cursor does next.
#[derive(Debug, PartialEq, Eq)]
pub enum Step {
    /// A document.
    Item(Datum),
    /// Send one continuation request for the query with this token, and
    /// hand its response to `receive`.
    Continue(u64),
    /// A continuation request is out; nothing can be yielded until its
    /// response is received.
    Waiting,
    /// The documents are all yielded.
    Done,
}

/// The mathematical value of a `Step`.
pub enum StepModel {
    Item(Value),
    Continue(nat),
    Waiting,
    Done,
}

impl Step {
    pub open spec fn view(&self) -> StepModel {
        match self {
            Step::Item(d) => StepModel::Item(d@),
            Step::Continue(t) => StepModel::Continue(*t as nat),
            Step::Waiting => StepModel::Waiting,
            Step::Done => StepModel::Done,
        }
    }
}

/// A cursor that buffers `chunk`; `more` where further chunks remain.
pub open spec fn buffered(chunk: Seq<Value>, more: bool, token: nat) -> CursorModel {
    CursorModel { chunk, pos: 0, more, token, state: CursorState::Buffered }
}

/// The cursor that a response of the query with `token` yields: a
/// sequence or a partial response whose payload is an array.
pub open spec fn cursor_of(r: ResponseModel, token: nat) -> Option<CursorModel> {
    match r.values {
        Value::Array(items) => match r.kind {
            ResponseKind::Sequence => Some(buffered(items, false, token)),
            ResponseKind::Partial => Some(buffered(items, true, token)),
            ResponseKind::Atom => None,
        },
        _ => None,
    }
}

/// The next state of a cursor, and what it does.
pub open spec fn step(c: CursorModel) -> (CursorModel, StepModel) {
    match c.state {
        CursorState::Buffered => if 0 <= c.pos < c.chunk.len() {
            (CursorModel { pos: c.pos + 1, ..c }, StepModel::Item(c.chunk[c.pos]))
        } else if c.more {
            (
                CursorModel { state: CursorState::AwaitingContinuation, ..c },
                StepModel::Continue(c.token),
            )
        } else {
            (CursorModel { state: CursorState::Exhausted, ..c }, StepModel::Done)
        },
        CursorState::AwaitingContinuation => (c, StepModel::Waiting),
        CursorState::Exhausted => (c, StepModel::Done),
    }
}

/// The state of a cursor after it receives the response `r` to its
/// continuation request.
pub open spec fn received(c: CursorModel, r: ResponseModel) -> Option<CursorModel> {
    if c.state == CursorState::AwaitingContinuation {
        match cursor_of(r, c.token) {
            Some(n) => Some(n),
            None => None,
        }
    } else {
        None
    }
}

/// What a cursor does over `n` steps.
pub open spec fn run(c: CursorModel, n: nat) -> Seq<StepModel>
    decreases n,
{
    if n == 0 {
        Seq::empty()
    } else {
        seq![step(c).1] + run(step(c).0, (n - 1) as nat)
    }
}

impl Cursor {
    pub closed spec fn view(&self) -> CursorModel {
        CursorModel {
            chunk: view_items(self.chunk@),
            pos: self.pos as int,
            more: self.more,
            token: self.token as nat,
            state: self.state,
        }
    }

    #[verifier::type_invariant]
    spec fn wf(&self) -> bool {
        self.pos <= self.chunk@.len()
    }


    /// The cursor that the response to the query with `token` yields; a
    /// driver error for an atom, or a payload that is not an array.
    pub fn from_response(res: Response, token: u64) -> (r: Result<Cursor, Error>)
        ensures
            match cursor_of(res@, token as nat) {
                Some(c) => r matches Ok(x) && x@ == c,
                None => r matches Err(e) && e@.0 == ErrorKind::Driver,
            },
    {
        let Response { kind, values } = res;
        match values {
            Datum::Array(chunk) => match kind {
                ResponseKind::Sequence => Ok(
                    Cursor { chunk, pos: 0, more: false, token, state: CursorState::Buffered },
                ),
                ResponseKind::Partial => Ok(
                    Cursor { chunk, pos: 0, more: true, token, state: CursorState::Buffered },
                ),
                ResponseKind::Atom => Err(
                    Error::DriverError("an atom is not a sequence of documents".to_owned()),
                ),
            },
            _ => Err(Error::DriverError("expected a list of documents".to_owned())),
        }
    }

    /// Where this cursor stands.
    pub fn state(&self) -> (r: CursorState)
        ensures
            r == self@.state,
    {
        self.state
    }

    /// The next step: a buffered document; else one continuation request,
    /// where more chunks remain; else the end.
    pub fn next(&mut self) -> (r: Step)
        ensures
            (final(self)@, r@) == step(old(self)@),
    {
        proof {
            use_type_invariant(&*self);
            lemma_view_items(self.chunk@);
        }
        match self.state {
            CursorState::Buffered => {
                if self.pos < self.chunk.len() {
                    let d = self.chunk[self.pos].deep_copy();
                    self.pos = self.pos + 1;
                    Step::Item(d)
                } else if self.more {
                    self.state = CursorState::AwaitingContinuation;
                    Step::Continue(self.token)
                } else {
                    self.state = CursorState::Exhausted;
                    Step::Done
                }
            },
            CursorState::AwaitingContinuation => Step::Waiting,
            CursorState::Exhausted => Step::Done,
        }
    }

    /// Takes in the response to the continuation request: its chunk is
    /// buffered, and it ends the result where it is a sequence. A driver
    /// error where no request is out, or the response holds no chunk.
    pub fn receive(&mut self, res: Response) -> (r: Result<(), Error>)
        ensures
            match received(old(self)@, res@) {
                Some(c) => r is Ok && final(self)@ == c,
                None => (r matches Err(e) && e@.0 == ErrorKind::Driver) && final(self)@ == old(
                    self,
                )@,
            },
    {
        if self.state != CursorState::AwaitingContinuation {
            return Err(Error::DriverError("no continuation request is out".to_owned()));
        }
        match Cursor::from_response(res, self.token) {
            Ok(c) => {
                *self = c;
                Ok(())
            },
            Err(e) => Err(e),
        }
    }

    /// Copies of the buffered documents that were not yielded yet.
    pub fn iter(&self) -> (r: Vec<Datum>)
        ensures
            view_items(r@) == self@.chunk.subrange(self@.pos, self@.chunk.len() as int),
    {
        proof {
            use_type_invariant(self);
            lemma_view_items(self.chunk@);
        }
        let mut out: Vec<Datum> = Vec::new();
        let mut i: usize = self.pos;
        while i < self.chunk.len()
            invariant
                self.pos <= i <= self.chunk@.len(),
                view_items(self.chunk@).len() == self.chunk@.len(),
                forall|j: int|
                    0 <= j < self.chunk@.len() ==> #[trigger] view_items(self.chunk@)[j]
                        == self.chunk@[j]@,
                view_items(out@) == view_items(self.chunk@).subrange(self.pos as int, i as int),
            decreases self.chunk@.len() - i,
        {
            let d = self.chunk[i].deep_copy();
            let ghost prev = out@;
            out.push(d);
            proof {
                assert(out@.drop_last() =~= prev);
                assert(view_items(self.chunk@).subrange(self.pos as int, i + 1) =~= view_items(
                    self.chunk@,
                ).subrange(self.pos as int, i as int).push(d@));
            }
            i = i + 1;
        }
        out
    }

    /// The buffered documents that were not yielded yet.
    pub fn into_iter(self) -> (r: Vec<Datum>)
        ensures
            view_items(r@) == self@.chunk.subrange(self@.pos, self@.chunk.len() as int),
    {
        proof {
            use_type_invariant(&self);
        }
        let ghost whole = self.chunk@;
        let mut chunk = self.chunk;
        let rest = chunk.split_off(self.pos);
        proof {
            assert(rest@ =~= whole.subrange(self.pos as int, whole.len() as int));
            lemma_view_items(rest@);
            lemma_view_items(whole);
            assert(view_items(rest@) =~= view_items(whole).subrange(
                self.pos as int,
                whole.len() as int,
            ));
        }
        rest
    }
}

proof fn lemma_run_unfold(c: CursorModel, n: nat)
    requires
        n > 0,
    ensures
        run(c, n) == seq![step(c).1] + run(step(c).0, (n - 1) as nat),
{
}

proof fn lemma_run_len(c: CursorModel, n: nat)
    ensures
        run(c, n).len() == n,
    decreases n,
{
    if n > 0 {
        lemma_run_len(step(c).0, (n - 1) as nat);
    }
}

proof fn lemma_no_continue(c: CursorModel, n: nat)
    requires
        !c.more,
        c.state != CursorState::AwaitingContinuation,
    ensures
        forall|i: int| 0 <= i < n ==> !(#[trigger] run(c, n)[i] is Continue),
    decreases n,
{
    if n > 0 {
        lemma_no_continue(step(c).0, (n - 1) as nat);
        lemma_run_unfold(c, n);
        lemma_run_len(step(c).0, (n - 1) as nat);
        assert forall|i: int| 0 <= i < n implies !(#[trigger] run(c, n)[i] is Continue) by {
            if i > 0 {
                assert(run(c, n)[i] == run(step(c).0, (n - 1) as nat)[i - 1]);
            }
        }
    }
}

proof fn lemma_waiting(c: CursorModel, n: nat)
    requires
        c.state == CursorState::AwaitingContinuation,
    ensures
        run(c, n) == Seq::new(n, |i: int| StepModel::Waiting),
    decreases n,
{
    if n > 0 {
        lemma_waiting(c, (n - 1) as nat);
        assert(run(c, n) =~= Seq::new(n, |i: int| StepModel::Waiting));
    }
}

proof fn lemma_drain(c: CursorModel, n: nat)
    requires
        c.state == CursorState::Buffered,
        c.more,
        0 <= c.pos <= c.chunk.len(),
    ensures
        run(c, (c.chunk.len() - c.pos) as nat + 1 + n) == Seq::new(
            (c.chunk.len() - c.pos) as nat,
            |i: int| StepModel::Item(c.chunk[c.pos + i]),
        ) + seq![StepModel::Continue(c.token)] + Seq::new(n, |i: int| StepModel::Waiting),
    decreases c.chunk.len() - c.pos,
{
    let k = (c.chunk.len() - c.pos) as nat;
    lemma_run_unfold(c, k + 1 + n);
    if c.pos < c.chunk.len() {
        let c2 = step(c).0;
        lemma_drain(c2, n);
        assert(run(c, k + 1 + n) =~= Seq::new(k, |i: int| StepModel::Item(c.chunk[c.pos + i]))
            + seq![StepModel::Continue(c.token)] + Seq::new(n, |i: int| StepModel::Waiting));
    } else {
        lemma_waiting(step(c).0, n);
        assert(run(c, k + 1 + n) =~= Seq::new(k, |i: int| StepModel::Item(c.chunk[c.pos + i]))
            + seq![StepModel::Continue(c.token)] + Seq::new(n, |i: int| StepModel::Waiting));
    }
}

/// A cursor made from a sequence response never asks for a continuation,
/// however many steps it takes.
pub proof fn lemma_sequence_never_continues(items: Seq<Value>, token: nat, n: nat)
    ensures
        ({
            let c = cursor_of(
                ResponseModel { kind: ResponseKind::Sequence, values: Value::Array(items) },
                token,
            );
            &&& c is Some
            &&& forall|i: int| 0 <= i < n ==> !(#[trigger] run(c->0, n)[i] is Continue)
        }),
{
    lemma_no_continue(buffered(items, false, token), n);
}

/// A cursor made from a partial response yields its chunk, then asks for
/// exactly one continuation, with the query's token, and then yields
/// nothing and asks for nothing until the response to it is received.
pub proof fn lemma_partial_continues_once(items: Seq<Value>, token: nat, n: nat)
    ensures
        ({
            let c = cursor_of(
                ResponseModel { kind: ResponseKind::Partial, values: Value::Array(items) },
                token,
            );
            &&& c is Some
            &&& run(c->0, items.len() + 1 + n) == Seq::new(
                items.len(),
                |i: int| StepModel::Item(items[i]),
            ) + seq![StepModel::Continue(token)] + Seq::new(n, |i: int| StepModel::Waiting)
        }),
{
    let c = buffered(items, true, token);
    lemma_drain(c, n);
    assert(Seq::new((c.chunk.len() - c.pos) as nat, |i: int| StepModel::Item(c.chunk[c.pos + i]))
        =~= Seq::new(items.len(), |i: int| StepModel::Item(items[i])));
}

} // verus!
