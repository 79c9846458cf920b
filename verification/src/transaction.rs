use vstd::prelude::*;

use crate::error::TransactionError;

verus! {

/// A statement that the transaction lifecycle itself directs at its
/// connection. Caller-issued statements run through [`Transaction::inner`]
/// and are not part of the lifecycle, so they are not modelled here.
#[derive(Clone, Copy, PartialEq, Eq, Structural, Debug)]
pub enum Statement {
    Begin,
    Commit,
    Rollback,
}

/// How many times statement `s` occurs in `log`.
pub open spec fn occurrences(log: Seq<Statement>, s: Statement) -> nat
    decreases log.len(),
{
    if log.len() == 0 {
        0
    } else {
        occurrences(log.drop_last(), s) + (if log.last() == s {
            1nat
        } else {
            0nat
        })
    }
}

/// A guard for one database transaction.
///
/// The connection slot is `Some` while the transaction is live and `None`
/// once it has been terminated; the slot itself is the discriminator of the
/// lifecycle state machine. The ghost log records every lifecycle statement
/// this value has directed at its connection; the surrounding driver layer
/// is expected to issue exactly those statements, in order.
pub struct Transaction<C> {
    connection: Option<C>,
    history: Ghost<Seq<Statement>>,
}

impl<C> Transaction<C> {
    /// The connection slot: `Some` iff the transaction is live.
    pub closed spec fn slot(&self) -> Option<C> {
        self.connection
    }

    /// The lifecycle statements directed at the connection so far.
    pub closed spec fn log(&self) -> Seq<Statement> {
        self.history@
    }

    pub open spec fn is_live(&self) -> bool {
        self.slot() is Some
    }

    pub open spec fn is_terminated(&self) -> bool {
        self.slot() is None
    }

    /// Well-formedness: a live transaction has issued exactly a begin; a
    /// terminated one has either never begun or has followed its begin with
    /// exactly one terminal statement.
    pub open spec fn wf(&self) -> bool {
        &&& (self.is_live() ==> self.log() == seq![Statement::Begin])
        &&& (self.is_terminated() ==> {
            ||| self.log() == Seq::<Statement>::empty()
            ||| self.log() == seq![Statement::Begin, Statement::Commit]
            ||| self.log() == seq![Statement::Begin, Statement::Rollback]
        })
    }

    /// Wrap a connection over which a begin statement has just been issued,
    /// yielding a live transaction that has directed exactly one begin and
    /// no terminal statement at its connection.
    pub fn new(connection: C) -> (t: Transaction<C>)
        ensures
            t.wf(),
            t.is_live(),
            t.slot() == Some(connection),
            t.log() == seq![Statement::Begin],
    {
        let ghost log: Seq<Statement> = seq![Statement::Begin];
        Transaction { connection: Some(connection), history: Ghost(log) }
    }

    /// Exclusive access to the live connection, for the caller to issue
    /// arbitrary statements; refused once the transaction has terminated.
    pub fn inner(&mut self) -> (r: Result<&mut C, TransactionError>)
        ensures
            r is Ok <==> old(self).is_live(),
            old(self).is_live() ==> {
                &&& *r->Ok_0 == old(self).slot()->Some_0
                &&& final(self).slot() == Some(*final(r->Ok_0))
                &&& final(self).log() == old(self).log()
            },
            old(self).is_terminated() ==> {
                &&& r matches Err(e) && e == TransactionError::MissingConnection
                &&& *final(self) == *old(self)
            },
    {
        match self.connection.as_mut() {
            Some(connection) => Ok(connection),
            None => Err(TransactionError::MissingConnection),
        }
    }

    /// Terminate the transaction with a commit: the slot is moved out
    /// before the terminal statement is issued, so no further terminal
    /// statement can ever be directed at this connection. On success the
    /// connection is surrendered to the caller, who owes it exactly one
    /// commit statement; a transaction that was already terminated is
    /// refused and left unchanged.
    pub fn commit(&mut self) -> (r: Result<C, TransactionError>)
        ensures
            old(self).wf() ==> final(self).wf(),
            final(self).is_terminated(),
            r is Ok <==> old(self).is_live(),
            old(self).is_live() ==> {
                &&& r->Ok_0 == old(self).slot()->Some_0
                &&& final(self).log() == old(self).log().push(Statement::Commit)
            },
            old(self).wf() && old(self).is_live() ==> final(self).log() == seq![
                Statement::Begin,
                Statement::Commit,
            ],
            old(self).is_terminated() ==> {
                &&& r matches Err(e) && e == TransactionError::MissingConnection
                &&& *final(self) == *old(self)
            },
    {
        match self.connection.take() {
            Some(connection) => {
                self.history = Ghost(self.history@.push(Statement::Commit));
                proof {
                    assert(seq![Statement::Begin].push(Statement::Commit) =~= seq![
                        Statement::Begin,
                        Statement::Commit,
                    ]);
                }
                Ok(connection)
            },
            None => Err(TransactionError::MissingConnection),
        }
    }

    /// Terminate the transaction with a rollback, symmetric to
    /// [`Transaction::commit`]: on success the caller owes the surrendered
    /// connection exactly one rollback statement.
    pub fn rollback(&mut self) -> (r: Result<C, TransactionError>)
        ensures
            old(self).wf() ==> final(self).wf(),
            final(self).is_terminated(),
            r is Ok <==> old(self).is_live(),
            old(self).is_live() ==> {
                &&& r->Ok_0 == old(self).slot()->Some_0
                &&& final(self).log() == old(self).log().push(Statement::Rollback)
            },
            old(self).wf() && old(self).is_live() ==> final(self).log() == seq![
                Statement::Begin,
                Statement::Rollback,
            ],
            old(self).is_terminated() ==> {
                &&& r matches Err(e) && e == TransactionError::MissingConnection
                &&& *final(self) == *old(self)
            },
    {
        match self.connection.take() {
            Some(connection) => {
                self.history = Ghost(self.history@.push(Statement::Rollback));
                proof {
                    assert(seq![Statement::Begin].push(Statement::Rollback) =~= seq![
                        Statement::Begin,
                        Statement::Rollback,
                    ]);
                }
                Ok(connection)
            },
            None => Err(TransactionError::MissingConnection),
        }
    }

    /// The abandonment path, called by the surrounding finalizer when the
    /// value is discarded. A transaction still live at that point is rolled
    /// back: the connection comes back as `Some` and the finalizer owes it
    /// exactly one rollback statement and no commit. A transaction already
    /// terminated yields `None`, so the finalizer running after an explicit
    /// commit or rollback is a no-op and no second terminal statement is
    /// ever issued.
    pub fn abandon(&mut self) -> (r: Option<C>)
        ensures
            old(self).wf() ==> final(self).wf(),
            final(self).is_terminated(),
            r is Some <==> old(self).is_live(),
            old(self).is_live() ==> {
                &&& r->Some_0 == old(self).slot()->Some_0
                &&& final(self).log() == old(self).log().push(Statement::Rollback)
            },
            old(self).wf() && old(self).is_live() ==> {
                &&& final(self).log() == seq![Statement::Begin, Statement::Rollback]
                &&& occurrences(final(self).log(), Statement::Rollback) == 1
                &&& occurrences(final(self).log(), Statement::Commit) == 0
            },
            old(self).is_terminated() ==> {
                &&& r is None
                &&& *final(self) == *old(self)
            },
    {
        let r = self.rollback();
        proof {
            if old(self).is_live() {
                lemma_occurrences_of_lifecycle_logs(Statement::Rollback);
                lemma_occurrences_of_lifecycle_logs(Statement::Commit);
            }
        }
        match r {
            Ok(connection) => Some(connection),
            Err(_) => None,
        }
    }
}

/// Appending one statement to a log adds one occurrence of that statement
/// and leaves every other count unchanged.
proof fn lemma_occurrences_push(log: Seq<Statement>, a: Statement, s: Statement)
    ensures
        occurrences(log.push(a), s) == occurrences(log, s) + (if a == s {
            1nat
        } else {
            0nat
        }),
{
    assert(log.push(a).drop_last() =~= log);
    assert(log.push(a).last() == a);
}

/// The occurrence counts of each statement in the logs that a well-formed
/// transaction can hold.
proof fn lemma_occurrences_of_lifecycle_logs(s: Statement)
    ensures
        occurrences(Seq::<Statement>::empty(), s) == 0,
        occurrences(seq![Statement::Begin], s) == (if s == Statement::Begin {
            1nat
        } else {
            0nat
        }),
        occurrences(seq![Statement::Begin, Statement::Commit], s) == (if s == Statement::Begin
            || s == Statement::Commit {
            1nat
        } else {
            0nat
        }),
        occurrences(seq![Statement::Begin, Statement::Rollback], s) == (if s == Statement::Begin
            || s == Statement::Rollback {
            1nat
        } else {
            0nat
        }),
{
    let empty = Seq::<Statement>::empty();
    assert(occurrences(empty, s) == 0);
    assert(seq![Statement::Begin] =~= empty.push(Statement::Begin));
    lemma_occurrences_push(empty, Statement::Begin, s);
    assert(seq![Statement::Begin, Statement::Commit] =~= seq![Statement::Begin].push(
        Statement::Commit,
    ));
    lemma_occurrences_push(seq![Statement::Begin], Statement::Commit, s);
    assert(seq![Statement::Begin, Statement::Rollback] =~= seq![Statement::Begin].push(
        Statement::Rollback,
    ));
    lemma_occurrences_push(seq![Statement::Begin], Statement::Rollback, s);
}

/// Law: a live, well-formed transaction has directed exactly one begin
/// statement at its connection, and no terminal statement.
pub proof fn lemma_live_transaction_has_begun_once<C>(t: Transaction<C>)
    requires
        t.wf(),
        t.is_live(),
    ensures
        occurrences(t.log(), Statement::Begin) == 1,
        occurrences(t.log(), Statement::Commit) == 0,
        occurrences(t.log(), Statement::Rollback) == 0,
{
    lemma_occurrences_of_lifecycle_logs(Statement::Begin);
    lemma_occurrences_of_lifecycle_logs(Statement::Commit);
    lemma_occurrences_of_lifecycle_logs(Statement::Rollback);
}

/// Law: a well-formed transaction directs at most one terminal statement
/// (commit or rollback) at its connection, in any state.
pub proof fn lemma_terminal_sent_at_most_once<C>(t: Transaction<C>)
    requires
        t.wf(),
    ensures
        occurrences(t.log(), Statement::Commit) + occurrences(t.log(), Statement::Rollback) <= 1,
{
    lemma_occurrences_of_lifecycle_logs(Statement::Commit);
    lemma_occurrences_of_lifecycle_logs(Statement::Rollback);
}

/// Law: a well-formed transaction that began and was then terminated has
/// directed exactly one begin, first, and exactly one terminal statement at
/// its connection — never zero terminals, never two.
pub proof fn lemma_termination_is_exactly_once<C>(t: Transaction<C>)
    requires
        t.wf(),
        t.is_terminated(),
        t.log().len() > 0,
    ensures
        t.log()[0] == Statement::Begin,
        occurrences(t.log(), Statement::Begin) == 1,
        occurrences(t.log(), Statement::Commit) + occurrences(t.log(), Statement::Rollback) == 1,
{
    lemma_occurrences_of_lifecycle_logs(Statement::Begin);
    lemma_occurrences_of_lifecycle_logs(Statement::Commit);
    lemma_occurrences_of_lifecycle_logs(Statement::Rollback);
}

impl<C> Default for Transaction<C> {
    /// A transaction that never began: its slot is empty and it has
    /// directed no statement at any connection, so every operation on it is
    /// refused with [`TransactionError::MissingConnection`].
    fn default() -> (t: Self)
        ensures
            t.wf(),
            t.is_terminated(),
            t.log() == Seq::<Statement>::empty(),
    {
        let ghost log: Seq<Statement> = Seq::empty();
        Transaction { connection: None, history: Ghost(log) }
    }
}

impl<C> PartialEq for Transaction<C> {
    /// Two transactions are equal iff both are terminated: liveness is a
    /// single-owner resource, so a live transaction is never equal to
    /// anything, not even another live transaction.
    fn eq(&self, other: &Self) -> bool {
        self.connection.is_none() && other.connection.is_none()
    }
}

impl<C> vstd::std_specs::cmp::PartialEqSpecImpl for Transaction<C> {
    open spec fn obeys_eq_spec() -> bool {
        true
    }

    open spec fn eq_spec(&self, other: &Self) -> bool {
        self.is_terminated() && other.is_terminated()
    }
}

impl<C> Eq for Transaction<C> {

}

} // verus!
