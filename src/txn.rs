//! The life cycle of one server-side transaction and the bookmarks that
//! order transactions causally.
//!
//! Every step is a decision on a server reply: the caller sends the request
//! that a step names, and hands the reply it got to the matching `on_*`
//! method, which moves the transaction along
//! `NotStarted -> Active -> {Committed, RolledBack}`. The two last states
//! are terminal: no step leaves them.
use crate::errors::Error;
use vstd::prelude::*;

verus! {

/// Access mode of a transaction.
#[derive(Debug, Clone, Copy, PartialEq, Eq, Structural)]
pub enum Operation {
    Read,
    Write,
}

/// Where a transaction stands in its life cycle.
#[derive(Debug, Clone, Copy, PartialEq, Eq, Structural)]
pub enum TxnState {
    NotStarted,
    Active,
    Committed,
    RolledBack,
}

/// Whether no step leaves `s`.
pub open spec fn is_terminal(s: TxnState) -> bool {
    s == TxnState::Committed || s == TxnState::RolledBack
}

/// The server's answer to a begin, run or rollback request.
#[derive(Debug, Clone, PartialEq, Eq)]
pub enum Reply {
    Success,
    /// The server refused the request, for the given reason.
    Failure(String),
    /// The server refused a statement and gave the transaction up.
    Poisoned(String),
    /// The transport could not deliver the request.
    Unreachable(String),
}

/// The server's answer to a commit request.
#[derive(Debug, Clone, PartialEq, Eq)]
pub enum CommitReply {
    /// Committed; with the bookmark of the new database state, if the
    /// server supplied one.
    Committed(Option<String>),
    /// The server refused to commit (a conflict, say) and rolled back.
    Refused(String),
    /// The transport could not deliver the request.
    Unreachable(String),
}

/// The bookmarks that a begin request forwards for a caller that supplied
/// `supplied`: all of them, unchanged and in order.
pub open spec fn forwarded_bookmarks(supplied: Option<Seq<String>>) -> Seq<String> {
    match supplied {
        Some(b) => b,
        None => Seq::empty(),
    }
}

/// The bookmark a commit reply carries, if any.
pub open spec fn commit_bookmark(reply: CommitReply) -> Option<String> {
    match reply {
        CommitReply::Committed(b) => b,
        _ => None,
    }
}

/// A request to begin a transaction.
#[derive(Debug, Clone)]
pub struct BeginRequest {
    pub mode: Operation,
    pub bookmarks: Vec<String>,
}

/// The begin request for a transaction in `mode`, forwarding the bookmarks
/// the caller supplied exactly as given.
pub fn begin_request(mode: Operation, bookmarks: Option<Vec<String>>) -> (r: BeginRequest)
    ensures
        r.mode == mode,
        r.bookmarks@ == forwarded_bookmarks(
            match bookmarks {
                Some(b) => Some(b@),
                None => None,
            },
        ),
{
    match bookmarks {
        Some(b) => BeginRequest { mode, bookmarks: b },
        None => BeginRequest { mode, bookmarks: Vec::new() },
    }
}

/// Extracts the bookmark of a commit reply; its absence is no error.
pub fn on_commit_bookmark(reply: &CommitReply) -> (r: Option<String>)
    ensures
        r == commit_bookmark(*reply),
{
    match reply {
        CommitReply::Committed(Some(b)) => Some(b.clone()),
        _ => None,
    }
}

/// Bookmark propagation: the bookmark that a commit hands back is what a
/// transaction begun with it forwards to the server, alone and unchanged,
/// so the server orders the new transaction after that commit.
pub proof fn lemma_bookmark_propagation(reply: CommitReply, b: String)
    requires
        commit_bookmark(reply) == Some(b),
    ensures
        reply == CommitReply::Committed(Some(b)),
        forwarded_bookmarks(Some(seq![b])) == seq![b],
{
}

/// A transaction, as this side of the connection sees it.
#[derive(Debug)]
pub struct Transaction {
    handle: u64,
    mode: Operation,
    state: TxnState,
    bookmarks: Vec<String>,
}

impl Transaction {
    pub closed spec fn handle_spec(&self) -> u64 {
        self.handle
    }

    pub closed spec fn mode_spec(&self) -> Operation {
        self.mode
    }

    pub closed spec fn state_spec(&self) -> TxnState {
        self.state
    }

    /// The bookmarks the transaction was begun with.
    pub closed spec fn bookmarks_spec(&self) -> Seq<String> {
        self.bookmarks@
    }

    /// A transaction that has not been begun yet, for `request`, under the
    /// identifier `handle` that the caller's identifier source chose.
    pub fn new(handle: u64, request: BeginRequest) -> (r: Self)
        ensures
            r.handle_spec() == handle,
            r.mode_spec() == request.mode,
            r.bookmarks_spec() == request.bookmarks@,
            r.state_spec() == TxnState::NotStarted,
    {
        Transaction { handle, mode: request.mode, state: TxnState::NotStarted, bookmarks: request.bookmarks }
    }

    /// Takes the server's reply to the begin request. On success the
    /// transaction is active; a refusal or a transport failure leaves it
    /// where it was and is reported.
    pub fn on_begin(&mut self, reply: Reply) -> (r: Result<(), Error>)
        ensures
            final(self).handle_spec() == old(self).handle_spec(),
            final(self).mode_spec() == old(self).mode_spec(),
            final(self).bookmarks_spec() == old(self).bookmarks_spec(),
            old(self).state_spec() != TxnState::NotStarted ==> (r matches Err(
                Error::TransactionError(_),
            ) && final(self).state_spec() == old(self).state_spec()),
            old(self).state_spec() == TxnState::NotStarted ==> match reply {
                Reply::Success => r == Ok::<(), Error>(()) && final(self).state_spec()
                    == TxnState::Active,
                Reply::Failure(m) | Reply::Poisoned(m) => r == Err::<(), Error>(
                    Error::TransactionError(m),
                ) && final(self).state_spec() == TxnState::NotStarted,
                Reply::Unreachable(m) => r == Err::<(), Error>(Error::TransportError(m))
                    && final(self).state_spec() == TxnState::NotStarted,
            },
    {
        if self.state != TxnState::NotStarted {
            return Err(Error::TransactionError("transaction already begun".to_owned()));
        }
        match reply {
            Reply::Success => {
                self.state = TxnState::Active;
                Ok(())
            },
            Reply::Failure(m) | Reply::Poisoned(m) => Err(Error::TransactionError(m)),
            Reply::Unreachable(m) => Err(Error::TransportError(m)),
        }
    }

    /// Whether statements may be sent: only an active transaction takes
    /// them. Callers check this before sending a run or stream request.
    pub fn check_open(&self) -> (r: Result<(), Error>)
        ensures
            self.state_spec() == TxnState::Active <==> r is Ok,
            r is Err ==> r matches Err(Error::TransactionError(_)),
    {
        if self.state == TxnState::Active {
            Ok(())
        } else {
            Err(Error::TransactionError("transaction is not active".to_owned()))
        }
    }

    /// Takes the server's reply to a statement run inside the transaction.
    /// A refused statement is reported and leaves the transaction active,
    /// unless the server gave the transaction up, which rolls it back.
    pub fn on_run(&mut self, reply: Reply) -> (r: Result<(), Error>)
        ensures
            final(self).handle_spec() == old(self).handle_spec(),
            final(self).mode_spec() == old(self).mode_spec(),
            final(self).bookmarks_spec() == old(self).bookmarks_spec(),
            old(self).state_spec() != TxnState::Active ==> (r matches Err(
                Error::TransactionError(_),
            ) && final(self).state_spec() == old(self).state_spec()),
            old(self).state_spec() == TxnState::Active ==> match reply {
                Reply::Success => r == Ok::<(), Error>(()) && final(self).state_spec()
                    == TxnState::Active,
                Reply::Failure(m) => r == Err::<(), Error>(Error::StatementError(m))
                    && final(self).state_spec() == TxnState::Active,
                Reply::Poisoned(m) => r == Err::<(), Error>(Error::StatementError(m))
                    && final(self).state_spec() == TxnState::RolledBack,
                Reply::Unreachable(m) => r == Err::<(), Error>(Error::TransportError(m))
                    && final(self).state_spec() == TxnState::Active,
            },
    {
        if self.state != TxnState::Active {
            return Err(Error::TransactionError("transaction is not active".to_owned()));
        }
        match reply {
            Reply::Success => Ok(()),
            Reply::Failure(m) => Err(Error::StatementError(m)),
            Reply::Poisoned(m) => {
                self.state = TxnState::RolledBack;
                Err(Error::StatementError(m))
            },
            Reply::Unreachable(m) => Err(Error::TransportError(m)),
        }
    }

    /// Takes the server's reply to the commit request. A commit ends the
    /// transaction and hands back the bookmark the server supplied; a
    /// refusal rolls it back.
    pub fn on_commit(&mut self, reply: CommitReply) -> (r: Result<Option<String>, Error>)
        ensures
            final(self).handle_spec() == old(self).handle_spec(),
            final(self).mode_spec() == old(self).mode_spec(),
            final(self).bookmarks_spec() == old(self).bookmarks_spec(),
            old(self).state_spec() != TxnState::Active ==> (r matches Err(
                Error::TransactionError(_),
            ) && final(self).state_spec() == old(self).state_spec()),
            old(self).state_spec() == TxnState::Active ==> match reply {
                CommitReply::Committed(b) => r == Ok::<Option<String>, Error>(b)
                    && final(self).state_spec() == TxnState::Committed,
                CommitReply::Refused(m) => r == Err::<Option<String>, Error>(
                    Error::TransactionError(m),
                ) && final(self).state_spec() == TxnState::RolledBack,
                CommitReply::Unreachable(m) => r == Err::<Option<String>, Error>(
                    Error::TransportError(m),
                ) && final(self).state_spec() == TxnState::Active,
            },
    {
        if self.state != TxnState::Active {
            return Err(Error::TransactionError("transaction is not active".to_owned()));
        }
        match reply {
            CommitReply::Committed(b) => {
                self.state = TxnState::Committed;
                Ok(b)
            },
            CommitReply::Refused(m) => {
                self.state = TxnState::RolledBack;
                Err(Error::TransactionError(m))
            },
            CommitReply::Unreachable(m) => Err(Error::TransportError(m)),
        }
    }

    /// Whether a rollback must be sent to the server: only for an active
    /// transaction. On any other, rollback is a local no-op.
    pub fn needs_rollback(&self) -> (r: bool)
        ensures
            r == (self.state_spec() == TxnState::Active),
    {
        self.state == TxnState::Active
    }

    /// Takes the server's reply to the rollback request, or marks a
    /// transaction that never began as rolled back. The transaction ends
    /// rolled back whatever the reply; a terminal one is left as it is.
    pub fn on_rollback(&mut self, reply: Reply) -> (r: Result<(), Error>)
        ensures
            final(self).handle_spec() == old(self).handle_spec(),
            final(self).mode_spec() == old(self).mode_spec(),
            final(self).bookmarks_spec() == old(self).bookmarks_spec(),
            is_terminal(old(self).state_spec()) ==> (r == Ok::<(), Error>(())
                && final(self).state_spec() == old(self).state_spec()),
            !is_terminal(old(self).state_spec()) ==> (final(self).state_spec()
                == TxnState::RolledBack && match reply {
                Reply::Success => r == Ok::<(), Error>(()),
                Reply::Failure(m) | Reply::Poisoned(m) => r == Err::<(), Error>(
                    Error::TransactionError(m),
                ),
                Reply::Unreachable(m) => r == Err::<(), Error>(Error::TransportError(m)),
            }),
    {
        if self.state == TxnState::Committed || self.state == TxnState::RolledBack {
            return Ok(());
        }
        self.state = TxnState::RolledBack;
        match reply {
            Reply::Success => Ok(()),
            Reply::Failure(m) | Reply::Poisoned(m) => Err(Error::TransactionError(m)),
            Reply::Unreachable(m) => Err(Error::TransportError(m)),
        }
    }

    pub fn handle(&self) -> (r: u64)
        ensures
            r == self.handle_spec(),
    {
        self.handle
    }

    pub fn mode(&self) -> (r: Operation)
        ensures
            r == self.mode_spec(),
    {
        self.mode
    }

    pub fn state(&self) -> (r: TxnState)
        ensures
            r == self.state_spec(),
    {
        self.state
    }

    pub fn bookmarks(&self) -> (r: &Vec<String>)
        ensures
            r@ == self.bookmarks_spec(),
    {
        &self.bookmarks
    }
}

} // verus!
