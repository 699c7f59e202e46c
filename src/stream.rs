//! A pull cursor over the records of one statement.
//!
//! The cursor keeps the records the server has sent but the caller has not
//! taken yet. When that buffer runs dry while the server still holds more,
//! a pull answers `Pull::Fetch`: the caller asks the server for the next
//! batch and hands it over with `refill`.
use crate::errors::Error;
use crate::txn::{Transaction, TxnState};
use vstd::prelude::*;

verus! {

/// What one pull of a stream yields.
#[derive(Debug, Clone, PartialEq, Eq)]
pub enum Pull<R> {
    /// The next record, in the order the server produced them.
    Record(R),
    /// The buffer is empty and the server has more: fetch a batch, `refill`,
    /// and pull again.
    Fetch,
    /// The stream has ended naturally. This is reported exactly once.
    End,
}

/// A cursor over the records of the statement that the transaction with
/// handle `owner` ran.
#[derive(Debug)]
pub struct RecordStream<R> {
    owner: u64,
    buffered: Vec<R>,
    more: bool,
    ended: bool,
}

/// One pull of a stream whose buffer is `buffered`, whose server side still
/// holds records when `more`, and which has reported its end when `ended`:
/// the result, the buffer after the pull and whether the end is now
/// reported.
pub open spec fn pull_step<R>(buffered: Seq<R>, more: bool, ended: bool) -> (
    Result<Pull<R>, Error>,
    Seq<R>,
    bool,
) {
    if ended {
        (Err(Error::StreamExhausted), buffered, true)
    } else if buffered.len() > 0 {
        (Ok(Pull::Record(buffered[0])), buffered.drop_first(), false)
    } else if more {
        (Ok(Pull::Fetch), buffered, false)
    } else {
        (Ok(Pull::End), buffered, true)
    }
}

/// The results of `k` successive pulls from the given stream state, with
/// nothing fetched in between.
pub open spec fn pulls<R>(buffered: Seq<R>, more: bool, ended: bool, k: nat) -> Seq<
    Result<Pull<R>, Error>,
>
    decreases k,
{
    if k == 0 {
        Seq::empty()
    } else {
        let (r, b, e) = pull_step(buffered, more, ended);
        seq![r] + pulls(b, more, e, (k - 1) as nat)
    }
}

/// The `i`-th pull of a stream that holds all of `records` and expects no
/// more from the server: each record in turn, then the end, then errors.
pub open spec fn drained<R>(records: Seq<R>, i: int) -> Result<Pull<R>, Error> {
    if i < records.len() {
        Ok(Pull::Record(records[i]))
    } else if i == records.len() {
        Ok(Pull::End)
    } else {
        Err(Error::StreamExhausted)
    }
}

proof fn lemma_pulls_after_end<R>(buffered: Seq<R>, more: bool, k: nat)
    ensures
        pulls(buffered, more, true, k).len() == k,
        forall|i: int|
            0 <= i < k ==> #[trigger] pulls(buffered, more, true, k)[i] == Err::<Pull<R>, Error>(
                Error::StreamExhausted,
            ),
    decreases k,
{
    if k > 0 {
        lemma_pulls_after_end(buffered, more, (k - 1) as nat);
    }
}

/// Stream termination: once the server has sent everything, successive
/// pulls return the records in the order they were produced, then exactly
/// one end, then an error on every further pull.
pub proof fn lemma_stream_termination<R>(records: Seq<R>, k: nat)
    ensures
        pulls(records, false, false, k).len() == k,
        forall|i: int|
            0 <= i < k ==> #[trigger] pulls(records, false, false, k)[i] == drained(records, i),
    decreases k,
{
    if k > 0 {
        if records.len() > 0 {
            let rest = records.drop_first();
            lemma_stream_termination(rest, (k - 1) as nat);
            assert forall|i: int| 0 <= i < k implies #[trigger] pulls(records, false, false, k)[i]
                == drained(records, i) by {
                if i > 0 {
                    assert(pulls(records, false, false, k)[i] == pulls(
                        rest,
                        false,
                        false,
                        (k - 1) as nat,
                    )[i - 1]);
                    assert(drained(rest, i - 1) == drained(records, i));
                }
            }
        } else {
            lemma_pulls_after_end(records, false, (k - 1) as nat);
            assert forall|i: int| 0 <= i < k implies #[trigger] pulls(records, false, false, k)[i]
                == drained(records, i) by {
                if i > 0 {
                    assert(pulls(records, false, false, k)[i] == pulls(
                        records,
                        false,
                        true,
                        (k - 1) as nat,
                    )[i - 1]);
                }
            }
        }
    }
}

impl<R> RecordStream<R> {
    pub closed spec fn owner_spec(&self) -> u64 {
        self.owner
    }

    /// Records received and not yet pulled, oldest first.
    pub closed spec fn buffered_spec(&self) -> Seq<R> {
        self.buffered@
    }

    /// Whether the server still holds records of this statement.
    pub closed spec fn more_spec(&self) -> bool {
        self.more
    }

    /// Whether the end has been reported.
    pub closed spec fn ended_spec(&self) -> bool {
        self.ended
    }

    /// A stream for the transaction with handle `owner`, seeded with the
    /// first batch the server sent.
    pub fn new(owner: u64, first: Vec<R>, has_more: bool) -> (r: Self)
        ensures
            r.owner_spec() == owner,
            r.buffered_spec() == first@,
            r.more_spec() == has_more,
            !r.ended_spec(),
    {
        RecordStream { owner, buffered: first, more: has_more, ended: false }
    }

    /// Pulls the next record on behalf of `txn`. The transaction must be
    /// the stream's owner and still active: a stream is not valid once its
    /// transaction has ended. Otherwise the pull is refused and changes
    /// nothing.
    pub fn next(&mut self, txn: &Transaction) -> (r: Result<Pull<R>, Error>)
        ensures
            final(self).owner_spec() == old(self).owner_spec(),
            final(self).more_spec() == old(self).more_spec(),
            !(txn.handle_spec() == old(self).owner_spec() && txn.state_spec() == TxnState::Active)
                ==> (r matches Err(Error::TransactionError(_)) && *final(self) == *old(self)),
            txn.handle_spec() == old(self).owner_spec() && txn.state_spec() == TxnState::Active
                ==> ({
                let (res, b, e) = pull_step(
                    old(self).buffered_spec(),
                    old(self).more_spec(),
                    old(self).ended_spec(),
                );
                r == res && final(self).buffered_spec() == b && final(self).ended_spec() == e
            }),
    {
        if txn.handle() != self.owner {
            return Err(Error::TransactionError("stream belongs to another transaction".to_owned()));
        }
        if txn.check_open().is_err() {
            return Err(Error::TransactionError("transaction of the stream has ended".to_owned()));
        }
        if self.ended {
            Err(Error::StreamExhausted)
        } else if self.buffered.len() > 0 {
            let rec = self.buffered.remove(0);
            Ok(Pull::Record(rec))
        } else if self.more {
            Ok(Pull::Fetch)
        } else {
            self.ended = true;
            Ok(Pull::End)
        }
    }

    /// Hands over the next batch from the server, after a pull answered
    /// `Pull::Fetch`; `has_more` says whether the server holds still more.
    /// A stream that has ended ignores it.
    pub fn refill(&mut self, batch: Vec<R>, has_more: bool)
        ensures
            final(self).owner_spec() == old(self).owner_spec(),
            final(self).ended_spec() == old(self).ended_spec(),
            old(self).ended_spec() ==> *final(self) == *old(self),
            !old(self).ended_spec() ==> final(self).buffered_spec() == old(self).buffered_spec()
                + batch@ && final(self).more_spec() == has_more,
    {
        if !self.ended {
            let mut batch = batch;
            self.buffered.append(&mut batch);
            self.more = has_more;
        }
    }

    /// Whether abandoning the stream now leaves records on the server, which
    /// must then be told to discard them.
    pub fn needs_discard(&self) -> (r: bool)
        ensures
            r == (!self.ended_spec() && self.more_spec()),
    {
        !self.ended && self.more
    }

    /// Handle of the transaction that owns this stream.
    pub fn owner(&self) -> (r: u64)
        ensures
            r == self.owner_spec(),
    {
        self.owner
    }
}

} // verus!
