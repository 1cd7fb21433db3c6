//! Transactions and the states they go through.

use vstd::prelude::*;

use crate::error::{Error, ErrorView};

verus! {

/// The state of a transaction.
#[derive(Clone, Copy, Debug, PartialEq, Eq, Structural)]
pub enum TxnState {
    Begin,
    PrepareCommit,
    PrepareAbort,
    Committed,
    Aborted,
}

impl DeepView for TxnState {
    type V = TxnState;

    open spec fn deep_view(&self) -> TxnState {
        *self
    }
}

/// The text under which a state is stored.
pub open spec fn state_text(state: TxnState) -> Seq<char> {
    match state {
        TxnState::Begin => "BEGIN"@,
        TxnState::PrepareCommit => "PREPARE_COMMIT"@,
        TxnState::PrepareAbort => "PREPARE_ABORT"@,
        TxnState::Committed => "COMMITTED"@,
        TxnState::Aborted => "ABORTED"@,
    }
}

/// The state that is stored under a text.
pub open spec fn state_of_text(text: Seq<char>) -> Option<TxnState> {
    if text == "BEGIN"@ {
        Some(TxnState::Begin)
    } else if text == "PREPARE_COMMIT"@ {
        Some(TxnState::PrepareCommit)
    } else if text == "PREPARE_ABORT"@ {
        Some(TxnState::PrepareAbort)
    } else if text == "COMMITTED"@ {
        Some(TxnState::Committed)
    } else if text == "ABORTED"@ {
        Some(TxnState::Aborted)
    } else {
        None
    }
}

impl TxnState {
    /// Whether the outcome is decided, but not yet brought about.
    pub open spec fn prepared(self) -> bool {
        self is PrepareCommit || self is PrepareAbort
    }

    /// The state once the outcome is brought about.
    pub open spec fn outcome(self) -> TxnState {
        match self {
            TxnState::PrepareCommit => TxnState::Committed,
            TxnState::PrepareAbort => TxnState::Aborted,
            _ => self,
        }
    }

    /// Whether the outcome is decided, but not yet brought about.
    pub fn is_prepared(&self) -> (prepared: bool)
        ensures
            prepared == self.prepared(),
    {
        matches!(*self, TxnState::PrepareCommit) || matches!(*self, TxnState::PrepareAbort)
    }

    /// The state once the outcome is brought about.
    pub fn settled(&self) -> (state: TxnState)
        ensures
            state == self.outcome(),
    {
        match *self {
            TxnState::PrepareCommit => TxnState::Committed,
            TxnState::PrepareAbort => TxnState::Aborted,
            state => state,
        }
    }

    /// The text under which the state is stored.
    pub fn text(&self) -> (text: String)
        ensures
            text@ == state_text(*self),
    {
        match *self {
            TxnState::Begin => "BEGIN".to_owned(),
            TxnState::PrepareCommit => "PREPARE_COMMIT".to_owned(),
            TxnState::PrepareAbort => "PREPARE_ABORT".to_owned(),
            TxnState::Committed => "COMMITTED".to_owned(),
            TxnState::Aborted => "ABORTED".to_owned(),
        }
    }

    /// The state that is stored under a text.
    pub fn of_text(text: &String) -> (state: Result<TxnState, Error>)
        ensures
            match state {
                Ok(state) => state_of_text(text@) == Some(state),
                Err(error) => state_of_text(text@) is None && error.deep_view()
                    == ErrorView::UnknownTxnState(text@),
            },
    {
        if *text == "BEGIN".to_owned() {
            Ok(TxnState::Begin)
        } else if *text == "PREPARE_COMMIT".to_owned() {
            Ok(TxnState::PrepareCommit)
        } else if *text == "PREPARE_ABORT".to_owned() {
            Ok(TxnState::PrepareAbort)
        } else if *text == "COMMITTED".to_owned() {
            Ok(TxnState::Committed)
        } else if *text == "ABORTED".to_owned() {
            Ok(TxnState::Aborted)
        } else {
            Err(Error::UnknownTxnState(text.clone()))
        }
    }
}

/// A state is read back from the text under which it is stored.
pub proof fn state_text_is_read_back(state: TxnState)
    ensures
        state_of_text(state_text(state)) == Some(state),
{
    reveal_strlit("BEGIN");
    reveal_strlit("PREPARE_COMMIT");
    reveal_strlit("PREPARE_ABORT");
    reveal_strlit("COMMITTED");
    reveal_strlit("ABORTED");
    assert("BEGIN"@.len() == 5 && "PREPARE_COMMIT"@.len() == 14 && "PREPARE_ABORT"@.len() == 13
        && "COMMITTED"@.len() == 9 && "ABORTED"@.len() == 7);
}

/// Every text that names a state is the text under which that state is stored.
pub proof fn state_text_is_the_only_one(text: Seq<char>)
    ensures
        state_of_text(text) matches Some(state) ==> state_text(state) == text,
{
}

/// A transaction of a producer.
#[derive(Debug)]
pub struct Txn {
    pub name: String,
    pub producer_id: i64,
    pub producer_epoch: i16,
    pub status: TxnState,
}

/// What [`Txn`] stands for.
pub struct TxnView {
    pub name: Seq<char>,
    pub producer_id: i64,
    pub producer_epoch: i16,
    pub status: TxnState,
}

impl DeepView for Txn {
    type V = TxnView;

    open spec fn deep_view(&self) -> TxnView {
        TxnView {
            name: self.name@,
            producer_id: self.producer_id,
            producer_epoch: self.producer_epoch,
            status: self.status,
        }
    }
}

/// The transaction that a row tells of. One without a status has begun.
pub open spec fn txn_of_row(row: (Seq<char>, i64, i16, Option<Seq<char>>)) -> Result<
    TxnView,
    ErrorView,
> {
    let status = match row.3 {
        Some(text) => state_of_text(text),
        None => Some(TxnState::Begin),
    };
    match status {
        Some(status) => Ok(
            TxnView { name: row.0, producer_id: row.1, producer_epoch: row.2, status },
        ),
        None => Err(ErrorView::UnknownTxnState(row.3->0)),
    }
}

impl Txn {
    /// The transaction that a row tells of.
    pub fn of_row(row: &(String, i64, i16, Option<String>)) -> (txn: Result<Txn, Error>)
        ensures
            match txn {
                Ok(txn) => txn_of_row(row.deep_view()) == Ok::<_, ErrorView>(txn.deep_view()),
                Err(error) => txn_of_row(row.deep_view()) == Err::<TxnView, _>(error.deep_view()),
            },
    {
        let status = match &row.3 {
            Some(text) => match TxnState::of_text(text) {
                Ok(status) => status,
                Err(error) => return Err(error),
            },
            None => TxnState::Begin,
        };
        Ok(Txn { name: row.0.clone(), producer_id: row.1, producer_epoch: row.2, status })
    }
}

/// The texts under which the states are stored, each the name of its state. A text that is none of
/// them names no state.
pub proof fn states_are_stored_by_name(text: Seq<char>)
    ensures
        state_text(TxnState::Begin) == "BEGIN"@,
        state_text(TxnState::PrepareCommit) == "PREPARE_COMMIT"@,
        state_text(TxnState::PrepareAbort) == "PREPARE_ABORT"@,
        state_text(TxnState::Committed) == "COMMITTED"@,
        state_text(TxnState::Aborted) == "ABORTED"@,
        state_of_text(text) is None <==> text != "BEGIN"@ && text != "PREPARE_COMMIT"@ && text
            != "PREPARE_ABORT"@ && text != "COMMITTED"@ && text != "ABORTED"@,
{
}

/// A transaction is prepared once it is decided, to be committed or to be aborted, and until it is
/// so. What was to be committed is committed, what was to be aborted is aborted, and what is not
/// decided, or is done already, stays as it is.
pub proof fn a_decision_is_carried_out(state: TxnState)
    ensures
        state.prepared() <==> state == TxnState::PrepareCommit || state == TxnState::PrepareAbort,
        TxnState::PrepareCommit.outcome() == TxnState::Committed,
        TxnState::PrepareAbort.outcome() == TxnState::Aborted,
        !state.prepared() ==> state.outcome() == state,
        !state.outcome().prepared(),
{
}

/// A row tells of the transaction with its name, its producer and its epoch, in the state that its
/// status names, or begun where it has none. A status that names no state is an error, which holds
/// its text.
pub proof fn a_row_tells_of_a_transaction(
    name: Seq<char>,
    producer_id: i64,
    producer_epoch: i16,
    text: Seq<char>,
    status: TxnState,
)
    ensures
        txn_of_row((name, producer_id, producer_epoch, None)) == Ok::<_, ErrorView>(
            TxnView { name, producer_id, producer_epoch, status: TxnState::Begin },
        ),
        txn_of_row((name, producer_id, producer_epoch, Some(state_text(status)))) == Ok::<
            _,
            ErrorView,
        >(TxnView { name, producer_id, producer_epoch, status }),
        (text != "BEGIN"@ && text != "PREPARE_COMMIT"@ && text != "PREPARE_ABORT"@ && text
            != "COMMITTED"@ && text != "ABORTED"@) ==> txn_of_row(
            (name, producer_id, producer_epoch, Some(text)),
        ) == Err::<TxnView, _>(ErrorView::UnknownTxnState(text)),
{
    state_text_is_read_back(status);
}

} // verus!
