//! The record of what the store asked of the world outside it, and what it
//! was answered.
//!
//! The engine and the clock decide their answers. The store keeps, as ghost
//! state, every call it made and the answer it got, in the order of the calls.
//! The contract of an operation then states which calls the operation added
//! to that record, and that its result is a fixed function of the answers:
//! the functions of this file.

use vstd::prelude::*;
use crate::error::failure_text;
use crate::error::Failure;
use crate::record::preset_of_fetched;
use crate::record::presets_of_rows;
use crate::record::project_of_fetched;
use crate::record::projects_of_rows;
use crate::record::PresetView;
use crate::record::ProjectView;
use crate::statement::StatementView;
use crate::value::ValueView;

verus! {

/// One call that the store made.
pub enum Call {
    /// Run a statement that hands out no rows.
    Execute(StatementView),
    /// Run a query for its first row.
    First(StatementView),
    /// Run a query for all of its rows.
    All(StatementView),
    /// Ask the engine for the identifier of the row that it inserted last.
    LastInsertRowid,
    /// Read the clock.
    Clock,
}

/// What a call was answered.
pub enum Answer {
    /// The statement ran and changed this many rows.
    Changed(usize),
    /// The query ran; its first row, if it had one.
    Row(Option<Seq<ValueView>>),
    /// The query ran; its rows, in the order in which the engine gave them.
    Rows(Seq<Seq<ValueView>>),
    /// The identifier of the row inserted last.
    Rowid(i64),
    /// The time, as text.
    Time(Seq<char>),
    /// The clock gave no time that can be written as a timestamp.
    NoTime,
    /// The engine refused the call, with this description.
    Refused(Seq<char>),
}

/// One call and its answer.
pub struct Exchange {
    pub call: Call,
    pub answer: Answer,
}

/// Whether `after` is `before` with further exchanges behind it.
pub open spec fn extends(before: Seq<Exchange>, after: Seq<Exchange>) -> bool {
    before.len() <= after.len() && after.take(before.len() as int) == before
}

/// The exchanges of `after` that came after those of `before`.
pub open spec fn since(before: Seq<Exchange>, after: Seq<Exchange>) -> Seq<Exchange> {
    after.skip(before.len() as int)
}

/// A record of exchanges that grows by one stays an extension of what it
/// extended, and what came since grows by the same exchange.
pub proof fn lemma_one_more_exchange(before: Seq<Exchange>, now: Seq<Exchange>, next: Exchange)
    requires
        extends(before, now),
    ensures
        extends(before, now.push(next)),
        since(before, now.push(next)) == since(before, now).push(next),
{
    assert(now.push(next).take(before.len() as int) =~= now.take(before.len() as int));
    assert(since(before, now.push(next)) =~= since(before, now).push(next));
}

/// Nothing has come since a record of exchanges was what it is.
pub proof fn lemma_no_exchange_yet(before: Seq<Exchange>)
    ensures
        extends(before, before),
        since(before, before) == Seq::<Exchange>::empty(),
{
    assert(before.take(before.len() as int) =~= before);
    assert(since(before, before) =~= Seq::<Exchange>::empty());
}

/// Whether `added` is one exchange: `statement` was run, and the engine
/// answered with a number of rows or refused.
pub open spec fn one_execution(added: Seq<Exchange>, statement: StatementView) -> bool {
    &&& added.len() == 1
    &&& added[0].call == Call::Execute(statement)
    &&& added[0].answer is Changed || added[0].answer is Refused
}

/// Whether `added` is one exchange: the query `statement` was run for its
/// first row, and the engine answered with a row, with none, or refused.
pub open spec fn one_fetch(added: Seq<Exchange>, statement: StatementView) -> bool {
    &&& added.len() == 1
    &&& added[0].call == Call::First(statement)
    &&& added[0].answer is Row || added[0].answer is Refused
}

/// Whether `added` is one exchange: the query `statement` was run for all of
/// its rows, and the engine answered with rows or refused.
pub open spec fn one_listing(added: Seq<Exchange>, statement: StatementView) -> bool {
    &&& added.len() == 1
    &&& added[0].call == Call::All(statement)
    &&& added[0].answer is Rows || added[0].answer is Refused
}

/// What a removal reports for the engine's answer: its refusal is a statement
/// failure, anything else success, whatever the number of rows removed.
pub open spec fn removal_report(answer: Answer) -> Result<(), Failure> {
    match answer {
        Answer::Refused(text) => Err(Failure::Statement(text)),
        _ => Ok(()),
    }
}

/// Whether `added` is the exchanges of a save, by `statement`, of a record
/// that came with the identifier `given`: the statement is run, and where
/// the engine did not refuse it and the record came without an identifier,
/// the engine is asked for the identifier of the row it inserted last.
pub open spec fn save_calls(
    added: Seq<Exchange>,
    statement: StatementView,
    given: Option<i64>,
) -> bool {
    &&& added.len() >= 1
    &&& added[0].call == Call::Execute(statement)
    &&& added[0].answer is Changed || added[0].answer is Refused
    &&& if added[0].answer is Refused || given is Some {
        added.len() == 1
    } else {
        added.len() == 2 && added[1].call == Call::LastInsertRowid && added[1].answer is Rowid
    }
}

/// What a save of a record that came with the identifier `given` reports for
/// the exchanges `added`: the engine's refusal is a statement failure; else
/// the record's own identifier, whatever the number of rows changed, or,
/// where it had none, the one that the engine assigned.
pub open spec fn save_report(given: Option<i64>, added: Seq<Exchange>) -> Result<i64, Failure> {
    match added[0].answer {
        Answer::Refused(text) => Err(Failure::Statement(text)),
        _ => match given {
            Some(id) => Ok(id),
            None => Ok(added[1].answer->Rowid_0),
        },
    }
}

/// Whether `added` is the exchanges of a save at the current time, by the
/// statement that `statement_at` gives for a time, of a record that came with
/// the identifier `given`: the clock is read, and where it gave a time, the
/// save by the statement for that time follows.
pub open spec fn timed_save_calls(
    added: Seq<Exchange>,
    statement_at: spec_fn(Seq<char>) -> StatementView,
    given: Option<i64>,
) -> bool {
    &&& added.len() >= 1
    &&& added[0].call == Call::Clock
    &&& match added[0].answer {
        Answer::Time(now) => save_calls(added.skip(1), statement_at(now), given),
        Answer::NoTime => added.len() == 1,
        _ => false,
    }
}

/// What a save at the current time reports for the exchanges `added`: a
/// clock failure where the clock gave no time; else what the save reports.
pub open spec fn timed_save_report(given: Option<i64>, added: Seq<Exchange>) -> Result<
    i64,
    Failure,
> {
    match added[0].answer {
        Answer::Time(_) => save_report(given, added.skip(1)),
        _ => Err(Failure::Clock),
    }
}

/// What the fetch of one preset reports for the engine's answer: its refusal
/// is a statement failure; no row is no preset; a row is the preset that it
/// holds, or a malformed row.
pub open spec fn preset_fetch_report(answer: Answer) -> Result<Option<PresetView>, Failure> {
    match answer {
        Answer::Refused(text) => Err(Failure::Statement(text)),
        Answer::Row(fetched) => match preset_of_fetched(fetched) {
            Ok(preset) => Ok(preset),
            Err(fault) => Err(Failure::MalformedRow(fault)),
        },
        _ => Ok(None),
    }
}

/// What the fetch of one project reports for the engine's answer: its
/// refusal is a statement failure; no row is no project; a row is the project
/// that it holds, or a malformed row.
pub open spec fn project_fetch_report(answer: Answer) -> Result<Option<ProjectView>, Failure> {
    match answer {
        Answer::Refused(text) => Err(Failure::Statement(text)),
        Answer::Row(fetched) => match project_of_fetched(fetched) {
            Ok(project) => Ok(project),
            Err(fault) => Err(Failure::MalformedRow(fault)),
        },
        _ => Ok(None),
    }
}

/// What the fetch of all presets reports for the engine's answer: its refusal
/// is a statement failure; rows are the presets that they hold, in the order
/// of the rows, or the first malformed row.
pub open spec fn preset_list_report(answer: Answer) -> Result<Seq<PresetView>, Failure> {
    match answer {
        Answer::Refused(text) => Err(Failure::Statement(text)),
        Answer::Rows(rows) => match presets_of_rows(rows) {
            Ok(presets) => Ok(presets),
            Err(fault) => Err(Failure::MalformedRow(fault)),
        },
        _ => Ok(Seq::empty()),
    }
}

/// What the fetch of all projects reports for the engine's answer: its
/// refusal is a statement failure; rows are the projects that they hold, in
/// the order of the rows, or the first malformed row.
pub open spec fn project_list_report(answer: Answer) -> Result<Seq<ProjectView>, Failure> {
    match answer {
        Answer::Refused(text) => Err(Failure::Statement(text)),
        Answer::Rows(rows) => match projects_of_rows(rows) {
            Ok(projects) => Ok(projects),
            Err(fault) => Err(Failure::MalformedRow(fault)),
        },
        _ => Ok(Seq::empty()),
    }
}

/// Whether `added` is the exchanges of the setting up of the schema by
/// `statements`: they are run in their order, up to and with the first that
/// the engine refuses.
pub open spec fn schema_calls(added: Seq<Exchange>, statements: Seq<StatementView>) -> bool {
    &&& added.len() <= statements.len()
    &&& forall|i: int|
        0 <= i < added.len() ==> (#[trigger] added[i]).call == Call::Execute(statements[i]) && (
        added[i].answer is Changed || added[i].answer is Refused)
    &&& forall|i: int| 0 <= i < added.len() - 1 ==> !((#[trigger] added[i]).answer is Refused)
    &&& added.len() < statements.len() ==> added.len() > 0 && added.last().answer is Refused
}

/// What the setting up of the schema reports for the exchanges `added`: the
/// engine's refusal of a statement is an initialization failure; else success.
pub open spec fn schema_report(added: Seq<Exchange>) -> Result<(), Failure> {
    if added.len() > 0 && added.last().answer is Refused {
        Err(Failure::Init(added.last().answer->Refused_0))
    } else {
        Ok(())
    }
}

/// A failure as its description, and success as it is.
pub open spec fn described<T>(report: Result<T, Failure>) -> Result<T, Seq<char>> {
    match report {
        Ok(value) => Ok(value),
        Err(failure) => Err(failure_text(failure)),
    }
}

} // verus!
