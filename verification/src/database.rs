//! The store: one connection to the database, and the operations on the two
//! kinds of record.
//!
//! Every operation takes the store by `&mut`: while one runs, no other can
//! reach the connection, and the borrow ends when the operation returns,
//! whether it succeeded or failed.
//!
//! What a statement does to the rows is decided by the engine. The store
//! keeps a record of its calls and their answers, its transcript. The contract
//! of an operation says which calls the operation added to the transcript, and
//! that its result is what the functions of [`crate::transcript`] make of the
//! answers: on which answers it succeeds, and with what.

use vstd::prelude::*;
use crate::engine::execute;
use crate::engine::last_insert_rowid;
use crate::engine::open_file;
use crate::engine::open_memory;
use crate::engine::query_all;
use crate::engine::query_first;
use crate::engine::utc_now;
use crate::error::StoreError;
use crate::record::fetched_view;
use crate::record::first_preset_fault;
use crate::record::first_project_fault;
use crate::record::optional_preset;
use crate::record::optional_project;
use crate::record::preset_of_fetched;
use crate::record::preset_of_row;
use crate::record::preset_views;
use crate::record::presets_of_rows;
use crate::record::project_of_fetched;
use crate::record::project_of_row;
use crate::record::project_views;
use crate::record::projects_of_rows;
use crate::record::row_views;
use crate::record::Preset;
use crate::record::PresetView;
use crate::record::Project;
use crate::record::ProjectView;
use crate::row::RowError;
use crate::statement::LIST_PRESETS;
use crate::statement::LIST_PROJECTS;
use crate::statement::SELECT_PRESET;
use crate::statement::SELECT_PROJECT;
use crate::statement::Statement;
use crate::error::Failure;
use crate::statement::by_id;
use crate::statement::plain;
use crate::statement::preset_save;
use crate::statement::project_save;
use crate::statement::schema;
use crate::statement::DELETE_PRESET;
use crate::statement::DELETE_PROJECT;
use crate::transcript::extends;
use crate::transcript::lemma_no_exchange_yet;
use crate::transcript::lemma_one_more_exchange;
use crate::transcript::one_execution;
use crate::transcript::one_fetch;
use crate::transcript::one_listing;
use crate::transcript::preset_fetch_report;
use crate::transcript::preset_list_report;
use crate::transcript::project_fetch_report;
use crate::transcript::project_list_report;
use crate::transcript::removal_report;
use crate::transcript::save_calls;
use crate::transcript::save_report;
use crate::transcript::schema_calls;
use crate::transcript::schema_report;
use crate::transcript::since;
use crate::transcript::timed_save_calls;
use crate::transcript::timed_save_report;
use crate::transcript::Answer;
use crate::transcript::Call;
use crate::transcript::Exchange;
use crate::value::SqlValue;
use crate::value::ValueView;

verus! {

/// The name of the database file inside the directory that the application
/// keeps its data in.
pub const DATABASE_FILE: &'static str = "shader_live_coding.db";

/// The store. It owns its connection; nothing else reaches the database
/// through it.
pub struct Database {
    conn: rusqlite::Connection,
    log: Ghost<Seq<Exchange>>,
}

/// What running a statement was answered.
pub open spec fn execution_answer(answer: Result<usize, String>) -> Answer {
    match answer {
        Ok(changed) => Answer::Changed(changed),
        Err(text) => Answer::Refused(text@),
    }
}

/// What a query for its first row was answered.
pub open spec fn row_answer(answer: Result<Option<Vec<SqlValue>>, String>) -> Answer {
    match answer {
        Ok(fetched) => Answer::Row(fetched_view(fetched)),
        Err(text) => Answer::Refused(text@),
    }
}

/// What a query for all of its rows was answered.
pub open spec fn rows_answer(answer: Result<Vec<Vec<SqlValue>>, String>) -> Answer {
    match answer {
        Ok(rows) => Answer::Rows(row_views(rows@)),
        Err(text) => Answer::Refused(text@),
    }
}

/// What reading the clock was answered.
pub open spec fn time_answer(answer: Option<String>) -> Answer {
    match answer {
        Some(time) => Answer::Time(time@),
        None => Answer::NoTime,
    }
}

/// A result with its failure as a view.
pub open spec fn report_view<T>(result: Result<T, StoreError>) -> Result<T, Failure> {
    match result {
        Ok(value) => Ok(value),
        Err(e) => Err(e@),
    }
}

/// The result of the fetch of one preset, as views.
pub open spec fn preset_report_view(result: Result<Option<Preset>, StoreError>) -> Result<
    Option<PresetView>,
    Failure,
> {
    match result {
        Ok(preset) => Ok(optional_preset(preset)),
        Err(e) => Err(e@),
    }
}

/// The result of the fetch of one project, as views.
pub open spec fn project_report_view(result: Result<Option<Project>, StoreError>) -> Result<
    Option<ProjectView>,
    Failure,
> {
    match result {
        Ok(project) => Ok(optional_project(project)),
        Err(e) => Err(e@),
    }
}

/// The result of the fetch of all presets, as views.
pub open spec fn presets_report_view(result: Result<Vec<Preset>, StoreError>) -> Result<
    Seq<PresetView>,
    Failure,
> {
    match result {
        Ok(presets) => Ok(preset_views(presets@)),
        Err(e) => Err(e@),
    }
}

/// The result of the fetch of all projects, as views.
pub open spec fn projects_report_view(result: Result<Vec<Project>, StoreError>) -> Result<
    Seq<ProjectView>,
    Failure,
> {
    match result {
        Ok(projects) => Ok(project_views(projects@)),
        Err(e) => Err(e@),
    }
}

/// Whether `found` is what some answer of the engine to the fetch of one
/// preset decodes to.
pub open spec fn fetched_preset(found: Option<Preset>) -> bool {
    exists|fetched: Option<Seq<ValueView>>| #[trigger]
        preset_of_fetched(fetched) == Ok::<Option<PresetView>, RowError>(optional_preset(found))
}

/// Whether `found` is what some answer of the engine to the fetch of one
/// project decodes to.
pub open spec fn fetched_project(found: Option<Project>) -> bool {
    exists|fetched: Option<Seq<ValueView>>| #[trigger]
        project_of_fetched(fetched) == Ok::<Option<ProjectView>, RowError>(
            optional_project(found),
        )
}

/// Whether `presets` are what some rows hold, in the order of the rows.
pub open spec fn listed_presets(presets: Seq<Preset>) -> bool {
    exists|rows: Seq<Seq<ValueView>>| #[trigger]
        presets_of_rows(rows) == Ok::<Seq<PresetView>, RowError>(preset_views(presets))
}

/// Whether `projects` are what some rows hold, in the order of the rows.
pub open spec fn listed_projects(projects: Seq<Project>) -> bool {
    exists|rows: Seq<Seq<ValueView>>| #[trigger]
        projects_of_rows(rows) == Ok::<Seq<ProjectView>, RowError>(project_views(projects))
}

/// Whether `error` can come out of an operation that reads presets: the
/// engine's refusal of the statement, or the fault of a row that it handed
/// out.
pub open spec fn preset_read_failure(error: StoreError) -> bool {
    match error {
        StoreError::Statement(_) => true,
        StoreError::MalformedRow(fault) => exists|row: Seq<ValueView>| #[trigger]
            preset_of_row(row) == Err::<PresetView, RowError>(fault),
        _ => false,
    }
}

/// Whether `error` can come out of an operation that reads projects: the
/// engine's refusal of the statement, or the fault of a row that it handed
/// out.
pub open spec fn project_read_failure(error: StoreError) -> bool {
    match error {
        StoreError::Statement(_) => true,
        StoreError::MalformedRow(fault) => exists|row: Seq<ValueView>| #[trigger]
            project_of_row(row) == Err::<ProjectView, RowError>(fault),
        _ => false,
    }
}

/// What the insert of a record reports for the engine's answer, which is the
/// number of rows changed together with the identifier of the row that the
/// engine inserted last, or the engine's description of its refusal: that
/// identifier, or a statement failure with that description.
pub fn insert_outcome(answer: Result<(usize, i64), String>) -> (saved: Result<i64, StoreError>)
    ensures
        match answer {
            Ok((_, assigned)) => saved == Ok::<i64, StoreError>(assigned),
            Err(text) => saved matches Err(StoreError::Statement(reported)) && reported@ == text@,
        },
{
    match answer {
        Ok((_, assigned)) => Ok(assigned),
        Err(text) => Err(StoreError::Statement(text)),
    }
}

/// What the overwrite of the record `id` reports for the engine's answer,
/// which is the number of rows changed or the engine's description of its
/// refusal. The record keeps its identifier whatever the number of rows
/// changed, zero too: that no row had the identifier is no failure.
pub fn overwrite_outcome(id: i64, answer: Result<usize, String>) -> (saved: Result<i64, StoreError>)
    ensures
        match answer {
            Ok(_) => saved == Ok::<i64, StoreError>(id),
            Err(text) => saved matches Err(StoreError::Statement(reported)) && reported@ == text@,
        },
{
    match answer {
        Ok(_) => Ok(id),
        Err(text) => Err(StoreError::Statement(text)),
    }
}

/// What a removal reports for the engine's answer to its statement, which is
/// the number of rows removed or the engine's description of its refusal. Any
/// number is success, zero too: that there was no such row is no failure.
pub fn removal_outcome(answer: Result<usize, String>) -> (deleted: Result<(), StoreError>)
    ensures
        match answer {
            Ok(_) => deleted is Ok,
            Err(text) => deleted matches Err(StoreError::Statement(reported)) && reported@
                == text@,
        },
{
    match answer {
        Ok(_) => Ok(()),
        Err(text) => Err(StoreError::Statement(text)),
    }
}

impl Database {
    /// Every call that this store has made, with its answer, in the order of
    /// the calls.
    pub closed spec fn transcript(&self) -> Seq<Exchange> {
        self.log@
    }

    /// Runs `statement` and records the exchange.
    fn run(&mut self, statement: &Statement) -> (answer: Result<usize, String>)
        ensures
            final(self).transcript() == old(self).transcript().push(
                Exchange { call: Call::Execute(statement@), answer: execution_answer(answer) },
            ),
    {
        let answer = match execute(&self.conn, statement.sql, &statement.params) {
            Ok(changed) => Ok(changed),
            Err(e) => Err(e.to_string()),
        };
        self.log = Ghost(
            self.log@.push(
                Exchange { call: Call::Execute(statement@), answer: execution_answer(answer) },
            ),
        );
        answer
    }

    /// Runs the query `sql` on `id` for its first row and records the
    /// exchange.
    fn first(&mut self, sql: &'static str, id: i64) -> (answer: Result<
        Option<Vec<SqlValue>>,
        String,
    >)
        ensures
            final(self).transcript() == old(self).transcript().push(
                Exchange { call: Call::First(by_id(sql@, id)), answer: row_answer(answer) },
            ),
    {
        let answer = match query_first(&self.conn, sql, id) {
            Ok(fetched) => Ok(fetched),
            Err(e) => Err(e.to_string()),
        };
        self.log = Ghost(
            self.log@.push(
                Exchange { call: Call::First(by_id(sql@, id)), answer: row_answer(answer) },
            ),
        );
        answer
    }

    /// Runs the query `sql` for all of its rows and records the exchange.
    fn all(&mut self, sql: &'static str) -> (answer: Result<Vec<Vec<SqlValue>>, String>)
        ensures
            final(self).transcript() == old(self).transcript().push(
                Exchange { call: Call::All(plain(sql@)), answer: rows_answer(answer) },
            ),
    {
        let answer = match query_all(&self.conn, sql) {
            Ok(rows) => Ok(rows),
            Err(e) => Err(e.to_string()),
        };
        self.log = Ghost(
            self.log@.push(
                Exchange { call: Call::All(plain(sql@)), answer: rows_answer(answer) },
            ),
        );
        answer
    }

    /// Asks the engine for the identifier of the row that it inserted last
    /// and records the exchange.
    fn assigned(&mut self) -> (rowid: i64)
        ensures
            final(self).transcript() == old(self).transcript().push(
                Exchange { call: Call::LastInsertRowid, answer: Answer::Rowid(rowid) },
            ),
    {
        let rowid = last_insert_rowid(&self.conn);
        self.log = Ghost(
            self.log@.push(Exchange { call: Call::LastInsertRowid, answer: Answer::Rowid(rowid) }),
        );
        rowid
    }

    /// Reads the clock and records the exchange.
    fn now(&mut self) -> (time: Option<String>)
        ensures
            final(self).transcript() == old(self).transcript().push(
                Exchange { call: Call::Clock, answer: time_answer(time) },
            ),
    {
        let time = utc_now();
        self.log = Ghost(self.log@.push(Exchange { call: Call::Clock, answer: time_answer(time) }));
        time
    }

    /// What the opening of a database reports for the engine's answer, which
    /// is the connection or the engine's description of its refusal: a store
    /// on that connection that has made no call yet, or an initialization
    /// failure with that description.
    pub fn connected(answer: Result<rusqlite::Connection, String>) -> (started: Result<
        Database,
        StoreError,
    >)
        ensures
            match answer {
                Ok(_) => started matches Ok(db) && db.transcript() == Seq::<Exchange>::empty(),
                Err(text) => started matches Err(StoreError::Init(reported)) && reported@
                    == text@,
            },
    {
        match answer {
            Ok(conn) => Ok(Database { conn, log: Ghost(Seq::empty()) }),
            Err(text) => Err(StoreError::Init(text)),
        }
    }

    /// What the opening of a store reports once the schema has been set up
    /// on it with the result `created`: the store as it is where the set-up
    /// succeeded, and where it failed, its failure and no store.
    pub fn opening_outcome(db: Database, created: Result<(), StoreError>) -> (opened: Result<
        Database,
        StoreError,
    >)
        ensures
            match created {
                Ok(()) => opened == Ok::<Database, StoreError>(db),
                Err(e) => opened == Err::<Database, StoreError>(e),
            },
    {
        match created {
            Ok(()) => Ok(db),
            Err(e) => Err(e),
        }
    }

    /// Opens the database file at `path`, creating it if it is absent, and
    /// makes sure that the schema is there: what [`Database::connected`]
    /// makes of the engine's answer to the opening, then, on the store,
    /// [`Database::create_tables`], then what [`Database::opening_outcome`]
    /// makes of its result. On failure there is no store. A store that is
    /// handed out has run every statement of the schema, and the engine has
    /// refused none.
    pub fn new(path: &std::path::Path) -> (opened: Result<Database, StoreError>)
        ensures
            opened matches Err(e) ==> e is Init,
            opened matches Ok(db) ==> schema_calls(db.transcript(), schema()) && schema_report(
                db.transcript(),
            ) is Ok,
    {
        let answer = match open_file(path) {
            Ok(conn) => Ok(conn),
            Err(e) => Err(e.to_string()),
        };
        match Database::connected(answer) {
            Ok(mut db) => {
                let created = db.create_tables();
                assert(since(Seq::<Exchange>::empty(), db.transcript()) =~= db.transcript());
                Database::opening_outcome(db, created)
            },
            Err(e) => Err(e),
        }
    }

    /// Opens a fresh store that lives in memory and is gone when it is
    /// dropped, by the same steps as [`Database::new`]. A store that is
    /// handed out has run every statement of the schema, and the engine has
    /// refused none.
    pub fn in_memory() -> (opened: Result<Database, StoreError>)
        ensures
            opened matches Err(e) ==> e is Init,
            opened matches Ok(db) ==> schema_calls(db.transcript(), schema()) && schema_report(
                db.transcript(),
            ) is Ok,
    {
        let answer = match open_memory() {
            Ok(conn) => Ok(conn),
            Err(e) => Err(e.to_string()),
        };
        match Database::connected(answer) {
            Ok(mut db) => {
                let created = db.create_tables();
                assert(since(Seq::<Exchange>::empty(), db.transcript()) =~= db.transcript());
                Database::opening_outcome(db, created)
            },
            Err(e) => Err(e),
        }
    }

    /// Creates the two tables and their indexes where they do not exist yet,
    /// by the statements of [`Statement::schema`] in their order. The first
    /// statement that the engine refuses ends the work, as an initialization
    /// failure with the engine's description; where it refuses none, the
    /// result is success.
    pub fn create_tables(&mut self) -> (created: Result<(), StoreError>)
        ensures
            created matches Err(e) ==> e is Init,
            extends(old(self).transcript(), final(self).transcript()),
            schema_calls(since(old(self).transcript(), final(self).transcript()), schema()),
            report_view(created) == schema_report(
                since(old(self).transcript(), final(self).transcript()),
            ),
    {
        let ghost before = self.transcript();
        proof {
            lemma_no_exchange_yet(before);
        }
        let statements = Statement::schema();
        let mut at: usize = 0;
        while at < statements.len()
            invariant
                at <= statements.len(),
                statements@.map_values(|s: Statement| s@) == schema(),
                before == old(self).transcript(),
                extends(before, self.transcript()),
                since(before, self.transcript()).len() == at,
                forall|i: int|
                    0 <= i < at ==> (#[trigger] since(before, self.transcript())[i]).call
                        == Call::Execute(schema()[i]) && since(before, self.transcript())[i].answer
                        is Changed,
            decreases statements.len() - at,
        {
            let ghost so_far = self.transcript();
            let answer = self.run(&statements[at]);
            proof {
                assert(statements@.map_values(|s: Statement| s@)[at as int] == statements@[at as int]@);
                lemma_one_more_exchange(
                    before,
                    so_far,
                    Exchange {
                        call: Call::Execute(statements@[at as int]@),
                        answer: execution_answer(answer),
                    },
                );
            }
            match answer {
                Ok(_) => {},
                Err(text) => {
                    return Err(StoreError::Init(text));
                },
            }
            at += 1;
        }
        Ok(())
    }

    /// Saves `preset` at the current time: reads the clock once, then does
    /// what [`Database::save_preset_at`] does at the time read. Where the clock
    /// gives no time, nothing is sent to the engine.
    pub fn save_preset(&mut self, preset: Preset) -> (saved: Result<i64, StoreError>)
        ensures
            preset.id matches Some(own) ==> (saved matches Ok(id) ==> id == own),
            saved matches Err(e) ==> e is Statement || e is Clock,
            extends(old(self).transcript(), final(self).transcript()),
            timed_save_calls(
                since(old(self).transcript(), final(self).transcript()),
                |now: Seq<char>| preset_save(preset@, now),
                preset.id,
            ),
            report_view(saved) == timed_save_report(
                preset.id,
                since(old(self).transcript(), final(self).transcript()),
            ),
    {
        let ghost before = self.transcript();
        let time = self.now();
        let ghost timed = self.transcript();
        proof {
            lemma_no_exchange_yet(before);
            lemma_one_more_exchange(
                before,
                before,
                Exchange { call: Call::Clock, answer: time_answer(time) },
            );
        }
        match time {
            Some(now) => {
                let saved = self.save_preset_at(&preset, now.as_str());
                proof {
                    let after = self.transcript();
                    assert(after.take(before.len() as int) =~= timed.take(before.len() as int));
                    assert(since(before, after).skip(1) =~= since(timed, after));
                    assert(since(before, after)[0] == timed[before.len() as int]);
                }
                saved
            },
            None => Err(StoreError::Clock),
        }
    }

    /// Saves `preset` at the time `now`, by the statement of
    /// [`Preset::save_statement`]. A preset with an identifier overwrites the
    /// row of that identifier, and the result is what [`overwrite_outcome`]
    /// makes of the engine's answer. One without becomes a new row: where the
    /// engine ran the insert it is asked for the identifier of the new row,
    /// and the result is what [`insert_outcome`] makes of the answers.
    pub fn save_preset_at(&mut self, preset: &Preset, now: &str) -> (saved: Result<i64, StoreError>)
        ensures
            preset.id matches Some(own) ==> (saved matches Ok(id) ==> id == own),
            saved matches Err(e) ==> e is Statement,
            extends(old(self).transcript(), final(self).transcript()),
            save_calls(
                since(old(self).transcript(), final(self).transcript()),
                preset_save(preset@, now@),
                preset.id,
            ),
            report_view(saved) == save_report(
                preset.id,
                since(old(self).transcript(), final(self).transcript()),
            ),
    {
        let ghost before = self.transcript();
        proof {
            lemma_no_exchange_yet(before);
        }
        let statement = preset.save_statement(now);
        let answer = self.run(&statement);
        let ghost ran = self.transcript();
        proof {
            lemma_one_more_exchange(
                before,
                before,
                Exchange { call: Call::Execute(statement@), answer: execution_answer(answer) },
            );
        }
        match preset.id {
            Some(id) => overwrite_outcome(id, answer),
            None => match answer {
                Ok(changed) => {
                    let assigned = self.assigned();
                    proof {
                        lemma_one_more_exchange(
                            before,
                            ran,
                            Exchange {
                                call: Call::LastInsertRowid,
                                answer: Answer::Rowid(assigned),
                            },
                        );
                    }
                    insert_outcome(Ok((changed, assigned)))
                },
                Err(text) => insert_outcome(Err(text)),
            },
        }
    }

    /// Fetches the preset `id`, by the statement [`SELECT_PRESET`]. Where the
    /// engine finds no row the result is `Ok(None)`.
    pub fn get_preset(&mut self, id: i64) -> (found: Result<Option<Preset>, StoreError>)
        ensures
            match found {
                Ok(preset) => fetched_preset(preset),
                Err(e) => preset_read_failure(e),
            },
            extends(old(self).transcript(), final(self).transcript()),
            one_fetch(
                since(old(self).transcript(), final(self).transcript()),
                by_id(SELECT_PRESET@, id),
            ),
            preset_report_view(found) == preset_fetch_report(
                since(old(self).transcript(), final(self).transcript())[0].answer,
            ),
    {
        let ghost before = self.transcript();
        proof {
            lemma_no_exchange_yet(before);
        }
        let answer = self.first(SELECT_PRESET, id);
        proof {
            lemma_one_more_exchange(
                before,
                before,
                Exchange {
                    call: Call::First(by_id(SELECT_PRESET@, id)),
                    answer: row_answer(answer),
                },
            );
        }
        match answer {
            Ok(fetched) => match Preset::from_fetched(&fetched) {
                Ok(preset) => {
                    assert(preset_of_fetched(fetched_view(fetched)) == Ok::<
                        Option<PresetView>,
                        RowError,
                    >(optional_preset(preset)));
                    Ok(preset)
                },
                Err(fault) => {
                    assert(preset_of_row(fetched_view(fetched)->Some_0) == Err::<
                        PresetView,
                        RowError,
                    >(fault));
                    Err(StoreError::MalformedRow(fault))
                },
            },
            Err(text) => Err(StoreError::Statement(text)),
        }
    }

    /// Fetches all presets, by the statement [`LIST_PRESETS`], in the order in
    /// which the engine hands out the rows: most recently saved first.
    pub fn list_presets(&mut self) -> (listed: Result<Vec<Preset>, StoreError>)
        ensures
            match listed {
                Ok(presets) => listed_presets(presets@),
                Err(e) => preset_read_failure(e),
            },
            extends(old(self).transcript(), final(self).transcript()),
            one_listing(
                since(old(self).transcript(), final(self).transcript()),
                plain(LIST_PRESETS@),
            ),
            presets_report_view(listed) == preset_list_report(
                since(old(self).transcript(), final(self).transcript())[0].answer,
            ),
    {
        let ghost before = self.transcript();
        proof {
            lemma_no_exchange_yet(before);
        }
        let answer = self.all(LIST_PRESETS);
        proof {
            lemma_one_more_exchange(
                before,
                before,
                Exchange { call: Call::All(plain(LIST_PRESETS@)), answer: rows_answer(answer) },
            );
        }
        match answer {
            Ok(rows) => match Preset::from_rows(&rows) {
                Ok(presets) => {
                    assert(presets_of_rows(row_views(rows@)) == Ok::<Seq<PresetView>, RowError>(
                        preset_views(presets@),
                    ));
                    Ok(presets)
                },
                Err(fault) => {
                    proof {
                        let all = row_views(rows@);
                        let first = choose|i: int| first_preset_fault(all, i);
                        assert(preset_of_row(all[first]) == Err::<PresetView, RowError>(fault));
                    }
                    Err(StoreError::MalformedRow(fault))
                },
            },
            Err(text) => Err(StoreError::Statement(text)),
        }
    }

    /// Removes the preset `id`, by the statement of
    /// [`Preset::delete_statement`], and reports what [`removal_outcome`] makes
    /// of the engine's answer.
    pub fn delete_preset(&mut self, id: i64) -> (deleted: Result<(), StoreError>)
        ensures
            deleted matches Err(e) ==> e is Statement,
            extends(old(self).transcript(), final(self).transcript()),
            one_execution(
                since(old(self).transcript(), final(self).transcript()),
                by_id(DELETE_PRESET@, id),
            ),
            report_view(deleted) == removal_report(
                since(old(self).transcript(), final(self).transcript())[0].answer,
            ),
    {
        let ghost before = self.transcript();
        proof {
            lemma_no_exchange_yet(before);
        }
        let statement = Preset::delete_statement(id);
        let answer = self.run(&statement);
        proof {
            lemma_one_more_exchange(
                before,
                before,
                Exchange { call: Call::Execute(statement@), answer: execution_answer(answer) },
            );
        }
        removal_outcome(answer)
    }

    /// Saves `project` at the current time: reads the clock once, then does
    /// what [`Database::save_project_at`] does at the time read. Where the clock
    /// gives no time, nothing is sent to the engine.
    pub fn save_project(&mut self, project: Project) -> (saved: Result<i64, StoreError>)
        ensures
            project.id matches Some(own) ==> (saved matches Ok(id) ==> id == own),
            saved matches Err(e) ==> e is Statement || e is Clock,
            extends(old(self).transcript(), final(self).transcript()),
            timed_save_calls(
                since(old(self).transcript(), final(self).transcript()),
                |now: Seq<char>| project_save(project@, now),
                project.id,
            ),
            report_view(saved) == timed_save_report(
                project.id,
                since(old(self).transcript(), final(self).transcript()),
            ),
    {
        let ghost before = self.transcript();
        let time = self.now();
        let ghost timed = self.transcript();
        proof {
            lemma_no_exchange_yet(before);
            lemma_one_more_exchange(
                before,
                before,
                Exchange { call: Call::Clock, answer: time_answer(time) },
            );
        }
        match time {
            Some(now) => {
                let saved = self.save_project_at(&project, now.as_str());
                proof {
                    let after = self.transcript();
                    assert(after.take(before.len() as int) =~= timed.take(before.len() as int));
                    assert(since(before, after).skip(1) =~= since(timed, after));
                    assert(since(before, after)[0] == timed[before.len() as int]);
                }
                saved
            },
            None => Err(StoreError::Clock),
        }
    }

    /// Saves `project` at the time `now`, by the statement of
    /// [`Project::save_statement`]. A project with an identifier overwrites the
    /// row of that identifier, and the result is what [`overwrite_outcome`]
    /// makes of the engine's answer. One without becomes a new row: where the
    /// engine ran the insert it is asked for the identifier of the new row,
    /// and the result is what [`insert_outcome`] makes of the answers.
    pub fn save_project_at(&mut self, project: &Project, now: &str) -> (saved: Result<i64, StoreError>)
        ensures
            project.id matches Some(own) ==> (saved matches Ok(id) ==> id == own),
            saved matches Err(e) ==> e is Statement,
            extends(old(self).transcript(), final(self).transcript()),
            save_calls(
                since(old(self).transcript(), final(self).transcript()),
                project_save(project@, now@),
                project.id,
            ),
            report_view(saved) == save_report(
                project.id,
                since(old(self).transcript(), final(self).transcript()),
            ),
    {
        let ghost before = self.transcript();
        proof {
            lemma_no_exchange_yet(before);
        }
        let statement = project.save_statement(now);
        let answer = self.run(&statement);
        let ghost ran = self.transcript();
        proof {
            lemma_one_more_exchange(
                before,
                before,
                Exchange { call: Call::Execute(statement@), answer: execution_answer(answer) },
            );
        }
        match project.id {
            Some(id) => overwrite_outcome(id, answer),
            None => match answer {
                Ok(changed) => {
                    let assigned = self.assigned();
                    proof {
                        lemma_one_more_exchange(
                            before,
                            ran,
                            Exchange {
                                call: Call::LastInsertRowid,
                                answer: Answer::Rowid(assigned),
                            },
                        );
                    }
                    insert_outcome(Ok((changed, assigned)))
                },
                Err(text) => insert_outcome(Err(text)),
            },
        }
    }

    /// Fetches the project `id`, by the statement [`SELECT_PROJECT`]. Where the
    /// engine finds no row the result is `Ok(None)`.
    pub fn get_project(&mut self, id: i64) -> (found: Result<Option<Project>, StoreError>)
        ensures
            match found {
                Ok(project) => fetched_project(project),
                Err(e) => project_read_failure(e),
            },
            extends(old(self).transcript(), final(self).transcript()),
            one_fetch(
                since(old(self).transcript(), final(self).transcript()),
                by_id(SELECT_PROJECT@, id),
            ),
            project_report_view(found) == project_fetch_report(
                since(old(self).transcript(), final(self).transcript())[0].answer,
            ),
    {
        let ghost before = self.transcript();
        proof {
            lemma_no_exchange_yet(before);
        }
        let answer = self.first(SELECT_PROJECT, id);
        proof {
            lemma_one_more_exchange(
                before,
                before,
                Exchange {
                    call: Call::First(by_id(SELECT_PROJECT@, id)),
                    answer: row_answer(answer),
                },
            );
        }
        match answer {
            Ok(fetched) => match Project::from_fetched(&fetched) {
                Ok(project) => {
                    assert(project_of_fetched(fetched_view(fetched)) == Ok::<
                        Option<ProjectView>,
                        RowError,
                    >(optional_project(project)));
                    Ok(project)
                },
                Err(fault) => {
                    assert(project_of_row(fetched_view(fetched)->Some_0) == Err::<
                        ProjectView,
                        RowError,
                    >(fault));
                    Err(StoreError::MalformedRow(fault))
                },
            },
            Err(text) => Err(StoreError::Statement(text)),
        }
    }

    /// Fetches all projects, by the statement [`LIST_PROJECTS`], in the order in
    /// which the engine hands out the rows: most recently saved first.
    pub fn list_projects(&mut self) -> (listed: Result<Vec<Project>, StoreError>)
        ensures
            match listed {
                Ok(projects) => listed_projects(projects@),
                Err(e) => project_read_failure(e),
            },
            extends(old(self).transcript(), final(self).transcript()),
            one_listing(
                since(old(self).transcript(), final(self).transcript()),
                plain(LIST_PROJECTS@),
            ),
            projects_report_view(listed) == project_list_report(
                since(old(self).transcript(), final(self).transcript())[0].answer,
            ),
    {
        let ghost before = self.transcript();
        proof {
            lemma_no_exchange_yet(before);
        }
        let answer = self.all(LIST_PROJECTS);
        proof {
            lemma_one_more_exchange(
                before,
                before,
                Exchange { call: Call::All(plain(LIST_PROJECTS@)), answer: rows_answer(answer) },
            );
        }
        match answer {
            Ok(rows) => match Project::from_rows(&rows) {
                Ok(projects) => {
                    assert(projects_of_rows(row_views(rows@)) == Ok::<Seq<ProjectView>, RowError>(
                        project_views(projects@),
                    ));
                    Ok(projects)
                },
                Err(fault) => {
                    proof {
                        let all = row_views(rows@);
                        let first = choose|i: int| first_project_fault(all, i);
                        assert(project_of_row(all[first]) == Err::<ProjectView, RowError>(fault));
                    }
                    Err(StoreError::MalformedRow(fault))
                },
            },
            Err(text) => Err(StoreError::Statement(text)),
        }
    }

    /// Removes the project `id`, by the statement of
    /// [`Project::delete_statement`], and reports what [`removal_outcome`] makes
    /// of the engine's answer.
    pub fn delete_project(&mut self, id: i64) -> (deleted: Result<(), StoreError>)
        ensures
            deleted matches Err(e) ==> e is Statement,
            extends(old(self).transcript(), final(self).transcript()),
            one_execution(
                since(old(self).transcript(), final(self).transcript()),
                by_id(DELETE_PROJECT@, id),
            ),
            report_view(deleted) == removal_report(
                since(old(self).transcript(), final(self).transcript())[0].answer,
            ),
    {
        let ghost before = self.transcript();
        proof {
            lemma_no_exchange_yet(before);
        }
        let statement = Project::delete_statement(id);
        let answer = self.run(&statement);
        proof {
            lemma_one_more_exchange(
                before,
                before,
                Exchange { call: Call::Execute(statement@), answer: execution_answer(answer) },
            );
        }
        removal_outcome(answer)
    }
}

} // verus!
