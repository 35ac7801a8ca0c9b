//! A run: one connection pool, then the tables of a list exported one
//! after the other, stopping at the first failure.
//!
//! The run itself touches neither the database nor the disk.  It tells its
//! caller what to do next, the caller does it and reports what came of it,
//! and the run decides how to go on.

use crate::artifact::{
    artifact_of, lemma_name_ends_with_token, name_suffix, ArtifactModel, ContextModel,
    ExportArtifact, RunContext,
};
use crate::config::{url_of, DatabaseSettings, MAX_CONNECTIONS};
use crate::error::ExportError;
use crate::sink::{csv_file, uniform_width};
use crate::table::{export_table, table_records, RowModel, RowRecord};
use vstd::prelude::*;
use vstd::string::*;

verus! {

/// Where a run stands.
#[derive(Clone, Copy, Debug, PartialEq, Eq, Structural)]
pub enum Stage {
    /// The connection pool has been asked for; no table has been touched.
    Connecting,
    /// The rows of the current table have been asked for.
    Querying,
    /// The file of the current table has been handed out for writing.
    Writing,
    /// Every table has been exported.
    Finished,
    /// A table failed; nothing further is attempted.
    Halted(ExportError),
}

/// What the caller reports back.
#[derive(Clone, Debug, PartialEq, Eq)]
pub enum Event {
    /// The connection pool stands.
    Connected,
    /// The connection pool could not be established.
    ConnectFailed,
    /// The query returned these rows.
    Rows(Vec<RowRecord>),
    /// The query failed.
    QueryFailed,
    /// The file has been written, flushed and closed.
    Written,
    /// The directory or the file could not be written.
    WriteFailed,
}

/// The mathematical content of an [`Event`].
pub enum EventModel {
    Connected,
    ConnectFailed,
    Rows(Seq<RowModel>),
    QueryFailed,
    Written,
    WriteFailed,
}

impl View for Event {
    type V = EventModel;

    open spec fn view(&self) -> EventModel {
        match self {
            Event::Connected => EventModel::Connected,
            Event::ConnectFailed => EventModel::ConnectFailed,
            Event::Rows(rows) => EventModel::Rows(rows.deep_view()),
            Event::QueryFailed => EventModel::QueryFailed,
            Event::Written => EventModel::Written,
            Event::WriteFailed => EventModel::WriteFailed,
        }
    }
}

/// What the caller is to do next.
#[derive(Clone, Debug, PartialEq, Eq)]
pub enum Action {
    /// Establish the one connection pool of the run at this address, with
    /// no more connections than this, and report whether it stands.
    Connect { url: String, max_connections: u32 },
    /// Read the whole table with this statement and report the rows.
    Query { table: String, statement: String },
    /// Create the folder, write these bytes to the file, flush and close
    /// it, and report whether that worked.
    Write { artifact: ExportArtifact, contents: Vec<u8> },
    /// The run is complete.
    Finish,
    /// The run has failed with this error.
    Abort(ExportError),
}

/// The mathematical content of an [`Action`].
pub enum ActionModel {
    Connect { url: Seq<char>, max_connections: nat },
    Query { table: Seq<char>, statement: Seq<char> },
    Write { artifact: ArtifactModel, contents: Seq<u8> },
    Finish,
    Abort(ExportError),
}

impl View for Action {
    type V = ActionModel;

    open spec fn view(&self) -> ActionModel {
        match self {
            Action::Connect { url, max_connections } => ActionModel::Connect {
                url: url@,
                max_connections: *max_connections as nat,
            },
            Action::Query { table, statement } => ActionModel::Query {
                table: table@,
                statement: statement@,
            },
            Action::Write { artifact, contents } => ActionModel::Write {
                artifact: artifact@,
                contents: contents@,
            },
            Action::Finish => ActionModel::Finish,
            Action::Abort(e) => ActionModel::Abort(*e),
        }
    }
}

/// The answer of a run to an event: the confirmation of the table that the
/// event completed, if it completed one, and the next action.
#[derive(Clone, Debug, PartialEq, Eq)]
pub struct Reaction {
    pub confirmation: Option<String>,
    pub action: Action,
}

/// The mathematical content of a [`Reaction`].
pub struct ReactionModel {
    pub confirmation: Option<Seq<char>>,
    pub action: ActionModel,
}

impl View for Reaction {
    type V = ReactionModel;

    open spec fn view(&self) -> ReactionModel {
        ReactionModel {
            confirmation: match self.confirmation {
                Some(c) => Some(c@),
                None => None,
            },
            action: self.action@,
        }
    }
}

/// The mathematical content of a [`Run`].
pub struct RunModel {
    pub ctx: ContextModel,
    pub tables: Seq<Seq<char>>,
    /// The index of the current table; the number of tables once the run
    /// has finished.
    pub position: nat,
    pub stage: Stage,
}

/// A run is well-formed when its position fits its stage.
pub open spec fn well_formed(m: RunModel) -> bool {
    match m.stage {
        Stage::Connecting => m.position == 0,
        Stage::Querying | Stage::Writing => m.position < m.tables.len(),
        Stage::Finished => m.position == m.tables.len(),
        Stage::Halted(_) => m.position <= m.tables.len(),
    }
}

/// The statement that reads a whole table.
pub open spec fn statement_for(table: Seq<char>) -> Seq<char> {
    "SELECT * FROM "@ + table
}

/// The line that confirms the export of a table.
pub open spec fn confirmation_of(table: Seq<char>) -> Seq<char> {
    "\u{2705} Table: "@ + table + " was exported successfully."@
}

/// The action that asks for the rows of a table.
pub open spec fn query_of(table: Seq<char>) -> ActionModel {
    ActionModel::Query { table, statement: statement_for(table) }
}

/// How a run starts: by asking for the connection pool, before any table.
pub open spec fn start(ctx: ContextModel, url: Seq<char>, tables: Seq<Seq<char>>) -> (
    RunModel,
    ActionModel,
) {
    (
        RunModel { ctx, tables, position: 0, stage: Stage::Connecting },
        ActionModel::Connect { url, max_connections: MAX_CONNECTIONS as nat },
    )
}

/// The run turned to the table at `position`: the query for it, or the end
/// of the run when the list has no such table.
pub open spec fn turn_to(m: RunModel, position: nat) -> (RunModel, ActionModel) {
    if position < m.tables.len() {
        (RunModel { position, stage: Stage::Querying, ..m }, query_of(m.tables[position as int]))
    } else {
        (RunModel { position, stage: Stage::Finished, ..m }, ActionModel::Finish)
    }
}

/// The run stopped by `error`, and the action that says so.
pub open spec fn halt(m: RunModel, error: ExportError) -> (RunModel, ReactionModel) {
    (
        RunModel { stage: Stage::Halted(error), ..m },
        ReactionModel { confirmation: None, action: ActionModel::Abort(error) },
    )
}

/// How a run answers an event.
///
/// While it waits for the pool, the report that the pool stands turns it to
/// the first table; anything else counts as a failed connection.
/// While it waits for rows, rows are rendered and handed out for writing;
/// anything else counts as a failed query.  While it waits for the file,
/// the report that it was written confirms the table and moves on to the
/// next one, or finishes after the last; anything else counts as a failed
/// write.  A finished or halted run stays as it is.
pub open spec fn step(m: RunModel, e: EventModel) -> (RunModel, ReactionModel) {
    match m.stage {
        Stage::Connecting => match e {
            EventModel::Connected => (
                turn_to(m, 0).0,
                ReactionModel { confirmation: None, action: turn_to(m, 0).1 },
            ),
            _ => halt(m, ExportError::Connection),
        },
        Stage::Querying => match e {
            EventModel::Rows(rows) => if uniform_width(table_records(rows)) {
                (
                    RunModel { stage: Stage::Writing, ..m },
                    ReactionModel {
                        confirmation: None,
                        action: ActionModel::Write {
                            artifact: artifact_of(m.ctx, m.tables[m.position as int]),
                            contents: csv_file(table_records(rows)),
                        },
                    },
                )
            } else {
                halt(m, ExportError::Write)
            },
            _ => halt(m, ExportError::Query),
        },
        Stage::Writing => match e {
            EventModel::Written => (
                turn_to(m, m.position + 1).0,
                ReactionModel {
                    confirmation: Some(confirmation_of(m.tables[m.position as int])),
                    action: turn_to(m, m.position + 1).1,
                },
            ),
            _ => halt(m, ExportError::Write),
        },
        Stage::Finished => (m, ReactionModel { confirmation: None, action: ActionModel::Finish }),
        Stage::Halted(error) => (
            m,
            ReactionModel { confirmation: None, action: ActionModel::Abort(error) },
        ),
    }
}

/// The state of a run after it has answered a sequence of events.
pub open spec fn run_after(m: RunModel, events: Seq<EventModel>) -> RunModel
    decreases events.len(),
{
    if events.len() == 0 {
        m
    } else {
        step(run_after(m, events.drop_last()), events.last()).0
    }
}

/// Whether an event is a failure for a run in this state: anything but the
/// report that the pool stands while it waits for the pool, anything but
/// rows that make a file while it waits for rows, anything but the report
/// of a written file while it waits for that.
pub open spec fn fails(m: RunModel, e: EventModel) -> bool {
    match m.stage {
        Stage::Connecting => !(e is Connected),
        Stage::Querying => !(e is Rows && uniform_width(table_records(e->Rows_0))),
        Stage::Writing => !(e is Written),
        _ => false,
    }
}

/// An event changes neither the context nor the list of tables, and leaves
/// a well-formed run well-formed.
pub proof fn lemma_step_preserves(m: RunModel, e: EventModel)
    requires
        well_formed(m),
    ensures
        well_formed(step(m, e).0),
        step(m, e).0.ctx == m.ctx,
        step(m, e).0.tables == m.tables,
        m.position <= step(m, e).0.position <= m.position + 1,
{
}

/// The same over a whole sequence of events.
pub proof fn lemma_run_preserves(m: RunModel, events: Seq<EventModel>)
    requires
        well_formed(m),
    ensures
        well_formed(run_after(m, events)),
        run_after(m, events).ctx == m.ctx,
        run_after(m, events).tables == m.tables,
        m.position <= run_after(m, events).position,
    decreases events.len(),
{
    if events.len() > 0 {
        lemma_run_preserves(m, events.drop_last());
        lemma_step_preserves(run_after(m, events.drop_last()), events.last());
    }
}

/// Tables are taken strictly one after the other, and none before the pool
/// stands.  A query is only ever issued for the first table once the pool
/// is reported to stand, or for the table right after the one whose file
/// has just been reported as written; a file is only ever handed out for
/// the table whose rows have just come in; and the pool is never asked for
/// again.
pub proof fn lemma_tables_in_order(m: RunModel, e: EventModel)
    requires
        well_formed(m),
    ensures
        step(m, e).1.action matches ActionModel::Query { table, statement } ==> {
            &&& m.stage == Stage::Connecting && e is Connected && step(m, e).0.position == 0
                || m.stage == Stage::Writing && e is Written && step(m, e).0.position
                == m.position + 1
            &&& step(m, e).0.stage == Stage::Querying
            &&& table == m.tables[step(m, e).0.position as int]
            &&& statement == statement_for(table)
        },
        !(step(m, e).1.action is Connect),
        step(m, e).1.action matches ActionModel::Write { artifact, contents } ==> {
            &&& m.stage == Stage::Querying
            &&& step(m, e).0.position == m.position
            &&& artifact == artifact_of(m.ctx, m.tables[m.position as int])
        },
        step(m, e).1.confirmation matches Some(line) ==> {
            &&& m.stage == Stage::Writing
            &&& e is Written
            &&& line == confirmation_of(m.tables[m.position as int])
        },
{
}

/// Fail-fast.  The first failure halts the run where it stands, with the
/// error of the failed action; whatever is reported afterwards, the run
/// does not move, confirms nothing and answers with the same abort.  So
/// the tables after the failed one are never queried and never written.
pub proof fn lemma_fail_fast(
    m: RunModel,
    failure: EventModel,
    later: Seq<EventModel>,
    e: EventModel,
)
    requires
        well_formed(m),
        fails(m, failure),
    ensures
        step(m, failure).0.stage is Halted,
        step(m, failure).0.position == m.position,
        step(m, failure).1.action == ActionModel::Abort(step(m, failure).0.stage->Halted_0),
        step(m, failure).1.confirmation is None,
        m.stage == Stage::Connecting ==> step(m, failure).0.stage == Stage::Halted(
            ExportError::Connection,
        ),
        m.stage == Stage::Querying && !(failure is Rows) ==> step(m, failure).0.stage
            == Stage::Halted(ExportError::Query),
        m.stage == Stage::Writing ==> step(m, failure).0.stage == Stage::Halted(ExportError::Write),
        run_after(step(m, failure).0, later) == step(m, failure).0,
        step(run_after(step(m, failure).0, later), e).1 == step(m, failure).1,
{
    lemma_halted_stays(step(m, failure).0, later);
}

/// A halted run stays as it is under every sequence of events.
pub proof fn lemma_halted_stays(m: RunModel, events: Seq<EventModel>)
    requires
        m.stage is Halted,
    ensures
        run_after(m, events) == m,
    decreases events.len(),
{
    if events.len() > 0 {
        lemma_halted_stays(m, events.drop_last());
    }
}

/// Every file that a run hands out, at whatever point, lies in the folder
/// named by the run's one token, under the run's one parent, and has a name
/// that ends with that token.
pub proof fn lemma_files_share_token(m: RunModel, before: Seq<EventModel>, e: EventModel)
    requires
        well_formed(m),
    ensures
        step(run_after(m, before), e).1.action matches ActionModel::Write { artifact, contents }
            ==> {
            &&& artifact.folder == m.ctx.token
            &&& artifact.parent == artifact_of(m.ctx, Seq::empty()).parent
            &&& artifact.file_name.len() >= name_suffix(m.ctx.token).len()
            &&& artifact.file_name.skip(artifact.file_name.len() - name_suffix(m.ctx.token).len())
                == name_suffix(m.ctx.token)
        },
{
    let now = run_after(m, before);
    lemma_run_preserves(m, before);
    lemma_tables_in_order(now, e);
    if step(now, e).1.action is Write {
        lemma_name_ends_with_token(m.ctx.prefix, now.tables[now.position as int], m.ctx.token);
    }
}

/// The report that the file of the last table has been written finishes
/// the run, with every table exported.
pub proof fn lemma_success_after_last(m: RunModel)
    requires
        well_formed(m),
        m.stage == Stage::Writing,
        m.position + 1 == m.tables.len(),
    ensures
        step(m, EventModel::Written).0.stage == Stage::Finished,
        step(m, EventModel::Written).0.position == m.tables.len(),
        step(m, EventModel::Written).1.action == ActionModel::Finish,
{
}

/// The statement that reads the whole of `table`.
pub fn query_statement(table: &str) -> (statement: String)
    ensures
        statement@ == statement_for(table@),
{
    let mut statement = String::from_str("SELECT * FROM ");
    statement.append(table);
    statement
}

/// The line that confirms the export of `table`.
pub fn confirmation_line(table: &str) -> (line: String)
    ensures
        line@ == confirmation_of(table@),
{
    let mut line = String::from_str("\u{2705} Table: ");
    line.append(table);
    line.append(" was exported successfully.");
    line
}

/// How far a run has come.
#[derive(Clone, Copy, Debug)]
struct Progress {
    position: usize,
    stage: Stage,
}

/// A run over a list of tables.
pub struct Run {
    ctx: RunContext,
    tables: Vec<String>,
    progress: Progress,
}

impl View for Run {
    type V = RunModel;

    closed spec fn view(&self) -> RunModel {
        RunModel {
            ctx: self.ctx@,
            tables: self.tables.deep_view(),
            position: self.progress.position as nat,
            stage: self.progress.stage,
        }
    }
}

impl Run {
    #[verifier::type_invariant]
    spec fn inv(self) -> bool {
        well_formed(self@)
    }

    /// Starts a run over `tables`, in their order; a name that occurs twice
    /// is exported twice.  Returns the run and its first action, which asks
    /// for the connection pool.
    pub fn begin(ctx: RunContext, settings: &DatabaseSettings, tables: Vec<String>) -> (r: (
        Run,
        Action,
    ))
        ensures
            (r.0@, r.1@) == start(
                ctx@,
                url_of(
                    settings.dialect@,
                    settings.user@,
                    settings.password@,
                    settings.host@,
                    settings.port@,
                    settings.database@,
                ),
                tables.deep_view(),
            ),
            well_formed(r.0@),
    {
        let url = settings.connection_url();
        (
            Run { ctx, tables, progress: Progress { position: 0, stage: Stage::Connecting } },
            Action::Connect { url, max_connections: MAX_CONNECTIONS },
        )
    }

    /// Where the run stands.
    pub fn stage(&self) -> (s: Stage)
        ensures
            s == self@.stage,
    {
        self.progress.stage
    }

    /// How many tables have been exported completely.
    pub fn completed(&self) -> (n: usize)
        ensures
            n == self@.position,
    {
        self.progress.position
    }

    /// Takes the report of what came of the last action and decides how the
    /// run goes on.
    pub fn react(&mut self, event: Event) -> (reaction: Reaction)
        ensures
            (final(self)@, reaction@) == step(old(self)@, event@),
            well_formed(final(self)@),
    {
        proof {
            use_type_invariant(&*self);
            assert(self.tables.deep_view().len() == self.tables@.len());
        }
        let position = self.progress.position;
        let count = self.tables.len();
        match self.progress.stage {
            Stage::Connecting => match event {
                Event::Connected => Reaction { confirmation: None, action: self.turn_to(0) },
                _ => self.stop(ExportError::Connection),
            },
            Stage::Querying => match event {
                Event::Rows(rows) => match export_table(&rows) {
                    Ok(contents) => {
                        let artifact = self.ctx.artifact_for(self.tables[position].as_str());
                        self.progress = Progress { position, stage: Stage::Writing };
                        Reaction {
                            confirmation: None,
                            action: Action::Write { artifact, contents },
                        }
                    },
                    Err(error) => self.stop(error),
                },
                _ => self.stop(ExportError::Query),
            },
            Stage::Writing => match event {
                Event::Written => {
                    let confirmation = Some(confirmation_line(self.tables[position].as_str()));
                    assert(position < count);
                    Reaction { confirmation, action: self.turn_to(position + 1) }
                },
                _ => self.stop(ExportError::Write),
            },
            Stage::Finished => Reaction { confirmation: None, action: Action::Finish },
            Stage::Halted(error) => Reaction { confirmation: None, action: Action::Abort(error) },
        }
    }

    fn turn_to(&mut self, position: usize) -> (action: Action)
        requires
            position <= old(self)@.tables.len(),
        ensures
            (final(self)@, action@) == turn_to(old(self)@, position as nat),
            well_formed(final(self)@),
    {
        assert(self.tables.deep_view().len() == self.tables@.len());
        if position < self.tables.len() {
            let table = self.tables[position].clone();
            let statement = query_statement(table.as_str());
            self.progress = Progress { position, stage: Stage::Querying };
            Action::Query { table, statement }
        } else {
            self.progress = Progress { position, stage: Stage::Finished };
            Action::Finish
        }
    }

    fn stop(&mut self, error: ExportError) -> (reaction: Reaction)
        requires
            old(self)@.position <= old(self)@.tables.len(),
        ensures
            (final(self)@, reaction@) == halt(old(self)@, error),
            well_formed(final(self)@),
    {
        self.progress = Progress { position: self.progress.position, stage: Stage::Halted(error) };
        Reaction { confirmation: None, action: Action::Abort(error) }
    }
}

} // verus!
