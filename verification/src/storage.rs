//! The store's writer: the one connection through which every row is written.
//!
//! The writer is opened once, when it is first needed, and kept for as long
//! as the process runs. Before it serves, the connection is told to enforce
//! foreign keys, without which a reading could name a sensor that does not
//! exist, and to keep a write-ahead log, which makes each statement safe
//! against a crash. A store that cannot be opened, or that will not enforce
//! foreign keys, is no store to serve from; a store without the log still is.

use vstd::prelude::*;

verus! {

/// The text of [`db_filename`].
pub open spec fn db_filename_text() -> Seq<char> {
    "db.sqlite"@
}

/// The file that holds the store. Readers open it on their own, read-only,
/// and never wait for the writer.
pub fn db_filename() -> (name: &'static str)
    ensures
        name@ == db_filename_text(),
{
    "db.sqlite"
}

/// A setting of the writer's connection.
#[derive(Debug, Clone, Copy, PartialEq, Eq, Structural)]
pub enum Pragma {
    ForeignKeys,
    WriteAheadLog,
}

impl Pragma {
    /// The statement that makes the setting.
    pub open spec fn statement_text(self) -> Seq<char> {
        match self {
            Pragma::ForeignKeys => "PRAGMA foreign_keys = ON;"@,
            Pragma::WriteAheadLog => "PRAGMA journal_mode = WAL;"@,
        }
    }

    pub fn statement(self) -> (sql: &'static str)
        ensures
            sql@ == self.statement_text(),
    {
        match self {
            Pragma::ForeignKeys => "PRAGMA foreign_keys = ON;",
            Pragma::WriteAheadLog => "PRAGMA journal_mode = WAL;",
        }
    }
}

/// Why no writer could be had.
#[derive(Debug, Clone, Copy, PartialEq, Eq, Structural)]
pub enum Failure {
    Open,
    ForeignKeys,
}

impl Failure {
    /// What to say of the failure.
    pub open spec fn message_text(self) -> Seq<char> {
        match self {
            Failure::Open => "Failed to open database"@,
            Failure::ForeignKeys => "Failed to enable foreign keys"@,
        }
    }

    pub fn message(self) -> (text: &'static str)
        ensures
            text@ == self.message_text(),
    {
        match self {
            Failure::Open => "Failed to open database",
            Failure::ForeignKeys => "Failed to enable foreign keys",
        }
    }
}

/// The step of the writer's setup whose outcome is awaited.
#[derive(Debug, Clone, Copy, PartialEq, Eq, Structural)]
pub enum WriterSetup {
    Opening,
    EnforcingKeys,
    Journaling,
    /// The setup has ended, well or not.
    Settled,
}

/// What the caller is to do next.
#[derive(Debug, Clone, Copy, PartialEq, Eq, Structural)]
pub enum WriterCommand {
    /// Open [`db_filename`] for reading and writing.
    Open,
    /// Execute the setting's statement on the connection.
    Execute(Pragma),
    /// The connection is the writer from now on.
    Serve,
    /// There is no writer, and the process cannot go on.
    Abort(Failure),
}

impl WriterSetup {
    /// Where the setup starts: with opening the store.
    pub open spec fn started() -> (WriterSetup, WriterCommand) {
        (WriterSetup::Opening, WriterCommand::Open)
    }

    /// How the setup goes on once the awaited step was carried out, with
    /// `succeeded` telling how it went.
    pub open spec fn advanced(self, succeeded: bool) -> Option<(WriterSetup, WriterCommand)> {
        match self {
            WriterSetup::Opening => Some(
                if succeeded {
                    (WriterSetup::EnforcingKeys, WriterCommand::Execute(Pragma::ForeignKeys))
                } else {
                    (WriterSetup::Settled, WriterCommand::Abort(Failure::Open))
                },
            ),
            WriterSetup::EnforcingKeys => Some(
                if succeeded {
                    (WriterSetup::Journaling, WriterCommand::Execute(Pragma::WriteAheadLog))
                } else {
                    (WriterSetup::Settled, WriterCommand::Abort(Failure::ForeignKeys))
                },
            ),
            WriterSetup::Journaling => Some((WriterSetup::Settled, WriterCommand::Serve)),
            WriterSetup::Settled => None,
        }
    }

    /// The commands that follow `command`, itself included, when the steps go
    /// as `outcomes` says, one outcome for each step in turn.
    pub open spec fn commands_from(self, command: WriterCommand, outcomes: Seq<bool>) -> Seq<
        WriterCommand,
    >
        decreases outcomes.len(),
    {
        if outcomes.len() == 0 {
            seq![command]
        } else {
            match self.advanced(outcomes[0]) {
                None => seq![command],
                Some((state, next)) => seq![command] + state.commands_from(
                    next,
                    outcomes.drop_first(),
                ),
            }
        }
    }

    /// All commands of a setup whose steps go as `outcomes` says.
    pub open spec fn commands(outcomes: Seq<bool>) -> Seq<WriterCommand> {
        WriterSetup::started().0.commands_from(WriterSetup::started().1, outcomes)
    }

    /// Goes on after the awaited step. Returns the next command, or nothing
    /// if the setup had ended before.
    pub fn advance(self, succeeded: bool) -> (step: Option<(WriterSetup, WriterCommand)>)
        ensures
            step == self.advanced(succeeded),
    {
        match self {
            WriterSetup::Opening => if succeeded {
                Some((WriterSetup::EnforcingKeys, WriterCommand::Execute(Pragma::ForeignKeys)))
            } else {
                Some((WriterSetup::Settled, WriterCommand::Abort(Failure::Open)))
            },
            WriterSetup::EnforcingKeys => if succeeded {
                Some((WriterSetup::Journaling, WriterCommand::Execute(Pragma::WriteAheadLog)))
            } else {
                Some((WriterSetup::Settled, WriterCommand::Abort(Failure::ForeignKeys)))
            },
            WriterSetup::Journaling => Some((WriterSetup::Settled, WriterCommand::Serve)),
            WriterSetup::Settled => None,
        }
    }
}

/// Begins the setup of the writer. The first command opens the store;
/// [`WriterSetup::advance`] gives the ones after it.
pub fn get_db_writer() -> (step: (WriterSetup, WriterCommand))
    ensures
        step == WriterSetup::started(),
{
    (WriterSetup::Opening, WriterCommand::Open)
}

/// Every course that the setup can take. The store is opened; if that works,
/// foreign keys are switched on; if that works too, the write-ahead log is
/// asked for, and the connection serves whatever came of the asking.
pub proof fn lemma_writer_commands(outcomes: Seq<bool>)
    ensures
        WriterSetup::commands(outcomes) == if outcomes.len() == 0 {
            seq![WriterCommand::Open]
        } else if !outcomes[0] {
            seq![WriterCommand::Open, WriterCommand::Abort(Failure::Open)]
        } else if outcomes.len() == 1 {
            seq![WriterCommand::Open, WriterCommand::Execute(Pragma::ForeignKeys)]
        } else if !outcomes[1] {
            seq![
                WriterCommand::Open,
                WriterCommand::Execute(Pragma::ForeignKeys),
                WriterCommand::Abort(Failure::ForeignKeys),
            ]
        } else if outcomes.len() == 2 {
            seq![
                WriterCommand::Open,
                WriterCommand::Execute(Pragma::ForeignKeys),
                WriterCommand::Execute(Pragma::WriteAheadLog),
            ]
        } else {
            seq![
                WriterCommand::Open,
                WriterCommand::Execute(Pragma::ForeignKeys),
                WriterCommand::Execute(Pragma::WriteAheadLog),
                WriterCommand::Serve,
            ]
        },
{
    reveal_with_fuel(WriterSetup::commands_from, 5);
}

/// A connection serves as the writer if and only if it was opened and
/// enforces foreign keys; whether it keeps a write-ahead log does not matter.
pub proof fn lemma_writer_enforces_foreign_keys(outcomes: Seq<bool>)
    ensures
        WriterSetup::commands(outcomes).contains(WriterCommand::Serve) <==> outcomes.len() >= 3
            && outcomes[0] && outcomes[1],
{
    lemma_writer_commands(outcomes);
    if outcomes.len() >= 3 && outcomes[0] && outcomes[1] {
        assert(WriterSetup::commands(outcomes)[3] == WriterCommand::Serve);
    }
}

} // verus!
