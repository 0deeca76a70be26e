use vstd::prelude::*;
use vstd::string::*;

verus! {

/// What a failed lease reports before the cause.
pub open spec fn unavailable_prefix() -> Seq<char> {
    "Couldn't get database connection from pool due to error: "@
}

/// The diagnostic of a failed lease: the prefix, the cause, a full stop.
pub open spec fn unavailable_text(cause: Seq<char>) -> Seq<char> {
    unavailable_prefix() + cause + "."@
}

/// The diagnostic keeps the cause whole: two diagnostics are the same only
/// where their causes are.
pub proof fn diagnostic_determines_cause(first: Seq<char>, second: Seq<char>)
    requires
        unavailable_text(first) == unavailable_text(second),
    ensures
        first == second,
{
    let head = unavailable_prefix().len() as int;
    let a = unavailable_text(first);
    let b = unavailable_text(second);
    reveal_strlit(".");
    assert(a.len() == head + first.len() + 1);
    assert(b.len() == head + second.len() + 1);
    assert(first =~= a.subrange(head, head + first.len()));
    assert(second =~= b.subrange(head, head + second.len()));
}

/// No connection could be leased. The request that asked fails; the service
/// goes on.
#[derive(Debug)]
pub struct DatabaseError {
    /// The line to log: what the pool gave as the cause, framed.
    pub diagnostic: String,
}

impl DatabaseError {
    /// The error for a lease that failed for `cause`.
    pub fn unavailable(cause: &str) -> (error: DatabaseError)
        ensures
            error.diagnostic@ == unavailable_text(cause@),
    {
        let mut diagnostic = String::from_str(
            "Couldn't get database connection from pool due to error: ",
        );
        diagnostic.append(cause);
        diagnostic.append(".");
        DatabaseError { diagnostic }
    }

    /// The line to log.
    pub fn message(&self) -> (line: &str)
        ensures
            line@ == self.diagnostic@,
    {
        self.diagnostic.as_str()
    }
}

/// The step of startup that failed.
#[derive(Clone, Copy, Debug, PartialEq, Eq, Structural)]
pub enum StartupStage {
    /// The limits given for the pool admit no pool.
    Configuration,
    /// The pool could not open its connections.
    PoolConstruction,
    /// The messages table could not be created.
    SchemaCreation,
}

/// What a startup failure says before the cause.
pub open spec fn stage_text(stage: StartupStage) -> Seq<char> {
    match stage {
        StartupStage::Configuration => "Invalid pool configuration."@,
        StartupStage::PoolConstruction => "Couldn't create database connection pool."@,
        StartupStage::SchemaCreation => "Couldn't create messages table."@,
    }
}

/// The message of a startup failure: what failed, a colon, the cause.
pub open spec fn fatal_text(stage: StartupStage, cause: Seq<char>) -> Seq<char> {
    stage_text(stage) + ": "@ + cause
}

/// The fatal message keeps the stage's cause whole: for one stage, two
/// messages are the same only where their causes are.
pub proof fn fatal_message_determines_cause(
    stage: StartupStage,
    first: Seq<char>,
    second: Seq<char>,
)
    requires
        fatal_text(stage, first) == fatal_text(stage, second),
    ensures
        first == second,
{
    let head = (stage_text(stage) + ": "@).len() as int;
    let a = fatal_text(stage, first);
    let b = fatal_text(stage, second);
    assert(a.len() == head + first.len());
    assert(b.len() == head + second.len());
    assert(first =~= a.subrange(head, a.len() as int));
    assert(second =~= b.subrange(head, b.len() as int));
}

/// Startup failed. Without a pool and its table there is no service: the
/// caller aborts.
#[derive(Debug)]
pub struct StartupError {
    /// The step that failed.
    pub stage: StartupStage,
    /// What the step gave as the cause.
    pub cause: String,
}

impl StartupError {
    /// What to abort with.
    pub fn fatal_message(&self) -> (line: String)
        ensures
            line@ == fatal_text(self.stage, self.cause@),
    {
        let head: &str = match self.stage {
            StartupStage::Configuration => "Invalid pool configuration.",
            StartupStage::PoolConstruction => "Couldn't create database connection pool.",
            StartupStage::SchemaCreation => "Couldn't create messages table.",
        };
        let mut line = String::from_str(head);
        line.append(": ");
        line.append(self.cause.as_str());
        line
    }
}

} // verus!
