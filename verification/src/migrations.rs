//! Setting up the tables: five statements in one transaction.
use crate::database::{answer_view, Answer};
use vstd::prelude::*;

verus! {

/// Creates the table.
pub const CREATE_TABLE: &'static str = r#"
        CREATE TABLE IF NOT EXISTS cached_data (
            key VARCHAR(255) PRIMARY KEY,
            data BYTEA NOT NULL,
            created_at TIMESTAMP WITH TIME ZONE DEFAULT CURRENT_TIMESTAMP,
            updated_at TIMESTAMP WITH TIME ZONE DEFAULT CURRENT_TIMESTAMP
        )
        "#;

/// Creates the trigger function.
pub const CREATE_FUNCTION: &'static str = r#"
        CREATE OR REPLACE FUNCTION update_updated_at_column()
        RETURNS TRIGGER AS $$
        BEGIN
            NEW.updated_at = CURRENT_TIMESTAMP;
            RETURN NEW;
        END;
        $$ language 'plpgsql'
        "#;

/// Drops the trigger if it exists.
pub const DROP_TRIGGER: &'static str = r#"
        DROP TRIGGER IF EXISTS update_cached_data_updated_at ON cached_data
        "#;

/// Creates the trigger.
pub const CREATE_TRIGGER: &'static str = r#"
        CREATE TRIGGER update_cached_data_updated_at
            BEFORE UPDATE ON cached_data
            FOR EACH ROW
            EXECUTE FUNCTION update_updated_at_column()
        "#;

/// Creates the index.
pub const CREATE_INDEX: &'static str = r#"
        CREATE INDEX IF NOT EXISTS idx_cached_data_updated_at ON cached_data(updated_at)
        "#;

/// The statements, in the order in which they run.
pub open spec fn migration_statements() -> Seq<Seq<char>> {
    seq![CREATE_TABLE@, CREATE_FUNCTION@, DROP_TRIGGER@, CREATE_TRIGGER@, CREATE_INDEX@]
}

/// How far the migrations have come: waiting for the transaction to begin, for
/// one of the statements, for the commit, or at one of the two ends.
#[derive(Debug)]
enum Stage {
    Beginning,
    Running(usize),
    Committing,
    Done,
    Failed(String),
}

/// The migrations under way.
#[derive(Debug)]
pub struct Migration {
    stage: Stage,
}

/// What a `Migration` stands for.
pub enum MigrationView {
    Beginning,
    Running(nat),
    Committing,
    Done,
    Failed(Seq<char>),
}

impl View for Migration {
    type V = MigrationView;

    closed spec fn view(&self) -> MigrationView {
        match self.stage {
            Stage::Beginning => MigrationView::Beginning,
            Stage::Running(n) => MigrationView::Running(n as nat),
            Stage::Committing => MigrationView::Committing,
            Stage::Done => MigrationView::Done,
            Stage::Failed(text) => MigrationView::Failed(text@),
        }
    }
}

/// What the database is asked to do next. Dropping the transaction without a
/// commit undoes it.
#[derive(Debug, PartialEq, Eq)]
pub enum MigrationAction {
    Begin,
    Execute(&'static str),
    Commit,
    Finish,
    Abandon,
}

/// What a `MigrationAction` stands for.
pub enum ActionView {
    Begin,
    Execute(Seq<char>),
    Commit,
    Finish,
    Abandon,
}

impl View for MigrationAction {
    type V = ActionView;

    open spec fn view(&self) -> ActionView {
        match self {
            MigrationAction::Begin => ActionView::Begin,
            MigrationAction::Execute(sql) => ActionView::Execute(sql@),
            MigrationAction::Commit => ActionView::Commit,
            MigrationAction::Finish => ActionView::Finish,
            MigrationAction::Abandon => ActionView::Abandon,
        }
    }
}

impl MigrationView {
    /// Whether the state is one that migrations come to.
    pub open spec fn is_valid(self) -> bool {
        self matches MigrationView::Running(n) ==> n < migration_statements().len()
    }

    /// Whether no action is left.
    pub open spec fn is_over(self) -> bool {
        self is Done || self is Failed
    }

    /// What the database is asked to do in this state.
    pub open spec fn action(self) -> ActionView {
        match self {
            MigrationView::Beginning => ActionView::Begin,
            MigrationView::Running(n) => ActionView::Execute(migration_statements()[n as int]),
            MigrationView::Committing => ActionView::Commit,
            MigrationView::Done => ActionView::Finish,
            MigrationView::Failed(_) => ActionView::Abandon,
        }
    }

    /// The state after the answer to that action.
    pub open spec fn step(self, answer: Result<(), Seq<char>>) -> MigrationView {
        if self.is_over() {
            self
        } else {
            match answer {
                Err(text) => MigrationView::Failed(text),
                Ok(()) => match self {
                    MigrationView::Beginning => MigrationView::Running(0),
                    MigrationView::Running(n) => if n + 1 < migration_statements().len() {
                        MigrationView::Running(n + 1)
                    } else {
                        MigrationView::Committing
                    },
                    _ => MigrationView::Done,
                },
            }
        }
    }

    /// The state after the answers to one action after another.
    pub open spec fn run(self, answers: Seq<Result<(), Seq<char>>>) -> MigrationView
        decreases answers.len(),
    {
        if answers.len() == 0 {
            self
        } else {
            self.run(answers.drop_last()).step(answers.last())
        }
    }
}

impl Migration {
    #[verifier::type_invariant]
    spec fn inv(self) -> bool {
        self@.is_valid()
    }

    /// The migrations before anything has been done.
    pub fn start() -> (state: Migration)
        ensures
            state@ is Beginning,
    {
        Migration { stage: Stage::Beginning }
    }

    /// What the database is asked to do next.
    pub fn action(&self) -> (action: MigrationAction)
        ensures
            action@ == self@.action(),
            self@.is_valid(),
    {
        proof {
            use_type_invariant(self);
        }
        match &self.stage {
            Stage::Beginning => MigrationAction::Begin,
            Stage::Running(n) => MigrationAction::Execute(
                match *n {
                    0 => CREATE_TABLE,
                    1 => CREATE_FUNCTION,
                    2 => DROP_TRIGGER,
                    3 => CREATE_TRIGGER,
                    _ => CREATE_INDEX,
                },
            ),
            Stage::Committing => MigrationAction::Commit,
            Stage::Done => MigrationAction::Finish,
            Stage::Failed(_) => MigrationAction::Abandon,
        }
    }

    /// The state after the database's answer to the action.
    pub fn step(self, answer: Answer) -> (next: Migration)
        ensures
            next@ == self@.step(answer_view(answer)),
            next@.is_valid(),
    {
        proof {
            use_type_invariant(&self);
        }
        let stage: Stage = match self.stage {
            Stage::Done => Stage::Done,
            Stage::Failed(text) => Stage::Failed(text),
            stage => match answer {
                Err(text) => Stage::Failed(text),
                Ok(()) => match stage {
                    Stage::Beginning => Stage::Running(0),
                    Stage::Running(n) => if n < 4 {
                        Stage::Running(n + 1)
                    } else {
                        Stage::Committing
                    },
                    _ => Stage::Done,
                },
            },
        };
        Migration { stage }
    }

    /// What the migrations have come to, if they are over.
    pub fn outcome(self) -> (outcome: Option<Answer>)
        ensures
            match outcome {
                Some(Ok(())) => self@ is Done,
                Some(Err(text)) => self@ == MigrationView::Failed(text@),
                None => !self@.is_over(),
            },
    {
        match self.stage {
            Stage::Done => Some(Ok(())),
            Stage::Failed(text) => Some(Err(text)),
            _ => None,
        }
    }
}

/// Whether the first `n` answers are all that the action is done.
pub open spec fn all_done(answers: Seq<Result<(), Seq<char>>>, n: int) -> bool {
    &&& n <= answers.len()
    &&& forall|i: int| 0 <= i < n ==> #[trigger] answers[i] is Ok
}

/// The state in which migrations without a failure are after `n` answers.
pub open spec fn undisturbed(n: int) -> MigrationView {
    if n <= 0 {
        MigrationView::Beginning
    } else if n <= 5 {
        MigrationView::Running((n - 1) as nat)
    } else if n == 6 {
        MigrationView::Committing
    } else {
        MigrationView::Done
    }
}

/// As long as nothing fails, the database is asked to begin, to run the five
/// statements in their order, and to commit, one after the other.
pub proof fn law_statements_run_in_order(answers: Seq<Result<(), Seq<char>>>)
    requires
        all_done(answers, answers.len() as int),
    ensures
        MigrationView::Beginning.run(answers) == undisturbed(answers.len() as int),
        answers.len() == 0 ==> MigrationView::Beginning.run(answers).action() is Begin,
        1 <= answers.len() <= 5 ==> MigrationView::Beginning.run(answers).action()
            == ActionView::Execute(migration_statements()[answers.len() - 1]),
        answers.len() == 6 ==> MigrationView::Beginning.run(answers).action() is Commit,
        answers.len() >= 7 ==> MigrationView::Beginning.run(answers).action() is Finish,
    decreases answers.len(),
{
    if answers.len() > 0 {
        assert forall|i: int| 0 <= i < answers.drop_last().len() implies #[trigger]
            answers.drop_last()[i] is Ok by {
            assert(answers[i] is Ok);
        }
        law_statements_run_in_order(answers.drop_last());
        assert(answers[answers.len() - 1] is Ok);
    }
}

/// The first failure ends the migrations with its text, and nothing that comes
/// after it changes that.
pub proof fn law_first_failure_is_final(answers: Seq<Result<(), Seq<char>>>, at: int)
    requires
        0 <= at < answers.len(),
        at < 7,
        all_done(answers, at),
        answers[at] is Err,
    ensures
        answers[at] matches Err(text) && MigrationView::Beginning.run(answers)
            == MigrationView::Failed(text),
    decreases answers.len(),
{
    if at == answers.len() - 1 {
        assert forall|i: int| 0 <= i < answers.drop_last().len() implies #[trigger]
            answers.drop_last()[i] is Ok by {
            assert(answers[i] is Ok);
        }
        law_statements_run_in_order(answers.drop_last());
    } else {
        assert forall|i: int| 0 <= i < at implies #[trigger] answers.drop_last()[i] is Ok by {
            assert(answers[i] is Ok);
        }
        law_first_failure_is_final(answers.drop_last(), at);
    }
}

/// The migrations come to their good end if and only if the beginning, the five
/// statements and the commit were all answered without an error.
pub proof fn law_done_means_all_committed(answers: Seq<Result<(), Seq<char>>>)
    ensures
        MigrationView::Beginning.run(answers) is Done <==> all_done(answers, 7),
{
    if answers.len() >= 7 && all_done(answers, 7) {
        lemma_stays_done(answers);
    } else {
        if exists|at: int| 0 <= at < answers.len() && at < 7 && #[trigger] answers[at] is Err {
            let at = first_failure(answers, 0);
            lemma_first_failure(answers, 0);
            law_first_failure_is_final(answers, at);
        } else {
            assert forall|i: int| 0 <= i < answers.len() && i < 7 implies #[trigger]
                answers[i] is Ok by {}
            law_statements_run_in_order(answers);
        }
    }
}

/// The position of the first failure among the answers from `from` on, or their
/// number if there is none.
spec fn first_failure(answers: Seq<Result<(), Seq<char>>>, from: int) -> int
    decreases answers.len() - from,
{
    if from >= answers.len() || answers[from] is Err {
        from
    } else {
        first_failure(answers, from + 1)
    }
}

proof fn lemma_first_failure(answers: Seq<Result<(), Seq<char>>>, from: int)
    requires
        0 <= from <= answers.len(),
    ensures
        from <= first_failure(answers, from) <= answers.len(),
        forall|i: int| from <= i < first_failure(answers, from) ==> #[trigger] answers[i] is Ok,
        first_failure(answers, from) < answers.len() ==> answers[first_failure(
            answers,
            from,
        )] is Err,
    decreases answers.len() - from,
{
    if from < answers.len() && !(answers[from] is Err) {
        lemma_first_failure(answers, from + 1);
    }
}

proof fn lemma_stays_done(answers: Seq<Result<(), Seq<char>>>)
    requires
        all_done(answers, 7),
    ensures
        MigrationView::Beginning.run(answers) is Done,
    decreases answers.len(),
{
    if answers.len() == 7 {
        law_statements_run_in_order(answers);
    } else {
        assert forall|i: int| 0 <= i < 7 implies #[trigger] answers.drop_last()[i] is Ok by {
            assert(answers[i] is Ok);
        }
        lemma_stays_done(answers.drop_last());
    }
}

/// The database is asked to begin, to run each statement in its turn, and to
/// commit; after that there is nothing to ask, and after a failure only to undo.
pub proof fn law_actions_follow_the_state(migration: &Migration, action: MigrationAction)
    requires
        call_ensures(Migration::action, (migration,), action),
    ensures
        match migration@ {
            MigrationView::Beginning => action is Begin,
            MigrationView::Running(n) => {
                &&& action matches MigrationAction::Execute(sql)
                &&& n == 0 ==> sql@ == CREATE_TABLE@
                &&& n == 1 ==> sql@ == CREATE_FUNCTION@
                &&& n == 2 ==> sql@ == DROP_TRIGGER@
                &&& n == 3 ==> sql@ == CREATE_TRIGGER@
                &&& n == 4 ==> sql@ == CREATE_INDEX@
                &&& n < 5
            },
            MigrationView::Committing => action is Commit,
            MigrationView::Done => action is Finish,
            MigrationView::Failed(_) => action is Abandon,
        },
{
}

/// Each answer takes the migrations one stage on, and a failure to their bad end
/// with its whole text; neither end is left again.
pub proof fn law_answers_take_one_stage_on(
    migration: Migration,
    answer: Answer,
    next: Migration,
)
    requires
        call_ensures(Migration::step, (migration, answer), next),
    ensures
        migration@ is Done ==> next@ is Done,
        migration@ is Failed ==> next@ == migration@,
        !(migration@ is Done) && !(migration@ is Failed) ==> (match answer {
            Err(text) => next@ == MigrationView::Failed(text@),
            Ok(()) => match migration@ {
                MigrationView::Beginning => next@ == MigrationView::Running(0),
                MigrationView::Running(n) => if n < 4 {
                    next@ == MigrationView::Running(n + 1)
                } else {
                    next@ is Committing
                },
                _ => next@ is Done,
            },
        }),
{
}

/// There is an outcome if and only if the migrations are at an end: a good one, or
/// the whole text of the failure.
pub proof fn law_outcomes_come_at_an_end(migration: Migration, outcome: Option<Answer>)
    requires
        call_ensures(Migration::outcome, (migration,), outcome),
    ensures
        (outcome matches Some(Ok(_))) <==> migration@ is Done,
        outcome matches Some(Err(text)) ==> migration@ == MigrationView::Failed(text@),
        outcome is None <==> !(migration@ is Done) && !(migration@ is Failed),
{
}

/// The table, its trigger and its index are what the statements set up.
pub proof fn law_statements_set_up_the_table()
    ensures
        CREATE_TABLE@ == r#"
        CREATE TABLE IF NOT EXISTS cached_data (
            key VARCHAR(255) PRIMARY KEY,
            data BYTEA NOT NULL,
            created_at TIMESTAMP WITH TIME ZONE DEFAULT CURRENT_TIMESTAMP,
            updated_at TIMESTAMP WITH TIME ZONE DEFAULT CURRENT_TIMESTAMP
        )
        "#@,
        CREATE_FUNCTION@ == r#"
        CREATE OR REPLACE FUNCTION update_updated_at_column()
        RETURNS TRIGGER AS $$
        BEGIN
            NEW.updated_at = CURRENT_TIMESTAMP;
            RETURN NEW;
        END;
        $$ language 'plpgsql'
        "#@,
        DROP_TRIGGER@ == r#"
        DROP TRIGGER IF EXISTS update_cached_data_updated_at ON cached_data
        "#@,
        CREATE_TRIGGER@ == r#"
        CREATE TRIGGER update_cached_data_updated_at
            BEFORE UPDATE ON cached_data
            FOR EACH ROW
            EXECUTE FUNCTION update_updated_at_column()
        "#@,
        CREATE_INDEX@ == r#"
        CREATE INDEX IF NOT EXISTS idx_cached_data_updated_at ON cached_data(updated_at)
        "#@,
{
}

} // verus!
