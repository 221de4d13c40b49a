//! How Core's directory of accounts is brought up to date with the account
//! files: who may do so, and in which order Core is asked and written to.
//!
//! A sync ends at the first answer that is not a success. A balance out of the
//! account files is taken over only where Core knows none.

use crate::account_directory::{
    self, AccountDirectory, AccountView, DirectoryView, RegisterUpstreamAccount,
};
use crate::scheduler::SchedulerError;
use crate::table;
use vstd::prelude::*;

verus! {

/// How far a sync has come.
#[derive(Clone, Copy, Debug, PartialEq, Eq, Structural)]
pub enum SyncStage {
    Authorizing,
    Reading,
    Writing,
    Comparing,
    Importing,
    Over,
}

/// A sync: what it is to bring about, the writes that takes, and how many of
/// the writes and of the balances are done with.
pub struct SyncRun {
    pub stage: SyncStage,
    pub target: AccountDirectory,
    pub writes: Vec<RegisterUpstreamAccount>,
    pub written: usize,
    pub compared: usize,
}

/// The model of a [`SyncRun`].
pub struct SyncView {
    pub stage: SyncStage,
    pub target: DirectoryView,
    pub writes: Seq<AccountView>,
    pub written: int,
    pub compared: int,
}

impl View for SyncRun {
    type V = SyncView;

    open spec fn view(&self) -> SyncView {
        SyncView {
            stage: self.stage,
            target: self.target@,
            writes: account_directory::account_views(self.writes@),
            written: self.written as int,
            compared: self.compared as int,
        }
    }
}

/// What came of the last action.
pub enum SyncEvent {
    /// Whether the caller is an administrator.
    Authorized(bool),
    /// The accounts that are stored, where they can be read.
    Known(Option<Vec<RegisterUpstreamAccount>>),
    /// Whether the write went well.
    Done(bool),
    /// Whether Core knows such a balance, where it can tell.
    Latest(Option<bool>),
}

/// The model of a [`SyncEvent`].
pub enum SyncEventView {
    Authorized(bool),
    Known(Option<Seq<AccountView>>),
    Done(bool),
    Latest(Option<bool>),
}

impl View for SyncEvent {
    type V = SyncEventView;

    open spec fn view(&self) -> SyncEventView {
        match self {
            SyncEvent::Authorized(granted) => SyncEventView::Authorized(*granted),
            SyncEvent::Known(known) => SyncEventView::Known(
                match known {
                    Some(rows) => Some(account_directory::account_views(rows@)),
                    None => None,
                },
            ),
            SyncEvent::Done(done) => SyncEventView::Done(*done),
            SyncEvent::Latest(known) => SyncEventView::Latest(*known),
        }
    }
}

/// What is to be done next.
#[derive(Debug, PartialEq, Eq, Structural)]
pub enum SyncAction {
    Authorize,
    ReadDirectory,
    /// The write of that number is made.
    Write(usize),
    /// Core is asked for a balance like the one of that number.
    LookUp(usize),
    /// The balance of that number is recorded.
    Import(usize),
    /// The directory is up to date, after so many writes.
    Finish(usize),
    Fail(SchedulerError),
}

/// The sync has not gone past its end.
pub open spec fn in_step(s: SyncView) -> bool {
    &&& 0 <= s.written <= s.writes.len()
    &&& 0 <= s.compared <= s.target.cached_observations.len()
    &&& s.stage == SyncStage::Writing ==> s.written < s.writes.len()
    &&& s.stage == SyncStage::Comparing || s.stage == SyncStage::Importing ==> s.written
        == s.writes.len() && s.compared < s.target.cached_observations.len()
}

/// The event can follow the action that the sync waits for.
pub open spec fn expected(stage: SyncStage, event: SyncEventView) -> bool {
    match stage {
        SyncStage::Authorizing => event is Authorized,
        SyncStage::Reading => event is Known,
        SyncStage::Writing => event is Done,
        SyncStage::Comparing => event is Latest,
        SyncStage::Importing => event is Done,
        SyncStage::Over => false,
    }
}

/// The sync fails.
pub open spec fn fails(s: SyncView, error: SchedulerError) -> (SyncView, SyncAction) {
    (SyncView { stage: SyncStage::Over, ..s }, SyncAction::Fail(error))
}

/// What follows: the next write, then the next balance, then the end.
pub open spec fn goes_on(s: SyncView) -> (SyncView, SyncAction) {
    if s.written < s.writes.len() {
        (SyncView { stage: SyncStage::Writing, ..s }, SyncAction::Write(s.written as usize))
    } else if s.compared < s.target.cached_observations.len() {
        (SyncView { stage: SyncStage::Comparing, ..s }, SyncAction::LookUp(s.compared as usize))
    } else {
        (SyncView { stage: SyncStage::Over, ..s }, SyncAction::Finish(s.written as usize))
    }
}

/// The next step of a sync.
pub open spec fn sync_step(s: SyncView, event: SyncEventView) -> (SyncView, SyncAction) {
    match event {
        SyncEventView::Authorized(granted) => if granted {
            (SyncView { stage: SyncStage::Reading, ..s }, SyncAction::ReadDirectory)
        } else {
            fails(s, SchedulerError::AdminRequired)
        },
        SyncEventView::Known(known) => match known {
            Some(rows) => goes_on(
                SyncView {
                    writes: account_directory::synced(
                        account_directory::directory_of_rows(rows, rows.len()),
                        s.target.accounts,
                    ).1,
                    written: 0,
                    compared: 0,
                    ..s
                },
            ),
            None => fails(s, SchedulerError::StorageUnavailable),
        },
        SyncEventView::Done(done) => if !done {
            fails(s, SchedulerError::SyncFailed)
        } else if s.stage == SyncStage::Writing {
            goes_on(SyncView { written: s.written + 1, ..s })
        } else {
            goes_on(SyncView { compared: s.compared + 1, ..s })
        },
        SyncEventView::Latest(known) => match known {
            None => fails(s, SchedulerError::SyncFailed),
            Some(known) => if known {
                goes_on(SyncView { compared: s.compared + 1, ..s })
            } else {
                (
                    SyncView { stage: SyncStage::Importing, ..s },
                    SyncAction::Import(s.compared as usize),
                )
            },
        },
    }
}

/// The sync before its first step.
pub open spec fn sync_start(target: DirectoryView) -> SyncView {
    SyncView {
        stage: SyncStage::Authorizing,
        target,
        writes: Seq::empty(),
        written: 0,
        compared: 0,
    }
}

/// Starts to bring Core's directory up to date with these accounts.
pub fn start_sync(target: AccountDirectory) -> (r: (SyncRun, SyncAction))
    ensures
        r.0@ == sync_start(target@),
        in_step(r.0@),
        r.1 == SyncAction::Authorize,
{
    let writes: Vec<RegisterUpstreamAccount> = Vec::new();
    assert(account_directory::account_views(writes@) =~= Seq::empty());
    (
        SyncRun { stage: SyncStage::Authorizing, target, writes, written: 0, compared: 0 },
        SyncAction::Authorize,
    )
}

fn fail(run: SyncRun, error: SchedulerError) -> (r: (SyncRun, SyncAction))
    ensures
        (r.0@, r.1) == fails(run@, error),
        in_step(run@) ==> in_step(r.0@),
{
    (SyncRun { stage: SyncStage::Over, ..run }, SyncAction::Fail(error))
}

fn go_on(run: SyncRun) -> (r: (SyncRun, SyncAction))
    requires
        run.written <= run.writes.len(),
        run.compared <= run.target.cached_observations.len(),
    ensures
        (r.0@, r.1) == goes_on(run@),
        in_step(r.0@),
{
    if run.written < run.writes.len() {
        let action = SyncAction::Write(run.written);
        (SyncRun { stage: SyncStage::Writing, ..run }, action)
    } else if run.compared < run.target.cached_observations.len() {
        let action = SyncAction::LookUp(run.compared);
        (SyncRun { stage: SyncStage::Comparing, ..run }, action)
    } else {
        let action = SyncAction::Finish(run.written);
        (SyncRun { stage: SyncStage::Over, ..run }, action)
    }
}

/// The next step of a sync.
pub fn sync_upstream_accounts(run: SyncRun, event: SyncEvent) -> (r: (SyncRun, SyncAction))
    requires
        in_step(run@),
        expected(run@.stage, event@),
    ensures
        (r.0@, r.1) == sync_step(run@, event@),
        in_step(r.0@),
{
    match event {
        SyncEvent::Authorized(granted) => if granted {
            (SyncRun { stage: SyncStage::Reading, ..run }, SyncAction::ReadDirectory)
        } else {
            fail(run, SchedulerError::AdminRequired)
        },
        SyncEvent::Known(known) => match known {
            Some(rows) => {
                let mut directory = account_directory::stored_directory(&rows);
                let writes = account_directory::directory_writes(
                    &mut directory,
                    &run.target.accounts,
                );
                go_on(SyncRun { writes, written: 0, compared: 0, ..run })
            },
            None => fail(run, SchedulerError::StorageUnavailable),
        },
        SyncEvent::Done(done) => if !done {
            fail(run, SchedulerError::SyncFailed)
        } else if run.stage == SyncStage::Writing {
            assert(run.written < run.writes.len());
            let written: usize = run.written + 1;
            go_on(SyncRun { written, ..run })
        } else {
            assert(run.compared < run.target.cached_observations.len());
            let compared: usize = run.compared + 1;
            go_on(SyncRun { compared, ..run })
        },
        SyncEvent::Latest(known) => match known {
            None => fail(run, SchedulerError::SyncFailed),
            Some(known) => if known {
                assert(run.compared < run.target.cached_observations.len());
                let compared: usize = run.compared + 1;
                go_on(SyncRun { compared, ..run })
            } else {
                let action = SyncAction::Import(run.compared);
                (SyncRun { stage: SyncStage::Importing, ..run }, action)
            },
        },
    }
}

/// A caller who is no administrator changes nothing: the sync ends before the
/// directory is read, and what Core holds is first touched after an
/// administrator was recognised.
pub proof fn law_an_unauthorized_sync_writes_nothing(s: SyncView, event: SyncEventView)
    requires
        in_step(s),
        s.stage == SyncStage::Authorizing,
        expected(s.stage, event),
    ensures
        sync_step(s, event).1 == (if event == SyncEventView::Authorized(true) {
            SyncAction::ReadDirectory
        } else {
            SyncAction::Fail(SchedulerError::AdminRequired)
        }),
{
}

/// A balance out of the account files never supersedes one that Core knows.
pub proof fn law_a_known_balance_is_never_superseded(s: SyncView, event: SyncEventView)
    requires
        in_step(s),
        expected(s.stage, event),
        sync_step(s, event).1 is Import,
    ensures
        s.stage == SyncStage::Comparing,
        event == SyncEventView::Latest(Some(false)),
        sync_step(s, event).1 == SyncAction::Import(s.compared as usize),
{
}

/// A sync that succeeds made all its writes and looked at all the balances.
pub proof fn law_a_finished_sync_is_complete(s: SyncView, event: SyncEventView)
    requires
        in_step(s),
        expected(s.stage, event),
        sync_step(s, event).1 is Finish,
    ensures
        ({
            let after = sync_step(s, event).0;
            &&& after.written == after.writes.len()
            &&& after.compared == after.target.cached_observations.len()
            &&& sync_step(s, event).1 == SyncAction::Finish(after.written as usize)
        }),
{
}

/// The step after `n` balances that Core knows.
pub open spec fn after_known(step: (SyncView, SyncAction), n: nat) -> (SyncView, SyncAction)
    decreases n,
{
    if n == 0 {
        step
    } else {
        sync_step(
            after_known(step, (n - 1) as nat).0,
            SyncEventView::Latest(Some(true)),
        )
    }
}

proof fn lemma_only_known(s: SyncView, n: nat)
    requires
        s.writes.len() == 0,
        s.written == 0,
        s.compared == 0,
        n <= s.target.cached_observations.len(),
    ensures
        ({
            let at = after_known(goes_on(s), n);
            &&& at.0.writes.len() == 0
            &&& at.0.written == 0
            &&& at.0.compared == n
            &&& at.0.target == s.target
            &&& at.1 == (if n < s.target.cached_observations.len() {
                SyncAction::LookUp(n as usize)
            } else {
                SyncAction::Finish(0)
            })
        }),
    decreases n,
{
    if n > 0 {
        lemma_only_known(s, (n - 1) as nat);
    }
}

/// Once a sync is stored, the same sync changes nothing: no account is written,
/// no balance is recorded, and it ends with no change. The files tell one thing
/// of each account.
pub proof fn law_a_second_sync_changes_nothing(
    s: SyncView,
    rows: Seq<AccountView>,
    stored: Seq<AccountView>,
    n: nat,
)
    requires
        s.stage == SyncStage::Reading,
        account_directory::agreeing(s.target.accounts),
        forall|id: Seq<char>|
            #[trigger] table::find(
                account_directory::directory_of_rows(stored, stored.len()),
                id,
            ) == table::find(
                account_directory::synced(
                    account_directory::directory_of_rows(rows, rows.len()),
                    s.target.accounts,
                ).0,
                id,
            ),
        n <= s.target.cached_observations.len(),
    ensures
        ({
            let first = sync_step(s, SyncEventView::Known(Some(stored)));
            after_known(first, n).1 == (if n < s.target.cached_observations.len() {
                SyncAction::LookUp(n as usize)
            } else {
                SyncAction::Finish(0)
            })
        }),
{
    account_directory::law_a_stored_sync_is_up_to_date(rows, stored, s.target.accounts);
    lemma_only_known(
        SyncView {
            writes: account_directory::synced(
                account_directory::directory_of_rows(stored, stored.len()),
                s.target.accounts,
            ).1,
            written: 0,
            compared: 0,
            ..s
        },
        n,
    );
}

/// How much of a sync is left to be done.
pub open spec fn left(s: SyncView) -> int {
    match s.stage {
        SyncStage::Over => 0,
        _ => 2 * (s.writes.len() - s.written) + 2 * (s.target.cached_observations.len()
            - s.compared) - (if s.stage == SyncStage::Importing {
            1int
        } else {
            0int
        }) + 1,
    }
}

/// Once the writes are known, each step leaves less to be done: a sync ends.
pub proof fn law_a_sync_ends(s: SyncView, event: SyncEventView)
    requires
        in_step(s),
        expected(s.stage, event),
        s.stage != SyncStage::Authorizing,
        s.stage != SyncStage::Reading,
    ensures
        0 <= left(sync_step(s, event).0) < left(s),
{
}

} // verus!
