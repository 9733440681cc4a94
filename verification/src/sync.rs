use vstd::prelude::*;
use crate::error::{
    ApiError, ApiErrorView, api_error, STATUS_BAD_REQUEST, STATUS_INTERNAL_SERVER_ERROR,
    STATUS_NOT_ACCEPTABLE, STATUS_NOT_FOUND,
};
use crate::game::{SyncRequest, breaks_limits, check_limits, flagged_count, limits_message, summarize_actions};
use crate::text::{contains_bytes, text_contains, utf8};

verus! {

/// The player's balances as the database holds them after the match's
/// earnings were added and its energy cost deducted.
pub struct PlayerBalance {
    pub id: u128,
    pub data_fragments: Option<i64>,
    pub crypto_cores: Option<i32>,
    pub energy: Option<i32>,
}

/// The reply to a match upload that was saved.
pub struct SyncResponse {
    pub message: String,
    pub player_id: u128,
    pub current_df: i64,
    pub current_crypto_cores: i32,
    pub current_energy: i32,
    pub synchronized_items_count: usize,
}

pub struct SyncResponseView {
    pub message: Seq<char>,
    pub player_id: u128,
    pub current_df: i64,
    pub current_crypto_cores: i32,
    pub current_energy: i32,
    pub synchronized_items_count: usize,
}

impl View for SyncResponse {
    type V = SyncResponseView;

    open spec fn view(&self) -> SyncResponseView {
        SyncResponseView {
            message: self.message@,
            player_id: self.player_id,
            current_df: self.current_df,
            current_crypto_cores: self.current_crypto_cores,
            current_energy: self.current_energy,
            synchronized_items_count: self.synchronized_items_count,
        }
    }
}

/// Where a match upload stands.
pub enum SyncStage {
    /// Waiting for the database transaction to open.
    Opening,
    /// Waiting for the player's balances to be updated.
    UpdatingPlayer,
    /// Waiting for the new item at this index to be stored.
    StoringItem(usize),
    /// Waiting for the action at this index to be logged.
    LoggingAction(usize),
    /// Waiting for the transaction to commit.
    Committing,
    /// Answered; nothing more happens.
    Closed,
}

/// The next thing the service does for a match upload.
pub enum SyncCommand {
    BeginTransaction,
    /// Add the earnings to the balances of the player of `user_id` and deduct
    /// the energy cost.
    UpdatePlayer { user_id: u128, earned_df: i64, earned_crypto_cores: i32, energy_used: i32 },
    /// Store the new item at `index` in the inventory of player `player_id`.
    StoreItem { player_id: u128, index: usize },
    /// Log the action at `index` for player `player_id`.
    LogAction { player_id: u128, index: usize },
    Commit,
    /// Answer the client. An error answer drops the open transaction, so that
    /// nothing the upload wrote is kept.
    Reply(Result<SyncResponse, ApiError>),
}

pub enum SyncCommandView {
    BeginTransaction,
    UpdatePlayer { user_id: u128, earned_df: i64, earned_crypto_cores: i32, energy_used: i32 },
    StoreItem { player_id: u128, index: usize },
    LogAction { player_id: u128, index: usize },
    Commit,
    Reply(Result<SyncResponseView, ApiErrorView>),
}

impl View for SyncCommand {
    type V = SyncCommandView;

    open spec fn view(&self) -> SyncCommandView {
        match self {
            SyncCommand::BeginTransaction => SyncCommandView::BeginTransaction,
            SyncCommand::UpdatePlayer { user_id, earned_df, earned_crypto_cores, energy_used } =>
                SyncCommandView::UpdatePlayer {
                    user_id: *user_id,
                    earned_df: *earned_df,
                    earned_crypto_cores: *earned_crypto_cores,
                    energy_used: *energy_used,
                },
            SyncCommand::StoreItem { player_id, index } =>
                SyncCommandView::StoreItem { player_id: *player_id, index: *index },
            SyncCommand::LogAction { player_id, index } =>
                SyncCommandView::LogAction { player_id: *player_id, index: *index },
            SyncCommand::Commit => SyncCommandView::Commit,
            SyncCommand::Reply(Ok(r)) => SyncCommandView::Reply(Ok(r@)),
            SyncCommand::Reply(Err(e)) => SyncCommandView::Reply(Err(e@)),
        }
    }
}

/// What updating the player's balances came to.
pub enum PlayerUpdate {
    /// The database reported an error.
    Failed,
    /// The user has no player profile.
    Missing,
    /// The balances after the update.
    Updated(PlayerBalance),
}

pub open spec fn transaction_failed_message() -> Seq<char> {
    "Eroare la pornirea tranzacției"@
}

pub open spec fn player_update_failed_message() -> Seq<char> {
    "Eroare la actualizarea jucătorului"@
}

pub open spec fn player_missing_message() -> Seq<char> {
    "Jucătorul nu există!"@
}

pub open spec fn inventory_failed_message() -> Seq<char> {
    "Eroare la salvarea inventarului"@
}

pub open spec fn analytics_failed_message() -> Seq<char> {
    "Eroare la salvarea log-urilor de analytics"@
}

pub open spec fn anomalies_message() -> Seq<char> {
    "Validare server eșuată: anomalii detectate în timpul meciului!"@
}

pub open spec fn commit_failed_message() -> Seq<char> {
    "Eroare la finalizarea tranzacției"@
}

pub open spec fn saved_message() -> Seq<char> {
    "Progres salvat cu succes în rețeaua Neurală."@
}

/// The name of the database constraint that rejects unknown item types.
pub open spec fn unknown_item_constraint() -> Seq<char> {
    "fk_inventory_item_type"@
}

/// The answer to a failed item insert: an item of an unknown type (the
/// database's error names the item-type constraint) is the client's fault;
/// anything else is the service's.
pub open spec fn item_failure(item_type: Seq<char>, db_error: Seq<char>) -> ApiErrorView {
    if contains_bytes(utf8(db_error), utf8(unknown_item_constraint())) {
        api_error(STATUS_BAD_REQUEST, "Item corupt sau invalid: "@ + item_type)
    } else {
        api_error(STATUS_INTERNAL_SERVER_ERROR, inventory_failed_message())
    }
}

fn item_failure_reply(item_type: &String, db_error: &String) -> (e: ApiError)
    ensures
        e@ == item_failure(item_type@, db_error@),
{
    if text_contains(db_error.as_str(), "fk_inventory_item_type") {
        let mut message = "Item corupt sau invalid: ".to_owned();
        message.append(item_type.as_str());
        ApiError { status: STATUS_BAD_REQUEST, message }
    } else {
        ApiError::new(STATUS_INTERNAL_SERVER_ERROR, "Eroare la salvarea inventarului")
    }
}

fn refuse(status: u16, message: &str) -> (c: SyncCommand)
    ensures
        c@ == SyncCommandView::Reply(Err(api_error(status, message@))),
{
    SyncCommand::Reply(Err(ApiError::new(status, message)))
}

fn unwrap_or_zero_i64(v: Option<i64>) -> (r: i64)
    ensures
        r == match v {
            Some(x) => x,
            None => 0,
        },
{
    match v {
        Some(x) => x,
        None => 0,
    }
}

fn unwrap_or_zero_i32(v: Option<i32>) -> (r: i32)
    ensures
        r == match v {
            Some(x) => x,
            None => 0,
        },
{
    match v {
        Some(x) => x,
        None => 0,
    }
}

/// A match upload being saved: the decisions of the upload, with the database
/// work left to the caller, who performs each command and reports its outcome.
pub struct SyncSession {
    pub user_id: u128,
    pub request: SyncRequest,
    pub stage: SyncStage,
    pub player: Option<PlayerBalance>,
}

impl SyncSession {
    /// The session is in a state that its own transitions reach.
    pub open spec fn wf(self) -> bool {
        &&& self.request.new_items@.len() <= usize::MAX
        &&& self.request.actions@.len() <= usize::MAX
        &&& (!(self.stage is Closed) ==> !breaks_limits(
            self.request.earned_df,
            self.request.earned_crypto_cores,
            self.request.energy_used,
        ))
        &&& match self.stage {
            SyncStage::Opening => self.player is None,
            SyncStage::UpdatingPlayer => true,
            SyncStage::StoringItem(i) => self.player is Some && i < self.request.new_items@.len(),
            SyncStage::LoggingAction(i) => self.player is Some && i < self.request.actions@.len(),
            SyncStage::Committing => self.player is Some && flagged_count(self.request.actions@) == 0,
            SyncStage::Closed => true,
        }
    }

    pub open spec fn with_stage(self, stage: SyncStage) -> SyncSession {
        SyncSession { stage, ..self }
    }

    pub open spec fn refused(self, status: u16, message: Seq<char>) -> (SyncSession, SyncCommandView) {
        (self.with_stage(SyncStage::Closed), SyncCommandView::Reply(Err(api_error(status, message))))
    }

    /// The first thing done for an upload: refuse it if its amounts are out of
    /// bounds, else open a transaction.
    pub open spec fn opening(user_id: u128, request: SyncRequest) -> (SyncSession, SyncCommandView) {
        let s = SyncSession { user_id, request, stage: SyncStage::Opening, player: None };
        if breaks_limits(request.earned_df, request.earned_crypto_cores, request.energy_used) {
            s.refused(STATUS_NOT_ACCEPTABLE, limits_message())
        } else {
            (s, SyncCommandView::BeginTransaction)
        }
    }

    /// After the last write: refuse a match with flagged actions, else commit.
    pub open spec fn concluding(self) -> (SyncSession, SyncCommandView) {
        if flagged_count(self.request.actions@) > 0 {
            self.refused(STATUS_NOT_ACCEPTABLE, anomalies_message())
        } else {
            (self.with_stage(SyncStage::Committing), SyncCommandView::Commit)
        }
    }

    /// Log the actions from index `k` on, then conclude.
    pub open spec fn logging_from(self, k: int) -> (SyncSession, SyncCommandView) {
        if k < self.request.actions@.len() {
            (
                self.with_stage(SyncStage::LoggingAction(k as usize)),
                SyncCommandView::LogAction { player_id: self.player.unwrap().id, index: k as usize },
            )
        } else {
            self.concluding()
        }
    }

    /// Store the new items from index `k` on, then log the actions.
    pub open spec fn storing_from(self, k: int) -> (SyncSession, SyncCommandView) {
        if k < self.request.new_items@.len() {
            (
                self.with_stage(SyncStage::StoringItem(k as usize)),
                SyncCommandView::StoreItem { player_id: self.player.unwrap().id, index: k as usize },
            )
        } else {
            self.logging_from(0)
        }
    }

    pub open spec fn on_opened(self, ok: bool) -> (SyncSession, SyncCommandView) {
        if ok {
            (
                self.with_stage(SyncStage::UpdatingPlayer),
                SyncCommandView::UpdatePlayer {
                    user_id: self.user_id,
                    earned_df: self.request.earned_df,
                    earned_crypto_cores: self.request.earned_crypto_cores,
                    energy_used: self.request.energy_used,
                },
            )
        } else {
            self.refused(STATUS_INTERNAL_SERVER_ERROR, transaction_failed_message())
        }
    }

    pub open spec fn on_player_updated(self, update: PlayerUpdate) -> (SyncSession, SyncCommandView) {
        match update {
            PlayerUpdate::Failed => self.refused(STATUS_INTERNAL_SERVER_ERROR, player_update_failed_message()),
            PlayerUpdate::Missing => self.refused(STATUS_NOT_FOUND, player_missing_message()),
            PlayerUpdate::Updated(p) => SyncSession { player: Some(p), ..self }.storing_from(0),
        }
    }

    pub open spec fn on_item_stored(self, db_error: Option<Seq<char>>) -> (SyncSession, SyncCommandView) {
        let i = self.stage->StoringItem_0;
        match db_error {
            Some(text) => (
                self.with_stage(SyncStage::Closed),
                SyncCommandView::Reply(Err(item_failure(self.request.new_items@[i as int].item_type@, text))),
            ),
            None => self.storing_from(i + 1),
        }
    }

    pub open spec fn on_action_logged(self, ok: bool) -> (SyncSession, SyncCommandView) {
        if ok {
            self.logging_from(self.stage->LoggingAction_0 + 1)
        } else {
            self.refused(STATUS_INTERNAL_SERVER_ERROR, analytics_failed_message())
        }
    }

    /// The reply to an upload that was saved.
    pub open spec fn saved_reply(self) -> SyncResponseView {
        let p = self.player.unwrap();
        SyncResponseView {
            message: saved_message(),
            player_id: p.id,
            current_df: match p.data_fragments {
                Some(x) => x,
                None => 0,
            },
            current_crypto_cores: match p.crypto_cores {
                Some(x) => x,
                None => 0,
            },
            current_energy: match p.energy {
                Some(x) => x,
                None => 0,
            },
            synchronized_items_count: self.request.new_items@.len() as usize,
        }
    }

    pub open spec fn on_committed(self, ok: bool) -> (SyncSession, SyncCommandView) {
        if ok {
            (self.with_stage(SyncStage::Closed), SyncCommandView::Reply(Ok(self.saved_reply())))
        } else {
            self.refused(STATUS_INTERNAL_SERVER_ERROR, commit_failed_message())
        }
    }

    /// Starts saving `request`, an upload by the user `user_id`.
    pub fn start(user_id: u128, request: SyncRequest) -> (r: (SyncSession, SyncCommand))
        ensures
            (r.0, r.1@) == SyncSession::opening(user_id, request),
            r.0.wf(),
    {
        let limits = check_limits(&request);
        let _ = request.new_items.len();
        let _ = request.actions.len();
        let mut s = SyncSession { user_id, request, stage: SyncStage::Opening, player: None };
        match limits {
            Ok(()) => (s, SyncCommand::BeginTransaction),
            Err(e) => {
                s.stage = SyncStage::Closed;
                (s, SyncCommand::Reply(Err(e)))
            },
        }
    }

    fn conclude(&mut self) -> (c: SyncCommand)
        requires
            old(self).wf(),
            old(self).player is Some,
            !(old(self).stage is Closed),
        ensures
            (*final(self), c@) == old(self).concluding(),
            final(self).wf(),
    {
        let summary = summarize_actions(&self.request.actions);
        if summary.flagged > 0 {
            self.stage = SyncStage::Closed;
            refuse(STATUS_NOT_ACCEPTABLE, "Validare server eșuată: anomalii detectate în timpul meciului!")
        } else {
            self.stage = SyncStage::Committing;
            SyncCommand::Commit
        }
    }

    fn log_from(&mut self, k: usize) -> (c: SyncCommand)
        requires
            old(self).wf(),
            old(self).player is Some,
            !(old(self).stage is Closed),
        ensures
            (*final(self), c@) == old(self).logging_from(k as int),
            final(self).wf(),
    {
        if k < self.request.actions.len() {
            self.stage = SyncStage::LoggingAction(k);
            let player_id = match &self.player {
                Some(p) => p.id,
                None => 0,
            };
            SyncCommand::LogAction { player_id, index: k }
        } else {
            self.conclude()
        }
    }

    fn store_from(&mut self, k: usize) -> (c: SyncCommand)
        requires
            old(self).wf(),
            old(self).player is Some,
            !(old(self).stage is Closed),
        ensures
            (*final(self), c@) == old(self).storing_from(k as int),
            final(self).wf(),
    {
        if k < self.request.new_items.len() {
            self.stage = SyncStage::StoringItem(k);
            let player_id = match &self.player {
                Some(p) => p.id,
                None => 0,
            };
            SyncCommand::StoreItem { player_id, index: k }
        } else {
            self.log_from(0)
        }
    }

    /// The transaction opened (`ok`) or failed to.
    pub fn transaction_opened(&mut self, ok: bool) -> (c: SyncCommand)
        requires
            old(self).wf(),
            old(self).stage is Opening,
        ensures
            (*final(self), c@) == old(self).on_opened(ok),
            final(self).wf(),
    {
        if ok {
            self.stage = SyncStage::UpdatingPlayer;
            SyncCommand::UpdatePlayer {
                user_id: self.user_id,
                earned_df: self.request.earned_df,
                earned_crypto_cores: self.request.earned_crypto_cores,
                energy_used: self.request.energy_used,
            }
        } else {
            self.stage = SyncStage::Closed;
            refuse(STATUS_INTERNAL_SERVER_ERROR, "Eroare la pornirea tranzacției")
        }
    }

    /// The player's balances were updated, or were not.
    pub fn player_updated(&mut self, update: PlayerUpdate) -> (c: SyncCommand)
        requires
            old(self).wf(),
            old(self).stage is UpdatingPlayer,
        ensures
            (*final(self), c@) == old(self).on_player_updated(update),
            final(self).wf(),
    {
        match update {
            PlayerUpdate::Failed => {
                self.stage = SyncStage::Closed;
                refuse(STATUS_INTERNAL_SERVER_ERROR, "Eroare la actualizarea jucătorului")
            },
            PlayerUpdate::Missing => {
                self.stage = SyncStage::Closed;
                refuse(STATUS_NOT_FOUND, "Jucătorul nu există!")
            },
            PlayerUpdate::Updated(p) => {
                self.player = Some(p);
                self.store_from(0)
            },
        }
    }

    /// The current new item was stored, or the database refused it with the
    /// error text `db_error`.
    pub fn item_stored(&mut self, db_error: Option<String>) -> (c: SyncCommand)
        requires
            old(self).wf(),
            old(self).stage is StoringItem,
        ensures
            (*final(self), c@) == old(self).on_item_stored(
                match db_error {
                    Some(t) => Some(t@),
                    None => None,
                },
            ),
            final(self).wf(),
            db_error is None && old(self).stage->StoringItem_0 + 1 < old(self).request.new_items@.len() ==> c@
                == (SyncCommandView::StoreItem {
                player_id: old(self).player.unwrap().id,
                index: (old(self).stage->StoringItem_0 + 1) as usize,
            }),
    {
        proof {
            law_next_item_follows_each_stored_item(*old(self));
        }
        let i = match self.stage {
            SyncStage::StoringItem(i) => i,
            _ => 0,
        };
        match db_error {
            Some(text) => {
                let e = item_failure_reply(&self.request.new_items[i].item_type, &text);
                self.stage = SyncStage::Closed;
                SyncCommand::Reply(Err(e))
            },
            None => {
                let _n = self.request.new_items.len();
                self.store_from(i + 1)
            },
        }
    }

    /// The current action was logged (`ok`) or was not.
    pub fn action_logged(&mut self, ok: bool) -> (c: SyncCommand)
        requires
            old(self).wf(),
            old(self).stage is LoggingAction,
        ensures
            (*final(self), c@) == old(self).on_action_logged(ok),
            final(self).wf(),
    {
        if ok {
            let i = match self.stage {
                SyncStage::LoggingAction(i) => i,
                _ => 0,
            };
            let _n = self.request.actions.len();
            self.log_from(i + 1)
        } else {
            self.stage = SyncStage::Closed;
            refuse(STATUS_INTERNAL_SERVER_ERROR, "Eroare la salvarea log-urilor de analytics")
        }
    }

    /// The transaction committed (`ok`) or failed to.
    pub fn committed(&mut self, ok: bool) -> (c: SyncCommand)
        requires
            old(self).wf(),
            old(self).stage is Committing,
        ensures
            (*final(self), c@) == old(self).on_committed(ok),
            final(self).wf(),
    {
        if ok {
            let (player_id, df, cores, energy) = match &self.player {
                Some(p) => (p.id, p.data_fragments, p.crypto_cores, p.energy),
                None => (0, None, None, None),
            };
            let reply = SyncResponse {
                message: "Progres salvat cu succes în rețeaua Neurală.".to_owned(),
                player_id,
                current_df: unwrap_or_zero_i64(df),
                current_crypto_cores: unwrap_or_zero_i32(cores),
                current_energy: unwrap_or_zero_i32(energy),
                synchronized_items_count: self.request.new_items.len(),
            };
            self.stage = SyncStage::Closed;
            SyncCommand::Reply(Ok(reply))
        } else {
            self.stage = SyncStage::Closed;
            refuse(STATUS_INTERNAL_SERVER_ERROR, "Eroare la finalizarea tranzacției")
        }
    }
}

/// The writes still to do: items not yet stored, then actions not yet logged.
pub open spec fn pending_writes(s: SyncSession) -> nat {
    match s.stage {
        SyncStage::StoringItem(i) => (s.request.new_items@.len() - i + s.request.actions@.len()) as nat,
        SyncStage::LoggingAction(i) => (s.request.actions@.len() - i) as nat,
        _ => 0,
    }
}

/// Where a session ends up when every remaining item and action is written
/// successfully; `c` is the command that led to `s`.
pub open spec fn finish_writes(s: SyncSession, c: SyncCommandView) -> (SyncSession, SyncCommandView)
    decreases pending_writes(s),
    when s.wf()
{
    match s.stage {
        SyncStage::StoringItem(_) => {
            let (t, d) = s.on_item_stored(None);
            if (t.stage is StoringItem || t.stage is LoggingAction) && pending_writes(t) < pending_writes(s) {
                finish_writes(t, d)
            } else {
                (t, d)
            }
        },
        SyncStage::LoggingAction(_) => {
            let (t, d) = s.on_action_logged(true);
            if (t.stage is StoringItem || t.stage is LoggingAction) && pending_writes(t) < pending_writes(s) {
                finish_writes(t, d)
            } else {
                (t, d)
            }
        },
        _ => (s, c),
    }
}

proof fn lemma_concluding_closes_or_commits(s: SyncSession)
    requires
        s.wf(),
        s.player is Some,
        !(s.stage is Closed),
    ensures
        s.concluding().0.wf(),
        pending_writes(s.concluding().0) == 0,
        flagged_count(s.request.actions@) == 0 ==> s.concluding().0.stage is Committing
            && s.concluding().1 == SyncCommandView::Commit,
        flagged_count(s.request.actions@) > 0 ==> s.concluding().0.stage is Closed
            && s.concluding().1 == SyncCommandView::Reply(Err(api_error(STATUS_NOT_ACCEPTABLE, anomalies_message()))),
        s.concluding().0.request == s.request,
        s.concluding().0.player == s.player,
{
}

proof fn lemma_logging_from(s: SyncSession, k: int)
    requires
        s.wf(),
        s.player is Some,
        !(s.stage is Closed),
        0 <= k,
    ensures
        ({
            let (t, d) = s.logging_from(k);
            &&& t.wf()
            &&& t.request == s.request
            &&& t.player == s.player
            &&& k < s.request.actions@.len() ==> t.stage == SyncStage::LoggingAction(k as usize)
            &&& k >= s.request.actions@.len() ==> (t, d) == s.concluding()
        }),
{
    lemma_concluding_closes_or_commits(s);
}

proof fn lemma_storing_from(s: SyncSession, k: int)
    requires
        s.wf(),
        s.player is Some,
        !(s.stage is Closed),
        0 <= k,
    ensures
        ({
            let (t, d) = s.storing_from(k);
            &&& t.wf()
            &&& t.request == s.request
            &&& t.player == s.player
            &&& k < s.request.new_items@.len() ==> t.stage == SyncStage::StoringItem(k as usize)
            &&& k >= s.request.new_items@.len() ==> (t, d) == s.logging_from(0)
        }),
{
    lemma_logging_from(s, 0);
}

proof fn lemma_finish_writes(s: SyncSession, c: SyncCommandView)
    requires
        s.wf(),
        s.player is Some,
        !(s.stage is Closed),
        !(s.stage is Committing) || c == SyncCommandView::Commit,
        s.stage is StoringItem || s.stage is LoggingAction || s.stage is Committing,
    ensures
        ({
            let (t, d) = finish_writes(s, c);
            &&& t.request == s.request
            &&& t.player == s.player
            &&& flagged_count(s.request.actions@) == 0 ==> t.stage is Committing && d == SyncCommandView::Commit
            &&& flagged_count(s.request.actions@) > 0 ==> t.stage is Closed
                && d == SyncCommandView::Reply(Err(api_error(STATUS_NOT_ACCEPTABLE, anomalies_message())))
        }),
    decreases pending_writes(s),
{
    match s.stage {
        SyncStage::StoringItem(i) => {
            lemma_storing_from(s, i + 1);
            lemma_logging_from(s, 0);
            lemma_concluding_closes_or_commits(s);
            let (t, d) = s.on_item_stored(None);
            if (t.stage is StoringItem || t.stage is LoggingAction) && pending_writes(t) < pending_writes(s) {
                lemma_finish_writes(t, d);
            }
        },
        SyncStage::LoggingAction(i) => {
            lemma_logging_from(s, i + 1);
            lemma_concluding_closes_or_commits(s);
            let (t, d) = s.on_action_logged(true);
            if (t.stage is StoringItem || t.stage is LoggingAction) && pending_writes(t) < pending_writes(s) {
                lemma_finish_writes(t, d);
            }
        },
        _ => {},
    }
}

/// An upload whose claimed amounts are out of bounds is refused as not
/// acceptable before the database is touched: the first command is the reply.
pub proof fn law_out_of_bounds_upload_is_refused_first(user_id: u128, request: SyncRequest)
    requires
        breaks_limits(request.earned_df, request.earned_crypto_cores, request.energy_used),
    ensures
        SyncSession::opening(user_id, request).1 == SyncCommandView::Reply(
            Err(api_error(STATUS_NOT_ACCEPTABLE, limits_message())),
        ),
        SyncSession::opening(user_id, request).0.stage is Closed,
{
}

/// A session that is committing holds an upload with no flagged action: no
/// match with a flagged action is ever committed.
pub proof fn law_only_clean_uploads_commit(s: SyncSession)
    requires
        s.wf(),
        s.stage is Committing,
    ensures
        flagged_count(s.request.actions@) == 0,
        !breaks_limits(s.request.earned_df, s.request.earned_crypto_cores, s.request.energy_used),
{
}

/// An upload within bounds whose every database step succeeds: the service
/// opens a transaction, updates the player's balances with exactly the claimed
/// amounts, writes every item and action, and then, if no action is flagged,
/// commits and replies with the updated balances (missing ones read as zero)
/// and the number of items synchronized; if some action is flagged, it
/// refuses the upload as not acceptable instead of committing.
pub proof fn law_successful_steps_save_clean_uploads(user_id: u128, request: SyncRequest, balance: PlayerBalance)
    requires
        !breaks_limits(request.earned_df, request.earned_crypto_cores, request.energy_used),
        request.new_items@.len() <= usize::MAX,
        request.actions@.len() <= usize::MAX,
    ensures
        ({
            let (s0, c0) = SyncSession::opening(user_id, request);
            let (s1, c1) = s0.on_opened(true);
            let (s2, c2) = s1.on_player_updated(PlayerUpdate::Updated(balance));
            let (s3, c3) = finish_writes(s2, c2);
            let (s4, c4) = s3.on_committed(true);
            &&& c0 == SyncCommandView::BeginTransaction
            &&& c1 == SyncCommandView::UpdatePlayer {
                user_id,
                earned_df: request.earned_df,
                earned_crypto_cores: request.earned_crypto_cores,
                energy_used: request.energy_used,
            }
            &&& flagged_count(request.actions@) == 0 ==> {
                &&& c3 == SyncCommandView::Commit
                &&& c4 == SyncCommandView::Reply(Ok(SyncResponseView {
                    message: saved_message(),
                    player_id: balance.id,
                    current_df: match balance.data_fragments {
                        Some(x) => x,
                        None => 0,
                    },
                    current_crypto_cores: match balance.crypto_cores {
                        Some(x) => x,
                        None => 0,
                    },
                    current_energy: match balance.energy {
                        Some(x) => x,
                        None => 0,
                    },
                    synchronized_items_count: request.new_items@.len() as usize,
                }))
            }
            &&& flagged_count(request.actions@) > 0 ==> c3 == SyncCommandView::Reply(
                Err(api_error(STATUS_NOT_ACCEPTABLE, anomalies_message())),
            )
        }),
{
    let (s0, c0) = SyncSession::opening(user_id, request);
    let (s1, c1) = s0.on_opened(true);
    let s1p = SyncSession { player: Some(balance), ..s1 };
    lemma_storing_from(s1p, 0);
    lemma_logging_from(s1p, 0);
    lemma_concluding_closes_or_commits(s1p);
    let (s2, c2) = s1.on_player_updated(PlayerUpdate::Updated(balance));
    if s2.stage is StoringItem || s2.stage is LoggingAction || s2.stage is Committing {
        lemma_finish_writes(s2, c2);
    }
}

/// Every command answers the client exactly when the session closes: after a
/// reply the service does nothing more for the upload, and before it closes it
/// has not replied.
pub proof fn law_replies_close_the_session(
    s: SyncSession,
    ok: bool,
    update: PlayerUpdate,
    db_error: Option<Seq<char>>,
)
    requires
        s.wf(),
    ensures
        s.stage is Opening ==> (s.on_opened(ok).1 is Reply <==> s.on_opened(ok).0.stage is Closed),
        s.stage is UpdatingPlayer ==> (s.on_player_updated(update).1 is Reply <==> s.on_player_updated(
            update,
        ).0.stage is Closed),
        s.stage is StoringItem ==> (s.on_item_stored(db_error).1 is Reply <==> s.on_item_stored(
            db_error,
        ).0.stage is Closed),
        s.stage is LoggingAction ==> (s.on_action_logged(ok).1 is Reply <==> s.on_action_logged(
            ok,
        ).0.stage is Closed),
        s.stage is Committing ==> (s.on_committed(ok).1 is Reply <==> s.on_committed(ok).0.stage is Closed),
{
    match s.stage {
        SyncStage::UpdatingPlayer => {
            if let PlayerUpdate::Updated(p) = update {
                let sp = SyncSession { player: Some(p), ..s };
                lemma_storing_from(sp, 0);
                lemma_logging_from(sp, 0);
                lemma_concluding_closes_or_commits(sp);
            }
        },
        SyncStage::StoringItem(i) => {
            lemma_storing_from(s, i + 1);
            lemma_logging_from(s, 0);
            lemma_concluding_closes_or_commits(s);
        },
        SyncStage::LoggingAction(i) => {
            lemma_logging_from(s, i + 1);
            lemma_concluding_closes_or_commits(s);
        },
        _ => {},
    }
}

/// A success reply comes exactly from a commit that succeeded: no other step
/// answers with success, a successful commit is always answered with the saved
/// upload, and a failed commit is never answered with success.
pub proof fn law_success_reply_only_after_commit(
    user_id: u128,
    request: SyncRequest,
    s: SyncSession,
    ok: bool,
    update: PlayerUpdate,
    db_error: Option<Seq<char>>,
)
    requires
        s.wf(),
    ensures
        !(SyncSession::opening(user_id, request).1 matches SyncCommandView::Reply(Ok(_))),
        s.stage is Opening ==> !(s.on_opened(ok).1 matches SyncCommandView::Reply(Ok(_))),
        s.stage is UpdatingPlayer ==> !(s.on_player_updated(update).1 matches SyncCommandView::Reply(Ok(_))),
        s.stage is StoringItem ==> !(s.on_item_stored(db_error).1 matches SyncCommandView::Reply(Ok(_))),
        s.stage is LoggingAction ==> !(s.on_action_logged(ok).1 matches SyncCommandView::Reply(Ok(_))),
        s.stage is Committing ==> (s.on_committed(ok).1 matches SyncCommandView::Reply(Ok(_)) <==> ok),
        s.stage is Committing ==> s.on_committed(true).1 == SyncCommandView::Reply(Ok(s.saved_reply())),
{
    match s.stage {
        SyncStage::UpdatingPlayer => {
            if let PlayerUpdate::Updated(p) = update {
                let sp = SyncSession { player: Some(p), ..s };
                lemma_storing_from(sp, 0);
                lemma_logging_from(sp, 0);
                lemma_concluding_closes_or_commits(sp);
            }
        },
        SyncStage::StoringItem(i) => {
            lemma_storing_from(s, i + 1);
            lemma_logging_from(s, 0);
            lemma_concluding_closes_or_commits(s);
        },
        SyncStage::LoggingAction(i) => {
            lemma_logging_from(s, i + 1);
            lemma_concluding_closes_or_commits(s);
        },
        _ => {},
    }
}

/// The command that concludes the writes of an upload: commit a clean match,
/// refuse a flagged one as not acceptable.
pub open spec fn conclusion(request: SyncRequest) -> SyncCommandView {
    if flagged_count(request.actions@) == 0 {
        SyncCommandView::Commit
    } else {
        SyncCommandView::Reply(Err(api_error(STATUS_NOT_ACCEPTABLE, anomalies_message())))
    }
}

pub open spec fn writing(s: SyncSession) -> bool {
    s.stage is StoringItem || s.stage is LoggingAction
}

/// The commands a session issues from `s` on, starting with `c` (the command
/// that led to `s`), when every item store and every action log succeeds; it
/// ends with the command that follows the last write.
pub open spec fn write_commands(s: SyncSession, c: SyncCommandView) -> Seq<SyncCommandView>
    decreases pending_writes(s),
    when s.wf()
{
    match s.stage {
        SyncStage::StoringItem(_) => {
            let (t, d) = s.on_item_stored(None);
            if writing(t) && pending_writes(t) < pending_writes(s) {
                seq![c] + write_commands(t, d)
            } else {
                seq![c, d]
            }
        },
        SyncStage::LoggingAction(_) => {
            let (t, d) = s.on_action_logged(true);
            if writing(t) && pending_writes(t) < pending_writes(s) {
                seq![c] + write_commands(t, d)
            } else {
                seq![c, d]
            }
        },
        _ => seq![c],
    }
}

/// After an item is stored successfully, the next command stores the next
/// item, one index further; after the last item, the first action is logged,
/// or, with no actions, the upload is concluded.
pub proof fn law_next_item_follows_each_stored_item(s: SyncSession)
    requires
        s.wf(),
        s.stage is StoringItem,
    ensures
        ({
            let i = s.stage->StoringItem_0 as int;
            let n = s.request.new_items@.len();
            let pid = s.player.unwrap().id;
            &&& i + 1 < n ==> s.on_item_stored(None).1 == SyncCommandView::StoreItem {
                player_id: pid,
                index: (i + 1) as usize,
            }
            &&& i + 1 == n && s.request.actions@.len() > 0 ==> s.on_item_stored(None).1
                == SyncCommandView::LogAction { player_id: pid, index: 0 }
            &&& i + 1 == n && s.request.actions@.len() == 0 ==> s.on_item_stored(None).1 == conclusion(
                s.request,
            )
        }),
{
    let i = s.stage->StoringItem_0 as int;
    lemma_storing_from(s, i + 1);
    lemma_logging_from(s, 0);
    lemma_concluding_closes_or_commits(s);
}

proof fn lemma_log_commands(s: SyncSession, c: SyncCommandView)
    requires
        s.wf(),
        s.stage is LoggingAction,
        c == (SyncCommandView::LogAction { player_id: s.player.unwrap().id, index: s.stage->LoggingAction_0 }),
    ensures
        ({
            let j = s.stage->LoggingAction_0 as int;
            let m = s.request.actions@.len();
            let cmds = write_commands(s, c);
            &&& cmds.len() == m - j + 1
            &&& forall|k: int|
                0 <= k < m - j ==> #[trigger] cmds[k] == (SyncCommandView::LogAction {
                    player_id: s.player.unwrap().id,
                    index: (j + k) as usize,
                })
            &&& cmds[m - j] == conclusion(s.request)
        }),
    decreases pending_writes(s),
{
    let j = s.stage->LoggingAction_0 as int;
    let m = s.request.actions@.len();
    lemma_logging_from(s, j + 1);
    lemma_concluding_closes_or_commits(s);
    let (t, d) = s.on_action_logged(true);
    if writing(t) && pending_writes(t) < pending_writes(s) {
        lemma_log_commands(t, d);
        let rest = write_commands(t, d);
        let cmds = write_commands(s, c);
        assert(cmds == seq![c] + rest);
        assert forall|k: int| 0 <= k < m - j implies #[trigger] cmds[k] == (SyncCommandView::LogAction {
            player_id: s.player.unwrap().id,
            index: (j + k) as usize,
        }) by {
            if k > 0 {
                assert(cmds[k] == rest[k - 1]);
            }
        }
        assert(cmds[m - j] == rest[m - j - 1]);
    }
}

proof fn lemma_store_commands(s: SyncSession, c: SyncCommandView)
    requires
        s.wf(),
        s.stage is StoringItem,
        c == (SyncCommandView::StoreItem { player_id: s.player.unwrap().id, index: s.stage->StoringItem_0 }),
    ensures
        ({
            let i = s.stage->StoringItem_0 as int;
            let n = s.request.new_items@.len();
            let m = s.request.actions@.len();
            let pid = s.player.unwrap().id;
            let cmds = write_commands(s, c);
            &&& cmds.len() == n - i + m + 1
            &&& forall|k: int|
                0 <= k < n - i ==> #[trigger] cmds[k] == (SyncCommandView::StoreItem {
                    player_id: pid,
                    index: (i + k) as usize,
                })
            &&& forall|k: int|
                n - i <= k < n - i + m ==> #[trigger] cmds[k] == (SyncCommandView::LogAction {
                    player_id: pid,
                    index: (k - (n - i)) as usize,
                })
            &&& cmds[n - i + m] == conclusion(s.request)
        }),
    decreases pending_writes(s),
{
    let i = s.stage->StoringItem_0 as int;
    let n = s.request.new_items@.len();
    let m = s.request.actions@.len();
    let pid = s.player.unwrap().id;
    lemma_storing_from(s, i + 1);
    lemma_logging_from(s, 0);
    lemma_concluding_closes_or_commits(s);
    let (t, d) = s.on_item_stored(None);
    let cmds = write_commands(s, c);
    if writing(t) && pending_writes(t) < pending_writes(s) {
        let rest = write_commands(t, d);
        assert(cmds == seq![c] + rest);
        if t.stage is StoringItem {
            lemma_store_commands(t, d);
            assert forall|k: int| 0 <= k < n - i implies #[trigger] cmds[k] == (SyncCommandView::StoreItem {
                player_id: pid,
                index: (i + k) as usize,
            }) by {
                if k > 0 {
                    assert(cmds[k] == rest[k - 1]);
                }
            }
            assert forall|k: int| n - i <= k < n - i + m implies #[trigger] cmds[k] == (
            SyncCommandView::LogAction { player_id: pid, index: (k - (n - i)) as usize }) by {
                assert(cmds[k] == rest[k - 1]);
            }
            assert(cmds[n - i + m] == rest[n - i + m - 1]);
        } else {
            lemma_log_commands(t, d);
            assert forall|k: int| 0 <= k < n - i implies #[trigger] cmds[k] == (SyncCommandView::StoreItem {
                player_id: pid,
                index: (i + k) as usize,
            }) by {}
            assert forall|k: int| n - i <= k < n - i + m implies #[trigger] cmds[k] == (
            SyncCommandView::LogAction { player_id: pid, index: (k - (n - i)) as usize }) by {
                assert(cmds[k] == rest[k - 1]);
            }
            assert(cmds[n - i + m] == rest[n - i + m - 1]);
        }
    }
}

/// An upload within bounds whose every database step succeeds issues, after
/// the balance update, exactly one store command for each new item, in order
/// of index, then exactly one log command for each action, in order, and then
/// the conclusion: a commit for a clean match, a refusal for a flagged one.
pub proof fn law_every_item_and_action_is_written_in_order(
    user_id: u128,
    request: SyncRequest,
    balance: PlayerBalance,
)
    requires
        !breaks_limits(request.earned_df, request.earned_crypto_cores, request.energy_used),
        request.new_items@.len() <= usize::MAX,
        request.actions@.len() <= usize::MAX,
    ensures
        ({
            let (s0, c0) = SyncSession::opening(user_id, request);
            let (s1, c1) = s0.on_opened(true);
            let (s2, c2) = s1.on_player_updated(PlayerUpdate::Updated(balance));
            let cmds = write_commands(s2, c2);
            let n = request.new_items@.len();
            let m = request.actions@.len();
            &&& cmds.len() == n + m + 1
            &&& forall|k: int|
                0 <= k < n ==> #[trigger] cmds[k] == (SyncCommandView::StoreItem {
                    player_id: balance.id,
                    index: k as usize,
                })
            &&& forall|k: int|
                n <= k < n + m ==> #[trigger] cmds[k] == (SyncCommandView::LogAction {
                    player_id: balance.id,
                    index: (k - n) as usize,
                })
            &&& cmds[(n + m) as int] == conclusion(request)
        }),
{
    let (s0, c0) = SyncSession::opening(user_id, request);
    let (s1, c1) = s0.on_opened(true);
    let s1p = SyncSession { player: Some(balance), ..s1 };
    lemma_storing_from(s1p, 0);
    lemma_logging_from(s1p, 0);
    lemma_concluding_closes_or_commits(s1p);
    let (s2, c2) = s1.on_player_updated(PlayerUpdate::Updated(balance));
    if s2.stage is StoringItem {
        lemma_store_commands(s2, c2);
    } else if s2.stage is LoggingAction {
        lemma_log_commands(s2, c2);
    }
}

} // verus!
