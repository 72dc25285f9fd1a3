//! The records that native front ends receive: account cards, refresh,
//! switch and login snapshots, and the bridge's error. No record carries a
//! token.

use crate::account::copy_opt;
use crate::operation::{OperationErrorCode, TaskPhase};
use crate::summary::{AccessTokenSummaryState, AccountSummary, ExpirySourceSummary, QuotaSummary};
use crate::text;
use vstd::prelude::*;

verus! {

/// A token's state as the bridge reports it.
#[derive(Debug, Clone, Copy, PartialEq, Eq, Structural)]
pub enum AccessTokenStatus {
    Stale,
    Missing,
    Fresh,
    Expiring,
    Expired,
    Unknown,
}

pub open spec fn status_of(v: AccessTokenSummaryState) -> AccessTokenStatus {
    match v {
        AccessTokenSummaryState::Stale => AccessTokenStatus::Stale,
        AccessTokenSummaryState::Missing => AccessTokenStatus::Missing,
        AccessTokenSummaryState::Fresh => AccessTokenStatus::Fresh,
        AccessTokenSummaryState::Expiring => AccessTokenStatus::Expiring,
        AccessTokenSummaryState::Expired => AccessTokenStatus::Expired,
        AccessTokenSummaryState::Unknown => AccessTokenStatus::Unknown,
    }
}

impl From<AccessTokenSummaryState> for AccessTokenStatus {
    fn from(value: AccessTokenSummaryState) -> (r: AccessTokenStatus) {
        match value {
            AccessTokenSummaryState::Stale => AccessTokenStatus::Stale,
            AccessTokenSummaryState::Missing => AccessTokenStatus::Missing,
            AccessTokenSummaryState::Fresh => AccessTokenStatus::Fresh,
            AccessTokenSummaryState::Expiring => AccessTokenStatus::Expiring,
            AccessTokenSummaryState::Expired => AccessTokenStatus::Expired,
            AccessTokenSummaryState::Unknown => AccessTokenStatus::Unknown,
        }
    }
}

impl vstd::std_specs::convert::FromSpecImpl<AccessTokenSummaryState> for AccessTokenStatus {
    open spec fn obeys_from_spec() -> bool {
        true
    }

    open spec fn from_spec(v: AccessTokenSummaryState) -> AccessTokenStatus {
        status_of(v)
    }
}

/// Where an expiry came from, as the bridge reports it.
#[derive(Debug, Clone, Copy, PartialEq, Eq, Structural)]
pub enum TokenExpirySource {
    Jwt,
    Ledger,
}

pub open spec fn source_of(v: ExpirySourceSummary) -> TokenExpirySource {
    match v {
        ExpirySourceSummary::Jwt => TokenExpirySource::Jwt,
        ExpirySourceSummary::Ledger => TokenExpirySource::Ledger,
    }
}

impl From<ExpirySourceSummary> for TokenExpirySource {
    fn from(value: ExpirySourceSummary) -> (r: TokenExpirySource) {
        match value {
            ExpirySourceSummary::Jwt => TokenExpirySource::Jwt,
            ExpirySourceSummary::Ledger => TokenExpirySource::Ledger,
        }
    }
}

impl vstd::std_specs::convert::FromSpecImpl<ExpirySourceSummary> for TokenExpirySource {
    open spec fn obeys_from_spec() -> bool {
        true
    }

    open spec fn from_spec(v: ExpirySourceSummary) -> TokenExpirySource {
        source_of(v)
    }
}

/// Token health of an account card.
#[derive(Debug, Clone, Copy, PartialEq, Eq, Structural)]
pub struct TokenHealthRecord {
    pub status: AccessTokenStatus,
    pub expires_at: Option<i64>,
    pub expiry_source: Option<TokenExpirySource>,
    pub refresh_available: bool,
}

/// An account as a card shows it.
#[derive(Debug, Clone, PartialEq, Eq)]
pub struct AccountRecord {
    pub id: String,
    pub email: String,
    pub current: bool,
    pub stale: bool,
    pub account_id: Option<String>,
    pub organization_id: Option<String>,
    pub token_health: TokenHealthRecord,
}

/// The record of an account summary: the same facts, field for field.
pub open spec fn account_record_of(v: AccountSummary) -> AccountRecord {
    AccountRecord {
        id: v.id,
        email: v.email,
        current: v.current,
        stale: v.stale,
        account_id: v.account_id,
        organization_id: v.organization_id,
        token_health: TokenHealthRecord {
            status: status_of(v.token_health.status),
            expires_at: v.expires_at,
            expiry_source: match v.token_health.expiry_source {
                Some(s) => Some(source_of(s)),
                None => None,
            },
            refresh_available: v.token_health.refresh_available,
        },
    }
}

impl From<AccountSummary> for AccountRecord {
    fn from(value: AccountSummary) -> (r: AccountRecord) {
        let expiry_source = match value.token_health.expiry_source {
            Some(s) => Some(TokenExpirySource::from(s)),
            None => None,
        };
        AccountRecord {
            id: value.id,
            email: value.email,
            current: value.current,
            stale: value.stale,
            account_id: value.account_id,
            organization_id: value.organization_id,
            token_health: TokenHealthRecord {
                status: AccessTokenStatus::from(value.token_health.status),
                expires_at: value.expires_at,
                expiry_source,
                refresh_available: value.token_health.refresh_available,
            },
        }
    }
}

impl vstd::std_specs::convert::FromSpecImpl<AccountSummary> for AccountRecord {
    open spec fn obeys_from_spec() -> bool {
        true
    }

    open spec fn from_spec(v: AccountSummary) -> AccountRecord {
        account_record_of(v)
    }
}

impl AccountRecord {
    /// A field-by-field copy.
    pub fn copy(&self) -> (r: AccountRecord)
        ensures
            r == *self,
    {
        AccountRecord {
            id: self.id.clone(),
            email: self.email.clone(),
            current: self.current,
            stale: self.stale,
            account_id: copy_opt(&self.account_id),
            organization_id: copy_opt(&self.organization_id),
            token_health: self.token_health,
        }
    }
}

/// The weekly quota of a card.
#[derive(Debug, Clone, PartialEq, Eq)]
pub struct QuotaRecord {
    pub plan: Option<String>,
    pub weekly_remaining: Option<i32>,
    pub weekly_reset_at: Option<i64>,
    pub reset_available: Option<i64>,
    pub reset_next_expiry: Option<i64>,
}

/// The record of a quota summary, field for field.
pub open spec fn quota_record_of(v: QuotaSummary) -> QuotaRecord {
    QuotaRecord {
        plan: v.plan,
        weekly_remaining: v.weekly_remaining,
        weekly_reset_at: v.weekly_reset_at,
        reset_available: v.reset_available,
        reset_next_expiry: v.reset_next_expiry,
    }
}

impl From<QuotaSummary> for QuotaRecord {
    fn from(value: QuotaSummary) -> (r: QuotaRecord) {
        QuotaRecord {
            plan: value.plan,
            weekly_remaining: value.weekly_remaining,
            weekly_reset_at: value.weekly_reset_at,
            reset_available: value.reset_available,
            reset_next_expiry: value.reset_next_expiry,
        }
    }
}

impl vstd::std_specs::convert::FromSpecImpl<QuotaSummary> for QuotaRecord {
    open spec fn obeys_from_spec() -> bool {
        true
    }

    open spec fn from_spec(v: QuotaSummary) -> QuotaRecord {
        quota_record_of(v)
    }
}

impl QuotaRecord {
    /// A field-by-field copy.
    pub fn copy(&self) -> (r: QuotaRecord)
        ensures
            r == *self,
    {
        QuotaRecord {
            plan: copy_opt(&self.plan),
            weekly_remaining: self.weekly_remaining,
            weekly_reset_at: self.weekly_reset_at,
            reset_available: self.reset_available,
            reset_next_expiry: self.reset_next_expiry,
        }
    }
}

/// Where a card's quota stands.
#[derive(Debug, Clone, Copy, PartialEq, Eq, Structural)]
pub enum QuotaLoadState {
    Pending,
    Loading,
    Success,
    Failed,
    Unknown,
    Stale,
}

/// The kind of a failure, as the bridge reports it.
#[derive(Debug, Clone, Copy, PartialEq, Eq, Structural)]
pub enum ErrorCode {
    State,
    Auth,
    External,
    Internal,
}

pub open spec fn error_code_of(v: OperationErrorCode) -> ErrorCode {
    match v {
        OperationErrorCode::State => ErrorCode::State,
        OperationErrorCode::Auth => ErrorCode::Auth,
        OperationErrorCode::External => ErrorCode::External,
        OperationErrorCode::Internal => ErrorCode::Internal,
    }
}

impl From<OperationErrorCode> for ErrorCode {
    fn from(value: OperationErrorCode) -> (r: ErrorCode) {
        match value {
            OperationErrorCode::State => ErrorCode::State,
            OperationErrorCode::Auth => ErrorCode::Auth,
            OperationErrorCode::External => ErrorCode::External,
            OperationErrorCode::Internal => ErrorCode::Internal,
        }
    }
}

impl vstd::std_specs::convert::FromSpecImpl<OperationErrorCode> for ErrorCode {
    open spec fn obeys_from_spec() -> bool {
        true
    }

    open spec fn from_spec(v: OperationErrorCode) -> ErrorCode {
        error_code_of(v)
    }
}

/// The phase of a refresh or a switch, as the bridge reports it.
#[derive(Debug, Clone, Copy, PartialEq, Eq, Structural)]
pub enum RefreshPhase {
    Pending,
    Running,
    Succeeded,
    Failed,
    Cancelled,
}

pub open spec fn phase_of(v: TaskPhase) -> RefreshPhase {
    match v {
        TaskPhase::Pending => RefreshPhase::Pending,
        TaskPhase::Running => RefreshPhase::Running,
        TaskPhase::Succeeded => RefreshPhase::Succeeded,
        TaskPhase::Failed => RefreshPhase::Failed,
        TaskPhase::Cancelled => RefreshPhase::Cancelled,
    }
}

impl From<TaskPhase> for RefreshPhase {
    fn from(value: TaskPhase) -> (r: RefreshPhase) {
        match value {
            TaskPhase::Pending => RefreshPhase::Pending,
            TaskPhase::Running => RefreshPhase::Running,
            TaskPhase::Succeeded => RefreshPhase::Succeeded,
            TaskPhase::Failed => RefreshPhase::Failed,
            TaskPhase::Cancelled => RefreshPhase::Cancelled,
        }
    }
}

impl vstd::std_specs::convert::FromSpecImpl<TaskPhase> for RefreshPhase {
    open spec fn obeys_from_spec() -> bool {
        true
    }

    open spec fn from_spec(v: TaskPhase) -> RefreshPhase {
        phase_of(v)
    }
}

/// One account's card.
#[derive(Debug, Clone, PartialEq, Eq)]
pub struct AccountCardRecord {
    pub account: AccountRecord,
    pub quota: Option<QuotaRecord>,
    pub quota_state: QuotaLoadState,
    pub quota_fetched_at: Option<i64>,
    pub quota_is_fresh: bool,
    pub recommended: bool,
    pub error_code: Option<ErrorCode>,
}

impl AccountCardRecord {
    /// A field-by-field copy.
    pub fn copy(&self) -> (r: AccountCardRecord)
        ensures
            r == *self,
    {
        AccountCardRecord {
            account: self.account.copy(),
            quota: match &self.quota {
                Some(q) => Some(q.copy()),
                None => None,
            },
            quota_state: self.quota_state,
            quota_fetched_at: self.quota_fetched_at,
            quota_is_fresh: self.quota_is_fresh,
            recommended: self.recommended,
            error_code: self.error_code,
        }
    }
}

/// A copy of a list of cards.
pub fn copy_cards(v: &Vec<AccountCardRecord>) -> (r: Vec<AccountCardRecord>)
    ensures
        r@ == v@,
{
    let mut out: Vec<AccountCardRecord> = Vec::new();
    let mut i: usize = 0;
    while i < v.len()
        invariant
            i <= v.len(),
            out@ == v@.subrange(0, i as int),
        decreases v.len() - i,
    {
        out.push(v[i].copy());
        i = i + 1;
        assert(out@ =~= v@.subrange(0, i as int));
    }
    assert(v@.subrange(0, v@.len() as int) =~= v@);
    out
}

/// A refresh as front ends see it.
#[derive(Debug, Clone, PartialEq, Eq)]
pub struct RefreshSnapshot {
    pub generation: u64,
    pub phase: RefreshPhase,
    pub accounts: Vec<AccountCardRecord>,
    pub error_code: Option<ErrorCode>,
}

/// A completed switch.
#[derive(Debug, Clone, PartialEq, Eq)]
pub struct SwitchResult {
    pub account_id: String,
    pub email: String,
    pub codex_running: bool,
}

impl SwitchResult {
    /// A field-by-field copy.
    pub fn copy(&self) -> (r: SwitchResult)
        ensures
            r == *self,
    {
        SwitchResult {
            account_id: self.account_id.clone(),
            email: self.email.clone(),
            codex_running: self.codex_running,
        }
    }
}

/// A switch as front ends see it.
#[derive(Debug, Clone, PartialEq, Eq)]
pub struct SwitchSnapshot {
    pub generation: u64,
    pub phase: RefreshPhase,
    pub result: Option<SwitchResult>,
    pub error_code: Option<ErrorCode>,
    pub message: Option<String>,
}

/// The phase of a login session, as the bridge reports it.
#[derive(Debug, Clone, Copy, PartialEq, Eq, Structural)]
pub enum LoginPhase {
    Waiting,
    Exchanging,
    Succeeded,
    Failed,
    Cancelled,
    TimedOut,
}

/// A started login session and the URL to open.
#[derive(Debug, Clone, PartialEq, Eq)]
pub struct LoginStart {
    pub session_id: u64,
    pub authorization_url: String,
}

/// A login session as front ends see it.
#[derive(Debug, Clone, PartialEq, Eq)]
pub struct LoginSnapshot {
    pub session_id: u64,
    pub phase: LoginPhase,
    pub error_code: Option<ErrorCode>,
    pub message: Option<String>,
}

/// The offline diagnosis.
#[derive(Debug, Clone, PartialEq, Eq)]
pub struct DoctorReport {
    pub lines: Vec<String>,
    pub issue_count: u64,
}

/// A failed bridge call.
#[derive(Debug)]
pub enum BridgeError {
    State { message: String },
    Auth { message: String },
    External { message: String },
    Internal { message: String },
}

impl BridgeError {
    /// The error's text, as its `Display` writes it.
    pub open spec fn message_spec(&self) -> Seq<char> {
        match self {
            BridgeError::State { message } => "状态错误: "@ + message@,
            BridgeError::Auth { message } => "认证错误: "@ + message@,
            BridgeError::External { message } => "外部服务错误: "@ + message@,
            BridgeError::Internal { message } => "内部错误: "@ + message@,
        }
    }

    pub fn to_message(&self) -> (r: String)
        ensures
            r@ == self.message_spec(),
    {
        match self {
            BridgeError::State { message } => text::cat("状态错误: ", message.as_str()),
            BridgeError::Auth { message } => text::cat("认证错误: ", message.as_str()),
            BridgeError::External { message } => text::cat("外部服务错误: ", message.as_str()),
            BridgeError::Internal { message } => text::cat("内部错误: ", message.as_str()),
        }
    }

    /// The code of an error's kind.
    pub open spec fn code_spec(&self) -> ErrorCode {
        match self {
            BridgeError::State { .. } => ErrorCode::State,
            BridgeError::Auth { .. } => ErrorCode::Auth,
            BridgeError::External { .. } => ErrorCode::External,
            BridgeError::Internal { .. } => ErrorCode::Internal,
        }
    }

    pub fn code(&self) -> (r: ErrorCode)
        ensures
            r == self.code_spec(),
    {
        match self {
            BridgeError::State { .. } => ErrorCode::State,
            BridgeError::Auth { .. } => ErrorCode::Auth,
            BridgeError::External { .. } => ErrorCode::External,
            BridgeError::Internal { .. } => ErrorCode::Internal,
        }
    }
}

/// The version of the interface native front ends are built against.
pub const INTERFACE_VERSION: u32 = 4;

/// What a native front end checks before it talks to the library.
#[derive(Debug, Clone, PartialEq, Eq)]
pub struct BridgeInfo {
    pub interface_version: u32,
    pub core_version: String,
}

/// The interface version and the library's own version.
pub fn bridge_info() -> (r: BridgeInfo)
    ensures
        r.interface_version == INTERFACE_VERSION,
        r.core_version@ == "0.1.0"@,
{
    BridgeInfo { interface_version: INTERFACE_VERSION, core_version: text::to_owned("0.1.0") }
}

} // verus!
