//! Plain data exchanged with the engine: the calls this layer can issue, the
//! results the engine hands back, and the notifications it pushes on its own.
//!
//! The layer carries these values around; it never looks further into them
//! than their outermost shape.

use vstd::prelude::*;

verus! {

/// Where the engine keeps its keys.
#[derive(Debug, Clone, PartialEq, Eq)]
pub enum KeyStoreType {
    Directory { directory: String },
    InMemory,
}

/// The mathematical content of a [`KeyStoreType`].
pub enum KeyStoreTypeView {
    Directory { directory: Seq<char> },
    InMemory,
}

impl View for KeyStoreType {
    type V = KeyStoreTypeView;

    open spec fn view(&self) -> KeyStoreTypeView {
        match *self {
            KeyStoreType::Directory { directory } => KeyStoreTypeView::Directory {
                directory: directory@,
            },
            KeyStoreType::InMemory => KeyStoreTypeView::InMemory,
        }
    }
}

/// The network configuration handed to the engine at initialization.
#[derive(Debug, Clone, PartialEq, Eq)]
pub struct Config {
    pub config: String,
    pub blockchain_name: Option<String>,
    pub use_callbacks_for_network: bool,
    pub ignore_cache: bool,
}

/// The mathematical content of a [`Config`].
pub struct ConfigView {
    pub config: Seq<char>,
    pub blockchain_name: Option<Seq<char>>,
    pub use_callbacks_for_network: bool,
    pub ignore_cache: bool,
}

/// The characters of an optional string.
pub open spec fn optional_text(text: Option<String>) -> Option<Seq<char>> {
    match text {
        Some(s) => Some(s@),
        None => None,
    }
}

impl View for Config {
    type V = ConfigView;

    open spec fn view(&self) -> ConfigView {
        ConfigView {
            config: self.config@,
            blockchain_name: optional_text(self.blockchain_name),
            use_callbacks_for_network: self.use_callbacks_for_network,
            ignore_cache: self.ignore_cache,
        }
    }
}

/// Everything the initialization call carries.
#[derive(Debug, Clone, PartialEq, Eq)]
pub struct Options {
    pub config: Config,
    pub keystore_type: KeyStoreType,
}

/// The mathematical content of an [`Options`].
pub struct OptionsView {
    pub config: ConfigView,
    pub keystore_type: KeyStoreTypeView,
}

impl View for Options {
    type V = OptionsView;

    open spec fn view(&self) -> OptionsView {
        OptionsView { config: self.config@, keystore_type: self.keystore_type@ }
    }
}

/// What the engine reports about the configuration it accepted.
#[derive(Debug, Clone, PartialEq, Eq)]
pub struct OptionsConfigInfo {
    pub default_wallet_id: i64,
    pub default_rwallet_init_public_key: String,
}

/// The engine's answer to a successful initialization.
#[derive(Debug, Clone, PartialEq, Eq)]
pub struct OptionsInfo {
    pub config_info: OptionsConfigInfo,
}

/// Names a get-method of a smart contract, by number or by name.
#[derive(Debug, Clone, PartialEq, Eq)]
pub enum SmcMethodId {
    Number { number: i32 },
    Name { name: String },
}

/// One entry of the virtual machine's stack, in the engine's own encoding.
#[derive(Debug, Clone, PartialEq, Eq)]
pub enum TvmStackEntry {
    Slice { bytes: String },
    Cell { bytes: String },
    Number { number: String },
}

/// The engine's answer to a get-method run.
#[derive(Debug, Clone, PartialEq, Eq)]
pub struct SmcRunResult {
    pub gas_used: i64,
    pub stack: Vec<TvmStackEntry>,
    pub exit_code: i32,
}

/// How far the engine has caught up with the network.
#[derive(Debug, Clone, Copy, PartialEq, Eq)]
pub enum SyncState {
    Done,
    InProgress { from_seqno: i32, to_seqno: i32, current_seqno: i32 },
}

/// The engine's spontaneous report of a change in its sync state.
#[derive(Debug, Clone, Copy, PartialEq, Eq)]
pub struct UpdateSyncState {
    pub sync_state: SyncState,
}

/// A call that this layer can ask the engine to execute.
#[derive(Debug, Clone, PartialEq, Eq)]
pub enum TonFunction {
    Init { options: Options },
    SmcRunGetMethod { id: i64, method: SmcMethodId, stack: Vec<TvmStackEntry> },
}

/// The mathematical content of a [`TonFunction`].
pub enum TonFunctionView {
    Init { options: OptionsView },
    SmcRunGetMethod { id: i64, method: SmcMethodId, stack: Vec<TvmStackEntry> },
}

impl View for TonFunction {
    type V = TonFunctionView;

    open spec fn view(&self) -> TonFunctionView {
        match *self {
            TonFunction::Init { options } => TonFunctionView::Init { options: options@ },
            TonFunction::SmcRunGetMethod { id, method, stack } => TonFunctionView::SmcRunGetMethod {
                id,
                method,
                stack,
            },
        }
    }
}

/// The name under which a call shows up in diagnostics.
pub open spec fn method_name_of(function: TonFunction) -> Seq<char> {
    match function {
        TonFunction::Init { .. } => "Init"@,
        TonFunction::SmcRunGetMethod { .. } => "SmcRunGetMethod"@,
    }
}

impl TonFunction {
    /// The name under which this call shows up in diagnostics.
    pub fn method_name(&self) -> (name: &'static str)
        ensures
            name@ == method_name_of(*self),
    {
        match self {
            TonFunction::Init { .. } => "Init",
            TonFunction::SmcRunGetMethod { .. } => "SmcRunGetMethod",
        }
    }
}

/// Anything the engine can hand back for a call, or push on its own.
#[derive(Debug, Clone, PartialEq, Eq)]
pub enum TonResult {
    /// The engine understood the call and rejected it.
    Error { code: i32, message: String },
    OptionsInfo(OptionsInfo),
    SmcRunResult(SmcRunResult),
    UpdateSyncState(UpdateSyncState),
}

/// The outermost shape of a [`TonResult`].
#[derive(Debug, Clone, Copy, PartialEq, Eq, Structural)]
pub enum TonResultKind {
    Error,
    OptionsInfo,
    SmcRunResult,
    UpdateSyncState,
}

/// The outermost shape of `result`.
pub open spec fn kind_of(result: TonResult) -> TonResultKind {
    match result {
        TonResult::Error { .. } => TonResultKind::Error,
        TonResult::OptionsInfo(_) => TonResultKind::OptionsInfo,
        TonResult::SmcRunResult(_) => TonResultKind::SmcRunResult,
        TonResult::UpdateSyncState(_) => TonResultKind::UpdateSyncState,
    }
}

impl TonResult {
    /// The outermost shape of this result.
    pub fn kind(&self) -> (kind: TonResultKind)
        ensures
            kind == kind_of(*self),
    {
        match self {
            TonResult::Error { .. } => TonResultKind::Error,
            TonResult::OptionsInfo(_) => TonResultKind::OptionsInfo,
            TonResult::SmcRunResult(_) => TonResultKind::SmcRunResult,
            TonResult::UpdateSyncState(_) => TonResultKind::UpdateSyncState,
        }
    }
}

/// An event that the engine pushed without being asked.
#[derive(Debug, Clone, Copy, PartialEq, Eq)]
pub enum TonNotification {
    UpdateSyncState(UpdateSyncState),
}

/// The notification that `result` is, if it has the shape of one.
pub open spec fn notification_of(result: TonResult) -> Option<TonNotification> {
    match result {
        TonResult::UpdateSyncState(update) => Some(TonNotification::UpdateSyncState(update)),
        _ => None,
    }
}

impl TonNotification {
    /// Reads a result as a notification. Only results of a notification's
    /// shape are one; every other result gives `None`.
    pub fn from_result(result: &TonResult) -> (notification: Option<TonNotification>)
        ensures
            notification == notification_of(*result),
    {
        match result {
            TonResult::UpdateSyncState(update) => Some(TonNotification::UpdateSyncState(*update)),
            _ => None,
        }
    }
}

/// What a caller supplies to get an initialized connection.
#[derive(Debug, Clone, PartialEq, Eq)]
pub struct TonConnectionParams {
    pub config: String,
    pub blockchain_name: Option<String>,
    pub use_callbacks_for_network: bool,
    pub ignore_cache: bool,
    pub keystore_dir: Option<String>,
}

} // verus!
