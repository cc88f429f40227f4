//! The calls that a connection issues on its own behalf, and what their
//! answers have to look like.

use crate::error::TonClientError;
use crate::types::{
    optional_text, Config, ConfigView, KeyStoreType, KeyStoreTypeView, Options, OptionsInfo,
    OptionsView, SmcRunResult, TonConnectionParams, TonFunction, TonFunctionView, TonResult,
    TonResultKind,
};
use vstd::prelude::*;

verus! {

/// The key store that `params` asks for: a directory where one is named,
/// memory otherwise.
pub open spec fn keystore_of(params: TonConnectionParams) -> KeyStoreTypeView {
    match params.keystore_dir {
        Some(directory) => KeyStoreTypeView::Directory { directory: directory@ },
        None => KeyStoreTypeView::InMemory,
    }
}

/// The characters of an optional string slice.
pub open spec fn slice_text(text: Option<&str>) -> Option<Seq<char>> {
    match text {
        Some(s) => Some(s@),
        None => None,
    }
}

/// The initialization call with the given contents.
pub open spec fn init_call_with(
    config: Seq<char>,
    blockchain_name: Option<Seq<char>>,
    use_callbacks_for_network: bool,
    ignore_cache: bool,
    keystore_type: KeyStoreTypeView,
) -> TonFunctionView {
    TonFunctionView::Init {
        options: OptionsView {
            config: ConfigView { config, blockchain_name, use_callbacks_for_network, ignore_cache },
            keystore_type,
        },
    }
}

/// The initialization call that `params` asks for.
pub open spec fn init_call_of(params: TonConnectionParams) -> TonFunctionView {
    init_call_with(
        params.config@,
        optional_text(params.blockchain_name),
        params.use_callbacks_for_network,
        params.ignore_cache,
        keystore_of(params),
    )
}

/// What an initialization gives, given the engine's answer to it.
pub fn init_result(result: TonResult) -> (info: Result<OptionsInfo, TonClientError>)
    ensures
        info == match result {
            TonResult::OptionsInfo(options_info) => Ok::<OptionsInfo, TonClientError>(options_info),
            other => Err(
                TonClientError::UnexpectedTonResult {
                    expected: TonResultKind::OptionsInfo,
                    actual: other,
                },
            ),
        },
{
    match result {
        TonResult::OptionsInfo(options_info) => Ok(options_info),
        other => Err(TonClientError::unexpected_ton_result(TonResultKind::OptionsInfo, other)),
    }
}

/// What a get-method run gives, given the engine's answer to it.
pub fn smc_run_result(result: TonResult) -> (run: Result<SmcRunResult, TonClientError>)
    ensures
        run == match result {
            TonResult::SmcRunResult(run_result) => Ok::<SmcRunResult, TonClientError>(run_result),
            other => Err(
                TonClientError::UnexpectedTonResult {
                    expected: TonResultKind::SmcRunResult,
                    actual: other,
                },
            ),
        },
{
    match result {
        TonResult::SmcRunResult(run_result) => Ok(run_result),
        other => Err(TonClientError::unexpected_ton_result(TonResultKind::SmcRunResult, other)),
    }
}

/// Picks the key store that `params` asks for. See [`keystore_of`].
pub fn keystore_for(params: &TonConnectionParams) -> (keystore_type: KeyStoreType)
    ensures
        keystore_type@ == keystore_of(*params),
{
    match &params.keystore_dir {
        Some(directory) => KeyStoreType::Directory { directory: directory.clone() },
        None => KeyStoreType::InMemory,
    }
}

/// An owned copy of an optional string slice.
fn owned_text(text: Option<&str>) -> (owned: Option<String>)
    ensures
        optional_text(owned) == slice_text(text),
{
    match text {
        Some(s) => Some(s.to_owned()),
        None => None,
    }
}

/// Builds the initialization call from its contents.
pub fn init_call(
    config: &str,
    blockchain_name: Option<&str>,
    use_callbacks_for_network: bool,
    ignore_cache: bool,
    keystore_type: KeyStoreType,
) -> (function: TonFunction)
    ensures
        function@ == init_call_with(
            config@,
            slice_text(blockchain_name),
            use_callbacks_for_network,
            ignore_cache,
            keystore_type@,
        ),
{
    TonFunction::Init {
        options: Options {
            config: Config {
                config: config.to_owned(),
                blockchain_name: owned_text(blockchain_name),
                use_callbacks_for_network,
                ignore_cache,
            },
            keystore_type,
        },
    }
}

} // verus!
