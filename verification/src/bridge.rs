//! Names reserved for spans that are reported on behalf of code running in a
//! sandbox.
//!
//! Such a span arrives under a fixed name and carries its own name and target
//! as attributes. The names are those of `sp_tracing`.

use vstd::prelude::*;

verus! {

/// The target that is always observable, whatever the filter says.
pub const PROXY_TARGET: &'static str = "sp_tracing::proxy";

/// The text of [`PROXY_TARGET`].
pub open spec fn proxy_target() -> Seq<char> {
    "sp_tracing::proxy"@
}

/// The span name that marks a bridged span.
pub open spec fn trace_identifier() -> Seq<char> {
    "wasm_tracing"@
}

/// The attribute that holds a bridged span's own name.
pub open spec fn name_key() -> Seq<char> {
    "name"@
}

/// The attribute that holds a bridged span's own target.
pub open spec fn target_key() -> Seq<char> {
    "target"@
}

/// The attribute that marks a span as bridged once it is closed.
pub open spec fn bridged_key() -> Seq<char> {
    "wasm"@
}

/// The value of the attribute [`bridged_key`].
pub open spec fn bridged_value() -> Seq<char> {
    "true"@
}

/// Reads `sp_tracing::WASM_TRACE_IDENTIFIER`, which is `"wasm_tracing"`.
#[verifier::external_body]
pub(crate) fn wasm_trace_identifier() -> (name: &'static str)
    ensures
        name@ == trace_identifier(),
{
    sp_tracing::WASM_TRACE_IDENTIFIER
}

/// Reads `sp_tracing::WASM_NAME_KEY`, which is `"name"`.
#[verifier::external_body]
pub(crate) fn wasm_name_key() -> (key: &'static str)
    ensures
        key@ == name_key(),
{
    sp_tracing::WASM_NAME_KEY
}

/// Reads `sp_tracing::WASM_TARGET_KEY`, which is `"target"`.
#[verifier::external_body]
pub(crate) fn wasm_target_key() -> (key: &'static str)
    ensures
        key@ == target_key(),
{
    sp_tracing::WASM_TARGET_KEY
}

} // verus!
