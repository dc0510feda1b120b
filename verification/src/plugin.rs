//! The plugin's answers to the server's start-up callback, and the small
//! arithmetic export that the host can call.

use vstd::prelude::*;

verus! {

/// The kind of output a logical-decoding plugin produces.
#[allow(non_camel_case_types)]
#[derive(Debug, Clone, Copy, PartialEq, Eq, Structural)]
pub enum OutputPluginOutputType {
    OUTPUT_PLUGIN_BINARY_OUTPUT,
    OUTPUT_PLUGIN_TEXTUAL_OUTPUT,
}

/// The options a plugin sets when it starts.
#[derive(Debug, Clone, Copy, PartialEq, Eq, Structural)]
pub struct OutputPluginOptions {
    pub output_type: OutputPluginOutputType,
}

/// Start-up: the plugin declares that it writes text (its changes are JSON).
pub fn pg_decode_startup(opt: &mut OutputPluginOptions)
    ensures
        final(opt).output_type == OutputPluginOutputType::OUTPUT_PLUGIN_TEXTUAL_OUTPUT,
{
    opt.output_type = OutputPluginOutputType::OUTPUT_PLUGIN_TEXTUAL_OUTPUT;
}

/// Adds two; the sum must fit in a `u32`.
pub fn add_two(a: u32) -> (sum: u32)
    requires
        a + 2 <= u32::MAX,
    ensures
        sum == a + 2,
{
    a + 2
}

} // verus!
