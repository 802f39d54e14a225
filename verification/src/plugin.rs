use vstd::prelude::*;

use crate::options::{AssetParserOptions, Devtool, ModuleOptions, OutputOptions};

verus! {

/// Configuration of the asset-handling plugin, derived from the module
/// parser options.
#[derive(Debug, Clone, Copy, PartialEq, Eq)]
pub struct AssetConfig {
    pub parse_options: Option<AssetParserOptions>,
}

/// Configuration of the devtool plugin, computed deterministically from the
/// devtool descriptor and the output descriptor.
#[derive(Debug, PartialEq, Eq)]
pub struct DevtoolPluginOptions {
    pub inline: bool,
    pub append: bool,
    pub namespace: String,
    pub columns: bool,
    pub no_sources: bool,
    pub public_path: Option<String>,
}

/// One entry of the assembled plugin list. The built-in capabilities are the
/// variants the assembler appends itself; a caller-supplied plugin is carried
/// opaquely in `Custom` and never confused with a built-in one.
#[derive(Debug, PartialEq, Eq)]
pub enum Plugin<P> {
    Asset(AssetConfig),
    Json,
    ArrayPushCallbackChunkFormat,
    CssModules,
    JsonPChunkLoading,
    CommonJsChunkLoading,
    Runtime,
    Externals,
    Js,
    Devtool(DevtoolPluginOptions),
    Custom(P),
}

/// The asset configuration the assembler derives from the module options:
/// the asset parser sub-options where the parser configuration is present,
/// the default otherwise.
pub open spec fn asset_config_of(module: ModuleOptions) -> AssetConfig {
    match module.parser {
        Some(parser) => AssetConfig { parse_options: parser.asset },
        None => AssetConfig { parse_options: None },
    }
}

/// The devtool plugin configuration derived from a devtool descriptor and an
/// output descriptor: `append` is the negation of `hidden`, `columns` the
/// negation of `cheap`, `inline` and `no_sources` pass through, the namespace
/// is the output's unique name, and the public path is reserved and unset.
pub open spec fn devtool_options_of(devtool: Devtool, output: OutputOptions) -> DevtoolPluginOptions {
    DevtoolPluginOptions {
        inline: devtool.inline,
        append: !devtool.hidden,
        namespace: output.unique_name,
        columns: !devtool.cheap,
        no_sources: devtool.no_sources,
        public_path: None,
    }
}

/// Computes the devtool plugin configuration. `append` holds exactly when the
/// source map is not hidden, and `columns` exactly when the cheap (line-only)
/// variant was not requested.
pub fn devtool_plugin_options(devtool: &Devtool, output: &OutputOptions) -> (d: DevtoolPluginOptions)
    ensures
        d == devtool_options_of(*devtool, *output),
        d.append == !devtool.hidden,
        d.columns == !devtool.cheap,
        d.inline == devtool.inline,
        d.no_sources == devtool.no_sources,
        d.namespace == output.unique_name,
        d.public_path is None,
{
    DevtoolPluginOptions {
        inline: devtool.inline(),
        append: !devtool.hidden(),
        namespace: output.unique_name.clone(),
        columns: !devtool.cheap(),
        no_sources: devtool.no_sources(),
        public_path: None,
    }
}

} // verus!
