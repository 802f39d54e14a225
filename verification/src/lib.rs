//! Bootstrap layer of a module bundler: assembles an ordered, option-derived
//! plugin list into a configured compiler, and plans the development server
//! that builds once and serves the output directory.

use vstd::prelude::*;

pub mod assembly;
pub mod compiler;
pub mod options;
pub mod plugin;
pub mod server;

pub use crate::assembly::{
    assembled_plugins, custom_plugins, platform_plugin_count, platform_plugins,
};
pub use crate::compiler::{BuildError, Compiler};
pub use crate::options::{
    AssetParserDataUrlOption, AssetParserOptions, CompilerOptions, Devtool, ModuleOptions,
    OutputOptions, ParserOptions, Target, TargetPlatform,
};
pub use crate::plugin::{
    devtool_plugin_options, AssetConfig, DevtoolPluginOptions, Plugin,
};
pub use crate::server::{ServeConfig, DEV_SERVER_PORT};

use crate::assembly::append_custom;
use crate::plugin::asset_config_of;
use vstd::string::StringExecFns;

verus! {

/// Assembles the full plugin list for the given build options and the
/// caller's additional plugins, and returns the configured compiler. The
/// resulting list is, in order: the asset and JSON content plugins, the
/// chunk-format plugin, the platform-conditional chunk-loading plugins, the
/// generic runtime plugin, the externals plugin, the user-supplied plugins —
/// the `plugins` argument's entries followed by the options' list, whose
/// ownership transfers into the assembled list — the JavaScript-emission
/// plugin, and the devtool plugin last.
pub fn rspack<P>(mut options: CompilerOptions<P>, mut plugins: Vec<P>) -> (c: Compiler<P>)
    ensures
        c.plugins@ == assembled_plugins(options, plugins@),
        c.plugins@.len() == 7 + platform_plugin_count(options.target.platform) + plugins@.len()
            + options.plugins@.len(),
        c.options.module == options.module,
        c.options.target == options.target,
        c.options.devtool == options.devtool,
        c.options.output == options.output,
        c.options.plugins@ == Seq::<P>::empty(),
{
    let ghost opts0: CompilerOptions<P> = options;
    let ghost extra0: Seq<P> = plugins@;
    let mut list: Vec<Plugin<P>> = Vec::new();

    let parse_options: Option<AssetParserOptions> = match &options.module.parser {
        Some(parser) => parser.asset,
        None => None,
    };
    list.push(Plugin::Asset(AssetConfig { parse_options }));
    list.push(Plugin::Json);
    list.push(Plugin::ArrayPushCallbackChunkFormat);
    proof {
        assert(list@ =~= seq![
            Plugin::Asset(asset_config_of(opts0.module)),
            Plugin::Json,
            Plugin::ArrayPushCallbackChunkFormat,
        ]);
    }
    let ghost stage_content: Seq<Plugin<P>> = list@;

    match &options.target.platform {
        TargetPlatform::Web => {
            list.push(Plugin::CssModules);
            list.push(Plugin::JsonPChunkLoading);
        }
        TargetPlatform::Node(_) => {
            list.push(Plugin::CommonJsChunkLoading);
        }
        TargetPlatform::Other => {}
    }
    proof {
        assert(list@ =~= stage_content + platform_plugins(opts0.target.platform));
    }
    let ghost stage_platform: Seq<Plugin<P>> = list@;

    list.push(Plugin::Runtime);
    list.push(Plugin::Externals);
    proof {
        assert(list@ =~= stage_platform + seq![Plugin::Runtime, Plugin::Externals]);
    }
    let ghost stage_runtime: Seq<Plugin<P>> = list@;

    append_custom(&mut list, &mut plugins);
    append_custom(&mut list, &mut options.plugins);
    proof {
        crate::assembly::lemma_custom_plugins_add(extra0, opts0.plugins@);
        assert(list@ =~= stage_runtime + custom_plugins(extra0 + opts0.plugins@));
    }
    let ghost stage_user: Seq<Plugin<P>> = list@;

    list.push(Plugin::Js);
    let devtool = devtool_plugin_options(&options.devtool, &options.output);
    list.push(Plugin::Devtool(devtool));
    proof {
        assert(list@ =~= stage_user + seq![
            Plugin::Js,
            Plugin::Devtool(crate::plugin::devtool_options_of(opts0.devtool, opts0.output)),
        ]);
        assert(list@ =~= assembled_plugins(opts0, extra0));
        crate::assembly::lemma_platform_plugins_len::<P>(opts0.target.platform);
    }
    Compiler::new(options, list)
}

/// Wraps the compiler assembled from the given options and additional
/// plugins in a development server.
pub fn dev_server<P>(options: CompilerOptions<P>, plugins: Vec<P>) -> (s: DevServer<P>)
    ensures
        s.compiler.plugins@ == assembled_plugins(options, plugins@),
        s.compiler.options.module == options.module,
        s.compiler.options.target == options.target,
        s.compiler.options.devtool == options.devtool,
        s.compiler.options.output == options.output,
        s.compiler.options.plugins@ == Seq::<P>::empty(),
{
    DevServer { compiler: rspack(options, plugins) }
}

/// A development server: it owns one configured compiler, drives one build,
/// and serves the build's output directory over a local listener.
pub struct DevServer<P> {
    pub compiler: Compiler<P>,
}

impl<P> DevServer<P> {
    /// Decides what serving does once the owned compiler's build has
    /// finished: a failed build is propagated unchanged, and no serving
    /// configuration exists to bind a listener with; a successful build
    /// yields the configuration that serves the `dist` subdirectory of the
    /// output context on the loopback host and the development-server port.
    pub fn serve_plan(&self, built: Result<(), BuildError>) -> (r: Result<ServeConfig, BuildError>)
        ensures
            r is Ok <==> built is Ok,
            built is Err ==> r->Err_0 == built->Err_0,
            built is Ok ==> (r->Ok_0).root@ == self.compiler.options.output.context@ + "/dist"@,
            built is Ok ==> (r->Ok_0).host == (127u8, 0u8, 0u8, 1u8),
            built is Ok ==> (r->Ok_0).port == DEV_SERVER_PORT,
    {
        match built {
            Err(e) => Err(e),
            Ok(()) => {
                let mut root = self.compiler.options.output.context.clone();
                root.append("/dist");
                Ok(ServeConfig { root, host: (127, 0, 0, 1), port: DEV_SERVER_PORT })
            }
        }
    }
}

} // verus!
