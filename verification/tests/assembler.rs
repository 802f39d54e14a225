use rspack::{
    rspack, AssetConfig, AssetParserDataUrlOption, AssetParserOptions, CompilerOptions, Devtool,
    DevtoolPluginOptions, ModuleOptions, OutputOptions, ParserOptions, Plugin, Target,
    TargetPlatform,
};

fn options_for(platform: TargetPlatform, user_plugins: Vec<&'static str>) -> CompilerOptions<&'static str> {
    CompilerOptions {
        module: ModuleOptions { parser: None },
        target: Target { platform },
        devtool: Devtool { inline: false, hidden: false, cheap: false, no_sources: false },
        output: OutputOptions {
            unique_name: String::from("main"),
            context: String::from("./proj"),
        },
        plugins: user_plugins,
    }
}

#[test]
fn web_platform_order() {
    let options = options_for(TargetPlatform::Web, Vec::new());
    let compiler = rspack(options, Vec::new());
    let expected: Vec<Plugin<&'static str>> = vec![
        Plugin::Asset(AssetConfig { parse_options: None }),
        Plugin::Json,
        Plugin::ArrayPushCallbackChunkFormat,
        Plugin::CssModules,
        Plugin::JsonPChunkLoading,
        Plugin::Runtime,
        Plugin::Externals,
        Plugin::Js,
        Plugin::Devtool(DevtoolPluginOptions {
            inline: false,
            append: true,
            namespace: String::from("main"),
            columns: true,
            no_sources: false,
            public_path: None,
        }),
    ];
    assert_eq!(compiler.plugins.len(), 9);
    assert_eq!(compiler.plugins, expected);
}

#[test]
fn web_platform_has_no_commonjs_chunk_loading() {
    let options = options_for(TargetPlatform::Web, vec!["extra"]);
    let compiler = rspack(options, Vec::new());
    let css = compiler
        .plugins
        .iter()
        .position(|p| matches!(p, Plugin::CssModules))
        .unwrap();
    assert!(matches!(compiler.plugins[css + 1], Plugin::JsonPChunkLoading));
    assert!(!compiler
        .plugins
        .iter()
        .any(|p| matches!(p, Plugin::CommonJsChunkLoading)));
}

#[test]
fn node_platform_plugins() {
    let options = options_for(TargetPlatform::Node(String::from("16")), Vec::new());
    let compiler = rspack(options, Vec::new());
    let commonjs = compiler
        .plugins
        .iter()
        .filter(|p| matches!(p, Plugin::CommonJsChunkLoading))
        .count();
    assert_eq!(commonjs, 1);
    assert!(!compiler.plugins.iter().any(|p| matches!(p, Plugin::CssModules)));
    assert!(!compiler
        .plugins
        .iter()
        .any(|p| matches!(p, Plugin::JsonPChunkLoading)));
    assert_eq!(compiler.plugins.len(), 8);
}

#[test]
fn other_platform_adds_no_conditional_plugin() {
    let options = options_for(TargetPlatform::Other, Vec::new());
    let compiler = rspack(options, Vec::new());
    assert_eq!(compiler.plugins.len(), 7);
    assert!(!compiler.plugins.iter().any(|p| matches!(
        p,
        Plugin::CssModules | Plugin::JsonPChunkLoading | Plugin::CommonJsChunkLoading
    )));
}

#[test]
fn devtool_plugin_is_last() {
    for platform in [
        TargetPlatform::Web,
        TargetPlatform::Node(String::from("16")),
        TargetPlatform::Other,
    ] {
        let options = options_for(platform, vec!["a", "b", "c"]);
        let compiler = rspack(options, vec!["seed"]);
        assert!(matches!(compiler.plugins.last().unwrap(), Plugin::Devtool(_)));
    }
}

#[test]
fn user_plugins_between_externals_and_js() {
    let options = options_for(TargetPlatform::Web, vec!["A", "B"]);
    let compiler = rspack(options, Vec::new());
    let externals = compiler
        .plugins
        .iter()
        .position(|p| matches!(p, Plugin::Externals))
        .unwrap();
    assert_eq!(compiler.plugins[externals + 1], Plugin::Custom("A"));
    assert_eq!(compiler.plugins[externals + 2], Plugin::Custom("B"));
    assert_eq!(compiler.plugins[externals + 3], Plugin::Js);
}

#[test]
fn user_plugin_list_is_transferred() {
    let options = options_for(TargetPlatform::Web, vec!["A", "B"]);
    let compiler = rspack(options, Vec::new());
    assert!(compiler.options.plugins.is_empty());
    assert_eq!(compiler.plugins.len(), 11);
}

#[test]
fn argument_plugins_join_user_slot() {
    let options = options_for(TargetPlatform::Other, vec!["B"]);
    let compiler = rspack(options, vec!["A"]);
    assert!(matches!(compiler.plugins[0], Plugin::Asset(_)));
    let externals = compiler
        .plugins
        .iter()
        .position(|p| matches!(p, Plugin::Externals))
        .unwrap();
    assert_eq!(compiler.plugins[externals + 1], Plugin::Custom("A"));
    assert_eq!(compiler.plugins[externals + 2], Plugin::Custom("B"));
    assert_eq!(compiler.plugins[externals + 3], Plugin::Js);
    assert_eq!(compiler.plugins.len(), 9);
}

#[test]
fn asset_parser_options_forwarded() {
    let parser = ParserOptions {
        asset: Some(AssetParserOptions {
            data_url_condition: Some(AssetParserDataUrlOption { max_size: Some(8192) }),
        }),
    };
    let mut options = options_for(TargetPlatform::Web, Vec::new());
    options.module = ModuleOptions { parser: Some(parser) };
    let compiler = rspack(options, Vec::new());
    assert_eq!(
        compiler.plugins[0],
        Plugin::Asset(AssetConfig {
            parse_options: Some(AssetParserOptions {
                data_url_condition: Some(AssetParserDataUrlOption { max_size: Some(8192) }),
            }),
        })
    );
}

#[test]
fn options_are_kept_in_the_compiler() {
    let options = options_for(TargetPlatform::Node(String::from("16")), Vec::new());
    let compiler = rspack(options, Vec::new());
    assert_eq!(
        compiler.options.target,
        Target { platform: TargetPlatform::Node(String::from("16")) }
    );
    assert_eq!(compiler.options.output.unique_name, "main");
    assert_eq!(compiler.options.output.context, "./proj");
}
