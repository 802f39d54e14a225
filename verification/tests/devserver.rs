use rspack::{
    dev_server, devtool_plugin_options, BuildError, CompilerOptions, Devtool, DevServer,
    ModuleOptions, OutputOptions, Plugin, Target, TargetPlatform, DEV_SERVER_PORT,
};

fn options_with_context(context: &str) -> CompilerOptions<u32> {
    CompilerOptions {
        module: ModuleOptions { parser: None },
        target: Target { platform: TargetPlatform::Web },
        devtool: Devtool { inline: false, hidden: false, cheap: false, no_sources: false },
        output: OutputOptions {
            unique_name: String::from("main"),
            context: String::from(context),
        },
        plugins: Vec::new(),
    }
}

#[test]
fn dev_server_wraps_assembled_compiler() {
    let server: DevServer<u32> = dev_server(options_with_context("./proj"), Vec::new());
    assert_eq!(server.compiler.plugins.len(), 9);
    assert!(matches!(server.compiler.plugins.last().unwrap(), Plugin::Devtool(_)));
}

#[test]
fn serve_plan_propagates_build_failure() {
    let server: DevServer<u32> = dev_server(options_with_context("./proj"), Vec::new());
    let failed = BuildError { message: String::from("module graph is broken") };
    let plan = server.serve_plan(Err(failed));
    match plan {
        Err(e) => assert_eq!(e.message, "module graph is broken"),
        Ok(_) => panic!("a failed build must not produce a serving configuration"),
    }
}

#[test]
fn serve_plan_serves_dist_on_loopback() {
    let server: DevServer<u32> = dev_server(options_with_context("./proj"), Vec::new());
    let config = server.serve_plan(Ok(())).unwrap();
    assert_eq!(config.root, "./proj/dist");
    assert_eq!(config.host, (127, 0, 0, 1));
    assert_eq!(config.port, 3031);
    assert_eq!(config.port, DEV_SERVER_PORT);
}

#[test]
fn devtool_options_follow_the_descriptor() {
    let output = OutputOptions {
        unique_name: String::from("ns"),
        context: String::from("."),
    };
    let hidden_cheap = Devtool { inline: true, hidden: true, cheap: true, no_sources: true };
    let derived = devtool_plugin_options(&hidden_cheap, &output);
    assert!(!derived.append);
    assert!(!derived.columns);
    assert!(derived.inline);
    assert!(derived.no_sources);
    assert_eq!(derived.namespace, "ns");
    assert_eq!(derived.public_path, None);

    let plain = Devtool { inline: false, hidden: false, cheap: false, no_sources: false };
    let derived = devtool_plugin_options(&plain, &output);
    assert!(derived.append);
    assert!(derived.columns);
    assert!(!derived.inline);
    assert!(!derived.no_sources);
}
