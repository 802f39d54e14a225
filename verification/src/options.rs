use vstd::prelude::*;

verus! {

/// Size condition under which an asset is inlined as a data URL.
#[derive(Debug, Clone, Copy, PartialEq, Eq)]
pub struct AssetParserDataUrlOption {
    pub max_size: Option<u32>,
}

/// Parser options for asset modules.
#[derive(Debug, Clone, Copy, PartialEq, Eq)]
pub struct AssetParserOptions {
    pub data_url_condition: Option<AssetParserDataUrlOption>,
}

/// Per-module-type parser configuration.
#[derive(Debug, Clone, Copy, PartialEq, Eq)]
pub struct ParserOptions {
    pub asset: Option<AssetParserOptions>,
}

/// Module handling configuration.
#[derive(Debug, Clone, Copy, PartialEq, Eq)]
pub struct ModuleOptions {
    pub parser: Option<ParserOptions>,
}

/// Source-map descriptor. The four flags are the derived predicates the
/// devtool plugin configuration is computed from.
#[derive(Debug, Clone, Copy, PartialEq, Eq)]
pub struct Devtool {
    pub inline: bool,
    pub hidden: bool,
    pub cheap: bool,
    pub no_sources: bool,
}

impl Devtool {
    /// Whether the source map is emitted inline with the output.
    pub fn inline(&self) -> (r: bool)
        ensures
            r == self.inline,
    {
        self.inline
    }

    /// Whether the source-map reference is hidden from the emitted output.
    pub fn hidden(&self) -> (r: bool)
        ensures
            r == self.hidden,
    {
        self.hidden
    }

    /// Whether the cheap (line-only) source-map variant was requested.
    pub fn cheap(&self) -> (r: bool)
        ensures
            r == self.cheap,
    {
        self.cheap
    }

    /// Whether original source contents are left out of the source map.
    pub fn no_sources(&self) -> (r: bool)
        ensures
            r == self.no_sources,
    {
        self.no_sources
    }
}

/// The platform the bundle is produced for. Platforms outside the two known
/// ones get no platform-conditional chunk-loading plugin.
#[derive(Debug, PartialEq, Eq)]
pub enum TargetPlatform {
    Web,
    Node(String),
    Other,
}

/// Target description.
#[derive(Debug, PartialEq, Eq)]
pub struct Target {
    pub platform: TargetPlatform,
}

/// Output descriptor: the unique namespace name and the context (project
/// root) directory the build output is resolved against.
#[derive(Debug, PartialEq, Eq)]
pub struct OutputOptions {
    pub unique_name: String,
    pub context: String,
}

/// The build options consumed once by the assembler. `plugins` is the
/// caller-supplied list of additional plugins; ownership of it transfers
/// into the assembled list.
#[derive(Debug, PartialEq, Eq)]
pub struct CompilerOptions<P> {
    pub module: ModuleOptions,
    pub target: Target,
    pub devtool: Devtool,
    pub output: OutputOptions,
    pub plugins: Vec<P>,
}

} // verus!
