use vstd::prelude::*;

use crate::options::{CompilerOptions, TargetPlatform};
use crate::plugin::{asset_config_of, devtool_options_of, Plugin};

verus! {

/// A caller-supplied plugin list, seen as entries of the assembled list.
pub open spec fn custom_plugins<P>(s: Seq<P>) -> Seq<Plugin<P>> {
    s.map_values(|p: P| Plugin::Custom(p))
}

/// The platform-conditional chunk-loading plugins: the Web platform gets the
/// CSS-modules runtime and JSONP chunk loading, the Node platform CommonJS
/// chunk loading, and every other platform none.
pub open spec fn platform_plugins<P>(t: TargetPlatform) -> Seq<Plugin<P>> {
    match t {
        TargetPlatform::Web => seq![Plugin::CssModules, Plugin::JsonPChunkLoading],
        TargetPlatform::Node(_) => seq![Plugin::CommonJsChunkLoading],
        TargetPlatform::Other => Seq::empty(),
    }
}

/// How many platform-conditional plugins a platform contributes.
pub open spec fn platform_plugin_count(t: TargetPlatform) -> int {
    match t {
        TargetPlatform::Web => 2,
        TargetPlatform::Node(_) => 1,
        TargetPlatform::Other => 0,
    }
}

/// The full assembled plugin list for the given build options and the
/// caller's additional plugins `extra`: the content plugins (asset, JSON),
/// the chunk-format plugin, the platform-conditional plugins, the generic
/// runtime plugin, the externals plugin, the user-supplied plugins — the
/// `extra` entries followed by the options' list, each in its own order —
/// the JavaScript-emission plugin, and the devtool plugin last.
pub open spec fn assembled_plugins<P>(options: CompilerOptions<P>, extra: Seq<P>) -> Seq<Plugin<P>> {
    seq![
        Plugin::Asset(asset_config_of(options.module)),
        Plugin::Json,
        Plugin::ArrayPushCallbackChunkFormat,
    ]
        + platform_plugins(options.target.platform)
        + seq![Plugin::Runtime, Plugin::Externals]
        + custom_plugins(extra + options.plugins@)
        + seq![
            Plugin::Js,
            Plugin::Devtool(devtool_options_of(options.devtool, options.output)),
        ]
}

/// A platform contributes exactly `platform_plugin_count` plugins.
pub proof fn lemma_platform_plugins_len<P>(t: TargetPlatform)
    ensures
        platform_plugins::<P>(t).len() == platform_plugin_count(t),
{
}

/// Moves every plugin out of `src`, in order, onto the end of `list`, each
/// wrapped as a `Custom` entry; `src` is left empty.
pub fn append_custom<P>(list: &mut Vec<Plugin<P>>, src: &mut Vec<P>)
    ensures
        final(list)@ == old(list)@ + custom_plugins(old(src)@),
        final(src)@ == Seq::<P>::empty(),
{
    let ghost list0: Seq<Plugin<P>> = list@;
    let ghost src0: Seq<P> = src@;
    while src.len() > 0
        invariant
            src0.len() >= src@.len(),
            list@ == list0 + custom_plugins(src0.take(src0.len() - src@.len())),
            src@ == src0.skip(src0.len() - src@.len()),
        decreases src@.len(),
    {
        let ghost done: int = src0.len() - src@.len();
        let p = src.remove(0);
        list.push(Plugin::Custom(p));
        proof {
            assert(p == src0[done]);
            assert(src@ =~= src0.skip(done + 1));
            assert(src0.take(done + 1) =~= src0.take(done).push(src0[done]));
            assert(custom_plugins(src0.take(done + 1)) =~= custom_plugins(src0.take(done)).push(
                Plugin::Custom(src0[done]),
            ));
        }
    }
    proof {
        assert(src0.take(src0.len() as int) =~= src0);
    }
}

/// Wrapping two user-plugin lists one after the other is wrapping their
/// concatenation.
pub proof fn lemma_custom_plugins_add<P>(left: Seq<P>, right: Seq<P>)
    ensures
        custom_plugins(left + right) == custom_plugins(left) + custom_plugins(right),
{
    assert(custom_plugins(left + right) =~= custom_plugins(left) + custom_plugins(right));
}

/// Where every entry of the assembled plugin list stands, for any build
/// options and any additional plugins: the asset, JSON and chunk-format
/// plugins first, then the platform-conditional segment, the runtime and
/// externals plugins, the user-supplied plugins, the JavaScript-emission
/// plugin, and the devtool plugin with its derived configuration last.
pub proof fn lemma_assembled_index<P>(options: CompilerOptions<P>, extra: Seq<P>)
    ensures
        ({
            let s = assembled_plugins(options, extra);
            let pc = platform_plugin_count(options.target.platform);
            let user = extra + options.plugins@;
            let u = user.len() as int;
            &&& s.len() == 7 + pc + u
            &&& s[0] == Plugin::<P>::Asset(asset_config_of(options.module))
            &&& s[1] == Plugin::<P>::Json
            &&& s[2] == Plugin::<P>::ArrayPushCallbackChunkFormat
            &&& forall|j: int|
                3 <= j < 3 + pc ==> #[trigger] s[j] == platform_plugins::<P>(
                    options.target.platform,
                )[j - 3]
            &&& s[3 + pc] == Plugin::<P>::Runtime
            &&& s[4 + pc] == Plugin::<P>::Externals
            &&& forall|j: int|
                5 + pc <= j < 5 + pc + u ==> #[trigger] s[j] == Plugin::Custom(user[j - 5 - pc])
            &&& s[5 + pc + u] == Plugin::<P>::Js
            &&& s[6 + pc + u] == Plugin::<P>::Devtool(
                devtool_options_of(options.devtool, options.output),
            )
        }),
{
    let s = assembled_plugins(options, extra);
    let pc = platform_plugin_count(options.target.platform);
    let user = extra + options.plugins@;
    let u = user.len() as int;
    lemma_platform_plugins_len::<P>(options.target.platform);
    let b = seq![
        Plugin::<P>::Asset(asset_config_of(options.module)),
        Plugin::<P>::Json,
        Plugin::<P>::ArrayPushCallbackChunkFormat,
    ];
    let c = platform_plugins::<P>(options.target.platform);
    let d = seq![Plugin::<P>::Runtime, Plugin::<P>::Externals];
    let e = custom_plugins::<P>(user);
    let f = seq![
        Plugin::<P>::Js,
        Plugin::<P>::Devtool(devtool_options_of(options.devtool, options.output)),
    ];
    assert(s == b + c + d + e + f);
    assert(b.len() == 3 && c.len() == pc && d.len() == 2 && e.len() == u && f.len() == 2);
    assert(s[0] == b[0]);
    assert(s[1] == b[1]);
    assert(s[2] == b[2]);
    assert forall|j: int| 3 <= j < 3 + pc implies #[trigger] s[j] == platform_plugins::<P>(
        options.target.platform,
    )[j - 3] by {
        assert(s[j] == c[j - 3]);
    }
    assert(s[3 + pc] == d[0]);
    assert(s[4 + pc] == d[1]);
    assert forall|j: int| 5 + pc <= j < 5 + pc + u implies #[trigger] s[j] == Plugin::Custom(
        user[j - 5 - pc],
    ) by {
        assert(s[j] == e[j - 5 - pc]);
    }
    assert(s[5 + pc + u] == f[0]);
    assert(s[6 + pc + u] == f[1]);
}

/// Only the platform-conditional segment — the `platform_plugin_count`
/// entries right after the chunk-format plugin — can hold a CSS-modules,
/// JSONP, or CommonJS chunk-loading plugin.
pub proof fn lemma_platform_conditional_segment<P>(options: CompilerOptions<P>, extra: Seq<P>)
    ensures
        forall|j: int|
            0 <= j < assembled_plugins(options, extra).len() && (#[trigger] assembled_plugins(
                options,
                extra,
            )[j] is CssModules || assembled_plugins(options, extra)[j] is JsonPChunkLoading
                || assembled_plugins(options, extra)[j] is CommonJsChunkLoading) ==> 3 <= j < 3
                + platform_plugin_count(options.target.platform) && assembled_plugins(
                options,
                extra,
            )[j] == platform_plugins::<P>(options.target.platform)[j - 3],
{
    lemma_assembled_index(options, extra);
    let s = assembled_plugins(options, extra);
    let pc = platform_plugin_count(options.target.platform);
    let user = extra + options.plugins@;
    let u = user.len() as int;
    assert forall|j: int|
        0 <= j < s.len() && (#[trigger] s[j] is CssModules || s[j] is JsonPChunkLoading
            || s[j] is CommonJsChunkLoading) implies 3 <= j < 3 + pc && s[j] == platform_plugins::<
        P,
    >(options.target.platform)[j - 3] by {
        if 5 + pc <= j < 5 + pc + u {
            assert(s[j] == Plugin::Custom(user[j - 5 - pc]));
        }
    }
}

/// For any build options targeting the Web platform, the assembled list
/// holds the CSS-modules plugin immediately followed by the JSONP
/// chunk-loading plugin, and holds no CommonJS chunk-loading plugin.
pub proof fn lemma_web_platform_plugins<P>(options: CompilerOptions<P>, extra: Seq<P>)
    requires
        options.target.platform is Web,
    ensures
        assembled_plugins(options, extra)[3] == Plugin::<P>::CssModules,
        assembled_plugins(options, extra)[4] == Plugin::<P>::JsonPChunkLoading,
        forall|j: int|
            0 <= j < assembled_plugins(options, extra).len() ==> !(#[trigger] assembled_plugins(
                options,
                extra,
            )[j] is CommonJsChunkLoading),
{
    lemma_assembled_index(options, extra);
    lemma_platform_conditional_segment(options, extra);
    let s = assembled_plugins(options, extra);
    let c = platform_plugins::<P>(options.target.platform);
    assert(c == seq![Plugin::<P>::CssModules, Plugin::<P>::JsonPChunkLoading]);
    assert(s[3] == c[0]);
    assert(s[4] == c[1]);
    assert forall|j: int| 0 <= j < s.len() implies !(#[trigger] s[j] is CommonJsChunkLoading) by {
        if s[j] is CommonJsChunkLoading {
            assert(s[j] == c[j - 3]);
            assert(c[j - 3] == c[0] || c[j - 3] == c[1]);
        }
    }
}

/// For any build options targeting the Node platform, the assembled list
/// holds exactly one CommonJS chunk-loading plugin, and neither the
/// CSS-modules nor the JSONP chunk-loading plugin.
pub proof fn lemma_node_platform_plugins<P>(options: CompilerOptions<P>, extra: Seq<P>)
    requires
        options.target.platform is Node,
    ensures
        assembled_plugins(options, extra)[3] == Plugin::<P>::CommonJsChunkLoading,
        forall|j: int|
            0 <= j < assembled_plugins(options, extra).len() && j != 3 ==> !(
            #[trigger] assembled_plugins(options, extra)[j] is CommonJsChunkLoading),
        forall|j: int|
            0 <= j < assembled_plugins(options, extra).len() ==> !(#[trigger] assembled_plugins(
                options,
                extra,
            )[j] is CssModules) && !(assembled_plugins(options, extra)[j] is JsonPChunkLoading),
{
    lemma_assembled_index(options, extra);
    lemma_platform_conditional_segment(options, extra);
    let s = assembled_plugins(options, extra);
    let c = platform_plugins::<P>(options.target.platform);
    assert(c =~= seq![Plugin::<P>::CommonJsChunkLoading]);
    assert(s[3] == c[0]);
    assert forall|j: int| 0 <= j < s.len() && j != 3 implies !(#[trigger] s[j] is CommonJsChunkLoading) by {
        if s[j] is CommonJsChunkLoading {
            assert(s[j] == c[j - 3]);
        }
    }
    assert forall|j: int| 0 <= j < s.len() implies !(#[trigger] s[j] is CssModules) && !(s[j] is JsonPChunkLoading) by {
        if s[j] is CssModules || s[j] is JsonPChunkLoading {
            assert(s[j] == c[j - 3]);
            assert(s[j] == c[0]);
        }
    }
}

/// For any build options whose platform is neither Web nor Node, the
/// assembled list holds none of the three platform-conditional plugins.
pub proof fn lemma_other_platform_plugins<P>(options: CompilerOptions<P>, extra: Seq<P>)
    requires
        !(options.target.platform is Web),
        !(options.target.platform is Node),
    ensures
        forall|j: int|
            0 <= j < assembled_plugins(options, extra).len() ==> !(#[trigger] assembled_plugins(
                options,
                extra,
            )[j] is CssModules) && !(assembled_plugins(options, extra)[j] is JsonPChunkLoading)
                && !(assembled_plugins(options, extra)[j] is CommonJsChunkLoading),
{
    lemma_platform_conditional_segment(options, extra);
    let s = assembled_plugins(options, extra);
    assert(platform_plugin_count(options.target.platform) == 0);
    assert forall|j: int| 0 <= j < s.len() implies !(#[trigger] s[j] is CssModules) && !(s[j] is JsonPChunkLoading)
        && !(s[j] is CommonJsChunkLoading) by {
        if s[j] is CssModules || s[j] is JsonPChunkLoading || s[j] is CommonJsChunkLoading {
            assert(3 <= j < 3);
        }
    }
}

/// The devtool plugin, carrying the configuration derived from the devtool
/// and output descriptors, is always the last entry of the assembled list.
pub proof fn lemma_devtool_plugin_last<P>(options: CompilerOptions<P>, extra: Seq<P>)
    ensures
        assembled_plugins(options, extra).len() > 0,
        assembled_plugins(options, extra).last() == Plugin::<P>::Devtool(
            devtool_options_of(options.devtool, options.output),
        ),
{
    lemma_assembled_index(options, extra);
}

/// The user-supplied plugins — the caller's additional plugins followed by
/// the options' list — stand in the assembled list in their own order and
/// without gaps, strictly after the externals plugin and strictly before the
/// JavaScript-emission plugin.
pub proof fn lemma_user_plugins_position<P>(options: CompilerOptions<P>, extra: Seq<P>)
    ensures
        ({
            let s = assembled_plugins(options, extra);
            let base = 5 + platform_plugin_count(options.target.platform);
            let user = extra + options.plugins@;
            let u = user.len() as int;
            &&& s[base - 1] == Plugin::<P>::Externals
            &&& forall|k: int| 0 <= k < u ==> s[base + k] == Plugin::Custom(#[trigger] user[k])
            &&& s[base + u] == Plugin::<P>::Js
        }),
{
    lemma_assembled_index(options, extra);
    let s = assembled_plugins(options, extra);
    let pc = platform_plugin_count(options.target.platform);
    let user = extra + options.plugins@;
    let u = user.len() as int;
    assert forall|k: int| 0 <= k < u implies s[5 + pc + k] == Plugin::Custom(
        #[trigger] user[k],
    ) by {
        assert(s[5 + pc + k] == Plugin::Custom(user[(5 + pc + k) - 5 - pc]));
    }
}

} // verus!
