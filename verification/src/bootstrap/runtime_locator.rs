//! Finding the runtime's plugins from where the host runs: a packaged bundle
//! (the host in `bin/`, the plugins in `plugins/` beside it) or a build tree
//! (the plugins in the workspace's target directory).
use vstd::prelude::*;
use crate::host_path::{file_name_of, has_parent_dir, is_absolute_path, join_path, parent_of, path_joined, relative_part, splits_at};
use crate::inventory::model::opt_view;
use crate::text::{has_prefix, occurs_in};
use super::model::{PluginPaths, RuntimeLayout, RuntimeLayoutKind};

verus! {

/// Where the host runs from, and the build settings that move its target
/// directory.
#[derive(Debug, PartialEq, Eq)]
pub struct RuntimeLocatorInput {
    pub executable_path: String,
    pub manifest_dir: String,
    pub cargo_target_dir: Option<String>,
    pub cargo_build_target: Option<String>,
}

/// Why no layout was found.
#[derive(Debug, Clone, Copy, PartialEq, Eq, Structural)]
pub enum LocateError {
    /// The executable path has no parent directory.
    ExecutableHasNoParent,
    /// The bundle's `bin` directory has no parent.
    BundleRootMissing,
    /// The manifest directory is not two levels inside a workspace.
    WorkspaceRootMissing,
}

/// What the platform's path functions answered for the host's paths: the
/// executable's directory and its name, that directory's parent (the bundle
/// root) and its name, the manifest directory's parent and grandparent (the
/// workspace root), and whether the target directory is absolute.
#[derive(Debug, PartialEq, Eq)]
pub struct LocatorParts {
    pub executable_dir: Option<String>,
    pub executable_dir_name: Option<String>,
    pub bundle_root: Option<String>,
    pub bundle_root_name: Option<String>,
    pub manifest_parent: Option<String>,
    pub workspace_root: Option<String>,
    pub target_dir_absolute: bool,
}

/// A suffix of executables that adds no path component: no separator or
/// drive mark in it.
pub open spec fn exe_suffix_ok(suffix: Seq<char>) -> bool {
    forall|i: int| 0 <= i < suffix.len() ==> #[trigger] suffix[i] != '/' && suffix[i] != '\\' && suffix[i] != ':'
}

/// The plugin executables in `dir`, each its name and the platform's
/// executable suffix.
pub open spec fn plugins_in(p: PluginPaths, dir: Seq<char>, suffix: Seq<char>) -> bool {
    &&& path_joined(p.capture@, dir, "plugin-capture-window"@ + suffix)
    &&& path_joined(p.capture_direct@, dir, "plugin-capture-direct"@ + suffix)
    &&& path_joined(p.control_ble@, dir, "plugin-control-ble"@ + suffix)
    &&& path_joined(p.control_fallback@, dir, "plugin-control-window-bridge"@ + suffix)
    &&& p.grounding matches Some(g) && path_joined(g@, dir, "plugin-grounding-core"@ + suffix)
}

/// `parent` is a shorter start of `path`.
pub open spec fn strictly_under(path: Seq<char>, parent: Seq<char>) -> bool {
    has_prefix(path, parent) && parent.len() < path.len()
}

proof fn lemma_named_part(name: Seq<char>, suffix: Seq<char>)
    requires
        name.len() > 0,
        name[0] == 'p',
        forall|i: int| 0 <= i < name.len() ==> #[trigger] name[i] != ':',
        exe_suffix_ok(suffix),
    ensures
        relative_part(name + suffix),
{
    let whole = name + suffix;
    assert forall|i: int| 0 <= i < whole.len() implies #[trigger] whole[i] != ':' by {
        if i < name.len() {
            assert(whole[i] == name[i]);
        } else {
            assert(whole[i] == suffix[i - name.len()]);
        }
    }
}

fn plugin_path(dir: &str, name: &str, exe_suffix: &str) -> (r: String)
    requires
        name@.len() > 0,
        name@[0] == 'p',
        forall|i: int| 0 <= i < name@.len() ==> #[trigger] name@[i] != ':',
        exe_suffix_ok(exe_suffix@),
    ensures
        path_joined(r@, dir@, name@ + exe_suffix@),
{
    let file = crate::text::joined(name, exe_suffix);
    proof {
        lemma_named_part(name@, exe_suffix@);
    }
    join_path(dir, file.as_str())
}

/// The plugin executables in `dir`, with no direct runtime root yet.
pub fn plugin_paths_for_dir(dir: &str, exe_suffix: &str) -> (r: PluginPaths)
    requires
        exe_suffix_ok(exe_suffix@),
    ensures
        plugins_in(r, dir@, exe_suffix@),
        r.capture_direct_runtime_root is None,
{
    proof {
        reveal_strlit("plugin-capture-window");
        reveal_strlit("plugin-capture-direct");
        reveal_strlit("plugin-control-ble");
        reveal_strlit("plugin-control-window-bridge");
        reveal_strlit("plugin-grounding-core");
    }
    PluginPaths {
        capture: plugin_path(dir, "plugin-capture-window", exe_suffix),
        capture_direct: plugin_path(dir, "plugin-capture-direct", exe_suffix),
        capture_direct_runtime_root: None,
        control_ble: plugin_path(dir, "plugin-control-ble", exe_suffix),
        control_fallback: plugin_path(dir, "plugin-control-window-bridge", exe_suffix),
        grounding: Some(plugin_path(dir, "plugin-grounding-core", exe_suffix)),
    }
}

/// The target directory of a workspace build: the given one as it is when it
/// is absolute, else joined to the workspace root; without one, the
/// workspace's `target`. (What a drive-relative target directory joins to is
/// the platform's choice.)
pub open spec fn target_dir_ok(root: Seq<char>, input: RuntimeLocatorInput, absolute: bool, target: Seq<char>) -> bool {
    match input.cargo_target_dir {
        Some(t) => if absolute {
            target == t@
        } else {
            relative_part(t@) || t@.len() == 0 ==> path_joined(target, root, t@)
        },
        None => path_joined(target, root, "target"@),
    }
}

/// The directory of the build target inside the target directory, if one is
/// set. (What an absolute build target does is the platform's choice.)
pub open spec fn build_dir_ok(input: RuntimeLocatorInput, target: Seq<char>, built: Seq<char>) -> bool {
    match input.cargo_build_target {
        Some(b) => relative_part(b@) || b@.len() == 0 ==> path_joined(built, target, b@),
        None => built == target,
    }
}

/// The plugins of a workspace build: `debug` inside the build target's
/// directory of the target directory.
pub open spec fn workspace_plugin_dir(root: Seq<char>, input: RuntimeLocatorInput, absolute: bool, dir: Seq<char>) -> bool {
    exists|target: Seq<char>, built: Seq<char>|
        #[trigger] target_dir_ok(root, input, absolute, target) && #[trigger] build_dir_ok(input, target, built)
            && path_joined(dir, built, "debug"@)
}

/// The name under which a bundle records the root of the direct receiver's
/// runtime.
pub open spec fn direct_root_key() -> Seq<char> {
    "direct_runtime_root"@
}

/// The target a bundle was packaged for: its root's name after
/// `ios-control-`, when it has one.
pub open spec fn bundle_target(root_name: Option<Seq<char>>) -> Option<Seq<char>> {
    match root_name {
        Some(n) => if has_prefix(n, "ios-control-"@) && n.len() > 12 {
            Some(n.subrange(12, n.len() as int))
        } else {
            None
        },
        None => None,
    }
}

/// `d` is `runtime/uxplay` under `root`.
pub open spec fn uxplay_dir(d: Seq<char>, root: Seq<char>) -> bool {
    exists|runtime: Seq<char>| #[trigger] path_joined(runtime, root, "runtime"@) && path_joined(d, runtime, "uxplay"@)
}

/// The direct receiver's runtime root is `d` in the plugin paths and in the
/// helper paths, and nothing else is a helper.
pub open spec fn records_direct_root(l: RuntimeLayout, d: Seq<char>) -> bool {
    &&& l.plugin_paths.capture_direct_runtime_root matches Some(x) && x@ == d
    &&& l.helper_paths@.len() == 1
    &&& l.helper_paths@[0].0@ == direct_root_key()
    &&& l.helper_paths@[0].1@ == d
}

/// A bundle rooted at `root`: its plugins in `plugins`, and, when the root is
/// named for a target, the direct receiver's runtime in
/// `runtime/uxplay/<target>` (no helper paths otherwise).
pub open spec fn bundle_layout(l: RuntimeLayout, root: Seq<char>, root_name: Option<Seq<char>>, suffix: Seq<char>) -> bool {
    &&& l.kind == RuntimeLayoutKind::Bundle
    &&& l.root@ == root
    &&& exists|plugins: Seq<char>| #[trigger] path_joined(plugins, root, "plugins"@) && plugins_in(l.plugin_paths, plugins, suffix)
    &&& match bundle_target(root_name) {
        Some(t) => exists|d: Seq<char>, ux: Seq<char>|
            #[trigger] uxplay_dir(ux, root) && (relative_part(t) ==> path_joined(d, ux, t)) && #[trigger] records_direct_root(l, d),
        None => l.plugin_paths.capture_direct_runtime_root is None && l.helper_paths@.len() == 0,
    }
}

/// A workspace rooted at `root`: its plugins in the build's `debug`
/// directory, and the direct receiver's runtime in `runtime/uxplay` under the
/// workspace.
pub open spec fn workspace_layout(l: RuntimeLayout, root: Seq<char>, input: RuntimeLocatorInput, absolute: bool, suffix: Seq<char>) -> bool {
    &&& l.kind == RuntimeLayoutKind::Workspace
    &&& l.root@ == root
    &&& exists|dir: Seq<char>| #[trigger] workspace_plugin_dir(root, input, absolute, dir) && plugins_in(l.plugin_paths, dir, suffix)
    &&& exists|d: Seq<char>| #[trigger] uxplay_dir(d, root) && records_direct_root(l, d)
}

/// The layout for what the path functions answered: no parent of the
/// executable is an error; an executable in a directory named `bin` is a
/// bundle rooted at that directory's parent (an error without one); otherwise
/// a workspace rooted at the manifest directory's grandparent (an error
/// without one).
pub open spec fn layout_spec(input: RuntimeLocatorInput, suffix: Seq<char>, parts: LocatorParts, r: Result<RuntimeLayout, LocateError>) -> bool {
    match parts.executable_dir {
        None => r == Err::<RuntimeLayout, LocateError>(LocateError::ExecutableHasNoParent),
        Some(_) => if opt_view(parts.executable_dir_name) == Some("bin"@) {
            match parts.bundle_root {
                None => r == Err::<RuntimeLayout, LocateError>(LocateError::BundleRootMissing),
                Some(root) => r matches Ok(l) && bundle_layout(l, root@, opt_view(parts.bundle_root_name), suffix),
            }
        } else {
            match (parts.manifest_parent, parts.workspace_root) {
                (Some(_), Some(root)) => r matches Ok(l) && workspace_layout(
                    l,
                    root@,
                    input,
                    parts.target_dir_absolute,
                    suffix,
                ),
                _ => r == Err::<RuntimeLayout, LocateError>(LocateError::WorkspaceRootMissing),
            }
        },
    }
}

/// A name is a path's last component: not empty, and found in the path; for
/// a path `dir/name` of plain parts, exactly that `name`.
pub open spec fn name_of(path: Seq<char>, name: Option<Seq<char>>) -> bool {
    &&& name matches Some(n) ==> n.len() > 0 && occurs_in(path, n)
    &&& forall|d: Seq<char>, n: Seq<char>| #[trigger] splits_at(path, d, n) ==> name == Some(n)
}

/// A parent is a shorter start of the path; an empty path has none, a path
/// with a directory before its last component has a non-empty one, and a
/// path `dir/name` of plain parts has exactly `dir`.
pub open spec fn parent_ok(path: Seq<char>, parent: Option<Seq<char>>) -> bool {
    &&& path.len() == 0 ==> parent is None
    &&& parent matches Some(p) ==> strictly_under(path, p)
    &&& has_parent_dir(path) ==> (parent matches Some(p) && p.len() > 0)
    &&& forall|d: Seq<char>, n: Seq<char>| #[trigger] splits_at(path, d, n) ==> parent == Some(d)
}

/// What the path functions can have answered for the input: each parent and
/// name of the path before it (none where there was no path to ask about),
/// and no absolute target directory where there is none or it is empty.
pub open spec fn parts_of(input: RuntimeLocatorInput, parts: LocatorParts) -> bool {
    &&& parent_ok(input.executable_path@, opt_view(parts.executable_dir))
    &&& match parts.executable_dir {
        Some(d) => name_of(d@, opt_view(parts.executable_dir_name)) && parent_ok(d@, opt_view(parts.bundle_root)),
        None => parts.executable_dir_name is None && parts.bundle_root is None,
    }
    &&& match parts.bundle_root {
        Some(b) => name_of(b@, opt_view(parts.bundle_root_name)),
        None => parts.bundle_root_name is None,
    }
    &&& parent_ok(input.manifest_dir@, opt_view(parts.manifest_parent))
    &&& match parts.manifest_parent {
        Some(m) => parent_ok(m@, opt_view(parts.workspace_root)),
        None => parts.workspace_root is None,
    }
    &&& parts.target_dir_absolute ==> (input.cargo_target_dir matches Some(t) && t@.len() > 0)
}

fn owned_opt(s: &Option<String>) -> (r: Option<String>)
    ensures
        opt_view(r) == opt_view(*s),
{
    match s {
        Some(v) => Some(v.clone()),
        None => None,
    }
}

/// The direct receiver's runtime under a bundle named for its target.
fn bundle_direct_root(root: &str, root_name: &Option<String>) -> (r: Option<String>)
    ensures
        match bundle_target(opt_view(*root_name)) {
            Some(t) => r matches Some(d) && exists|ux: Seq<char>|
                #[trigger] uxplay_dir(ux, root@) && (relative_part(t) ==> path_joined(d@, ux, t)),
            None => r is None,
        },
{
    proof {
        reveal_strlit("ios-control-");
        reveal_strlit("runtime");
        reveal_strlit("uxplay");
    }
    let name = match root_name {
        Some(n) => n,
        None => return None,
    };
    let len = name.unicode_len();
    if !(crate::text::starts_with_text(name.as_str(), "ios-control-") && len > 12) {
        return None;
    }
    let target = name.substring_char(12, len);
    let runtime = join_path(root, "runtime");
    let ux = join_path(runtime.as_str(), "uxplay");
    assert(uxplay_dir(ux@, root@));
    let d = join_path(ux.as_str(), target);
    Some(d)
}

/// The layout for what the platform's path functions answered about the
/// input's paths.
#[verifier::rlimit(60)]
pub fn layout_from_parts(input: &RuntimeLocatorInput, exe_suffix: &str, parts: &LocatorParts) -> (r: Result<RuntimeLayout, LocateError>)
    requires
        exe_suffix_ok(exe_suffix@),
    ensures
        layout_spec(*input, exe_suffix@, *parts, r),
{
    proof {
        reveal_strlit("bin");
        reveal_strlit("plugins");
        reveal_strlit("target");
        reveal_strlit("debug");
        reveal_strlit("runtime");
        reveal_strlit("uxplay");
        reveal_strlit("direct_runtime_root");
    }
    if parts.executable_dir.is_none() {
        return Err(LocateError::ExecutableHasNoParent);
    }
    let in_bin = match &parts.executable_dir_name {
        Some(name) => crate::text::same_text(name.as_str(), "bin"),
        None => false,
    };
    if in_bin {
        let root = match &parts.bundle_root {
            Some(root) => root.clone(),
            None => return Err(LocateError::BundleRootMissing),
        };
        let plugins = join_path(root.as_str(), "plugins");
        let mut plugin_paths = plugin_paths_for_dir(plugins.as_str(), exe_suffix);
        let direct = bundle_direct_root(root.as_str(), &parts.bundle_root_name);
        let mut helper_paths: Vec<(String, String)> = Vec::new();
        match &direct {
            Some(d) => {
                helper_paths.push((crate::text::owned("direct_runtime_root"), d.clone()));
            },
            None => {},
        }
        plugin_paths.capture_direct_runtime_root = direct;
        let layout = RuntimeLayout { kind: RuntimeLayoutKind::Bundle, root, plugin_paths, helper_paths };
        assert(path_joined(plugins@, layout.root@, "plugins"@) && plugins_in(layout.plugin_paths, plugins@, exe_suffix@));
        proof {
            match bundle_target(opt_view(parts.bundle_root_name)) {
                Some(t) => {
                    let d = layout.plugin_paths.capture_direct_runtime_root->0@;
                    assert(records_direct_root(layout, d));
                },
                None => {},
            }
        }
        return Ok(layout);
    }
    let workspace_root = match (&parts.manifest_parent, &parts.workspace_root) {
        (Some(_), Some(root)) => root.clone(),
        _ => return Err(LocateError::WorkspaceRootMissing),
    };
    let target_dir = match &input.cargo_target_dir {
        Some(path) => if parts.target_dir_absolute {
            path.clone()
        } else {
            join_path(workspace_root.as_str(), path.as_str())
        },
        None => join_path(workspace_root.as_str(), "target"),
    };
    let ghost target_view = target_dir@;
    let built = match &input.cargo_build_target {
        Some(target) => join_path(target_dir.as_str(), target.as_str()),
        None => target_dir,
    };
    let debug = join_path(built.as_str(), "debug");
    let mut plugin_paths = plugin_paths_for_dir(debug.as_str(), exe_suffix);
    let runtime = join_path(workspace_root.as_str(), "runtime");
    let ux = join_path(runtime.as_str(), "uxplay");
    assert(uxplay_dir(ux@, workspace_root@));
    let mut helper_paths: Vec<(String, String)> = Vec::new();
    helper_paths.push((crate::text::owned("direct_runtime_root"), ux.clone()));
    plugin_paths.capture_direct_runtime_root = Some(ux);
    let layout = RuntimeLayout { kind: RuntimeLayoutKind::Workspace, root: workspace_root, plugin_paths, helper_paths };
    assert(workspace_plugin_dir(layout.root@, *input, parts.target_dir_absolute, debug@)) by {
        assert(target_dir_ok(layout.root@, *input, parts.target_dir_absolute, target_view));
        assert(build_dir_ok(*input, target_view, built@));
    }
    assert(plugins_in(layout.plugin_paths, debug@, exe_suffix@));
    assert(records_direct_root(layout, ux@));
    Ok(layout)
}

/// Where the runtime is, from where the host runs (see [`layout_from_parts`]):
/// the executable's directory, its name and parent, the bundle root's name,
/// and the manifest directory's parent and grandparent are asked of the
/// platform's path functions, as is whether the target directory is absolute.
/// Those answers depend on the platform; the result is the layout for
/// whatever they were.
pub fn locate_runtime_layout(input: RuntimeLocatorInput, exe_suffix: &str) -> (r: Result<RuntimeLayout, LocateError>)
    requires
        exe_suffix_ok(exe_suffix@),
    ensures
        exists|parts: LocatorParts| #[trigger] parts_of(input, parts) && layout_spec(input, exe_suffix@, parts, r),
        input.executable_path@.len() == 0 ==> r == Err::<RuntimeLayout, LocateError>(LocateError::ExecutableHasNoParent),
{
    let executable_dir = parent_of(input.executable_path.as_str());
    let (executable_dir_name, bundle_root) = match &executable_dir {
        Some(d) => (file_name_of(d.as_str()), parent_of(d.as_str())),
        None => (None, None),
    };
    let bundle_root_name = match &bundle_root {
        Some(b) => file_name_of(b.as_str()),
        None => None,
    };
    let manifest_parent = parent_of(input.manifest_dir.as_str());
    let workspace_root = match &manifest_parent {
        Some(m) => parent_of(m.as_str()),
        None => None,
    };
    let target_dir_absolute = match &input.cargo_target_dir {
        Some(t) => is_absolute_path(t.as_str()),
        None => false,
    };
    let parts = LocatorParts {
        executable_dir,
        executable_dir_name,
        bundle_root,
        bundle_root_name,
        manifest_parent,
        workspace_root,
        target_dir_absolute,
    };
    assert(parts_of(input, parts));
    layout_from_parts(&input, exe_suffix, &parts)
}

} // verus!
