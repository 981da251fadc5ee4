//! The privileged process launcher: the launch specification for the
//! speech-capture worker, the allow-listed environment that is forwarded to
//! it, and the command line that invokes the privilege-elevation helper.
//!
//! The surrounding program resolves the directory of its own binary and
//! reads its environment (both outside work), hands the plain values in,
//! and turns the returned [`LaunchSpec`] into a real child process.

use vstd::prelude::*;
use vstd::string::StringExecFns;

verus! {

/// Why a requested start was refused or failed.
#[derive(Clone, Debug)]
pub enum StartError {
    /// The API key is empty: the transition is refused.
    ConfigMissing,
    /// The directory holding the running application binary could not be
    /// determined.
    PathResolution,
    /// The privilege-elevation helper, or the worker under it, could not be
    /// started; `detail` is the launcher's own description of the failure.
    Spawn { detail: String },
}

/// One `NAME=value` assignment forwarded to the worker's environment.
pub struct EnvAssignment {
    pub name: String,
    pub value: String,
}

/// The allow-listed environment variables, as observed in the controlling
/// process's own environment when a start is requested. An unset variable
/// is `None` and is never forwarded, not even as an empty value. The API
/// key travels separately, since it may come from the persisted
/// configuration rather than from the environment.
pub struct EnvSnapshot {
    pub pulse_runtime_path: Option<String>,
    pub xdg_runtime_dir: Option<String>,
    pub display: Option<String>,
    pub wayland_display: Option<String>,
    pub home: Option<String>,
    pub user: Option<String>,
}

/// The mathematical model of a snapshot: each optional variable's value as
/// a sequence of characters.
pub struct EnvSnapshotModel {
    pub pulse_runtime_path: Option<Seq<char>>,
    pub xdg_runtime_dir: Option<Seq<char>>,
    pub display: Option<Seq<char>>,
    pub wayland_display: Option<Seq<char>>,
    pub home: Option<Seq<char>>,
    pub user: Option<Seq<char>>,
}

impl View for EnvSnapshot {
    type V = EnvSnapshotModel;

    open spec fn view(&self) -> EnvSnapshotModel {
        EnvSnapshotModel {
            pulse_runtime_path: self.pulse_runtime_path.deep_view(),
            xdg_runtime_dir: self.xdg_runtime_dir.deep_view(),
            display: self.display.deep_view(),
            wayland_display: self.wayland_display.deep_view(),
            home: self.home.deep_view(),
            user: self.user.deep_view(),
        }
    }
}

impl EnvSnapshot {
    /// A snapshot in which no optional variable is set.
    pub fn empty() -> (s: EnvSnapshot)
        ensures
            s@.pulse_runtime_path is None,
            s@.xdg_runtime_dir is None,
            s@.display is None,
            s@.wayland_display is None,
            s@.home is None,
            s@.user is None,
    {
        EnvSnapshot {
            pulse_runtime_path: None,
            xdg_runtime_dir: None,
            display: None,
            wayland_display: None,
            home: None,
            user: None,
        }
    }
}

/// Everything needed to start the worker: the privilege-elevation helper,
/// the forwarded environment, the resolved worker path, and the worker's
/// one fixed argument. Constructed fresh on every start; never retained.
pub struct LaunchSpec {
    pub helper: String,
    pub env: Vec<EnvAssignment>,
    pub executable_path: String,
    pub fixed_argument: String,
}

/// The mathematical model of a launch specification.
#[verifier::ext_equal]
pub struct LaunchPlan {
    pub helper: Seq<char>,
    pub env: Seq<(Seq<char>, Seq<char>)>,
    pub executable_path: Seq<char>,
    pub fixed_argument: Seq<char>,
}

/// The model of a sequence of assignments: name and value of each, in
/// order.
pub open spec fn env_entries(env: Seq<EnvAssignment>) -> Seq<(Seq<char>, Seq<char>)> {
    env.map_values(|a: EnvAssignment| (a.name@, a.value@))
}

impl View for LaunchSpec {
    type V = LaunchPlan;

    open spec fn view(&self) -> LaunchPlan {
        LaunchPlan {
            helper: self.helper@,
            env: env_entries(self.env@),
            executable_path: self.executable_path@,
            fixed_argument: self.fixed_argument@,
        }
    }
}

/// The fixed set of variable names that may be forwarded to the worker.
pub open spec fn allowlist() -> Seq<Seq<char>> {
    seq![
        "DEEPGRAM_API_KEY"@,
        "PULSE_RUNTIME_PATH"@,
        "XDG_RUNTIME_DIR"@,
        "DISPLAY"@,
        "WAYLAND_DISPLAY"@,
        "HOME"@,
        "USER"@,
    ]
}

/// The allow-list as runtime values, for the code that reads the
/// environment.
pub fn allowed_names() -> (names: Vec<&'static str>)
    ensures
        names.deep_view() == allowlist(),
{
    let mut names: Vec<&'static str> = Vec::new();
    names.push("DEEPGRAM_API_KEY");
    names.push("PULSE_RUNTIME_PATH");
    names.push("XDG_RUNTIME_DIR");
    names.push("DISPLAY");
    names.push("WAYLAND_DISPLAY");
    names.push("HOME");
    names.push("USER");
    proof {
        assert(names.deep_view() =~= allowlist());
    }
    names
}

/// The entries a single optional variable contributes: one when it is set,
/// none when it is not.
pub open spec fn optional_entry(name: Seq<char>, value: Option<Seq<char>>) -> Seq<
    (Seq<char>, Seq<char>),
> {
    match value {
        Some(v) => seq![(name, v)],
        None => Seq::empty(),
    }
}

/// The environment forwarded to the worker: the API key first, then each
/// allow-listed variable that the snapshot holds, in a fixed order.
pub open spec fn planned_env(api_key: Seq<char>, snap: EnvSnapshotModel) -> Seq<
    (Seq<char>, Seq<char>),
> {
    seq![("DEEPGRAM_API_KEY"@, api_key)] + optional_entry(
        "PULSE_RUNTIME_PATH"@,
        snap.pulse_runtime_path,
    ) + optional_entry("XDG_RUNTIME_DIR"@, snap.xdg_runtime_dir) + optional_entry(
        "DISPLAY"@,
        snap.display,
    ) + optional_entry("WAYLAND_DISPLAY"@, snap.wayland_display) + optional_entry(
        "HOME"@,
        snap.home,
    ) + optional_entry("USER"@, snap.user)
}

/// The worker binary's path: the directory of the running application
/// binary, joined with the fixed worker name.
pub open spec fn worker_path_model(exe_dir: Seq<char>) -> Seq<char> {
    exe_dir + "/"@ + "voice-keyboard"@
}

/// The view of an optional borrowed directory path.
pub open spec fn dir_view(dir: Option<&String>) -> Option<Seq<char>> {
    match dir {
        Some(d) => Some(d@),
        None => None,
    }
}

/// What a start request must produce: the launch plan when the API key is
/// non-empty and the binary's directory is known, and the exact refusal
/// otherwise.
pub open spec fn plan_launch(
    api_key: Seq<char>,
    snap: EnvSnapshotModel,
    exe_dir: Option<Seq<char>>,
) -> Result<LaunchPlan, StartError> {
    if api_key.len() == 0 {
        Err(StartError::ConfigMissing)
    } else {
        match exe_dir {
            None => Err(StartError::PathResolution),
            Some(dir) => Ok(
                LaunchPlan {
                    helper: "pkexec"@,
                    env: planned_env(api_key, snap),
                    executable_path: worker_path_model(dir),
                    fixed_argument: "--test-stt"@,
                },
            ),
        }
    }
}

/// Join the application binary's directory with the worker's name.
pub fn worker_path(exe_dir: &String) -> (p: String)
    ensures
        p@ == worker_path_model(exe_dir@),
{
    let mut p = exe_dir.clone();
    p.append("/");
    p.append("voice-keyboard");
    p
}

/// Append one assignment that is always forwarded.
fn push_required(env: &mut Vec<EnvAssignment>, name: &str, value: &String)
    ensures
        env_entries(final(env)@) == env_entries(old(env)@) + seq![(name@, value@)],
{
    env.push(EnvAssignment { name: name.to_owned(), value: value.clone() });
    proof {
        assert(env_entries(env@) =~= env_entries(old(env)@) + seq![(name@, value@)]);
    }
}

/// Append the assignment of one optional variable: exactly one entry when
/// it is set, none when it is not.
fn push_optional(env: &mut Vec<EnvAssignment>, name: &str, value: &Option<String>)
    ensures
        env_entries(final(env)@) == env_entries(old(env)@) + optional_entry(
            name@,
            value.deep_view(),
        ),
{
    match value {
        Some(v) => {
            push_required(env, name, v);
            proof {
                assert(env_entries(env@) =~= env_entries(old(env)@) + optional_entry(
                    name@,
                    value.deep_view(),
                ));
            }
        },
        None => {
            proof {
                assert(env_entries(env@) =~= env_entries(old(env)@) + optional_entry(
                    name@,
                    value.deep_view(),
                ));
            }
        },
    }
}

/// Build the forwarded environment from the API key and the snapshot.
fn build_env(api_key: &String, snapshot: &EnvSnapshot) -> (env: Vec<EnvAssignment>)
    ensures
        env_entries(env@) == planned_env(api_key@, snapshot@),
{
    let mut env: Vec<EnvAssignment> = Vec::new();
    proof {
        assert(env_entries(env@) =~= Seq::<(Seq<char>, Seq<char>)>::empty());
    }
    push_required(&mut env, "DEEPGRAM_API_KEY", api_key);
    push_optional(&mut env, "PULSE_RUNTIME_PATH", &snapshot.pulse_runtime_path);
    push_optional(&mut env, "XDG_RUNTIME_DIR", &snapshot.xdg_runtime_dir);
    push_optional(&mut env, "DISPLAY", &snapshot.display);
    push_optional(&mut env, "WAYLAND_DISPLAY", &snapshot.wayland_display);
    push_optional(&mut env, "HOME", &snapshot.home);
    push_optional(&mut env, "USER", &snapshot.user);
    proof {
        assert(env_entries(env@) =~= planned_env(api_key@, snapshot@));
    }
    env
}

/// Build the launch specification for a start request, or refuse it:
/// with an empty API key the refusal is `ConfigMissing`; with an unknown
/// binary directory it is `PathResolution`; otherwise the start is owed
/// and the returned specification is exactly the planned one.
pub fn build_launch_spec(
    api_key: &String,
    snapshot: &EnvSnapshot,
    exe_dir: Option<&String>,
) -> (r: Result<LaunchSpec, StartError>)
    ensures
        r matches Ok(s) ==> plan_launch(api_key@, snapshot@, dir_view(exe_dir)) matches Ok(p)
            && s@ == p,
        r matches Err(e) ==> plan_launch(api_key@, snapshot@, dir_view(exe_dir)) == Err::<
            LaunchPlan,
            StartError,
        >(e),
        r is Ok <==> (api_key@.len() > 0 && exe_dir is Some),
{
    if api_key.as_str().is_empty() {
        return Err(StartError::ConfigMissing);
    }
    match exe_dir {
        None => Err(StartError::PathResolution),
        Some(dir) => {
            let built = LaunchSpec {
                helper: "pkexec".to_owned(),
                env: build_env(api_key, snapshot),
                executable_path: worker_path(dir),
                fixed_argument: "--test-stt".to_owned(),
            };
            proof {
                assert(built@ =~= plan_launch(
                    api_key@,
                    snapshot@,
                    dir_view(exe_dir),
                )->Ok_0);
            }
            Ok(built)
        },
    }
}

/// The text of one assignment on the helper's command line.
pub open spec fn assignment_text(entry: (Seq<char>, Seq<char>)) -> Seq<char> {
    entry.0 + "="@ + entry.1
}

/// The rendering of each forwarded assignment, in order.
pub open spec fn rendered_env(env: Seq<(Seq<char>, Seq<char>)>) -> Seq<Seq<char>> {
    env.map_values(|e: (Seq<char>, Seq<char>)| assignment_text(e))
}

/// The helper's argument list: `env`, one `NAME=value` argument per
/// forwarded variable, the worker's path, and its fixed argument.
pub open spec fn argv_model(p: LaunchPlan) -> Seq<Seq<char>> {
    seq!["env"@] + rendered_env(p.env) + seq![p.executable_path, p.fixed_argument]
}

/// Render the launch specification as the privilege-elevation helper's
/// argument list.
pub fn helper_argv(plan: &LaunchSpec) -> (argv: Vec<String>)
    ensures
        argv.deep_view() == argv_model(plan@),
{
    let mut argv: Vec<String> = Vec::new();
    argv.push("env".to_owned());
    let mut i: usize = 0;
    while i < plan.env.len()
        invariant
            0 <= i <= plan.env.len(),
            argv@.len() == i + 1,
            argv@[0]@ == "env"@,
            forall|j: int|
                1 <= j < argv@.len() ==> (#[trigger] argv@[j])@ == rendered_env(plan@.env)[j - 1],
        decreases plan.env.len() - i,
    {
        let entry = &plan.env[i];
        let mut rendered = entry.name.clone();
        rendered.append("=");
        rendered.append(entry.value.as_str());
        argv.push(rendered);
        proof {
            let entries = plan@.env;
            assert(entries[i as int] == (plan.env@[i as int].name@, plan.env@[i as int].value@));
            assert(rendered@ == assignment_text(entries[i as int]));
            assert(rendered_env(entries)[i as int] == assignment_text(entries[i as int]));
        }
        i = i + 1;
    }
    argv.push(plan.executable_path.clone());
    argv.push(plan.fixed_argument.clone());
    proof {
        let model = argv_model(plan@);
        assert(rendered_env(plan@.env).len() == plan.env@.len());
        assert forall|j: int| 0 <= j < argv@.len() implies argv.deep_view()[j] == model[j] by {
            assert(argv.deep_view()[j] == argv@[j]@);
        }
        assert(argv.deep_view() =~= model);
    }
    argv
}

/// One sequence contains whatever either of its halves contains.
proof fn lemma_add_contains<T>(a: Seq<T>, b: Seq<T>, x: T)
    ensures
        a.contains(x) ==> (a + b).contains(x),
        b.contains(x) ==> (a + b).contains(x),
{
    if a.contains(x) {
        let i = choose|i: int| 0 <= i < a.len() && a[i] == x;
        assert((a + b)[i] == x);
    }
    if b.contains(x) {
        let i = choose|i: int| 0 <= i < b.len() && b[i] == x;
        assert((a + b)[a.len() + i] == x);
    }
}

/// Law: the forwarded environment is exactly the allow-list filtered by
/// presence. The API key is always forwarded; every other allow-listed
/// variable appears exactly when the snapshot holds it, with the
/// snapshot's value; nothing else appears, and an unset variable is
/// absent rather than forwarded empty.
pub proof fn lemma_env_forwarding_exact(api_key: Seq<char>, snap: EnvSnapshotModel)
    ensures
        forall|entry: (Seq<char>, Seq<char>)|
            planned_env(api_key, snap).contains(entry) <==> {
                ||| entry == ("DEEPGRAM_API_KEY"@, api_key)
                ||| (entry.0 == "PULSE_RUNTIME_PATH"@ && snap.pulse_runtime_path == Some(
                    entry.1,
                ))
                ||| (entry.0 == "XDG_RUNTIME_DIR"@ && snap.xdg_runtime_dir == Some(entry.1))
                ||| (entry.0 == "DISPLAY"@ && snap.display == Some(entry.1))
                ||| (entry.0 == "WAYLAND_DISPLAY"@ && snap.wayland_display == Some(entry.1))
                ||| (entry.0 == "HOME"@ && snap.home == Some(entry.1))
                ||| (entry.0 == "USER"@ && snap.user == Some(entry.1))
            },
{
    let s0 = seq![("DEEPGRAM_API_KEY"@, api_key)];
    let s1 = optional_entry("PULSE_RUNTIME_PATH"@, snap.pulse_runtime_path);
    let s2 = optional_entry("XDG_RUNTIME_DIR"@, snap.xdg_runtime_dir);
    let s3 = optional_entry("DISPLAY"@, snap.display);
    let s4 = optional_entry("WAYLAND_DISPLAY"@, snap.wayland_display);
    let s5 = optional_entry("HOME"@, snap.home);
    let s6 = optional_entry("USER"@, snap.user);
    let env = planned_env(api_key, snap);
    assert(env == s0 + s1 + s2 + s3 + s4 + s5 + s6);
    assert forall|entry: (Seq<char>, Seq<char>)| env.contains(entry) implies {
        ||| entry == ("DEEPGRAM_API_KEY"@, api_key)
        ||| (entry.0 == "PULSE_RUNTIME_PATH"@ && snap.pulse_runtime_path == Some(entry.1))
        ||| (entry.0 == "XDG_RUNTIME_DIR"@ && snap.xdg_runtime_dir == Some(entry.1))
        ||| (entry.0 == "DISPLAY"@ && snap.display == Some(entry.1))
        ||| (entry.0 == "WAYLAND_DISPLAY"@ && snap.wayland_display == Some(entry.1))
        ||| (entry.0 == "HOME"@ && snap.home == Some(entry.1))
        ||| (entry.0 == "USER"@ && snap.user == Some(entry.1))
    } by {
        let i = choose|i: int| 0 <= i < env.len() && env[i] == entry;
        assert(env[i] == entry);
    }
    assert forall|entry: (Seq<char>, Seq<char>)|
        {
            ||| entry == ("DEEPGRAM_API_KEY"@, api_key)
            ||| (entry.0 == "PULSE_RUNTIME_PATH"@ && snap.pulse_runtime_path == Some(entry.1))
            ||| (entry.0 == "XDG_RUNTIME_DIR"@ && snap.xdg_runtime_dir == Some(entry.1))
            ||| (entry.0 == "DISPLAY"@ && snap.display == Some(entry.1))
            ||| (entry.0 == "WAYLAND_DISPLAY"@ && snap.wayland_display == Some(entry.1))
            ||| (entry.0 == "HOME"@ && snap.home == Some(entry.1))
            ||| (entry.0 == "USER"@ && snap.user == Some(entry.1))
        } implies env.contains(entry) by {
        if entry == ("DEEPGRAM_API_KEY"@, api_key) {
            assert(s0[0] == entry);
            assert(s0.contains(entry));
        } else if entry.0 == "PULSE_RUNTIME_PATH"@ && snap.pulse_runtime_path == Some(entry.1) {
            assert(s1[0] == entry);
            assert(s1.contains(entry));
        } else if entry.0 == "XDG_RUNTIME_DIR"@ && snap.xdg_runtime_dir == Some(entry.1) {
            assert(s2[0] == entry);
            assert(s2.contains(entry));
        } else if entry.0 == "DISPLAY"@ && snap.display == Some(entry.1) {
            assert(s3[0] == entry);
            assert(s3.contains(entry));
        } else if entry.0 == "WAYLAND_DISPLAY"@ && snap.wayland_display == Some(entry.1) {
            assert(s4[0] == entry);
            assert(s4.contains(entry));
        } else if entry.0 == "HOME"@ && snap.home == Some(entry.1) {
            assert(s5[0] == entry);
            assert(s5.contains(entry));
        } else if entry.0 == "USER"@ && snap.user == Some(entry.1) {
            assert(s6[0] == entry);
            assert(s6.contains(entry));
        }
        lemma_add_contains(s0, s1, entry);
        lemma_add_contains(s0 + s1, s2, entry);
        lemma_add_contains(s0 + s1 + s2, s3, entry);
        lemma_add_contains(s0 + s1 + s2 + s3, s4, entry);
        lemma_add_contains(s0 + s1 + s2 + s3 + s4, s5, entry);
        lemma_add_contains(s0 + s1 + s2 + s3 + s4 + s5, s6, entry);
    }
}

/// Law: every variable name in the forwarded environment is on the
/// allow-list.
pub proof fn lemma_only_allowlisted_forwarded(api_key: Seq<char>, snap: EnvSnapshotModel)
    ensures
        forall|i: int|
            0 <= i < planned_env(api_key, snap).len() ==> allowlist().contains(
                #[trigger] planned_env(api_key, snap)[i].0,
            ),
{
    let env = planned_env(api_key, snap);
    assert forall|i: int| 0 <= i < env.len() implies allowlist().contains(env[i].0) by {
        let name = env[i].0;
        assert(allowlist()[0] == "DEEPGRAM_API_KEY"@);
        assert(allowlist()[1] == "PULSE_RUNTIME_PATH"@);
        assert(allowlist()[2] == "XDG_RUNTIME_DIR"@);
        assert(allowlist()[3] == "DISPLAY"@);
        assert(allowlist()[4] == "WAYLAND_DISPLAY"@);
        assert(allowlist()[5] == "HOME"@);
        assert(allowlist()[6] == "USER"@);
    }
}

} // verus!
