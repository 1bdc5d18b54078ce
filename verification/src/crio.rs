//! The container-runtime service: resolving its three executables,
//! deriving its file layout and generated documents, building the
//! daemon's exact argument vector, and ordering its shutdown — all
//! workloads are drained (listed, then removed one by one) before the
//! process itself is stopped.
use vstd::prelude::*;
use crate::config::CommandSpec;
use crate::config::Config;
use crate::errors::Error;
use crate::path_join;
use crate::readiness::ProcessState;
use crate::resolver::find_executable;
use crate::resolver::first_present_index;
use crate::resolver::resolves_first;
use crate::strutil::cat2;
use crate::strutil::cat3;
use crate::strutil::cat4;
use crate::strutil::contains_seq;
use crate::strutil::is_match_at;
use crate::strutil::is_split_of;
use crate::strutil::split_on;

verus! {

// ---------------------------------------------------------------------
// Line-oriented command output
// ---------------------------------------------------------------------
/// The input with one trailing newline removed, if it has one.
pub open spec fn stripped_of(s: Seq<char>) -> Seq<char> {
    if s.len() > 0 && s[s.len() - 1] == '\n' {
        s.take(s.len() - 1)
    } else {
        s
    }
}

/// `parts` are the lines of `s`: after removing one trailing newline,
/// the newline-free segments that join back to the remainder; an empty
/// remainder has no lines.
pub open spec fn is_lines_of(parts: Seq<Seq<char>>, s: Seq<char>) -> bool {
    if stripped_of(s).len() == 0 {
        parts.len() == 0
    } else {
        is_split_of(parts, stripped_of(s), '\n')
    }
}

/// Splits command output into lines, as `is_lines_of` describes.
pub fn lines_of(s: &str) -> (r: Vec<String>)
    ensures
        is_lines_of(r@.map_values(|p: String| p@), s@),
{
    let n = s.unicode_len();
    if n == 0 {
        let r: Vec<String> = Vec::new();
        proof {
            assert(r@.map_values(|p: String| p@).len() == 0);
        }
        return r;
    }
    let body = if s.get_char(n - 1) == '\n' {
        s.substring_char(0, n - 1)
    } else {
        s
    };
    assert(body@ == stripped_of(s@));
    split_on(body, '\n')
}

// ---------------------------------------------------------------------
// Generated documents
// ---------------------------------------------------------------------
/// The bridge network document: a NAT-ed bridge with a host-local IP
/// allocator whose single range is the configured CIDR.
pub open spec fn bridge_json_spec(cidr: Seq<char>) -> Seq<char> {
    "{\"cniVersion\": \"0.3.1\", \"name\": \"crio-bridge\", \"type\": \"bridge\", \"bridge\": \"cni0\", \"isGateway\": true, \"ipMasq\": true, \"hairpinMode\": true, \"ipam\": {\"type\": \"host-local\", \"routes\": [{\"dst\": \"0.0.0.0/0\"}], \"ranges\": [[{\"subnet\": \""@
        + cidr + "\"}]]}}"@
}

/// Renders the bridge network document for the configured CIDR. A
/// valid configuration's CIDR needs no escaping, so the document is
/// well-formed with the CIDR standing verbatim.
pub fn bridge_json(cidr: &str) -> (r: String)
    requires
        crate::config::json_safe(cidr@),
    ensures
        r@ == bridge_json_spec(cidr@),
{
    cat3(
        "{\"cniVersion\": \"0.3.1\", \"name\": \"crio-bridge\", \"type\": \"bridge\", \"bridge\": \"cni0\", \"isGateway\": true, \"ipMasq\": true, \"hairpinMode\": true, \"ipam\": {\"type\": \"host-local\", \"routes\": [{\"dst\": \"0.0.0.0/0\"}], \"ranges\": [[{\"subnet\": \"",
        cidr,
        "\"}]]}}",
    )
}

/// The image-signature policy document: accept any signature (a
/// local, development-only trust policy).
pub open spec fn policy_json_spec() -> Seq<char> {
    "{\"default\": [{\"type\": \"insecureAcceptAnything\"}]}"@
}

/// Renders the signature-policy document.
pub fn policy_json() -> (r: String)
    ensures
        r@ == policy_json_spec(),
{
    "{\"default\": [{\"type\": \"insecureAcceptAnything\"}]}".to_owned()
}

/// The generated bridge document embeds the configured CIDR verbatim:
/// the subnet value is exactly the subrange between the fixed document
/// prefix and the fixed document suffix, so the document contains the
/// CIDR as a substring, unaltered.
pub proof fn lemma_bridge_json_embeds_cidr(cidr: Seq<char>)
    ensures
        contains_seq(bridge_json_spec(cidr), cidr),
        bridge_json_spec(cidr).subrange(
            bridge_json_spec(Seq::<char>::empty()).len() - "\"}]]}}"@.len(),
            bridge_json_spec(Seq::<char>::empty()).len() - "\"}]]}}"@.len() + cidr.len(),
        ) =~= cidr,
{
    let pre =
        "{\"cniVersion\": \"0.3.1\", \"name\": \"crio-bridge\", \"type\": \"bridge\", \"bridge\": \"cni0\", \"isGateway\": true, \"ipMasq\": true, \"hairpinMode\": true, \"ipam\": {\"type\": \"host-local\", \"routes\": [{\"dst\": \"0.0.0.0/0\"}], \"ranges\": [[{\"subnet\": \""@;
    let doc = bridge_json_spec(cidr);
    assert forall|j: int| 0 <= j < cidr.len() implies doc[pre.len() + j] == cidr[j] by {}
    assert(is_match_at(doc, cidr, pre.len() as int));
    assert(bridge_json_spec(Seq::<char>::empty()).len() - "\"}]]}}"@.len() == pre.len());
}

// ---------------------------------------------------------------------
// Derived layout
// ---------------------------------------------------------------------
pub open spec fn cni_config_dir_spec(c: &Config) -> Seq<char> {
    c.crio_root_spec() + "/cni"@
}

pub open spec fn bridge_json_path_spec(c: &Config) -> Seq<char> {
    cni_config_dir_spec(c) + "/bridge.json"@
}

pub open spec fn policy_json_path_spec(c: &Config) -> Seq<char> {
    c.crio_root_spec() + "/policy.json"@
}

pub open spec fn storage_root_spec(c: &Config) -> Seq<char> {
    c.crio_root_spec() + "/storage"@
}

pub open spec fn run_root_spec(c: &Config) -> Seq<char> {
    c.crio_root_spec() + "/run"@
}

pub open spec fn runc_dir_spec(c: &Config) -> Seq<char> {
    c.crio_root_spec() + "/runc"@
}

// ---------------------------------------------------------------------
// Toolchain resolution
// ---------------------------------------------------------------------
/// The resolved executables the container-runtime service needs, and
/// the directory that holds the bridge plugin (the CNI plugin
/// directory).
#[derive(Debug)]
pub struct Toolchain {
    pub conmon: String,
    pub bridge: String,
    pub cni_plugin_dir: String,
    pub runc: String,
}

/// `d` is the first directory whose probe succeeded.
pub open spec fn first_hit_dir(d: Seq<char>, dirs: Seq<Seq<char>>, present: Seq<bool>) -> bool {
    exists|i: int|
        0 <= i < dirs.len() && #[trigger] present[i] && (forall|k: int|
            0 <= k < i ==> !present[k]) && d == dirs[i]
}

pub open spec fn some_present(present: Seq<bool>) -> bool {
    exists|k: int| 0 <= k < present.len() && present[k]
}

/// Resolves the process-supervisor helper, the bridge plugin and the
/// OCI runtime against the probed candidate directories, failing fast
/// on the first missing one, in that order. `*_present[i]` is the
/// driver's probe result for the binary in `dirs[i]`.
pub fn resolve_toolchain(
    dirs: &Vec<String>,
    conmon_present: &Vec<bool>,
    bridge_present: &Vec<bool>,
    runc_present: &Vec<bool>,
) -> (r: Result<Toolchain, Error>)
    requires
        conmon_present@.len() == dirs@.len(),
        bridge_present@.len() == dirs@.len(),
        runc_present@.len() == dirs@.len(),
    ensures
        r matches Ok(t) ==> {
            &&& resolves_first(t.conmon@, "conmon"@, dirs@.map_values(|d: String| d@), conmon_present@)
            &&& resolves_first(t.bridge@, "bridge"@, dirs@.map_values(|d: String| d@), bridge_present@)
            &&& first_hit_dir(t.cni_plugin_dir@, dirs@.map_values(|d: String| d@), bridge_present@)
            &&& resolves_first(t.runc@, "runc"@, dirs@.map_values(|d: String| d@), runc_present@)
        },
        r is Ok <==> some_present(conmon_present@) && some_present(bridge_present@)
            && some_present(runc_present@),
        !some_present(conmon_present@) ==> (r matches Err(e) && e matches Error::ExecutableNotFound {
            name,
        } && name@ == "conmon"@),
        some_present(conmon_present@) && !some_present(bridge_present@) ==> (r matches Err(e)
            && e matches Error::ExecutableNotFound { name } && name@ == "bridge"@),
        some_present(conmon_present@) && some_present(bridge_present@) && !some_present(
            runc_present@,
        ) ==> (r matches Err(e) && e matches Error::ExecutableNotFound { name } && name@
            == "runc"@),
{
    let conmon = match find_executable("conmon", dirs, conmon_present) {
        Some(p) => p,
        None => {
            return Err(Error::ExecutableNotFound { name: "conmon".to_owned() });
        },
    };
    let bridge_at = match first_present_index(bridge_present) {
        Some(i) => i,
        None => {
            return Err(Error::ExecutableNotFound { name: "bridge".to_owned() });
        },
    };
    let bridge = path_join(dirs[bridge_at].as_str(), "bridge");
    let cni_plugin_dir = dirs[bridge_at].clone();
    let runc = match find_executable("runc", dirs, runc_present) {
        Some(p) => p,
        None => {
            return Err(Error::ExecutableNotFound { name: "runc".to_owned() });
        },
    };
    proof {
        let ghost dv = dirs@.map_values(|d: String| d@);
        assert(dv[bridge_at as int] == dirs@[bridge_at as int]@);
        assert(resolves_first(bridge@, "bridge"@, dv, bridge_present@));
        assert(first_hit_dir(cni_plugin_dir@, dv, bridge_present@));
    }
    Ok(Toolchain { conmon, bridge, cni_plugin_dir, runc })
}

// ---------------------------------------------------------------------
// Start plan
// ---------------------------------------------------------------------
/// The daemon's exact argument vector: debug logging, the overlay
/// storage driver, the resolved helper binaries, the listen socket,
/// the derived roots and network directories, the default upstream
/// registry, the signature policy, and the named runtime entry that is
/// selected as default.
pub open spec fn is_crio_argv(
    args: Seq<Seq<char>>,
    c: &Config,
    t: &Toolchain,
    socket: Seq<char>,
) -> bool {
    &&& args.len() == 13
    &&& args[0] == "crio"@
    &&& args[1] == "--log-level=debug"@
    &&& args[2] == "--storage-driver=overlay"@
    &&& args[3] == "--conmon="@ + t.conmon@
    &&& args[4] == "--listen="@ + socket
    &&& args[5] == "--root="@ + storage_root_spec(c)
    &&& args[6] == "--runroot="@ + run_root_spec(c)
    &&& args[7] == "--cni-config-dir="@ + cni_config_dir_spec(c)
    &&& args[8] == "--cni-plugin-dir="@ + t.cni_plugin_dir@
    &&& args[9] == "--registry=docker.io"@
    &&& args[10] == "--signature-policy="@ + policy_json_path_spec(c)
    &&& args[11] == "--runtimes=local-runc:"@ + t.runc@ + ":"@ + runc_dir_spec(c)
    &&& args[12] == "--default-runtime=local-runc"@
}

/// Everything the driver must do, in order, to bring the service up:
/// create the directories, write the generated documents, spawn the
/// daemon with the argument vector, then wait for the readiness
/// marker on its stdout.
pub struct StartPlan {
    /// Directories to create, in order.
    pub dirs: Vec<String>,
    /// Files to write: path and contents.
    pub files: Vec<(String, String)>,
    /// The daemon's argument vector; the first element is the program.
    pub argv: Vec<String>,
    /// Substring of a stdout line that signals readiness.
    pub ready_marker: String,
}

pub struct Crio {
    pub socket: String,
    pub state: ProcessState,
}

impl Crio {
    /// Computes the start plan for the container-runtime service from
    /// the configuration, the resolved toolchain and the listen
    /// socket. Every field of the plan is pinned exactly.
    pub fn start(config: &Config, tools: &Toolchain, socket: &str) -> (plan: StartPlan)
        requires
            config.valid(),
        ensures
            plan.dirs@.len() == 2,
            plan.dirs@[0]@ == config.crio_root_spec(),
            plan.dirs@[1]@ == cni_config_dir_spec(config),
            plan.files@.len() == 2,
            plan.files@[0].0@ == bridge_json_path_spec(config),
            plan.files@[0].1@ == bridge_json_spec(config.crio_cidr@),
            plan.files@[1].0@ == policy_json_path_spec(config),
            plan.files@[1].1@ == policy_json_spec(),
            is_crio_argv(plan.argv@.map_values(|a: String| a@), config, tools, socket@),
            plan.ready_marker@ == "sandboxes:"@,
    {
        let dir = path_join(config.root.as_str(), config.crio_dir.as_str());
        let cni_config = cat2(dir.as_str(), "/cni");
        let bridge_path = cat2(cni_config.as_str(), "/bridge.json");
        let policy_path = cat2(dir.as_str(), "/policy.json");
        let storage_root = cat2(dir.as_str(), "/storage");
        let run_root = cat2(dir.as_str(), "/run");
        let runc_dir = cat2(dir.as_str(), "/runc");

        let mut dirs: Vec<String> = Vec::new();
        dirs.push(dir);
        dirs.push(cni_config.clone());

        let mut files: Vec<(String, String)> = Vec::new();
        files.push((bridge_path, bridge_json(config.crio_cidr.as_str())));
        files.push((policy_path.clone(), policy_json()));

        let mut argv: Vec<String> = Vec::new();
        argv.push("crio".to_owned());
        argv.push("--log-level=debug".to_owned());
        argv.push("--storage-driver=overlay".to_owned());
        argv.push(cat2("--conmon=", tools.conmon.as_str()));
        argv.push(cat2("--listen=", socket));
        argv.push(cat2("--root=", storage_root.as_str()));
        argv.push(cat2("--runroot=", run_root.as_str()));
        argv.push(cat2("--cni-config-dir=", cni_config.as_str()));
        argv.push(cat2("--cni-plugin-dir=", tools.cni_plugin_dir.as_str()));
        argv.push("--registry=docker.io".to_owned());
        argv.push(cat2("--signature-policy=", policy_path.as_str()));
        argv.push(cat4("--runtimes=local-runc:", tools.runc.as_str(), ":", runc_dir.as_str()));
        argv.push("--default-runtime=local-runc".to_owned());

        let plan = StartPlan {
            dirs,
            files,
            argv,
            ready_marker: "sandboxes:".to_owned(),
        };
        proof {
            let ghost av = plan.argv@.map_values(|a: String| a@);
            assert(forall|i: int| 0 <= i < av.len() ==> av[i] == plan.argv@[i]@);
            assert(is_crio_argv(av, config, tools, socket@));
        }
        plan
    }

    /// Wraps the service once the driver has observed readiness: the
    /// supervised process is in state `Ready`.
    pub fn started(socket: &str) -> (c: Crio)
        ensures
            c.state == ProcessState::Ready,
            c.socket@ == socket@,
    {
        Crio { socket: socket.to_owned(), state: ProcessState::Ready }
    }

    /// Marks the service as in its steady running state.
    pub fn mark_running(&mut self)
        requires
            old(self).state == ProcessState::Ready,
        ensures
            final(self).state == ProcessState::Running,
            final(self).socket == old(self).socket,
            old(self).state.can_step_to(final(self).state),
    {
        self.state = ProcessState::Running;
    }

    /// Begins the stop sequence: the drain of live workloads comes
    /// first, and the supervised process is untouched until the drain
    /// has completed.
    pub fn stop(&self) -> (d: Drain)
        ensures
            d.inv(),
            d.phase == DrainPhase::AwaitList,
            d.socket@ == self.socket@,
            d.history@.len() == 0,
    {
        Drain::new(self.socket.as_str())
    }

    /// Moves the process to `Stopping`, but only when the drain for
    /// this service's socket has completed; otherwise nothing changes.
    pub fn confirm_drained(&mut self, d: &Drain) -> (r: bool)
        requires
            d.inv(),
        ensures
            r == (d.phase == DrainPhase::Drained && d.socket@ == old(self).socket@ && (old(
                self,
            ).state == ProcessState::Ready || old(self).state == ProcessState::Running)),
            r ==> final(self).state == ProcessState::Stopping && final(self).socket == old(
                self,
            ).socket && old(self).state.can_step_to(final(self).state),
            !r ==> *final(self) == *old(self),
    {
        let drained = d.ready_to_stop();
        let socket_matches = d.socket_name().eq(&self.socket);
        let stoppable = match self.state {
            ProcessState::Ready => true,
            ProcessState::Running => true,
            _ => false,
        };
        if drained && socket_matches && stoppable {
            self.state = ProcessState::Stopping;
            true
        } else {
            false
        }
    }

    /// Records the outcome of terminating the process: exit within the
    /// grace period completes the stop; anything else is a
    /// `StopFailure` and the state is absorbed into `Failed` (the
    /// driver may then escalate to a forced kill).
    pub fn on_stop_result(&mut self, exited_within_grace: bool) -> (r: Result<(), Error>)
        requires
            old(self).state == ProcessState::Stopping,
        ensures
            final(self).socket == old(self).socket,
            old(self).state.can_step_to(final(self).state),
            exited_within_grace ==> final(self).state == ProcessState::Stopped && r is Ok,
            !exited_within_grace ==> final(self).state == ProcessState::Failed && (r matches Err(e)
                && e matches Error::StopFailure { name } && name@ == "crio"@),
    {
        if exited_within_grace {
            self.state = ProcessState::Stopped;
            Ok(())
        } else {
            self.state = ProcessState::Failed;
            Err(Error::StopFailure { name: "crio".to_owned() })
        }
    }
}

// ---------------------------------------------------------------------
// Drain
// ---------------------------------------------------------------------
/// The external client commands the drain issues, pointed at this
/// service's endpoint through the environment.
pub open spec fn is_endpoint_env(env: Seq<(String, String)>, socket: Seq<char>) -> bool {
    &&& env.len() == 1
    &&& env[0].0@ == "CONTAINER_RUNTIME_ENDPOINT"@
    &&& env[0].1@ == "unix://"@ + socket
}

/// The workload-listing command: `crictl pods -q`.
pub open spec fn is_list_command(c: CommandSpec, socket: Seq<char>) -> bool {
    &&& c.program@ == "crictl"@
    &&& c.args@.len() == 2
    &&& c.args@[0]@ == "pods"@
    &&& c.args@[1]@ == "-q"@
    &&& is_endpoint_env(c.env@, socket)
}

/// The forced workload-removal command: `crictl rmp -f {pod}`.
pub open spec fn is_remove_command(c: CommandSpec, socket: Seq<char>, pod: Seq<char>) -> bool {
    &&& c.program@ == "crictl"@
    &&& c.args@.len() == 3
    &&& c.args@[0]@ == "rmp"@
    &&& c.args@[1]@ == "-f"@
    &&& c.args@[2]@ == pod
    &&& is_endpoint_env(c.env@, socket)
}

/// One step of the drain, as recorded in its history.
pub enum DrainStep {
    List,
    Remove(Seq<char>),
}

#[derive(Debug, Clone, Copy, PartialEq, Eq, Structural)]
pub enum DrainPhase {
    /// The listing command has not been issued yet.
    AwaitList,
    /// The listing command is running.
    ListRunning,
    /// Listing succeeded; removals are being issued one at a time.
    Removing,
    /// A removal command is running.
    RemoveRunning,
    /// Every listed workload was removed; the process may be stopped.
    Drained,
    /// A command exited non-zero; the drain is aborted.
    Failed,
}

/// The drain of a container runtime's live workloads: list them all
/// via one external client command, then force-remove each listed one,
/// failing fast on any non-zero exit. Only a drain that reaches
/// `Drained` permits stopping the underlying process.
pub struct Drain {
    pub socket: String,
    pub phase: DrainPhase,
    /// The workloads the listing reported, in order.
    pub pods: Vec<String>,
    /// How many removal commands have been issued.
    pub issued_removes: usize,
    /// Whether the listing command itself failed.
    pub list_failed: bool,
    /// Every command issued so far, in order.
    pub history: Ghost<Seq<DrainStep>>,
}

impl Drain {
    /// The shape every reachable drain has: the history opens with the
    /// one listing command and continues with the removals of the
    /// listed workloads in listed order, one per issued removal.
    pub open spec fn inv(&self) -> bool {
        &&& self.issued_removes <= self.pods@.len()
        &&& (self.phase == DrainPhase::AwaitList ==> self.history@.len() == 0
            && self.issued_removes == 0)
        &&& (self.phase != DrainPhase::AwaitList ==> self.history@.len() == 1
            + self.issued_removes)
        &&& (self.history@.len() > 0 ==> self.history@[0] == DrainStep::List)
        &&& (forall|i: int|
            1 <= i < self.history@.len() ==> self.history@[i] == DrainStep::Remove(
                self.pods@[i - 1]@,
            ))
        &&& (self.phase == DrainPhase::ListRunning ==> self.issued_removes == 0)
        &&& (self.phase == DrainPhase::Drained ==> self.issued_removes == self.pods@.len())
        &&& (self.phase == DrainPhase::RemoveRunning ==> self.issued_removes >= 1)
        &&& (self.list_failed ==> self.phase == DrainPhase::Failed && self.issued_removes == 0)
    }

    pub fn new(socket: &str) -> (d: Drain)
        ensures
            d.inv(),
            d.phase == DrainPhase::AwaitList,
            d.socket@ == socket@,
            d.history@.len() == 0,
            !d.list_failed,
    {
        Drain {
            socket: socket.to_owned(),
            phase: DrainPhase::AwaitList,
            pods: Vec::new(),
            issued_removes: 0,
            list_failed: false,
            history: Ghost(Seq::empty()),
        }
    }

    /// Issues the workload-listing command. It is the first command of
    /// the drain and is issued exactly once.
    pub fn list_command(&mut self) -> (c: CommandSpec)
        requires
            old(self).inv(),
            old(self).phase == DrainPhase::AwaitList,
        ensures
            final(self).inv(),
            final(self).phase == DrainPhase::ListRunning,
            final(self).socket == old(self).socket,
            final(self).history@ =~= seq![DrainStep::List],
            !final(self).list_failed,
            is_list_command(c, old(self).socket@),
    {
        self.phase = DrainPhase::ListRunning;
        proof {
            self.history@ = seq![DrainStep::List];
        }
        let mut args: Vec<String> = Vec::new();
        args.push("pods".to_owned());
        args.push("-q".to_owned());
        let mut env: Vec<(String, String)> = Vec::new();
        env.push(("CONTAINER_RUNTIME_ENDPOINT".to_owned(), cat2("unix://", self.socket.as_str())));
        CommandSpec { program: "crictl".to_owned(), args, env }
    }

    /// Records the listing command's outcome. Zero exit parses the
    /// output into the workload list and moves on to removals; any
    /// other exit aborts the whole drain at once, with the captured
    /// output attached — no removal is ever attempted after a failed
    /// listing.
    pub fn on_list_result(&mut self, exit_code: i32, stdout: &str, stderr: &str) -> (r: Result<
        (),
        Error,
    >)
        requires
            old(self).inv(),
            old(self).phase == DrainPhase::ListRunning,
        ensures
            final(self).inv(),
            final(self).socket == old(self).socket,
            final(self).history@ == old(self).history@,
            exit_code == 0 ==> {
                &&& r is Ok
                &&& final(self).phase == DrainPhase::Removing
                &&& is_lines_of(final(self).pods@.map_values(|p: String| p@), stdout@)
                &&& final(self).issued_removes == 0
                &&& !final(self).list_failed
            },
            exit_code != 0 ==> {
                &&& final(self).phase == DrainPhase::Failed
                &&& final(self).list_failed
                &&& (r matches Err(e) && e matches Error::DrainFailure {
                    command,
                    exit_code: ec,
                    stdout: so,
                    stderr: se,
                } && command@ == "crictl pods -q"@ && ec == exit_code && so@ == stdout@ && se@
                    == stderr@)
            },
    {
        if exit_code == 0 {
            self.pods = lines_of(stdout);
            self.phase = DrainPhase::Removing;
            Ok(())
        } else {
            self.phase = DrainPhase::Failed;
            self.list_failed = true;
            Err(
                Error::DrainFailure {
                    command: "crictl pods -q".to_owned(),
                    exit_code,
                    stdout: stdout.to_owned(),
                    stderr: stderr.to_owned(),
                },
            )
        }
    }

    /// Issues the removal command for the next listed workload, or
    /// reports the drain complete when none are left. Removals come
    /// strictly after a successful listing, one listed workload each,
    /// in listed order.
    pub fn next_remove(&mut self) -> (r: Option<CommandSpec>)
        requires
            old(self).inv(),
            old(self).phase == DrainPhase::Removing,
        ensures
            final(self).inv(),
            final(self).socket == old(self).socket,
            final(self).pods == old(self).pods,
            old(self).issued_removes < old(self).pods@.len() ==> {
                &&& (r matches Some(c) && is_remove_command(
                    c,
                    old(self).socket@,
                    old(self).pods@[old(self).issued_removes as int]@,
                ))
                &&& final(self).phase == DrainPhase::RemoveRunning
                &&& final(self).issued_removes == old(self).issued_removes + 1
                &&& final(self).history@ =~= old(self).history@.push(
                    DrainStep::Remove(old(self).pods@[old(self).issued_removes as int]@),
                )
            },
            old(self).issued_removes == old(self).pods@.len() ==> {
                &&& r is None
                &&& final(self).phase == DrainPhase::Drained
                &&& final(self).history@ == old(self).history@
            },
    {
        if self.issued_removes < self.pods.len() {
            let pod = &self.pods[self.issued_removes];
            let mut args: Vec<String> = Vec::new();
            args.push("rmp".to_owned());
            args.push("-f".to_owned());
            args.push(pod.clone());
            let mut env: Vec<(String, String)> = Vec::new();
            env.push(
                ("CONTAINER_RUNTIME_ENDPOINT".to_owned(), cat2("unix://", self.socket.as_str())),
            );
            let c = CommandSpec { program: "crictl".to_owned(), args, env };
            proof {
                self.history@ = self.history@.push(
                    DrainStep::Remove(self.pods@[self.issued_removes as int]@),
                );
            }
            self.issued_removes = self.issued_removes + 1;
            self.phase = DrainPhase::RemoveRunning;
            Some(c)
        } else {
            self.phase = DrainPhase::Drained;
            None
        }
    }

    /// Records a removal command's outcome: zero exit continues the
    /// drain, any other aborts it with the captured output attached.
    pub fn on_remove_result(&mut self, exit_code: i32, stdout: &str, stderr: &str) -> (r: Result<
        (),
        Error,
    >)
        requires
            old(self).inv(),
            old(self).phase == DrainPhase::RemoveRunning,
        ensures
            final(self).inv(),
            final(self).socket == old(self).socket,
            final(self).history@ == old(self).history@,
            final(self).issued_removes == old(self).issued_removes,
            exit_code == 0 ==> r is Ok && final(self).phase == DrainPhase::Removing,
            exit_code != 0 ==> {
                &&& final(self).phase == DrainPhase::Failed
                &&& (r matches Err(e) && e matches Error::DrainFailure {
                    command,
                    exit_code: ec,
                    stdout: so,
                    stderr: se,
                } && command@ == "crictl rmp -f"@ && ec == exit_code && so@ == stdout@ && se@
                    == stderr@)
            },
    {
        if exit_code == 0 {
            self.phase = DrainPhase::Removing;
            Ok(())
        } else {
            self.phase = DrainPhase::Failed;
            Err(
                Error::DrainFailure {
                    command: "crictl rmp -f".to_owned(),
                    exit_code,
                    stdout: stdout.to_owned(),
                    stderr: stderr.to_owned(),
                },
            )
        }
    }

    /// Whether every listed workload is confirmed removed, so the
    /// underlying process may now be stopped.
    pub fn ready_to_stop(&self) -> (r: bool)
        ensures
            r == (self.phase == DrainPhase::Drained),
    {
        match self.phase {
            DrainPhase::Drained => true,
            _ => false,
        }
    }

    pub fn socket_name(&self) -> (r: &String)
        ensures
            r == &self.socket,
    {
        &self.socket
    }
}

/// In every reachable drain, workload listing comes before any
/// removal: the history opens with the listing command and everything
/// after it is a removal of a listed workload, in listed order.
pub proof fn lemma_drain_list_before_removes(d: &Drain)
    requires
        d.inv(),
        d.history@.len() > 0,
    ensures
        d.history@[0] == DrainStep::List,
        forall|i: int|
            1 <= i < d.history@.len() ==> d.history@[i] == DrainStep::Remove(d.pods@[i - 1]@),
{
}

/// A drain that listed zero workloads issues no removal command: its
/// complete history is the single listing command.
pub proof fn lemma_drain_empty_listing_no_removes(d: &Drain)
    requires
        d.inv(),
        d.phase == DrainPhase::Drained,
        d.pods@.len() == 0,
    ensures
        d.history@ =~= seq![DrainStep::List],
{
}

/// A drain whose listing failed fails fast: no removal command was or
/// will be issued (its history stays the single listing command), and
/// it never reaches the state that permits stopping the process.
pub proof fn lemma_drain_failed_listing_fail_fast(d: &Drain)
    requires
        d.inv(),
        d.list_failed,
    ensures
        d.history@ =~= seq![DrainStep::List],
        d.phase != DrainPhase::Drained,
{
}

/// A completed drain removed exactly the listed workloads: one
/// removal per listed workload, in listed order, after the listing.
pub proof fn lemma_drain_complete_removed_all(d: &Drain)
    requires
        d.inv(),
        d.phase == DrainPhase::Drained,
    ensures
        d.history@.len() == 1 + d.pods@.len(),
        d.history@[0] == DrainStep::List,
        forall|i: int|
            0 <= i < d.pods@.len() ==> d.history@[i + 1] == DrainStep::Remove(d.pods@[i]@),
{
    assert forall|i: int| 0 <= i < d.pods@.len() implies d.history@[i + 1] == DrainStep::Remove(
        d.pods@[i]@,
    ) by {
        assert(d.history@[i + 1] == DrainStep::Remove(d.pods@[i + 1 - 1]@));
    }
}

} // verus!
