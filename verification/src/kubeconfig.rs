//! Credential provisioning: one isolated kubeconfig file per role,
//! assembled by issuing exactly four external configuration commands
//! in a fixed order against that file, failing fast on any non-zero
//! exit. Five well-known roles are produced; the node-facing roles
//! address the node's reachable IP, the control-plane-internal roles
//! the loopback address.
use vstd::prelude::*;
use crate::config::CommandSpec;
use crate::config::Config;
use crate::config::Pki;
use crate::errors::Error;
use crate::strutil::cat2;
use crate::strutil::cat3;

verus! {

// ---------------------------------------------------------------------
// The four commands of one role
// ---------------------------------------------------------------------
/// The isolated output file of a role: `{dir}/{base}.kubeconfig`.
pub open spec fn kubeconfig_target_spec(dir: Seq<char>, base: Seq<char>) -> Seq<char> {
    dir + "/"@ + base + ".kubeconfig"@
}

/// The flag that scopes every command to the role's own file.
pub open spec fn kubeconfig_arg_spec(target: Seq<char>) -> Seq<char> {
    "--kubeconfig="@ + target
}

/// The command's last argument scopes it to the role's file.
pub open spec fn has_kubeconfig_arg(c: CommandSpec, target: Seq<char>) -> bool {
    c.args@.len() > 0 && c.args@[c.args@.len() - 1]@ == kubeconfig_arg_spec(target)
}

/// Step (a): register the cluster entry, CA embedded, pointing at
/// `https://{ip}:6443`.
pub open spec fn is_set_cluster_command(
    c: CommandSpec,
    ca: Seq<char>,
    ip: Seq<char>,
    target: Seq<char>,
) -> bool {
    &&& c.program@ == "kubectl"@
    &&& c.args@.len() == 7
    &&& c.args@[0]@ == "config"@
    &&& c.args@[1]@ == "set-cluster"@
    &&& c.args@[2]@ == "kubernetes"@
    &&& c.args@[3]@ == "--certificate-authority="@ + ca
    &&& c.args@[4]@ == "--embed-certs=true"@
    &&& c.args@[5]@ == "--server=https://"@ + ip + ":6443"@
    &&& c.args@[6]@ == kubeconfig_arg_spec(target)
    &&& c.env@.len() == 0
}

/// Step (b): register the credentials entry for the subject, with the
/// client certificate and key embedded.
pub open spec fn is_set_credentials_command(
    c: CommandSpec,
    user: Seq<char>,
    cert: Seq<char>,
    key: Seq<char>,
    target: Seq<char>,
) -> bool {
    &&& c.program@ == "kubectl"@
    &&& c.args@.len() == 7
    &&& c.args@[0]@ == "config"@
    &&& c.args@[1]@ == "set-credentials"@
    &&& c.args@[2]@ == user
    &&& c.args@[3]@ == "--client-certificate="@ + cert
    &&& c.args@[4]@ == "--client-key="@ + key
    &&& c.args@[5]@ == "--embed-certs=true"@
    &&& c.args@[6]@ == kubeconfig_arg_spec(target)
    &&& c.env@.len() == 0
}

/// Step (c): bind the cluster and credentials pair as `default`.
pub open spec fn is_set_context_command(c: CommandSpec, user: Seq<char>, target: Seq<char>) -> bool {
    &&& c.program@ == "kubectl"@
    &&& c.args@.len() == 6
    &&& c.args@[0]@ == "config"@
    &&& c.args@[1]@ == "set-context"@
    &&& c.args@[2]@ == "default"@
    &&& c.args@[3]@ == "--cluster=kubernetes"@
    &&& c.args@[4]@ == "--user="@ + user
    &&& c.args@[5]@ == kubeconfig_arg_spec(target)
    &&& c.env@.len() == 0
}

/// Step (d): select `default` as the active context.
pub open spec fn is_use_context_command(c: CommandSpec, target: Seq<char>) -> bool {
    &&& c.program@ == "kubectl"@
    &&& c.args@.len() == 4
    &&& c.args@[0]@ == "config"@
    &&& c.args@[1]@ == "use-context"@
    &&& c.args@[2]@ == "default"@
    &&& c.args@[3]@ == kubeconfig_arg_spec(target)
    &&& c.env@.len() == 0
}

/// The diagnostic label of step `i` (1-based), used when it fails.
pub open spec fn step_name_spec(i: int) -> Seq<char> {
    if i == 1 {
        "kubectl config set-cluster"@
    } else if i == 2 {
        "kubectl config set-credentials"@
    } else if i == 3 {
        "kubectl config set-context"@
    } else {
        "kubectl config use-context"@
    }
}

// ---------------------------------------------------------------------
// One role's command sequence
// ---------------------------------------------------------------------
/// Sequences the four commands of one role, strictly in order, one at
/// a time, aborting the remainder as soon as one exits non-zero.
pub struct RoleSetup {
    pub target: String,
    pub cmds: Vec<CommandSpec>,
    /// How many of the four commands have been handed out.
    pub issued: usize,
    /// A handed-out command's outcome has not been reported yet.
    pub awaiting: bool,
    /// A command exited non-zero; nothing further is issued.
    pub failed: bool,
}

impl RoleSetup {
    pub open spec fn inv(&self) -> bool {
        &&& self.cmds@.len() == 4
        &&& self.issued <= 4
        &&& (self.awaiting ==> 1 <= self.issued && !self.failed)
    }

    /// Plans one role: the four fixed commands, in order, each
    /// scoped to the role's isolated file by its final argument.
    pub fn new(
        dir: &str,
        ca: &str,
        ip: &str,
        base: &str,
        user: &str,
        cert: &str,
        key: &str,
    ) -> (s: RoleSetup)
        ensures
            s.inv(),
            s.issued == 0,
            !s.awaiting,
            !s.failed,
            s.target@ == kubeconfig_target_spec(dir@, base@),
            is_set_cluster_command(s.cmds@[0], ca@, ip@, s.target@),
            is_set_credentials_command(s.cmds@[1], user@, cert@, key@, s.target@),
            is_set_context_command(s.cmds@[2], user@, s.target@),
            is_use_context_command(s.cmds@[3], s.target@),
            forall|i: int| 0 <= i < 4 ==> has_kubeconfig_arg(#[trigger] s.cmds@[i], s.target@),
    {
        let target = cat2(crate::path_join(dir, base).as_str(), ".kubeconfig");
        let kc_arg = cat2("--kubeconfig=", target.as_str());

        let mut a0: Vec<String> = Vec::new();
        a0.push("config".to_owned());
        a0.push("set-cluster".to_owned());
        a0.push("kubernetes".to_owned());
        a0.push(cat2("--certificate-authority=", ca));
        a0.push("--embed-certs=true".to_owned());
        a0.push(cat3("--server=https://", ip, ":6443"));
        a0.push(kc_arg.clone());
        let c0 = CommandSpec { program: "kubectl".to_owned(), args: a0, env: Vec::new() };

        let mut a1: Vec<String> = Vec::new();
        a1.push("config".to_owned());
        a1.push("set-credentials".to_owned());
        a1.push(user.to_owned());
        a1.push(cat2("--client-certificate=", cert));
        a1.push(cat2("--client-key=", key));
        a1.push("--embed-certs=true".to_owned());
        a1.push(kc_arg.clone());
        let c1 = CommandSpec { program: "kubectl".to_owned(), args: a1, env: Vec::new() };

        let mut a2: Vec<String> = Vec::new();
        a2.push("config".to_owned());
        a2.push("set-context".to_owned());
        a2.push("default".to_owned());
        a2.push("--cluster=kubernetes".to_owned());
        a2.push(cat2("--user=", user));
        a2.push(kc_arg.clone());
        let c2 = CommandSpec { program: "kubectl".to_owned(), args: a2, env: Vec::new() };

        let mut a3: Vec<String> = Vec::new();
        a3.push("config".to_owned());
        a3.push("use-context".to_owned());
        a3.push("default".to_owned());
        a3.push(kc_arg);
        let c3 = CommandSpec { program: "kubectl".to_owned(), args: a3, env: Vec::new() };

        let mut cmds: Vec<CommandSpec> = Vec::new();
        cmds.push(c0);
        cmds.push(c1);
        cmds.push(c2);
        cmds.push(c3);

        let s = RoleSetup { target, cmds, issued: 0, awaiting: false, failed: false };
        proof {
            assert(forall|i: int|
                0 <= i < 4 ==> has_kubeconfig_arg(#[trigger] s.cmds@[i], s.target@));
        }
        s
    }

    /// Moves on to the next command, if any is still owed: nothing is
    /// issued after a failure, and never more than the four.
    pub fn begin_next(&mut self) -> (r: bool)
        requires
            old(self).inv(),
            !old(self).awaiting,
        ensures
            final(self).inv(),
            final(self).cmds == old(self).cmds,
            final(self).target == old(self).target,
            final(self).failed == old(self).failed,
            r == (!old(self).failed && old(self).issued < 4),
            r ==> final(self).issued == old(self).issued + 1 && final(self).awaiting,
            !r ==> *final(self) == *old(self),
    {
        if !self.failed && self.issued < 4 {
            self.issued = self.issued + 1;
            self.awaiting = true;
            true
        } else {
            false
        }
    }

    /// The command most recently begun and not yet reported on.
    pub fn current_command(&self) -> (c: &CommandSpec)
        requires
            self.inv(),
            self.awaiting,
        ensures
            c == &self.cmds@[self.issued - 1],
    {
        &self.cmds[self.issued - 1]
    }

    /// Records the current command's outcome: zero exit keeps the
    /// sequence going; any other exit is fatal for the role and is
    /// reported with the step's label and the captured output.
    pub fn on_status(&mut self, exit_code: i32, stdout: &str, stderr: &str) -> (r: Result<
        (),
        Error,
    >)
        requires
            old(self).inv(),
            old(self).awaiting,
        ensures
            final(self).inv(),
            final(self).cmds == old(self).cmds,
            final(self).target == old(self).target,
            final(self).issued == old(self).issued,
            !final(self).awaiting,
            exit_code == 0 ==> r is Ok && !final(self).failed,
            exit_code != 0 ==> {
                &&& final(self).failed
                &&& (r matches Err(e) && e matches Error::ExternalCommandFailure {
                    command,
                    exit_code: ec,
                    stdout: so,
                    stderr: se,
                } && command@ == step_name_spec(old(self).issued as int) && ec == exit_code && so@
                    == stdout@ && se@ == stderr@)
            },
    {
        self.awaiting = false;
        if exit_code == 0 {
            Ok(())
        } else {
            self.failed = true;
            let command = if self.issued == 1 {
                "kubectl config set-cluster".to_owned()
            } else if self.issued == 2 {
                "kubectl config set-credentials".to_owned()
            } else if self.issued == 3 {
                "kubectl config set-context".to_owned()
            } else {
                "kubectl config use-context".to_owned()
            };
            Err(
                Error::ExternalCommandFailure {
                    command,
                    exit_code,
                    stdout: stdout.to_owned(),
                    stderr: stderr.to_owned(),
                },
            )
        }
    }

    /// All four commands were issued and every one succeeded.
    pub fn done(&self) -> (r: bool)
        ensures
            r == (self.issued == 4 && !self.awaiting && !self.failed),
    {
        self.issued == 4 && !self.awaiting && !self.failed
    }

    pub fn target_path(&self) -> (t: &String)
        ensures
            t == &self.target,
    {
        &self.target
    }
}

// ---------------------------------------------------------------------
// The five roles
// ---------------------------------------------------------------------
/// One role's inputs: output file base name, subject identity, client
/// certificate and key paths, and the API server address its clients
/// use.
pub struct RolePlan {
    pub file_base: String,
    pub user: String,
    pub cert: String,
    pub key: String,
    pub server_ip: String,
}

pub open spec fn is_role_plan(
    p: RolePlan,
    base: Seq<char>,
    user: Seq<char>,
    cert: Seq<char>,
    key: Seq<char>,
    ip: Seq<char>,
) -> bool {
    &&& p.file_base@ == base
    &&& p.user@ == user
    &&& p.cert@ == cert
    &&& p.key@ == key
    &&& p.server_ip@ == ip
}

/// The provisioning run: the target directory to create, the shared
/// certificate authority, and the five roles in the order they are
/// provisioned. A role failure aborts the run at that role; files of
/// earlier roles stay in place (no rollback).
pub struct ProvisionPlan {
    pub dir: String,
    pub ca: String,
    pub roles: Vec<RolePlan>,
}

/// The generated credential files, one per role, keyed by role.
#[derive(Default)]
pub struct KubeConfig {
    pub kubelet: String,
    pub proxy: String,
    pub controller_manager: String,
    pub scheduler: String,
    pub admin: String,
}

impl KubeConfig {
    /// Plans credential provisioning: the five well-known roles in
    /// fixed order. The kubelet and proxy roles address the node's
    /// reachable IP; the control-plane-internal roles the loopback
    /// address. The kubelet's subject carries the node's hostname.
    pub fn new(config: &Config, pki: &Pki, ip: &str, hostname: &str) -> (p: ProvisionPlan)
        ensures
            p.dir@ == config.kube_dir_spec(),
            p.ca@ == pki.ca_cert@,
            p.roles@.len() == 5,
            is_role_plan(
                p.roles@[0],
                "kubelet"@,
                "system:node:"@ + hostname@,
                pki.kubelet_cert@,
                pki.kubelet_key@,
                ip@,
            ),
            is_role_plan(
                p.roles@[1],
                "kube-proxy"@,
                "system:kube-proxy"@,
                pki.proxy_cert@,
                pki.proxy_key@,
                ip@,
            ),
            is_role_plan(
                p.roles@[2],
                "kube-controller-manager"@,
                "system:kube-controller-manager"@,
                pki.controller_manager_cert@,
                pki.controller_manager_key@,
                "127.0.0.1"@,
            ),
            is_role_plan(
                p.roles@[3],
                "kube-scheduler"@,
                "system:kube-scheduler"@,
                pki.scheduler_cert@,
                pki.scheduler_key@,
                "127.0.0.1"@,
            ),
            is_role_plan(
                p.roles@[4],
                "admin"@,
                "admin"@,
                pki.admin_cert@,
                pki.admin_key@,
                "127.0.0.1"@,
            ),
    {
        let dir = crate::path_join(config.root.as_str(), config.kube_dir.as_str());
        let mut roles: Vec<RolePlan> = Vec::new();
        roles.push(
            RolePlan {
                file_base: "kubelet".to_owned(),
                user: cat2("system:node:", hostname),
                cert: pki.kubelet_cert.clone(),
                key: pki.kubelet_key.clone(),
                server_ip: ip.to_owned(),
            },
        );
        roles.push(
            RolePlan {
                file_base: "kube-proxy".to_owned(),
                user: "system:kube-proxy".to_owned(),
                cert: pki.proxy_cert.clone(),
                key: pki.proxy_key.clone(),
                server_ip: ip.to_owned(),
            },
        );
        roles.push(
            RolePlan {
                file_base: "kube-controller-manager".to_owned(),
                user: "system:kube-controller-manager".to_owned(),
                cert: pki.controller_manager_cert.clone(),
                key: pki.controller_manager_key.clone(),
                server_ip: "127.0.0.1".to_owned(),
            },
        );
        roles.push(
            RolePlan {
                file_base: "kube-scheduler".to_owned(),
                user: "system:kube-scheduler".to_owned(),
                cert: pki.scheduler_cert.clone(),
                key: pki.scheduler_key.clone(),
                server_ip: "127.0.0.1".to_owned(),
            },
        );
        roles.push(
            RolePlan {
                file_base: "admin".to_owned(),
                user: "admin".to_owned(),
                cert: pki.admin_cert.clone(),
                key: pki.admin_key.clone(),
                server_ip: "127.0.0.1".to_owned(),
            },
        );
        ProvisionPlan { dir, ca: pki.ca_cert.clone(), roles }
    }

    /// Gathers the five generated file paths once every role's
    /// sequence has completed.
    pub fn from_targets(
        kubelet: String,
        proxy: String,
        controller_manager: String,
        scheduler: String,
        admin: String,
    ) -> (k: KubeConfig)
        ensures
            k.kubelet == kubelet,
            k.proxy == proxy,
            k.controller_manager == controller_manager,
            k.scheduler == scheduler,
            k.admin == admin,
    {
        KubeConfig { kubelet, proxy, controller_manager, scheduler, admin }
    }
}

/// Builds the command sequencer of one role from the run's shared
/// parts and the role's plan.
pub fn role_setup(plan: &ProvisionPlan, role: &RolePlan) -> (s: RoleSetup)
    ensures
        s.inv(),
        s.issued == 0,
        !s.awaiting,
        !s.failed,
        s.target@ == kubeconfig_target_spec(plan.dir@, role.file_base@),
        is_set_cluster_command(s.cmds@[0], plan.ca@, role.server_ip@, s.target@),
        is_set_credentials_command(s.cmds@[1], role.user@, role.cert@, role.key@, s.target@),
        is_set_context_command(s.cmds@[2], role.user@, s.target@),
        is_use_context_command(s.cmds@[3], s.target@),
{
    RoleSetup::new(
        plan.dir.as_str(),
        plan.ca.as_str(),
        role.server_ip.as_str(),
        role.file_base.as_str(),
        role.user.as_str(),
        role.cert.as_str(),
        role.key.as_str(),
    )
}

} // verus!
