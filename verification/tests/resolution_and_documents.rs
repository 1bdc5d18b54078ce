//! Tests for executable resolution, the generated documents (with a
//! real JSON parser reading them back), and the credential
//! provisioning command sequences.
use kubernix::config::{is_json_safe, Config, Pki};
use kubernix::crio::{bridge_json, lines_of, policy_json, resolve_toolchain};
use kubernix::errors::Error;
use kubernix::kubeconfig::{role_setup, KubeConfig};
use kubernix::path_join;
use kubernix::resolver::{find_executable, split_search_path};
use kubernix::strutil::{contains_str, split_on};

fn test_config() -> Config {
    Config {
        root: String::from("/tmp/kx"),
        log_dir: String::from("/tmp/kx/log"),
        crio_dir: String::from("crio"),
        crio_cidr: String::from("10.100.0.0/16"),
        kube_dir: String::from("kube"),
    }
}

fn test_pki() -> Pki {
    Pki {
        ca_cert: String::from("/pki/ca.pem"),
        kubelet_cert: String::from("/pki/kubelet.pem"),
        kubelet_key: String::from("/pki/kubelet-key.pem"),
        proxy_cert: String::from("/pki/proxy.pem"),
        proxy_key: String::from("/pki/proxy-key.pem"),
        controller_manager_cert: String::from("/pki/cm.pem"),
        controller_manager_key: String::from("/pki/cm-key.pem"),
        scheduler_cert: String::from("/pki/sched.pem"),
        scheduler_key: String::from("/pki/sched-key.pem"),
        admin_cert: String::from("/pki/admin.pem"),
        admin_key: String::from("/pki/admin-key.pem"),
    }
}

#[test]
fn path_join_inserts_one_separator() {
    assert_eq!(path_join("/usr/bin", "runc"), "/usr/bin/runc");
}

#[test]
fn split_search_path_keeps_listed_order() {
    assert_eq!(
        split_search_path("/usr/bin:/usr/local/bin"),
        vec![String::from("/usr/bin"), String::from("/usr/local/bin")]
    );
    assert_eq!(split_search_path(""), Vec::<String>::new());
    assert_eq!(split_search_path("/only"), vec![String::from("/only")]);
    assert_eq!(split_search_path("a::b"), vec![
        String::from("a"),
        String::from(""),
        String::from("b")
    ]);
}

#[test]
fn split_on_restores_input_when_joined() {
    assert_eq!(split_on("x,y,z", ','), vec![
        String::from("x"),
        String::from("y"),
        String::from("z")
    ]);
    assert_eq!(split_on(",", ','), vec![String::from(""), String::from("")]);
}

#[test]
fn lines_of_drops_one_trailing_newline() {
    assert_eq!(lines_of("a\nb\n"), vec![String::from("a"), String::from("b")]);
    assert_eq!(lines_of("a\nb"), vec![String::from("a"), String::from("b")]);
    assert_eq!(lines_of(""), Vec::<String>::new());
    assert_eq!(lines_of("a\n\nb\n"), vec![String::from("a"), String::from(""), String::from("b")]);
}

#[test]
fn contains_str_finds_substrings() {
    assert!(contains_str("msg=sandboxes: done", "sandboxes:"));
    assert!(!contains_str("msg=sandbox", "sandboxes:"));
    assert!(contains_str("anything", ""));
}

#[test]
fn resolver_picks_second_directory_when_only_it_has_the_binary() {
    let dirs = split_search_path("/first:/second");
    // Only the second directory holds `runc`.
    let present = vec![false, true];
    let found = find_executable("runc", &dirs, &present);
    assert_eq!(found, Some(String::from("/second/runc")));
}

#[test]
fn resolver_returns_nothing_when_no_directory_has_the_binary() {
    let dirs = vec![String::from("/a"), String::from("/b")];
    assert_eq!(find_executable("runc", &dirs, &vec![false, false]), None);
}

#[test]
fn toolchain_resolution_fails_fast_on_first_missing_binary() {
    let dirs = vec![String::from("/a"), String::from("/b")];
    let all = vec![true, false];
    let none = vec![false, false];

    let t = resolve_toolchain(&dirs, &all, &all, &all).unwrap();
    assert_eq!(t.conmon, "/a/conmon");
    assert_eq!(t.bridge, "/a/bridge");
    assert_eq!(t.cni_plugin_dir, "/a");
    assert_eq!(t.runc, "/a/runc");

    let e = resolve_toolchain(&dirs, &none, &all, &all).unwrap_err();
    assert_eq!(e, Error::ExecutableNotFound { name: String::from("conmon") });
    let e = resolve_toolchain(&dirs, &all, &none, &all).unwrap_err();
    assert_eq!(e, Error::ExecutableNotFound { name: String::from("bridge") });
    let e = resolve_toolchain(&dirs, &all, &all, &none).unwrap_err();
    assert_eq!(e, Error::ExecutableNotFound { name: String::from("runc") });
}

#[test]
fn bridge_document_round_trips_through_a_real_json_parser() {
    let doc = bridge_json("10.100.0.0/16");
    let v: serde_json::Value = serde_json::from_str(&doc).expect("generated document parses");
    assert_eq!(v["ipam"]["ranges"][0][0]["subnet"], "10.100.0.0/16");
    assert_eq!(v["cniVersion"], "0.3.1");
    assert_eq!(v["name"], "crio-bridge");
    assert_eq!(v["type"], "bridge");
    assert_eq!(v["bridge"], "cni0");
    assert_eq!(v["isGateway"], true);
    assert_eq!(v["ipMasq"], true);
    assert_eq!(v["hairpinMode"], true);
    assert_eq!(v["ipam"]["type"], "host-local");
    assert_eq!(v["ipam"]["routes"][0]["dst"], "0.0.0.0/0");
}

#[test]
fn configuration_validity_tracks_json_safety_of_the_cidr() {
    assert!(is_json_safe("10.100.0.0/16"));
    assert!(!is_json_safe("10.0.0.0/8\""));
    assert!(!is_json_safe("a\\b"));
    assert!(!is_json_safe("a\nb"));
    let mut config = test_config();
    assert!(config.check_valid());
    config.crio_cidr = String::from("bad\"cidr");
    assert!(!config.check_valid());
}

#[test]
fn policy_document_permits_any_signature() {
    let doc = policy_json();
    let v: serde_json::Value = serde_json::from_str(&doc).expect("generated document parses");
    assert_eq!(v["default"][0]["type"], "insecureAcceptAnything");
}

#[test]
fn provisioning_plans_five_roles_with_their_addresses() {
    let plan = KubeConfig::new(&test_config(), &test_pki(), "192.168.1.10", "node1");
    assert_eq!(plan.dir, "/tmp/kx/kube");
    assert_eq!(plan.ca, "/pki/ca.pem");
    assert_eq!(plan.roles.len(), 5);
    let bases: Vec<&str> = plan.roles.iter().map(|r| r.file_base.as_str()).collect();
    assert_eq!(bases, vec![
        "kubelet",
        "kube-proxy",
        "kube-controller-manager",
        "kube-scheduler",
        "admin"
    ]);
    let users: Vec<&str> = plan.roles.iter().map(|r| r.user.as_str()).collect();
    assert_eq!(users, vec![
        "system:node:node1",
        "system:kube-proxy",
        "system:kube-controller-manager",
        "system:kube-scheduler",
        "admin"
    ]);
    let ips: Vec<&str> = plan.roles.iter().map(|r| r.server_ip.as_str()).collect();
    assert_eq!(ips, vec!["192.168.1.10", "192.168.1.10", "127.0.0.1", "127.0.0.1", "127.0.0.1"]);
}

#[test]
fn role_issues_exactly_four_commands_in_fixed_order() {
    let plan = KubeConfig::new(&test_config(), &test_pki(), "192.168.1.10", "node1");
    let mut s = role_setup(&plan, &plan.roles[0]);
    assert_eq!(s.target_path().as_str(), "/tmp/kx/kube/kubelet.kubeconfig");

    let mut subcommands: Vec<String> = Vec::new();
    let mut count = 0;
    while s.begin_next() {
        let c = s.current_command();
        assert_eq!(c.program, "kubectl");
        assert_eq!(c.args[0], "config");
        subcommands.push(c.args[1].clone());
        assert_eq!(
            c.args.last().unwrap(),
            &String::from("--kubeconfig=/tmp/kx/kube/kubelet.kubeconfig")
        );
        s.on_status(0, "", "").unwrap();
        count += 1;
    }
    assert_eq!(count, 4);
    assert_eq!(subcommands, vec!["set-cluster", "set-credentials", "set-context", "use-context"]);
    assert!(s.done());
}

#[test]
fn role_command_arguments_are_exact() {
    let plan = KubeConfig::new(&test_config(), &test_pki(), "192.168.1.10", "node1");
    let mut s = role_setup(&plan, &plan.roles[0]);
    assert!(s.begin_next());
    assert_eq!(s.current_command().args, vec![
        String::from("config"),
        String::from("set-cluster"),
        String::from("kubernetes"),
        String::from("--certificate-authority=/pki/ca.pem"),
        String::from("--embed-certs=true"),
        String::from("--server=https://192.168.1.10:6443"),
        String::from("--kubeconfig=/tmp/kx/kube/kubelet.kubeconfig"),
    ]);
    s.on_status(0, "", "").unwrap();
    assert!(s.begin_next());
    assert_eq!(s.current_command().args, vec![
        String::from("config"),
        String::from("set-credentials"),
        String::from("system:node:node1"),
        String::from("--client-certificate=/pki/kubelet.pem"),
        String::from("--client-key=/pki/kubelet-key.pem"),
        String::from("--embed-certs=true"),
        String::from("--kubeconfig=/tmp/kx/kube/kubelet.kubeconfig"),
    ]);
    s.on_status(0, "", "").unwrap();
    assert!(s.begin_next());
    assert_eq!(s.current_command().args, vec![
        String::from("config"),
        String::from("set-context"),
        String::from("default"),
        String::from("--cluster=kubernetes"),
        String::from("--user=system:node:node1"),
        String::from("--kubeconfig=/tmp/kx/kube/kubelet.kubeconfig"),
    ]);
    s.on_status(0, "", "").unwrap();
    assert!(s.begin_next());
    assert_eq!(s.current_command().args, vec![
        String::from("config"),
        String::from("use-context"),
        String::from("default"),
        String::from("--kubeconfig=/tmp/kx/kube/kubelet.kubeconfig"),
    ]);
    s.on_status(0, "", "").unwrap();
    assert!(s.done());
    assert!(!s.begin_next());
}

#[test]
fn role_aborts_remaining_steps_when_second_command_fails() {
    let plan = KubeConfig::new(&test_config(), &test_pki(), "10.0.0.1", "n");
    let mut s = role_setup(&plan, &plan.roles[1]);
    assert!(s.begin_next());
    s.on_status(0, "", "").unwrap();
    assert!(s.begin_next());
    let err = s.on_status(3, "so", "se").unwrap_err();
    assert_eq!(
        err,
        Error::ExternalCommandFailure {
            command: String::from("kubectl config set-credentials"),
            exit_code: 3,
            stdout: String::from("so"),
            stderr: String::from("se"),
        }
    );
    // Steps three and four are never issued.
    assert!(!s.begin_next());
    assert!(!s.done());
}

#[test]
fn kubeconfig_gathers_the_five_targets() {
    let k = KubeConfig::from_targets(
        String::from("/k/kubelet.kubeconfig"),
        String::from("/k/kube-proxy.kubeconfig"),
        String::from("/k/kube-controller-manager.kubeconfig"),
        String::from("/k/kube-scheduler.kubeconfig"),
        String::from("/k/admin.kubeconfig"),
    );
    assert_eq!(k.kubelet, "/k/kubelet.kubeconfig");
    assert_eq!(k.proxy, "/k/kube-proxy.kubeconfig");
    assert_eq!(k.controller_manager, "/k/kube-controller-manager.kubeconfig");
    assert_eq!(k.scheduler, "/k/kube-scheduler.kubeconfig");
    assert_eq!(k.admin, "/k/admin.kubeconfig");
}

#[test]
fn error_labels_name_each_variant() {
    assert_eq!(
        Error::ExecutableNotFound { name: String::from("x") }.describe(),
        "executable not found"
    );
    assert_eq!(
        Error::ConfigWriteFailure { path: String::from("p"), cause: String::from("c") }.describe(),
        "config write failure"
    );
    assert_eq!(
        Error::ProcessSpawnFailure { executable: String::from("e"), cause: String::from("c") }
            .describe(),
        "process spawn failure"
    );
    assert_eq!(Error::ReadinessTimeout.describe(), "readiness timeout");
    assert_eq!(
        Error::ReadinessStreamClosed { stderr: String::from("s") }.describe(),
        "readiness stream closed"
    );
    assert_eq!(
        Error::ExternalCommandFailure {
            command: String::from("c"),
            exit_code: 1,
            stdout: String::new(),
            stderr: String::new(),
        }
        .describe(),
        "external command failure"
    );
    assert_eq!(
        Error::DrainFailure {
            command: String::from("c"),
            exit_code: 1,
            stdout: String::new(),
            stderr: String::new(),
        }
        .describe(),
        "drain failure"
    );
    assert_eq!(Error::StopFailure { name: String::from("n") }.describe(), "stop failure");
}
