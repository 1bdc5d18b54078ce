//! Plain-value configuration handed in by the caller: directory layout,
//! the bridge network CIDR, the certificate bundle, and the description
//! of an external command to run.
use vstd::prelude::*;

verus! {

/// A character that may stand inside a JSON string value without
/// escaping: not a quote, not a backslash, not a control character.
pub open spec fn json_safe_char(c: char) -> bool {
    c != '"' && c != '\\' && (c as u32) >= 32
}

/// A string that may be embedded verbatim in a JSON document.
pub open spec fn json_safe(s: Seq<char>) -> bool {
    forall|i: int| 0 <= i < s.len() ==> json_safe_char(#[trigger] s[i])
}

/// Decides `json_safe` at run time.
pub fn is_json_safe(s: &str) -> (r: bool)
    ensures
        r == json_safe(s@),
{
    let n = s.unicode_len();
    let mut i: usize = 0;
    while i < n
        invariant
            n == s@.len(),
            i <= n,
            forall|k: int| 0 <= k < i ==> json_safe_char(#[trigger] s@[k]),
        decreases n - i,
    {
        let c = s.get_char(i);
        if c == '"' || c == '\\' || (c as u32) < 32 {
            assert(!json_safe_char(s@[i as int]));
            return false;
        }
        i = i + 1;
    }
    true
}

/// Top-level configuration for the bootstrap.
pub struct Config {
    /// Root directory under which every service owns a disjoint subtree.
    pub root: String,
    /// Shared log directory.
    pub log_dir: String,
    /// Name of the container runtime's subtree under the root.
    pub crio_dir: String,
    /// CIDR of the NAT-ed bridge network, e.g. "10.100.0.0/16".
    pub crio_cidr: String,
    /// Name of the credential files' subtree under the root.
    pub kube_dir: String,
}

impl Config {
    /// A configuration is valid when its CIDR can stand verbatim inside
    /// the generated bridge document.
    pub open spec fn valid(&self) -> bool {
        json_safe(self.crio_cidr@)
    }

    /// The container runtime's root directory.
    pub open spec fn crio_root_spec(&self) -> Seq<char> {
        self.root@ + "/"@ + self.crio_dir@
    }

    /// The credential files' directory.
    pub open spec fn kube_dir_spec(&self) -> Seq<char> {
        self.root@ + "/"@ + self.kube_dir@
    }

    /// Decides `valid` at run time, for the driver to test before
    /// planning.
    pub fn check_valid(&self) -> (r: bool)
        ensures
            r == self.valid(),
    {
        is_json_safe(self.crio_cidr.as_str())
    }
}

/// The certificate bundle: one certificate authority shared by all
/// roles, and a certificate/key pair per role. Values are file paths.
pub struct Pki {
    pub ca_cert: String,
    pub kubelet_cert: String,
    pub kubelet_key: String,
    pub proxy_cert: String,
    pub proxy_key: String,
    pub controller_manager_cert: String,
    pub controller_manager_key: String,
    pub scheduler_cert: String,
    pub scheduler_key: String,
    pub admin_cert: String,
    pub admin_key: String,
}

/// An external command for the unverified driver to run: program name,
/// argument vector, and environment overrides.
pub struct CommandSpec {
    pub program: String,
    pub args: Vec<String>,
    pub env: Vec<(String, String)>,
}

} // verus!
