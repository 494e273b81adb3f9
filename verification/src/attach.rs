//! The probe attach plan.
//!
//! A logical tracepoint is either a syscall, which expands to its
//! `sys_enter_<name>` and `sys_exit_<name>` kernel symbols under the
//! tracing category `syscalls`, or a socket hook, which expands to
//! exactly one symbol under the category `sock`. The plan flattens the
//! selected tracepoints into (category, symbol) pairs; loading and
//! attaching each pair is kernel I/O and happens outside this crate,
//! and a failure on any single symbol is fatal to startup.

use vstd::prelude::*;
use vstd::string::StringExecFns;

verus! {

/// One logical tracepoint to enable.
pub enum Tracepoint {
    /// A syscall traced at entry and exit.
    Syscall(String),
    /// A socket hook traced at one named tracepoint.
    Socket(String),
}

/// The (category, symbol) pairs one tracepoint expands to.
pub open spec fn tracepoint_targets(tp: Tracepoint) -> Seq<(Seq<char>, Seq<char>)> {
    match tp {
        Tracepoint::Syscall(name) => seq![
            ("syscalls"@, "sys_enter_"@ + name@),
            ("syscalls"@, "sys_exit_"@ + name@),
        ],
        Tracepoint::Socket(name) => seq![("sock"@, name@)],
    }
}

impl Tracepoint {
    /// A syscall tracepoint.
    pub fn syscall(name: &str) -> (r: Self)
        ensures
            r matches Tracepoint::Syscall(s) && s@ == name@,
    {
        Tracepoint::Syscall(name.to_owned())
    }

    /// A socket tracepoint.
    pub fn socket(name: &str) -> (r: Self)
        ensures
            r matches Tracepoint::Socket(s) && s@ == name@,
    {
        Tracepoint::Socket(name.to_owned())
    }

    /// The tracing category this tracepoint's symbols live under.
    pub fn category(&self) -> (r: &'static str)
        ensures
            self matches Tracepoint::Syscall(_) ==> r@ == "syscalls"@,
            self matches Tracepoint::Socket(_) ==> r@ == "sock"@,
    {
        match self {
            Tracepoint::Syscall(_) => "syscalls",
            Tracepoint::Socket(_) => "sock",
        }
    }

    /// The kernel symbols this tracepoint expands to: the enter/exit
    /// pair for a syscall, the literal name for a socket hook.
    pub fn symbols(&self) -> (r: Vec<String>)
        ensures
            self matches Tracepoint::Syscall(name) ==> r@.len() == 2 && r@[0]@ == "sys_enter_"@
                + name@ && r@[1]@ == "sys_exit_"@ + name@,
            self matches Tracepoint::Socket(name) ==> r@.len() == 1 && r@[0]@ == name@,
    {
        let mut symbols: Vec<String> = Vec::new();
        match self {
            Tracepoint::Syscall(name) => {
                symbols.push(String::from_str("sys_enter_").concat(name.as_str()));
                symbols.push(String::from_str("sys_exit_").concat(name.as_str()));
            },
            Tracepoint::Socket(name) => {
                symbols.push(name.clone());
            },
        }
        symbols
    }
}

/// The hooks an operator can select, each naming one logical
/// tracepoint.
#[derive(Clone, Copy, Debug, PartialEq, Eq, Structural)]
pub enum Hook {
    Bind,
    Connect,
    RecvFrom,
    SendTo,
    SocketState,
}

impl Hook {
    /// Every hook: the default selection.
    pub fn all() -> (r: Vec<Hook>)
        ensures
            r@ == seq![Hook::Bind, Hook::Connect, Hook::RecvFrom, Hook::SendTo, Hook::SocketState],
    {
        let mut hooks: Vec<Hook> = Vec::new();
        hooks.push(Hook::Bind);
        hooks.push(Hook::Connect);
        hooks.push(Hook::RecvFrom);
        hooks.push(Hook::SendTo);
        hooks.push(Hook::SocketState);
        proof {
            assert(hooks@ =~= seq![
                Hook::Bind,
                Hook::Connect,
                Hook::RecvFrom,
                Hook::SendTo,
                Hook::SocketState,
            ]);
        }
        hooks
    }
}

/// The logical tracepoint a hook names.
pub fn tracepoint_for_hook(hook: Hook) -> (r: Tracepoint)
    ensures
        hook == Hook::Bind ==> (r matches Tracepoint::Syscall(s) && s@ == "bind"@),
        hook == Hook::Connect ==> (r matches Tracepoint::Syscall(s) && s@ == "connect"@),
        hook == Hook::RecvFrom ==> (r matches Tracepoint::Syscall(s) && s@ == "recvfrom"@),
        hook == Hook::SendTo ==> (r matches Tracepoint::Syscall(s) && s@ == "sendto"@),
        hook == Hook::SocketState ==> (r matches Tracepoint::Socket(s) && s@
            == "inet_sock_set_state"@),
{
    match hook {
        Hook::Bind => Tracepoint::syscall("bind"),
        Hook::Connect => Tracepoint::syscall("connect"),
        Hook::RecvFrom => Tracepoint::syscall("recvfrom"),
        Hook::SendTo => Tracepoint::syscall("sendto"),
        Hook::SocketState => Tracepoint::socket("inet_sock_set_state"),
    }
}

/// One symbol to attach: its tracing category and kernel symbol name.
pub struct AttachTarget {
    pub category: String,
    pub symbol: String,
}

/// The views of a list of attach targets.
pub open spec fn target_views(targets: Seq<AttachTarget>) -> Seq<(Seq<char>, Seq<char>)> {
    Seq::new(targets.len(), |i: int| (targets[i].category@, targets[i].symbol@))
}

/// The flattened plan of a tracepoint list: every tracepoint's targets,
/// in selection order.
pub open spec fn plan_targets(tps: Seq<Tracepoint>) -> Seq<(Seq<char>, Seq<char>)>
    decreases tps.len(),
{
    if tps.len() == 0 {
        Seq::empty()
    } else {
        plan_targets(tps.drop_last()) + tracepoint_targets(tps.last())
    }
}

/// Plans the attachment of a set of tracepoints.
pub struct ProbeAttacher {
    tracepoints: Vec<Tracepoint>,
}

impl ProbeAttacher {
    /// The tracepoints to be attached, in order.
    pub closed spec fn view(&self) -> Seq<Tracepoint> {
        self.tracepoints@
    }

    /// The full attach plan: each selected tracepoint expanded to its
    /// (category, symbol) pairs, in selection order. Attachment itself
    /// is kernel I/O; any failure there is fatal to startup.
    pub fn targets(&self) -> (r: Vec<AttachTarget>)
        ensures
            target_views(r@) == plan_targets(self.view()),
    {
        let mut targets: Vec<AttachTarget> = Vec::new();
        let n = self.tracepoints.len();
        let mut i: usize = 0;
        proof {
            assert(target_views(targets@) =~= plan_targets(self.view().take(0)));
        }
        while i < n
            invariant
                n == self.view().len(),
                i <= n,
                target_views(targets@) == plan_targets(self.view().take(i as int)),
            decreases n - i,
        {
            match &self.tracepoints[i] {
                Tracepoint::Syscall(name) => {
                    targets.push(
                        AttachTarget {
                            category: String::from_str("syscalls"),
                            symbol: String::from_str("sys_enter_").concat(name.as_str()),
                        },
                    );
                    targets.push(
                        AttachTarget {
                            category: String::from_str("syscalls"),
                            symbol: String::from_str("sys_exit_").concat(name.as_str()),
                        },
                    );
                },
                Tracepoint::Socket(name) => {
                    targets.push(
                        AttachTarget { category: String::from_str("sock"), symbol: name.clone() },
                    );
                },
            }
            proof {
                assert(self.view().take(i + 1).drop_last() =~= self.view().take(i as int));
                assert(self.view().take(i + 1).last() == self.view()[i as int]);
                assert(target_views(targets@) =~= plan_targets(self.view().take(i + 1)));
            }
            i = i + 1;
        }
        proof {
            assert(self.view().take(n as int) =~= self.view());
        }
        targets
    }
}

/// Builds a `ProbeAttacher` from the selected tracepoints.
pub struct ProbeAttacherBuilder {
    attacher: ProbeAttacher,
}

impl ProbeAttacherBuilder {
    /// The tracepoints selected so far, in order.
    pub closed spec fn view(&self) -> Seq<Tracepoint> {
        self.attacher.view()
    }

    /// Starts an empty plan.
    pub fn new() -> (r: Self)
        ensures
            r.view() == Seq::<Tracepoint>::empty(),
    {
        ProbeAttacherBuilder { attacher: ProbeAttacher { tracepoints: Vec::new() } }
    }

    /// Adds a tracepoint to be attached.
    pub fn with_tracepoint(self, tracepoint: Tracepoint) -> (r: Self)
        ensures
            r.view() == self.view().push(tracepoint),
    {
        let ProbeAttacherBuilder { attacher } = self;
        let ProbeAttacher { mut tracepoints } = attacher;
        tracepoints.push(tracepoint);
        ProbeAttacherBuilder { attacher: ProbeAttacher { tracepoints } }
    }

    /// Builds the probe attacher.
    pub fn build(self) -> (r: ProbeAttacher)
        ensures
            r.view() == self.view(),
    {
        self.attacher
    }
}

} // verus!
