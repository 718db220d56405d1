use vstd::prelude::*;
use crate::error::{IndexerError, ServerStep};

verus! {

/// The version tag that the server reports until one is configured.
pub const DEFAULT_VERSION: &'static str = "0.0.0";

/// The port that the server binds on the loopback address until one is
/// configured. Not fit for a real deployment.
pub const DEFAULT_PORT: u16 = 3030;

/// Where the assembly of a server stands.
#[derive(Clone, Copy, Debug, PartialEq, Eq, Structural)]
pub enum Phase {
    /// Modules may still be registered.
    Building,
    /// The listener is bound; the set of methods is frozen.
    Serving,
    /// A registration or the binding failed; this assembly serves nothing.
    Failed,
}

/// The names of a list of methods, as character sequences.
pub open spec fn names(v: Seq<String>) -> Seq<Seq<char>> {
    v.map_values(|s: String| s@)
}

/// No name occurs twice.
pub open spec fn distinct(s: Seq<Seq<char>>) -> bool {
    forall|i: int, j: int| 0 <= i < j < s.len() ==> s[i] != s[j]
}

/// A named set of RPC methods backed by a shared data-access handle.
pub struct CapabilityModule {
    name: String,
    methods: Vec<String>,
}

impl CapabilityModule {
    pub closed spec fn spec_name(&self) -> Seq<char> {
        self.name@
    }

    /// The names of the module's methods.
    pub closed spec fn spec_methods(&self) -> Seq<Seq<char>> {
        names(self.methods@)
    }

    pub fn new(name: String, methods: Vec<String>) -> (m: CapabilityModule)
        ensures
            m.spec_name() == name@,
            m.spec_methods() == names(methods@),
    {
        CapabilityModule { name, methods }
    }

    pub fn name(&self) -> (n: &String)
        ensures
            n@ == self.spec_name(),
    {
        &self.name
    }

    pub fn methods(&self) -> (v: &Vec<String>)
        ensures
            names(v@) == self.spec_methods(),
    {
        &self.methods
    }
}

/// What a [`ServerAssembly`] is: its phase and its dispatch table.
pub struct AssemblyView {
    pub phase: Phase,
    pub methods: Seq<Seq<char>>,
}

/// Whether registering a module with the methods `m` succeeds.
pub open spec fn register_ok(v: AssemblyView, m: Seq<Seq<char>>) -> bool {
    v.phase == Phase::Building && distinct(v.methods + m)
}

/// The assembly after registering a module with the methods `m`. Outside
/// the building phase nothing changes; a name that collides ends the
/// assembly and discards its dispatch table.
pub open spec fn after_register(v: AssemblyView, m: Seq<Seq<char>>) -> AssemblyView {
    if v.phase != Phase::Building {
        v
    } else if distinct(v.methods + m) {
        AssemblyView { phase: Phase::Building, methods: v.methods + m }
    } else {
        AssemblyView { phase: Phase::Failed, methods: Seq::empty() }
    }
}

/// Whether starting succeeds, given whether the listener could be bound.
pub open spec fn start_ok(v: AssemblyView, bound: bool) -> bool {
    v.phase == Phase::Building && bound
}

/// The assembly after an attempt to start it.
pub open spec fn after_start(v: AssemblyView, bound: bool) -> AssemblyView {
    if v.phase != Phase::Building {
        v
    } else if bound {
        AssemblyView { phase: Phase::Serving, methods: v.methods }
    } else {
        AssemblyView { phase: Phase::Failed, methods: Seq::empty() }
    }
}

/// Whether a call of the method `name` is answered.
pub open spec fn reachable(v: AssemblyView, name: Seq<char>) -> bool {
    v.phase == Phase::Serving && v.methods.contains(name)
}

/// The assembly of a JSON-RPC server: modules are registered while it is
/// building, then it starts serving and its methods are frozen.
pub struct ServerAssembly {
    version: String,
    phase: Phase,
    methods: Vec<String>,
}

impl View for ServerAssembly {
    type V = AssemblyView;

    closed spec fn view(&self) -> AssemblyView {
        AssemblyView { phase: self.phase, methods: names(self.methods@) }
    }
}

/// Whether `v` has a duplicate name.
fn has_duplicate(v: &Vec<String>) -> (r: bool)
    ensures
        r == !distinct(names(v@)),
{
    let n = v.len();
    let ghost s = names(v@);
    let mut i: usize = 0;
    while i < n
        invariant
            n == v@.len(),
            s == names(v@),
            i <= n,
            forall|a: int, b: int| 0 <= a < i && a < b < n ==> s[a] != s[b],
        decreases n - i,
    {
        let mut j: usize = i + 1;
        while j < n
            invariant
                n == v@.len(),
                s == names(v@),
                i < n,
                i + 1 <= j <= n,
                forall|a: int, b: int| 0 <= a < i && a < b < n ==> s[a] != s[b],
                forall|b: int| i < b < j ==> s[i as int] != s[b],
            decreases n - j,
        {
            if v[i] == v[j] {
                assert(s[i as int] == s[j as int]);
                return true;
            }
            j = j + 1;
        }
        i = i + 1;
    }
    false
}

impl ServerAssembly {
    pub closed spec fn spec_version(&self) -> Seq<char> {
        self.version@
    }

    pub closed spec fn wf(&self) -> bool {
        &&& distinct(names(self.methods@))
        &&& self.phase == Phase::Failed ==> self.methods@.len() == 0
    }

    /// A fresh assembly that reports `version`, with no module yet.
    pub fn new(version: String) -> (s: ServerAssembly)
        ensures
            s.wf(),
            s.spec_version() == version@,
            s@.phase == Phase::Building,
            s@.methods == Seq::<Seq<char>>::empty(),
    {
        let s = ServerAssembly { version, phase: Phase::Building, methods: Vec::new() };
        assert(s@.methods =~= Seq::<Seq<char>>::empty());
        s
    }

    pub fn version(&self) -> (v: &String)
        ensures
            v@ == self.spec_version(),
    {
        &self.version
    }

    pub fn phase(&self) -> (p: Phase)
        ensures
            p == self@.phase,
    {
        self.phase
    }

    /// Adds the methods of `module` to the dispatch table. Fails with
    /// `JsonRpcServerError` at the registration step outside the building
    /// phase (changing nothing), or when a method name is already taken or repeated (ending the
    /// assembly: nothing it held is served).
    pub fn register_module(&mut self, module: &CapabilityModule) -> (r: Result<(), IndexerError>)
        requires
            old(self).wf(),
        ensures
            final(self).wf(),
            final(self).spec_version() == old(self).spec_version(),
            final(self)@ == after_register(old(self)@, module.spec_methods()),
            r.is_ok() == register_ok(old(self)@, module.spec_methods()),
            r matches Err(e) ==> e matches IndexerError::JsonRpcServerError(ServerStep::Register, _),
    {
        if self.phase != Phase::Building {
            return Err(
                IndexerError::JsonRpcServerError(ServerStep::Register, "the module set is frozen".to_owned()),
            );
        }
        let added = module.methods();
        let mut all: Vec<String> = Vec::new();
        let mut i: usize = 0;
        while i < self.methods.len()
            invariant
                i <= self.methods@.len(),
                all@.len() == i,
                forall|k: int| 0 <= k < i ==> all@[k]@ == self.methods@[k]@,
            decreases self.methods@.len() - i,
        {
            all.push(self.methods[i].clone());
            i = i + 1;
        }
        let mut j: usize = 0;
        while j < added.len()
            invariant
                j <= added@.len(),
                all@.len() == self.methods@.len() + j,
                forall|k: int| 0 <= k < self.methods@.len() ==> all@[k]@ == self.methods@[k]@,
                forall|k: int|
                    0 <= k < j ==> all@[self.methods@.len() + k]@ == added@[k]@,
            decreases added@.len() - j,
        {
            all.push(added[j].clone());
            j = j + 1;
        }
        assert(names(all@) =~= names(self.methods@) + module.spec_methods());
        if has_duplicate(&all) {
            self.phase = Phase::Failed;
            self.methods = Vec::new();
            assert(self@.methods =~= Seq::<Seq<char>>::empty());
            Err(
                IndexerError::JsonRpcServerError(
                    ServerStep::Register,
                    "a method name is already registered".to_owned(),
                ),
            )
        } else {
            self.methods = all;
            Ok(())
        }
    }

    /// Records the attempt to bind the listener, `bind_outcome` being its
    /// result. Only a building assembly starts: bound, it serves its
    /// methods; not bound, it ends with `JsonRpcServerError` at the start step,
    /// carrying the cause. Outside the building phase nothing changes and the call fails.
    pub fn start(&mut self, bind_outcome: Result<(), String>) -> (r: Result<(), IndexerError>)
        requires
            old(self).wf(),
        ensures
            final(self).wf(),
            final(self).spec_version() == old(self).spec_version(),
            final(self)@ == after_start(old(self)@, bind_outcome.is_ok()),
            r.is_ok() == start_ok(old(self)@, bind_outcome.is_ok()),
            r matches Err(e) ==> e matches IndexerError::JsonRpcServerError(ServerStep::Start, _),
            old(self)@.phase == Phase::Building ==> (bind_outcome matches Err(d) ==> r == Err::<
                (),
                IndexerError,
            >(IndexerError::JsonRpcServerError(ServerStep::Start, d))),
    {
        if self.phase != Phase::Building {
            return Err(
                IndexerError::JsonRpcServerError(ServerStep::Start, "the server was already started".to_owned()),
            );
        }
        match bind_outcome {
            Ok(()) => {
                self.phase = Phase::Serving;
                Ok(())
            },
            Err(d) => {
                self.phase = Phase::Failed;
                self.methods = Vec::new();
                assert(self@.methods =~= Seq::<Seq<char>>::empty());
                Err(IndexerError::JsonRpcServerError(ServerStep::Start, d))
            },
        }
    }

    /// Whether a call of the method `name` is answered.
    pub fn dispatches(&self, name: &String) -> (r: bool)
        ensures
            r == reachable(self@, name@),
    {
        if self.phase != Phase::Serving {
            return false;
        }
        let mut i: usize = 0;
        while i < self.methods.len()
            invariant
                self.phase == Phase::Serving,
                i <= self.methods@.len(),
                forall|k: int| 0 <= k < i ==> self.methods@[k]@ != name@,
            decreases self.methods@.len() - i,
        {
            if self.methods[i] == *name {
                assert(self@.methods[i as int] == name@);
                assert(self@.methods.contains(name@));
                return true;
            }
            i = i + 1;
        }
        false
    }
}

/// The method names of each module in `ms`.
pub open spec fn module_methods(ms: Seq<CapabilityModule>) -> Seq<Seq<Seq<char>>> {
    ms.map_values(|m: CapabilityModule| m.spec_methods())
}

/// The assembly after registering modules with the methods of `ms`, in
/// order.
pub open spec fn register_all(v: AssemblyView, ms: Seq<Seq<Seq<char>>>) -> AssemblyView
    decreases ms.len(),
{
    if ms.len() == 0 {
        v
    } else {
        after_register(register_all(v, ms.drop_last()), ms.last())
    }
}

/// A failure part-way stays a failure at the end.
proof fn lemma_failure_is_final(v: AssemblyView, ms: Seq<Seq<Seq<char>>>, k: int)
    requires
        0 <= k <= ms.len(),
        register_all(v, ms.take(k)).phase == Phase::Failed,
    ensures
        register_all(v, ms).phase == Phase::Failed,
    decreases ms.len() - k,
{
    if k < ms.len() {
        assert(ms.take(k + 1).drop_last() =~= ms.take(k));
        lemma_failure_is_final(v, ms, k + 1);
    } else {
        assert(ms.take(k) =~= ms);
    }
}

/// Builds a server that reports `version` and registers `modules` in order,
/// stopping at the first registration that fails. Succeeds exactly when
/// every method name is distinct; the result is ready to start.
pub fn assemble(version: String, modules: &Vec<CapabilityModule>) -> (r: Result<ServerAssembly, IndexerError>)
    ensures
        ({
            let fresh = AssemblyView { phase: Phase::Building, methods: Seq::empty() };
            let end = register_all(fresh, module_methods(modules@));
            &&& r.is_ok() == (end.phase == Phase::Building)
            &&& r matches Ok(s) ==> s.wf() && s@ == end && s.spec_version() == version@
            &&& r matches Err(e) ==> e matches IndexerError::JsonRpcServerError(ServerStep::Register, _)
        }),
{
    let ghost fresh = AssemblyView { phase: Phase::Building, methods: Seq::empty() };
    let ghost ms = module_methods(modules@);
    let mut s = ServerAssembly::new(version);
    let mut i: usize = 0;
    while i < modules.len()
        invariant
            i <= modules@.len(),
            fresh == (AssemblyView { phase: Phase::Building, methods: Seq::empty() }),
            ms == module_methods(modules@),
            s.wf(),
            s.spec_version() == version@,
            s@ == register_all(fresh, ms.take(i as int)),
            s@.phase == Phase::Building,
        decreases modules@.len() - i,
    {
        let res = s.register_module(&modules[i]);
        proof {
            assert(ms.take(i + 1).drop_last() =~= ms.take(i as int));
            assert(ms.take(i + 1).last() == modules@[i as int].spec_methods());
        }
        match res {
            Ok(()) => {},
            Err(e) => {
                proof {
                    lemma_failure_is_final(fresh, ms, i + 1);
                }
                return Err(e);
            },
        }
        i = i + 1;
    }
    proof {
        assert(ms.take(i as int) =~= ms);
    }
    Ok(s)
}

/// Two modules that share a method name cannot both be registered: the
/// second registration is refused, the assembly has failed, and no method
/// of either module is answered then or after any attempt to start.
pub proof fn law_overlapping_modules_fail(v: AssemblyView, a: Seq<Seq<char>>, b: Seq<Seq<char>>)
    requires
        v.phase == Phase::Building,
        exists|i: int, j: int| 0 <= i < a.len() && 0 <= j < b.len() && a[i] == b[j],
    ensures
        !register_ok(after_register(v, a), b),
        after_register(after_register(v, a), b).phase == Phase::Failed,
        forall|n: Seq<char>| !reachable(after_register(after_register(v, a), b), n),
        forall|bound: bool, n: Seq<char>|
            !reachable(after_start(after_register(after_register(v, a), b), bound), n),
{
    let w = after_register(v, a);
    if distinct(v.methods + a) {
        let (i, j) = choose|i: int, j: int| 0 <= i < a.len() && 0 <= j < b.len() && a[i] == b[j];
        let c = w.methods + b;
        assert(c[v.methods.len() + i] == c[w.methods.len() + j]);
        assert(!distinct(c));
    }
}

/// Once a server has started, its methods are frozen: every later
/// registration is refused and leaves it as it was.
pub proof fn law_frozen_after_start(v: AssemblyView, m: Seq<Seq<char>>)
    requires
        start_ok(v, true),
    ensures
        after_start(v, true).phase == Phase::Serving,
        !register_ok(after_start(v, true), m),
        after_register(after_start(v, true), m) == after_start(v, true),
{
}

} // verus!
