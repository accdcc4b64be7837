//! The runtime host session: binding, initialization, invocation and the
//! one permitted shutdown.
//!
//! The embedding process performs the foreign calls; this module makes
//! every decision around them. Each hosting operation is prepared here as
//! a plain-data request carrying exactly what the native entry point
//! takes, and each native reply is interpreted here. The session is the
//! state machine `Initialized -> ShutDown`: a `CoreClrInstance` exists
//! only after a successful initialize, invocation is valid only while it
//! is `Initialized`, and shutdown fires at most once.

use vstd::prelude::*;

use crate::properties::{contains_nul, has_nul, spec_compat_switch_value, PropertyBag};
use crate::result::{
    spec_succeeded, spec_translate, IronCoreError, IronCoreResult, HRESULT,
};

verus! {

/// The isolation domain's small integer id, paired with the host handle.
pub type CoreClrDomainId = u32;

/// Opaque token issued by the runtime on a successful initialize. Its
/// bits are never interpreted, only handed back to later calls.
#[derive(Clone, Copy, PartialEq, Eq, Structural, Debug)]
pub enum CoreClrHostHandle {
    Token(u64),
}

/// Opaque callable into managed code, as a raw function address. The
/// caller alone is responsible for invoking it with the correct
/// signature; this layer never does.
#[derive(Clone, Copy, PartialEq, Eq, Structural, Debug)]
pub struct CoreClrDelegatePointer {
    pub address: u64,
}

/// Whether each of the four required entry points was resolved from the
/// runtime library, as reported by the embedding process.
#[derive(Clone, Copy, PartialEq, Eq, Structural, Debug)]
pub struct SymbolReport {
    pub initialize: bool,
    pub execute_assembly: bool,
    pub create_delegate: bool,
    pub shutdown: bool,
}

/// Whether all four required entry points are present: binding is
/// all-or-nothing.
pub open spec fn spec_all_symbols_present(s: SymbolReport) -> bool {
    s.initialize && s.execute_assembly && s.create_delegate && s.shutdown
}

/// The name of the first missing entry point, in the fixed resolution
/// order.
pub open spec fn spec_first_missing_symbol(s: SymbolReport) -> Seq<char> {
    if !s.initialize {
        "coreclr_initialize"@
    } else if !s.execute_assembly {
        "coreclr_execute_assembly"@
    } else if !s.create_delegate {
        "coreclr_create_delegate"@
    } else {
        "coreclr_shutdown"@
    }
}

/// Everything the native initialize entry point takes: the host's own
/// executable path, the friendly domain name, and the five-pair property
/// bag.
#[derive(Debug)]
pub struct InitializeRequest {
    pub exe_path: String,
    pub app_domain_friendly_name: String,
    pub properties: PropertyBag,
}

/// Everything the native execute entry point takes beyond the handle
/// pair: the assembly path and its arguments.
#[derive(Debug)]
pub struct ExecuteAssemblyRequest {
    pub host_handle: CoreClrHostHandle,
    pub domain_id: CoreClrDomainId,
    pub assembly_path: String,
    pub args: Vec<String>,
}

/// Everything the native create-delegate entry point takes beyond the
/// handle pair: the managed method's coordinates.
#[derive(Debug)]
pub struct CreateDelegateRequest {
    pub host_handle: CoreClrHostHandle,
    pub domain_id: CoreClrDomainId,
    pub assembly_name: String,
    pub entry_point_type_name: String,
    pub method_name: String,
}

/// The handle pair the native shutdown entry point takes.
#[derive(Clone, Copy, PartialEq, Eq, Structural, Debug)]
pub struct ShutdownRequest {
    pub host_handle: CoreClrHostHandle,
    pub domain_id: CoreClrDomainId,
}

/// The session's lifecycle state. `Uninitialized` needs no value here: a
/// `CoreClrInstance` exists only once initialize has succeeded.
#[derive(Clone, Copy, PartialEq, Eq, Structural, Debug)]
pub enum SessionState {
    Initialized,
    ShutDown,
}

/// One hosting operation, as the lifecycle model sees it.
#[derive(Clone, Copy, PartialEq, Eq, Structural, Debug)]
pub enum SessionOp {
    ExecuteAssembly,
    CreateDelegate,
    Shutdown,
}

/// The lifecycle step relation: what an operation does to the session
/// state, and whether it fires the native shutdown entry point.
pub open spec fn spec_step(s: SessionState, op: SessionOp) -> (SessionState, bool) {
    match op {
        SessionOp::Shutdown => (SessionState::ShutDown, s == SessionState::Initialized),
        SessionOp::ExecuteAssembly => (s, false),
        SessionOp::CreateDelegate => (s, false),
    }
}

/// How many times a run of operations from state `s` fires the native
/// shutdown entry point.
pub open spec fn spec_shutdown_fire_count(s: SessionState, ops: Seq<SessionOp>) -> nat
    decreases ops.len(),
{
    if ops.len() == 0 {
        0
    } else {
        let (next, fired) = spec_step(s, ops[0]);
        (if fired {
            1nat
        } else {
            0nat
        }) + spec_shutdown_fire_count(next, ops.subrange(1, ops.len() as int))
    }
}

/// Law: over any run of operations, a successfully initialized session
/// fires shutdown exactly once when the run shuts it down and never
/// otherwise, no matter how many execute or create-delegate operations
/// surround it; a session already shut down never fires it again.
pub proof fn lemma_shutdown_fires_exactly_once(ops: Seq<SessionOp>)
    ensures
        spec_shutdown_fire_count(SessionState::Initialized, ops) == if ops.contains(
            SessionOp::Shutdown,
        ) {
            1nat
        } else {
            0nat
        },
        spec_shutdown_fire_count(SessionState::ShutDown, ops) == 0,
    decreases ops.len(),
{
    if ops.len() > 0 {
        let rest = ops.subrange(1, ops.len() as int);
        lemma_shutdown_fires_exactly_once(rest);
        assert(ops.contains(SessionOp::Shutdown) <==> (ops[0] == SessionOp::Shutdown
            || rest.contains(SessionOp::Shutdown))) by {
            if ops.contains(SessionOp::Shutdown) {
                let i = choose|i: int| 0 <= i < ops.len() && ops[i] == SessionOp::Shutdown;
                if i > 0 {
                    assert(rest[i - 1] == SessionOp::Shutdown);
                }
            }
            if rest.contains(SessionOp::Shutdown) {
                let i = choose|i: int| 0 <= i < rest.len() && rest[i] == SessionOp::Shutdown;
                assert(ops[i + 1] == SessionOp::Shutdown);
            }
        }
    }
}

/// The bound lifecycle state machine: the runtime-issued handle pair and
/// the session state. Created only by a successful initialize, shut down
/// at most once.
#[derive(Debug)]
pub struct CoreClrInstance {
    state: SessionState,
    host_handle: CoreClrHostHandle,
    domain_id: CoreClrDomainId,
}

impl CoreClrInstance {
    /// The session's lifecycle state.
    pub closed spec fn spec_state(self) -> SessionState {
        self.state
    }

    /// The opaque handle the runtime issued on initialize.
    pub closed spec fn spec_host_handle(self) -> CoreClrHostHandle {
        self.host_handle
    }

    /// The domain id the runtime issued on initialize.
    pub closed spec fn spec_domain_id(self) -> CoreClrDomainId {
        self.domain_id
    }

    /// The session's lifecycle state, for callers outside the proofs.
    pub fn state(&self) -> (s: SessionState)
        ensures
            s == self.spec_state(),
    {
        self.state
    }

    /// Prepares the initialize call: checks that all four entry points
    /// were resolved (all-or-nothing, so a missing one means initialize
    /// is never invoked), then assembles the property bag around the
    /// host's executable path. Fails with `SymbolNotFound` naming the
    /// first missing entry point, or with `EncodingError` when an input
    /// carries an embedded null byte.
    pub fn new(
        symbols: &SymbolReport,
        exe_path: &str,
        trusted_assemblies: &str,
        app_paths: &str,
        app_ni_paths: &str,
        native_dll_search_dirs: &str,
    ) -> (r: IronCoreResult<InitializeRequest>)
        ensures
            r is Ok <==> spec_all_symbols_present(*symbols) && !has_nul(exe_path@) && !has_nul(
                trusted_assemblies@,
            ) && !has_nul(app_paths@) && !has_nul(app_ni_paths@) && !has_nul(
                native_dll_search_dirs@,
            ),
            !spec_all_symbols_present(*symbols) ==> (r matches Err(
                IronCoreError::SymbolNotFound(name),
            ) && name@ == spec_first_missing_symbol(*symbols)),
            spec_all_symbols_present(*symbols) && r is Err ==> r->Err_0
                == IronCoreError::EncodingError,
            r is Ok ==> {
                let req = r->Ok_0;
                &&& req.exe_path@ == exe_path@
                &&& req.app_domain_friendly_name@ == "IronCore CLR Host"@
                &&& req.properties.wf()
                &&& req.properties.values@[0]@ == trusted_assemblies@
                &&& req.properties.values@[1]@ == app_paths@
                &&& req.properties.values@[2]@ == app_ni_paths@
                &&& req.properties.values@[3]@ == native_dll_search_dirs@
                &&& req.properties.values@[4]@ == spec_compat_switch_value()
            },
    {
        if !symbols.initialize {
            return Err(IronCoreError::SymbolNotFound("coreclr_initialize".to_owned()));
        }
        if !symbols.execute_assembly {
            return Err(IronCoreError::SymbolNotFound("coreclr_execute_assembly".to_owned()));
        }
        if !symbols.create_delegate {
            return Err(IronCoreError::SymbolNotFound("coreclr_create_delegate".to_owned()));
        }
        if !symbols.shutdown {
            return Err(IronCoreError::SymbolNotFound("coreclr_shutdown".to_owned()));
        }
        if contains_nul(exe_path) {
            return Err(IronCoreError::EncodingError);
        }
        let properties = match PropertyBag::build(
            trusted_assemblies,
            app_paths,
            app_ni_paths,
            native_dll_search_dirs,
        ) {
            Ok(bag) => bag,
            Err(e) => {
                return Err(e);
            },
        };
        Ok(
            InitializeRequest {
                exe_path: exe_path.to_owned(),
                app_domain_friendly_name: "IronCore CLR Host".to_owned(),
                properties,
            },
        )
    }

    /// Prepares the execute call for an assembly and its arguments,
    /// which the runtime receives as null-terminated strings. Valid only
    /// while the session is `Initialized`; never changes its state.
    /// Fails with `EncodingError` exactly when the path or an argument
    /// carries an embedded null byte.
    pub fn execute_assembly(&self, assembly: &str, args: Vec<String>) -> (r: IronCoreResult<
        ExecuteAssemblyRequest,
    >)
        requires
            self.spec_state() == SessionState::Initialized,
        ensures
            r is Ok <==> !has_nul(assembly@) && (forall|i: int|
                0 <= i < args@.len() ==> !has_nul(#[trigger] args@[i]@)),
            r is Err ==> r->Err_0 == IronCoreError::EncodingError,
            r is Ok ==> {
                let req = r->Ok_0;
                &&& req.host_handle == self.spec_host_handle()
                &&& req.domain_id == self.spec_domain_id()
                &&& req.assembly_path@ == assembly@
                &&& req.args == args
            },
    {
        if contains_nul(assembly) {
            return Err(IronCoreError::EncodingError);
        }
        let mut i: usize = 0;
        while i < args.len()
            invariant
                i <= args@.len(),
                forall|j: int| 0 <= j < i ==> !has_nul(#[trigger] args@[j]@),
            decreases args@.len() - i,
        {
            if contains_nul(args[i].as_str()) {
                return Err(IronCoreError::EncodingError);
            }
            i += 1;
        }
        Ok(
            ExecuteAssemblyRequest {
                host_handle: self.host_handle,
                domain_id: self.domain_id,
                assembly_path: assembly.to_owned(),
                args,
            },
        )
    }

    /// Prepares the create-delegate call for a managed static method's
    /// coordinates. Valid only while the session is `Initialized`; never
    /// changes its state. Fails with `EncodingError` exactly when a
    /// coordinate carries an embedded null byte.
    pub fn create_delegate(
        &self,
        entry_point_assembly_name: &str,
        entry_point_type_name: &str,
        entry_point_method_name: &str,
    ) -> (r: IronCoreResult<CreateDelegateRequest>)
        requires
            self.spec_state() == SessionState::Initialized,
        ensures
            r is Ok <==> !has_nul(entry_point_assembly_name@) && !has_nul(entry_point_type_name@)
                && !has_nul(entry_point_method_name@),
            r is Err ==> r->Err_0 == IronCoreError::EncodingError,
            r is Ok ==> {
                let req = r->Ok_0;
                &&& req.host_handle == self.spec_host_handle()
                &&& req.domain_id == self.spec_domain_id()
                &&& req.assembly_name@ == entry_point_assembly_name@
                &&& req.entry_point_type_name@ == entry_point_type_name@
                &&& req.method_name@ == entry_point_method_name@
            },
    {
        if contains_nul(entry_point_assembly_name) || contains_nul(entry_point_type_name)
            || contains_nul(entry_point_method_name) {
            return Err(IronCoreError::EncodingError);
        }
        Ok(
            CreateDelegateRequest {
                host_handle: self.host_handle,
                domain_id: self.domain_id,
                assembly_name: entry_point_assembly_name.to_owned(),
                entry_point_type_name: entry_point_type_name.to_owned(),
                method_name: entry_point_method_name.to_owned(),
            },
        )
    }

    /// Takes the one permitted shutdown step. From `Initialized` it
    /// yields the request the native shutdown entry point takes; once
    /// the session is `ShutDown` it yields nothing, so the entry point
    /// can never be fired twice. Whatever status the native call then
    /// returns is observed by the embedder, never propagated: disposal
    /// cannot fail.
    pub fn shutdown(&mut self) -> (r: Option<ShutdownRequest>)
        ensures
            (final (self).spec_state(), r is Some) == spec_step(
                old(self).spec_state(),
                SessionOp::Shutdown,
            ),
            final (self).spec_host_handle() == old(self).spec_host_handle(),
            final (self).spec_domain_id() == old(self).spec_domain_id(),
            r matches Some(req) ==> req.host_handle == old(self).spec_host_handle()
                && req.domain_id == old(self).spec_domain_id(),
    {
        match self.state {
            SessionState::Initialized => {
                self.state = SessionState::ShutDown;
                Some(ShutdownRequest { host_handle: self.host_handle, domain_id: self.domain_id })
            },
            SessionState::ShutDown => None,
        }
    }
}

impl InitializeRequest {
    /// Interprets the runtime's reply to the initialize call this
    /// request described, consuming the request: on a succeeding status
    /// the session exists, `Initialized`, owning the issued handle pair;
    /// on a failing status there is no session, only the translated
    /// `StatusError`.
    pub fn complete(
        self,
        status: u32,
        host_handle: u64,
        domain_id: CoreClrDomainId,
    ) -> (r: IronCoreResult<CoreClrInstance>)
        ensures
            r is Ok <==> spec_succeeded(spec_translate(status)),
            r is Err ==> r->Err_0 == IronCoreError::StatusError(spec_translate(status)),
            r is Ok ==> {
                let session = r->Ok_0;
                &&& session.spec_state() == SessionState::Initialized
                &&& session.spec_host_handle() == CoreClrHostHandle::Token(host_handle)
                &&& session.spec_domain_id() == domain_id
            },
    {
        match HRESULT::translate(status).check() {
            Ok(()) => Ok(
                CoreClrInstance {
                    state: SessionState::Initialized,
                    host_handle: CoreClrHostHandle::Token(host_handle),
                    domain_id,
                },
            ),
            Err(e) => Err(e),
        }
    }
}

impl ExecuteAssemblyRequest {
    /// Interprets the runtime's reply to the execute call this request
    /// described: on a succeeding status, the runtime-reported process
    /// exit code; on a failing status, the translated `StatusError`.
    pub fn complete(self, status: u32, exit_code: u32) -> (r: IronCoreResult<u32>)
        ensures
            r is Ok <==> spec_succeeded(spec_translate(status)),
            r is Ok ==> r->Ok_0 == exit_code,
            r is Err ==> r->Err_0 == IronCoreError::StatusError(spec_translate(status)),
    {
        match HRESULT::translate(status).check() {
            Ok(()) => Ok(exit_code),
            Err(e) => Err(e),
        }
    }
}

impl CreateDelegateRequest {
    /// Interprets the runtime's reply to the create-delegate call this
    /// request described: on a succeeding status, the resolved address
    /// as an opaque delegate pointer; on a failing status, the
    /// translated `StatusError`.
    pub fn complete(self, status: u32, delegate_address: u64) -> (r: IronCoreResult<
        CoreClrDelegatePointer,
    >)
        ensures
            r is Ok <==> spec_succeeded(spec_translate(status)),
            r is Ok ==> r->Ok_0 == (CoreClrDelegatePointer { address: delegate_address }),
            r is Err ==> r->Err_0 == IronCoreError::StatusError(spec_translate(status)),
    {
        match HRESULT::translate(status).check() {
            Ok(()) => Ok(CoreClrDelegatePointer { address: delegate_address }),
            Err(e) => Err(e),
        }
    }
}

} // verus!
