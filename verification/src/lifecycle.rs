use vstd::prelude::*;
use crate::error::ClrError;
use crate::pe::{spec_is_dotnet, spec_is_exe, spec_valid_assembly, validate_file};
use crate::value::{ClrValue, SafeArray, VT_ARRAY, VT_BSTR, VT_UI1, VT_VARIANT, spec_box_str};
use crate::wide::{encode_utf16_z, lemma_utf16_encode_bmp_len, utf16_encode};

verus! {

/// The hosted-runtime versions this crate knows how to request.
#[derive(Clone, Copy, Debug, PartialEq, Eq, Structural)]
pub enum RuntimeVersion {
    /// The version labelled `v2.0.50727`.
    V2,
    /// The version labelled `v3.0`.
    V3,
    /// The version labelled `v4.0.30319`.
    V4,
    /// An unknown or unsupported version; its label passes through to
    /// discovery and fails there.
    UNKNOWN,
}

impl RuntimeVersion {
    /// The version label handed to runtime discovery.
    pub open spec fn spec_label(self) -> Seq<char> {
        match self {
            RuntimeVersion::V2 => "v2.0.50727"@,
            RuntimeVersion::V3 => "v3.0"@,
            RuntimeVersion::V4 => "v4.0.30319"@,
            RuntimeVersion::UNKNOWN => "UNKNOWN"@,
        }
    }

    /// Returns the version label handed to runtime discovery.
    pub fn label(self) -> (r: &'static str)
        ensures
            r@ == self.spec_label(),
    {
        match self {
            RuntimeVersion::V2 => "v2.0.50727",
            RuntimeVersion::V3 => "v3.0",
            RuntimeVersion::V4 => "v4.0.30319",
            RuntimeVersion::UNKNOWN => "UNKNOWN",
        }
    }

    /// Returns the version label as a null-terminated wide string.
    pub fn to_vec(self) -> (r: Vec<u16>)
        ensures
            r@ == utf16_encode(self.spec_label()).push(0),
    {
        encode_utf16_z(self.label())
    }
}

/// The states of the bootstrap protocol, in the order the protocol walks
/// them.
#[derive(Clone, Copy, Debug, PartialEq, Eq, Structural)]
pub enum ClrState {
    /// Nothing acquired yet.
    Uninitialized,
    /// The host-discovery root object exists.
    MetaReady,
    /// A descriptor for the requested runtime version has been resolved.
    VersionResolved,
    /// The host binding interface has been obtained.
    HostBound,
    /// The host is running (or was already running and the start step was
    /// skipped).
    HostStarted,
    /// An execution domain is ready for loading code units.
    DomainReady,
    /// The domain has been unloaded and the host stop call issued.
    TornDown,
}

/// The two teardown actions, always performed in the reverse order of
/// acquisition: the domain is unloaded before the host is stopped.
#[derive(Clone, Copy, Debug, PartialEq, Eq, Structural)]
pub enum TeardownStep {
    /// Unload the live execution domain.
    UnloadDomain,
    /// Issue the best-effort host stop call.
    StopHost,
}

/// The outward-visible steps of one packaged run, in order.
#[derive(Clone, Copy, Debug, PartialEq, Eq, Structural)]
pub enum RunStep {
    /// Load the code unit into the domain.
    LoadUnit,
    /// Install the in-memory sink as standard output and error.
    Redirect,
    /// Invoke the unit's designated entry member.
    InvokeEntry,
    /// Extract the text the sink accumulated.
    Capture,
    /// Reinstall the original sinks.
    Restore,
    /// Unload the execution domain.
    UnloadDomain,
    /// Issue the best-effort host stop call.
    StopHost,
}

/// Drives hosting of one code unit: configuration, the ordered bootstrap
/// protocol, and the guaranteed teardown. Each cross-boundary call is made
/// by the caller, which reports the outcome back; this type decides what
/// happens next and never skips a release.
#[derive(Debug)]
pub struct RustClr {
    /// The code unit to host, already validated.
    pub buffer: Vec<u8>,
    /// Whether the packaged run captures the hosted environment's output.
    pub redirect_output: bool,
    /// The requested domain name; absent means a generated unique name.
    pub domain_name: Option<String>,
    /// The requested runtime version; absent means the newest supported.
    pub runtime_version: Option<RuntimeVersion>,
    /// The ordered arguments for the entry point, when any were supplied.
    pub args: Option<Vec<String>>,
    /// Where the bootstrap protocol stands.
    pub state: ClrState,
    /// True once the host binding interface has been obtained.
    pub host_bound: bool,
    /// True while an execution domain is live.
    pub domain_active: bool,
    /// True once the best-effort host stop call has been issued.
    pub host_stopped: bool,
    /// The recorded status of the stop call; never surfaced as an error.
    pub stop_status: Option<i32>,
}

/// Relies on `uuid::Uuid::new_v4` and the hyphenated lowercase form its
/// display conversion produces: 36 characters, each a lowercase ASCII
/// hexadecimal digit or a hyphen.
#[verifier::external_body]
fn fresh_uuid_string() -> (r: String)
    ensures
        r@.len() == 36,
        forall|i: int|
            0 <= i < r@.len() ==> {
                let c = #[trigger] r@[i];
                ('0' <= c && c <= '9') || ('a' <= c && c <= 'f') || c == '-'
            },
{
    uuid::Uuid::new_v4().to_string()
}

impl Default for RustClr {
    /// An unconfigured instance holding an empty buffer.
    fn default() -> (r: Self)
        ensures
            r.buffer@.len() == 0,
            !r.redirect_output,
            r.domain_name is None,
            r.runtime_version is None,
            r.args is None,
            r.state is Uninitialized,
            !r.host_bound,
            !r.domain_active,
            !r.host_stopped,
            r.stop_status is None,
    {
        RustClr {
            buffer: Vec::new(),
            redirect_output: false,
            domain_name: None,
            runtime_version: None,
            args: None,
            state: ClrState::Uninitialized,
            host_bound: false,
            domain_active: false,
            host_stopped: false,
            stop_status: None,
        }
    }
}

impl RustClr {
    /// Accepts a candidate code unit: the buffer must pass the validation
    /// gate before any lifecycle step can run, and the instance starts
    /// unconfigured with nothing acquired.
    pub fn new(buffer: Vec<u8>) -> (r: Result<RustClr, ClrError>)
        ensures
            r is Ok <==> spec_valid_assembly(buffer@),
            !spec_is_exe(buffer@) ==> (r matches Err(e) && e == ClrError::InvalidExecutable),
            spec_is_exe(buffer@) && !spec_is_dotnet(buffer@) ==> (r matches Err(e) && e
                == ClrError::NotDotNet),
            r matches Ok(c) ==> c.buffer@ == buffer@ && !c.redirect_output && c.domain_name is None
                && c.runtime_version is None && c.args is None && c.state is Uninitialized
                && !c.host_bound && !c.domain_active && !c.host_stopped && c.stop_status is None,
    {
        match validate_file(buffer.as_slice()) {
            Ok(_) => Ok(
                RustClr {
                    buffer,
                    redirect_output: false,
                    domain_name: None,
                    runtime_version: None,
                    args: None,
                    state: ClrState::Uninitialized,
                    host_bound: false,
                    domain_active: false,
                    host_stopped: false,
                    stop_status: None,
                },
            ),
            Err(e) => Err(e),
        }
    }

    /// Selects the runtime version to request.
    pub fn with_runtime_version(self, version: RuntimeVersion) -> (r: Self)
        ensures
            r == (RustClr { runtime_version: Some(version), ..self }),
    {
        RustClr { runtime_version: Some(version), ..self }
    }

    /// Names the execution domain to create.
    pub fn with_domain(self, domain_name: &str) -> (r: Self)
        ensures
            r.domain_name matches Some(n) && n@ == domain_name@,
            r == (RustClr { domain_name: r.domain_name, ..self }),
    {
        RustClr { domain_name: Some(String::from_str(domain_name)), ..self }
    }

    /// Supplies the ordered argument list for the entry point.
    pub fn with_args(self, args: Vec<&str>) -> (r: Self)
        ensures
            r.args matches Some(a) && a@.len() == args@.len() && (forall|i: int|
                0 <= i < args@.len() ==> (#[trigger] a@[i])@ == args@[i]@),
            r == (RustClr { args: r.args, ..self }),
    {
        let mut owned: Vec<String> = Vec::new();
        let mut i: usize = 0;
        while i < args.len()
            invariant
                i <= args@.len(),
                owned@.len() == i,
                forall|j: int| 0 <= j < i ==> (#[trigger] owned@[j])@ == args@[j]@,
            decreases args@.len() - i,
        {
            owned.push(String::from_str(args[i]));
            i = i + 1;
        }
        RustClr { args: Some(owned), ..self }
    }

    /// Switches output capture on or off for the packaged run.
    pub fn with_output_redirection(self, redirect: bool) -> (r: Self)
        ensures
            r == (RustClr { redirect_output: redirect, ..self }),
    {
        RustClr { redirect_output: redirect, ..self }
    }

    /// The version that discovery will be asked for: the requested one, or
    /// the newest supported when none was requested.
    pub open spec fn spec_effective_version(self) -> RuntimeVersion {
        match self.runtime_version {
            Some(v) => v,
            None => RuntimeVersion::V4,
        }
    }

    /// Returns the wide version label that discovery will be asked for.
    pub fn runtime_label(&self) -> (r: Vec<u16>)
        ensures
            r@ == utf16_encode(self.spec_effective_version().spec_label()).push(0),
    {
        match self.runtime_version {
            Some(v) => v.to_vec(),
            None => RuntimeVersion::V4.to_vec(),
        }
    }

    /// Returns the wide name for the domain to create: the requested name,
    /// or a generated unique name when none was requested.
    pub fn domain_name_wide(&self) -> (r: Vec<u16>)
        ensures
            self.domain_name matches Some(n) ==> r@ == utf16_encode(n@).push(0),
            self.domain_name is None ==> r@.len() == 37 && r@[36] == 0 && (forall|i: int|
                0 <= i < 36 ==> #[trigger] r@[i] != 0),
    {
        match &self.domain_name {
            Some(n) => encode_utf16_z(n.as_str()),
            None => {
                let generated = fresh_uuid_string();
                proof {
                    lemma_utf16_encode_bmp_len(generated@);
                }
                encode_utf16_z(generated.as_str())
            },
        }
    }

    /// Records the outcome of creating the host-discovery root object.
    pub fn on_meta_host(&mut self, hr: i32, detail: String) -> (r: Result<(), ClrError>)
        requires
            old(self).state is Uninitialized,
        ensures
            hr == 0 ==> r is Ok && *final(self) == (RustClr {
                state: ClrState::MetaReady,
                ..*old(self)
            }),
            hr != 0 ==> (r matches Err(e) && e == ClrError::MetaHostCreationError(detail)
                && *final(self) == *old(self)),
    {
        if hr == 0 {
            self.state = ClrState::MetaReady;
            Ok(())
        } else {
            Err(ClrError::MetaHostCreationError(detail))
        }
    }

    /// Records the outcome of resolving the runtime-version descriptor.
    pub fn on_runtime_info(&mut self, hr: i32, detail: String) -> (r: Result<(), ClrError>)
        requires
            old(self).state is MetaReady,
        ensures
            hr == 0 ==> r is Ok && *final(self) == (RustClr {
                state: ClrState::VersionResolved,
                ..*old(self)
            }),
            hr != 0 ==> (r matches Err(e) && e == ClrError::RuntimeInfoError(detail)
                && *final(self) == *old(self)),
    {
        if hr == 0 {
            self.state = ClrState::VersionResolved;
            Ok(())
        } else {
            Err(ClrError::RuntimeInfoError(detail))
        }
    }

    /// Records the outcome of obtaining the host binding interface.
    pub fn on_runtime_host(&mut self, hr: i32, detail: String) -> (r: Result<(), ClrError>)
        requires
            old(self).state is VersionResolved,
        ensures
            hr == 0 ==> r is Ok && *final(self) == (RustClr {
                state: ClrState::HostBound,
                host_bound: true,
                ..*old(self)
            }),
            hr != 0 ==> (r matches Err(e) && e == ClrError::RuntimeHostError(detail)
                && *final(self) == *old(self)),
    {
        if hr == 0 {
            self.state = ClrState::HostBound;
            self.host_bound = true;
            Ok(())
        } else {
            Err(ClrError::RuntimeHostError(detail))
        }
    }

    /// Decides whether the start call must be issued: only a descriptor
    /// that reports itself loadable and not already started is started.
    pub fn needs_start(&self, loadable: bool, started: bool) -> (r: bool)
        ensures
            r == (loadable && !started),
    {
        loadable && !started
    }

    /// Records the outcome of the start call; only the reserved zero
    /// status counts as success.
    pub fn on_start(&mut self, hr: i32) -> (r: Result<(), ClrError>)
        requires
            old(self).state is HostBound,
        ensures
            hr == 0 ==> r is Ok && *final(self) == (RustClr {
                state: ClrState::HostStarted,
                ..*old(self)
            }),
            hr != 0 ==> (r matches Err(e) && e == ClrError::RuntimeStartError
                && *final(self) == *old(self)),
    {
        if hr == 0 {
            self.state = ClrState::HostStarted;
            Ok(())
        } else {
            Err(ClrError::RuntimeStartError)
        }
    }

    /// Skips the start call for a descriptor that is already started; the
    /// transition is idempotent in that case.
    pub fn skip_start(&mut self)
        requires
            old(self).state is HostBound,
        ensures
            *final(self) == (RustClr { state: ClrState::HostStarted, ..*old(self) }),
    {
        self.state = ClrState::HostStarted;
    }

    /// Records the outcome of creating the execution domain.
    pub fn on_domain_created(&mut self, hr: i32, detail: String) -> (r: Result<(), ClrError>)
        requires
            old(self).state is HostStarted,
        ensures
            hr == 0 ==> r is Ok && *final(self) == (RustClr {
                state: ClrState::DomainReady,
                domain_active: true,
                ..*old(self)
            }),
            hr != 0 ==> (r matches Err(e) && e == ClrError::DomainCreationError(detail)
                && *final(self) == *old(self)),
    {
        if hr == 0 {
            self.state = ClrState::DomainReady;
            self.domain_active = true;
            Ok(())
        } else {
            Err(ClrError::DomainCreationError(detail))
        }
    }

    /// Checks that an execution domain is live before a code unit is
    /// loaded into it.
    pub fn ensure_domain(&self) -> (r: Result<(), ClrError>)
        ensures
            r is Ok <==> self.domain_active,
            r is Err ==> r->Err_0 == ClrError::NoDomainAvailable,
    {
        if self.domain_active {
            Ok(())
        } else {
            Err(ClrError::NoDomainAvailable)
        }
    }

    /// Packs the configured entry-point arguments, when any were supplied,
    /// into the single argument-array parameter the entry point takes.
    pub fn entry_parameters(&self) -> (r: Option<SafeArray>)
        ensures
            self.args is None ==> r is None,
            self.args matches Some(a) ==> ({
                &&& r matches Some(sa)
                &&& sa.vt == VT_VARIANT
                &&& sa.lbound == 0
                &&& sa.elements@.len() == 1
                &&& sa.elements@[0] matches ClrValue::Array(t, elems)
                &&& t == (VT_ARRAY | VT_BSTR)
                &&& elems@.len() == a@.len()
                &&& forall|i: int| 0 <= i < a@.len() ==> spec_box_str(a@[i]@, #[trigger] elems@[i])
            }),
    {
        match &self.args {
            None => None,
            Some(a) => {
                let mut inner: Vec<ClrValue> = Vec::new();
                let mut i: usize = 0;
                while i < a.len()
                    invariant
                        i <= a@.len(),
                        inner@.len() == i,
                        forall|j: int| 0 <= j < i ==> spec_box_str(a@[j]@, #[trigger] inner@[j]),
                    decreases a@.len() - i,
                {
                    inner.push(ClrValue::Str(a[i].clone()));
                    i = i + 1;
                }
                let mut elements: Vec<ClrValue> = Vec::new();
                elements.push(ClrValue::Array(VT_ARRAY | VT_BSTR, inner));
                Some(SafeArray { vt: VT_VARIANT, lbound: 0, elements })
            },
        }
    }

    /// The byte buffer as the loader takes it: a bounded array of bytes.
    pub fn load_buffer(&self) -> (r: SafeArray)
        ensures
            r.vt == VT_UI1,
            r.lbound == 0,
            r.elements@.len() == self.buffer@.len(),
            forall|i: int| 0 <= i < self.buffer@.len() ==> #[trigger] r.elements@[i]
                == ClrValue::UInt8(self.buffer@[i]),
    {
        crate::value::create_safe_array_buffer(self.buffer.as_slice())
    }

    /// The outward steps of one packaged run, in order: load, then — when
    /// capture is engaged — redirect before the entry point runs and
    /// capture and restore after it, and always the teardown pair last.
    pub fn run_plan(&self) -> (r: Vec<RunStep>)
        ensures
            self.redirect_output ==> r@ =~= seq![
                RunStep::LoadUnit,
                RunStep::Redirect,
                RunStep::InvokeEntry,
                RunStep::Capture,
                RunStep::Restore,
                RunStep::UnloadDomain,
                RunStep::StopHost,
            ],
            !self.redirect_output ==> r@ =~= seq![
                RunStep::LoadUnit,
                RunStep::InvokeEntry,
                RunStep::UnloadDomain,
                RunStep::StopHost,
            ],
    {
        let mut r: Vec<RunStep> = Vec::new();
        r.push(RunStep::LoadUnit);
        if self.redirect_output {
            r.push(RunStep::Redirect);
        }
        r.push(RunStep::InvokeEntry);
        if self.redirect_output {
            r.push(RunStep::Capture);
            r.push(RunStep::Restore);
        }
        r.push(RunStep::UnloadDomain);
        r.push(RunStep::StopHost);
        r
    }

    /// The cleanup owed after a failure during the run: when output was
    /// redirected the original sinks are still restored, and teardown
    /// still runs in full; the failure itself propagates.
    pub fn recovery_plan(&self, redirected: bool) -> (r: Vec<RunStep>)
        ensures
            redirected ==> r@ =~= seq![RunStep::Restore, RunStep::UnloadDomain, RunStep::StopHost],
            !redirected ==> r@ =~= seq![RunStep::UnloadDomain, RunStep::StopHost],
    {
        let mut r: Vec<RunStep> = Vec::new();
        if redirected {
            r.push(RunStep::Restore);
        }
        r.push(RunStep::UnloadDomain);
        r.push(RunStep::StopHost);
        r
    }

    /// The next teardown action owed by the current state: the live domain
    /// is unloaded first; only then, while the host binding is held and
    /// the stop call has not been issued, is the host stopped; afterwards
    /// nothing remains.
    pub open spec fn spec_teardown_next(self) -> Option<TeardownStep> {
        if self.domain_active {
            Some(TeardownStep::UnloadDomain)
        } else if self.host_bound && !self.host_stopped {
            Some(TeardownStep::StopHost)
        } else {
            None
        }
    }

    /// Returns the next teardown action owed by the current state.
    pub fn teardown_next(&self) -> (r: Option<TeardownStep>)
        ensures
            r == self.spec_teardown_next(),
    {
        if self.domain_active {
            Some(TeardownStep::UnloadDomain)
        } else if self.host_bound && !self.host_stopped {
            Some(TeardownStep::StopHost)
        } else {
            None
        }
    }

    /// Records the outcome of unloading the domain. The domain is dropped
    /// from the state either way, so teardown can continue; a non-zero
    /// status still surfaces as the call-site error.
    pub fn ack_unload(&mut self, hr: i32) -> (r: Result<(), ClrError>)
        requires
            old(self).domain_active,
        ensures
            *final(self) == (RustClr { domain_active: false, ..*old(self) }),
            hr == 0 ==> r is Ok,
            hr != 0 ==> (r matches Err(e) && e == ClrError::ApiError("UnloadDomain", hr)),
    {
        self.domain_active = false;
        if hr == 0 {
            Ok(())
        } else {
            Err(ClrError::ApiError("UnloadDomain", hr))
        }
    }

    /// Records the outcome of the best-effort stop call, which is only
    /// issued once the domain is gone; the status is recorded, never
    /// surfaced as an error, and the teardown is complete afterwards.
    pub fn ack_stop(&mut self, hr: i32)
        requires
            !old(self).domain_active,
        ensures
            *final(self) == (RustClr {
                state: ClrState::TornDown,
                host_stopped: true,
                stop_status: Some(hr),
                ..*old(self)
            }),
            final(self).spec_teardown_next() is None,
    {
        self.state = ClrState::TornDown;
        self.host_stopped = true;
        self.stop_status = Some(hr);
    }
}

/// The script text a scripted shell session submits for one command: the
/// command piped into the hosted text formatter, so that reading the
/// pipeline's output yields a single string object.
pub fn script_text(command: &str) -> (r: String)
    ensures
        r@ == command@ + " | Out-String"@,
{
    String::from_str(command).concat(" | Out-String")
}

/// Teardown runs in the reverse order of acquisition: while the domain is
/// live, the next owed action is always its unload, never the host stop.
pub proof fn lemma_teardown_order(c: RustClr)
    requires
        c.domain_active,
    ensures
        c.spec_teardown_next() == Some(TeardownStep::UnloadDomain),
{
}

/// Teardown idempotence: once the stop call has been issued and no domain
/// is live — the state every completed teardown leaves behind — the
/// sequence owes no further action, so running it again releases nothing
/// and cannot double-release a handle.
pub proof fn lemma_teardown_idempotent(c: RustClr)
    requires
        !c.domain_active,
        c.host_stopped,
    ensures
        c.spec_teardown_next() is None,
{
}

} // verus!
