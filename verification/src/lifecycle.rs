//! Capsule lifecycle: the manager that owns the running/idle state machine,
//! the buffer the dynamically received binary lives in, and the resource-path
//! report of the currently loaded capsule.
//!
//! The manager is generic over the capability state `T` (handed from the idle
//! variant to the running variant and back, so capability handles survive
//! restarts) and over the guest instance type `G`. Instantiation itself is an
//! engine concern: the manager asks for it through [`CanInstantiate`] and is
//! verified against every outcome of that call.

use crate::config::RuntimeConfig;
use vstd::prelude::*;

verus! {

/// Response-level errors the capsule dispatch surface reports.
#[derive(Debug, Clone, Copy, PartialEq, Eq, Structural)]
pub enum CoapError {
    /// No capsule is running to answer the request. Only the dispatch surface
    /// itself produces this: a capsule cannot answer "service unavailable".
    ServiceUnavailable,
    /// The capsule does not answer under the requested path.
    NotFound,
    /// The capsule crashed or misbehaved while answering.
    InternalServerError,
    /// The capsule's handler was never initialised.
    HandlerNotBuilt,
    /// The uploaded program could not be instantiated.
    BadRequest,
    /// The control resource answers only upload and delete requests.
    MethodNotAllowed,
    /// The request carries a critical option the resource does not recognise.
    BadOption,
}

/// The errors a capsule itself may answer with: a strict subset of the
/// dispatch surface's errors, so that what only the host can mean — "no
/// capsule is running" — can never come out of a capsule.
#[derive(Debug, Clone, Copy, PartialEq, Eq, Structural)]
pub enum GuestError {
    /// The capsule does not answer under the requested path.
    NotFound,
    /// The capsule crashed or misbehaved while answering.
    InternalServerError,
    /// The capsule's handler was never initialised.
    HandlerNotBuilt,
}

impl CoapError {
    /// The response-level form of a capsule's own error.
    pub fn from_guest(e: GuestError) -> (r: CoapError)
        ensures
            r == (match e {
                GuestError::NotFound => CoapError::NotFound,
                GuestError::InternalServerError => CoapError::InternalServerError,
                GuestError::HandlerNotBuilt => CoapError::HandlerNotBuilt,
            }),
            r != CoapError::ServiceUnavailable,
    {
        match e {
            GuestError::NotFound => CoapError::NotFound,
            GuestError::InternalServerError => CoapError::InternalServerError,
            GuestError::HandlerNotBuilt => CoapError::HandlerNotBuilt,
        }
    }
}

/// Why loading a capsule binary failed. The manager reverts to idle and
/// reports one of these; the device keeps running without a capsule.
#[derive(Debug, Clone, Copy, PartialEq, Eq, Structural)]
pub enum LoadError {
    /// The engine refused the binary.
    MalformedImage,
    /// The instance could not be bound to its capabilities, or failed its
    /// own initialisation.
    BindingFailed,
    /// The binary was prepared under a configuration the engine does not run.
    ConfigMismatch,
}

/// One resource path reported by a capsule: a slash-joined string of path
/// segments, used for routing and status reporting.
#[derive(Debug, Clone)]
pub struct StringRecord(pub String);

impl StringRecord {
    /// The relation attribute of the record; capsule resources carry none.
    pub fn rel(&self) -> (r: Option<&str>)
        ensures
            r is None,
    {
        None
    }

    /// The record's path.
    pub fn path(&self) -> (r: String)
        ensures
            r@ == self.0@,
    {
        self.0.clone()
    }
}

/// The slash-joined form of a sequence of path segments: the segments in
/// order, one `/` between neighbours, none at either end.
pub open spec fn joined_path(segments: Seq<Seq<char>>) -> Seq<char>
    decreases segments.len(),
{
    if segments.len() == 0 {
        Seq::empty()
    } else if segments.len() == 1 {
        segments[0]
    } else {
        segments[0] + seq!['/'] + joined_path(segments.skip(1))
    }
}

/// Appending a segment extends the joined path by one separator and the
/// segment — except for the first segment, which stands alone.
pub proof fn lemma_joined_path_push(ss: Seq<Seq<char>>, x: Seq<char>)
    ensures
        joined_path(ss.push(x)) == if ss.len() == 0 {
            x
        } else {
            joined_path(ss) + seq!['/'] + x
        },
    decreases ss.len(),
{
    if ss.len() == 0 {
        assert(ss.push(x)[0] == x);
    } else {
        assert(ss.push(x).skip(1) =~= ss.skip(1).push(x));
        lemma_joined_path_push(ss.skip(1), x);
        assert(ss.push(x)[0] == ss[0]);
        if ss.len() > 1 {
            assert(ss[0] + seq!['/'] + (joined_path(ss.skip(1)) + seq!['/'] + x) =~= (ss[0]
                + seq!['/'] + joined_path(ss.skip(1))) + seq!['/'] + x);
        }
    }
}

/// Joins a capsule-reported list of path segments into one resource path,
/// the form the manager's report holds.
pub fn join_path_segments(segments: &Vec<String>) -> (r: String)
    ensures
        r@ == joined_path(segments@.map_values(|s: String| s@)),
{
    let mut r = String::new();
    let n = segments.len();
    let mut i: usize = 0;
    while i < n
        invariant
            i <= n,
            n == segments@.len(),
            r@ == joined_path(segments@.map_values(|s: String| s@).take(i as int)),
        decreases n - i,
    {
        if i > 0 {
            proof {
                reveal_strlit("/");
            }
            r.append("/");
        }
        r.append(segments[i].as_str());
        proof {
            let m = segments@.map_values(|s: String| s@);
            assert(m.take(i + 1 as int) =~= m.take(i as int).push(m[i as int]));
            lemma_joined_path_push(m.take(i as int), m[i as int]);
        }
        i = i + 1;
    }
    proof {
        let m = segments@.map_values(|s: String| s@);
        assert(m.take(n as int) =~= m);
    }
    r
}

/// A validated binary ready for instantiation, tagged with the configuration
/// it was prepared under. The backing bytes of a dynamically received image
/// must not change while an instance derived from it is alive; the manager
/// guarantees that by copying the dynamic buffer before instantiation.
#[derive(Debug, Clone)]
pub struct CompiledImage {
    /// The prepared binary.
    pub bytes: Vec<u8>,
    /// The configuration the preparation step ran with.
    pub prepared_with: RuntimeConfig,
}

/// The request surface a loaded capsule exposes to the host.
///
/// Implementations drive the actual engine; nothing is assumed of their
/// behaviour, and the manager is verified for every outcome.
pub trait CoapServerGuest<T>: Sized {
    /// Runs one request through the capsule: request code and serialised
    /// message in, response code and serialised message out.
    fn coap_run(&mut self, store_data: &mut T, code: u8, observed_len: u32, message: Vec<u8>)
        -> Result<(u8, Vec<u8>), GuestError>;

    /// Lets the capsule build its handler once after instantiation.
    fn initialize_handler(&mut self, store_data: &mut T) -> Result<(), ()>;

    /// Asks the capsule which resource paths it answers under.
    fn report_resources(&mut self, store_data: &mut T) -> Result<Vec<String>, GuestError>;
}

/// Instantiation of a guest from a prepared binary: binding the capability
/// imports and creating the execution context. Implemented over the engine.
pub trait CanInstantiate<T>: Sized {
    /// Builds an instance of the guest against `store_data` from the prepared
    /// bytes of `program`, under the engine configuration `config`.
    fn instantiate(store_data: &mut T, config: &RuntimeConfig, program: &[u8]) -> Result<
        Self,
        LoadError,
    >;
}

/// The lifecycle state: a capsule is running, or the capability state is
/// parked waiting for the next start. `Taken` exists only inside a state
/// transition so the transition can consume the old value and produce the new
/// one; it is never a resting state, and the manager's well-formedness
/// excludes it at every observation point.
pub enum WasmHandlerState<T, G> {
    Running { store_data: T, instance: G },
    NotRunning { store_data: T },
    Taken,
}

impl<T, G> WasmHandlerState<T, G> {
    /// Tears down a running instance, recovering the capability state for the
    /// next start; idle states are left as they are. Never fails.
    pub fn stop(&mut self)
        ensures
            (*old(self) matches WasmHandlerState::Running { store_data, .. } ==> *final(self)
                == (WasmHandlerState::NotRunning::<T, G> { store_data })),
            !(*old(self) is Running) ==> *final(self) == *old(self),
            !(*final(self) is Running),
            *old(self) is Taken <==> *final(self) is Taken,
    {
        let mut owned = WasmHandlerState::Taken;
        core::mem::swap(&mut owned, self);
        *self = match owned {
            WasmHandlerState::Running { store_data, instance: _ } => WasmHandlerState::NotRunning {
                store_data,
            },
            stopped => stopped,
        };
    }
}

/// Why the dynamic buffer refused a write.
#[derive(Debug, Clone, Copy, PartialEq, Eq, Structural)]
pub enum ProgramError {
    /// A capsule is running; the buffer must not change under it.
    StillRunning,
    /// The write would exceed the fixed buffer size.
    CapacityExceeded,
}

/// The capsule lifecycle manager: the state machine, the resource-path report
/// of the loaded capsule, and the fixed-size buffer the dynamically received
/// binary is assembled in.
pub struct WasmHandler<T, G> {
    /// Current lifecycle state.
    pub state: WasmHandlerState<T, G>,
    /// Resource paths of the loaded capsule; empty before the first
    /// successful instantiation, rebuilt on every later one, discarded on
    /// stop.
    pub paths: Vec<StringRecord>,
    /// Backing data of a dynamically received instance. Empty when the
    /// capsule was loaded from a built-in image.
    pub program: Vec<u8>,
    /// Fixed size of the dynamic buffer; set by the host, not negotiated.
    pub program_capacity: usize,
}

impl<T, G> WasmHandler<T, G> {
    /// Well-formedness at every observation point: the transient `Taken`
    /// marker is not visible, and the dynamic buffer respects its fixed size.
    pub open spec fn wf(&self) -> bool {
        &&& !(self.state is Taken)
        &&& self.program@.len() <= self.program_capacity
    }

    /// A fresh manager: idle, with the given capability state, no paths, and
    /// an empty dynamic buffer of the given fixed capacity.
    pub fn new(store_data: T, program_capacity: usize) -> (h: Self)
        ensures
            h.wf(),
            h.state == (WasmHandlerState::NotRunning::<T, G> { store_data }),
            h.paths@.len() == 0,
            h.program@.len() == 0,
            h.program_capacity == program_capacity,
    {
        WasmHandler {
            state: WasmHandlerState::NotRunning { store_data },
            paths: Vec::new(),
            program: Vec::new(),
            program_capacity,
        }
    }

    /// True while a capsule is instantiated and bound.
    pub fn is_running(&self) -> (r: bool)
        ensures
            r == (self.state is Running),
    {
        match &self.state {
            WasmHandlerState::Running { .. } => true,
            _ => false,
        }
    }

    /// Stops any running capsule and discards the resource-path report.
    /// A no-op on the state when already idle. Never fails.
    pub fn stop(&mut self)
        requires
            old(self).wf(),
        ensures
            final(self).wf(),
            stop_rel(*old(self), *final(self)),
            (old(self).state matches WasmHandlerState::Running { store_data, .. }
                ==> final(self).state == (WasmHandlerState::NotRunning::<T, G> { store_data })),
            !(old(self).state is Running) ==> final(self).state == old(self).state,
    {
        self.state.stop();
        self.paths = Vec::new();
    }

    /// Number of bytes currently in the dynamic buffer.
    pub fn program_len(&self) -> (r: usize)
        ensures
            r == self.program@.len(),
    {
        self.program.len()
    }

    /// Empties the dynamic buffer, or refuses while a capsule is running:
    /// the buffer must not change under a live instance.
    pub fn truncate_program(&mut self) -> (r: Result<(), ProgramError>)
        requires
            old(self).wf(),
        ensures
            final(self).wf(),
            (old(self).state is Running ==> r == Err::<(), ProgramError>(ProgramError::StillRunning)
                && *final(self) == *old(self)),
            (!(old(self).state is Running) ==> r == Ok::<(), ProgramError>(()) && same_but_program(
                *old(self),
                *final(self),
            ) && final(self).program@ =~= Seq::<u8>::empty()),
    {
        if self.is_running() {
            Err(ProgramError::StillRunning)
        } else {
            self.program = Vec::new();
            Ok(())
        }
    }

    /// Writes `data` at the end of the dynamic buffer: the one mutation path
    /// into the program image. Refused while a capsule is running, and with a
    /// capacity error when the write would exceed the fixed buffer size.
    pub fn mutate_program(&mut self, data: &[u8]) -> (r: Result<(), ProgramError>)
        requires
            old(self).wf(),
        ensures
            final(self).wf(),
            (old(self).state is Running ==> r == Err::<(), ProgramError>(ProgramError::StillRunning)
                && *final(self) == *old(self)),
            (!(old(self).state is Running) && old(self).program@.len() + data@.len() > old(
                self,
            ).program_capacity ==> r == Err::<(), ProgramError>(ProgramError::CapacityExceeded)
                && *final(self) == *old(self)),
            (!(old(self).state is Running) && old(self).program@.len() + data@.len() <= old(
                self,
            ).program_capacity ==> r == Ok::<(), ProgramError>(()) && same_but_program(
                *old(self),
                *final(self),
            ) && final(self).program@ == old(self).program@ + data@),
    {
        if self.is_running() {
            Err(ProgramError::StillRunning)
        } else if data.len() > self.program_capacity - self.program.len() {
            Err(ProgramError::CapacityExceeded)
        } else {
            let mut i: usize = 0;
            let n = data.len();
            let ghost pre = *self;
            let ghost orig: Seq<u8> = self.program@;
            while i < n
                invariant
                    i <= n,
                    n == data@.len(),
                    self.program@ == orig + data@.take(i as int),
                    self.state == pre.state,
                    self.paths == pre.paths,
                    self.program_capacity == pre.program_capacity,
                decreases n - i,
            {
                self.program.push(data[i]);
                i = i + 1;
            }
            proof {
                assert(self.program@ =~= orig + data@);
            }
            Ok(())
        }
    }

    /// The last-computed resource-path list; empty before the first
    /// successful instantiation.
    pub fn resource_paths(&self) -> (r: &Vec<StringRecord>)
        ensures
            r == &self.paths,
    {
        &self.paths
    }

    /// A copy of the last-computed path list, for a reporting surface that
    /// needs to own its records.
    pub fn report_resources(&self) -> (r: Vec<StringRecord>)
        ensures
            r@.len() == self.paths@.len(),
            forall|i: int| 0 <= i < r@.len() ==> (#[trigger] r@[i]).0@ == self.paths@[i].0@,
    {
        let n = self.paths.len();
        let mut r: Vec<StringRecord> = Vec::new();
        let mut i: usize = 0;
        while i < n
            invariant
                i <= n,
                n == self.paths@.len(),
                r@.len() == i,
                forall|j: int| 0 <= j < i ==> (#[trigger] r@[j]).0@ == self.paths@[j].0@,
            decreases n - i,
        {
            r.push(StringRecord(self.paths[i].0.clone()));
            i = i + 1;
        }
        r
    }

    /// Starts a capsule from prepared bytes: consumes the parked capability
    /// state, asks the engine for an instance, lets it initialise and report
    /// its resource paths, and only then becomes `Running`. Any failure on
    /// the way restores the idle state with the capability state recovered —
    /// `Taken` is never left behind.
    ///
    /// Callers must stop a running capsule first; starting over one is a
    /// programming error, which the precondition excludes.
    pub fn start_raw(&mut self, wasm: &[u8], config: &RuntimeConfig) -> (r: Result<(), LoadError>)
        where G: CanInstantiate<T> + CoapServerGuest<T>
        requires
            old(self).wf(),
            old(self).state is NotRunning,
        ensures
            final(self).wf(),
            start_rel(*old(self), *final(self), r),
            final(self).program == old(self).program,
    {
        let mut owned = WasmHandlerState::Taken;
        core::mem::swap(&mut owned, &mut self.state);
        let mut store_data = match owned {
            WasmHandlerState::NotRunning { store_data } => store_data,
            _ => unreached(),
        };
        match G::instantiate(&mut store_data, config, wasm) {
            Err(e) => {
                self.state = WasmHandlerState::NotRunning { store_data };
                Err(e)
            },
            Ok(mut instance) => {
                match instance.initialize_handler(&mut store_data) {
                    Err(_) => {
                        self.state = WasmHandlerState::NotRunning { store_data };
                        Err(LoadError::BindingFailed)
                    },
                    Ok(_) => {
                        match instance.report_resources(&mut store_data) {
                            Err(_) => {
                                self.state = WasmHandlerState::NotRunning { store_data };
                                Err(LoadError::BindingFailed)
                            },
                            Ok(path_strings) => {
                                self.paths = wrap_path_records(&path_strings);
                                self.state = WasmHandlerState::Running { store_data, instance };
                                Ok(())
                            },
                        }
                    },
                }
            },
        }
    }

    /// Starts a capsule from a built-in image, after checking that the image
    /// was prepared under a configuration this engine runs.
    pub fn start_from_static(&mut self, image: &CompiledImage, config: &RuntimeConfig) -> (r:
        Result<(), LoadError>)
        where G: CanInstantiate<T> + CoapServerGuest<T>
        requires
            old(self).wf(),
            old(self).state is NotRunning,
        ensures
            final(self).wf(),
            final(self).program == old(self).program,
            (!crate::config::prepare_compatible(image.prepared_with, *config) ==> r == Err::<
                (),
                LoadError,
            >(LoadError::ConfigMismatch) && *final(self) == *old(self)),
            (crate::config::prepare_compatible(image.prepared_with, *config) ==> start_rel(
                *old(self),
                *final(self),
                r,
            )),
    {
        if !config.matches_prepared(&image.prepared_with) {
            return Err(LoadError::ConfigMismatch);
        }
        self.start_raw(image.bytes.as_slice(), config)
    }

    /// The bytes the next dynamic start hands to the engine: an exact copy of
    /// the dynamic buffer, owned by the caller, so the instance never aliases
    /// bytes that a later transfer overwrites.
    pub fn dynamic_image(&self) -> (r: Vec<u8>)
        ensures
            r@ == self.program@,
    {
        let mut image: Vec<u8> = Vec::new();
        let n = self.program.len();
        let mut i: usize = 0;
        while i < n
            invariant
                i <= n,
                n == self.program@.len(),
                image@ == self.program@.take(i as int),
            decreases n - i,
        {
            image.push(self.program[i]);
            i = i + 1;
        }
        proof {
            assert(image@ =~= self.program@);
        }
        image
    }

    /// Starts a capsule from the dynamic buffer: the engine is handed exactly
    /// the buffer's bytes, through [`Self::dynamic_image`].
    pub fn start_from_dynamic(&mut self, config: &RuntimeConfig) -> (r: Result<(), LoadError>)
        where G: CanInstantiate<T> + CoapServerGuest<T>
        requires
            old(self).wf(),
            old(self).state is NotRunning,
        ensures
            final(self).wf(),
            start_rel(*old(self), *final(self), r),
            final(self).program == old(self).program,
    {
        let image = self.dynamic_image();
        self.start_raw(image.as_slice(), config)
    }

    /// Hands one request to the running capsule and returns its response,
    /// the capsule's own errors mapped through [`CoapError::from_guest`];
    /// without a running capsule the service is unavailable — and only then,
    /// since no capsule can answer "service unavailable" itself. `message` is
    /// the request re-encoded into the canonical serialised form,
    /// `observed_len` the number of meaningful bytes in it.
    pub fn extract_request_data(&mut self, code: u8, observed_len: u32, message: Vec<u8>) -> (r:
        Result<(u8, Vec<u8>), CoapError>)
        where G: CoapServerGuest<T>
        requires
            old(self).wf(),
        ensures
            final(self).wf(),
            (r == Err::<(u8, Vec<u8>), CoapError>(CoapError::ServiceUnavailable)) <==> !(old(
                self,
            ).state is Running),
            (!(old(self).state is Running) ==> *final(self) == *old(self)),
            (old(self).state is Running ==> final(self).state is Running && same_but_state(
                *old(self),
                *final(self),
            )),
    {
        match &mut self.state {
            WasmHandlerState::Running { store_data, instance } => {
                match instance.coap_run(store_data, code, observed_len, message) {
                    Ok(response) => Ok(response),
                    Err(e) => Err(CoapError::from_guest(e)),
                }
            },
            _ => Err(CoapError::ServiceUnavailable),
        }
    }
}

/// Wraps the path strings a capsule reported into the manager's records, one
/// for one, in order, each holding exactly the reported string.
pub fn wrap_path_records(path_strings: &Vec<String>) -> (r: Vec<StringRecord>)
    ensures
        r@.len() == path_strings@.len(),
        forall|i: int| 0 <= i < r@.len() ==> (#[trigger] r@[i]).0@ == path_strings@[i]@,
{
    let mut records: Vec<StringRecord> = Vec::new();
    let n = path_strings.len();
    let mut i: usize = 0;
    while i < n
        invariant
            i <= n,
            n == path_strings@.len(),
            records@.len() == i,
            forall|j: int| 0 <= j < i ==> (#[trigger] records@[j]).0@ == path_strings@[j]@,
        decreases n - i,
    {
        records.push(StringRecord(path_strings[i].clone()));
        i = i + 1;
    }
    records
}

/// Everything of the manager except the lifecycle state is unchanged.
pub open spec fn same_but_state<T, G>(pre: WasmHandler<T, G>, post: WasmHandler<T, G>) -> bool {
    &&& post.paths == pre.paths
    &&& post.program == pre.program
    &&& post.program_capacity == pre.program_capacity
}

/// Everything of the manager except the program buffer is unchanged.
pub open spec fn same_but_program<T, G>(pre: WasmHandler<T, G>, post: WasmHandler<T, G>) -> bool {
    &&& post.state == pre.state
    &&& post.paths == pre.paths
    &&& post.program_capacity == pre.program_capacity
}

/// What stopping guarantees, whatever came before: idle, paths discarded,
/// program buffer untouched.
pub open spec fn stop_rel<T, G>(pre: WasmHandler<T, G>, post: WasmHandler<T, G>) -> bool {
    &&& post.state is NotRunning
    &&& post.paths@ =~= Seq::<StringRecord>::empty()
    &&& post.program == pre.program
    &&& post.program_capacity == pre.program_capacity
}

/// What starting guarantees, whatever the engine did: on success the manager
/// is running; on failure it is idle again, with the path report untouched.
/// The program buffer and its capacity survive either way.
pub open spec fn start_rel<T, G>(
    pre: WasmHandler<T, G>,
    post: WasmHandler<T, G>,
    r: Result<(), LoadError>,
) -> bool {
    &&& post.program == pre.program
    &&& post.program_capacity == pre.program_capacity
    &&& (r is Ok ==> post.state is Running)
    &&& (r is Err ==> post.state is NotRunning && post.paths == pre.paths)
}

/// Law: a start — successful or not — followed immediately by a stop leaves
/// the manager idle with its resource paths cleared, for every outcome the
/// engine can produce.
pub proof fn lemma_start_then_stop<T, G>(
    pre: WasmHandler<T, G>,
    mid: WasmHandler<T, G>,
    post: WasmHandler<T, G>,
    r: Result<(), LoadError>,
)
    requires
        start_rel(pre, mid, r),
        stop_rel(mid, post),
    ensures
        post.state is NotRunning,
        post.paths@ =~= Seq::<StringRecord>::empty(),
        post.program == pre.program,
{
}

} // verus!
