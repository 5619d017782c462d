//! The boot pipeline state machine.
//!
//! Control flows strictly forward through `Start → CompatChecked →
//! MemoryMapped → KernelLoaded → KernelPlaced → ServicesExited → HandedOff`;
//! any stage may instead abort, and the stale-map-key race at
//! boot-services exit re-enters the exit attempt after a fresh capture.
//! Each firmware call is outside work the driver performs between steps:
//! `step` receives what the call reported as a plain event, decides the next
//! stage, and names the next call as an action. Every decision is verified;
//! the loop that performs the actions runs outside the library.

use vstd::prelude::*;

use crate::compat::{all_mandatory_present, check_cpu_compatibility, CpuFeatures};
use crate::errors::{spec_status_of, status_of, BootError, IoError, ProtocolError, ResourceError, StatusCode, ValidationError};
use crate::handoff::{handoff_parameters, spec_handoff_parameters, HandoffParameters, MAX_MAP_ENTRIES};
use crate::loader::{load_kernel, spec_validate_kernel_file, validate_kernel_file, FileOpenOutcome, KernelImage, MAX_KERNEL_SIZE};
use crate::memory_map::MemoryMapSnapshot;
use crate::placer::{page_count, spec_page_count, PlacedKernel, KERNEL_LOAD_ADDRESS};

verus! {

/// Total boot-services-exit attempts allowed before the stale-map-key race
/// escalates from recoverable to fatal.
pub const EXIT_RETRY_BUDGET: u32 = 8;

/// Where the pipeline stands, together with everything the stage owns.
/// Ownership is strictly linear: each stage exclusively owns its payload
/// until the next event hands it on.
#[derive(Debug, PartialEq, Eq)]
pub enum BootStage {
    /// Nothing has happened; the CPU identification state is awaited.
    Start,
    /// Mandatory CPU features validated; the first map capture is awaited.
    CompatChecked,
    /// A memory map is captured (diagnostic; the handoff recaptures its own).
    MemoryMapped { map: MemoryMapSnapshot },
    /// The kernel file was opened and its declared size validated; the read
    /// is awaited.
    KernelFileSized { size: u64 },
    /// The image is fully read; the fixed-address allocation is awaited.
    KernelLoaded { image: KernelImage },
    /// The image stands at the fixed load address; the fresh pre-exit map
    /// capture is awaited.
    KernelPlaced { placed: PlacedKernel },
    /// A stale map key was rejected; a re-capture is awaited before the next
    /// exit attempt.
    ExitMapPending { placed: PlacedKernel, attempts_left: u32 },
    /// A fresh map is in hand; the boot-services-exit exchange is awaited.
    ExitPending { placed: PlacedKernel, map: MemoryMapSnapshot, attempts_left: u32 },
    /// Boot services are gone: the firmware's dynamic surface is frozen and
    /// the control transfer is issued.
    ServicesExited { placed: PlacedKernel, params: HandoffParameters },
    /// Terminal: control belongs to the kernel. Observable only when the
    /// transfer is simulated — a real completed transfer never returns.
    HandedOff { placed: PlacedKernel, params: HandoffParameters },
    /// Terminal: the pipeline failed and surfaced a status code.
    Aborted { error: BootError },
}

/// What a firmware call reported, handed to the next `step`.
#[derive(Debug, PartialEq, Eq)]
pub enum BootEvent {
    /// What the CPU identification state reported.
    CpuIdentified { features: CpuFeatures },
    /// What a full memory-map capture (the sizing retry loop included)
    /// produced.
    MapCaptured { result: Result<MemoryMapSnapshot, BootError> },
    /// What opening the fixed kernel path found.
    FileOpened { outcome: FileOpenOutcome },
    /// The bytes the file read delivered.
    FileRead { data: Vec<u8> },
    /// Whether the address-specific page allocation was granted.
    PagesAllocated { granted: bool },
    /// Whether the exit exchange accepted the presented map key.
    ExitAttempted { accepted: bool },
    /// The control transfer completed (reportable only by a simulated
    /// transfer; a real one never returns).
    TransferCompleted,
    /// Execution resumed after the transfer — the entry point violated its
    /// never-returns contract. A documented impossibility.
    TransferReturned,
}

/// The firmware call (or final act) the driver must perform next.
#[derive(Clone, Copy, Debug, PartialEq, Eq, Structural)]
pub enum BootAction {
    /// Read the CPU identification state.
    IdentifyCpu,
    /// Run a full memory-map capture.
    CaptureMap,
    /// Open the fixed kernel path on the boot volume.
    OpenKernelFile,
    /// Read exactly `size` bytes from the opened file.
    ReadKernelFile { size: u64 },
    /// Request `pages` pages at exactly `address`, classified loader-owned.
    AllocatePages { address: u64, pages: usize },
    /// Present `map_key` to the boot-services-exit exchange.
    ExitBootServices { map_key: u64 },
    /// Invoke the kernel entry with the assembled parameters; never returns.
    TransferControl { params: HandoffParameters },
    /// Surface `status` to the invoking environment and stop.
    Halt { status: StatusCode },
    /// Nothing remains to be done.
    Idle,
}

/// The stage and action an abort with `error` produces.
pub open spec fn spec_abort(error: BootError) -> (BootStage, BootAction) {
    (BootStage::Aborted { error }, BootAction::Halt { status: spec_status_of(error) })
}

/// Events that can carry an over-long memory map are capped at the machine
/// limit that keeps the handed-off byte length within its 64-bit ABI slot.
pub open spec fn event_wf(event: BootEvent) -> bool {
    event matches BootEvent::MapCaptured { result } ==> (result matches Ok(map)
        ==> map.descriptors@.len() <= MAX_MAP_ENTRIES)
}

impl BootStage {
    /// Stage payloads are well-formed: sizes validated, images and placed
    /// kernels meet their invariants, maps short enough to hand off.
    pub open spec fn wf(self) -> bool {
        match self {
            BootStage::KernelFileSized { size } => 0 < size <= MAX_KERNEL_SIZE,
            BootStage::KernelLoaded { image } => image.wf(),
            BootStage::KernelPlaced { placed } => placed.wf(),
            BootStage::ExitMapPending { placed, attempts_left } => placed.wf(),
            BootStage::ExitPending { placed, map, attempts_left } => placed.wf()
                && map.descriptors@.len() <= MAX_MAP_ENTRIES,
            BootStage::ServicesExited { placed, params } => placed.wf(),
            BootStage::HandedOff { placed, params } => placed.wf(),
            _ => true,
        }
    }

    /// Terminal stages have no successor.
    pub open spec fn is_terminal(self) -> bool {
        self is HandedOff || self is Aborted
    }

    /// Which event the stage's pending firmware call can report. Terminal
    /// stages accept none.
    pub open spec fn expects(self, event: BootEvent) -> bool {
        match self {
            BootStage::Start => event is CpuIdentified,
            BootStage::CompatChecked => event is MapCaptured,
            BootStage::MemoryMapped { .. } => event is FileOpened,
            BootStage::KernelFileSized { .. } => event is FileRead,
            BootStage::KernelLoaded { .. } => event is PagesAllocated,
            BootStage::KernelPlaced { .. } => event is MapCaptured,
            BootStage::ExitMapPending { .. } => event is MapCaptured,
            BootStage::ExitPending { .. } => event is ExitAttempted,
            BootStage::ServicesExited { .. } => event is TransferCompleted || event
                is TransferReturned,
            BootStage::HandedOff { .. } => false,
            BootStage::Aborted { .. } => false,
        }
    }

    /// The transition relation: the stage and action that follow `self` on
    /// `event`. This is the pipeline's whole protocol in one place; `step`
    /// is proved to return exactly this.
    pub open spec fn next(self, event: BootEvent) -> (BootStage, BootAction) {
        match (self, event) {
            (BootStage::Start, BootEvent::CpuIdentified { features }) => {
                if all_mandatory_present(features) {
                    (BootStage::CompatChecked, BootAction::CaptureMap)
                } else {
                    spec_abort(BootError::Validation(ValidationError::UnsupportedCpu))
                }
            },
            (BootStage::CompatChecked, BootEvent::MapCaptured { result }) => {
                match result {
                    Ok(map) => (BootStage::MemoryMapped { map }, BootAction::OpenKernelFile),
                    Err(error) => spec_abort(error),
                }
            },
            (BootStage::MemoryMapped { .. }, BootEvent::FileOpened { outcome }) => {
                match spec_validate_kernel_file(outcome) {
                    Ok(size) => (
                        BootStage::KernelFileSized { size },
                        BootAction::ReadKernelFile { size },
                    ),
                    Err(error) => spec_abort(error),
                }
            },
            (BootStage::KernelFileSized { size }, BootEvent::FileRead { data }) => {
                if data@.len() == size {
                    (
                        BootStage::KernelLoaded { image: KernelImage { bytes: data } },
                        BootAction::AllocatePages {
                            address: KERNEL_LOAD_ADDRESS,
                            pages: spec_page_count(data@.len()) as usize,
                        },
                    )
                } else {
                    spec_abort(BootError::Io(IoError::ShortRead))
                }
            },
            (BootStage::KernelLoaded { image }, BootEvent::PagesAllocated { granted }) => {
                if granted {
                    (
                        BootStage::KernelPlaced {
                            placed: PlacedKernel {
                                address: KERNEL_LOAD_ADDRESS,
                                pages: spec_page_count(image.bytes@.len()) as usize,
                                bytes: image.bytes,
                            },
                        },
                        BootAction::CaptureMap,
                    )
                } else {
                    spec_abort(BootError::Resource(ResourceError::AllocationFailed))
                }
            },
            (BootStage::KernelPlaced { placed }, BootEvent::MapCaptured { result }) => {
                match result {
                    Ok(map) => (
                        BootStage::ExitPending {
                            placed,
                            map,
                            attempts_left: (EXIT_RETRY_BUDGET - 1) as u32,
                        },
                        BootAction::ExitBootServices { map_key: map.map_key },
                    ),
                    Err(error) => spec_abort(error),
                }
            },
            (
                BootStage::ExitMapPending { placed, attempts_left },
                BootEvent::MapCaptured { result },
            ) => {
                match result {
                    Ok(map) => (
                        BootStage::ExitPending { placed, map, attempts_left },
                        BootAction::ExitBootServices { map_key: map.map_key },
                    ),
                    Err(error) => spec_abort(error),
                }
            },
            (
                BootStage::ExitPending { placed, map, attempts_left },
                BootEvent::ExitAttempted { accepted },
            ) => {
                if accepted {
                    let params = spec_handoff_parameters(map, KERNEL_LOAD_ADDRESS);
                    (
                        BootStage::ServicesExited { placed, params },
                        BootAction::TransferControl { params },
                    )
                } else if attempts_left > 0 {
                    (
                        BootStage::ExitMapPending {
                            placed,
                            attempts_left: (attempts_left - 1) as u32,
                        },
                        BootAction::CaptureMap,
                    )
                } else {
                    spec_abort(BootError::Protocol(ProtocolError::StaleMapKey))
                }
            },
            (BootStage::ServicesExited { placed, params }, BootEvent::TransferCompleted) => {
                (BootStage::HandedOff { placed, params }, BootAction::Idle)
            },
            (BootStage::ServicesExited { .. }, BootEvent::TransferReturned) => {
                spec_abort(BootError::InternalContract)
            },
            (stage, _) => (stage, BootAction::Idle),
        }
    }

    /// Advances the pipeline by one step: takes what the pending firmware
    /// call reported, returns the next stage and the next action. Returns
    /// exactly what the transition relation `next` states.
    pub fn step(self, event: BootEvent) -> (r: (BootStage, BootAction))
        requires
            self.wf(),
            self.expects(event),
            event_wf(event),
        ensures
            r == self.next(event),
            r.0.wf(),
    {
        match (self, event) {
            (BootStage::Start, BootEvent::CpuIdentified { features }) => {
                match check_cpu_compatibility(&features) {
                    Ok(_) => (BootStage::CompatChecked, BootAction::CaptureMap),
                    Err(error) => abort(error),
                }
            },
            (BootStage::CompatChecked, BootEvent::MapCaptured { result }) => {
                match result {
                    Ok(map) => (BootStage::MemoryMapped { map }, BootAction::OpenKernelFile),
                    Err(error) => abort(error),
                }
            },
            (BootStage::MemoryMapped { .. }, BootEvent::FileOpened { outcome }) => {
                match validate_kernel_file(&outcome) {
                    Ok(size) => (
                        BootStage::KernelFileSized { size },
                        BootAction::ReadKernelFile { size },
                    ),
                    Err(error) => abort(error),
                }
            },
            (BootStage::KernelFileSized { size }, BootEvent::FileRead { data }) => {
                match load_kernel(size, data) {
                    Ok(image) => {
                        let pages = page_count(image.len());
                        (
                            BootStage::KernelLoaded { image },
                            BootAction::AllocatePages { address: KERNEL_LOAD_ADDRESS, pages },
                        )
                    },
                    Err(error) => abort(error),
                }
            },
            (BootStage::KernelLoaded { image }, BootEvent::PagesAllocated { granted }) => {
                if granted {
                    let pages = page_count(image.bytes.len());
                    (
                        BootStage::KernelPlaced {
                            placed: PlacedKernel {
                                address: KERNEL_LOAD_ADDRESS,
                                pages,
                                bytes: image.bytes,
                            },
                        },
                        BootAction::CaptureMap,
                    )
                } else {
                    abort(BootError::Resource(ResourceError::AllocationFailed))
                }
            },
            (BootStage::KernelPlaced { placed }, BootEvent::MapCaptured { result }) => {
                match result {
                    Ok(map) => {
                        let map_key = map.map_key;
                        (
                            BootStage::ExitPending {
                                placed,
                                map,
                                attempts_left: EXIT_RETRY_BUDGET - 1,
                            },
                            BootAction::ExitBootServices { map_key },
                        )
                    },
                    Err(error) => abort(error),
                }
            },
            (
                BootStage::ExitMapPending { placed, attempts_left },
                BootEvent::MapCaptured { result },
            ) => {
                match result {
                    Ok(map) => {
                        let map_key = map.map_key;
                        (
                            BootStage::ExitPending { placed, map, attempts_left },
                            BootAction::ExitBootServices { map_key },
                        )
                    },
                    Err(error) => abort(error),
                }
            },
            (
                BootStage::ExitPending { placed, map, attempts_left },
                BootEvent::ExitAttempted { accepted },
            ) => {
                if accepted {
                    let params = handoff_parameters(&map, KERNEL_LOAD_ADDRESS);
                    (
                        BootStage::ServicesExited { placed, params },
                        BootAction::TransferControl { params },
                    )
                } else if attempts_left > 0 {
                    (
                        BootStage::ExitMapPending { placed, attempts_left: attempts_left - 1 },
                        BootAction::CaptureMap,
                    )
                } else {
                    abort(BootError::Protocol(ProtocolError::StaleMapKey))
                }
            },
            (BootStage::ServicesExited { placed, params }, BootEvent::TransferCompleted) => {
                (BootStage::HandedOff { placed, params }, BootAction::Idle)
            },
            (BootStage::ServicesExited { .. }, BootEvent::TransferReturned) => {
                abort(BootError::InternalContract)
            },
            (stage, _) => (stage, BootAction::Idle),
        }
    }
}

/// The stage and action an abort produces: the terminal `Aborted` stage and
/// a halt carrying the failure's status code.
fn abort(error: BootError) -> (r: (BootStage, BootAction))
    ensures
        r == spec_abort(error),
{
    let status = status_of(&error);
    (BootStage::Aborted { error }, BootAction::Halt { status })
}

/// Creates a pipeline at its initial stage; the first action is to read the
/// CPU identification state.
pub fn boot_begin() -> (r: (BootStage, BootAction))
    ensures
        r.0 == BootStage::Start,
        r.1 == BootAction::IdentifyCpu,
        r.0.wf(),
{
    (BootStage::Start, BootAction::IdentifyCpu)
}

/// A CPU missing any mandatory feature aborts the pipeline at its very
/// first transition with `UnsupportedCpu`: the requested action is a halt,
/// never a memory-map capture, and — the aborted stage being terminal — no
/// later event leads anywhere else. The pipeline never proceeds to
/// memory-map acquisition.
pub proof fn lemma_unsupported_cpu_never_proceeds(features: CpuFeatures, later: BootEvent)
    requires
        !all_mandatory_present(features),
    ensures
        BootStage::Start.next(BootEvent::CpuIdentified { features }) == spec_abort(
            BootError::Validation(ValidationError::UnsupportedCpu),
        ),
        BootStage::Start.next(BootEvent::CpuIdentified { features }).0 is Aborted,
        BootStage::Start.next(BootEvent::CpuIdentified { features }).1 != BootAction::CaptureMap,
        !BootStage::Start.next(BootEvent::CpuIdentified { features }).0.expects(later),
{
}

/// Terminal stages have no successor: no event is accepted in `HandedOff`
/// or `Aborted`.
pub proof fn lemma_terminal_stages_accept_nothing(stage: BootStage, event: BootEvent)
    requires
        stage.is_terminal(),
    ensures
        !stage.expects(event),
{
}

/// A progress measure over the stages: strictly forward motion through the
/// pipeline, with the exit-retry stages ordered by their remaining budget.
/// Terminal stages sit at zero.
pub open spec fn spec_stage_measure(stage: BootStage) -> int {
    match stage {
        BootStage::Start => 100,
        BootStage::CompatChecked => 90,
        BootStage::MemoryMapped { .. } => 80,
        BootStage::KernelFileSized { .. } => 70,
        BootStage::KernelLoaded { .. } => 60,
        BootStage::KernelPlaced { .. } => 50,
        BootStage::ExitMapPending { attempts_left, .. } => 22 + 2 * (attempts_left as int),
        BootStage::ExitPending { attempts_left, .. } => 21 + 2 * (attempts_left as int),
        BootStage::ServicesExited { .. } => 10,
        BootStage::HandedOff { .. } => 0,
        BootStage::Aborted { .. } => 0,
    }
}

/// Every accepted event strictly decreases the progress measure, so any run
/// of the pipeline — the exit-retry loop included, its budget being bounded —
/// reaches a terminal stage after finitely many steps.
pub proof fn lemma_pipeline_always_halts(stage: BootStage, event: BootEvent)
    requires
        stage.expects(event),
    ensures
        spec_stage_measure(stage.next(event).0) < spec_stage_measure(stage),
{
}

} // verus!
