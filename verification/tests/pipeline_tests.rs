//! End-to-end pipeline scenarios driven against a simulated firmware.

use boot_handoff::compat::CpuFeatures;
use boot_handoff::errors::{BootError, IoError, ProtocolError, StatusCode, ValidationError};
use boot_handoff::handoff::DESCRIPTOR_STRIDE;
use boot_handoff::loader::FileOpenOutcome;
use boot_handoff::memory_map::{
    MapCallOutcome, MapReadStep, MemoryDescriptor, MemoryMapReader, MemoryMapSnapshot, RegionType,
};
use boot_handoff::pipeline::{boot_begin, BootAction, BootEvent, BootStage, EXIT_RETRY_BUDGET};
use boot_handoff::placer::KERNEL_LOAD_ADDRESS;

/// A simulated firmware: a boot volume with at most one kernel file, a
/// memory map, and scripted allocation and exit behavior.
struct SimFirmware {
    features: CpuFeatures,
    descriptors: Vec<MemoryDescriptor>,
    map_key: u64,
    kernel_file: Option<Vec<u8>>,
    file_is_regular: bool,
    allocation_granted: bool,
    exit_rejections_left: u32,
    map_captures: usize,
    exit_attempts: usize,
    allocation_requests: usize,
}

impl SimFirmware {
    fn new() -> SimFirmware {
        SimFirmware {
            features: CpuFeatures { long_mode: true, sse2: true },
            descriptors: vec![
                MemoryDescriptor { start: 0, page_count: 160, region: RegionType::Conventional },
                MemoryDescriptor {
                    start: 0xA0000,
                    page_count: 96,
                    region: RegionType::Reserved,
                },
                MemoryDescriptor {
                    start: 0x100000,
                    page_count: 8192,
                    region: RegionType::Conventional,
                },
            ],
            map_key: 7,
            kernel_file: Some(vec![0x90; 4096]),
            file_is_regular: true,
            allocation_granted: true,
            exit_rejections_left: 0,
            map_captures: 0,
            exit_attempts: 0,
            allocation_requests: 0,
        }
    }

    fn required_size(&self) -> usize {
        self.descriptors.len() * DESCRIPTOR_STRIDE as usize
    }

    fn capture_map(&mut self) -> Result<MemoryMapSnapshot, BootError> {
        self.map_captures += 1;
        let mut reader = MemoryMapReader::begin(self.required_size());
        loop {
            let outcome = if reader.buffer_size >= self.required_size() {
                MapCallOutcome::Copied {
                    descriptors: self.descriptors.clone(),
                    buffer_base: 0x8000,
                    map_key: self.map_key,
                }
            } else {
                MapCallOutcome::TooSmall { required: self.required_size() }
            };
            match reader.on_copy_result(outcome) {
                MapReadStep::Done { snapshot, .. } => return Ok(snapshot),
                MapReadStep::Retry { reader: next } => reader = next,
                MapReadStep::Failed { error } => return Err(error),
            }
        }
    }

    fn open_kernel(&self) -> FileOpenOutcome {
        match &self.kernel_file {
            None => FileOpenOutcome::Missing,
            Some(_) if !self.file_is_regular => FileOpenOutcome::NotRegular,
            Some(data) => FileOpenOutcome::Opened { size: data.len() as u64 },
        }
    }

    fn read_kernel(&self, size: u64) -> Vec<u8> {
        let data = self.kernel_file.as_ref().expect("no kernel file to read");
        data.iter().copied().take(size as usize).collect()
    }

    fn try_exit(&mut self, _map_key: u64) -> bool {
        self.exit_attempts += 1;
        if self.exit_rejections_left > 0 {
            self.exit_rejections_left -= 1;
            // The rejection means the map changed; the next capture issues a
            // fresh key.
            self.map_key += 1;
            false
        } else {
            true
        }
    }
}

/// Runs the pipeline loop to a terminal action, returning the final stage
/// and every action it requested.
fn run_pipeline(firmware: &mut SimFirmware) -> (BootStage, Vec<BootAction>) {
    let (mut stage, mut action) = boot_begin();
    let mut actions = vec![action];
    loop {
        let event = match action {
            BootAction::IdentifyCpu => BootEvent::CpuIdentified { features: firmware.features },
            BootAction::CaptureMap => BootEvent::MapCaptured { result: firmware.capture_map() },
            BootAction::OpenKernelFile => BootEvent::FileOpened { outcome: firmware.open_kernel() },
            BootAction::ReadKernelFile { size } => {
                BootEvent::FileRead { data: firmware.read_kernel(size) }
            }
            BootAction::AllocatePages { .. } => {
                firmware.allocation_requests += 1;
                BootEvent::PagesAllocated { granted: firmware.allocation_granted }
            }
            BootAction::ExitBootServices { map_key } => {
                BootEvent::ExitAttempted { accepted: firmware.try_exit(map_key) }
            }
            BootAction::TransferControl { .. } => BootEvent::TransferCompleted,
            BootAction::Halt { .. } | BootAction::Idle => break,
        };
        let (next_stage, next_action) = stage.step(event);
        stage = next_stage;
        action = next_action;
        actions.push(action);
    }
    (stage, actions)
}

#[test]
fn missing_cpu_feature_aborts_before_map_acquisition() {
    let mut firmware = SimFirmware::new();
    firmware.features = CpuFeatures { long_mode: true, sse2: false };
    let (stage, actions) = run_pipeline(&mut firmware);
    assert_eq!(
        stage,
        BootStage::Aborted {
            error: BootError::Validation(ValidationError::UnsupportedCpu)
        }
    );
    assert_eq!(firmware.map_captures, 0);
    assert!(!actions.iter().any(|a| matches!(a, BootAction::CaptureMap)));
    assert!(actions
        .iter()
        .any(|a| matches!(a, BootAction::Halt { status: StatusCode::UnsupportedHardware })));
}

#[test]
fn no_long_mode_aborts_too() {
    let mut firmware = SimFirmware::new();
    firmware.features = CpuFeatures { long_mode: false, sse2: true };
    let (stage, _) = run_pipeline(&mut firmware);
    assert_eq!(
        stage,
        BootStage::Aborted {
            error: BootError::Validation(ValidationError::UnsupportedCpu)
        }
    );
}

#[test]
fn exit_retry_succeeds_on_third_attempt() {
    let mut firmware = SimFirmware::new();
    firmware.exit_rejections_left = 2;
    let (stage, _) = run_pipeline(&mut firmware);
    assert!(matches!(stage, BootStage::HandedOff { .. }));
    // One pipeline-stage capture, then exactly three handoff captures and
    // three exit attempts: two rejected, the third accepted.
    assert_eq!(firmware.exit_attempts, 3);
    assert_eq!(firmware.map_captures, 1 + 3);
}

#[test]
fn exit_retry_budget_exhaustion_escalates_to_fatal() {
    let mut firmware = SimFirmware::new();
    firmware.exit_rejections_left = EXIT_RETRY_BUDGET;
    let (stage, _) = run_pipeline(&mut firmware);
    assert_eq!(
        stage,
        BootStage::Aborted {
            error: BootError::Protocol(ProtocolError::StaleMapKey)
        }
    );
    assert_eq!(firmware.exit_attempts, EXIT_RETRY_BUDGET as usize);
}

#[test]
fn end_to_end_handoff_with_three_entry_map() {
    let mut firmware = SimFirmware::new();
    let pattern: Vec<u8> = (0..4096u32).map(|i| (i % 251) as u8).collect();
    firmware.kernel_file = Some(pattern.clone());
    let (stage, actions) = run_pipeline(&mut firmware);
    match stage {
        BootStage::HandedOff { placed, params } => {
            assert_eq!(params.memory_map_size_bytes, 3 * DESCRIPTOR_STRIDE);
            assert_eq!(params.descriptor_stride, DESCRIPTOR_STRIDE);
            assert_eq!(params.kernel_entry, KERNEL_LOAD_ADDRESS);
            assert_eq!(params.memory_map_base, 0x8000);
            assert_eq!(placed.address, KERNEL_LOAD_ADDRESS);
            assert_eq!(placed.pages, 1);
            assert_eq!(placed.bytes, pattern);
        }
        other => panic!("expected HandedOff, got {:?}", other),
    }
    assert!(actions.iter().any(|a| matches!(
        a,
        BootAction::AllocatePages { address: KERNEL_LOAD_ADDRESS, pages: 1 }
    )));
    assert!(actions
        .iter()
        .any(|a| matches!(a, BootAction::TransferControl { .. })));
}

#[test]
fn absent_kernel_file_aborts_without_allocation() {
    let mut firmware = SimFirmware::new();
    firmware.kernel_file = None;
    let (stage, actions) = run_pipeline(&mut firmware);
    assert_eq!(
        stage,
        BootStage::Aborted {
            error: BootError::Io(IoError::FileNotFound)
        }
    );
    assert_eq!(firmware.allocation_requests, 0);
    assert!(!actions
        .iter()
        .any(|a| matches!(a, BootAction::AllocatePages { .. })));
    assert!(actions
        .iter()
        .any(|a| matches!(a, BootAction::Halt { status: StatusCode::LoadError })));
}

#[test]
fn irregular_kernel_entry_aborts_with_not_a_file() {
    let mut firmware = SimFirmware::new();
    firmware.file_is_regular = false;
    let (stage, _) = run_pipeline(&mut firmware);
    assert_eq!(
        stage,
        BootStage::Aborted {
            error: BootError::Io(IoError::NotAFile)
        }
    );
}

#[test]
fn refused_allocation_aborts_fatally() {
    let mut firmware = SimFirmware::new();
    firmware.allocation_granted = false;
    let (stage, _) = run_pipeline(&mut firmware);
    assert_eq!(
        stage,
        BootStage::Aborted {
            error: BootError::Resource(boot_handoff::errors::ResourceError::AllocationFailed)
        }
    );
}

#[test]
fn transfer_returning_is_an_internal_contract_error() {
    let mut firmware = SimFirmware::new();
    let (mut stage, mut action) = boot_begin();
    // Drive to ServicesExited by hand, then simulate control coming back.
    loop {
        let event = match action {
            BootAction::IdentifyCpu => BootEvent::CpuIdentified { features: firmware.features },
            BootAction::CaptureMap => BootEvent::MapCaptured { result: firmware.capture_map() },
            BootAction::OpenKernelFile => BootEvent::FileOpened { outcome: firmware.open_kernel() },
            BootAction::ReadKernelFile { size } => {
                BootEvent::FileRead { data: firmware.read_kernel(size) }
            }
            BootAction::AllocatePages { .. } => BootEvent::PagesAllocated { granted: true },
            BootAction::ExitBootServices { map_key } => {
                BootEvent::ExitAttempted { accepted: firmware.try_exit(map_key) }
            }
            BootAction::TransferControl { .. } => BootEvent::TransferReturned,
            BootAction::Halt { .. } | BootAction::Idle => break,
        };
        let (next_stage, next_action) = stage.step(event);
        stage = next_stage;
        action = next_action;
    }
    assert_eq!(
        stage,
        BootStage::Aborted {
            error: BootError::InternalContract
        }
    );
}
