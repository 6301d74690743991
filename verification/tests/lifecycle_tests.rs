use capsule_host::config::RuntimeConfig;
use capsule_host::lifecycle::{
    CanInstantiate, CoapError, CoapServerGuest, CompiledImage, GuestError, LoadError,
    ProgramError, WasmHandler, WasmHandlerState, join_path_segments, wrap_path_records,
};

/// Capability state of the test host: counts how many instances were bound
/// against it, so tests can see it survive restarts.
struct MockHost {
    binds: u32,
}

/// A guest whose instantiation succeeds exactly when the program starts with
/// the magic byte 0xAA; it echoes requests and reports two resource paths.
struct MockGuest {
    initialised: bool,
}

impl CanInstantiate<MockHost> for MockGuest {
    fn instantiate(
        store_data: &mut MockHost,
        _config: &RuntimeConfig,
        program: &[u8],
    ) -> Result<Self, LoadError> {
        if program.first() == Some(&0xAA) {
            store_data.binds += 1;
            Ok(MockGuest { initialised: false })
        } else {
            Err(LoadError::MalformedImage)
        }
    }
}

impl CoapServerGuest<MockHost> for MockGuest {
    fn coap_run(
        &mut self,
        _store_data: &mut MockHost,
        code: u8,
        _observed_len: u32,
        message: Vec<u8>,
    ) -> Result<(u8, Vec<u8>), GuestError> {
        Ok((code, message))
    }

    fn initialize_handler(&mut self, _store_data: &mut MockHost) -> Result<(), ()> {
        self.initialised = true;
        Ok(())
    }

    fn report_resources(&mut self, _store_data: &mut MockHost) -> Result<Vec<String>, GuestError> {
        Ok(vec![String::from("vm"), String::from("hello")])
    }
}

/// A guest that cannot report its resources: loading it must fail cleanly.
struct UnreportingGuest;

impl CanInstantiate<MockHost> for UnreportingGuest {
    fn instantiate(
        _store_data: &mut MockHost,
        _config: &RuntimeConfig,
        _program: &[u8],
    ) -> Result<Self, LoadError> {
        Ok(UnreportingGuest)
    }
}

impl CoapServerGuest<MockHost> for UnreportingGuest {
    fn coap_run(
        &mut self,
        _store_data: &mut MockHost,
        _code: u8,
        _observed_len: u32,
        _message: Vec<u8>,
    ) -> Result<(u8, Vec<u8>), GuestError> {
        Err(GuestError::NotFound)
    }

    fn initialize_handler(&mut self, _store_data: &mut MockHost) -> Result<(), ()> {
        Ok(())
    }

    fn report_resources(&mut self, _store_data: &mut MockHost) -> Result<Vec<String>, GuestError> {
        Err(GuestError::HandlerNotBuilt)
    }
}

/// A guest that loads fine but answers every request with "not found".
struct NotFoundGuest;

impl CanInstantiate<MockHost> for NotFoundGuest {
    fn instantiate(
        _store_data: &mut MockHost,
        _config: &RuntimeConfig,
        _program: &[u8],
    ) -> Result<Self, LoadError> {
        Ok(NotFoundGuest)
    }
}

impl CoapServerGuest<MockHost> for NotFoundGuest {
    fn coap_run(
        &mut self,
        _store_data: &mut MockHost,
        _code: u8,
        _observed_len: u32,
        _message: Vec<u8>,
    ) -> Result<(u8, Vec<u8>), GuestError> {
        Err(GuestError::NotFound)
    }

    fn initialize_handler(&mut self, _store_data: &mut MockHost) -> Result<(), ()> {
        Ok(())
    }

    fn report_resources(&mut self, _store_data: &mut MockHost) -> Result<Vec<String>, GuestError> {
        Ok(vec![])
    }
}

fn good_image() -> CompiledImage {
    CompiledImage {
        bytes: vec![0xAA, 1, 2, 3],
        prepared_with: RuntimeConfig::device_defaults(),
    }
}

#[test]
fn start_from_static_then_stop_leaves_idle_with_no_paths() {
    let mut handler: WasmHandler<MockHost, MockGuest> =
        WasmHandler::new(MockHost { binds: 0 }, 1024);
    let config = RuntimeConfig::device_defaults();
    let image = good_image();

    assert!(handler.start_from_static(&image, &config).is_ok());
    assert!(handler.is_running());
    let paths: Vec<String> = handler.resource_paths().iter().map(|p| p.path()).collect();
    assert_eq!(paths, vec![String::from("vm"), String::from("hello")]);

    let owned: Vec<String> = handler
        .report_resources()
        .iter()
        .map(|p| p.path())
        .collect();
    assert_eq!(owned, paths);

    handler.stop();
    assert!(!handler.is_running());
    assert!(handler.resource_paths().is_empty());
    match &handler.state {
        WasmHandlerState::NotRunning { store_data } => assert_eq!(store_data.binds, 1),
        _ => unreachable!("stop must leave the manager idle"),
    }
}

#[test]
fn config_mismatch_is_reported_before_instantiation() {
    let mut handler: WasmHandler<MockHost, MockGuest> =
        WasmHandler::new(MockHost { binds: 0 }, 1024);
    let config = RuntimeConfig::device_defaults();
    let mut prepared = RuntimeConfig::device_defaults();
    prepared.consume_fuel = false;
    let image = CompiledImage {
        bytes: vec![0xAA],
        prepared_with: prepared,
    };
    assert_eq!(
        handler.start_from_static(&image, &config),
        Err(LoadError::ConfigMismatch)
    );
    assert!(!handler.is_running());
}

#[test]
fn malformed_image_reverts_to_idle() {
    let mut handler: WasmHandler<MockHost, MockGuest> =
        WasmHandler::new(MockHost { binds: 0 }, 1024);
    let config = RuntimeConfig::device_defaults();
    let image = CompiledImage {
        bytes: vec![0x00, 1, 2],
        prepared_with: RuntimeConfig::device_defaults(),
    };
    assert_eq!(
        handler.start_from_static(&image, &config),
        Err(LoadError::MalformedImage)
    );
    assert!(!handler.is_running());
    // The capability state is recovered for the next attempt.
    match &handler.state {
        WasmHandlerState::NotRunning { store_data } => assert_eq!(store_data.binds, 0),
        _ => unreachable!(),
    }
}

#[test]
fn report_failure_is_a_load_error() {
    let mut handler: WasmHandler<MockHost, UnreportingGuest> =
        WasmHandler::new(MockHost { binds: 0 }, 1024);
    let config = RuntimeConfig::device_defaults();
    let image = good_image();
    assert_eq!(
        handler.start_from_static(&image, &config),
        Err(LoadError::BindingFailed)
    );
    assert!(!handler.is_running());
}

#[test]
fn start_from_dynamic_uses_the_buffer() {
    let mut handler: WasmHandler<MockHost, MockGuest> =
        WasmHandler::new(MockHost { binds: 0 }, 1024);
    let config = RuntimeConfig::device_defaults();

    assert_eq!(handler.mutate_program(&[0xAA, 9, 9]), Ok(()));
    assert!(handler.start_from_dynamic(&config).is_ok());
    assert!(handler.is_running());
    // The buffer itself survives the start.
    assert_eq!(handler.program, vec![0xAA, 9, 9]);
}

#[test]
fn dynamic_buffer_refuses_writes_while_running_and_over_capacity() {
    let mut handler: WasmHandler<MockHost, MockGuest> = WasmHandler::new(MockHost { binds: 0 }, 4);
    let config = RuntimeConfig::device_defaults();

    assert_eq!(
        handler.mutate_program(&[0xAA, 1, 2, 3, 4]),
        Err(ProgramError::CapacityExceeded)
    );
    assert_eq!(handler.mutate_program(&[0xAA, 1]), Ok(()));
    assert!(handler.start_from_dynamic(&config).is_ok());
    assert_eq!(
        handler.mutate_program(&[5]),
        Err(ProgramError::StillRunning)
    );
    assert_eq!(handler.truncate_program(), Err(ProgramError::StillRunning));
    handler.stop();
    assert_eq!(handler.truncate_program(), Ok(()));
    assert!(handler.program.is_empty());
}

#[test]
fn requests_reach_the_running_capsule_only() {
    let mut handler: WasmHandler<MockHost, MockGuest> =
        WasmHandler::new(MockHost { binds: 0 }, 1024);
    let config = RuntimeConfig::device_defaults();

    assert_eq!(
        handler.extract_request_data(0x01, 0, vec![]),
        Err(CoapError::ServiceUnavailable)
    );
    handler.start_from_static(&good_image(), &config).unwrap();
    assert_eq!(
        handler.extract_request_data(0x01, 3, vec![1, 2, 3]),
        Ok((0x01, vec![1, 2, 3]))
    );
}

#[test]
fn service_unavailable_means_exactly_no_capsule() {
    // A capsule's own failure keeps its own response form: 5.03 is reserved
    // for "no capsule running".
    let mut handler: WasmHandler<MockHost, NotFoundGuest> =
        WasmHandler::new(MockHost { binds: 0 }, 1024);
    let config = RuntimeConfig::device_defaults();
    assert_eq!(
        handler.extract_request_data(0x01, 0, vec![]),
        Err(CoapError::ServiceUnavailable)
    );
    handler.start_from_static(&good_image(), &config).unwrap();
    assert_eq!(
        handler.extract_request_data(0x01, 0, vec![]),
        Err(CoapError::NotFound)
    );
}

#[test]
fn dynamic_image_copies_the_buffer() {
    let mut handler: WasmHandler<MockHost, MockGuest> =
        WasmHandler::new(MockHost { binds: 0 }, 1024);
    assert_eq!(handler.mutate_program(&[0xAA, 5, 6]), Ok(()));
    assert_eq!(handler.dynamic_image(), vec![0xAA, 5, 6]);
    assert_eq!(handler.program, vec![0xAA, 5, 6]);
}

#[test]
fn path_records_wrap_one_for_one() {
    let reported = vec![String::from("vm"), String::from("hello")];
    let records = wrap_path_records(&reported);
    let paths: Vec<String> = records.iter().map(|p| p.path()).collect();
    assert_eq!(paths, reported);
    assert!(wrap_path_records(&vec![]).is_empty());
}

#[test]
fn path_segments_join_with_slashes() {
    assert_eq!(join_path_segments(&vec![]), String::new());
    assert_eq!(
        join_path_segments(&vec![String::from("example")]),
        String::from("example")
    );
    assert_eq!(
        join_path_segments(&vec![
            String::from("inner"),
            String::from("third_example")
        ]),
        String::from("inner/third_example")
    );
}
