use app_network::error::MynewtError;
use app_network::payload::{collector_payload, server_payload, EncodeOp};
use app_network::send::{Action, Destination, Event, Fault, Phase, SendTask};
use app_network::sensor::{SensorValue, SensorValueType};
use app_network::task::{is_valid_task_name, stack_size_arg, task_init_result};

fn b(s: &str) -> Vec<u8> {
    s.as_bytes().to_vec()
}

fn raw_temperature(v: u32) -> SensorValue {
    SensorValue::new(b("t"), SensorValueType::Uint(v))
}

fn text_item(name: &str, value: &str) -> Vec<EncodeOp> {
    vec![
        EncodeOp::BeginObject,
        EncodeOp::Text { key: b("key"), text: b(name) },
        EncodeOp::Text { key: b("value"), text: b(value) },
        EncodeOp::EndObject,
    ]
}

#[test]
fn error_codes_match_the_c_api() {
    assert_eq!(MynewtError::SYS_EOK.code(), 0);
    assert_eq!(MynewtError::SYS_EAGAIN.code(), -6);
    assert_eq!(MynewtError::SYS_EUNKNOWN.code(), -13);
    assert_eq!(MynewtError::SYS_EDONE.code(), -15);
    assert_eq!(MynewtError::SYS_EPERUSER.code(), -65535);
    assert_eq!(MynewtError::from_code(-1), MynewtError::SYS_ENOMEM);
    assert_eq!(MynewtError::from_code(-6), MynewtError::SYS_EAGAIN);
    assert_eq!(MynewtError::from_code(-65535), MynewtError::SYS_EPERUSER);
}

#[test]
fn error_codes_roundtrip() {
    let all = [
        MynewtError::SYS_EOK,
        MynewtError::SYS_ENOMEM,
        MynewtError::SYS_EINVAL,
        MynewtError::SYS_ETIMEOUT,
        MynewtError::SYS_ENOENT,
        MynewtError::SYS_EIO,
        MynewtError::SYS_EAGAIN,
        MynewtError::SYS_EACCES,
        MynewtError::SYS_EBUSY,
        MynewtError::SYS_ENODEV,
        MynewtError::SYS_ERANGE,
        MynewtError::SYS_EALREADY,
        MynewtError::SYS_ENOTSUP,
        MynewtError::SYS_EUNKNOWN,
        MynewtError::SYS_EREMOTEIO,
        MynewtError::SYS_EDONE,
        MynewtError::SYS_EPERUSER,
    ];
    for e in all.iter() {
        assert_eq!(MynewtError::from_code(e.code()), *e);
    }
}

#[test]
fn unknown_error_codes() {
    assert_eq!(MynewtError::from_code(1), MynewtError::SYS_EUNKNOWN);
    assert_eq!(MynewtError::from_code(-16), MynewtError::SYS_EUNKNOWN);
    assert_eq!(MynewtError::from_code(i32::MIN), MynewtError::SYS_EUNKNOWN);
}

#[test]
fn task_init_results() {
    assert_eq!(task_init_result(0), Ok(()));
    assert_eq!(task_init_result(-6), Err(MynewtError::SYS_EAGAIN));
    assert_eq!(task_init_result(-2), Err(MynewtError::SYS_EINVAL));
    assert_eq!(task_init_result(7), Err(MynewtError::SYS_EUNKNOWN));
}

#[test]
fn task_names_need_a_closing_zero() {
    assert!(is_valid_task_name(b"network\0"));
    assert!(is_valid_task_name(b"\0"));
    assert!(!is_valid_task_name(b"network"));
    assert!(!is_valid_task_name(b""));
}

#[test]
fn stack_sizes_wrap_to_sixteen_bits() {
    assert_eq!(stack_size_arg(256), 256);
    assert_eq!(stack_size_arg(65535), 65535);
    assert_eq!(stack_size_arg(65536), 0);
    assert_eq!(stack_size_arg(65536 + 300), 300);
}

#[test]
fn collector_message_is_key_and_integer() {
    let ops = collector_payload(b"t", 2870);
    assert_eq!(
        ops,
        vec![
            EncodeOp::BeginObject,
            EncodeOp::Uint { key: b("t"), value: 2870 },
            EncodeOp::EndObject,
        ]
    );
}

#[test]
fn server_message_with_raw_temperature() {
    let ops = server_payload(
        b"0102030405060708090a0b0c0d0e0f10",
        b"b3b4b5b6f1",
        &raw_temperature(2870),
    );
    let mut expected = vec![EncodeOp::BeginObject, EncodeOp::BeginArray { name: b("values") }];
    expected.extend(text_item("device", "0102030405060708090a0b0c0d0e0f10"));
    expected.extend(text_item("node", "b3b4b5b6f1"));
    expected.extend(vec![
        EncodeOp::BeginObject,
        EncodeOp::Text { key: b("key"), text: b("t") },
        EncodeOp::Uint { key: b("value"), value: 2870 },
        EncodeOp::EndObject,
        EncodeOp::EndArray,
        EncodeOp::EndObject,
    ]);
    assert_eq!(ops, expected);
}

#[test]
fn server_message_with_computed_temperature() {
    let bits = 28.7f32.to_bits();
    let sensor = SensorValue::new(b("tmp"), SensorValueType::Float(bits));
    let ops = server_payload(b"dev", b"node1", &sensor);
    assert_eq!(ops.len(), 16);
    assert_eq!(ops[11], EncodeOp::Text { key: b("key"), text: b("tmp") });
    assert_eq!(ops[12], EncodeOp::Float { key: b("value"), bits });
    match &ops[12] {
        EncodeOp::Float { bits, .. } => assert_eq!(f32::from_bits(*bits), 28.7f32),
        _ => panic!("not a float"),
    }
}

#[test]
fn sensor_node_sends_to_collector() {
    let mut task = SendTask::new(raw_temperature(2870), b("b3b4b5b6f1"));
    assert_eq!(task.action(), Action::QueryRoute);
    assert!(task.payload().is_none());
    assert_eq!(task.step(Event::Route { to_collector: true }), Action::QueryNetworkReady);
    assert_eq!(task.step(Event::NetworkReady { ready: true }), Action::OpenPost(Destination::Collector));
    assert_eq!(task.step(Event::PostOpened { result: Ok(true) }), Action::Post(Destination::Collector));
    assert_eq!(task.payload(), Some(collector_payload(b"t", 2870)));
    assert_eq!(task.step(Event::Posted { result: Ok(true) }), Action::Complete(Ok(())));
    assert_eq!(task.phase(), Phase::Finished(Ok(())));
    assert!(task.payload().is_none());
}

#[test]
fn collector_node_sends_to_server() {
    let mut task = SendTask::new(raw_temperature(1234), b("b3b4b5b6f1"));
    assert_eq!(task.step(Event::Route { to_collector: false }), Action::QueryNetworkReady);
    assert_eq!(task.step(Event::NetworkReady { ready: true }), Action::QueryDeviceId);
    assert_eq!(
        task.step(Event::DeviceId { id: b("0102030405060708") }),
        Action::OpenPost(Destination::Server)
    );
    assert_eq!(task.step(Event::PostOpened { result: Ok(true) }), Action::Post(Destination::Server));
    assert_eq!(
        task.payload(),
        Some(server_payload(b"0102030405060708", b"b3b4b5b6f1", &raw_temperature(1234)))
    );
    assert_eq!(task.step(Event::Posted { result: Ok(true) }), Action::Complete(Ok(())));
}

#[test]
fn network_not_ready_means_try_again() {
    for to_collector in [true, false] {
        let mut task = SendTask::new(raw_temperature(1), b("n1"));
        task.step(Event::Route { to_collector });
        assert_eq!(
            task.step(Event::NetworkReady { ready: false }),
            Action::Complete(Err(MynewtError::SYS_EAGAIN))
        );
        assert_eq!(
            task.step(Event::PostOpened { result: Ok(true) }),
            Action::Complete(Err(MynewtError::SYS_EAGAIN))
        );
        assert!(task.payload().is_none());
    }
}

#[test]
fn server_refuses_reading_without_value() {
    let mut task = SendTask::new(SensorValue::new(b("t"), SensorValueType::Empty), b("n1"));
    assert_eq!(task.step(Event::Route { to_collector: false }), Action::Abort(Fault::MissingValue));
}

#[test]
fn server_refuses_empty_node_id() {
    let mut task = SendTask::new(raw_temperature(5), Vec::new());
    assert_eq!(task.step(Event::Route { to_collector: false }), Action::Abort(Fault::EmptyNodeId));
    let mut task = SendTask::new(raw_temperature(5), vec![0u8, 1]);
    assert_eq!(task.step(Event::Route { to_collector: false }), Action::Abort(Fault::EmptyNodeId));
}

#[test]
fn collector_refuses_float_reading() {
    let sensor = SensorValue::new(b("tmp"), SensorValueType::Float(28.7f32.to_bits()));
    let mut task = SendTask::new(sensor, b("n1"));
    task.step(Event::Route { to_collector: true });
    task.step(Event::NetworkReady { ready: true });
    assert_eq!(task.step(Event::PostOpened { result: Ok(true) }), Action::Abort(Fault::ValueNotInteger));
}

#[test]
fn post_failures() {
    let mut task = SendTask::new(raw_temperature(5), b("n1"));
    task.step(Event::Route { to_collector: true });
    task.step(Event::NetworkReady { ready: true });
    assert_eq!(task.step(Event::PostOpened { result: Ok(false) }), Action::Abort(Fault::PostNotOpened));

    let mut task = SendTask::new(raw_temperature(5), b("n1"));
    task.step(Event::Route { to_collector: false });
    task.step(Event::NetworkReady { ready: true });
    task.step(Event::DeviceId { id: b("d") });
    assert_eq!(
        task.step(Event::PostOpened { result: Err(MynewtError::SYS_ENOMEM) }),
        Action::Complete(Err(MynewtError::SYS_ENOMEM))
    );

    let mut task = SendTask::new(raw_temperature(5), b("n1"));
    task.step(Event::Route { to_collector: false });
    task.step(Event::NetworkReady { ready: true });
    task.step(Event::DeviceId { id: b("d") });
    task.step(Event::PostOpened { result: Ok(true) });
    assert_eq!(task.step(Event::Posted { result: Ok(false) }), Action::Abort(Fault::PostNotSent));

    let mut task = SendTask::new(raw_temperature(5), b("n1"));
    task.step(Event::Route { to_collector: true });
    task.step(Event::NetworkReady { ready: true });
    task.step(Event::PostOpened { result: Ok(true) });
    assert_eq!(
        task.step(Event::Posted { result: Err(MynewtError::SYS_EIO) }),
        Action::Complete(Err(MynewtError::SYS_EIO))
    );
}

#[test]
fn unexpected_event_aborts() {
    let mut task = SendTask::new(raw_temperature(5), b("n1"));
    assert_eq!(task.step(Event::NetworkReady { ready: true }), Action::Abort(Fault::UnexpectedEvent));
    assert_eq!(task.step(Event::Route { to_collector: true }), Action::Abort(Fault::UnexpectedEvent));
}

#[test]
fn send_ends_within_five_events() {
    let mut task = SendTask::new(raw_temperature(5), b("n1"));
    let events = vec![
        Event::Route { to_collector: false },
        Event::NetworkReady { ready: true },
        Event::DeviceId { id: b("d") },
        Event::PostOpened { result: Ok(true) },
        Event::Posted { result: Ok(true) },
    ];
    for e in events {
        task.step(e);
    }
    assert!(matches!(task.phase(), Phase::Finished(_) | Phase::Aborted(_)));
}

#[test]
fn posts_only_once() {
    let mut task = SendTask::new(raw_temperature(7), b("n1"));
    let mut posts = 0;
    let events = vec![
        Event::Route { to_collector: true },
        Event::NetworkReady { ready: true },
        Event::PostOpened { result: Ok(true) },
        Event::Posted { result: Ok(true) },
        Event::PostOpened { result: Ok(true) },
        Event::Posted { result: Ok(true) },
    ];
    for e in events {
        if let Action::Post(_) = task.step(e) {
            posts += 1;
        }
    }
    assert_eq!(posts, 1);
    assert_eq!(task.action(), Action::Complete(Ok(())));
}
