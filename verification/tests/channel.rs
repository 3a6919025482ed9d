use k04_firmware::ble_status::BleState;
use k04_firmware::channel::{
    send_hid_mouse_report, send_hid_report, BleHostTransport, ConnectionType, EnqueueTask,
    HostQueue, HostReplyQueues, HostTransport, QueuedReport, QueuedReportPayload, ReportQueue,
    ReportQueues, WideMouseReport,
};
use k04_firmware::hid::{KeyboardReport, MediaKeyboardReport, MouseReport, Report};
use k04_firmware::time::Instant;

fn media(usage_id: u16) -> QueuedReport {
    QueuedReport::new_at(
        Report::MediaKeyboardReport(MediaKeyboardReport { usage_id }),
        Instant::from_ticks(u64::from(usage_id)),
    )
}

#[test]
fn extreme_native_mouse_delta_stays_one_wide_queue_item() {
    let queued = QueuedReport::new_wide_mouse(3, i16::MAX, i16::MIN, 321, -654);

    let QueuedReportPayload::WideMouse(report) = queued.into_payload() else {
        panic!("native mouse delta must remain wide while queued");
    };
    assert_eq!(
        report,
        WideMouseReport {
            buttons: 3,
            x: i32::from(i16::MAX),
            y: i32::from(i16::MIN),
            wheel: 321,
            pan: -654,
        }
    );
}

#[test]
fn queued_report_keeps_its_report_and_time() {
    let report = Report::MouseReport(MouseReport { buttons: 1, x: 2, y: -3, wheel: 0, pan: 0 });
    let queued = QueuedReport::new_at(report, Instant::from_ticks(77));
    assert_eq!(*queued.report(), report);
    assert_eq!(queued.into_report(), report);
    assert_eq!(queued.enqueued_at(), Instant::from_ticks(77));
    assert_eq!(*queued.payload(), QueuedReportPayload::Hid(report));
    let before = embassy_time::Instant::now().as_ticks();
    let stamped = QueuedReport::new(report);
    assert!(stamped.enqueued_at().ticks >= before);
}

#[test]
fn queue_is_bounded_and_ordered() {
    let mut queue = ReportQueue::new();
    assert_eq!(queue.try_receive(), None);
    for i in 0..16 {
        assert_eq!(queue.try_send(media(i)), Ok(()));
    }
    assert_eq!(queue.len(), 16);
    assert_eq!(queue.try_send(media(99)), Err(media(99)));
    for i in 0..16 {
        assert_eq!(queue.try_receive(), Some(media(i)));
    }
    assert_eq!(queue.len(), 0);
    queue.try_send(media(1)).unwrap();
    queue.clear();
    assert_eq!(queue.try_receive(), None);
}

#[test]
fn reports_go_to_the_active_transport() {
    let queues = ReportQueues::new(true, true);
    let usb = Some(ConnectionType::Usb);
    let ble = Some(ConnectionType::Ble);
    assert_eq!(queues.report_destination(usb, BleState::Sleeping), usb);
    assert_eq!(queues.report_destination(ble, BleState::Connected), ble);
    assert_eq!(queues.report_destination(None, BleState::Connected), None);
    assert_eq!(queues.report_destination(None, BleState::Sleeping), ble);
    let no_usb = ReportQueues::new(false, true);
    assert_eq!(no_usb.report_destination(usb, BleState::Connected), None);
    assert_eq!(no_usb.report_destination(usb, BleState::Sleeping), ble);
    let no_ble = ReportQueues::new(true, false);
    assert_eq!(no_ble.report_destination(None, BleState::Sleeping), None);
}

#[test]
fn full_queue_makes_the_sender_wait() {
    let mut queues = ReportQueues::new(true, true);
    let usb = Some(ConnectionType::Usb);
    for i in 0..16 {
        let mut task = EnqueueTask::start(&queues, usb, BleState::Connected, media(i)).unwrap();
        assert!(task.attempt(&mut queues));
    }
    let mut task = EnqueueTask::start(&queues, usb, BleState::Connected, media(16)).unwrap();
    assert!(!task.attempt(&mut queues));
    assert_eq!(task.full_retries, 1);
    assert!(task.may_retry(usb));
    assert!(!task.may_retry(Some(ConnectionType::Ble)));
    assert!(!task.may_retry(None));
    assert_eq!(queues.usb.as_mut().unwrap().try_receive(), Some(media(0)));
    assert!(task.attempt(&mut queues));
    assert_eq!(queues.len_of(ConnectionType::Usb), 16);
    assert_eq!(queues.len_of(ConnectionType::Ble), 0);
}

#[test]
fn senders_wrap_and_route_reports() {
    let mut queues = ReportQueues::new(true, true);
    let report = Report::MediaKeyboardReport(MediaKeyboardReport { usage_id: 5 });
    assert!(send_hid_report(&queues, None, BleState::Connected, report).is_none());
    let mut task = send_hid_report(&queues, None, BleState::Sleeping, report).unwrap();
    assert!(task.attempt(&mut queues));
    let mut task = send_hid_mouse_report(
        &queues,
        Some(ConnectionType::Ble),
        BleState::Connected,
        0,
        500,
        -500,
        0,
        0,
    )
    .unwrap();
    assert!(task.attempt(&mut queues));
    let ble = queues.ble.as_mut().unwrap();
    assert_eq!(ble.try_receive().unwrap().into_report(), report);
    assert!(matches!(
        ble.try_receive().unwrap().into_payload(),
        QueuedReportPayload::WideMouse(WideMouseReport { x: 500, y: -500, .. })
    ));
    queues.try_send_hid_report(Some(ConnectionType::Usb), report);
    queues.try_send_hid_report(None, report);
    assert_eq!(queues.len_of(ConnectionType::Usb), 1);
}

#[test]
fn transport_flip_leaves_exactly_one_release() {
    let mut queues = ReportQueues::new(true, true);
    for i in 0..5 {
        queues.try_send_to(ConnectionType::Usb, media(i)).unwrap();
        queues.try_send_to(ConnectionType::Ble, media(i)).unwrap();
    }
    queues.clear_and_release_report_channel(ConnectionType::Usb);
    assert_eq!(queues.len_of(ConnectionType::Usb), 1);
    assert_eq!(queues.len_of(ConnectionType::Ble), 5);
    assert_eq!(
        queues.usb.as_mut().unwrap().try_receive().unwrap().into_report(),
        Report::KeyboardReport(KeyboardReport::default())
    );
    let mut no_usb = ReportQueues::new(false, true);
    no_usb.clear_and_release_report_channel(ConnectionType::Usb);
    assert_eq!(no_usb.len_of(ConnectionType::Ble), 0);
}

#[test]
fn host_replies_go_back_to_their_transport() {
    let mut replies = HostReplyQueues { usb: Some(HostQueue::new()), ble: Some(HostQueue::new()) };
    let vendor = HostTransport::Ble(BleHostTransport::VendorGatt);
    for i in 0..4 {
        assert!(replies.try_send_host_reply(vendor, [i; 32]));
    }
    assert!(!replies.try_send_host_reply(vendor, [9; 32]));
    assert!(replies.try_send_host_reply(HostTransport::Usb, [7; 32]));
    let packet = replies.ble.as_mut().unwrap().try_receive().unwrap();
    assert_eq!((packet.transport, packet.data), (vendor, [0; 32]));
    let packet = replies.usb.as_mut().unwrap().try_receive().unwrap();
    assert_eq!((packet.transport, packet.data), (HostTransport::Usb, [7; 32]));
    assert!(replies.usb.as_mut().unwrap().try_receive().is_none());
    let mut none = HostReplyQueues { usb: None, ble: None };
    assert!(!none.try_send_host_reply(HostTransport::Usb, [0; 32]));
}
