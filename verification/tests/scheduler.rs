use plane_system::scheduler::backend::SchedulerBackend;
use plane_system::scheduler::state::{
    CaptureRequest, CaptureRequestId, CaptureRequestIds, CaptureResponse, CaptureType,
};
use plane_system::scheduler::RoiKind;

#[derive(Debug, Default, Clone, PartialEq)]
struct Telemetry {
    altitude: i32,
}

#[test]
fn one_capture_request_at_a_time() {
    let mut backend: SchedulerBackend<u32, Telemetry, (i32, i32)> = SchedulerBackend::new((42, -76));
    let first = backend.get_capture_request().unwrap();
    assert_eq!(first.request_id.number(), 0);
    assert!(matches!(first.capture_type, CaptureType::Fixed));
    assert!(backend.get_capture_request().is_none());
    backend.set_capture_response();
    let second = backend.get_capture_request().unwrap();
    assert_eq!(second.request_id.number(), 1);
    assert_ne!(first.request_id, second.request_id);
    assert!(backend.get_capture_request().is_none());
}

#[test]
fn telemetry_and_target() {
    let mut backend: SchedulerBackend<u32, Telemetry, (i32, i32)> = SchedulerBackend::new((1, 2));
    assert_eq!(backend.telemetry(), &Telemetry::default());
    backend.update_telemetry(Telemetry { altitude: 100 });
    assert_eq!(backend.telemetry().altitude, 100);
    assert_eq!(backend.gps(), &(1, 2));
}

#[test]
fn request_ids_count_up() {
    let mut ids = CaptureRequestIds::new();
    let a = CaptureRequestId::new(&mut ids);
    let b = CaptureRequestId::new(&mut ids);
    assert_eq!(a.number(), 0);
    assert_eq!(b.number(), 1);
    let r: CaptureRequest<u8> = CaptureRequest::from_capture_type(CaptureType::Tracking(5), &mut ids);
    assert_eq!(r.request_id.number(), 2);
    assert!(matches!(r.capture_type, CaptureType::Tracking(5)));
    let _ = CaptureResponse::new(r.request_id);
    assert_ne!(RoiKind::Normal, RoiKind::OffAxis);
}

#[test]
fn requests_alternate_with_responses_over_a_call_sequence() {
    let mut backend: SchedulerBackend<u32, Telemetry, (i32, i32)> = SchedulerBackend::new((0, 0));
    let mut ids = Vec::new();
    let mut answered = true;
    for step in 0..200u32 {
        match step % 5 {
            0 | 3 => {
                if let Some(r) = backend.get_capture_request() {
                    assert!(answered, "a request before the last one was answered");
                    assert!(matches!(r.capture_type, CaptureType::Fixed));
                    ids.push(r.request_id.number());
                    answered = false;
                }
            }
            1 => backend.update_telemetry(Telemetry { altitude: step as i32 }),
            _ => {
                if step % 3 == 0 {
                    backend.set_capture_response();
                    answered = true;
                }
            }
        }
    }
    assert!(ids.len() > 10);
    for w in ids.windows(2) {
        assert!(w[0] < w[1]);
    }
}
