use acquire_frames::runtime::{
    check_status, settle, NativeCall, NativeError, ScopeError, SessionIds, STATUS_OK,
};
use acquire_frames::sample_type::SampleType;

#[test]
fn status_ok_is_success() {
    assert_eq!(check_status(NativeCall::MapRead, Some(0), STATUS_OK), Ok(()));
}

#[test]
fn failed_status_keeps_call_and_stream() {
    assert_eq!(
        check_status(NativeCall::UnmapRead, Some(1), 1),
        Err(NativeError { call: NativeCall::UnmapRead, stream_id: Some(1), status: 1 })
    );
    assert_eq!(
        check_status(NativeCall::Start, None, 7),
        Err(NativeError { call: NativeCall::Start, stream_id: None, status: 7 })
    );
}

#[test]
fn cleanup_failure_outranks_body_failure() {
    let unmap = NativeError { call: NativeCall::UnmapRead, stream_id: Some(0), status: 1 };
    let body: Result<u32, &str> = Err("body failed");
    assert_eq!(settle(body, Err(unmap)), Err(ScopeError::Cleanup(unmap)));
    let body: Result<u32, &str> = Ok(3);
    assert_eq!(settle(body, Err(unmap)), Err(ScopeError::Cleanup(unmap)));
}

#[test]
fn body_outcome_stands_when_cleanup_succeeds() {
    let body: Result<u32, &str> = Err("body failed");
    assert_eq!(settle(body, Ok(())), Err(ScopeError::Body("body failed")));
    let body: Result<u32, &str> = Ok(3);
    assert_eq!(settle(body, Ok(())), Ok(3));
}

#[test]
fn session_ids_are_fresh() {
    let mut ids = SessionIds::new();
    assert_eq!(ids.issue(), Some(0));
    assert_eq!(ids.issue(), Some(1));
    assert_eq!(ids.issue(), Some(2));
}

#[test]
fn sample_tags_round_trip() {
    let all = SampleType::iter();
    assert_eq!(all.len(), 8);
    for (i, t) in all.iter().enumerate() {
        assert_eq!(t.tag(), i as u32);
        assert_eq!(SampleType::from_tag(i as u32), Some(*t));
    }
    assert_eq!(SampleType::from_tag(8), None);
    assert_eq!(SampleType::default(), SampleType::U8);
}

#[test]
fn sample_sizes() {
    assert_eq!(SampleType::U8.size(), 1);
    assert_eq!(SampleType::I8.size(), 1);
    assert_eq!(SampleType::U16.size(), 2);
    assert_eq!(SampleType::I16.size(), 2);
    assert_eq!(SampleType::U10.size(), 2);
    assert_eq!(SampleType::U12.size(), 2);
    assert_eq!(SampleType::U14.size(), 2);
    assert_eq!(SampleType::F32.size(), 4);
}
