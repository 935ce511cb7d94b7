use kvm_boot::config::{RequestCodes, KVM_CREATE_VCPU, KVM_CREATE_VM, KVM_GET_VCPU_MMAP_SIZE};
use kvm_boot::error::{BootError, ErrorKind, Reply, Stage};
use kvm_boot::session::{Action, Phase, Session};

fn ok(ret: i64) -> Reply {
    Reply { ret, errno: 0 }
}

fn failed(errno: i32) -> Reply {
    Reply { ret: -1, errno }
}

const EACCES: i32 = 13;
const ENOMEM: i32 = 12;
const EINVAL: i32 = 22;
const EBADF: i32 = 9;

#[test]
fn happy_path_acquires_then_releases_in_reverse_order() {
    let (mut s, first) = Session::start(RequestCodes::kvm());
    assert_eq!(first, Action::Open);
    assert_eq!(
        s.advance(ok(3)),
        Action::QuerySize { device: 3, code: KVM_GET_VCPU_MMAP_SIZE }
    );
    assert_eq!(s.advance(ok(12288)), Action::CreateVm { device: 3, code: KVM_CREATE_VM });
    assert_eq!(s.advance(ok(4)), Action::CreateVcpu { vm: 4, code: KVM_CREATE_VCPU });
    assert_eq!(s.advance(ok(5)), Action::MapState { vcpu: 5, len: 12288 });
    assert_eq!(
        s.advance(ok(0x7000_0000)),
        Action::Run { vcpu: 5, addr: 0x7000_0000, len: 12288 }
    );
    assert_eq!(s.phase(), Phase::Running);
    assert_eq!(s.shutdown(), Action::Unmap { addr: 0x7000_0000, len: 12288 });
    assert_eq!(s.advance(ok(0)), Action::Close { fd: 5 });
    assert_eq!(s.advance(ok(0)), Action::Close { fd: 4 });
    assert_eq!(s.advance(ok(0)), Action::Close { fd: 3 });
    assert_eq!(s.advance(ok(0)), Action::Finish { error: None });
    assert_eq!(s.phase(), Phase::Done);
    assert_eq!(s.error(), None);
}

#[test]
fn device_open_failure_attempts_nothing_else() {
    let (mut s, _) = Session::start(RequestCodes::kvm());
    let expected = BootError {
        kind: ErrorKind::ResourceUnavailable,
        stage: Stage::OpenDevice,
        errno: EACCES,
        ret: -1,
    };
    assert_eq!(s.advance(failed(EACCES)), Action::Finish { error: Some(expected) });
    assert_eq!(s.phase(), Phase::Done);
    assert_eq!(s.advance(ok(0)), Action::Finish { error: Some(expected) });
}

#[test]
fn vcpu_failure_closes_vm_then_device_before_reporting() {
    let (mut s, _) = Session::start(RequestCodes::kvm());
    s.advance(ok(3));
    s.advance(ok(12288));
    s.advance(ok(4));
    assert_eq!(s.advance(failed(ENOMEM)), Action::Close { fd: 4 });
    assert_eq!(s.advance(ok(0)), Action::Close { fd: 3 });
    let expected = BootError {
        kind: ErrorKind::ResourceUnavailable,
        stage: Stage::CreateVcpu,
        errno: ENOMEM,
        ret: -1,
    };
    assert_eq!(s.advance(ok(0)), Action::Finish { error: Some(expected) });
}

#[test]
fn zero_mapping_size_is_invalid_and_never_mapped() {
    let (mut s, _) = Session::start(RequestCodes::kvm());
    s.advance(ok(3));
    assert_eq!(s.advance(ok(0)), Action::Close { fd: 3 });
    let expected = BootError {
        kind: ErrorKind::InvalidSize,
        stage: Stage::QueryMappingSize,
        errno: 0,
        ret: 0,
    };
    assert_eq!(s.advance(ok(0)), Action::Finish { error: Some(expected) });
}

#[test]
fn rejected_size_query_is_query_failed() {
    let (mut s, _) = Session::start(RequestCodes::kvm());
    s.advance(ok(3));
    assert_eq!(s.advance(failed(EINVAL)), Action::Close { fd: 3 });
    assert_eq!(
        s.advance(ok(0)),
        Action::Finish {
            error: Some(BootError {
                kind: ErrorKind::QueryFailed,
                stage: Stage::QueryMappingSize,
                errno: EINVAL,
                ret: -1,
            })
        }
    );
}

#[test]
fn vm_failure_closes_device() {
    let (mut s, _) = Session::start(RequestCodes::kvm());
    s.advance(ok(3));
    s.advance(ok(4096));
    assert_eq!(s.advance(failed(ENOMEM)), Action::Close { fd: 3 });
    let a = s.advance(ok(0));
    assert_eq!(
        a,
        Action::Finish {
            error: Some(BootError {
                kind: ErrorKind::ResourceUnavailable,
                stage: Stage::CreateVm,
                errno: ENOMEM,
                ret: -1,
            })
        }
    );
}

#[test]
fn mapping_failure_releases_vcpu_vm_device() {
    let (mut s, _) = Session::start(RequestCodes::kvm());
    s.advance(ok(3));
    s.advance(ok(4096));
    s.advance(ok(4));
    s.advance(ok(5));
    assert_eq!(s.advance(failed(ENOMEM)), Action::Close { fd: 5 });
    assert_eq!(s.advance(ok(0)), Action::Close { fd: 4 });
    assert_eq!(s.advance(ok(0)), Action::Close { fd: 3 });
    assert_eq!(
        s.advance(ok(0)),
        Action::Finish {
            error: Some(BootError {
                kind: ErrorKind::MappingFailed,
                stage: Stage::MapState,
                errno: ENOMEM,
                ret: -1,
            })
        }
    );
}

#[test]
fn release_failure_during_unwind_keeps_the_original_error() {
    let (mut s, _) = Session::start(RequestCodes::kvm());
    s.advance(ok(3));
    s.advance(ok(4096));
    s.advance(ok(4));
    assert_eq!(s.advance(failed(ENOMEM)), Action::Close { fd: 4 });
    assert_eq!(s.advance(failed(EBADF)), Action::Close { fd: 3 });
    let a = s.advance(ok(0));
    let original = BootError {
        kind: ErrorKind::ResourceUnavailable,
        stage: Stage::CreateVcpu,
        errno: ENOMEM,
        ret: -1,
    };
    assert_eq!(a, Action::Finish { error: Some(original) });
    assert_eq!(
        s.release_failures().clone(),
        vec![BootError { kind: ErrorKind::ReleaseFailed, stage: Stage::CloseVm, errno: EBADF, ret: -1 }]
    );
}

#[test]
fn failed_unmap_on_shutdown_is_reported_and_teardown_goes_on() {
    let (mut s, _) = Session::start(RequestCodes::kvm());
    for r in [3, 4096, 4, 5, 0x1000] {
        s.advance(ok(r));
    }
    assert_eq!(s.shutdown(), Action::Unmap { addr: 0x1000, len: 4096 });
    assert_eq!(s.advance(failed(EINVAL)), Action::Close { fd: 5 });
    assert_eq!(s.advance(ok(0)), Action::Close { fd: 4 });
    assert_eq!(s.advance(ok(0)), Action::Close { fd: 3 });
    assert_eq!(
        s.advance(ok(0)),
        Action::Finish {
            error: Some(BootError {
                kind: ErrorKind::MappingFailed,
                stage: Stage::UnmapState,
                errno: EINVAL,
                ret: -1,
            })
        }
    );
    assert!(s.release_failures().is_empty());
}

#[test]
fn failed_close_on_shutdown_is_release_failed() {
    let (mut s, _) = Session::start(RequestCodes::kvm());
    for r in [3, 4096, 4, 5, 0x1000] {
        s.advance(ok(r));
    }
    s.shutdown();
    s.advance(ok(0));
    s.advance(ok(0));
    s.advance(failed(EBADF));
    assert_eq!(
        s.advance(ok(0)),
        Action::Finish {
            error: Some(BootError {
                kind: ErrorKind::ReleaseFailed,
                stage: Stage::CloseVm,
                errno: EBADF,
                ret: -1,
            })
        }
    );
}

#[test]
fn running_session_repeats_its_run_request() {
    let (mut s, _) = Session::start(RequestCodes::kvm());
    for r in [3, 4096, 4, 5, 0x1000] {
        s.advance(ok(r));
    }
    assert_eq!(s.advance(ok(0)), Action::Run { vcpu: 5, addr: 0x1000, len: 4096 });
    assert_eq!(s.phase(), Phase::Running);
}

#[test]
fn size_is_queried_once_and_used_for_the_mapping() {
    let (mut s, _) = Session::start(RequestCodes::kvm());
    let mut queries = 0;
    let mut actions = vec![s.advance(ok(3))];
    for r in [8192, 4, 5, 0x2000] {
        actions.push(s.advance(ok(r)));
    }
    for a in &actions {
        if matches!(a, Action::QuerySize { .. }) {
            queries += 1;
        }
    }
    assert_eq!(queries, 1);
    assert!(actions.contains(&Action::MapState { vcpu: 5, len: 8192 }));
}

#[test]
fn other_request_codes_are_used_as_given() {
    let codes = RequestCodes { create_vm: 1, create_vcpu: 2, get_vcpu_mmap_size: 3 };
    let (mut s, _) = Session::start(codes);
    assert_eq!(s.advance(ok(10)), Action::QuerySize { device: 10, code: 3 });
    assert_eq!(s.advance(ok(4096)), Action::CreateVm { device: 10, code: 1 });
    assert_eq!(s.advance(ok(11)), Action::CreateVcpu { vm: 11, code: 2 });
}
