use kfs_v2::proc::context::Registers;
use kfs_v2::proc::{ProcessId, ProcessIdCounter, ProcessStatus};

#[test]
fn process_ids_count_up_from_zero() {
    let mut ids = ProcessIdCounter::new();
    let a = ProcessId::new(&mut ids);
    let b = ProcessId::new(&mut ids);
    let c = ProcessId::new(&mut ids);
    assert_eq!(a, ProcessId(0));
    assert_eq!(b, ProcessId(1));
    assert_eq!(c, ProcessId(2));
    assert!(a < b && b < c);
}

#[test]
fn registers_default_to_zero() {
    let r = Registers::default();
    assert_eq!((r.rax, r.rbx, r.rcx, r.rdx), (0, 0, 0, 0));
    assert_eq!((r.eax, r.ebx, r.ecx, r.edx), (0, 0, 0, 0));
    assert_eq!((r.ax, r.bx, r.cx, r.dx), (0, 0, 0, 0));
    assert_eq!((r.ah, r.al, r.bh, r.bl, r.ch, r.cl, r.dh, r.dl), (0, 0, 0, 0, 0, 0, 0, 0));
}

#[test]
fn process_status_order() {
    assert!(ProcessStatus::Created < ProcessStatus::Ready);
    assert!(ProcessStatus::Running < ProcessStatus::Dead);
    assert_ne!(ProcessStatus::Blocked, ProcessStatus::Waiting);
}
