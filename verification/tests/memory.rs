use kfs_v2::memory::{PageWalk, WalkStep};
use std::collections::HashMap;

const PRESENT: u64 = 1;
const WRITABLE: u64 = 2;
const HUGE: u64 = 0x80;

/// Runs a walk against tables given as (table address, index) -> raw entry.
fn run(addr: u64, l4: u64, mem: &HashMap<(u64, u16), u64>) -> Result<Option<u64>, ()> {
    let mut walk = PageWalk::new(addr, l4);
    loop {
        let entry = *mem.get(&(walk.table(), walk.index())).unwrap_or(&0);
        match walk.step(entry) {
            WalkStep::Next(next) => walk = next,
            WalkStep::Translated(p) => return Ok(Some(p)),
            WalkStep::NotPresent => return Ok(None),
            WalkStep::HugeFrame => return Err(()),
        }
    }
}

#[test]
fn indices_come_from_address_bits() {
    let addr: u64 = (1 << 39) * 3 + (1 << 30) * 5 + (1 << 21) * 7 + (1 << 12) * 9 + 0x123;
    let walk = PageWalk::new(addr, 0x1000);
    assert_eq!(walk.index(), 3);
    assert_eq!(walk.table(), 0x1000);
    let walk = match walk.step(0x2000 | PRESENT) {
        WalkStep::Next(w) => w,
        _ => panic!("expected next level"),
    };
    assert_eq!(walk.table(), 0x2000);
    assert_eq!(walk.index(), 5);
}

#[test]
fn translate_through_four_levels() {
    let addr: u64 = 0xffff_8000_dead_b123;
    let i4 = ((addr >> 39) & 0x1ff) as u16;
    let i3 = ((addr >> 30) & 0x1ff) as u16;
    let i2 = ((addr >> 21) & 0x1ff) as u16;
    let i1 = ((addr >> 12) & 0x1ff) as u16;
    let mut mem = HashMap::new();
    mem.insert((0x1000, i4), 0x2000 | PRESENT | WRITABLE);
    mem.insert((0x2000, i3), 0x3000 | PRESENT);
    mem.insert((0x3000, i2), 0x4000 | PRESENT | (1 << 63));
    mem.insert((0x4000, i1), 0x0000_0abc_dead_f000 | PRESENT | (1 << 52));
    assert_eq!(run(addr, 0x1000, &mem), Ok(Some(0x0000_0abc_dead_f123)));
}

#[test]
fn missing_entry_means_unmapped() {
    let mut mem = HashMap::new();
    mem.insert((0x1000, 0), 0x2000 | PRESENT);
    assert_eq!(run(0x1234, 0x1000, &mem), Ok(None));
}

#[test]
fn huge_frame_is_reported() {
    let mut mem = HashMap::new();
    mem.insert((0x1000, 0), 0x2000 | PRESENT);
    mem.insert((0x2000, 0), 0x4000_0000 | PRESENT | HUGE);
    assert_eq!(run(0x1234, 0x1000, &mem), Err(()));
}

#[test]
fn not_present_wins_over_huge_flag() {
    let walk = PageWalk::new(0, 0);
    assert!(matches!(walk.step(HUGE), WalkStep::NotPresent));
}

#[test]
fn same_page_translates_alike() {
    let mut mem = HashMap::new();
    mem.insert((0x1000, 0), 0x2000 | PRESENT);
    mem.insert((0x2000, 0), 0x3000 | PRESENT);
    mem.insert((0x3000, 0), 0x4000 | PRESENT);
    mem.insert((0x4000, 5), 0x9000 | PRESENT);
    let a = run(0x5010, 0x1000, &mem).unwrap().unwrap();
    let b = run(0x5ff8, 0x1000, &mem).unwrap().unwrap();
    assert_eq!(a, 0x9010);
    assert_eq!(b - 0xff8, a - 0x010);
    assert_eq!(run(0x6010, 0x1000, &mem), Ok(None));
    assert_eq!(run(0x6ff8, 0x1000, &mem), Ok(None));
}
