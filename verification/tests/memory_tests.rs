use cameleon_u3v::gentl::{DeviceAccessStatusReg, NullObserver, UserDefinedNameReg, MEMORY_SIZE};
use cameleon_u3v::memory::AccessRight::{NA, RO, RW, WO};
use cameleon_u3v::memory::{AccessRight, Memory, MemoryError, MemoryProtection};

#[test]
fn test_protection() {
    // [RO, RW, NA, WO, RO];
    let mut protection = MemoryProtection::new(5);
    protection.set_access_right(0, RO);
    protection.set_access_right(1, RW);
    protection.set_access_right(2, NA);
    protection.set_access_right(3, WO);
    protection.set_access_right(4, RO);

    assert_eq!(protection.access_right(0), RO);
    assert_eq!(protection.access_right(1), RW);
    assert_eq!(protection.access_right(2), NA);
    assert_eq!(protection.access_right(3), WO);
    assert_eq!(protection.access_right(4), RO);

    assert_eq!(protection.access_right_with_range(0..2), RO);
    assert_eq!(protection.access_right_with_range(2..4), NA);
    assert_eq!(protection.access_right_with_range(3..5), NA);
}

#[test]
fn test_verify_address() {
    let protection = MemoryProtection::new(5);
    assert!(protection.verify_address(0).is_ok());
    assert!(protection.verify_address(4).is_ok());
    assert!(protection.verify_address(5).is_err());
    assert!(protection.verify_address_with_range(2..5).is_ok());
    assert!(protection.verify_address_with_range(2..6).is_err());
}

#[test]
fn test_meet_lattice_laws() {
    let all = [NA, RO, WO, RW];
    for &a in &all {
        // idempotent, top and bottom
        assert_eq!(a.meet(a), a);
        assert_eq!(RW.meet(a), a);
        assert_eq!(NA.meet(a), NA);
        for &b in &all {
            // commutative
            assert_eq!(a.meet(b), b.meet(a));
            for &c in &all {
                // associative
                assert_eq!(a.meet(b).meet(c), a.meet(b.meet(c)));
            }
        }
    }
    assert_eq!(RO.meet(WO), NA);
    assert_eq!(RO.meet(RW), RO);
    assert_eq!(WO.meet(RW), WO);
}

#[test]
fn test_access_right_encoding() {
    assert_eq!(NA.as_num(), 0b00);
    assert_eq!(RO.as_num(), 0b01);
    assert_eq!(WO.as_num(), 0b10);
    assert_eq!(RW.as_num(), 0b11);
    for &a in &[NA, RO, WO, RW] {
        assert_eq!(AccessRight::from_num(a.as_num()), a);
        assert_eq!(a.is_readable(), a == RO || a == RW);
        assert_eq!(a.is_writable(), a == WO || a == RW);
    }
}

#[test]
fn test_protection_copy_from() {
    let mut small = MemoryProtection::new(3);
    small.set_access_right(0, RO);
    small.set_access_right(1, WO);
    small.set_access_right(2, RW);

    let mut big = MemoryProtection::new(8);
    big.copy_from(&small, 4);
    assert_eq!(big.access_right(3), NA);
    assert_eq!(big.access_right(4), RO);
    assert_eq!(big.access_right(5), WO);
    assert_eq!(big.access_right(6), RW);
    assert_eq!(big.access_right(7), NA);
}

#[test]
fn test_raw_access_rights_checked() {
    let mut mem: Memory<NullObserver> = Memory::new(8);
    mem.set_access_right_with_range(0..4, RO);
    mem.set_access_right_with_range(4..8, WO);

    // Reads succeed exactly on readable ranges that exist.
    assert_eq!(mem.read_raw(0..4).unwrap(), vec![0, 0, 0, 0]);
    assert_eq!(mem.read_raw(2..4).unwrap(), vec![0, 0]);
    assert_eq!(mem.read_raw(3..5), Err(MemoryError::AddressNotReadable));
    assert_eq!(mem.read_raw(4..8), Err(MemoryError::AddressNotReadable));
    assert_eq!(mem.read_raw(6..9), Err(MemoryError::InvalidAddress));

    // Writes succeed exactly on writable ranges that exist.
    assert!(mem.write_raw(4, &[1, 2, 3, 4]).is_ok());
    assert_eq!(mem.write_raw(0, &[9]), Err(MemoryError::AddressNotWritable));
    assert_eq!(mem.write_raw(7, &[9, 9]), Err(MemoryError::InvalidAddress));
}

struct CountingObserver {
    count: std::rc::Rc<std::cell::Cell<u32>>,
}

impl cameleon_u3v::memory::MemoryObserver for CountingObserver {
    fn update(&mut self) {
        self.count.set(self.count.get() + 1);
    }
}

#[test]
fn test_observers_fire_on_typed_write() {
    let count = std::rc::Rc::new(std::cell::Cell::new(0));
    let mut mem: Memory<CountingObserver> = Memory::new(MEMORY_SIZE);

    // Duplicates are allowed: the same register observed twice fires twice.
    mem.register_observer::<UserDefinedNameReg>(CountingObserver { count: count.clone() });
    mem.register_observer::<UserDefinedNameReg>(CountingObserver { count: count.clone() });
    // An observer of another register does not fire.
    mem.register_observer::<DeviceAccessStatusReg>(CountingObserver { count: count.clone() });

    assert!(mem.write::<UserDefinedNameReg>(b"cam".to_vec()).is_ok());
    assert_eq!(count.get(), 2);

    // A failing serialization leaves the memory untouched and fires nothing.
    let too_long = vec![b'x'; 65];
    assert_eq!(
        mem.write::<UserDefinedNameReg>(too_long),
        Err(MemoryError::InvalidRegisterData)
    );
    assert_eq!(count.get(), 2);
    assert_eq!(mem.read::<UserDefinedNameReg>().unwrap(), b"cam".to_vec());
}

#[test]
fn test_typed_write_then_read_roundtrip() {
    let mut mem: Memory<NullObserver> = Memory::new(MEMORY_SIZE);

    assert!(mem.write::<DeviceAccessStatusReg>(0xDEAD_BEEF).is_ok());
    assert_eq!(mem.read::<DeviceAccessStatusReg>().unwrap(), 0xDEAD_BEEF);

    assert!(mem.write::<UserDefinedNameReg>(b"front camera".to_vec()).is_ok());
    assert_eq!(
        mem.read::<UserDefinedNameReg>().unwrap(),
        b"front camera".to_vec()
    );

    // Values that do not fit the register are rejected unchanged.
    assert_eq!(
        mem.write::<UserDefinedNameReg>(b"a\0b".to_vec()),
        Err(MemoryError::InvalidRegisterData)
    );
    assert_eq!(
        mem.read::<UserDefinedNameReg>().unwrap(),
        b"front camera".to_vec()
    );
}

#[test]
fn test_typed_access_bypasses_rights() {
    // The user register is RW for the host, the status register RO; typed
    // access ignores both.
    let mut mem: Memory<NullObserver> = Memory::new(MEMORY_SIZE);
    mem.set_access_right_with_range(0..4, RO);
    assert!(mem.write::<DeviceAccessStatusReg>(7).is_ok());
    assert_eq!(mem.read::<DeviceAccessStatusReg>().unwrap(), 7);
    assert_eq!(mem.access_right::<DeviceAccessStatusReg>(), RO);
}
