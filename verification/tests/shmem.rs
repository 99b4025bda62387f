//! End-to-end tests against real shared-memory segments, plus byte-level
//! checks of the `Safe` codecs.

use shmem::array;
use shmem::create;
use shmem::open;
use shmem::ArrayRef;
use shmem::Error;
use shmem::MapMut;
use shmem::MapOwned;
use shmem::MapRef;
use shmem::Object;
use shmem::Pair32;
use shmem::Safe;

#[test]
fn u32_byte_image_is_little_endian() {
    let v: u32 = 0xDDCC_BBAA;
    let b = v.to_bytes();
    assert_eq!(b, vec![0xAA, 0xBB, 0xCC, 0xDD]);
    assert_eq!(u32::of_bytes(&b), v);
}

#[test]
fn u8_and_u16_and_u64_round_trip() {
    let a: u8 = 0x7F;
    assert_eq!(u8::of_bytes(&a.to_bytes()), a);
    let b: u16 = 0xBEEF;
    assert_eq!(b.to_bytes(), vec![0xEF, 0xBE]);
    assert_eq!(u16::of_bytes(&b.to_bytes()), b);
    let c: u64 = 0x0102_0304_0506_0708;
    assert_eq!(u64::of_bytes(&c.to_bytes()), c);
    assert_eq!(u64::byte_size(), 8);
}

#[test]
fn pair32_byte_image_and_round_trip() {
    let p = Pair32 { first: 23, second: 42 };
    let b = p.to_bytes();
    assert_eq!(b, vec![23, 0, 0, 0, 42, 0, 0, 0]);
    assert_eq!(Pair32::of_bytes(&b), p);
}

#[test]
fn create_sets_size_and_ownership() {
    let o = Object::create("/shmem-t-object", 16).unwrap();
    assert_eq!(o.size(), 16);
    assert!(o.fd() >= 0);
    assert_eq!(o.path(), "/shmem-t-object");
    o.destroy().unwrap();
}

#[test]
fn open_discovers_size() {
    let owner = Object::create("/shmem-t-opensize", 32).unwrap();
    let opened = Object::open("/shmem-t-opensize").unwrap();
    assert_eq!(opened.size(), 32);
    opened.destroy().unwrap();
    owner.destroy().unwrap();
}

#[test]
fn destroy_of_owner_unlinks_name() {
    let owner = Object::create("/shmem-t-unlink", 8).unwrap();
    owner.destroy().unwrap();
    let reopened = Object::open("/shmem-t-unlink");
    assert!(matches!(reopened, Err(Error::System)));
}

#[test]
fn destroy_of_non_owner_keeps_name() {
    let owner = Object::create("/shmem-t-keep", 8).unwrap();
    let opened = Object::open("/shmem-t-keep").unwrap();
    opened.destroy().unwrap();
    let again = Object::open("/shmem-t-keep").unwrap();
    again.destroy().unwrap();
    owner.destroy().unwrap();
}

#[test]
fn create_with_negative_size_fails() {
    let r = Object::create("/shmem-t-negative", -1);
    assert!(matches!(r, Err(Error::System)));
    // the failed creation may have left the name behind; claim it and remove it
    if let Ok(o) = Object::create("/shmem-t-negative", 0) {
        o.destroy().unwrap();
    }
}

#[test]
fn name_with_interior_nul_is_invalid() {
    let r = Object::create("bad\0name", 8);
    assert!(matches!(r, Err(Error::InvalidPath)));
}

#[test]
fn open_of_missing_name_fails() {
    let r = Object::open("/shmem-t-missing-name");
    assert!(matches!(r, Err(Error::System)));
}

#[test]
fn scalar_mapping_wrong_size_exactly_when_too_small() {
    // 2 bytes cannot hold a u32: rejected, and the segment is released
    let small = Object::create("/shmem-t-scalar-small", 2).unwrap();
    let r = MapOwned::<u32>::new(small);
    assert!(matches!(r, Err(Error::WrongSize)));
    // 4 bytes hold a u32 exactly; 5 bytes are also enough
    let exact = Object::create("/shmem-t-scalar-exact", 4).unwrap();
    let m = MapOwned::<u32>::new(exact).unwrap();
    m.destroy().unwrap();
    let roomy = Object::create("/shmem-t-scalar-roomy", 5).unwrap();
    let m = MapOwned::<u32>::new(roomy).unwrap();
    m.destroy().unwrap();
}

#[test]
fn scalar_create_write_drop_then_open_fails() {
    // one Pair32-sized segment, written through the owning mapping
    let mut m = create::<Pair32>("/test-scalar").unwrap();
    m.set(Pair32 { first: 23, second: 42 }).unwrap();
    assert_eq!(m.get().unwrap(), Pair32 { first: 23, second: 42 });
    // destroying the owning mapping unlinks the name
    m.destroy().unwrap();
    assert!(matches!(Object::open("/test-scalar"), Err(Error::System)));
}

#[test]
fn scalar_write_visible_through_independent_reference() {
    let mut writer = create::<u64>("/shmem-t-scalar-visible").unwrap();
    writer.set(0xABCD_EF01_2345_6789).unwrap();
    let opened = Object::open("/shmem-t-scalar-visible").unwrap();
    let reader = MapRef::<u64>::new(&opened).unwrap();
    assert_eq!(reader.get().unwrap(), 0xABCD_EF01_2345_6789);
    opened.destroy().unwrap();
    writer.destroy().unwrap();
}

#[test]
fn mutable_mapping_writes_then_reference_reads() {
    let mut object = Object::create("/shmem-t-mutable", 8).unwrap();
    {
        let mut m = MapMut::<Pair32>::new(&mut object).unwrap();
        m.set(Pair32 { first: 7, second: 9 }).unwrap();
        assert_eq!(m.get().unwrap(), Pair32 { first: 7, second: 9 });
    }
    // the exclusive borrow has ended: a read-only mapping may view it now
    let r = MapRef::<Pair32>::new(&object).unwrap();
    assert_eq!(r.get().unwrap(), Pair32 { first: 7, second: 9 });
    object.destroy().unwrap();
}

#[test]
fn array_create_write_then_concurrent_reference_observes() {
    let mut writer = array::create::<u8>("/test-array", 10).unwrap();
    assert_eq!(writer.len(), 10);
    let mut i: usize = 0;
    while i < 10 {
        writer.set(i, i as u8).unwrap();
        i += 1;
    }
    let opened = Object::open("/test-array").unwrap();
    let reader = ArrayRef::<u8>::new(&opened).unwrap();
    assert_eq!(reader.len(), 10);
    let mut j: usize = 0;
    while j < 10 {
        assert_eq!(reader.get(j).unwrap(), j as u8);
        j += 1;
    }
    opened.destroy().unwrap();
    writer.destroy().unwrap();
}

#[test]
fn array_open_yields_same_length_and_contents() {
    let mut writer = array::create::<u64>("/shmem-t-array-open", 3).unwrap();
    writer.set(0, 11).unwrap();
    writer.set(1, 22).unwrap();
    writer.set(2, 33).unwrap();
    let reader = array::open::<u64>("/shmem-t-array-open").unwrap();
    assert_eq!(reader.len(), 3);
    assert_eq!(reader.get(0).unwrap(), 11);
    assert_eq!(reader.get(1).unwrap(), 22);
    assert_eq!(reader.get(2).unwrap(), 33);
    reader.destroy().unwrap();
    writer.destroy().unwrap();
}

#[test]
fn array_mapping_wrong_size_exactly_when_not_multiple() {
    // 10 bytes are not a whole number of u32s: rejected
    let ragged = Object::create("/shmem-t-array-ragged", 10).unwrap();
    let r = array::Owned::<u32>::new(ragged);
    assert!(matches!(r, Err(Error::WrongSize)));
    // 8 bytes are exactly two u32s
    let even = Object::create("/shmem-t-array-even", 8).unwrap();
    let m = array::Owned::<u32>::new(even).unwrap();
    assert_eq!(m.len(), 2);
    m.destroy().unwrap();
}

#[test]
fn array_mutable_borrow_is_released_after_use() {
    let mut object = Object::create("/shmem-t-array-mutable", 4).unwrap();
    {
        let mut m = array::Mutable::<u8>::new(&mut object).unwrap();
        assert_eq!(m.len(), 4);
        m.set(0, 1).unwrap();
        m.set(3, 4).unwrap();
        assert_eq!(m.get(0).unwrap(), 1);
    }
    let r = ArrayRef::<u8>::new(&object).unwrap();
    assert_eq!(r.get(0).unwrap(), 1);
    assert_eq!(r.get(3).unwrap(), 4);
    object.destroy().unwrap();
}

#[test]
fn wrong_size_open_leaves_name_for_non_owner() {
    // an opened (non-owning) segment of six bytes is too small for a u64
    // view, and the rejection does not remove the name
    let owner = Object::create("/shmem-t-odd", 6).unwrap();
    let r = open::<u64>("/shmem-t-odd");
    assert!(matches!(r, Err(Error::WrongSize)));
    let still_there = Object::open("/shmem-t-odd").unwrap();
    still_there.destroy().unwrap();
    owner.destroy().unwrap();
}
