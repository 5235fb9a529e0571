use rxx::{CxxString, CxxVector, SharedHeap, SharedPtr, StackString, UniquePtr, WeakPtr};

fn rxx_dummy_cpp_new_vector_i64(a: i32) -> CxxVector<i64> {
    CxxVector::from_native(vec![a as i64])
}

fn rxx_dummy_cpp_add_vector_i64(a: &mut CxxVector<i64>, i: i32) {
    *a.get_mut(0).unwrap() += i as i64;
}

fn rxx_dummy_cpp_addret_vector_i64(a: &mut CxxVector<i64>, i: i32) -> i64 {
    rxx_dummy_cpp_add_vector_i64(a, i);
    *a.get(0).unwrap()
}

fn rxx_dummy_cpp_get_vector_i64(a: &CxxVector<i64>) -> i64 {
    *a.get(0).unwrap()
}

fn rxx_dummy_cpp_getvoid_vector_i64(a: &CxxVector<i64>, i: i32) {
    let _ = (a.vector_len(), i);
}

fn rxx_dummy_cpp_getref_vector_i64<'a>(a: &'a CxxVector<i64>, i: i32) -> &'a i64 {
    let _ = i;
    a.get(0).unwrap()
}

trait DummyMembers {
    fn add(&mut self, a: i32);
    fn addret(&mut self, a: i32) -> i64;
    fn get1(&self) -> i64;
    fn getvoid(&self, a: i32);
    fn getref(&self, a: i32) -> &i64;
}

impl DummyMembers for CxxVector<i64> {
    fn add(&mut self, a: i32) {
        rxx_dummy_cpp_add_vector_i64(self, a)
    }
    fn addret(&mut self, a: i32) -> i64 {
        rxx_dummy_cpp_addret_vector_i64(self, a)
    }
    fn get1(&self) -> i64 {
        rxx_dummy_cpp_get_vector_i64(self)
    }
    fn getvoid(&self, a: i32) {
        rxx_dummy_cpp_getvoid_vector_i64(self, a)
    }
    fn getref(&self, a: i32) -> &i64 {
        rxx_dummy_cpp_getref_vector_i64(self, a)
    }
}

fn new_vector_i64(data: &[i64]) -> CxxVector<i64> {
    CxxVector::from_native(data.to_vec())
}

fn new_string(val: &str) -> CxxString {
    let mut s = CxxString::new();
    s.push_str(val);
    s
}

#[test]
fn test_cpp_fn() {
    let mut a = rxx_dummy_cpp_new_vector_i64(123);
    assert_eq!(a.as_slice()[0], 123);

    rxx_dummy_cpp_add_vector_i64(&mut a, 1);
    assert_eq!(a.as_slice()[0], 124);

    let b = rxx_dummy_cpp_addret_vector_i64(&mut a, 20);
    assert_eq!(b, 144);

    let c = rxx_dummy_cpp_get_vector_i64(&a);
    assert_eq!(c, 144);

    rxx_dummy_cpp_getvoid_vector_i64(&a, 10);

    a.add(20);
    assert_eq!(a.as_slice()[0], 164);

    assert_eq!(a.addret(20), 184);
    assert_eq!(a.get1(), 184);
    a.getvoid(10);

    let b = rxx_dummy_cpp_getref_vector_i64(&a, 0);
    assert_eq!(*b, 184);

    let b = a.getref(0);
    assert_eq!(*b, 184);
}

#[test]
fn test_unique_ptr() {
    let v = 64;
    let o: UniquePtr<i64> = UniquePtr::null();
    assert_eq!(o.to_string(), "nullptr");
    assert!(o.is_null());
    let mut o = UniquePtr::new(v);

    assert!(!o.is_null());
    assert_eq!(*o.as_ref().unwrap(), v);

    let b = o.pin_mut();
    *b = 5;
    assert_eq!(*b, 5);
    assert_eq!(o.to_string(), "5");
}

#[test]
fn test_shared_ptr() {
    let mut heap = SharedHeap::new();
    let v = 64;
    let o: SharedPtr<i64> = SharedPtr::null();
    assert_eq!(o.to_string(&heap), "nullptr");
    assert!(o.is_null());
    let o = SharedPtr::new_in(&mut heap, v);
    assert!(!o.is_null());
    assert_eq!(*o.as_ref(&heap).unwrap(), v);

    let b = o.clone(&mut heap);
    assert_eq!(*b.as_ref(&heap).unwrap(), v);

    let c = o.downgrade(&mut heap);
    assert_eq!(*c.upgrade(&mut heap).as_ref(&heap).unwrap(), v);

    let bb = b.pin_mut(&mut heap);
    assert_eq!(*bb, v);
}

#[test]
fn test_string() {
    let a = "hello";
    let len = a.len();
    let mut s = StackString::default();
    let s = s.init(a);

    assert_eq!(s.string_len(), len);
    assert_eq!(s.to_str(), a);

    let c = &*s;
    assert_eq!(c.string_len(), len);

    let d = s;
    assert_eq!(d.string_len(), len);

    d.reserve(10);
    d.push_str("abc");
    assert_eq!(d.to_str(), "helloabc");

    d.clear();
    assert_eq!(d.string_len(), 0);
}

#[test]
fn test_vector() {
    let a = [1, 2, 3, 4];
    let v = new_vector_i64(&a);
    let mut b = v;
    assert_eq!(b.len(), 4);
    assert_eq!(*b.get(2).unwrap(), 3);

    *b.get_mut(0).unwrap() = 5;
    assert_eq!(b.as_slice(), &[5, 2, 3, 4]);

    b.push(3);
    assert_eq!(b.as_slice(), &[5, 2, 3, 4, 3]);

    let c = b.pop().unwrap();
    assert_eq!(c, 3);
}

#[test]
fn test_unique_string() {
    let s = UniquePtr::new(new_string("test"));
    assert_eq!(s.as_ref().unwrap().to_str(), "test");
}

#[test]
fn test_shared_string() {
    let mut heap = SharedHeap::new();
    let s = SharedPtr::new_in(&mut heap, new_string("test"));
    assert_eq!(s.as_ref(&heap).unwrap().to_str(), "test");
}

#[test]
fn scenario_dynamic_array_over_i64() {
    let mut v = new_vector_i64(&[1, 2, 3, 4]);
    assert_eq!(*v.get(2).unwrap(), 3);
    v.push(5);
    assert_eq!(v.as_slice(), &[1, 2, 3, 4, 5]);
    assert_eq!(v.pop(), Some(5));
    assert_eq!(v.as_slice(), &[1, 2, 3, 4]);
}

#[test]
fn scenario_shared_over_i64() {
    let mut heap = SharedHeap::new();
    let a = SharedPtr::new_in(&mut heap, 64i64);
    let b = a.clone(&mut heap);
    *a.pin_mut(&mut heap) = 5;
    assert_eq!(*b.as_ref(&heap).unwrap(), 5);
    assert_eq!(b.to_string(&heap), "5");
}

#[test]
fn push_then_pop_restores_the_array() {
    let mut v = new_vector_i64(&[7, 8]);
    v.push(42);
    assert_eq!(*v.get(v.len() - 1).unwrap(), 42);
    assert_eq!(v.pop(), Some(42));
    assert_eq!(v.len(), 2);
    assert_eq!(v.as_slice(), &[7, 8]);
}

#[test]
fn empty_array_edges() {
    let mut v = new_vector_i64(&[]);
    assert!(v.is_empty());
    assert_eq!(v.pop(), None);
    assert!(v.get(0).is_none());
    assert!(v.get_mut(0).is_none());
    assert_eq!(v.as_slice(), &[] as &[i64]);
    v.as_mut_slice();
    v.push(1);
    v.as_mut_slice()[0] = 9;
    assert_eq!(*v.get_unchecked(0), 9);
    *v.get_unchecked_mut(0) = 10;
    assert_eq!(v.as_slice(), &[10]);
}

#[test]
fn clone_outlives_dropped_original() {
    let mut heap = SharedHeap::new();
    let a = SharedPtr::new_in(&mut heap, 11i64);
    let b = a.clone(&mut heap);
    a.delete(&mut heap);
    assert_eq!(*b.as_ref(&heap).unwrap(), 11);
    assert_eq!(heap.counts(0), (1, 0));
}

#[test]
fn upgrade_downgrade_round_trip_and_expiry() {
    let mut heap = SharedHeap::new();
    let a = SharedPtr::new_in(&mut heap, 3i64);
    let w = a.downgrade(&mut heap);
    let s = w.upgrade(&mut heap);
    assert!(!s.is_null());
    let w2 = s.downgrade(&mut heap);
    let s2 = w2.upgrade(&mut heap);
    assert_eq!(*s2.as_ref(&heap).unwrap(), 3);
    assert_eq!(heap.counts(0), (3, 2));
    s2.delete(&mut heap);
    s.delete(&mut heap);
    a.delete(&mut heap);
    assert_eq!(heap.counts(0).0, 0);
    assert!(w.upgrade(&mut heap).is_null());
    let w3 = w2.clone(&mut heap);
    assert!(w3.upgrade(&mut heap).is_null());
    w3.delete(&mut heap);
    w2.delete(&mut heap);
    w.delete(&mut heap);
    assert_eq!(heap.counts(0), (0, 0));
    let n: WeakPtr<i64> = WeakPtr::null();
    assert!(n.is_null());
    assert!(n.upgrade(&mut heap).is_null());
}

#[test]
fn shared_as_mut_is_seen_by_every_alias() {
    let mut heap = SharedHeap::new();
    let a = SharedPtr::new_in(&mut heap, 1i64);
    let b = a.clone(&mut heap);
    *b.as_mut(&mut heap).unwrap() = 2;
    assert_eq!(*a.as_ref(&heap).unwrap(), 2);
    let n: SharedPtr<i64> = SharedPtr::null();
    assert!(n.as_mut(&mut heap).is_none());
}

#[test]
fn unique_into_raw_escapes_the_referent() {
    let mut u = UniquePtr::new(5i64);
    *u.as_mut().unwrap() += 1;
    let raw = u.into_raw();
    assert_eq!(raw.as_deref(), Some(&6));
    let back = UniquePtr::from_raw(raw);
    assert_eq!(*back.as_ref().unwrap(), 6);
    assert!(UniquePtr::<i64>::from_raw(None).is_null());
}

#[test]
fn string_bytes_and_lossy_reading() {
    let mut s = CxxString::new();
    s.push_bytes(&[0x66, 0x6f, 0xff]);
    assert_eq!(s.as_bytes(), &[0x66, 0x6f, 0xff]);
    assert_eq!(s.to_string_lossy(), "fo\u{fffd}");
    let mut t = StackString::default();
    let t = t.init("ok");
    assert_eq!(t.to_string_lossy(), "ok");
    let mut u = StackString::default();
    u.init("x");
    assert_eq!(u.pin_str().to_str(), "x");
}

#[test]
fn non_null_handles_read_their_referent() {
    let u = UniquePtr::new(21i64);
    assert_eq!(*u.get(), 21);
    let mut heap = SharedHeap::new();
    let a = SharedPtr::new_in(&mut heap, 22i64);
    let b = SharedPtr::new_in(&mut heap, 23i64);
    assert_eq!(*a.get(&heap), 22);
    assert_eq!(*b.get(&heap), 23);
    assert_eq!(heap.counts(1), (1, 0));
}
