use sharky_env::ffi_collections;
use sharky_env::ffi_collections::CVec;

#[test]
fn it_works() {
    let x: ffi_collections::CVec<usize> = ffi_collections::CVec::new();
    assert_eq!(x.len(), 0);
}

#[test]
fn cvec_from_vec_keeps_items_in_order() {
    let c = CVec::from(vec![3u8, 1, 4, 1, 5]);
    assert_eq!(c.len(), 5);
    assert_eq!(c.as_slice(), &[3u8, 1, 4, 1, 5][..]);
}

#[test]
fn cvec_operate_works_like_a_vec() {
    let text = "Sharky! FROM A BYTESTRING";
    let mut c = CVec::<u8>::new();
    c.operate(|vec: &mut Vec<u8>| {
        vec.resize(text.len(), 0);
        vec.clone_from_slice(text.as_bytes());
    });
    assert_eq!(c.len(), text.len());
    assert_eq!(c.as_slice(), text.as_bytes());
    c.operate(|vec: &mut Vec<u8>| {
        vec.truncate(6);
    });
    assert_eq!(c.as_slice(), b"Sharky");
}

#[test]
fn cvec_clone_is_equal_and_independent() {
    let mut a = CVec::from(vec![1i64, 2, 3]);
    let b = a.clone();
    a.operate(|vec: &mut Vec<i64>| vec.push(4));
    assert_eq!(b.as_slice(), &[1i64, 2, 3][..]);
    assert_eq!(a.as_slice(), &[1i64, 2, 3, 4][..]);
    let empty: CVec<i64> = CVec::new();
    assert_eq!(empty.clone().len(), 0);
}

#[test]
fn cvec_operators_see_the_items() {
    let mut c = CVec::from(vec![10u8, 20]);
    {
        let op = c.get_operator();
        assert_eq!(op.as_vec(), &vec![10u8, 20]);
    }
    {
        let mut op = c.get_operator_mut();
        op.as_vec_mut().push(30);
        assert_eq!(op.as_vec().len(), 3);
    }
    assert_eq!(c.as_slice(), &[10u8, 20, 30][..]);
}
