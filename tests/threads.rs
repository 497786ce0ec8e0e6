use clack_boundary::thread_check::{MainThreadCell, WrongThreadError};

#[test]
fn main_thread_data_is_handed_to_its_owner_only() {
    let mut cell = MainThreadCell::new(1, vec![1u8]);
    assert!(cell.is_owner(1));
    assert!(!cell.is_owner(2));
    assert_eq!(cell.get(1).unwrap(), &vec![1]);
    assert_eq!(cell.get(2).err(), Some(WrongThreadError { expected: 1, found: 2 }));
    cell.get_mut(1).unwrap().push(2);
    assert_eq!(cell.get_mut(3).err(), Some(WrongThreadError { expected: 1, found: 3 }));
    assert_eq!(cell.get(1).unwrap(), &vec![1, 2]);
    let cell = match cell.into_inner(4) {
        Err((e, back)) => {
            assert_eq!(e, WrongThreadError { expected: 1, found: 4 });
            back
        }
        Ok(_) => panic!("wrong thread must be refused"),
    };
    assert_eq!(cell.owner(), 1);
    assert_eq!(cell.into_inner(1).ok(), Some(vec![1, 2]));
}
