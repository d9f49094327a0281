use int_interval::{OneTwo, U8CO, ZeroOneTwo};

#[test]
fn one_two_len_and_items() {
    let one: OneTwo<u8> = OneTwo::One(4);
    let two: OneTwo<u8> = OneTwo::Two(1, 9);
    assert_eq!(one.len(), 1);
    assert_eq!(two.len(), 2);
    assert_eq!(one.into_vec(), vec![4]);
    assert_eq!(two.into_vec(), vec![1, 9]);
}

#[test]
fn zero_one_two_len_and_items() {
    let zero: ZeroOneTwo<i8> = ZeroOneTwo::Zero;
    let one: ZeroOneTwo<i8> = ZeroOneTwo::One(-3);
    let two: ZeroOneTwo<i8> = ZeroOneTwo::Two(-3, 3);
    assert_eq!(zero.len(), 0);
    assert!(zero.is_empty());
    assert!(!one.is_empty());
    assert_eq!(one.len(), 1);
    assert_eq!(two.len(), 2);
    assert_eq!(zero.into_vec(), Vec::<i8>::new());
    assert_eq!(two.into_vec(), vec![-3, 3]);
}

#[test]
fn readme_residual_walk() {
    let lhs = U8CO::try_new(2, 10).unwrap();
    let rhs = U8CO::try_new(4, 6).unwrap();

    let mut residuals = lhs.difference(rhs).into_iter();

    assert_eq!(residuals.len(), 2);
    assert_eq!(residuals.next(), Some(U8CO::try_new(2, 4).unwrap()));
    assert_eq!(residuals.next_back(), Some(U8CO::try_new(6, 10).unwrap()));
    assert_eq!(residuals.next(), None);
    assert_eq!(residuals.next_back(), None);
    assert_eq!(residuals.len(), 0);
}

#[test]
fn walk_from_both_ends() {
    let mut w = OneTwo::Two(1u8, 2u8).into_iter();
    assert_eq!(w.next_back(), Some(2));
    assert_eq!(w.len(), 1);
    assert_eq!(w.next_back(), Some(1));
    assert_eq!(w.next(), None);
    let mut z = ZeroOneTwo::<u8>::Zero.into_iter();
    assert_eq!(z.len(), 0);
    assert_eq!(z.next(), None);
    let mut o = ZeroOneTwo::One(7i8).into_iter();
    assert_eq!(o.next(), Some(7));
    assert_eq!(o.next(), None);
}
