use author_inherent::{ensure_none, BadOrigin, Origin};

#[test]
fn only_the_unsigned_origin_passes() {
    assert_eq!(ensure_none(Origin::<u64>::none()), Ok(()));
    assert_eq!(ensure_none(Origin::signed(1u64)), Err(BadOrigin));
    assert_eq!(ensure_none(Origin::<u64>::root()), Err(BadOrigin));
    assert_eq!(ensure_none(Origin::<u64>::authorized()), Err(BadOrigin));
}

#[test]
fn origins_are_what_they_are_made_as() {
    assert_eq!(Origin::<u64>::none(), Origin::Unsigned);
    assert_eq!(Origin::signed(5u64), Origin::Signed(5));
    assert_eq!(Origin::<u64>::root(), Origin::Root);
    assert_eq!(Origin::<u64>::authorized(), Origin::Authorized);
}
