use proxy_core::utils::{hex_dump, hex_dump_uppercase, Either};

#[test]
fn hex_dump_lowercase_values() {
    assert_eq!(hex_dump(&[]), "");
    assert_eq!(hex_dump(&[0x00]), "00");
    assert_eq!(hex_dump(&[0xab]), "ab");
    assert_eq!(hex_dump(&[0x00, 0xff, 0x10]), "00ff10");
    assert_eq!(hex_dump(&[0x01, 0x23, 0x45, 0x67, 0x89]), "0123456789");
}

#[test]
fn hex_dump_uppercase_values() {
    assert_eq!(hex_dump_uppercase(&[]), "");
    assert_eq!(hex_dump_uppercase(&[0xab]), "AB");
    assert_eq!(hex_dump_uppercase(&[0x00, 0xff, 0x10]), "00FF10");
    assert_eq!(hex_dump_uppercase(&[0xde, 0xad, 0xbe, 0xef]), "DEADBEEF");
}

#[test]
fn either_constructors() {
    let l: Either<u32, &str> = Either::with_left(7);
    assert_eq!(l, Either::Left(7));
    let r: Either<u32, &str> = Either::with_right("x");
    assert_eq!(r, Either::Right("x"));
}

#[test]
fn either_map_left_touches_only_left() {
    let l: Either<u32, &str> = Either::Left(7);
    assert_eq!(l.map_left(|x| x + 1), Either::Left(8));
    let r: Either<u32, &str> = Either::Right("x");
    assert_eq!(r.map_left(|x| x + 1), Either::Right("x"));
}

#[test]
fn either_map_right_touches_only_right() {
    let l: Either<u32, u32> = Either::Left(7);
    assert_eq!(l.map_right(|x| x * 2), Either::Left(7));
    let r: Either<u32, u32> = Either::Right(21);
    assert_eq!(r.map_right(|x| x * 2), Either::Right(42));
}

#[test]
fn either_map_applies_the_fitting_function() {
    let l: Either<u32, &str> = Either::Left(7);
    assert_eq!(l.map(|x| x as usize, |s| s.len()), 7);
    let r: Either<u32, &str> = Either::Right("four");
    assert_eq!(r.map(|x| x as usize, |s| s.len()), 4);
}
