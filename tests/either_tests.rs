use either::{try_left, try_right, Either, Left, Right};
use std::ops::ControlFlow;

#[test]
fn basic() {
    let mut e = Left(2);
    let r = Right(2);
    assert_eq!(e, Left(2));
    e = r;
    assert_eq!(e, Right(2));
    assert_eq!(e.left(), None);
    assert_eq!(e.right(), Some(2));
    assert_eq!(e.as_ref().right(), Some(&2));
    assert_eq!(e.as_mut().right(), Some(&mut 2));
}

#[test]
fn macros() {
    fn a() -> Either<u32, u32> {
        let x: u32 = match try_left(Right(1337u32)) {
            ControlFlow::Continue(x) => x,
            ControlFlow::Break(out) => return out,
        };
        Left(x * 2)
    }
    assert_eq!(a(), Right(1337));

    fn b() -> Either<String, &'static str> {
        let e: Either<&'static str, &'static str> = Left("foo bar");
        let v = match try_right(e) {
            ControlFlow::Continue(v) => v,
            ControlFlow::Break(out) => return out,
        };
        Right(v)
    }
    assert_eq!(b(), Left(String::from("foo bar")));
}

#[test]
fn deref() {
    fn is_str(_: &str) {}
    let value: Either<String, &str> = Left(String::from("test"));
    is_str(&*value);
}

#[test]
fn iter() {
    let x = 3;
    let mut iter = match x {
        1..=3 => Left(0..10),
        _ => Right(17..),
    };

    assert_eq!(iter.next(), Some(0));
    assert_eq!(iter.count(), 9);
}

#[test]
fn read_write() {
    let use_stdio = false;
    let mockdata = [0xff; 256];

    let mut reader = if use_stdio {
        Left(std::io::stdin())
    } else {
        Right(&mockdata[..])
    };

    let mut buf = [0u8; 16];
    assert_eq!(reader.read(&mut buf).unwrap(), buf.len());
    assert_eq!(&buf, &mockdata[..buf.len()]);

    let mut mockbuf = [0u8; 256];
    let mut writer = if use_stdio {
        Left(std::io::stdout())
    } else {
        Right(&mut mockbuf[..])
    };

    let buf = [1u8; 16];
    assert_eq!(writer.write(&buf).unwrap(), buf.len());
}

#[test]
fn try_trait_to_result() {
    fn can_fail(value: Either<i32, &str>) -> Result<&str, i32> {
        Ok(value.into_result()?)
    }

    assert_eq!(can_fail(Left(42)), Err(42));
    assert_eq!(can_fail(Right("hi")), Ok("hi"));
}

#[test]
fn try_trait_to_either() {
    fn can_fail(value: Result<&str, i32>) -> Either<i32, &str> {
        let v = match value {
            Ok(v) => v,
            Err(e) => return Either::from_error(e),
        };
        Either::from_ok(v)
    }

    assert_eq!(can_fail(Err(42)), Left(42));
    assert_eq!(can_fail(Ok("hi")), Right("hi"));
}

#[test]
fn error() {
    let invalid_utf8 = b"\xff";
    let res = || -> Result<_, Either<_, _>> {
        std::str::from_utf8(invalid_utf8).map_err(Left)?;
        "x".parse::<i32>().map_err(Right)?;
        Ok(())
    }();
    assert!(res.is_err());
    res.unwrap_err().description(); // make sure this can be called
}
