use either::{Either, Left, Right};

#[test]
fn iterator_forwards_to_active_side() {
    let mut it: Either<std::ops::Range<i32>, std::vec::IntoIter<i32>> = Right(vec![5, 6, 7].into_iter());
    assert_eq!(it.next(), Some(5));
    assert_eq!(it.next_back(), Some(7));
    assert_eq!(it.next(), Some(6));
    assert_eq!(it.next(), None);
}

#[test]
fn nth_and_last_forward() {
    let mut it: Either<std::ops::Range<i32>, std::vec::IntoIter<i32>> = Left(0..10);
    assert_eq!(it.nth(3), Some(3));
    assert_eq!(it.next(), Some(4));
    assert_eq!(it.nth(100), None);
    let it2: Either<std::ops::Range<i32>, std::vec::IntoIter<i32>> = Left(0..10);
    assert_eq!(it2.last(), Some(9));
    let empty: Either<std::ops::Range<i32>, std::vec::IntoIter<i32>> = Right(Vec::new().into_iter());
    assert_eq!(empty.last(), None);
    let empty2: Either<std::ops::Range<i32>, std::vec::IntoIter<i32>> = Right(Vec::new().into_iter());
    assert_eq!(empty2.count(), 0);
}

#[test]
fn count_after_next() {
    let mut it: Either<std::ops::Range<u8>, std::ops::Range<u8>> = Right(10..20);
    assert_eq!(it.next(), Some(10));
    assert_eq!(it.count(), 9);
}

#[test]
fn read_to_end_appends() {
    let data = [1u8, 2, 3];
    let mut reader: Either<&[u8], std::io::Empty> = Left(&data[..]);
    let mut out = vec![9u8];
    assert_eq!(reader.read_to_end(&mut out).unwrap(), 3);
    assert_eq!(out, vec![9, 1, 2, 3]);
}

#[test]
fn write_copies_into_buffer() {
    let mut mockbuf = [0u8; 256];
    {
        let mut writer: Either<std::io::Sink, &mut [u8]> = Right(&mut mockbuf[..]);
        let buf = [1u8; 16];
        assert_eq!(writer.write(&buf).unwrap(), 16);
        writer.flush().unwrap();
    }
    assert_eq!(&mockbuf[..16], &[1u8; 16][..]);
    assert_eq!(mockbuf[16], 0);
}

#[test]
fn deref_mut_reaches_active_side() {
    let mut value: Either<String, String> = Right(String::from("ab"));
    value.make_ascii_uppercase();
    assert_eq!(&*value, "AB");
    assert_eq!(value, Right(String::from("AB")));
}

#[test]
fn display_and_hint_forward() {
    let l: Either<i32, &str> = Left(-12);
    assert_eq!(l.to_string(), "-12");
    let r: Either<i32, &str> = Right("text");
    assert_eq!(r.to_string(), "text");
    let it: Either<std::ops::Range<u8>, std::ops::Range<u8>> = Left(3..8);
    assert_eq!(it.size_hint(), (5, Some(5)));
}

#[test]
fn collect_gathers_in_order() {
    let it: Either<std::ops::Range<u32>, std::vec::IntoIter<u32>> = Left(2..6);
    assert_eq!(it.collect(), vec![2, 3, 4, 5]);
    let it2: Either<std::ops::Range<u32>, std::vec::IntoIter<u32>> = Right(vec![9, 8].into_iter());
    assert_eq!(it2.collect(), vec![9, 8]);
}

#[test]
fn all_stops_at_first_failure() {
    let mut it: Either<std::ops::Range<u32>, std::vec::IntoIter<u32>> = Right(vec![2, 4, 5, 6].into_iter());
    assert!(!it.all(|x| x % 2 == 0));
    assert_eq!(it.next(), Some(6));
    let mut it2: Either<std::ops::Range<u32>, std::vec::IntoIter<u32>> = Left(0..5);
    assert!(it2.all(|x| x < 5));
    assert_eq!(it2.next(), None);
}

#[test]
fn fold_runs_in_order() {
    let it: Either<std::ops::Range<u32>, std::vec::IntoIter<u32>> = Left(1..5);
    assert_eq!(it.fold(0, |acc, x| acc * 10 + x), 1234);
    let it2: Either<std::ops::Range<u32>, std::vec::IntoIter<u32>> = Right(vec![3, 1].into_iter());
    assert_eq!(it2.fold(100, |acc, x| acc - x), 96);
}

#[test]
fn exact_len_forwards() {
    let mut it: Either<std::ops::Range<u8>, std::vec::IntoIter<u8>> = Right(vec![1, 2, 3].into_iter());
    assert_eq!(it.len(), 3);
    it.next();
    assert_eq!(it.len(), 2);
}

#[test]
fn extend_appends_to_active_side() {
    let mut right: Either<Vec<u32>, Vec<u32>> = Right(vec![]);
    right.extend(vec![1, 2, 3].into_iter());
    assert_eq!(right, Right(vec![1, 2, 3]));
    let mut left: Either<Vec<u32>, Vec<u32>> = Left(vec![7]);
    left.extend(0..2);
    assert_eq!(left, Left(vec![7, 0, 1]));
}

#[test]
fn io_traits_forward() {
    fn read_all<T: std::io::Read>(mut r: T) -> Vec<u8> {
        let mut out = Vec::new();
        r.read_to_end(&mut out).unwrap();
        out
    }
    fn write_all<T: std::io::Write>(mut w: T, data: &[u8]) {
        w.write_all(data).unwrap();
        w.flush().unwrap();
    }
    let data = [0xffu8; 4];
    let reader: Either<std::io::Empty, &[u8]> = Right(&data[..]);
    assert_eq!(read_all(reader), vec![0xff; 4]);
    let mut sink: Vec<u8> = Vec::new();
    {
        let writer: Either<&mut Vec<u8>, std::io::Sink> = Left(&mut sink);
        write_all(writer, &[1, 2, 3]);
    }
    assert_eq!(sink, vec![1, 2, 3]);
}
