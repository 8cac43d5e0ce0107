//! Lifecycle scenarios: create, mutate, flush, reopen, delete.
//!
//! The backing file is represented by the bytes it holds: `close` yields the
//! bytes a caller would write to disk, `open` takes the bytes a caller would
//! read back, and `Option<Vec<u8>>` stands for a file that may not exist.

use filebox::FileBox;
use filebox::FileBoxError;

#[test]
fn write_then_read() {
    let file: Vec<u8>;
    {
        let mut x: FileBox<i64> = FileBox::open_new(10);
        *x.get_mut() += 1;
        file = x.close().unwrap();
    }
    let x: FileBox<i64> = FileBox::open(&file).unwrap();
    assert_eq!(*x.get(), 11);
}

#[test]
fn delete_box() {
    let x: FileBox<i64> = FileBox::new();
    // Deleting consumes the box without yielding bytes: the backing file is
    // removed rather than flushed, so a later open finds no file to read.
    x.delete();
    let file: Option<Vec<u8>> = None;
    match file {
        Some(bytes) => {
            let _ = FileBox::<i64>::open(&bytes);
            panic!("opened the file which should be deleted");
        }
        None => {}
    }
}

#[test]
fn mutate_then_persist() {
    let file: Vec<u8>;
    {
        let mut x: FileBox<i64> = FileBox::open_new(5);
        x.set(9);
        file = x.close().unwrap();
    }
    let x: FileBox<i64> = FileBox::open(&file).unwrap();
    assert_eq!(*x.get(), 9);
    assert_ne!(*x.get(), 5);
}

#[test]
fn bytes_round_trip() {
    let file: Vec<u8>;
    {
        let x: FileBox<Vec<u8>> = FileBox::open_new(vec![1, 2, 3]);
        file = x.close().unwrap();
    }
    let x: FileBox<Vec<u8>> = FileBox::open(&file).unwrap();
    assert_eq!(*x.get(), vec![1, 2, 3]);
}

#[test]
fn mutate_bytes_then_persist() {
    let file: Vec<u8>;
    {
        let mut x: FileBox<Vec<u8>> = FileBox::new();
        x.get_mut().extend_from_slice(b"foo bar");
        file = x.close().unwrap();
    }
    let x: FileBox<Vec<u8>> = FileBox::open(&file).unwrap();
    assert_eq!(*x.get(), b"foo bar".to_vec());
}

#[test]
fn compound_type() {
    let file: Vec<u8>;
    {
        let mut x: FileBox<(Vec<u8>, i64)> = FileBox::new();
        x.get_mut().0.extend_from_slice(b"foo bar");
        x.get_mut().1 += 13;
        file = x.close().unwrap();
    }
    let x: FileBox<(Vec<u8>, i64)> = FileBox::open(&file).unwrap();
    assert_eq!(*x.get(), (b"foo bar".to_vec(), 13));
}

#[test]
fn default_fill() {
    let file = FileBox::<i64>::new().close().unwrap();
    let x: FileBox<i64> = FileBox::open(&file).unwrap();
    assert_eq!(*x.get(), 0);

    let file = FileBox::<Vec<u8>>::new().close().unwrap();
    let x: FileBox<Vec<u8>> = FileBox::open(&file).unwrap();
    assert_eq!(*x.get(), Vec::<u8>::new());
}

#[test]
fn open_or_new_twice() {
    // First call: no file exists, so the box is filled with the default.
    let first: FileBox<i64> = FileBox::open_or_new(None).unwrap();
    assert_eq!(*first.get(), 0);
    let file = first.close().unwrap();

    // Second call: the file now exists, so the stored value is opened,
    // not created anew; both calls round-trip the same stored value.
    let second: FileBox<i64> = FileBox::open_or_new(Some(&file)).unwrap();
    assert_eq!(*second.get(), 0);
    assert_eq!(second.close().unwrap(), file);
}

#[test]
fn corrupt_file_rejected() {
    // An empty file is not a valid encoding of any i64.
    let e = FileBox::<i64>::open(&[]).unwrap_err();
    assert_eq!(e, FileBoxError::DecodeError);

    // Nor is one shorter than eight bytes.
    let e = FileBox::<i64>::open(&[1, 2, 3]).unwrap_err();
    assert_eq!(e, FileBoxError::DecodeError);

    // A byte string whose length field asks for more bytes than the file
    // holds is rejected too.
    let e = FileBox::<Vec<u8>>::open(&[5, 0, 0, 0, 0, 0, 0, 0, 1, 2]).unwrap_err();
    assert_eq!(e, FileBoxError::DecodeError);

    let e = FileBox::<Vec<u8>>::open(&[]).unwrap_err();
    assert_eq!(e, FileBoxError::DecodeError);
}
