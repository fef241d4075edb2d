use commentize::insert::{
    append_file, commentize_file, ends_with, insert, is_present, prepend_file, starts_with, Entry,
    InsertError,
};

fn file(e: &Entry) -> &Vec<u8> {
    match e {
        Entry::File(c) => c,
        Entry::Directory(_) => panic!("a directory"),
    }
}

fn children(e: &Entry) -> &Vec<Entry> {
    match e {
        Entry::Directory(es) => es,
        Entry::File(_) => panic!("a file"),
    }
}

fn leaves(e: &Entry, out: &mut Vec<Vec<u8>>) {
    match e {
        Entry::File(c) => out.push(c.clone()),
        Entry::Directory(es) => {
            for x in es {
                leaves(x, out);
            }
        }
    }
}

#[test]
fn append_twice_is_append_once() {
    let once = insert(b"\n/* box */\n", b"fn main() {}\n", true);
    assert_eq!(once, b"fn main() {}\n\n/* box */\n".to_vec());
    let twice = insert(b"\n/* box */\n", &once, true);
    assert_eq!(twice, once);
}

#[test]
fn prepend_twice_is_prepend_once() {
    let once = insert(b"/* box */\n\n", b"fn main() {}\n", false);
    assert_eq!(once, b"/* box */\n\nfn main() {}\n".to_vec());
    let twice = insert(b"/* box */\n\n", &once, false);
    assert_eq!(twice, once);
}

#[test]
fn presence_is_tested_at_the_right_end() {
    assert!(is_present(b"ab", b"xxab", true));
    assert!(!is_present(b"ab", b"xxab", false));
    assert!(is_present(b"ab", b"abxx", false));
    assert!(!is_present(b"ab", b"abxx", true));
    assert!(!is_present(b"abc", b"ab", true));
    assert!(is_present(b"", b"", false));
    assert!(starts_with(b"abc", b"abc"));
    assert!(!starts_with(b"abd", b"abc"));
    assert!(ends_with(b"abc", b"bc"));
    assert!(!ends_with(b"abc", b"ab"));
}

#[test]
fn a_changed_box_is_inserted_again() {
    let first = insert(b"[a]\n", b"text\n", false);
    let second = insert(b"[b]\n", &first, false);
    assert_eq!(second, b"[b]\n[a]\ntext\n".to_vec());
}

#[test]
fn a_directory_is_no_single_file() {
    let dir = Entry::Directory(vec![Entry::File(b"x".to_vec())]);
    assert_eq!(prepend_file(b"d", &dir).unwrap_err(), InsertError::IsDirectoryMismatch);
    assert_eq!(append_file(b"d", &dir).unwrap_err(), InsertError::IsDirectoryMismatch);
}

#[test]
fn single_files_receive_the_data() {
    let f = Entry::File(b"body".to_vec());
    assert_eq!(file(&prepend_file(b"<>", &f).unwrap()), &b"<>body".to_vec());
    assert_eq!(file(&append_file(b"<>", &f).unwrap()), &b"body<>".to_vec());
    assert_eq!(file(&commentize_file(b"<>", &f, true)), &b"body<>".to_vec());
    assert_eq!(file(&commentize_file(b"<>", &f, false)), &b"<>body".to_vec());
}

#[test]
fn every_file_of_a_directory_is_visited_once() {
    let tree = Entry::Directory(vec![
        Entry::File(b"a".to_vec()),
        Entry::Directory(vec![
            Entry::File(b"b".to_vec()),
            Entry::Directory(vec![Entry::File(b"c".to_vec()), Entry::Directory(vec![])]),
            Entry::File(b"#d".to_vec()),
        ]),
        Entry::File(b"e".to_vec()),
    ]);
    let out = commentize_file(b"#", &tree, false);
    let mut got = Vec::new();
    leaves(&out, &mut got);
    assert_eq!(
        got,
        vec![b"#a".to_vec(), b"#b".to_vec(), b"#c".to_vec(), b"#d".to_vec(), b"#e".to_vec()]
    );
    assert_eq!(children(&out).len(), 3);
    assert_eq!(children(&children(&out)[1]).len(), 3);
    assert_eq!(children(&children(&children(&out)[1])[1]).len(), 2);

    let again = commentize_file(b"#", &out, false);
    let mut second = Vec::new();
    leaves(&again, &mut second);
    assert_eq!(second, got);
}
