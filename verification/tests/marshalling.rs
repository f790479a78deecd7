use lld_bridge::marshal::{find_nul, marshal, to_c_string, EncodingError};

fn strings(items: &[&str]) -> Vec<String> {
    items.iter().map(|s| s.to_string()).collect()
}

#[test]
fn marshal_empty_list_gives_empty_table() {
    let argv = marshal(&[]).unwrap();
    assert!(argv.is_empty());
}

#[test]
fn marshal_keeps_length_and_order() {
    let args = strings(&["-o", "a.out", "main.o", "-o", "", "lib.a"]);
    let argv = marshal(&args).unwrap();
    assert_eq!(argv.len(), 6);
    assert_eq!(argv[0], b"-o\0".to_vec());
    assert_eq!(argv[1], b"a.out\0".to_vec());
    assert_eq!(argv[2], b"main.o\0".to_vec());
    assert_eq!(argv[3], b"-o\0".to_vec());
    assert_eq!(argv[4], b"\0".to_vec());
    assert_eq!(argv[5], b"lib.a\0".to_vec());
}

#[test]
fn marshal_keeps_duplicates() {
    let args = strings(&["x.o", "x.o", "x.o"]);
    let argv = marshal(&args).unwrap();
    assert_eq!(argv, vec![b"x.o\0".to_vec(), b"x.o\0".to_vec(), b"x.o\0".to_vec()]);
}

#[test]
fn marshal_encodes_as_utf8() {
    let args = strings(&["caf\u{e9}.o", "\u{1F600}"]);
    let argv = marshal(&args).unwrap();
    assert_eq!(argv[0], vec![0x63, 0x61, 0x66, 0xC3, 0xA9, 0x2E, 0x6F, 0x00]);
    assert_eq!(argv[1], vec![0xF0, 0x9F, 0x98, 0x80, 0x00]);
}

#[test]
fn marshal_every_buffer_ends_with_its_only_null() {
    let args = strings(&["--gc-sections", "-L/usr/lib", "crt1.o"]);
    let argv = marshal(&args).unwrap();
    for (buffer, arg) in argv.iter().zip(args.iter()) {
        assert_eq!(buffer.len(), arg.len() + 1);
        assert_eq!(buffer[buffer.len() - 1], 0);
        assert_eq!(&buffer[..buffer.len() - 1], arg.as_bytes());
        assert_eq!(buffer.iter().filter(|b| **b == 0).count(), 1);
    }
}

#[test]
fn marshal_rejects_embedded_null_with_position() {
    let args = strings(&["-o", "a\0b", "main.o"]);
    let e: EncodingError = marshal(&args).unwrap_err();
    assert_eq!(e.position(), 1);
}

#[test]
fn marshal_rejects_null_in_first_argument() {
    let args = strings(&["\0", "ok"]);
    assert_eq!(marshal(&args).unwrap_err().position(), 0);
}

#[test]
fn marshal_rejects_null_in_last_argument() {
    let args = strings(&["a", "b", "c\0"]);
    assert_eq!(marshal(&args).unwrap_err().position(), 2);
}

#[test]
fn marshal_names_the_first_of_several_offenders() {
    let args = strings(&["a", "b\0", "c", "\0d", "e\0"]);
    assert_eq!(marshal(&args).unwrap_err().position(), 1);
}

#[test]
fn encoding_errors_compare_by_position() {
    let one = marshal(&strings(&["a", "b\0"])).unwrap_err();
    let other = marshal(&strings(&["x", "\0y", "z"])).unwrap_err();
    let third = marshal(&strings(&["\0"])).unwrap_err();
    assert_eq!(one, other);
    assert_ne!(one, third);
}

#[test]
fn find_nul_reports_first_null() {
    assert_eq!(find_nul(b""), None);
    assert_eq!(find_nul(b"abc"), None);
    assert_eq!(find_nul(b"\0"), Some(0));
    assert_eq!(find_nul(b"ab\0cd\0"), Some(2));
    assert_eq!(find_nul(&[1, 2, 3, 0]), Some(3));
}

#[test]
fn to_c_string_appends_terminator() {
    assert_eq!(to_c_string(""), vec![0]);
    assert_eq!(to_c_string("ld"), vec![0x6C, 0x64, 0x00]);
    assert_eq!(to_c_string("\u{e9}"), vec![0xC3, 0xA9, 0x00]);
}
