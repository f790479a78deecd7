use lld_bridge::result::{LLDInvokeResult, LLDResult};

#[test]
fn result_ok_on_success_is_unit() {
    assert_eq!(LLDResult::new(true, String::new()).ok(), Ok(()));
}

#[test]
fn result_ok_on_success_ignores_diagnostics() {
    let r = LLDResult::new(true, "warning: section discarded".to_string());
    assert!(r.success());
    assert_eq!(r.messages(), "warning: section discarded");
    assert_eq!(r.ok(), Ok(()));
}

#[test]
fn result_ok_on_failure_carries_diagnostics() {
    let r = LLDResult::new(false, "error: undefined symbol: main".to_string());
    assert!(!r.success());
    assert_eq!(r.ok(), Err("error: undefined symbol: main".to_string()));
}

#[test]
fn result_ok_on_failure_without_text_is_empty_error() {
    assert_eq!(LLDResult::new(false, String::new()).ok(), Err(String::new()));
}

#[test]
fn record_getters_return_what_was_stored() {
    let r = LLDInvokeResult::new(true, None);
    assert!(r.get_sucess());
    assert!(r.get_messages().is_none());
    let r = LLDInvokeResult::new(false, Some(b"oops".to_vec()));
    assert!(!r.get_sucess());
    assert_eq!(r.get_messages(), Some(&b"oops".to_vec()));
}

#[test]
fn empty_diagnostics_scenario() {
    let record = LLDInvokeResult::new(true, None);
    let r = LLDResult::copy_of(&record);
    assert!(r.success());
    assert_eq!(r.messages(), "");
    assert_eq!(r.ok(), Ok(()));
}

#[test]
fn copy_of_empty_string_is_empty_text() {
    let record = LLDInvokeResult::new(false, Some(Vec::new()));
    let r = LLDResult::copy_of(&record);
    assert!(!r.success());
    assert_eq!(r.messages(), "");
}

#[test]
fn copy_of_valid_utf8_decodes_it() {
    let bytes = "ld.lld: error: cannot open caf\u{e9}.o".as_bytes().to_vec();
    let r = LLDResult::copy_of(&LLDInvokeResult::new(false, Some(bytes)));
    assert_eq!(r.messages(), "ld.lld: error: cannot open caf\u{e9}.o");
}

#[test]
fn copy_of_malformed_bytes_replaces_them() {
    let r = LLDResult::copy_of(&LLDInvokeResult::new(false, Some(vec![0x66, 0xFF, 0x6F])));
    assert_eq!(r.messages(), "f\u{FFFD}o");
    let r = LLDResult::copy_of(&LLDInvokeResult::new(true, Some(vec![0xE2, 0x82])));
    assert_eq!(r.messages(), "\u{FFFD}");
    assert!(r.success());
}

#[test]
fn copy_of_keeps_the_flag() {
    for flag in [true, false] {
        let r = LLDResult::copy_of(&LLDInvokeResult::new(flag, Some(b"x".to_vec())));
        assert_eq!(r.success(), flag);
    }
}

#[test]
fn copy_is_independent_of_the_record() {
    let mut bytes = b"error: bad input".to_vec();
    let record = LLDInvokeResult::new(false, Some(bytes.clone()));
    let r = LLDResult::copy_of(&record);
    drop(record);
    for b in bytes.iter_mut() {
        *b = b'#';
    }
    drop(bytes);
    assert_eq!(r.messages(), "error: bad input");
}
