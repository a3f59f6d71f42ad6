use delicate_scheduler::envelope::UnifiedResponseMessages;
use delicate_scheduler::pagination::PaginateData;

#[test]
fn success_with_data_wire_fields() {
    // {code: 0, msg: "", data: x}
    let env = UnifiedResponseMessages::<i64>::success_with_data(42);
    assert_eq!(env.code, 0);
    assert_eq!(env.msg, "");
    assert_eq!(env.data, 42);
}

#[test]
fn error_wire_fields_hold_the_default_payload() {
    // {code: -1, msg: "", data: default}
    let env = UnifiedResponseMessages::<i64>::error();
    assert_eq!(env.code, -1);
    assert_eq!(env.msg, "");
    assert_eq!(env.data, 0);
}

#[test]
fn error_with_default_paginate_payload() {
    let env = UnifiedResponseMessages::<PaginateData<i64>>::error();
    assert_eq!(env.code, -1);
    assert_eq!(env.msg, "");
    assert_eq!(env.data.data_source.len(), 0);
    assert_eq!(env.data.page_size, 0);
    assert_eq!(env.data.total, 0);
    assert_eq!(env.data.total_page, 0);
    assert_eq!(env.data.state_desc.len(), 0);
}

#[test]
fn from_result_ok_is_success() {
    let env = UnifiedResponseMessages::<i64>::from_result(Ok(7));
    assert_eq!(env.code, 0);
    assert_eq!(env.msg, "");
    assert_eq!(env.data, 7);
    assert!(env.is_success());
}

#[test]
fn from_result_err_keeps_the_message_verbatim() {
    let env = UnifiedResponseMessages::<i64>::from_result(Err(String::from(
        "Duplicate entry '7' for key 'PRIMARY'",
    )));
    assert_eq!(env.code, -1);
    assert_eq!(env.msg, "Duplicate entry '7' for key 'PRIMARY'");
    assert_eq!(env.data, 0);
    assert!(!env.is_success());
}

#[test]
fn error_with_data_keeps_the_payload() {
    let env = UnifiedResponseMessages::<i64>::error_with_data(9);
    assert_eq!(env.code, -1);
    assert_eq!(env.msg, "");
    assert_eq!(env.data, 9);
}
