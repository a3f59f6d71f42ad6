use delicate_scheduler::state::{
    LoginCommand, LoginType, StateDescribe, TaskState, LOGIN_COMMAND_LOGIN, LOGIN_COMMAND_LOGOUT,
    LOGIN_TYPE_ACCOUNT, LOGIN_TYPE_MOBILE, TASK_STATE_DELETED, TASK_STATE_ENABLED,
    TASK_STATE_STOPPED,
};
use delicate_scheduler::user_login_log::{
    paginate_user_login_logs, project_user_login_log, route, QueryParamsUserLoginLog, UserLoginLog,
};

fn mk_log(id: i64, user_id: i64, name: &str, command: i16, login_type: i16) -> UserLoginLog {
    UserLoginLog {
        id,
        user_id,
        name: String::from(name),
        command,
        login_type,
        lastip: String::from("10.0.0.7"),
        created_time: 1_600_000_000,
    }
}

fn no_filter() -> QueryParamsUserLoginLog {
    QueryParamsUserLoginLog {
        user_id: None,
        name: None,
        command: None,
        login_type: None,
        lastip: None,
        per_page: 10,
        page: 1,
    }
}

#[test]
fn list_projects_rows_with_descriptions_and_descriptor_tables() {
    let table = vec![
        mk_log(1, 100, "ada", LOGIN_COMMAND_LOGIN, LOGIN_TYPE_ACCOUNT),
        mk_log(2, 101, "grace", LOGIN_COMMAND_LOGOUT, LOGIN_TYPE_MOBILE),
    ];
    let page = paginate_user_login_logs(table, &no_filter()).unwrap();
    assert_eq!(page.data_source.len(), 2);
    assert_eq!(page.total, 2);
    assert_eq!(page.total_page, 1);
    assert_eq!(page.page_size, 10);
    // descending id order
    assert_eq!(page.data_source[0].id, 2);
    assert_eq!(page.data_source[0].command_desc, "logout");
    assert_eq!(page.data_source[0].login_type_desc, "mobile");
    assert_eq!(page.data_source[1].id, 1);
    assert_eq!(page.data_source[1].command_desc, "login");
    assert_eq!(page.data_source[1].login_type_desc, "account");
    // one descriptor table per coded field
    assert_eq!(page.state_desc.len(), 2);
    assert_eq!(page.state_desc[0].len(), 2);
    assert_eq!(page.state_desc[0][0].value, LOGIN_COMMAND_LOGIN);
    assert_eq!(page.state_desc[0][0].description, "login");
    assert_eq!(page.state_desc[1].len(), 3);
    assert_eq!(page.state_desc[1][1].value, LOGIN_TYPE_MOBILE);
    assert_eq!(page.state_desc[1][1].description, "mobile");
}

#[test]
fn filters_compose_on_login_logs() {
    let table = vec![
        mk_log(1, 100, "ada", LOGIN_COMMAND_LOGIN, LOGIN_TYPE_ACCOUNT),
        mk_log(2, 100, "ada", LOGIN_COMMAND_LOGOUT, LOGIN_TYPE_ACCOUNT),
        mk_log(3, 101, "grace", LOGIN_COMMAND_LOGIN, LOGIN_TYPE_MOBILE),
    ];
    let mut params = no_filter();
    params.user_id = Some(100);
    params.command = Some(LOGIN_COMMAND_LOGIN);
    let page = paginate_user_login_logs(table, &params).unwrap();
    assert_eq!(page.data_source.len(), 1);
    assert_eq!(page.data_source[0].id, 1);
    assert_eq!(page.total, 1);
}

#[test]
fn unmapped_code_fails_loudly() {
    let bad = mk_log(9, 100, "ada", 42, LOGIN_TYPE_ACCOUNT);
    let err = project_user_login_log(bad).unwrap_err();
    assert_eq!(err.value, 42);

    let table = vec![mk_log(9, 100, "ada", LOGIN_COMMAND_LOGIN, 99)];
    let err = paginate_user_login_logs(table, &no_filter()).unwrap_err();
    assert_eq!(err.value, 99);
}

#[test]
fn unmapped_row_outside_the_page_does_not_fail_the_call() {
    // the bad row is filtered out before projection
    let table = vec![
        mk_log(1, 100, "ada", LOGIN_COMMAND_LOGIN, LOGIN_TYPE_ACCOUNT),
        mk_log(2, 101, "grace", 42, LOGIN_TYPE_ACCOUNT),
    ];
    let mut params = no_filter();
    params.user_id = Some(100);
    let page = paginate_user_login_logs(table, &params).unwrap();
    assert_eq!(page.data_source.len(), 1);
}

#[test]
fn route_selects_the_login_log_list_path() {
    assert!(route(&String::from("/api/user_login_log/list")));
    assert!(!route(&String::from("/api/task/list")));
    assert!(!route(&String::from("")));
}

#[test]
fn state_lifecycles_map_codes_both_ways() {
    assert_eq!(TaskState::Enabled.code(), TASK_STATE_ENABLED);
    assert_eq!(TaskState::Stopped.code(), TASK_STATE_STOPPED);
    assert_eq!(TaskState::Deleted.code(), TASK_STATE_DELETED);
    assert_eq!(TaskState::from_code(TASK_STATE_DELETED), Some(TaskState::Deleted));
    assert_eq!(TaskState::from_code(0), None);
    assert_eq!(TaskState::Deleted.description(), "deleted");

    assert_eq!(LoginCommand::from_code(LOGIN_COMMAND_LOGOUT), Some(LoginCommand::Logout));
    assert_eq!(LoginCommand::from_code(77), None);
    assert_eq!(LoginType::from_code(LOGIN_TYPE_MOBILE), Some(LoginType::Mobile));
    assert_eq!(LoginType::from_code(-1), None);

    // descriptor tables are total over the closed sets
    let table = TaskState::descriptors();
    assert_eq!(table.len(), 3);
    for d in &table {
        let st = TaskState::from_code(d.value).unwrap();
        assert_eq!(st.description(), d.description);
    }
}
