//! Status lifecycles: the small closed sets of status codes stored in entity
//! rows, with an exhaustive mapping to human-readable descriptions.
//!
//! The query layer consults `TASK_STATE_DELETED` for its default-visibility
//! rule (logically deleted rows are hidden unless a status is asked for
//! explicitly), and the front-end projection ships these descriptions so a
//! remote renderer needs no hardcoded translation tables.

use vstd::prelude::*;

verus! {

/// Status code of a visible, runnable task.
pub const TASK_STATE_ENABLED: i16 = 1;

/// Status code of a visible task that is not being scheduled.
pub const TASK_STATE_STOPPED: i16 = 2;

/// Status code of a logically deleted task: the row stays in storage but is
/// hidden from list calls whose filter leaves the status unset.
pub const TASK_STATE_DELETED: i16 = 3;

/// Visibility state of a task row.
#[derive(Clone, Copy, Debug, PartialEq, Eq, Structural)]
pub enum TaskState {
    Enabled,
    Stopped,
    Deleted,
}

/// One `value -> description` pair of a state-descriptor table.
#[derive(Debug, PartialEq)]
pub struct StateDescriptor {
    pub value: i16,
    pub description: String,
}

/// Whether the descriptor rows `v` spell out exactly the table `s`.
pub open spec fn descriptors_match(v: Seq<StateDescriptor>, s: Seq<(i16, Seq<char>)>) -> bool {
    &&& v.len() == s.len()
    &&& forall|i: int|
        0 <= i < s.len() ==> (#[trigger] v[i]).value == s[i].0 && v[i].description@ == s[i].1
}

/// A state family: a closed set of status codes with one description each.
/// The mapping must be total; an unmapped code is a data-integrity error,
/// never silently defaulted.
pub trait StateDescribe: Sized {
    /// The full `code -> description` table, in a fixed order.
    spec fn spec_descriptors() -> Seq<(i16, Seq<char>)>;

    /// The table as descriptor rows, for shipping alongside paginated data.
    fn descriptors() -> (r: Vec<StateDescriptor>)
        ensures
            descriptors_match(r@, Self::spec_descriptors()),
    ;
}

impl TaskState {
    /// The status code stored in a task row for this state.
    pub open spec fn spec_code(self) -> i16 {
        match self {
            TaskState::Enabled => TASK_STATE_ENABLED,
            TaskState::Stopped => TASK_STATE_STOPPED,
            TaskState::Deleted => TASK_STATE_DELETED,
        }
    }

    /// The state a status code stands for, if it is mapped at all.
    pub open spec fn spec_from_code(code: i16) -> Option<TaskState> {
        if code == TASK_STATE_ENABLED {
            Some(TaskState::Enabled)
        } else if code == TASK_STATE_STOPPED {
            Some(TaskState::Stopped)
        } else if code == TASK_STATE_DELETED {
            Some(TaskState::Deleted)
        } else {
            None
        }
    }

    /// Human description of this state.
    pub open spec fn spec_description(self) -> Seq<char> {
        match self {
            TaskState::Enabled => "enabled"@,
            TaskState::Stopped => "stopped"@,
            TaskState::Deleted => "deleted"@,
        }
    }

    pub fn code(self) -> (r: i16)
        ensures
            r == self.spec_code(),
    {
        match self {
            TaskState::Enabled => TASK_STATE_ENABLED,
            TaskState::Stopped => TASK_STATE_STOPPED,
            TaskState::Deleted => TASK_STATE_DELETED,
        }
    }

    /// Decodes a stored status code; `None` marks an unmapped code.
    pub fn from_code(code: i16) -> (r: Option<TaskState>)
        ensures
            r == TaskState::spec_from_code(code),
    {
        if code == TASK_STATE_ENABLED {
            Some(TaskState::Enabled)
        } else if code == TASK_STATE_STOPPED {
            Some(TaskState::Stopped)
        } else if code == TASK_STATE_DELETED {
            Some(TaskState::Deleted)
        } else {
            None
        }
    }

    pub fn description(self) -> (r: &'static str)
        ensures
            r@ == self.spec_description(),
    {
        match self {
            TaskState::Enabled => "enabled",
            TaskState::Stopped => "stopped",
            TaskState::Deleted => "deleted",
        }
    }
}

impl StateDescribe for TaskState {
    open spec fn spec_descriptors() -> Seq<(i16, Seq<char>)> {
        seq![
            (TASK_STATE_ENABLED, "enabled"@),
            (TASK_STATE_STOPPED, "stopped"@),
            (TASK_STATE_DELETED, "deleted"@),
        ]
    }

    fn descriptors() -> (r: Vec<StateDescriptor>) {
        let mut r: Vec<StateDescriptor> = Vec::new();
        r.push(StateDescriptor { value: TASK_STATE_ENABLED, description: "enabled".to_owned() });
        r.push(StateDescriptor { value: TASK_STATE_STOPPED, description: "stopped".to_owned() });
        r.push(StateDescriptor { value: TASK_STATE_DELETED, description: "deleted".to_owned() });
        r
    }
}

/// Status code recorded when a user logs in.
pub const LOGIN_COMMAND_LOGIN: i16 = 1;

/// Status code recorded when a user logs out.
pub const LOGIN_COMMAND_LOGOUT: i16 = 2;

/// What a login-log row records: a login or a logout.
#[derive(Clone, Copy, Debug, PartialEq, Eq, Structural)]
pub enum LoginCommand {
    Login,
    Logout,
}

impl LoginCommand {
    pub open spec fn spec_code(self) -> i16 {
        match self {
            LoginCommand::Login => LOGIN_COMMAND_LOGIN,
            LoginCommand::Logout => LOGIN_COMMAND_LOGOUT,
        }
    }

    pub open spec fn spec_from_code(code: i16) -> Option<LoginCommand> {
        if code == LOGIN_COMMAND_LOGIN {
            Some(LoginCommand::Login)
        } else if code == LOGIN_COMMAND_LOGOUT {
            Some(LoginCommand::Logout)
        } else {
            None
        }
    }

    pub open spec fn spec_description(self) -> Seq<char> {
        match self {
            LoginCommand::Login => "login"@,
            LoginCommand::Logout => "logout"@,
        }
    }

    pub fn code(self) -> (r: i16)
        ensures
            r == self.spec_code(),
    {
        match self {
            LoginCommand::Login => LOGIN_COMMAND_LOGIN,
            LoginCommand::Logout => LOGIN_COMMAND_LOGOUT,
        }
    }

    /// Decodes a stored command code; `None` marks an unmapped code.
    pub fn from_code(code: i16) -> (r: Option<LoginCommand>)
        ensures
            r == LoginCommand::spec_from_code(code),
    {
        if code == LOGIN_COMMAND_LOGIN {
            Some(LoginCommand::Login)
        } else if code == LOGIN_COMMAND_LOGOUT {
            Some(LoginCommand::Logout)
        } else {
            None
        }
    }

    pub fn description(self) -> (r: &'static str)
        ensures
            r@ == self.spec_description(),
    {
        match self {
            LoginCommand::Login => "login",
            LoginCommand::Logout => "logout",
        }
    }
}

impl StateDescribe for LoginCommand {
    open spec fn spec_descriptors() -> Seq<(i16, Seq<char>)> {
        seq![(LOGIN_COMMAND_LOGIN, "login"@), (LOGIN_COMMAND_LOGOUT, "logout"@)]
    }

    fn descriptors() -> (r: Vec<StateDescriptor>) {
        let mut r: Vec<StateDescriptor> = Vec::new();
        r.push(StateDescriptor { value: LOGIN_COMMAND_LOGIN, description: "login".to_owned() });
        r.push(StateDescriptor { value: LOGIN_COMMAND_LOGOUT, description: "logout".to_owned() });
        r
    }
}

/// Status code of a session opened with account and password.
pub const LOGIN_TYPE_ACCOUNT: i16 = 1;

/// Status code of a session opened from a mobile client.
pub const LOGIN_TYPE_MOBILE: i16 = 2;

/// Status code of a session opened through a third-party provider.
pub const LOGIN_TYPE_OTHERS: i16 = 3;

/// How a login-log row says the session was opened.
#[derive(Clone, Copy, Debug, PartialEq, Eq, Structural)]
pub enum LoginType {
    Account,
    Mobile,
    Others,
}

impl LoginType {
    pub open spec fn spec_code(self) -> i16 {
        match self {
            LoginType::Account => LOGIN_TYPE_ACCOUNT,
            LoginType::Mobile => LOGIN_TYPE_MOBILE,
            LoginType::Others => LOGIN_TYPE_OTHERS,
        }
    }

    pub open spec fn spec_from_code(code: i16) -> Option<LoginType> {
        if code == LOGIN_TYPE_ACCOUNT {
            Some(LoginType::Account)
        } else if code == LOGIN_TYPE_MOBILE {
            Some(LoginType::Mobile)
        } else if code == LOGIN_TYPE_OTHERS {
            Some(LoginType::Others)
        } else {
            None
        }
    }

    pub open spec fn spec_description(self) -> Seq<char> {
        match self {
            LoginType::Account => "account"@,
            LoginType::Mobile => "mobile"@,
            LoginType::Others => "others"@,
        }
    }

    pub fn code(self) -> (r: i16)
        ensures
            r == self.spec_code(),
    {
        match self {
            LoginType::Account => LOGIN_TYPE_ACCOUNT,
            LoginType::Mobile => LOGIN_TYPE_MOBILE,
            LoginType::Others => LOGIN_TYPE_OTHERS,
        }
    }

    /// Decodes a stored login-type code; `None` marks an unmapped code.
    pub fn from_code(code: i16) -> (r: Option<LoginType>)
        ensures
            r == LoginType::spec_from_code(code),
    {
        if code == LOGIN_TYPE_ACCOUNT {
            Some(LoginType::Account)
        } else if code == LOGIN_TYPE_MOBILE {
            Some(LoginType::Mobile)
        } else if code == LOGIN_TYPE_OTHERS {
            Some(LoginType::Others)
        } else {
            None
        }
    }

    pub fn description(self) -> (r: &'static str)
        ensures
            r@ == self.spec_description(),
    {
        match self {
            LoginType::Account => "account",
            LoginType::Mobile => "mobile",
            LoginType::Others => "others",
        }
    }
}

impl StateDescribe for LoginType {
    open spec fn spec_descriptors() -> Seq<(i16, Seq<char>)> {
        seq![
            (LOGIN_TYPE_ACCOUNT, "account"@),
            (LOGIN_TYPE_MOBILE, "mobile"@),
            (LOGIN_TYPE_OTHERS, "others"@),
        ]
    }

    fn descriptors() -> (r: Vec<StateDescriptor>) {
        let mut r: Vec<StateDescriptor> = Vec::new();
        r.push(StateDescriptor { value: LOGIN_TYPE_ACCOUNT, description: "account".to_owned() });
        r.push(StateDescriptor { value: LOGIN_TYPE_MOBILE, description: "mobile".to_owned() });
        r.push(StateDescriptor { value: LOGIN_TYPE_OTHERS, description: "others".to_owned() });
        r
    }
}

} // verus!
