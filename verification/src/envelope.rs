//! The uniform response envelope `{ code, msg, data }` every operation's
//! outcome is wrapped in before it leaves the core.
//!
//! `code` 0 marks success, `code` -1 failure, and no other value is
//! produced; `msg` is empty on success and carries the failure's text
//! verbatim otherwise; `data` is present and well-typed even on failure,
//! holding the payload type's default value.

use vstd::prelude::*;

verus! {

/// A payload type with a designated default value, used to fill `data` on
/// failure so the envelope stays well-typed on every path.
pub trait DefaultData: Sized {
    /// Recognizes the default value.
    spec fn spec_is_default(&self) -> bool;

    /// Builds the default value.
    fn default_data() -> (r: Self)
        ensures
            r.spec_is_default(),
    ;
}

impl DefaultData for i64 {
    open spec fn spec_is_default(&self) -> bool {
        *self == 0
    }

    fn default_data() -> (r: i64) {
        0
    }
}

impl DefaultData for u64 {
    open spec fn spec_is_default(&self) -> bool {
        *self == 0
    }

    fn default_data() -> (r: u64) {
        0
    }
}

impl DefaultData for () {
    open spec fn spec_is_default(&self) -> bool {
        true
    }

    fn default_data() -> (r: ()) {
    }
}

impl<T> DefaultData for Vec<T> {
    open spec fn spec_is_default(&self) -> bool {
        self@.len() == 0
    }

    fn default_data() -> (r: Vec<T>) {
        Vec::new()
    }
}

/// The response envelope. `code` 0 means the operation succeeded and `msg`
/// is empty; `code` -1 means it failed.
#[derive(Debug)]
pub struct UnifiedResponseMessages<T> {
    pub code: i16,
    pub msg: String,
    pub data: T,
}

impl<T> UnifiedResponseMessages<T> {
    /// Success envelope around `data`: `{ code: 0, msg: "", data }`.
    pub fn success_with_data(data: T) -> (r: Self)
        ensures
            r.code == 0,
            r.msg@.len() == 0,
            r.data == data,
    {
        UnifiedResponseMessages { code: 0, msg: String::new(), data }
    }

    /// Failure envelope that still carries a payload, for reporting a
    /// failure alongside diagnostic data: `{ code: -1, msg: "", data }`.
    pub fn error_with_data(data: T) -> (r: Self)
        ensures
            r.code == -1,
            r.msg@.len() == 0,
            r.data == data,
    {
        UnifiedResponseMessages { code: -1, msg: String::new(), data }
    }

    /// Failure envelope with a message: `{ code: -1, msg, data: default }`.
    pub fn customized_error_msg(msg: String) -> (r: Self) where T: DefaultData
        ensures
            r.code == -1,
            r.msg@ == msg@,
            r.data.spec_is_default(),
    {
        UnifiedResponseMessages { code: -1, msg, data: T::default_data() }
    }

    /// Success envelope with the default payload: `{ code: 0, msg: "", data: default }`.
    pub fn success() -> (r: Self) where T: DefaultData
        ensures
            r.code == 0,
            r.msg@.len() == 0,
            r.data.spec_is_default(),
    {
        UnifiedResponseMessages { code: 0, msg: String::new(), data: T::default_data() }
    }

    /// Failure envelope with the default payload: `{ code: -1, msg: "", data: default }`.
    pub fn error() -> (r: Self) where T: DefaultData
        ensures
            r.code == -1,
            r.msg@.len() == 0,
            r.data.spec_is_default(),
    {
        UnifiedResponseMessages { code: -1, msg: String::new(), data: T::default_data() }
    }

    /// Wraps an operation's outcome: a value becomes a success envelope, an
    /// error's text becomes a failure envelope with the default payload.
    pub fn from_result(result: Result<T, String>) -> (r: Self) where T: DefaultData
        ensures
            match result {
                Ok(data) => r.code == 0 && r.msg@.len() == 0 && r.data == data,
                Err(msg) => r.code == -1 && r.msg@ == msg@ && r.data.spec_is_default(),
            },
    {
        match result {
            Ok(data) => UnifiedResponseMessages::success_with_data(data),
            Err(msg) => UnifiedResponseMessages::customized_error_msg(msg),
        }
    }

    /// Whether this envelope reports success.
    pub fn is_success(&self) -> (r: bool)
        ensures
            r == (self.code == 0),
    {
        self.code == 0
    }
}

} // verus!
