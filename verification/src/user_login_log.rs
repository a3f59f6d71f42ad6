//! The user-login-log entity and the compute core of its list endpoint:
//! filter, order by id descending, cut to the requested page, project each
//! row for the client, and attach the state-descriptor tables.

use crate::like::{like_match, spec_like};
use crate::pagination::{page_slice, spec_page_slice, spec_total_pages, PaginateData};
use crate::sort::{sort_by_key_desc, spec_sort_desc, Keyed};
use crate::state::{descriptors_match, LoginCommand, LoginType, StateDescribe};
use vstd::prelude::*;

verus! {

/// A login-log row as persisted: who logged in or out, how, from where,
/// and when (seconds since the epoch).
#[derive(Debug, PartialEq)]
pub struct UserLoginLog {
    pub id: i64,
    pub user_id: i64,
    pub name: String,
    pub command: i16,
    pub login_type: i16,
    pub lastip: String,
    pub created_time: i64,
}

impl Keyed for UserLoginLog {
    open spec fn spec_key(&self) -> i64 {
        self.id
    }

    fn key(&self) -> (k: i64) {
        self.id
    }
}

/// Filter model of the login-log list call: one optional field per
/// filterable column plus the mandatory `page` and `per_page`.
#[derive(Debug)]
pub struct QueryParamsUserLoginLog {
    pub user_id: Option<i64>,
    pub name: Option<String>,
    pub command: Option<i16>,
    pub login_type: Option<i16>,
    pub lastip: Option<String>,
    pub per_page: i64,
    pub page: i64,
}

impl Default for QueryParamsUserLoginLog {
    /// No predicates; page and page size zero (clamped when used).
    fn default() -> (r: Self)
        ensures
            r.user_id is None,
            r.name is None,
            r.command is None,
            r.login_type is None,
            r.lastip is None,
            r.per_page == 0,
            r.page == 0,
    {
        QueryParamsUserLoginLog {
            user_id: None,
            name: None,
            command: None,
            login_type: None,
            lastip: None,
            per_page: 0,
            page: 0,
        }
    }
}

/// Whether the filter model admits a login-log row: exact match on
/// identifier and coded fields, SQL `LIKE` on free-text fields. This
/// entity has no logical-delete status, so no visibility predicate.
pub open spec fn spec_log_params_admit(p: QueryParamsUserLoginLog, l: UserLoginLog) -> bool {
    &&& (match p.user_id {
        Some(u) => l.user_id == u,
        None => true,
    })
    &&& (match p.name {
        Some(pat) => spec_like(pat@, l.name@),
        None => true,
    })
    &&& (match p.command {
        Some(c) => l.command == c,
        None => true,
    })
    &&& (match p.login_type {
        Some(t) => l.login_type == t,
        None => true,
    })
    &&& (match p.lastip {
        Some(pat) => spec_like(pat@, l.lastip@),
        None => true,
    })
}

/// Whether the filter model admits the row.
pub fn log_params_admit(p: &QueryParamsUserLoginLog, l: &UserLoginLog) -> (r: bool)
    ensures
        r == spec_log_params_admit(*p, *l),
{
    let user_ok = match &p.user_id {
        Some(u) => l.user_id == *u,
        None => true,
    };
    let name_ok = match &p.name {
        Some(pat) => like_match(pat.as_str(), l.name.as_str()),
        None => true,
    };
    let command_ok = match &p.command {
        Some(c) => l.command == *c,
        None => true,
    };
    let type_ok = match &p.login_type {
        Some(t) => l.login_type == *t,
        None => true,
    };
    let ip_ok = match &p.lastip {
        Some(pat) => like_match(pat.as_str(), l.lastip.as_str()),
        None => true,
    };
    user_ok && name_ok && command_ok && type_ok && ip_ok
}

/// The rows of `s` the filter model admits, in table order.
pub open spec fn spec_admitted_logs(s: Seq<UserLoginLog>, p: QueryParamsUserLoginLog) -> Seq<
    UserLoginLog,
>
    decreases s.len(),
{
    if s.len() == 0 {
        Seq::empty()
    } else {
        let rest = spec_admitted_logs(s.drop_last(), p);
        if spec_log_params_admit(p, s.last()) {
            rest.push(s.last())
        } else {
            rest
        }
    }
}

/// Filtering admits no more rows than the table holds.
pub proof fn lemma_admitted_logs_len(s: Seq<UserLoginLog>, p: QueryParamsUserLoginLog)
    ensures
        spec_admitted_logs(s, p).len() <= s.len(),
    decreases s.len(),
{
    if s.len() == 0 {
    } else {
        lemma_admitted_logs_len(s.drop_last(), p);
    }
}

/// One step of filtering over a growing prefix.
proof fn lemma_admitted_logs_take_step(s: Seq<UserLoginLog>, p: QueryParamsUserLoginLog, i: int)
    requires
        0 <= i < s.len(),
    ensures
        spec_admitted_logs(s.take(i + 1), p) == if spec_log_params_admit(p, s[i]) {
            spec_admitted_logs(s.take(i), p).push(s[i])
        } else {
            spec_admitted_logs(s.take(i), p)
        },
{
    assert(s.take(i + 1).drop_last() =~= s.take(i));
    assert(s.take(i + 1).last() == s[i]);
}

/// The rows the filter model admits, in table order.
pub fn filter_user_login_logs(table: Vec<UserLoginLog>, params: &QueryParamsUserLoginLog) -> (r:
    Vec<UserLoginLog>)
    ensures
        r@ == spec_admitted_logs(table@, *params),
{
    let ghost orig = table@;
    let mut table = table;
    let mut admitted: Vec<UserLoginLog> = Vec::new();
    proof {
        assert(table@ =~= orig.skip(0));
        assert(orig.take(0) =~= Seq::<UserLoginLog>::empty());
        assert(admitted@ =~= spec_admitted_logs(orig.take(0), *params));
    }
    while table.len() > 0
        invariant
            table@.len() <= orig.len(),
            table@ == orig.skip(orig.len() - table@.len()),
            admitted@ == spec_admitted_logs(orig.take(orig.len() - table@.len()), *params),
        decreases table@.len(),
    {
        let ghost i = orig.len() - table@.len();
        proof {
            assert(orig.skip(i)[0] == orig[i]);
            assert(orig.skip(i).remove(0) =~= orig.skip(i + 1));
        }
        let l = table.remove(0);
        let keep = log_params_admit(params, &l);
        proof {
            lemma_admitted_logs_take_step(orig, *params, i);
        }
        if keep {
            admitted.push(l);
        }
    }
    proof {
        assert(orig.take(orig.len() as int) =~= orig);
    }
    admitted
}

/// What the login-log list call returns before projection: the admitted
/// rows, ordered by id descending, cut to the requested page.
pub open spec fn spec_listed_logs(table: Seq<UserLoginLog>, p: QueryParamsUserLoginLog) -> Seq<
    UserLoginLog,
> {
    spec_page_slice(
        spec_sort_desc(spec_admitted_logs(table, p)),
        p.page as int,
        p.per_page as int,
    )
}

/// Client-facing login-log row: the raw fields plus the descriptions of
/// both coded fields, so a remote renderer needs no translation tables.
#[derive(Debug, PartialEq)]
pub struct FrontEndUserLoginLog {
    pub id: i64,
    pub user_id: i64,
    pub name: String,
    pub command: i16,
    pub login_type: i16,
    pub lastip: String,
    pub created_time: i64,
    pub command_desc: String,
    pub login_type_desc: String,
}

/// A status code outside its closed set: a data-integrity error, reported
/// rather than silently defaulted.
#[derive(Clone, Copy, Debug, PartialEq, Eq, Structural)]
pub struct UnmappedStatus {
    pub value: i16,
}

/// Whether both coded fields of the row are inside their closed sets.
pub open spec fn spec_log_codes_mapped(l: UserLoginLog) -> bool {
    &&& LoginCommand::spec_from_code(l.command) is Some
    &&& LoginType::spec_from_code(l.login_type) is Some
}

/// Whether every row of `s` has its codes mapped.
pub open spec fn spec_logs_mapped(s: Seq<UserLoginLog>) -> bool {
    forall|i: int| 0 <= i < s.len() ==> spec_log_codes_mapped(#[trigger] s[i])
}

/// What the front-end projection keeps of a row: every raw field, plus the
/// exhaustive mapping's description of each coded field.
pub open spec fn spec_front_end_matches(f: FrontEndUserLoginLog, l: UserLoginLog) -> bool {
    &&& f.id == l.id
    &&& f.user_id == l.user_id
    &&& f.name@ == l.name@
    &&& f.command == l.command
    &&& f.login_type == l.login_type
    &&& f.lastip@ == l.lastip@
    &&& f.created_time == l.created_time
    &&& spec_log_codes_mapped(l)
    &&& f.command_desc@ == LoginCommand::spec_from_code(l.command)->0.spec_description()
    &&& f.login_type_desc@ == LoginType::spec_from_code(l.login_type)->0.spec_description()
}

/// Projects one row for the client. Total over the closed code sets and
/// loud otherwise: an unmapped code comes back as the error.
pub fn project_user_login_log(l: UserLoginLog) -> (r: Result<FrontEndUserLoginLog, UnmappedStatus>)
    ensures
        r is Ok <==> spec_log_codes_mapped(l),
        match r {
            Ok(f) => spec_front_end_matches(f, l),
            Err(e) => LoginCommand::spec_from_code(e.value) is None || LoginType::spec_from_code(
                e.value,
            ) is None,
        },
{
    let cmd = match LoginCommand::from_code(l.command) {
        Some(c) => c,
        None => {
            return Err(UnmappedStatus { value: l.command });
        },
    };
    let lt = match LoginType::from_code(l.login_type) {
        Some(t) => t,
        None => {
            return Err(UnmappedStatus { value: l.login_type });
        },
    };
    let command_desc = cmd.description().to_owned();
    let login_type_desc = lt.description().to_owned();
    Ok(
        FrontEndUserLoginLog {
            id: l.id,
            user_id: l.user_id,
            name: l.name,
            command: l.command,
            login_type: l.login_type,
            lastip: l.lastip,
            created_time: l.created_time,
            command_desc,
            login_type_desc,
        },
    )
}

/// Projects a page of rows, in order; the first unmapped code fails the
/// whole projection loudly.
#[verifier::loop_isolation(false)]
pub fn project_user_login_logs(rows: Vec<UserLoginLog>) -> (r: Result<
    Vec<FrontEndUserLoginLog>,
    UnmappedStatus,
>)
    ensures
        r is Ok <==> spec_logs_mapped(rows@),
        match r {
            Ok(fs) => fs@.len() == rows@.len() && forall|i: int|
                0 <= i < rows@.len() ==> spec_front_end_matches(#[trigger] fs@[i], rows@[i]),
            Err(e) => LoginCommand::spec_from_code(e.value) is None || LoginType::spec_from_code(
                e.value,
            ) is None,
        },
{
    let ghost orig = rows@;
    let mut rows = rows;
    let mut fronts: Vec<FrontEndUserLoginLog> = Vec::new();
    proof {
        assert(rows@ =~= orig.skip(0));
    }
    while rows.len() > 0
        invariant
            rows@.len() <= orig.len(),
            rows@ == orig.skip(orig.len() - rows@.len()),
            fronts@.len() == orig.len() - rows@.len(),
            forall|j: int|
                0 <= j < fronts@.len() ==> spec_front_end_matches(#[trigger] fronts@[j], orig[j]),
        decreases rows@.len(),
    {
        let ghost i = orig.len() - rows@.len();
        proof {
            assert(orig.skip(i)[0] == orig[i]);
            assert(orig.skip(i).remove(0) =~= orig.skip(i + 1));
        }
        let l = rows.remove(0);
        match project_user_login_log(l) {
            Ok(f) => fronts.push(f),
            Err(e) => {
                proof {
                    assert(0 <= i < orig.len());
                    assert(!spec_log_codes_mapped(orig[i]));
                    assert(!spec_logs_mapped(orig));
                }
                return Err(e);
            },
        }
    }
    proof {
        assert forall|i: int| 0 <= i < orig.len() implies spec_log_codes_mapped(
            #[trigger] orig[i],
        ) by {
            assert(spec_front_end_matches(fronts@[i], orig[i]));
        }
    }
    Ok(fronts)
}

/// The route decision of the login-log list endpoint: whether a request
/// path selects it. The HTTP server that registers the path and parses the
/// body stays outside the core.
pub fn route(path: &String) -> (r: bool)
    ensures
        r == (path@ == "/api/user_login_log/list"@),
{
    path.eq(&"/api/user_login_log/list".to_owned())
}

/// The compute core of the login-log list call: filters with the model,
/// orders by id descending, cuts to the requested page, projects each
/// listed row for the client, and attaches the descriptor tables of both
/// coded fields. The totals come from the same admitted row set the page
/// was cut from, so the count and the listing agree; an unmapped code in a
/// listed row fails the call loudly.
pub fn paginate_user_login_logs(table: Vec<UserLoginLog>, params: &QueryParamsUserLoginLog) -> (r:
    Result<PaginateData<FrontEndUserLoginLog>, UnmappedStatus>)
    requires
        table@.len() < 0x8000000000000000,
    ensures
        r is Ok <==> spec_logs_mapped(spec_listed_logs(table@, *params)),
        match r {
            Ok(pd) => {
                &&& pd.data_source@.len() == spec_listed_logs(table@, *params).len()
                &&& forall|i: int|
                    0 <= i < pd.data_source@.len() ==> spec_front_end_matches(
                        #[trigger] pd.data_source@[i],
                        spec_listed_logs(table@, *params)[i],
                    )
                &&& pd.page_size == params.per_page
                &&& pd.total == spec_admitted_logs(table@, *params).len()
                &&& pd.total_page == spec_total_pages(
                    spec_admitted_logs(table@, *params).len() as int,
                    params.per_page as int,
                )
                &&& pd.state_desc@.len() == 2
                &&& descriptors_match(pd.state_desc@[0]@, LoginCommand::spec_descriptors())
                &&& descriptors_match(pd.state_desc@[1]@, LoginType::spec_descriptors())
            },
            Err(e) => LoginCommand::spec_from_code(e.value) is None || LoginType::spec_from_code(
                e.value,
            ) is None,
        },
{
    let ghost orig = table@;
    let admitted = filter_user_login_logs(table, params);
    proof {
        lemma_admitted_logs_len(orig, *params);
    }
    let total = admitted.len() as i64;
    let sorted = sort_by_key_desc(admitted);
    let rows = page_slice(sorted, params.page, params.per_page);
    let fronts = match project_user_login_logs(rows) {
        Ok(f) => f,
        Err(e) => {
            return Err(e);
        },
    };
    Ok(
        PaginateData::default().set_data_source(fronts).set_page_size(params.per_page).set_total(
            total,
        ).set_state_desc::<LoginCommand>().set_state_desc::<LoginType>(),
    )
}

} // verus!
