//! Projects and the queries that list them.

use vstd::prelude::*;

use crate::version_control::VersionControlRef;

verus! {

/// Either an integer id or a name.
#[derive(Debug, Clone, Hash, PartialEq, Eq)]
pub enum IdOrName {
    Id(i64),
    Name(String),
}

/// A project. Times are milliseconds since the Unix epoch.
#[derive(Debug, Clone, PartialEq, Eq)]
pub struct Project {
    pub id: i64,
    pub user_id: Option<i64>,
    pub team_id: Option<i64>,
    pub name: String,
    /// Other names of the project.
    pub renames: Vec<String>,
    pub languages: Vec<String>,
    pub color: Option<String>,
    pub version_control_ref: Option<VersionControlRef>,
    pub public: bool,
    pub last_heartbeat: i64,
    pub last_update: i64,
    pub created: i64,
}

/// Whose projects a query asks for.
#[derive(Debug, Clone, PartialEq, Eq)]
pub enum UserOrTeam {
    /// A user's projects, and with `check_teams` those of the user's teams.
    User { id_or_name: IdOrName, check_teams: bool },
    Team(IdOrName),
}

/// An order of sorting, ascending or descending.
#[derive(Debug, Clone, Copy, PartialEq, Eq, Default, Structural)]
pub enum QueryOrdering {
    #[default]
    Ascending,
    Descending,
}

/// A text that names no ordering.
#[derive(Debug, Clone, Copy, PartialEq, Eq, Structural)]
pub struct InvalidOrdering;

#[derive(Debug, Clone, Copy, PartialEq, Eq, Structural)]
pub enum ProjectSortBy {
    Name(Option<QueryOrdering>),
    LastUpdate(Option<QueryOrdering>),
    LastHeartbeat(Option<QueryOrdering>),
}

/// The column that projects are sorted by.
#[derive(Debug, Clone, Copy, PartialEq, Eq, Structural)]
pub enum ProjectSortColumn {
    Name,
    LastUpdate,
    LastHeartbeat,
}

/// `o`, or ascending when no order is given.
pub open spec fn order_or_default(o: Option<QueryOrdering>) -> QueryOrdering {
    match o {
        Some(v) => v,
        None => QueryOrdering::Ascending,
    }
}

/// The column and order that `sort_by` asks for: by name, ascending, when
/// nothing is asked; in ascending order when a column comes without one.
pub open spec fn spec_sort_order(sort_by: Option<ProjectSortBy>) -> (ProjectSortColumn, QueryOrdering) {
    match sort_by {
        None => (ProjectSortColumn::Name, QueryOrdering::Ascending),
        Some(ProjectSortBy::Name(o)) => (ProjectSortColumn::Name, order_or_default(o)),
        Some(ProjectSortBy::LastUpdate(o)) => (ProjectSortColumn::LastUpdate, order_or_default(o)),
        Some(ProjectSortBy::LastHeartbeat(o)) => (ProjectSortColumn::LastHeartbeat, order_or_default(o)),
    }
}

fn ordering_or_default(o: Option<QueryOrdering>) -> (r: QueryOrdering)
    ensures
        r == order_or_default(o),
{
    match o {
        Some(v) => v,
        None => QueryOrdering::Ascending,
    }
}

impl ProjectSortBy {
    /// The column and order that a query's `sort_by` asks for; see
    /// [`spec_sort_order`].
    pub fn sort_order(sort_by: Option<ProjectSortBy>) -> (r: (ProjectSortColumn, QueryOrdering))
        ensures
            r == spec_sort_order(sort_by),
    {
        match sort_by {
            None => (ProjectSortColumn::Name, QueryOrdering::Ascending),
            Some(ProjectSortBy::Name(o)) => (ProjectSortColumn::Name, ordering_or_default(o)),
            Some(ProjectSortBy::LastUpdate(o)) => (ProjectSortColumn::LastUpdate, ordering_or_default(o)),
            Some(ProjectSortBy::LastHeartbeat(o)) => (ProjectSortColumn::LastHeartbeat, ordering_or_default(o)),
        }
    }
}

/// A query for one's own projects.
#[derive(Debug, Clone, PartialEq, Eq, Default)]
pub struct PartialProjectQuery {
    pub language: Option<String>,
    /// Matches the name and the other names.
    pub name: Option<String>,
    pub sort_by: Option<ProjectSortBy>,
}

/// A query for projects.
#[derive(Debug, Clone, PartialEq, Eq)]
pub struct ProjectQuery {
    pub owned_by: UserOrTeam,
    pub query_params: PartialProjectQuery,
}

impl ProjectQuery {
    /// The query of user `id` for the projects that `query_params` selects,
    /// the user's teams' projects included.
    pub fn from_user(id: i64, query_params: PartialProjectQuery) -> (r: ProjectQuery)
        ensures
            r == (ProjectQuery {
                owned_by: UserOrTeam::User { id_or_name: IdOrName::Id(id), check_teams: true },
                query_params,
            }),
    {
        ProjectQuery {
            owned_by: UserOrTeam::User { id_or_name: IdOrName::Id(id), check_teams: true },
            query_params,
        }
    }
}

impl Default for ProjectQuery {
    /// Every project of user 0 and of that user's teams.
    fn default() -> (r: Self)
        ensures
            r.owned_by == (UserOrTeam::User { id_or_name: IdOrName::Id(0), check_teams: true }),
            r.query_params.language is None,
            r.query_params.name is None,
            r.query_params.sort_by is None,
    {
        ProjectQuery {
            owned_by: UserOrTeam::User { id_or_name: IdOrName::Id(0), check_teams: true },
            query_params: PartialProjectQuery { language: None, name: None, sort_by: None },
        }
    }
}

/// `c` with an ASCII capital letter made small.
pub open spec fn ascii_lower(c: char) -> int {
    if 'A' <= c && c <= 'Z' {
        c as int + 32
    } else {
        c as int
    }
}

/// `s` equals `t` once ASCII capitals are made small.
pub open spec fn eq_ignoring_ascii_case(s: Seq<char>, t: Seq<char>) -> bool {
    &&& s.len() == t.len()
    &&& forall|i: int| 0 <= i < s.len() ==> ascii_lower(#[trigger] s[i]) == ascii_lower(t[i])
}

/// Whether `s` equals `t` once ASCII capitals are made small.
pub fn matches_ignoring_ascii_case(s: &str, t: &str) -> (r: bool)
    ensures
        r == eq_ignoring_ascii_case(s@, t@),
{
    let n = s.unicode_len();
    if n != t.unicode_len() {
        return false;
    }
    let mut i: usize = 0;
    while i < n
        invariant
            n == s@.len() == t@.len(),
            0 <= i <= n,
            forall|j: int| 0 <= j < i ==> ascii_lower(#[trigger] s@[j]) == ascii_lower(t@[j]),
        decreases n - i,
    {
        if lower_code(s.get_char(i)) != lower_code(t.get_char(i)) {
            return false;
        }
        i += 1;
    }
    true
}

/// The code of `c` with an ASCII capital letter made small.
fn lower_code(c: char) -> (r: u32)
    ensures
        r == ascii_lower(c),
{
    if 'A' <= c && c <= 'Z' {
        c as u32 + 32
    } else {
        c as u32
    }
}

/// The ordering that a text names, ignoring ASCII case: `a`, `asc` or
/// `ascending`; `d`, `desc` or `descending`.
pub open spec fn ordering_named(s: Seq<char>) -> Result<QueryOrdering, InvalidOrdering> {
    if eq_ignoring_ascii_case(s, "a"@) || eq_ignoring_ascii_case(s, "asc"@) || eq_ignoring_ascii_case(s, "ascending"@) {
        Ok(QueryOrdering::Ascending)
    } else if eq_ignoring_ascii_case(s, "d"@) || eq_ignoring_ascii_case(s, "desc"@) || eq_ignoring_ascii_case(s, "descending"@) {
        Ok(QueryOrdering::Descending)
    } else {
        Err(InvalidOrdering)
    }
}

impl QueryOrdering {
    /// The ordering that a text names; see [`ordering_named`].
    pub fn from_name(s: &str) -> (r: Result<QueryOrdering, InvalidOrdering>)
        ensures
            r == ordering_named(s@),
    {
        if matches_ignoring_ascii_case(s, "a") || matches_ignoring_ascii_case(s, "asc")
            || matches_ignoring_ascii_case(s, "ascending") {
            Ok(QueryOrdering::Ascending)
        } else if matches_ignoring_ascii_case(s, "d") || matches_ignoring_ascii_case(s, "desc")
            || matches_ignoring_ascii_case(s, "descending") {
            Ok(QueryOrdering::Descending)
        } else {
            Err(InvalidOrdering)
        }
    }

    /// The ordering that a letter names, ignoring ASCII case: `a` or `d`.
    pub fn from_char(c: char) -> (r: Result<QueryOrdering, InvalidOrdering>)
        ensures
            r == (if ascii_lower(c) == 'a' as int {
                Ok(QueryOrdering::Ascending)
            } else if ascii_lower(c) == 'd' as int {
                Ok(QueryOrdering::Descending)
            } else {
                Err(InvalidOrdering)
            }),
    {
        let code = lower_code(c);
        if code == 'a' as u32 {
            Ok(QueryOrdering::Ascending)
        } else if code == 'd' as u32 {
            Ok(QueryOrdering::Descending)
        } else {
            Err(InvalidOrdering)
        }
    }

    /// The ordering that a number names: 1 ascending, 0 descending.
    pub fn from_number(n: u8) -> (r: Result<QueryOrdering, InvalidOrdering>)
        ensures
            r == (if n == 1 {
                Ok(QueryOrdering::Ascending)
            } else if n == 0 {
                Ok(QueryOrdering::Descending)
            } else {
                Err(InvalidOrdering)
            }),
    {
        if n == 1 {
            Ok(QueryOrdering::Ascending)
        } else if n == 0 {
            Ok(QueryOrdering::Descending)
        } else {
            Err(InvalidOrdering)
        }
    }
}

} // verus!
