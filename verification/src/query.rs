//! The query that selects the rows of a scope.

use crate::environment::Ambient;
use crate::focus::AppState;
use crate::location::Location;
use crate::text::same_text;
use vstd::prelude::*;

verus! {

/// The number of columns that every query projects.
pub const COLUMN_COUNT: usize = 9;

/// The names under which the columns of a row are read, in order.
pub open spec fn column_names() -> Seq<Seq<char>> {
    seq![
        "id"@,
        "cmd"@,
        "start"@,
        "exit_status"@,
        "duration"@,
        "count"@,
        "session"@,
        "host"@,
        "dir"@,
    ]
}

/// What each column is computed from. Grouped rows stand for every
/// execution of a command in a place: they show the latest start and the
/// number of executions, ungrouped rows their own start and the number one.
pub open spec fn column_sources(grouped: bool) -> Seq<Seq<char>> {
    seq![
        "history.id"@,
        "commands.argv"@,
        if grouped {
            "max(start_time)"@
        } else {
            "start_time"@
        },
        "exit_status"@,
        "duration"@,
        if grouped {
            "count()"@
        } else {
            "1"@
        },
        "history.session"@,
        "places.host"@,
        "places.dir"@,
    ]
}

/// One entry of a projection list: the source under its name, or the bare
/// source where that is the name already.
pub open spec fn column_text(source: Seq<char>, name: Seq<char>) -> Seq<char> {
    if source == name {
        name
    } else {
        source + " as "@ + name
    }
}

/// The entries of the projection list, in order.
pub open spec fn columns(grouped: bool) -> Seq<Seq<char>> {
    Seq::new(9, |i: int| column_text(column_sources(grouped)[i], column_names()[i]))
}

/// The first `n` of `items`, separated by a comma and a space.
pub open spec fn comma_separated(items: Seq<Seq<char>>, n: nat) -> Seq<char>
    decreases n,
{
    if n == 0 {
        Seq::empty()
    } else if n == 1 {
        items[0]
    } else {
        comma_separated(items, (n - 1) as nat) + ", "@ + items[n - 1]
    }
}

/// The projection: `select` and the nine columns.
pub open spec fn select_clause(grouped: bool) -> Seq<char> {
    "select "@ + comma_separated(columns(grouped), 9)
}

/// The history table, joined to its commands and places. Both are left
/// joins: a row whose command or place is missing is still a row.
pub open spec fn from_clause() -> Seq<char> {
    " from history"@ + " left join commands on history.command_id = commands.id"@
        + " left join places on history.place_id = places.id"@
}

/// The filter of a scope. `session` and `dir` are the resolved values.
pub open spec fn where_clause(
    scope: Location,
    session: Seq<char>,
    dir: Seq<char>,
    host: Seq<char>,
) -> Seq<char> {
    match scope {
        Location::Session => " where"@ + " session == "@ + session + " and"@
            + " places.host == '"@ + host + "'"@,
        Location::Directory => " where"@ + " places.dir like '"@ + dir + "' and"@
            + " places.host == '"@ + host + "'"@,
        Location::Machine => " where"@ + " places.host == '"@ + host + "'"@,
        Location::Everywhere => Seq::empty(),
    }
}

/// The clause that collapses the executions of one command in one place.
pub open spec fn group_by() -> Seq<char> {
    " group by history.command_id, history.place_id"@
}

/// The grouping clause, where rows are grouped.
pub open spec fn group_clause(grouped: bool) -> Seq<char> {
    if grouped {
        group_by()
    } else {
        Seq::empty()
    }
}

/// Most recent first.
pub open spec fn order_clause() -> Seq<char> {
    " order by start desc"@
}

/// The query for a scope, over the resolved session and directory.
pub open spec fn query_text(
    scope: Location,
    grouped: bool,
    session: Seq<char>,
    dir: Seq<char>,
    host: Seq<char>,
) -> Seq<char> {
    select_clause(grouped) + from_clause() + where_clause(scope, session, dir, host)
        + group_clause(grouped) + order_clause()
}

/// The entry of the projection list at `index`.
fn column(index: usize, grouped: bool) -> (text: String)
    requires
        index < 9,
    ensures
        text@ == columns(grouped)[index as int],
{
    let source = if index == 0 {
        "history.id"
    } else if index == 1 {
        "commands.argv"
    } else if index == 2 {
        if grouped {
            "max(start_time)"
        } else {
            "start_time"
        }
    } else if index == 3 {
        "exit_status"
    } else if index == 4 {
        "duration"
    } else if index == 5 {
        if grouped {
            "count()"
        } else {
            "1"
        }
    } else if index == 6 {
        "history.session"
    } else if index == 7 {
        "places.host"
    } else {
        "places.dir"
    };
    let name = if index == 0 {
        "id"
    } else if index == 1 {
        "cmd"
    } else if index == 2 {
        "start"
    } else if index == 3 {
        "exit_status"
    } else if index == 4 {
        "duration"
    } else if index == 5 {
        "count"
    } else if index == 6 {
        "session"
    } else if index == 7 {
        "host"
    } else {
        "dir"
    };
    if same_text(source, name) {
        String::from_str(name)
    } else {
        let mut text = String::from_str(source);
        text.append(" as ");
        text.append(name);
        text
    }
}

/// Builds the query that selects the rows of scope `theloc`.
///
/// The session and the directory that the filter names are the locked ones
/// where `focus` holds a lock, else those of `env`. The values are put into
/// the text as they are.
pub fn build_query_string(
    theloc: &Location,
    grouped: bool,
    focus: &AppState,
    env: &Ambient,
) -> (query: String)
    ensures
        query@ == query_text(
            *theloc,
            grouped,
            focus@.resolve_session(env.session_id@),
            focus@.resolve_dir(env.dir@),
            env.host@,
        ),
{
    let mut query = String::from_str("select ");
    let mut index: usize = 0;
    while index < COLUMN_COUNT
        invariant
            index <= 9,
            query@ == "select "@ + comma_separated(columns(grouped), index as nat),
        decreases 9 - index,
    {
        if index > 0 {
            query.append(", ");
        }
        let entry = column(index, grouped);
        query.append(entry.as_str());
        proof {
            let before = comma_separated(columns(grouped), index as nat);
            if index == 0 {
                assert("select "@ + before + entry@ =~= "select "@ + entry@);
            } else {
                assert("select "@ + before + ", "@ + entry@ =~= "select "@ + (before + ", "@
                    + entry@));
            }
        }
        index += 1;
    }
    query.append(" from history");
    query.append(" left join commands on history.command_id = commands.id");
    query.append(" left join places on history.place_id = places.id");
    proof {
        let select = select_clause(grouped);
        assert(query@ =~= select + from_clause());
    }
    let ghost head = query@;
    match theloc {
        Location::Session | Location::Directory | Location::Machine => {
            query.append(" where");
        },
        _ => {},
    }
    match theloc {
        Location::Session => {
            query.append(" session == ");
            match &focus.focus_session {
                Some(locked) => query.append(locked.as_str()),
                None => query.append(env.session_id.as_str()),
            }
            query.append(" and");
        },
        Location::Directory => {
            query.append(" places.dir like '");
            match &focus.focus_dir {
                Some(locked) => query.append(locked.as_str()),
                None => query.append(env.dir.as_str()),
            }
            query.append("' and");
        },
        _ => {},
    }
    match theloc {
        Location::Session | Location::Directory | Location::Machine => {
            query.append(" places.host == '");
            query.append(env.host.as_str());
            query.append("'");
        },
        _ => {},
    }
    proof {
        let filter = where_clause(
            *theloc,
            focus@.resolve_session(env.session_id@),
            focus@.resolve_dir(env.dir@),
            env.host@,
        );
        assert(query@ =~= head + filter);
    }
    if grouped {
        query.append(" group by history.command_id, history.place_id");
    }
    proof {
        let filter = where_clause(
            *theloc,
            focus@.resolve_session(env.session_id@),
            focus@.resolve_dir(env.dir@),
            env.host@,
        );
        assert(query@ =~= head + filter + group_clause(grouped));
    }
    query.append(" order by start desc");
    query
}

} // verus!
