//! What the text of a query holds, and what it cannot hold.

use crate::location::Location;
use crate::query::{
    column_names, column_sources, column_text, columns, comma_separated, from_clause,
    group_by, group_clause, order_clause, query_text, select_clause, where_clause,
};
use crate::text::{
    closes_left, closes_right, contains, is_digits, lacks, lacks_pair, lemma_contains_grows,
    lemma_contains_middle, lemma_lacking_excludes, lemma_lacking_pair_excludes,
    lemma_lacks_gives_lacks_pair, lemma_lacks_join, lemma_lacks_pair_join, lemma_one_hole,
    lemma_split_after, lemma_split_before, lemma_starts_later, lemma_two_holes, occurs_at,
};
use vstd::prelude::*;

verus! {

/// The part of a query that does not depend on the scope: the projection
/// and the joined tables.
pub open spec fn head(grouped: bool) -> Seq<char> {
    select_clause(grouped) + from_clause()
}

/// No entry of the projection list holds a quote, a `k` or an equals sign;
/// only the command column holds a `g`, and it holds no `u`.
proof fn lemma_column_characters(grouped: bool, j: int)
    requires
        0 <= j < 9,
    ensures
        lacks(columns(grouped)[j], '\''),
        lacks(columns(grouped)[j], 'k'),
        lacks(columns(grouped)[j], '='),
        j != 1 ==> lacks(columns(grouped)[j], 'g'),
        j == 1 ==> lacks(columns(grouped)[j], 'u'),
{
    reveal_strlit(" as ");
    let source = column_sources(grouped)[j];
    let name = column_names()[j];
    if j == 0 {
        reveal_strlit("history.id");
        reveal_strlit("id");
    } else if j == 1 {
        reveal_strlit("commands.argv");
        reveal_strlit("cmd");
    } else if j == 2 {
        reveal_strlit("max(start_time)");
        reveal_strlit("start_time");
        reveal_strlit("start");
    } else if j == 3 {
        reveal_strlit("exit_status");
    } else if j == 4 {
        reveal_strlit("duration");
    } else if j == 5 {
        reveal_strlit("count()");
        reveal_strlit("1");
        reveal_strlit("count");
    } else if j == 6 {
        reveal_strlit("history.session");
        reveal_strlit("session");
    } else if j == 7 {
        reveal_strlit("places.host");
        reveal_strlit("host");
    } else {
        reveal_strlit("places.dir");
        reveal_strlit("dir");
    }
    assert(columns(grouped)[j] == column_text(source, name));
    let c = if j == 1 { 'u' } else { 'g' };
    assert(lacks(source, '\'') && lacks(source, 'k') && lacks(source, '=') && lacks(source, c));
    assert(lacks(name, '\'') && lacks(name, 'k') && lacks(name, '=') && lacks(name, c));
    assert(lacks(" as "@, '\'') && lacks(" as "@, 'k') && lacks(" as "@, '=') && lacks(" as "@, c));
    lemma_lacks_join(source, " as "@, '\'');
    lemma_lacks_join(source + " as "@, name, '\'');
    lemma_lacks_join(source, " as "@, 'k');
    lemma_lacks_join(source + " as "@, name, 'k');
    lemma_lacks_join(source, " as "@, '=');
    lemma_lacks_join(source + " as "@, name, '=');
    lemma_lacks_join(source, " as "@, c);
    lemma_lacks_join(source + " as "@, name, c);
}

/// A list whose entries all lack a character lacks it when it is written
/// out with commas, unless the character is the comma or the space.
proof fn lemma_comma_separated_lacks(items: Seq<Seq<char>>, n: nat, c: char)
    requires
        n <= items.len(),
        forall|j: int| 0 <= j < n ==> lacks(#[trigger] items[j], c),
        c != ',' && c != ' ',
    ensures
        lacks(comma_separated(items, n), c),
    decreases n,
{
    reveal_strlit(", ");
    if n >= 2 {
        lemma_comma_separated_lacks(items, (n - 1) as nat, c);
        let before = comma_separated(items, (n - 1) as nat);
        assert(lacks(", "@, c));
        lemma_lacks_join(before, ", "@, c);
        lemma_lacks_join(before + ", "@, items[n - 1], c);
    }
}

/// A list none of whose entries holds a pattern does not hold it when it is
/// written out with commas, provided the pattern has no comma and no space.
proof fn lemma_comma_separated_excludes(items: Seq<Seq<char>>, n: nat, pattern: Seq<char>)
    requires
        n <= items.len(),
        forall|j: int| 0 <= j < n ==> !contains(#[trigger] items[j], pattern),
        pattern.len() > 0,
        lacks(pattern, ','),
        lacks(pattern, ' '),
    ensures
        !contains(comma_separated(items, n), pattern),
    decreases n,
{
    reveal_strlit(", ");
    if n == 0 {
        if contains(Seq::<char>::empty(), pattern) {
            let at = choose|at: int| occurs_at(Seq::<char>::empty(), pattern, at);
            assert(false);
        }
    } else if n >= 2 {
        lemma_comma_separated_excludes(items, (n - 1) as nat, pattern);
        let before = comma_separated(items, (n - 1) as nat);
        assert(closes_right(", "@, pattern));
        lemma_split_before(before, ", "@, pattern);
        assert(lacks(", "@, pattern[0]));
        lemma_lacking_excludes(", "@, pattern, 0);
        assert(closes_left(before + ", "@, pattern)) by {
            assert((before + ", "@).last() == ' ');
        }
        lemma_split_after(before + ", "@, items[n - 1], pattern);
    }
}

/// The part of a query before its filter holds no quote, no `k` and no two
/// equals signs in a row, and it ends in `d`.
proof fn lemma_head_characters(grouped: bool)
    ensures
        lacks(head(grouped), '\''),
        lacks(head(grouped), 'k'),
        lacks_pair(head(grouped), '=', '='),
        head(grouped).len() > 0,
        head(grouped).last() == 'd',
{
    reveal_strlit("select ");
    reveal_strlit(" from history");
    reveal_strlit(" left join commands on history.command_id = commands.id");
    reveal_strlit(" left join places on history.place_id = places.id");
    let items = columns(grouped);
    assert forall|j: int| 0 <= j < 9 implies lacks(#[trigger] items[j], '\'') && lacks(
        items[j],
        'k',
    ) && lacks(items[j], '=') by {
        lemma_column_characters(grouped, j);
    }
    lemma_comma_separated_lacks(items, 9, '\'');
    lemma_comma_separated_lacks(items, 9, 'k');
    lemma_comma_separated_lacks(items, 9, '=');
    let list = comma_separated(items, 9);
    let select = select_clause(grouped);
    lemma_lacks_join("select "@, list, '\'');
    lemma_lacks_join("select "@, list, 'k');
    lemma_lacks_join("select "@, list, '=');
    let from = " from history"@;
    let commands = " left join commands on history.command_id = commands.id"@;
    let places = " left join places on history.place_id = places.id"@;
    assert(lacks(from, '\'') && lacks(from, 'k') && lacks(from, '='));
    assert(lacks(commands, '\'') && lacks(commands, 'k'));
    assert(lacks(places, '\'') && lacks(places, 'k'));
    lemma_lacks_join(from, commands, '\'');
    lemma_lacks_join(from + commands, places, '\'');
    lemma_lacks_join(from, commands, 'k');
    lemma_lacks_join(from + commands, places, 'k');
    lemma_lacks_join(select, from_clause(), '\'');
    lemma_lacks_join(select, from_clause(), 'k');
    assert(lacks_pair(commands, '=', '='));
    assert(lacks_pair(places, '=', '='));
    lemma_lacks_gives_lacks_pair(select, '=', '=');
    lemma_lacks_gives_lacks_pair(from, '=', '=');
    lemma_lacks_pair_join(from, commands, '=', '=');
    lemma_lacks_pair_join(from + commands, places, '=', '=');
    assert(from_clause().first() == ' ');
    lemma_lacks_pair_join(select, from_clause(), '=', '=');
    assert(head(grouped).last() == places.last());
}

/// The word that only a grouping clause brings into a query.
pub open spec fn group_token() -> Seq<char> {
    "group"@
}

/// The grouping clause without the space before it.
pub open spec fn grouping() -> Seq<char> {
    "group by history.command_id, history.place_id"@
}

/// Whether one of the values that the filter of `scope` names holds `pattern`.
pub open spec fn values_hold(
    scope: Location,
    session: Seq<char>,
    dir: Seq<char>,
    host: Seq<char>,
    pattern: Seq<char>,
) -> bool {
    match scope {
        Location::Session => contains(session, pattern) || contains(host, pattern),
        Location::Directory => contains(dir, pattern) || contains(host, pattern),
        Location::Machine => contains(host, pattern),
        Location::Everywhere => false,
    }
}

/// The ungrouped projection and the joined tables do not hold the word
/// `group`.
proof fn lemma_head_has_no_group()
    ensures
        !contains(head(false), group_token()),
{
    let token = group_token();
    reveal_strlit("group");
    reveal_strlit("select ");
    reveal_strlit(" from history");
    reveal_strlit(" left join commands on history.command_id = commands.id");
    reveal_strlit(" left join places on history.place_id = places.id");
    let items = columns(false);
    assert forall|j: int| 0 <= j < 9 implies !contains(#[trigger] items[j], token) by {
        lemma_column_characters(false, j);
        if j == 1 {
            lemma_lacking_excludes(items[j], token, 3);
        } else {
            lemma_lacking_excludes(items[j], token, 0);
        }
    }
    lemma_comma_separated_excludes(items, 9, token);
    let list = comma_separated(items, 9);
    assert(closes_left("select "@, token));
    lemma_lacking_excludes("select "@, token, 0);
    lemma_split_after("select "@, list, token);
    let from = " from history"@;
    let commands = " left join commands on history.command_id = commands.id"@;
    let places = " left join places on history.place_id = places.id"@;
    assert(lacks(from, 'g') && lacks(commands, 'g') && lacks(places, 'g'));
    lemma_lacks_join(from, commands, 'g');
    lemma_lacks_join(from + commands, places, 'g');
    lemma_lacking_excludes(from_clause(), token, 0);
    assert(closes_right(from_clause(), token)) by {
        assert(from_clause().first() == ' ');
    }
    lemma_split_before(select_clause(false), from_clause(), token);
}

/// A query over grouped rows holds the grouping clause, whatever the scope
/// and the values.
pub proof fn lemma_grouped_query_groups(
    scope: Location,
    session: Seq<char>,
    dir: Seq<char>,
    host: Seq<char>,
)
    ensures
        contains(query_text(scope, true, session, dir, host), grouping()),
        contains(query_text(scope, true, session, dir, host), group_token()),
{
    let query = query_text(scope, true, session, dir, host);
    let before = select_clause(true) + from_clause() + where_clause(scope, session, dir, host);
    reveal_strlit(" group by history.command_id, history.place_id");
    reveal_strlit("group by history.command_id, history.place_id");
    reveal_strlit("group");
    assert(query == before + group_by() + order_clause());
    lemma_contains_middle(before, group_by(), order_clause());
    assert(occurs_at(group_by(), grouping(), 1)) by {
        assert(group_by().subrange(1, 1 + grouping().len() as int) =~= grouping());
    }
    assert(occurs_at(group_by(), group_token(), 1)) by {
        assert(group_by().subrange(1, 1 + group_token().len() as int) =~= group_token());
    }
    lemma_contains_grows(before, group_by(), order_clause(), grouping());
    lemma_contains_grows(before, group_by(), order_clause(), group_token());
}

/// A query over ungrouped rows holds the word `group` only where a value
/// that its filter names holds it: the text of the query itself brings
/// none, and no occurrence forms where a value meets the text around it.
pub proof fn lemma_ungrouped_query_has_no_group(
    scope: Location,
    session: Seq<char>,
    dir: Seq<char>,
    host: Seq<char>,
)
    ensures
        contains(query_text(scope, false, session, dir, host), group_token()) <==> values_hold(
            scope,
            session,
            dir,
            host,
            group_token(),
        ),
{
    let token = group_token();
    let query = query_text(scope, false, session, dir, host);
    let order = order_clause();
    lemma_head_has_no_group();
    lemma_head_characters(false);
    reveal_strlit("group");
    reveal_strlit(" where");
    reveal_strlit(" session == ");
    reveal_strlit(" and");
    reveal_strlit(" places.dir like '");
    reveal_strlit("' and");
    reveal_strlit(" places.host == '");
    reveal_strlit("'");
    reveal_strlit(" order by start desc");
    let host_opens = " where"@ + " places.host == '"@;
    let closing = "'"@ + order;
    assert(lacks(closing, 'g'));
    lemma_lacking_excludes(closing, token, 0);
    assert(closes_right(closing, token)) by {
        assert(closing.first() == '\'');
    }
    match scope {
        Location::Everywhere => {
            assert(query =~= head(false) + order);
            lemma_lacking_excludes(order, token, 0);
            assert(closes_right(order, token));
            lemma_split_before(head(false), order, token);
        },
        Location::Machine => {
            let opening = head(false) + host_opens;
            assert(lacks(host_opens, 'g'));
            lemma_lacking_excludes(host_opens, token, 0);
            assert(closes_right(host_opens, token)) by {
                assert(host_opens.first() == ' ');
            }
            lemma_split_before(head(false), host_opens, token);
            assert(closes_left(opening, token)) by {
                assert(opening.last() == '\'');
            }
            lemma_one_hole(opening, host, closing, token);
            assert(query =~= opening + host + closing);
        },
        Location::Session => {
            let filter_opens = " where"@ + " session == "@;
            let opening = head(false) + filter_opens;
            let between = " and"@ + " places.host == '"@;
            assert(lacks(filter_opens, 'g'));
            lemma_lacking_excludes(filter_opens, token, 0);
            assert(closes_right(filter_opens, token)) by {
                assert(filter_opens.first() == ' ');
            }
            lemma_split_before(head(false), filter_opens, token);
            assert(closes_left(opening, token)) by {
                assert(opening.last() == ' ');
            }
            assert(lacks(between, 'g'));
            lemma_lacking_excludes(between, token, 0);
            assert(closes_right(between, token)) by {
                assert(between.first() == ' ');
            }
            assert(closes_left(between, token)) by {
                assert(between.last() == '\'');
            }
            lemma_two_holes(opening, session, between, host, closing, token);
            assert(query =~= opening + session + between + host + closing);
        },
        Location::Directory => {
            let filter_opens = " where"@ + " places.dir like '"@;
            let opening = head(false) + filter_opens;
            let between = "' and"@ + " places.host == '"@;
            assert(lacks(filter_opens, 'g'));
            lemma_lacking_excludes(filter_opens, token, 0);
            assert(closes_right(filter_opens, token)) by {
                assert(filter_opens.first() == ' ');
            }
            lemma_split_before(head(false), filter_opens, token);
            assert(closes_left(opening, token)) by {
                assert(opening.last() == '\'');
            }
            assert(lacks(between, 'g'));
            lemma_lacking_excludes(between, token, 0);
            assert(closes_right(between, token)) by {
                assert(between.first() == '\'');
            }
            assert(closes_left(between, token)) by {
                assert(between.last() == '\'');
            }
            lemma_two_holes(opening, dir, between, host, closing, token);
            assert(query =~= opening + dir + between + host + closing);
        },
    }
}

/// The filter on the session, as a query holds it.
pub open spec fn session_filter(id: Seq<char>) -> Seq<char> {
    "session == "@ + id + " and"@
}

/// Whether `text` holds a filter on a session that is written in digits.
pub open spec fn has_session_filter(text: Seq<char>) -> bool {
    exists|id: Seq<char>| is_digits(id) && contains(text, #[trigger] session_filter(id))
}

/// The filter on the directory, as a query holds it.
pub open spec fn directory_filter(dir: Seq<char>) -> Seq<char> {
    "places.dir like '"@ + dir + "' and"@
}

/// What every filter on a directory begins with.
pub open spec fn directory_opening() -> Seq<char> {
    "dir like '"@
}

/// The filter on the host, as a query holds it.
pub open spec fn host_filter(host: Seq<char>) -> Seq<char> {
    "host == '"@ + host + "'"@
}

/// What every filter on a host begins with.
pub open spec fn host_opening() -> Seq<char> {
    "host == '"@
}

/// The shape of a filter on a session written in digits: where its `n` and
/// its equals signs stand, that it holds no quote, and that `d` is its
/// last character only.
proof fn lemma_session_filter_shape(id: Seq<char>)
    requires
        is_digits(id),
    ensures
        session_filter(id).len() == 15 + id.len(),
        session_filter(id)[6] == 'n',
        session_filter(id)[8] == '=',
        session_filter(id)[9] == '=',
        lacks(session_filter(id), '\''),
        forall|k: int| 0 <= k < session_filter(id).len() - 1 ==> session_filter(id)[k] != 'd',
{
    reveal_strlit("session == ");
    reveal_strlit(" and");
    let filter = session_filter(id);
    assert forall|k: int| 0 <= k < filter.len() implies filter[k] != '\'' && (k < filter.len() - 1
        ==> filter[k] != 'd') by {
        if k < 11 {
            assert(filter[k] == "session == "@[k]);
        } else if k < 11 + id.len() {
            assert(filter[k] == id[k - 11]);
        } else {
            assert(filter[k] == " and"@[k - 11 - id.len()]);
        }
    }
}

/// The text between the host and the end of a query holds no equals sign
/// and no `k`, and it begins with the quote that closes the host.
proof fn lemma_closing_characters(grouped: bool)
    ensures
        lacks("'"@ + group_clause(grouped) + order_clause(), '='),
        lacks("'"@ + group_clause(grouped) + order_clause(), 'k'),
        ("'"@ + group_clause(grouped) + order_clause()).first() == '\'',
        lacks(group_clause(grouped) + order_clause(), '='),
        lacks(group_clause(grouped) + order_clause(), 'k'),
        lacks(group_clause(grouped) + order_clause(), '\''),
        (group_clause(grouped) + order_clause()).first() == ' ',
{
    reveal_strlit("'");
    reveal_strlit(" group by history.command_id, history.place_id");
    reveal_strlit(" order by start desc");
    let group = group_clause(grouped);
    let order = order_clause();
    assert(lacks(group, '=') && lacks(group, 'k') && lacks(group, '\''));
    assert(lacks(order, '=') && lacks(order, 'k') && lacks(order, '\''));
    assert(lacks("'"@, '=') && lacks("'"@, 'k'));
    lemma_lacks_join(group, order, '=');
    lemma_lacks_join(group, order, 'k');
    lemma_lacks_join(group, order, '\'');
    lemma_lacks_join("'"@, group, '=');
    lemma_lacks_join("'"@, group, 'k');
    lemma_lacks_join("'"@ + group, order, '=');
    lemma_lacks_join("'"@ + group, order, 'k');
}

/// A query of every scope but Everywhere holds the filter on the host, with
/// the host as it was given; a query of Everywhere holds no filter on a
/// host at all. Grouping makes no difference.
pub proof fn lemma_host_filter(
    scope: Location,
    grouped: bool,
    session: Seq<char>,
    dir: Seq<char>,
    host: Seq<char>,
)
    ensures
        scope != Location::Everywhere ==> contains(
            query_text(scope, grouped, session, dir, host),
            host_filter(host),
        ),
        scope == Location::Everywhere ==> !contains(
            query_text(scope, grouped, session, dir, host),
            host_opening(),
        ),
{
    let query = query_text(scope, grouped, session, dir, host);
    let end = group_clause(grouped) + order_clause();
    reveal_strlit(" places.host == '");
    reveal_strlit("host == '");
    reveal_strlit(" places.");
    reveal_strlit("'");
    assert(" places.host == '"@ =~= " places."@ + "host == '"@);
    let filter = host_filter(host);
    match scope {
        Location::Everywhere => {
            lemma_head_characters(grouped);
            lemma_closing_characters(grouped);
            lemma_lacks_join(head(grouped), end, '\'');
            assert(query =~= head(grouped) + end);
            lemma_lacking_excludes(query, host_opening(), 8);
        },
        Location::Machine => {
            let before = head(grouped) + " where"@ + " places."@;
            assert(query =~= before + filter + end);
            lemma_contains_middle(before, filter, end);
        },
        Location::Session => {
            let before = head(grouped) + " where"@ + " session == "@ + session + " and"@
                + " places."@;
            assert(query =~= before + filter + end);
            lemma_contains_middle(before, filter, end);
        },
        Location::Directory => {
            let before = head(grouped) + " where"@ + " places.dir like '"@ + dir + "' and"@
                + " places."@;
            assert(query =~= before + filter + end);
            lemma_contains_middle(before, filter, end);
        },
    }
}

/// A query of the Session scope holds the filter on the session, with the
/// session as it was given. It holds a filter on a session written in
/// digits exactly where the filter that was put in is one or holds one, or
/// the host holds one; the first is the case for every session that is
/// written in digits.
pub proof fn lemma_session_scope_filters_session(
    grouped: bool,
    session: Seq<char>,
    dir: Seq<char>,
    host: Seq<char>,
)
    ensures
        contains(
            query_text(Location::Session, grouped, session, dir, host),
            session_filter(session),
        ),
        has_session_filter(query_text(Location::Session, grouped, session, dir, host)) <==> (
        has_session_filter(session_filter(session)) || has_session_filter(host)),
        is_digits(session) ==> has_session_filter(session_filter(session)),
{
    let query = query_text(Location::Session, grouped, session, dir, host);
    let put_in = session_filter(session);
    reveal_strlit(" where");
    reveal_strlit("where ");
    reveal_strlit(" session == ");
    reveal_strlit("session == ");
    reveal_strlit(" and");
    reveal_strlit(" ");
    reveal_strlit(" places.host == '");
    reveal_strlit("'");
    assert(" session == "@ =~= " "@ + "session == "@);
    let before = head(grouped) + " where"@ + " "@;
    let host_opens = " places.host == '"@;
    let closing = "'"@ + group_clause(grouped) + order_clause();
    let after = host_opens + host + closing;
    assert(query =~= before + put_in + after);
    lemma_contains_middle(before, put_in, after);
    assert(put_in =~= Seq::<char>::empty() + put_in + Seq::<char>::empty());
    lemma_contains_middle(Seq::empty(), put_in, Seq::empty());

    lemma_head_characters(grouped);
    lemma_closing_characters(grouped);
    let start = head(grouped) + " "@;
    assert(query =~= start + ("where "@ + (put_in + after)));
    assert forall|id: Seq<char>| is_digits(id) implies (contains(query, #[trigger] session_filter(id))
        <==> contains(put_in, session_filter(id)) || contains(host, session_filter(id))) by {
        let filter = session_filter(id);
        lemma_session_filter_shape(id);
        // Nothing of a filter stands in front of the one that was put in.
        lemma_lacking_pair_excludes(head(grouped), filter, 8);
        assert(closes_left(head(grouped), filter));
        lemma_lacking_excludes(" "@, filter, 6);
        lemma_split_after(head(grouped), " "@, filter);
        assert(closes_right("where "@ + (put_in + after), filter)) by {
            assert(("where "@ + (put_in + after)).first() == 'w');
            assert forall|k: int| 0 <= k < filter.len() implies filter[k] != 'w' by {
                if k < 11 {
                    assert(filter[k] == "session == "@[k]);
                } else if k < 11 + id.len() {
                    assert(filter[k] == id[k - 11]);
                } else {
                    assert(filter[k] == " and"@[k - 11 - id.len()]);
                }
            }
        }
        lemma_split_before(start, "where "@ + (put_in + after), filter);
        assert(filter[0] == 's');
        lemma_starts_later("where "@, put_in + after, filter);
        // Behind it, only the host can hold one.
        assert(closes_left(put_in, filter)) by {
            assert(put_in.last() == 'd');
        }
        lemma_split_after(put_in, after, filter);
        lemma_lacking_excludes(host_opens, filter, 6);
        assert(closes_left(host_opens, filter));
        lemma_lacking_excludes(closing, filter, 8);
        assert(closes_right(closing, filter));
        lemma_one_hole(host_opens, host, closing, filter);
    }
    if has_session_filter(query) {
        let id = choose|id: Seq<char>| is_digits(id) && contains(query, #[trigger] session_filter(id));
        assert(contains(put_in, session_filter(id)) || contains(host, session_filter(id)));
    }
    if has_session_filter(put_in) {
        let id = choose|id: Seq<char>| is_digits(id) && contains(put_in, #[trigger] session_filter(id));
        assert(contains(query, session_filter(id)));
    }
    if has_session_filter(host) {
        let id = choose|id: Seq<char>| is_digits(id) && contains(host, #[trigger] session_filter(id));
        assert(contains(query, session_filter(id)));
    }
}

/// A query of the Directory scope holds the filter on the directory, with
/// the directory as it was given.
pub proof fn lemma_directory_scope_filters_directory(
    grouped: bool,
    session: Seq<char>,
    dir: Seq<char>,
    host: Seq<char>,
)
    ensures
        contains(
            query_text(Location::Directory, grouped, session, dir, host),
            directory_filter(dir),
        ),
        contains(
            query_text(Location::Directory, grouped, session, dir, host),
            directory_opening(),
        ),
{
    let query = query_text(Location::Directory, grouped, session, dir, host);
    reveal_strlit(" places.dir like '");
    reveal_strlit("places.dir like '");
    reveal_strlit("dir like '");
    reveal_strlit(" ");
    reveal_strlit(" places.");
    assert(" places.dir like '"@ =~= " "@ + "places.dir like '"@);
    assert(" places.dir like '"@ =~= " places."@ + "dir like '"@);
    let before = head(grouped) + " where"@ + " "@;
    let after = " places.host == '"@ + host + "'"@ + group_clause(grouped) + order_clause();
    assert(query =~= before + directory_filter(dir) + after);
    lemma_contains_middle(before, directory_filter(dir), after);
    let opens = head(grouped) + " where"@ + " places."@;
    let rest = dir + "' and"@ + after;
    assert(query =~= opens + directory_opening() + rest);
    lemma_contains_middle(opens, directory_opening(), rest);
}

/// A query of the Machine scope holds a filter on a session written in
/// digits only where the host itself holds one, and the opening of a filter
/// on a directory only where the host brings it, be it with the quote that
/// closes the host. The text of the query holds neither.
pub proof fn lemma_machine_scope_filters_host_only(
    grouped: bool,
    session: Seq<char>,
    dir: Seq<char>,
    host: Seq<char>,
)
    ensures
        has_session_filter(query_text(Location::Machine, grouped, session, dir, host))
            <==> has_session_filter(host),
        contains(query_text(Location::Machine, grouped, session, dir, host), directory_opening())
            <==> contains(host + "'"@, directory_opening()),
        contains(query_text(Location::Machine, grouped, session, dir, host), host_filter(host)),
{
    let query = query_text(Location::Machine, grouped, session, dir, host);
    lemma_host_filter(Location::Machine, grouped, session, dir, host);
    lemma_head_characters(grouped);
    lemma_closing_characters(grouped);
    reveal_strlit(" where");
    reveal_strlit(" places.host == '");
    reveal_strlit("'");
    let host_opens = " where"@ + " places.host == '"@;
    let opening = head(grouped) + host_opens;
    let end = group_clause(grouped) + order_clause();
    let closing = "'"@ + group_clause(grouped) + order_clause();
    assert(query =~= opening + host + closing);
    assert(opening.last() == '\'');
    assert(lacks(host_opens, 'n') && lacks(host_opens, 'k'));
    lemma_lacks_join(head(grouped), host_opens, 'k');

    assert forall|id: Seq<char>| is_digits(id) implies (contains(query, #[trigger] session_filter(id))
        <==> contains(host, session_filter(id))) by {
        let filter = session_filter(id);
        lemma_session_filter_shape(id);
        lemma_lacking_pair_excludes(head(grouped), filter, 8);
        lemma_lacking_excludes(host_opens, filter, 6);
        assert(closes_left(head(grouped), filter));
        lemma_split_after(head(grouped), host_opens, filter);
        assert(closes_left(opening, filter));
        lemma_lacking_excludes(closing, filter, 8);
        assert(closes_right(closing, filter));
        lemma_one_hole(opening, host, closing, filter);
    }
    if has_session_filter(query) {
        let id = choose|id: Seq<char>| is_digits(id) && contains(query, #[trigger] session_filter(id));
        assert(contains(host, session_filter(id)));
    }
    if has_session_filter(host) {
        let id = choose|id: Seq<char>| is_digits(id) && contains(host, #[trigger] session_filter(id));
        assert(contains(query, session_filter(id)));
    }

    let opens = directory_opening();
    reveal_strlit("dir like '");
    lemma_lacking_excludes(opening, opens, 6);
    assert(closes_left(opening, opens));
    lemma_split_after(opening, host + "'"@ + end, opens);
    assert(closes_left(host + "'"@, opens)) by {
        assert((host + "'"@).last() == '\'');
    }
    lemma_lacking_excludes(end, opens, 6);
    lemma_split_after(host + "'"@, end, opens);
    assert(query =~= opening + (host + "'"@ + end));
}

/// A query of the Everywhere scope holds no filter: none on a session
/// written in digits, no opening of one on a directory, none of one on a
/// host.
pub proof fn lemma_everywhere_scope_filters_nothing(
    grouped: bool,
    session: Seq<char>,
    dir: Seq<char>,
    host: Seq<char>,
)
    ensures
        !has_session_filter(query_text(Location::Everywhere, grouped, session, dir, host)),
        !contains(query_text(Location::Everywhere, grouped, session, dir, host), directory_opening()),
        !contains(query_text(Location::Everywhere, grouped, session, dir, host), host_opening()),
        query_text(Location::Everywhere, grouped, session, dir, host) == head(grouped)
            + group_clause(grouped) + order_clause(),
{
    let query = query_text(Location::Everywhere, grouped, session, dir, host);
    lemma_host_filter(Location::Everywhere, grouped, session, dir, host);
    lemma_head_characters(grouped);
    lemma_closing_characters(grouped);
    let end = group_clause(grouped) + order_clause();
    assert(query =~= head(grouped) + end);
    assert(query =~= head(grouped) + group_clause(grouped) + order_clause());
    reveal_strlit("dir like '");
    lemma_lacks_join(head(grouped), end, 'k');
    lemma_lacking_excludes(query, directory_opening(), 6);
    lemma_lacks_gives_lacks_pair(end, '=', '=');
    lemma_lacks_pair_join(head(grouped), end, '=', '=');
    assert forall|id: Seq<char>| is_digits(id) implies !contains(query, #[trigger] session_filter(id)) by {
        lemma_session_filter_shape(id);
        lemma_lacking_pair_excludes(query, session_filter(id), 8);
    }
}

/// The entries of the projection list, written out.
pub open spec fn projection(grouped: bool) -> Seq<Seq<char>> {
    seq![
        "history.id as id"@,
        "commands.argv as cmd"@,
        if grouped {
            "max(start_time) as start"@
        } else {
            "start_time as start"@
        },
        "exit_status"@,
        "duration"@,
        if grouped {
            "count() as count"@
        } else {
            "1 as count"@
        },
        "history.session as session"@,
        "places.host as host"@,
        "places.dir as dir"@,
    ]
}

/// The projection list written out in full.
pub open spec fn projection_text(grouped: bool) -> Seq<char> {
    if grouped {
        "history.id as id, commands.argv as cmd, max(start_time) as start, exit_status, duration, count() as count, history.session as session, places.host as host, places.dir as dir"@
    } else {
        "history.id as id, commands.argv as cmd, start_time as start, exit_status, duration, 1 as count, history.session as session, places.host as host, places.dir as dir"@
    }
}

/// The nine columns are what the projection list says they are.
proof fn lemma_columns_written_out(grouped: bool)
    ensures
        columns(grouped) == projection(grouped),
{
    reveal_strlit(" as ");
    reveal_strlit("history.id");
    reveal_strlit("id");
    reveal_strlit("history.id as id");
    assert(columns(grouped)[0] =~= projection(grouped)[0]);
    reveal_strlit("commands.argv");
    reveal_strlit("cmd");
    reveal_strlit("commands.argv as cmd");
    assert(columns(grouped)[1] =~= projection(grouped)[1]);
    reveal_strlit("max(start_time)");
    reveal_strlit("start_time");
    reveal_strlit("start");
    reveal_strlit("max(start_time) as start");
    reveal_strlit("start_time as start");
    assert(columns(grouped)[2] =~= projection(grouped)[2]);
    reveal_strlit("exit_status");
    assert(columns(grouped)[3] =~= projection(grouped)[3]);
    reveal_strlit("duration");
    assert(columns(grouped)[4] =~= projection(grouped)[4]);
    reveal_strlit("count()");
    reveal_strlit("1");
    reveal_strlit("count");
    reveal_strlit("count() as count");
    reveal_strlit("1 as count");
    assert(columns(grouped)[5] =~= projection(grouped)[5]);
    reveal_strlit("history.session");
    reveal_strlit("session");
    reveal_strlit("history.session as session");
    assert(columns(grouped)[6] =~= projection(grouped)[6]);
    reveal_strlit("places.host");
    reveal_strlit("host");
    reveal_strlit("places.host as host");
    assert(columns(grouped)[7] =~= projection(grouped)[7]);
    reveal_strlit("places.dir");
    reveal_strlit("dir");
    reveal_strlit("places.dir as dir");
    assert(columns(grouped)[8] =~= projection(grouped)[8]);
    assert(columns(grouped) =~= projection(grouped));
}

/// Every query, whatever its scope, begins with `select` and the same nine
/// columns under the same nine names: the identifier, the command, the
/// start, the exit status, the duration, the count, the session, the host
/// and the directory. Grouping changes what the start and the count are
/// computed from, and nothing else. The joined tables follow at once.
pub proof fn lemma_projection_is_fixed(
    scope: Location,
    grouped: bool,
    session: Seq<char>,
    dir: Seq<char>,
    host: Seq<char>,
)
    ensures
        columns(grouped) == projection(grouped),
        columns(grouped).len() == 9,
        forall|j: int|
            0 <= j < 9 ==> #[trigger] columns(grouped)[j] == column_text(
                column_sources(grouped)[j],
                column_names()[j],
            ),
        forall|j: int|
            0 <= j < 9 && j != 2 && j != 5 ==> #[trigger] columns(grouped)[j] == columns(!grouped)[j],
        occurs_at(
            query_text(scope, grouped, session, dir, host),
            "select "@ + comma_separated(projection(grouped), 9),
            0,
        ),
        occurs_at(
            query_text(scope, grouped, session, dir, host),
            from_clause(),
            ("select "@ + comma_separated(projection(grouped), 9)).len() as int,
        ),
        forall|j: int|
            0 <= j < 9 ==> contains(
                query_text(scope, grouped, session, dir, host),
                #[trigger] projection(grouped)[j],
            ),
{
    let query = query_text(scope, grouped, session, dir, host);
    lemma_columns_written_out(grouped);
    let select = select_clause(grouped);
    let rest = where_clause(scope, session, dir, host) + group_clause(grouped) + order_clause();
    assert(query =~= select + from_clause() + rest);
    assert(query.subrange(0, select.len() as int) =~= select);
    assert(query.subrange(select.len() as int, select.len() as int + from_clause().len()) =~= from_clause());
    assert forall|j: int| 0 <= j < 9 implies contains(query, #[trigger] projection(grouped)[j]) by {
        lemma_listed_entry_occurs(columns(grouped), 9, j);
        assert(select =~= "select "@ + comma_separated(columns(grouped), 9) + Seq::<char>::empty());
        lemma_contains_grows(
            "select "@,
            comma_separated(columns(grouped), 9),
            Seq::empty(),
            columns(grouped)[j],
        );
        assert(query =~= Seq::<char>::empty() + select + (from_clause() + rest));
        lemma_contains_grows(Seq::empty(), select, from_clause() + rest, columns(grouped)[j]);
    }
}

/// Every entry of a list occurs in the list written out with commas.
proof fn lemma_listed_entry_occurs(items: Seq<Seq<char>>, n: nat, j: int)
    requires
        0 <= j < n <= items.len(),
    ensures
        contains(comma_separated(items, n), items[j]),
    decreases n,
{
    let empty = Seq::<char>::empty();
    if n == 1 {
        assert(comma_separated(items, n) =~= empty + items[0] + empty);
        lemma_contains_middle(empty, items[0], empty);
    } else {
        let before = comma_separated(items, (n - 1) as nat);
        if j == n - 1 {
            assert(comma_separated(items, n) =~= before + ", "@ + items[j] + empty);
            lemma_contains_middle(before + ", "@, items[j], empty);
        } else {
            lemma_listed_entry_occurs(items, (n - 1) as nat, j);
            assert(comma_separated(items, n) =~= empty + before + (", "@ + items[n - 1]));
            lemma_contains_grows(empty, before, ", "@ + items[n - 1], items[j]);
        }
    }
}

/// The projection list, written out with commas, is the documented text.
pub proof fn lemma_projection_text(grouped: bool)
    ensures
        comma_separated(columns(grouped), 9) == projection_text(grouped),
{
    lemma_columns_written_out(grouped);
    let items = projection(grouped);
    reveal_with_fuel(comma_separated, 10);
    reveal_strlit(", ");
    reveal_strlit("history.id as id");
    reveal_strlit("commands.argv as cmd");
    reveal_strlit("max(start_time) as start");
    reveal_strlit("start_time as start");
    reveal_strlit("exit_status");
    reveal_strlit("duration");
    reveal_strlit("count() as count");
    reveal_strlit("1 as count");
    reveal_strlit("history.session as session");
    reveal_strlit("places.host as host");
    reveal_strlit("places.dir as dir");
    reveal_strlit(
        "history.id as id, commands.argv as cmd, max(start_time) as start, exit_status, duration, count() as count, history.session as session, places.host as host, places.dir as dir",
    );
    reveal_strlit(
        "history.id as id, commands.argv as cmd, start_time as start, exit_status, duration, 1 as count, history.session as session, places.host as host, places.dir as dir",
    );
    assert(comma_separated(items, 9) =~= projection_text(grouped));
}

/// The frame of every query: it begins with the projection and the joined
/// tables, a filter follows at once for every scope but Everywhere, which
/// has none, and it ends with the order, latest start first, preceded by
/// the grouping clause where rows are grouped.
pub proof fn lemma_query_frame(
    scope: Location,
    grouped: bool,
    session: Seq<char>,
    dir: Seq<char>,
    host: Seq<char>,
)
    ensures
        occurs_at(query_text(scope, grouped, session, dir, host), head(grouped), 0),
        occurs_at(
            query_text(scope, grouped, session, dir, host),
            where_clause(scope, session, dir, host),
            head(grouped).len() as int,
        ),
        scope == Location::Everywhere <==> where_clause(scope, session, dir, host).len() == 0,
        scope != Location::Everywhere ==> occurs_at(
            where_clause(scope, session, dir, host),
            " where"@,
            0,
        ),
        occurs_at(
            query_text(scope, grouped, session, dir, host),
            group_clause(grouped) + order_clause(),
            query_text(scope, grouped, session, dir, host).len() - (group_clause(grouped)
                + order_clause()).len(),
        ),
        occurs_at(
            query_text(scope, grouped, session, dir, host),
            order_clause(),
            query_text(scope, grouped, session, dir, host).len() - order_clause().len(),
        ),
{
    let query = query_text(scope, grouped, session, dir, host);
    let filter = where_clause(scope, session, dir, host);
    let end = group_clause(grouped) + order_clause();
    reveal_strlit(" where");
    reveal_strlit("'");
    assert(query =~= head(grouped) + filter + end);
    assert(query.subrange(0, head(grouped).len() as int) =~= head(grouped));
    assert(query.subrange(head(grouped).len() as int, head(grouped).len() as int + filter.len()) =~= filter);
    assert(query.subrange(query.len() - end.len(), query.len() - end.len() + end.len()) =~= end);
    assert(query.subrange(
        query.len() - order_clause().len(),
        query.len() - order_clause().len() + order_clause().len(),
    ) =~= order_clause());
    if scope != Location::Everywhere {
        assert(filter.subrange(0, " where"@.len() as int) =~= " where"@);
    }
}

} // verus!
