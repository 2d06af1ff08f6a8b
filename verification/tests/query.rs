use histdb_skim::environment::Ambient;
use histdb_skim::focus::AppState;
use histdb_skim::location::Location;
use histdb_skim::query::build_query_string;
use regex::Regex;

fn ambient() -> Ambient {
    Ambient {
        session_id: "4711".to_string(),
        dir: "/home/user/project".to_string(),
        host: "workstation".to_string(),
    }
}

fn query_for(l: &Location, grouped: bool) -> String {
    build_query_string(l, grouped, &AppState::new(), &ambient())
}

#[test]
fn has_select_fields() {
    for l in vec![
        Location::Session,
        Location::Directory,
        Location::Machine,
        Location::Everywhere,
    ] {
        let query = query_for(&l, true);
        assert!(query.contains("history.id as id"));
        assert!(query.contains("exit_status"));
        assert!(query.contains("start"));
        assert!(query.contains("duration"));
        assert!(query.contains("count"));
        assert!(query.contains("history.session as session"));
        assert!(query.contains("places.dir"));
    }
}

#[test]
fn contains_host() {
    let re_host = Regex::new(r"host == '.*'").unwrap();
    for l in vec![Location::Session, Location::Directory, Location::Machine] {
        let query = query_for(&l, true);
        assert!(re_host.is_match(&query));
    }
    let query = query_for(&Location::Everywhere, true);
    assert!(!re_host.is_match(&query));
}

#[test]
fn contains_grouping() {
    let re_group = Regex::new(r"group by history.command_id, history.place_id").unwrap();
    for l in vec![
        Location::Session,
        Location::Directory,
        Location::Machine,
        Location::Everywhere,
    ] {
        let query = query_for(&l, true);
        assert!(re_group.is_match(&query));
    }
}

#[test]
fn contains_no_grouping_if_disabled() {
    let re_group = Regex::new(r"group by history.command_id, history.place_id").unwrap();
    let re_only_group = Regex::new(r"group").unwrap();
    for l in vec![
        Location::Session,
        Location::Directory,
        Location::Machine,
        Location::Everywhere,
    ] {
        let query = query_for(&l, false);
        assert!(!re_only_group.is_match(&query));
        assert!(!re_group.is_match(&query));
    }
}

#[test]
fn for_session() {
    let query = query_for(&Location::Session, true);
    let re_session = Regex::new(r"session == (\d*) and").unwrap();
    let re_host = Regex::new(r"host == '.*'").unwrap();
    let re_group = Regex::new(r"group by history.command_id, history.place_id").unwrap();
    assert!(re_session.is_match(&query));
    assert!(re_host.is_match(&query));
    assert!(re_group.is_match(&query));
}

#[test]
fn for_directory() {
    let query = query_for(&Location::Directory, false);
    let re_directory = Regex::new(r"places.dir like '.*' and").unwrap();
    let re_group = Regex::new(r"group by history.command_id, history.place_id").unwrap();
    assert!(re_directory.is_match(&query));
    assert!(!re_group.is_match(&query));
}

#[test]
fn for_machine() {
    let query = query_for(&Location::Machine, true);
    let re_session = Regex::new(r"session == (\d*) and").unwrap();
    let re_place = Regex::new(r"dir like '.*' and").unwrap();
    let re_host = Regex::new(r"host == '.*'").unwrap();
    let re_group = Regex::new(r"group by history.command_id, history.place_id").unwrap();
    assert!(!re_session.is_match(&query));
    assert!(!re_place.is_match(&query));
    assert!(re_host.is_match(&query));
    assert!(re_group.is_match(&query));
}

#[test]
fn for_everywhere() {
    let query = query_for(&Location::Everywhere, true);
    let re_session = Regex::new(r"session == (\d*) and").unwrap();
    let re_place = Regex::new(r"dir like '.*' and").unwrap();
    let re_host = Regex::new(r"host == '.*'").unwrap();
    let re_group = Regex::new(r"group by history.command_id, history.place_id").unwrap();
    assert!(!re_session.is_match(&query));
    assert!(!re_place.is_match(&query));
    assert!(!re_host.is_match(&query));
    assert!(re_group.is_match(&query));
}

#[test]
fn session_query_text_is_exact() {
    let query = query_for(&Location::Session, true);
    assert_eq!(
        query,
        "select history.id as id, commands.argv as cmd, max(start_time) as start, exit_status, duration, count() as count, history.session as session, places.host as host, places.dir as dir from history left join commands on history.command_id = commands.id left join places on history.place_id = places.id where session == 4711 and places.host == 'workstation' group by history.command_id, history.place_id order by start desc"
    );
}

#[test]
fn directory_query_text_is_exact() {
    let query = query_for(&Location::Directory, false);
    assert_eq!(
        query,
        "select history.id as id, commands.argv as cmd, start_time as start, exit_status, duration, 1 as count, history.session as session, places.host as host, places.dir as dir from history left join commands on history.command_id = commands.id left join places on history.place_id = places.id where places.dir like '/home/user/project' and places.host == 'workstation' order by start desc"
    );
}

#[test]
fn machine_query_text_is_exact() {
    let query = query_for(&Location::Machine, false);
    assert_eq!(
        query,
        "select history.id as id, commands.argv as cmd, start_time as start, exit_status, duration, 1 as count, history.session as session, places.host as host, places.dir as dir from history left join commands on history.command_id = commands.id left join places on history.place_id = places.id where places.host == 'workstation' order by start desc"
    );
}

#[test]
fn everywhere_query_has_no_filter() {
    let query = query_for(&Location::Everywhere, true);
    assert_eq!(
        query,
        "select history.id as id, commands.argv as cmd, max(start_time) as start, exit_status, duration, count() as count, history.session as session, places.host as host, places.dir as dir from history left join commands on history.command_id = commands.id left join places on history.place_id = places.id group by history.command_id, history.place_id order by start desc"
    );
    assert!(!query.contains("where"));
}

#[test]
fn locks_replace_ambient_values_in_the_filter() {
    let mut focus = AppState::new();
    histdb_skim::focus::focus_session(&mut focus, "99");
    histdb_skim::focus::focus_dir(&mut focus, "/srv/data");
    let session = build_query_string(&Location::Session, true, &focus, &ambient());
    assert!(session.contains(" where session == 99 and places.host == 'workstation'"));
    assert!(!session.contains("4711"));
    let directory = build_query_string(&Location::Directory, true, &focus, &ambient());
    assert!(directory.contains(" where places.dir like '/srv/data' and places.host == 'workstation'"));
    assert!(!directory.contains("/home/user/project"));
    histdb_skim::focus::reset_focus_session(&mut focus);
    let session = build_query_string(&Location::Session, true, &focus, &ambient());
    assert!(session.contains(" where session == 4711 and"));
}

#[test]
fn empty_session_id_still_gives_a_session_clause() {
    let env = Ambient { session_id: String::new(), dir: "/".to_string(), host: String::new() };
    let query = build_query_string(&Location::Session, true, &AppState::new(), &env);
    let re_session = Regex::new(r"session == (\d*) and").unwrap();
    assert!(re_session.is_match(&query));
    assert!(query.contains(" where session ==  and places.host == ''"));
}

#[test]
fn a_value_that_holds_the_group_token_shows_in_an_ungrouped_query() {
    let env = Ambient {
        session_id: "1".to_string(),
        dir: "/home/group".to_string(),
        host: "h".to_string(),
    };
    let directory = build_query_string(&Location::Directory, false, &AppState::new(), &env);
    assert!(directory.contains("group"));
    let machine = build_query_string(&Location::Machine, false, &AppState::new(), &env);
    assert!(!machine.contains("group"));
}
