use histdb_skim::location::Location;

#[test]
fn advance_follows_the_cycle() {
    assert_eq!(Location::Session.advance(), Location::Directory);
    assert_eq!(Location::Directory.advance(), Location::Machine);
    assert_eq!(Location::Machine.advance(), Location::Everywhere);
    assert_eq!(Location::Everywhere.advance(), Location::Session);
}

#[test]
fn four_advances_close_the_cycle() {
    for start in [Location::Session, Location::Directory, Location::Machine, Location::Everywhere] {
        let mut scope = start;
        for step in 1..=4 {
            scope = scope.advance();
            assert_eq!(scope == start, step == 4);
        }
    }
}

#[test]
fn function_keys_select_scopes_directly() {
    assert_eq!(Location::direct(1), Some(Location::Session));
    assert_eq!(Location::direct(2), Some(Location::Directory));
    assert_eq!(Location::direct(3), Some(Location::Machine));
    assert_eq!(Location::direct(4), Some(Location::Everywhere));
}

#[test]
fn other_keys_select_no_scope() {
    assert_eq!(Location::direct(0), None);
    assert_eq!(Location::direct(5), None);
    assert_eq!(Location::direct(6), None);
    assert_eq!(Location::direct(255), None);
}

#[test]
fn function_key_of_a_scope_selects_it() {
    for scope in [Location::Session, Location::Directory, Location::Machine, Location::Everywhere] {
        assert_eq!(Location::direct(scope.function_key()), Some(scope));
    }
    assert_eq!(Location::Session.function_key(), 1);
    assert_eq!(Location::Everywhere.function_key(), 4);
}
