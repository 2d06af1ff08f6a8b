use histdb_skim::environment::Ambient;
use histdb_skim::focus::{focus_dir, focus_session, AppState};
use histdb_skim::location::Location;
use histdb_skim::title::generate_title;

fn title_ambient() -> Ambient {
    Ambient {
        session_id: "4711".to_string(),
        dir: "/home/user/project".to_string(),
        host: "workstation".to_string(),
    }
}

const SESSION_HEADER: &str = " ┏━━━━━━━━━━━┱─────────────┬────────┬──────────────┐\n ┃F1: Session┃F2: Directory│F3: Host│F4: Everywhere│ F5: Toggle group, F6: Lock Session, F7: Lock Dir\n━┛           ┗━━━━━━━━━━━━━┷━━━━━━━━┷━━━━━━━━━━━━━━┷━━━━━━━━━━━━━━━━━━━━━━━━━━━━━━━━━━━━━━━━━━━━━━━━━━━";
const DIRECTORY_HEADER: &str = " ┌───────────┲━━━━━━━━━━━━━┱────────┬──────────────┐\n │F1: Session┃F2: Directory┃F3: Host│F4: Everywhere│ F5: Toggle group, F6: Lock Session, F7: Lock Dir\n━┷━━━━━━━━━━━┛             ┗━━━━━━━━┷━━━━━━━━━━━━━━┷━━━━━━━━━━━━━━━━━━━━━━━━━━━━━━━━━━━━━━━━━━━━━━━━━━━";
const MACHINE_HEADER: &str = " ┌───────────┬─────────────┲━━━━━━━━┱──────────────┐\n │F1: Session│F2: Directory┃F3: Host┃F4: Everywhere│ F5: Toggle group, F6: Lock Session, F7: Lock Dir\n━┷━━━━━━━━━━━┷━━━━━━━━━━━━━┛        ┗━━━━━━━━━━━━━━┷━━━━━━━━━━━━━━━━━━━━━━━━━━━━━━━━━━━━━━━━━━━━━━━━━━━";
const EVERYWHERE_HEADER: &str = " ┌───────────┬─────────────┬────────┲━━━━━━━━━━━━━━┓\n │F1: Session│F2: Directory│F3: Host┃F4: Everywhere┃ F5: Toggle group, F6: Lock Session, F7: Lock Dir\n━┷━━━━━━━━━━━┷━━━━━━━━━━━━━┷━━━━━━━━┛              ┗━━━━━━━━━━━━━━━━━━━━━━━━━━━━━━━━━━━━━━━━━━━━━━━━━━━";

#[test]
fn title_of_session_scope() {
    let title = generate_title(&Location::Session, &AppState::new(), &title_ambient());
    assert_eq!(title, format!("Session location history 4711 \n{}\n", SESSION_HEADER));
}

#[test]
fn title_of_directory_scope() {
    let title = generate_title(&Location::Directory, &AppState::new(), &title_ambient());
    assert_eq!(
        title,
        format!("Directory location history /home/user/project \n{}\n", DIRECTORY_HEADER)
    );
}

#[test]
fn title_of_machine_scope() {
    let title = generate_title(&Location::Machine, &AppState::new(), &title_ambient());
    assert_eq!(title, format!("Machine location history workstation \n{}\n", MACHINE_HEADER));
}

#[test]
fn title_of_everywhere_scope() {
    let title = generate_title(&Location::Everywhere, &AppState::new(), &title_ambient());
    assert_eq!(title, format!("Everywhere  \n{}\n", EVERYWHERE_HEADER));
}

#[test]
fn title_notes_the_locks() {
    let mut focus = AppState::new();
    focus_session(&mut focus, "99");
    let title = generate_title(&Location::Machine, &focus, &title_ambient());
    assert_eq!(
        title,
        format!("Machine location history workstation Session: 99 \n{}\n", MACHINE_HEADER)
    );
    focus_dir(&mut focus, "/srv/data");
    let title = generate_title(&Location::Everywhere, &focus, &title_ambient());
    assert_eq!(
        title,
        format!("Everywhere  Session: 99 Directory: /srv/data \n{}\n", EVERYWHERE_HEADER)
    );
}

#[test]
fn title_shows_the_locked_value_of_its_scope() {
    let mut focus = AppState::new();
    focus_session(&mut focus, "99");
    focus_dir(&mut focus, "/srv/data");
    let session = generate_title(&Location::Session, &focus, &title_ambient());
    assert!(session.starts_with("Session location history 99 Session: 99 Directory: /srv/data \n"));
    let directory = generate_title(&Location::Directory, &focus, &title_ambient());
    assert!(directory
        .starts_with("Directory location history /srv/data Session: 99 Directory: /srv/data \n"));
}

#[test]
fn title_has_three_diagram_lines_with_the_active_key_in_heavy_strokes() {
    let cells = [
        (Location::Session, "┃F1: Session┃"),
        (Location::Directory, "┃F2: Directory┃"),
        (Location::Machine, "┃F3: Host┃"),
        (Location::Everywhere, "┃F4: Everywhere┃"),
    ];
    for (scope, cell) in cells.iter() {
        let title = generate_title(scope, &AppState::new(), &title_ambient());
        let lines: Vec<&str> = title.split('\n').collect();
        assert_eq!(lines.len(), 5);
        assert_eq!(lines[4], "");
        assert_eq!(lines[1].chars().count(), 52);
        assert_eq!(lines[2].chars().count(), 101);
        assert_eq!(lines[3].chars().count(), 103);
        assert!(lines[2].contains(cell));
        assert!(lines[2].ends_with("F5: Toggle group, F6: Lock Session, F7: Lock Dir"));
        for (other, other_cell) in cells.iter() {
            if other != scope {
                assert!(!lines[2].contains(other_cell));
            }
        }
    }
}
