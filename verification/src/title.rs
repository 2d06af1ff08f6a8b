//! The banner above the result list.

use crate::environment::Ambient;
use crate::focus::{AppState, Locks};
use crate::location::Location;
use crate::text::occurs_at;
use vstd::prelude::*;

verus! {

/// The name of a scope as the banner shows it.
pub open spec fn label_of(scope: Location) -> Seq<char> {
    match scope {
        Location::Session => "Session location history"@,
        Location::Directory => "Directory location history"@,
        Location::Machine => "Machine location history"@,
        Location::Everywhere => "Everywhere"@,
    }
}

/// The value that a scope is held to: the resolved session, the resolved
/// directory, the host, or nothing.
pub open spec fn context_of(
    scope: Location,
    locks: Locks,
    session: Seq<char>,
    dir: Seq<char>,
    host: Seq<char>,
) -> Seq<char> {
    match scope {
        Location::Session => locks.resolve_session(session),
        Location::Directory => locks.resolve_dir(dir),
        Location::Machine => host,
        Location::Everywhere => Seq::empty(),
    }
}

/// The note that a set lock leaves in the banner; nothing for no lock.
pub open spec fn lock_note(name: Seq<char>, lock: Option<Seq<char>>) -> Seq<char> {
    match lock {
        Some(value) => name + ": "@ + value + " "@,
        None => Seq::empty(),
    }
}

/// The key diagram: three lines that frame the function key of the active
/// scope in heavy strokes and list the other keys after it.
pub open spec fn header_of(scope: Location) -> Seq<char> {
    match scope {
        Location::Session =>
            " ┏━━━━━━━━━━━┱─────────────┬────────┬──────────────┐\n ┃F1: Session┃F2: Directory│F3: Host│F4: Everywhere│ F5: Toggle group, F6: Lock Session, F7: Lock Dir\n━┛           ┗━━━━━━━━━━━━━┷━━━━━━━━┷━━━━━━━━━━━━━━┷━━━━━━━━━━━━━━━━━━━━━━━━━━━━━━━━━━━━━━━━━━━━━━━━━━━"@,
        Location::Directory =>
            " ┌───────────┲━━━━━━━━━━━━━┱────────┬──────────────┐\n │F1: Session┃F2: Directory┃F3: Host│F4: Everywhere│ F5: Toggle group, F6: Lock Session, F7: Lock Dir\n━┷━━━━━━━━━━━┛             ┗━━━━━━━━┷━━━━━━━━━━━━━━┷━━━━━━━━━━━━━━━━━━━━━━━━━━━━━━━━━━━━━━━━━━━━━━━━━━━"@,
        Location::Machine =>
            " ┌───────────┬─────────────┲━━━━━━━━┱──────────────┐\n │F1: Session│F2: Directory┃F3: Host┃F4: Everywhere│ F5: Toggle group, F6: Lock Session, F7: Lock Dir\n━┷━━━━━━━━━━━┷━━━━━━━━━━━━━┛        ┗━━━━━━━━━━━━━━┷━━━━━━━━━━━━━━━━━━━━━━━━━━━━━━━━━━━━━━━━━━━━━━━━━━━"@,
        Location::Everywhere =>
            " ┌───────────┬─────────────┬────────┲━━━━━━━━━━━━━━┓\n │F1: Session│F2: Directory│F3: Host┃F4: Everywhere┃ F5: Toggle group, F6: Lock Session, F7: Lock Dir\n━┷━━━━━━━━━━━┷━━━━━━━━━━━━━┷━━━━━━━━┛              ┗━━━━━━━━━━━━━━━━━━━━━━━━━━━━━━━━━━━━━━━━━━━━━━━━━━━"@,
    }
}

/// The banner: the scope's label, its context value, the notes of the
/// locks, and the key diagram on the lines below.
pub open spec fn title_text(
    scope: Location,
    locks: Locks,
    session: Seq<char>,
    dir: Seq<char>,
    host: Seq<char>,
) -> Seq<char> {
    label_of(scope) + " "@ + context_of(scope, locks, session, dir, host) + " "@ + lock_note(
        "Session"@,
        locks.session,
    ) + lock_note("Directory"@, locks.dir) + "\n"@ + header_of(scope) + "\n"@
}

/// Appends the note of a lock to `text`.
fn push_lock_note(text: &mut String, name: &str, lock: &Option<String>)
    ensures
        final(text)@ == old(text)@ + lock_note(name@, lock.deep_view()),
{
    match lock {
        Some(value) => {
            text.append(name);
            text.append(": ");
            text.append(value.as_str());
            text.append(" ");
            proof {
                assert(text@ =~= old(text)@ + (name@ + ": "@ + value@ + " "@));
            }
        },
        None => {
            proof {
                assert(text@ =~= old(text)@ + Seq::<char>::empty());
            }
        },
    }
}

/// Renders the banner for scope `location`.
pub fn generate_title(location: &Location, focus: &AppState, env: &Ambient) -> (title: String)
    ensures
        title@ == title_text(*location, focus@, env.session_id@, env.dir@, env.host@),
{
    let label = match location {
        Location::Session => "Session location history",
        Location::Directory => "Directory location history",
        Location::Machine => "Machine location history",
        Location::Everywhere => "Everywhere",
    };
    let header = match location {
        Location::Session =>
            " ┏━━━━━━━━━━━┱─────────────┬────────┬──────────────┐\n ┃F1: Session┃F2: Directory│F3: Host│F4: Everywhere│ F5: Toggle group, F6: Lock Session, F7: Lock Dir\n━┛           ┗━━━━━━━━━━━━━┷━━━━━━━━┷━━━━━━━━━━━━━━┷━━━━━━━━━━━━━━━━━━━━━━━━━━━━━━━━━━━━━━━━━━━━━━━━━━━",
        Location::Directory =>
            " ┌───────────┲━━━━━━━━━━━━━┱────────┬──────────────┐\n │F1: Session┃F2: Directory┃F3: Host│F4: Everywhere│ F5: Toggle group, F6: Lock Session, F7: Lock Dir\n━┷━━━━━━━━━━━┛             ┗━━━━━━━━┷━━━━━━━━━━━━━━┷━━━━━━━━━━━━━━━━━━━━━━━━━━━━━━━━━━━━━━━━━━━━━━━━━━━",
        Location::Machine =>
            " ┌───────────┬─────────────┲━━━━━━━━┱──────────────┐\n │F1: Session│F2: Directory┃F3: Host┃F4: Everywhere│ F5: Toggle group, F6: Lock Session, F7: Lock Dir\n━┷━━━━━━━━━━━┷━━━━━━━━━━━━━┛        ┗━━━━━━━━━━━━━━┷━━━━━━━━━━━━━━━━━━━━━━━━━━━━━━━━━━━━━━━━━━━━━━━━━━━",
        Location::Everywhere =>
            " ┌───────────┬─────────────┬────────┲━━━━━━━━━━━━━━┓\n │F1: Session│F2: Directory│F3: Host┃F4: Everywhere┃ F5: Toggle group, F6: Lock Session, F7: Lock Dir\n━┷━━━━━━━━━━━┷━━━━━━━━━━━━━┷━━━━━━━━┛              ┗━━━━━━━━━━━━━━━━━━━━━━━━━━━━━━━━━━━━━━━━━━━━━━━━━━━",
    };
    let mut title = String::from_str(label);
    title.append(" ");
    match location {
        Location::Session => match &focus.focus_session {
            Some(locked) => title.append(locked.as_str()),
            None => title.append(env.session_id.as_str()),
        },
        Location::Directory => match &focus.focus_dir {
            Some(locked) => title.append(locked.as_str()),
            None => title.append(env.dir.as_str()),
        },
        Location::Machine => title.append(env.host.as_str()),
        Location::Everywhere => {
            proof {
                assert(title@ =~= title@ + Seq::<char>::empty());
            }
        },
    }
    title.append(" ");
    push_lock_note(&mut title, "Session", &focus.focus_session);
    push_lock_note(&mut title, "Directory", &focus.focus_dir);
    title.append("\n");
    title.append(header);
    title.append("\n");
    title
}

/// The cell of a scope in the key diagram.
pub open spec fn key_label(scope: Location) -> Seq<char> {
    match scope {
        Location::Session => "F1: Session"@,
        Location::Directory => "F2: Directory"@,
        Location::Machine => "F3: Host"@,
        Location::Everywhere => "F4: Everywhere"@,
    }
}

/// The keys that the diagram lists after the four scopes.
pub open spec fn legend() -> Seq<char> {
    "F5: Toggle group, F6: Lock Session, F7: Lock Dir"@
}

/// The stroke that frames the cell of the active scope.
pub open spec fn heavy_bar() -> Seq<char> {
    "┃"@
}

/// Where the cell of a scope begins in the middle line of the diagram.
pub open spec fn cell_offset(scope: Location) -> int {
    match scope {
        Location::Session => 54,
        Location::Directory => 66,
        Location::Machine => 80,
        Location::Everywhere => 89,
    }
}

/// The diagrams of two different scopes differ.
pub proof fn lemma_headers_differ(a: Location, b: Location)
    requires
        header_of(a) == header_of(b),
    ensures
        a == b,
{
    reveal_strlit(" ┏━━━━━━━━━━━┱─────────────┬────────┬──────────────┐\n ┃F1: Session┃F2: Directory│F3: Host│F4: Everywhere│ F5: Toggle group, F6: Lock Session, F7: Lock Dir\n━┛           ┗━━━━━━━━━━━━━┷━━━━━━━━┷━━━━━━━━━━━━━━┷━━━━━━━━━━━━━━━━━━━━━━━━━━━━━━━━━━━━━━━━━━━━━━━━━━━");
    reveal_strlit(" ┌───────────┲━━━━━━━━━━━━━┱────────┬──────────────┐\n │F1: Session┃F2: Directory┃F3: Host│F4: Everywhere│ F5: Toggle group, F6: Lock Session, F7: Lock Dir\n━┷━━━━━━━━━━━┛             ┗━━━━━━━━┷━━━━━━━━━━━━━━┷━━━━━━━━━━━━━━━━━━━━━━━━━━━━━━━━━━━━━━━━━━━━━━━━━━━");
    reveal_strlit(" ┌───────────┬─────────────┲━━━━━━━━┱──────────────┐\n │F1: Session│F2: Directory┃F3: Host┃F4: Everywhere│ F5: Toggle group, F6: Lock Session, F7: Lock Dir\n━┷━━━━━━━━━━━┷━━━━━━━━━━━━━┛        ┗━━━━━━━━━━━━━━┷━━━━━━━━━━━━━━━━━━━━━━━━━━━━━━━━━━━━━━━━━━━━━━━━━━━");
    reveal_strlit(" ┌───────────┬─────────────┬────────┲━━━━━━━━━━━━━━┓\n │F1: Session│F2: Directory│F3: Host┃F4: Everywhere┃ F5: Toggle group, F6: Lock Session, F7: Lock Dir\n━┷━━━━━━━━━━━┷━━━━━━━━━━━━━┷━━━━━━━━┛              ┗━━━━━━━━━━━━━━━━━━━━━━━━━━━━━━━━━━━━━━━━━━━━━━━━━━━");
    if a != b {
        assert(header_of(Location::Session)[1] != header_of(Location::Directory)[1]);
        assert(header_of(Location::Session)[1] != header_of(Location::Machine)[1]);
        assert(header_of(Location::Session)[1] != header_of(Location::Everywhere)[1]);
        assert(header_of(Location::Directory)[13] != header_of(Location::Machine)[13]);
        assert(header_of(Location::Directory)[13] != header_of(Location::Everywhere)[13]);
        assert(header_of(Location::Machine)[27] != header_of(Location::Everywhere)[27]);
    }
}

/// In the diagram of a scope, the cell of that scope stands between two
/// heavy strokes, and the remaining keys are listed after the four cells.
pub proof fn lemma_active_key_is_framed(scope: Location)
    ensures
        occurs_at(
            header_of(scope),
            heavy_bar() + key_label(scope) + heavy_bar(),
            cell_offset(scope),
        ),
        occurs_at(header_of(scope), legend(), 106),
        header_of(scope).len() == 258,
{
    reveal_strlit("┃");
    reveal_strlit("F5: Toggle group, F6: Lock Session, F7: Lock Dir");
    let header = header_of(scope);
    let cell = heavy_bar() + key_label(scope) + heavy_bar();
    match scope {
        Location::Session => {
            reveal_strlit(" ┏━━━━━━━━━━━┱─────────────┬────────┬──────────────┐\n ┃F1: Session┃F2: Directory│F3: Host│F4: Everywhere│ F5: Toggle group, F6: Lock Session, F7: Lock Dir\n━┛           ┗━━━━━━━━━━━━━┷━━━━━━━━┷━━━━━━━━━━━━━━┷━━━━━━━━━━━━━━━━━━━━━━━━━━━━━━━━━━━━━━━━━━━━━━━━━━━");
            reveal_strlit("F1: Session");
        },
        Location::Directory => {
            reveal_strlit(" ┌───────────┲━━━━━━━━━━━━━┱────────┬──────────────┐\n │F1: Session┃F2: Directory┃F3: Host│F4: Everywhere│ F5: Toggle group, F6: Lock Session, F7: Lock Dir\n━┷━━━━━━━━━━━┛             ┗━━━━━━━━┷━━━━━━━━━━━━━━┷━━━━━━━━━━━━━━━━━━━━━━━━━━━━━━━━━━━━━━━━━━━━━━━━━━━");
            reveal_strlit("F2: Directory");
        },
        Location::Machine => {
            reveal_strlit(" ┌───────────┬─────────────┲━━━━━━━━┱──────────────┐\n │F1: Session│F2: Directory┃F3: Host┃F4: Everywhere│ F5: Toggle group, F6: Lock Session, F7: Lock Dir\n━┷━━━━━━━━━━━┷━━━━━━━━━━━━━┛        ┗━━━━━━━━━━━━━━┷━━━━━━━━━━━━━━━━━━━━━━━━━━━━━━━━━━━━━━━━━━━━━━━━━━━");
            reveal_strlit("F3: Host");
        },
        Location::Everywhere => {
            reveal_strlit(" ┌───────────┬─────────────┬────────┲━━━━━━━━━━━━━━┓\n │F1: Session│F2: Directory│F3: Host┃F4: Everywhere┃ F5: Toggle group, F6: Lock Session, F7: Lock Dir\n━┷━━━━━━━━━━━┷━━━━━━━━━━━━━┷━━━━━━━━┛              ┗━━━━━━━━━━━━━━━━━━━━━━━━━━━━━━━━━━━━━━━━━━━━━━━━━━━");
            reveal_strlit("F4: Everywhere");
        },
    }
    assert(header.subrange(cell_offset(scope), cell_offset(scope) + cell.len()) =~= cell);
    assert(header.subrange(106, 106 + legend().len() as int) =~= legend());
}

/// A banner begins with the label of its scope and ends with the diagram of
/// its scope on lines of its own. Where no lock is set, nothing but the
/// context value stands between the two.
pub proof fn lemma_title_frame(
    scope: Location,
    locks: Locks,
    session: Seq<char>,
    dir: Seq<char>,
    host: Seq<char>,
)
    ensures
        occurs_at(title_text(scope, locks, session, dir, host), label_of(scope), 0),
        occurs_at(
            title_text(scope, locks, session, dir, host),
            "\n"@ + header_of(scope) + "\n"@,
            title_text(scope, locks, session, dir, host).len() - 260,
        ),
        locks == Locks::none() ==> title_text(scope, locks, session, dir, host) == label_of(scope)
            + " "@ + context_of(scope, locks, session, dir, host) + " "@ + "\n"@ + header_of(scope)
            + "\n"@,
{
    let title = title_text(scope, locks, session, dir, host);
    let label = label_of(scope);
    lemma_active_key_is_framed(scope);
    reveal_strlit("\n");
    let frame = "\n"@ + header_of(scope) + "\n"@;
    assert(frame.len() == 260);
    let before = label + " "@ + context_of(scope, locks, session, dir, host) + " "@ + lock_note(
        "Session"@,
        locks.session,
    ) + lock_note("Directory"@, locks.dir);
    assert(title =~= before + frame);
    assert(title.subrange(0, label.len() as int) =~= label);
    assert(title.subrange(title.len() - 260, title.len() - 260 + frame.len()) =~= frame);
    if locks == Locks::none() {
        assert(title =~= label + " "@ + context_of(scope, locks, session, dir, host) + " "@
            + "\n"@ + header_of(scope) + "\n"@);
    }
}

} // verus!
