use konsoleat::candidate::{
    consider_session_candidate, consider_window_candidate, AnnotatedSession, AnnotatedWindow,
};

fn window(id: &str, starttime: u64) -> AnnotatedWindow {
    AnnotatedWindow { service_name: "s".to_string(), window_id: id.to_string(), starttime }
}

fn session(session_id: i32, is_current: bool, starttime: u64) -> AnnotatedSession {
    AnnotatedSession {
        service_name: "s".to_string(),
        window_id: "w".to_string(),
        session_id,
        is_current,
        starttime,
    }
}

fn chosen_session(list: &[(i32, bool, u64)]) -> Option<i32> {
    let mut best = None;
    for (id, is_current, starttime) in list {
        consider_session_candidate(&mut best, session(*id, *is_current, *starttime));
    }
    best.map(|s| s.session_id)
}

#[test]
fn first_window_is_taken() {
    let mut best = None;
    consider_window_candidate(&mut best, window("a", 9));
    let best = best.unwrap();
    assert_eq!((best.service_name.as_str(), best.window_id.as_str(), best.starttime), ("s", "a", 9));
}

#[test]
fn first_among_the_oldest_windows_is_chosen() {
    let mut best = None;
    for (id, starttime) in [("a", 9), ("b", 3), ("c", 3), ("d", 5)] {
        consider_window_candidate(&mut best, window(id, starttime));
    }
    assert_eq!(best.unwrap().window_id, "b");
}

#[test]
fn first_session_is_taken() {
    assert_eq!(chosen_session(&[(1, false, u64::MAX)]), Some(1));
    assert_eq!(chosen_session(&[]), None);
}

#[test]
fn current_session_comes_before_older_ones() {
    assert_eq!(chosen_session(&[(1, false, 1), (2, true, 100)]), Some(2));
    assert_eq!(chosen_session(&[(2, true, 100), (1, false, 1)]), Some(2));
}

#[test]
fn older_session_comes_first_among_equals() {
    assert_eq!(chosen_session(&[(1, false, 5), (2, false, 4), (3, false, 4)]), Some(2));
    assert_eq!(chosen_session(&[(1, true, 5), (2, true, 4), (3, true, 4), (4, false, 0)]), Some(2));
}
