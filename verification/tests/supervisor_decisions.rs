use nri::supervisor::{find, find_lowered, route, Route, SupervisorError, Timers};

fn names() -> Vec<String> {
    vec!["CLI".to_string(), "Web".to_string(), "teensy".to_string()]
}

#[test]
fn finding_services_ignores_case() {
    assert_eq!(find(&names(), "web"), Some(1));
    assert_eq!(find(&names(), "TEENSY"), Some(2));
    assert_eq!(find(&names(), "cli"), Some(0));
    assert_eq!(find(&names(), "nope"), None);
}

#[test]
fn finding_among_lowercased_names() {
    let lowered = vec!["cli".to_string(), "web".to_string(), "web".to_string()];
    assert_eq!(find_lowered(&lowered, "web"), Some(1));
    assert_eq!(find_lowered(&lowered, "Web"), None);
    assert_eq!(find_lowered(&vec![], "web"), None);
}

#[test]
fn routing_data() {
    assert_eq!(route("send hello world"), Route::ToWeb("hello world".to_string()));
    assert_eq!(route("kick teensy"), Route::Kick("teensy".to_string()));
    assert_eq!(route("kick"), Route::Kick("".to_string()));
    assert_eq!(route("to web a b  c"), Route::To("web".to_string(), "a b  c".to_string()));
    assert_eq!(route("to web"), Route::To("web".to_string(), "".to_string()));
    assert_eq!(route("to"), Route::To("".to_string(), "".to_string()));
    assert_eq!(route("bogus data"), Route::Strange);
    assert_eq!(route(""), Route::Strange);
}

#[test]
fn a_timein_gives_back_its_timeout() {
    let mut t = Timers::new();
    assert_eq!(t.timeout(&names(), "teensy", 100), Ok(()));
    assert_eq!(t.timeout(&names(), "cli", 150), Ok(()));
    assert_eq!(t.timeout(&names(), "teensy", 200), Ok(()));
    assert_eq!(t.timein("teensy"), Ok(200));
    assert_eq!(t.timein("teensy"), Err(SupervisorError::UnmatchedTimein));
    assert_eq!(t.timein("cli"), Ok(150));
}

#[test]
fn unknown_services_cannot_time_out() {
    let mut t = Timers::new();
    assert_eq!(t.timeout(&names(), "ghost", 1), Err(SupervisorError::NonexistentService));
    assert_eq!(t.timein("ghost"), Err(SupervisorError::UnmatchedTimein));
}
