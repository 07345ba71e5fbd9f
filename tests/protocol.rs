use sticky_windows::protocol::{
    format_response, parse_request, ParseError, Request, Response, StageArgs, UnstageArgs,
};

fn stage(line: &str) -> StageArgs {
    match parse_request(line) {
        Ok(Request::Stage(a)) => a,
        other => panic!("expected a stage request, got {:?}", other),
    }
}

fn unstage(line: &str) -> UnstageArgs {
    match parse_request(line) {
        Ok(Request::Unstage(a)) => a,
        other => panic!("expected an unstage request, got {:?}", other),
    }
}

fn err(line: &str) -> ParseError {
    match parse_request(line) {
        Err(e) => e,
        Ok(r) => panic!("expected an error, got {:?}", r),
    }
}

#[test]
fn add_and_remove_take_a_window_id() {
    assert!(matches!(parse_request("add 42"), Ok(Request::Add { window_id: 42 })));
    assert!(matches!(parse_request("  remove\t7  "), Ok(Request::Remove { window_id: 7 })));
    assert!(matches!(parse_request("add +5"), Ok(Request::Add { window_id: 5 })));
    assert!(matches!(
        parse_request("add 18446744073709551615"),
        Ok(Request::Add { window_id: 18446744073709551615 })
    ));
    assert_eq!(err("add"), ParseError::MissingWindowId);
    assert_eq!(err("remove"), ParseError::MissingWindowId);
    assert_eq!(err("add x1"), ParseError::InvalidWindowId);
    assert_eq!(err("add -1"), ParseError::InvalidWindowId);
    assert_eq!(err("add +"), ParseError::InvalidWindowId);
    assert_eq!(err("add 18446744073709551616"), ParseError::InvalidWindowId);
}

#[test]
fn simple_commands() {
    assert!(matches!(parse_request("list"), Ok(Request::List)));
    assert!(matches!(parse_request("list extra"), Ok(Request::List)));
    assert!(matches!(parse_request("toggle_active"), Ok(Request::ToggleActive)));
}

#[test]
fn unknown_or_empty_lines() {
    assert_eq!(err(""), ParseError::UnknownCommand);
    assert_eq!(err("   \t "), ParseError::UnknownCommand);
    assert_eq!(err("ADD 1"), ParseError::UnknownCommand);
    assert_eq!(err("lists"), ParseError::UnknownCommand);
}

#[test]
fn unicode_whitespace_separates_words() {
    assert!(matches!(parse_request("add\u{3000}9"), Ok(Request::Add { window_id: 9 })));
    assert!(matches!(parse_request("\u{a0}list"), Ok(Request::List)));
}

#[test]
fn toggle_by_appid_and_title() {
    match parse_request("toggle_appid org.gnome.Nautilus extra") {
        Ok(Request::ToggleAppid { appid }) => assert_eq!(appid, "org.gnome.Nautilus"),
        other => panic!("{:?}", other),
    }
    match parse_request("toggle_title   My   Great\tWindow ") {
        Ok(Request::ToggleTitle { title }) => assert_eq!(title, "My Great Window"),
        other => panic!("{:?}", other),
    }
    assert_eq!(err("toggle_appid"), ParseError::MissingAppid);
    assert_eq!(err("toggle_title   "), ParseError::MissingTitle);
}

#[test]
fn stage_selectors() {
    let a = stage("stage --all");
    assert!(a.all && !a.list && !a.active && a.window_id.is_none());
    let a = stage("stage --list");
    assert!(a.list && !a.all);
    let a = stage("stage --active");
    assert!(a.active && !a.all);
    let a = stage("stage 12");
    assert_eq!(a.window_id, Some(12));
    let a = stage("stage --appid kitty");
    assert_eq!(a.appid.as_deref(), Some("kitty"));
    let a = stage("stage --title two words");
    assert_eq!(a.title.as_deref(), Some("two words"));
    let a = stage("stage --toggle-appid kitty");
    assert_eq!(a.appid.as_deref(), Some("kitty"));
    assert!(a.title.is_none() && !a.all);
    let a = stage("stage --toggle-title a  b");
    assert_eq!(a.title.as_deref(), Some("a b"));
}

#[test]
fn parse_stage_errors() {
    assert_eq!(err("stage"), ParseError::MissingStageArgument);
    assert_eq!(err("stage --appid"), ParseError::MissingStageAppid);
    assert_eq!(err("stage --title"), ParseError::MissingStageTitle);
    assert_eq!(err("stage --toggle-appid"), ParseError::MissingToggleAppid);
    assert_eq!(err("stage --toggle-title"), ParseError::MissingToggleTitle);
    assert_eq!(err("stage --bogus"), ParseError::InvalidWindowId);
}

#[test]
fn unstage_selectors() {
    let a = unstage("unstage --all");
    assert!(a.all && !a.active);
    let a = unstage("unstage --active");
    assert!(a.active && !a.all);
    let a = unstage("unstage 3");
    assert_eq!(a.window_id, Some(3));
    let a = unstage("unstage --appid foot");
    assert_eq!(a.appid.as_deref(), Some("foot"));
    let a = unstage("unstage --title x y");
    assert_eq!(a.title.as_deref(), Some("x y"));
    match parse_request("unstage --toggle-appid foot") {
        Ok(Request::ToggleAppid { appid }) => assert_eq!(appid, "foot"),
        other => panic!("{:?}", other),
    }
    match parse_request("unstage --toggle-title p q") {
        Ok(Request::ToggleTitle { title }) => assert_eq!(title, "p q"),
        other => panic!("{:?}", other),
    }
}

#[test]
fn parse_unstage_errors() {
    assert_eq!(err("unstage"), ParseError::MissingUnstageArgument);
    assert_eq!(err("unstage --appid"), ParseError::MissingUnstageAppid);
    assert_eq!(err("unstage --title"), ParseError::MissingUnstageTitle);
    assert_eq!(err("unstage --toggle-appid"), ParseError::MissingToggleAppid);
    assert_eq!(err("unstage --toggle-title"), ParseError::MissingToggleTitle);
    assert_eq!(err("unstage --list"), ParseError::InvalidWindowId);
}

#[test]
fn parse_error_messages() {
    assert_eq!(ParseError::UnknownCommand.message(), "Unknown command");
    assert_eq!(ParseError::MissingStageTitle.message(), "Missing title for stage");
    assert_eq!(ParseError::InvalidWindowId.message(), "Invalid window id");
}

#[test]
fn default_args_select_nothing() {
    let s = StageArgs::default();
    assert!(s.window_id.is_none() && !s.all && !s.list && !s.active);
    assert!(s.appid.is_none() && s.title.is_none());
    let u = UnstageArgs::default();
    assert!(u.window_id.is_none() && !u.all && !u.active && u.appid.is_none());
}

#[test]
fn responses_render_to_one_line() {
    assert_eq!(format_response(Response::Success("done".to_string())), "done");
    assert_eq!(format_response(Response::Error("bad".to_string())), "Error: bad");
    assert_eq!(format_response(Response::Data("[1,2]".to_string())), "[1,2]");
}
