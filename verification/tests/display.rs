use greeter::display::DisplayState;
use greeter::messages::{Command, InputType, Responce};

fn fresh() -> DisplayState {
    DisplayState::new("sway".to_string(), "sway-run".to_string())
}

#[test]
fn fresh_display_state() {
    let state = fresh();
    assert_eq!(state.input, "");
    assert_eq!(state.input_type, None);
    assert_eq!(state.session_input, "sway");
    assert_eq!(state.session, ("sway".to_string(), "sway-run".to_string()));
}

#[test]
fn get_input_is_remembered() {
    let mut state = fresh();
    let cmd = state.apply_response(&Responce::GetInput(InputType::Password));
    assert_eq!(cmd, None);
    assert_eq!(state.input_type, Some(InputType::Password));
}

#[test]
fn get_session_is_answered_with_the_chosen_command() {
    let mut state = fresh();
    let cmd = state.apply_response(&Responce::GetSession);
    assert_eq!(cmd, Some(Command::Session("sway-run".to_string())));
}

#[test]
fn display_only_responses_owe_nothing() {
    let mut state = fresh();
    assert_eq!(state.apply_response(&Responce::Success), None);
    assert_eq!(
        state.apply_response(&Responce::Error("e".to_string())),
        None
    );
    assert_eq!(
        state.apply_response(&Responce::Message("m".to_string())),
        None
    );
    assert_eq!(state.input_type, None);
}

#[test]
fn submitting_a_credential_takes_the_text() {
    let mut state = fresh();
    state.apply_response(&Responce::GetInput(InputType::Password));
    state.input = "hunter2".to_string();
    let cmd = state.submit_answer();
    assert_eq!(cmd, Some(Command::Entered("hunter2".to_string())));
    assert_eq!(state.input, "");
    assert_eq!(state.input_type, None);
}

#[test]
fn submitting_an_acknowledgement_sends_next() {
    let mut state = fresh();
    state.apply_response(&Responce::GetInput(InputType::NoInput));
    let cmd = state.submit_answer();
    assert_eq!(cmd, Some(Command::Next));
    assert_eq!(state.input_type, None);
}

#[test]
fn nothing_pending_nothing_sent() {
    let mut state = fresh();
    assert_eq!(state.submit_answer(), None);
}
