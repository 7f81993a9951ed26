use fmod_oxide::string_query::{
    command_string_step, length_query_outcome, name_from_buffer, string_from_buffer,
    CommandStringStep, FMOD_ERR_TRUNCATED, FMOD_OK,
};

#[test]
fn length_query_passes_other_errors_on() {
    assert_eq!(length_query_outcome(30, 10), Err(30));
    assert_eq!(length_query_outcome(FMOD_ERR_TRUNCATED, 12), Ok(12));
    assert_eq!(length_query_outcome(FMOD_OK, 0), Ok(0));
    assert_eq!(length_query_outcome(30, -1), Err(30));
}

#[test]
fn buffer_becomes_string_without_its_nul() {
    assert_eq!(string_from_buffer(FMOD_OK, b"bank:/Master\0".to_vec()), Ok(String::from("bank:/Master")));
    assert_eq!(string_from_buffer(FMOD_OK, b"\0".to_vec()), Ok(String::new()));
    assert_eq!(string_from_buffer(FMOD_OK, b"no nul".to_vec()), Ok(String::from("no nul")));
    assert_eq!(string_from_buffer(74, b"x\0".to_vec()), Err(74));
}

#[test]
fn command_string_grows_until_it_fits() {
    match command_string_step(FMOD_ERR_TRUNCATED, vec![0; 32]) {
        CommandStringStep::Retry { buffer_len } => assert_eq!(buffer_len, 64),
        CommandStringStep::Done(_) => panic!("expected a retry"),
    }
    match command_string_step(FMOD_OK, b"Start\0\0\0".to_vec()) {
        CommandStringStep::Done(r) => assert_eq!(r, Ok(String::from("Start"))),
        CommandStringStep::Retry { .. } => panic!("expected an answer"),
    }
    match command_string_step(31, vec![0; 32]) {
        CommandStringStep::Done(r) => assert_eq!(r, Err(31)),
        CommandStringStep::Retry { .. } => panic!("expected an error"),
    }
}

#[test]
fn name_stops_at_first_nul() {
    let mut buffer = [0u8; 16];
    buffer[..8].copy_from_slice(b"Speakers");
    assert_eq!(name_from_buffer(&buffer), "Speakers");
    assert_eq!(name_from_buffer(b"full"), "full");
}
