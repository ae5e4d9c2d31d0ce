use cube_native::python_call::{async_not_supported_text, python_error_text, settle_python_call, PythonCallError};

#[test]
fn plain_result_settles() {
    assert_eq!(settle_python_call::<String>(Ok(false)), Ok(()));
}

#[test]
fn coroutine_is_refused() {
    assert_eq!(settle_python_call::<String>(Ok(true)), Err(PythonCallError::AsyncNotSupported));
    assert_eq!(async_not_supported_text(), "Async functions are not supported, unimplemented");
}

#[test]
fn raised_error_is_passed_on() {
    assert_eq!(settle_python_call(Err("boom".to_string())), Err(PythonCallError::Raised("boom".to_string())));
    assert_eq!(python_error_text("ValueError: boom"), "Python error: ValueError: boom");
}
