use workflow::adapt_err::Adapt;

#[derive(PartialEq, Eq, Debug)]
enum SomeError {
    Yay,
}

#[derive(PartialEq, Eq, Debug)]
enum OtherError {
    Nay,
}

impl From<SomeError> for OtherError {
    fn from(_value: SomeError) -> Self {
        OtherError::Nay
    }
}

#[test]
fn test_adapt_can_adapt_err() {
    let a: Result<usize, SomeError> = Err(SomeError::Yay);
    let b: Result<usize, OtherError> = a.adapt();
    assert_eq!(b, Err(OtherError::Nay));
}

#[test]
fn test_adapt_do_not_affect_ok_res() {
    let a: Result<usize, SomeError> = Ok(1);
    let b: Result<usize, OtherError> = a.adapt();
    assert_eq!(b, Ok(1));
}

#[test]
fn test_adapt_can_adapt_ok() {
    let a: Result<i8, SomeError> = Ok(1);
    let b: Result<i16, SomeError> = a.adapt();
    assert_eq!(b, Ok(1));
}

#[test]
fn test_adapt_can_adapt_both() {
    let a: Result<i8, SomeError> = Ok(1);
    let b: Result<i16, OtherError> = a.adapt();
    assert_eq!(b, Ok(1i16));
}
