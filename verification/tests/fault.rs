use song_catalog::error::AppError;
use song_catalog::fault::{classify, Fault};
use song_catalog::handler::{respond, Response};

#[test]
fn missing_row_is_not_found() {
    assert_eq!(classify(Fault::NoRow), AppError::NotFound);
}

#[test]
fn violated_constraints_are_constraint_violations() {
    assert_eq!(classify(Fault::UniqueViolation), AppError::ConstraintViolation);
    assert_eq!(classify(Fault::ForeignKeyViolation), AppError::ConstraintViolation);
    assert_eq!(classify(Fault::NotNullViolation), AppError::ConstraintViolation);
    assert_eq!(classify(Fault::CheckViolation), AppError::ConstraintViolation);
}

#[test]
fn other_faults_are_storage_failures() {
    assert_eq!(classify(Fault::Other), AppError::Storage);
}

#[test]
fn faults_answer_with_the_status_of_their_kind() {
    let answered = |fault: Fault| respond(Err(classify(fault)));
    assert_eq!(answered(Fault::NoRow), Response { status: 404, outcome: Err(AppError::NotFound) });
    assert_eq!(
        answered(Fault::ForeignKeyViolation),
        Response { status: 409, outcome: Err(AppError::ConstraintViolation) }
    );
    assert_eq!(
        answered(Fault::UniqueViolation),
        Response { status: 409, outcome: Err(AppError::ConstraintViolation) }
    );
    assert_eq!(answered(Fault::Other), Response { status: 500, outcome: Err(AppError::Storage) });
}
