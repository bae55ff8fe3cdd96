use role_panel::error::AppError;

#[test]
fn display_name_exists() {
    let err = AppError::NameExists;
    assert_eq!(err.message(), "A panel with this name already exists.");
}

#[test]
fn display_not_found() {
    let err = AppError::NotFound("Panel");
    assert_eq!(err.message(), "Panel not found.");

    let err = AppError::NotFound("Role");
    assert_eq!(err.message(), "Role not found.");
}

#[test]
fn display_limit_exceeded() {
    let err = AppError::LimitExceeded("Role");
    assert_eq!(err.message(), "Role limit exceeded.");
}

#[test]
fn display_permission() {
    let err = AppError::Permission("You need admin rights".to_string());
    assert_eq!(err.message(), "You need admin rights");
}

#[test]
fn display_discord() {
    let err = AppError::Discord("API error".to_string());
    assert_eq!(err.message(), "Discord error: API error");
}

#[test]
fn display_invalid_input() {
    let err = AppError::InvalidInput("Invalid name".to_string());
    assert_eq!(err.message(), "Invalid name");
}

#[test]
fn display_internal() {
    let err = AppError::Internal("Something broke".to_string());
    assert_eq!(err.message(), "Internal error: Something broke");
}

#[test]
fn user_message_name_exists() {
    let err = AppError::NameExists;
    assert_eq!(err.user_message(), "この名前のパネルは既に存在します。");
}

#[test]
fn user_message_not_found_panel() {
    let err = AppError::NotFound("Panel");
    assert_eq!(err.user_message(), "パネルが見つかりませんでした。");
}

#[test]
fn user_message_not_found_role() {
    let err = AppError::NotFound("Role");
    assert_eq!(err.user_message(), "ロールが見つかりませんでした。");
}

#[test]
fn user_message_not_found_unknown() {
    let err = AppError::NotFound("Something");
    assert_eq!(err.user_message(), "リソースが見つかりませんでした。");
}

#[test]
fn user_message_limit_exceeded() {
    let err = AppError::LimitExceeded("Role");
    assert_eq!(err.user_message(), "1パネルあたり最大25ロールまでです。");
}

#[test]
fn user_message_permission_shows_custom_message() {
    let err = AppError::Permission("Custom permission error".to_string());
    assert_eq!(err.user_message(), "Custom permission error");
}

#[test]
fn user_message_database_hides_details() {
    let err = AppError::Database("no rows returned by a query that expected to return at least one row".to_string());
    assert_eq!(
        err.user_message(),
        "エラーが発生しました。もう一度お試しください。"
    );
}

#[test]
fn user_message_discord_hides_details() {
    let err = AppError::Discord("Detailed API error".to_string());
    assert_eq!(
        err.user_message(),
        "エラーが発生しました。もう一度お試しください。"
    );
}

#[test]
fn user_message_invalid_input_shows_message() {
    let err = AppError::InvalidInput("Name too long".to_string());
    assert_eq!(err.user_message(), "Name too long");
}

#[test]
fn user_message_internal_hides_details() {
    let err = AppError::Internal("Stack trace...".to_string());
    assert_eq!(
        err.user_message(),
        "エラーが発生しました。もう一度お試しください。"
    );
}
