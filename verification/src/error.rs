//! Error taxonomy shared by every component, with the English diagnostic
//! text and the softened message shown to end users.
use vstd::prelude::*;

verus! {

/// Everything that can go wrong while handling an interaction.  Database and
/// platform failures carry their cause as text; the user-facing rendering
/// hides those details.
#[derive(Debug, Clone)]
pub enum AppError {
    NameExists,
    NotFound(&'static str),
    LimitExceeded(&'static str),
    Permission(String),
    Database(String),
    Discord(String),
    InvalidInput(String),
    Internal(String),
}

impl AppError {
    /// The diagnostic text of this error.
    pub open spec fn spec_message(self) -> Seq<char> {
        match self {
            AppError::NameExists => "A panel with this name already exists."@,
            AppError::NotFound(resource) => resource@ + " not found."@,
            AppError::LimitExceeded(resource) => resource@ + " limit exceeded."@,
            AppError::Permission(msg) => msg@,
            AppError::Database(cause) => "Database error: "@ + cause@,
            AppError::Discord(msg) => "Discord error: "@ + msg@,
            AppError::InvalidInput(msg) => msg@,
            AppError::Internal(msg) => "Internal error: "@ + msg@,
        }
    }

    /// Full diagnostic text, for logs.
    pub fn message(&self) -> (r: String)
        ensures
            r@ == self.spec_message(),
    {
        match self {
            AppError::NameExists => String::from_str("A panel with this name already exists."),
            AppError::NotFound(resource) => {
                let mut s = String::from_str(resource);
                s.append(" not found.");
                s
            },
            AppError::LimitExceeded(resource) => {
                let mut s = String::from_str(resource);
                s.append(" limit exceeded.");
                s
            },
            AppError::Permission(msg) => msg.clone(),
            AppError::Database(cause) => {
                let mut s = String::from_str("Database error: ");
                s.append(cause.as_str());
                s
            },
            AppError::Discord(msg) => {
                let mut s = String::from_str("Discord error: ");
                s.append(msg.as_str());
                s
            },
            AppError::InvalidInput(msg) => msg.clone(),
            AppError::Internal(msg) => {
                let mut s = String::from_str("Internal error: ");
                s.append(msg.as_str());
                s
            },
        }
    }

    /// The message shown to the user who triggered the interaction.
    /// Detail-free generic text for database, platform and internal errors;
    /// verbatim for everything the user can act on.
    pub open spec fn spec_user_message(self) -> Seq<char> {
        match self {
            AppError::NameExists => "この名前のパネルは既に存在します。"@,
            AppError::NotFound(resource) => if resource@ == "Panel"@ {
                "パネルが見つかりませんでした。"@
            } else if resource@ == "Role"@ {
                "ロールが見つかりませんでした。"@
            } else {
                "リソースが見つかりませんでした。"@
            },
            AppError::LimitExceeded(_) => "1パネルあたり最大25ロールまでです。"@,
            AppError::Permission(msg) => msg@,
            AppError::Database(_) => "エラーが発生しました。もう一度お試しください。"@,
            AppError::Discord(_) => "エラーが発生しました。もう一度お試しください。"@,
            AppError::InvalidInput(msg) => msg@,
            AppError::Internal(_) => "エラーが発生しました。もう一度お試しください。"@,
        }
    }

    pub fn user_message(&self) -> (r: String)
        ensures
            r@ == self.spec_user_message(),
    {
        match self {
            AppError::NameExists => String::from_str("この名前のパネルは既に存在します。"),
            AppError::NotFound(resource) => {
                if crate::model::str_eq(resource, "Panel") {
                    String::from_str("パネルが見つかりませんでした。")
                } else if crate::model::str_eq(resource, "Role") {
                    String::from_str("ロールが見つかりませんでした。")
                } else {
                    String::from_str("リソースが見つかりませんでした。")
                }
            },
            AppError::LimitExceeded(_) => String::from_str("1パネルあたり最大25ロールまでです。"),
            AppError::Permission(msg) => msg.clone(),
            AppError::Database(_) => String::from_str("エラーが発生しました。もう一度お試しください。"),
            AppError::Discord(_) => String::from_str("エラーが発生しました。もう一度お試しください。"),
            AppError::InvalidInput(msg) => msg.clone(),
            AppError::Internal(_) => String::from_str("エラーが発生しました。もう一度お試しください。"),
        }
    }
}

} // verus!
