//! The closed error taxonomy shared by both executors, with a
//! deterministic, fully specified human-readable rendering.

use vstd::prelude::*;

verus! {

/// A failure of the local persistence layer, carried as the detail
/// text of the underlying cause.
#[derive(Debug, PartialEq, Eq)]
pub enum DatabaseError {
    JsonError(String),
    IOError(String),
    UserDirsError,
}

/// The mathematical value of a [`DatabaseError`].
pub enum DatabaseErrorView {
    JsonError(Seq<char>),
    IOError(Seq<char>),
    UserDirsError,
}

impl View for DatabaseError {
    type V = DatabaseErrorView;

    open spec fn view(&self) -> DatabaseErrorView {
        match self {
            DatabaseError::JsonError(detail) => DatabaseErrorView::JsonError(detail@),
            DatabaseError::IOError(detail) => DatabaseErrorView::IOError(detail@),
            DatabaseError::UserDirsError => DatabaseErrorView::UserDirsError,
        }
    }
}

/// The rendering of a [`DatabaseError`].
pub open spec fn database_error_message(e: DatabaseErrorView) -> Seq<char> {
    match e {
        DatabaseErrorView::JsonError(detail) => "A JSON deserialization error occured: "@
            + detail,
        DatabaseErrorView::IOError(detail) =>
        "An error occurred while writing to config file or directory: "@ + detail,
        DatabaseErrorView::UserDirsError => "Could not get user config directory location"@,
    }
}

impl DatabaseError {
    /// Renders the error as the user-facing message.
    pub fn message(&self) -> (r: String)
        ensures
            r@ == database_error_message(self@),
    {
        match self {
            DatabaseError::JsonError(detail) => String::from_str(
                "A JSON deserialization error occured: ",
            ).concat(detail.as_str()),
            DatabaseError::IOError(detail) => String::from_str(
                "An error occurred while writing to config file or directory: ",
            ).concat(detail.as_str()),
            DatabaseError::UserDirsError => String::from_str(
                "Could not get user config directory location",
            ),
        }
    }
}

/// Every way a command can fail, with enough context to render a
/// message without further lookups.
#[derive(Debug, PartialEq, Eq)]
pub enum CommandError {
    NoTasksSpecified,
    TaskExists { name: String },
    TaskNotFound { name: String },
    DuplicateInput { name: String },
    DataError { what: String, err: DatabaseError },
    HTTPError { name: String, status_code: u16 },
    ConnectionError { name: String },
    UnlinkedError,
}

/// The mathematical value of a [`CommandError`].
pub enum CommandErrorView {
    NoTasksSpecified,
    TaskExists { name: Seq<char> },
    TaskNotFound { name: Seq<char> },
    DuplicateInput { name: Seq<char> },
    DataError { what: Seq<char>, err: DatabaseErrorView },
    HTTPError { name: Seq<char>, status_code: u16 },
    ConnectionError { name: Seq<char> },
    UnlinkedError,
}

impl View for CommandError {
    type V = CommandErrorView;

    open spec fn view(&self) -> CommandErrorView {
        match self {
            CommandError::NoTasksSpecified => CommandErrorView::NoTasksSpecified,
            CommandError::TaskExists { name } => CommandErrorView::TaskExists { name: name@ },
            CommandError::TaskNotFound { name } => CommandErrorView::TaskNotFound { name: name@ },
            CommandError::DuplicateInput { name } => CommandErrorView::DuplicateInput {
                name: name@,
            },
            CommandError::DataError { what, err } => CommandErrorView::DataError {
                what: what@,
                err: err@,
            },
            CommandError::HTTPError { name, status_code } => CommandErrorView::HTTPError {
                name: name@,
                status_code: *status_code,
            },
            CommandError::ConnectionError { name } => CommandErrorView::ConnectionError {
                name: name@,
            },
            CommandError::UnlinkedError => CommandErrorView::UnlinkedError,
        }
    }
}

/// The character standing for one decimal digit.
pub open spec fn digit_char(d: int) -> char {
    if d == 0 {
        '0'
    } else if d == 1 {
        '1'
    } else if d == 2 {
        '2'
    } else if d == 3 {
        '3'
    } else if d == 4 {
        '4'
    } else if d == 5 {
        '5'
    } else if d == 6 {
        '6'
    } else if d == 7 {
        '7'
    } else if d == 8 {
        '8'
    } else {
        '9'
    }
}

/// The decimal rendering of a non-negative integer, most significant
/// digit first, with no leading zero except for the number zero.
pub open spec fn dec_str(n: int) -> Seq<char>
    recommends
        n >= 0,
    decreases n,
{
    if n < 10 {
        seq![digit_char(n)]
    } else {
        dec_str(n / 10) + seq![digit_char(n % 10)]
    }
}

/// One decimal digit as a string slice.
fn digit_str(d: u16) -> (r: &'static str)
    requires
        d < 10,
    ensures
        r@ == seq![digit_char(d as int)],
{
    if d == 0 {
        proof {
            reveal_strlit("0");
            assert("0"@ =~= seq![digit_char(0)]);
        }
        "0"
    } else if d == 1 {
        proof {
            reveal_strlit("1");
            assert("1"@ =~= seq![digit_char(1)]);
        }
        "1"
    } else if d == 2 {
        proof {
            reveal_strlit("2");
            assert("2"@ =~= seq![digit_char(2)]);
        }
        "2"
    } else if d == 3 {
        proof {
            reveal_strlit("3");
            assert("3"@ =~= seq![digit_char(3)]);
        }
        "3"
    } else if d == 4 {
        proof {
            reveal_strlit("4");
            assert("4"@ =~= seq![digit_char(4)]);
        }
        "4"
    } else if d == 5 {
        proof {
            reveal_strlit("5");
            assert("5"@ =~= seq![digit_char(5)]);
        }
        "5"
    } else if d == 6 {
        proof {
            reveal_strlit("6");
            assert("6"@ =~= seq![digit_char(6)]);
        }
        "6"
    } else if d == 7 {
        proof {
            reveal_strlit("7");
            assert("7"@ =~= seq![digit_char(7)]);
        }
        "7"
    } else if d == 8 {
        proof {
            reveal_strlit("8");
            assert("8"@ =~= seq![digit_char(8)]);
        }
        "8"
    } else {
        proof {
            reveal_strlit("9");
            assert("9"@ =~= seq![digit_char(9)]);
        }
        "9"
    }
}

/// Renders a status code in decimal.
pub fn u16_string(n: u16) -> (r: String)
    ensures
        r@ == dec_str(n as int),
    decreases n,
{
    let d = digit_str(n % 10);
    if n < 10 {
        String::from_str(d)
    } else {
        let prefix = u16_string(n / 10);
        prefix.concat(d)
    }
}

/// The rendering of a [`CommandError`]: one fixed message per variant,
/// with the offending task name, status code or cause spliced in.
pub open spec fn error_message(e: CommandErrorView) -> Seq<char> {
    match e {
        CommandErrorView::NoTasksSpecified => "No tasks specified!"@,
        CommandErrorView::TaskExists { name } => "Task "@ + name + " already exists!"@,
        CommandErrorView::TaskNotFound { name } => "Task "@ + name + " not found!"@,
        CommandErrorView::DuplicateInput { name } => "Task "@ + name
            + " was specified multiple times!"@,
        CommandErrorView::DataError { what, err } => "Unable to save "@ + what + ": "@
            + database_error_message(err) + "!"@,
        CommandErrorView::HTTPError { name, status_code } => if name.len() == 0 {
            "HTTP error code: "@ + dec_str(status_code as int) + "!"@
        } else {
            "HTTP error code: "@ + dec_str(status_code as int) + " for task "@ + name
        },
        CommandErrorView::ConnectionError { name } => if name.len() == 0 {
            "Failed to connect to the server!"@
        } else {
            "Failed to connect to the server for task "@ + name
        },
        CommandErrorView::UnlinkedError => "You're already unlinked!"@,
    }
}

impl CommandError {
    /// Renders the error as the user-facing message.
    pub fn message(&self) -> (r: String)
        ensures
            r@ == error_message(self@),
    {
        match self {
            CommandError::NoTasksSpecified => String::from_str("No tasks specified!"),
            CommandError::TaskExists { name } => String::from_str("Task ").concat(
                name.as_str(),
            ).concat(" already exists!"),
            CommandError::TaskNotFound { name } => String::from_str("Task ").concat(
                name.as_str(),
            ).concat(" not found!"),
            CommandError::DuplicateInput { name } => String::from_str("Task ").concat(
                name.as_str(),
            ).concat(" was specified multiple times!"),
            CommandError::DataError { what, err } => {
                let cause = err.message();
                String::from_str("Unable to save ").concat(what.as_str()).concat(": ").concat(
                    cause.as_str(),
                ).concat("!")
            },
            CommandError::HTTPError { name, status_code } => {
                let code = u16_string(*status_code);
                if name.as_str().is_empty() {
                    String::from_str("HTTP error code: ").concat(code.as_str()).concat("!")
                } else {
                    String::from_str("HTTP error code: ").concat(code.as_str()).concat(
                        " for task ",
                    ).concat(name.as_str())
                }
            },
            CommandError::ConnectionError { name } => {
                if name.as_str().is_empty() {
                    String::from_str("Failed to connect to the server!")
                } else {
                    String::from_str("Failed to connect to the server for task ").concat(
                        name.as_str(),
                    )
                }
            },
            CommandError::UnlinkedError => String::from_str("You're already unlinked!"),
        }
    }
}

} // verus!
