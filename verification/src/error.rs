use vstd::prelude::*;
use vstd::std_specs::convert::FromSpecImpl;
use vstd::string::StringExecFns;

verus! {

/// `std::io::Error`, carried as an opaque type inside [`GraphitError::Io`].
#[verifier::external_type_specification]
#[verifier::external_body]
pub struct ExIoError(std::io::Error);

/// Errors of the graph library.
#[derive(Debug)]
pub enum GraphitError {
    /// No graph of the given name.
    NotFound(String),
    /// An I/O operation failed.
    Io(std::io::Error),
}

/// The text of an I/O error, as `std::io::Error`'s `Display` impl writes it
/// (through `format!`). That text may come from the operating system's
/// message for the error code, so the contract leaves it unsaid.
#[verifier::external_body]
fn io_error_text(e: &std::io::Error) -> String {
    format!("{}", e)
}

impl GraphitError {
    /// The message of a `NotFound` error for `name`.
    pub open spec fn not_found_message(name: Seq<char>) -> Seq<char> {
        "Graphit '"@ + name + "' not found"@
    }

    /// The human-readable message of the error: `Graphit '<name>' not found`,
    /// or `i/o error: ` followed by the I/O error's own text.
    pub fn message(&self) -> (m: String)
        ensures
            match self {
                GraphitError::NotFound(name) => m@ == Self::not_found_message(name@),
                GraphitError::Io(_) => "i/o error: "@.is_prefix_of(m@),
            },
    {
        match self {
            GraphitError::NotFound(name) => {
                let mut m = String::from_str("Graphit '");
                m.append(name.as_str());
                m.append("' not found");
                m
            },
            GraphitError::Io(e) => {
                let mut m = String::from_str("i/o error: ");
                let text = io_error_text(e);
                m.append(text.as_str());
                m
            },
        }
    }
}

impl From<std::io::Error> for GraphitError {
    fn from(err: std::io::Error) -> (r: Self) {
        GraphitError::Io(err)
    }
}

impl FromSpecImpl<std::io::Error> for GraphitError {
    open spec fn obeys_from_spec() -> bool {
        true
    }

    open spec fn from_spec(err: std::io::Error) -> Self {
        GraphitError::Io(err)
    }
}

} // verus!
