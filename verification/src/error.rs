use vstd::prelude::*;

verus! {

/// Unexpected errors that can occur while loading a schema or driving a
/// validation. `FailFast` is internal: the engine converts it into a normal
/// return with the accumulated context.
#[derive(Debug)]
pub enum Error {
    NotYetImplemented,
    IOError(String),
    FileNotFound(String),
    YamlParsingError(String),
    FloatParsingError(String),
    RegexParsingError(String),
    UnsupportedType(String),
    GenericError(String),
    FailFast,
}

/// The message that each error displays.
pub open spec fn error_message(e: Error) -> Seq<char> {
    match e {
        Error::NotYetImplemented => "Not yet implemented!"@,
        Error::IOError(s) => "IO error: "@ + s@,
        Error::FileNotFound(s) => "File not found: "@ + s@,
        Error::YamlParsingError(s) => "YAML parsing error: "@ + s@,
        Error::FloatParsingError(s) => "Float parsing error: "@ + s@,
        Error::RegexParsingError(s) => "Regex parsing error: "@ + s@,
        Error::UnsupportedType(s) => "Unsupported type '"@ + s@ + "'!"@,
        Error::GenericError(s) => "Generic YAML schema error: "@ + s@,
        Error::FailFast => "Fail fast signal"@,
    }
}

impl Error {
    /// Renders this error as its display message.
    pub fn message(&self) -> (r: String)
        ensures
            r@ == error_message(*self),
    {
        proof {
            reveal_strlit("Not yet implemented!");
            reveal_strlit("IO error: ");
            reveal_strlit("File not found: ");
            reveal_strlit("YAML parsing error: ");
            reveal_strlit("Float parsing error: ");
            reveal_strlit("Regex parsing error: ");
            reveal_strlit("Unsupported type '");
            reveal_strlit("'!");
            reveal_strlit("Generic YAML schema error: ");
            reveal_strlit("Fail fast signal");
            reveal_strlit("");
        }
        let mut out = String::new();
        match self {
            Error::NotYetImplemented => {
                out.append("Not yet implemented!");
            },
            Error::IOError(s) => {
                out.append("IO error: ");
                out.append(s.as_str());
            },
            Error::FileNotFound(s) => {
                out.append("File not found: ");
                out.append(s.as_str());
            },
            Error::YamlParsingError(s) => {
                out.append("YAML parsing error: ");
                out.append(s.as_str());
            },
            Error::FloatParsingError(s) => {
                out.append("Float parsing error: ");
                out.append(s.as_str());
            },
            Error::RegexParsingError(s) => {
                out.append("Regex parsing error: ");
                out.append(s.as_str());
            },
            Error::UnsupportedType(s) => {
                out.append("Unsupported type '");
                out.append(s.as_str());
                out.append("'!");
            },
            Error::GenericError(s) => {
                out.append("Generic YAML schema error: ");
                out.append(s.as_str());
            },
            Error::FailFast => {
                out.append("Fail fast signal");
            },
        }
        proof {
            assert(out@ =~= error_message(*self));
        }
        out
    }
}

} // verus!
