use vstd::prelude::*;

verus! {

/// The command-line options, as plain data: the schema files, the
/// fail-fast flag and the input file. The front end fills this in and the
/// decision below says what to do with it.
#[derive(Debug)]
pub struct Opts {
    pub command: Option<Commands>,
    pub schemas: Vec<String>,
    pub fail_fast: bool,
    pub file: Option<String>,
}

/// The subcommands the front end understands.
#[derive(Debug)]
pub enum Commands {
    Version,
}

/// What the front end should do for the given options: print the version,
/// fail for a missing schema or input file, or validate.
#[derive(Debug, PartialEq, Eq, Structural)]
pub enum CliAction {
    PrintVersion,
    MissingSchema,
    MissingFile,
    Validate,
}

impl Opts {
    /// The decision of the command dispatch: `version` wins, then the
    /// required arguments are checked in order.
    pub fn action(&self) -> (r: CliAction)
        ensures
            r == (if self.command is Some {
                CliAction::PrintVersion
            } else if self.schemas@.len() == 0 {
                CliAction::MissingSchema
            } else if self.file is None {
                CliAction::MissingFile
            } else {
                CliAction::Validate
            }),
    {
        if self.command.is_some() {
            CliAction::PrintVersion
        } else if self.schemas.len() == 0 {
            CliAction::MissingSchema
        } else if self.file.is_none() {
            CliAction::MissingFile
        } else {
            CliAction::Validate
        }
    }
}

/// A boolean schema as its own record: it matches exactly the boolean
/// values.
#[derive(Debug, PartialEq, Eq, Structural)]
pub struct BooleanSchema;

impl BooleanSchema {
    /// Whether the node is a boolean, which is all this schema asks.
    pub fn matches(&self, value: &crate::node::Node) -> (r: bool)
        ensures
            r == (value.data is Boolean),
    {
        match &value.data {
            crate::node::NodeData::Boolean(_) => true,
            _ => false,
        }
    }
}

/// A bundle of strings, as the front end gathers them before handing them
/// to the library.
#[derive(Debug)]
pub struct Struct {
    pub strings: Vec<String>,
}

impl Struct {
    /// An empty bundle.
    pub fn new() -> (r: Struct)
        ensures
            r.strings@.len() == 0,
    {
        Struct { strings: Vec::new() }
    }
}

/// Hands a bundle through unchanged.
pub fn make_t(s: Struct) -> (r: Struct)
    ensures
        r == s,
{
    s
}

} // verus!
