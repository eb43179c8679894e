//! The command-line model: the flags as parsed, and the command they select,
//! with the arguments that command requires.

use vstd::prelude::*;
use vstd::string::StringExecFns;

verus! {

/// The parsed command-line flags.
pub struct Cli {
    pub add: bool,
    pub encode: bool,
    pub decode: bool,
    pub list: bool,
    pub delete: bool,
    pub update: bool,
    /// Name of the entry (with `--add` or `--update`).
    pub name: Option<String>,
    /// Filename of the entry (with `--add` or `--update`).
    pub filename: Option<String>,
    /// Id of the entry (with `--delete` or `--update`).
    pub id: Option<i64>,
    /// Input image path (with `--encode` or `--decode`).
    pub input: Option<String>,
    /// Output image path (with `--encode`).
    pub output: Option<String>,
    /// Data to hide (with `--encode`).
    pub data: Option<String>,
}

/// The command that the flags select, with its arguments.
#[allow(inconsistent_fields)]
pub enum Command {
    Add { name: String, filename: String },
    Encode { input: String, output: String, data: String },
    Decode { input: String },
    List,
    Delete { id: i64 },
    Update { id: i64, name: Option<String>, filename: Option<String> },
    Help,
}

/// A flag that the selected command requires and that is absent.
#[derive(Debug, Clone, Copy, PartialEq, Eq, Structural)]
pub enum MissingArgument {
    NameForAdd,
    FilenameForAdd,
    InputForEncode,
    OutputForEncode,
    DataForEncode,
    InputForDecode,
    IdForDelete,
    IdForUpdate,
}

/// The text that reports a missing argument.
pub open spec fn spec_missing_message(m: MissingArgument) -> Seq<char> {
    match m {
        MissingArgument::NameForAdd => "--name is required for --add"@,
        MissingArgument::FilenameForAdd => "--filename is required for --add"@,
        MissingArgument::InputForEncode => "--input is required for --encode"@,
        MissingArgument::OutputForEncode => "--output is required for --encode"@,
        MissingArgument::DataForEncode => "--data is required for --encode"@,
        MissingArgument::InputForDecode => "--input is required for --decode"@,
        MissingArgument::IdForDelete => "--id is required for --delete"@,
        MissingArgument::IdForUpdate => "--id is required for --update"@,
    }
}

impl MissingArgument {
    /// The text that reports this missing argument.
    pub fn message(&self) -> (res: String)
        ensures
            res@ == spec_missing_message(*self),
    {
        match self {
            MissingArgument::NameForAdd => String::from_str("--name is required for --add"),
            MissingArgument::FilenameForAdd => String::from_str("--filename is required for --add"),
            MissingArgument::InputForEncode => String::from_str("--input is required for --encode"),
            MissingArgument::OutputForEncode => String::from_str("--output is required for --encode"),
            MissingArgument::DataForEncode => String::from_str("--data is required for --encode"),
            MissingArgument::InputForDecode => String::from_str("--input is required for --decode"),
            MissingArgument::IdForDelete => String::from_str("--id is required for --delete"),
            MissingArgument::IdForUpdate => String::from_str("--id is required for --update"),
        }
    }
}

/// The command that the flags select: the first of add, encode, decode, list,
/// delete and update that is set, else help; with the first required argument
/// that is absent as the error.
pub open spec fn spec_command(cli: Cli) -> Result<Command, MissingArgument> {
    if cli.add {
        match (cli.name, cli.filename) {
            (None, _) => Err(MissingArgument::NameForAdd),
            (Some(_), None) => Err(MissingArgument::FilenameForAdd),
            (Some(name), Some(filename)) => Ok(Command::Add { name, filename }),
        }
    } else if cli.encode {
        match (cli.input, cli.output, cli.data) {
            (None, _, _) => Err(MissingArgument::InputForEncode),
            (Some(_), None, _) => Err(MissingArgument::OutputForEncode),
            (Some(_), Some(_), None) => Err(MissingArgument::DataForEncode),
            (Some(input), Some(output), Some(data)) => Ok(Command::Encode { input, output, data }),
        }
    } else if cli.decode {
        match cli.input {
            None => Err(MissingArgument::InputForDecode),
            Some(input) => Ok(Command::Decode { input }),
        }
    } else if cli.list {
        Ok(Command::List)
    } else if cli.delete {
        match cli.id {
            None => Err(MissingArgument::IdForDelete),
            Some(id) => Ok(Command::Delete { id }),
        }
    } else if cli.update {
        match cli.id {
            None => Err(MissingArgument::IdForUpdate),
            Some(id) => Ok(Command::Update { id, name: cli.name, filename: cli.filename }),
        }
    } else {
        Ok(Command::Help)
    }
}

/// Each command is selected by its flag when no earlier flag is set, carries
/// its arguments exactly as given, and reports the first required argument
/// that is absent; with no command flag the result is help.
pub proof fn lemma_command_selection(cli: Cli)
    ensures
        cli.add && cli.name is Some && cli.filename is Some
            ==> spec_command(cli) == Ok::<Command, MissingArgument>(Command::Add { name: cli.name->Some_0, filename: cli.filename->Some_0 }),
        cli.add && cli.name is None ==> spec_command(cli) == Err::<Command, MissingArgument>(MissingArgument::NameForAdd),
        cli.add && cli.name is Some && cli.filename is None
            ==> spec_command(cli) == Err::<Command, MissingArgument>(MissingArgument::FilenameForAdd),
        !cli.add && cli.encode && cli.input is Some && cli.output is Some && cli.data is Some
            ==> spec_command(cli) == Ok::<Command, MissingArgument>(Command::Encode {
                input: cli.input->Some_0,
                output: cli.output->Some_0,
                data: cli.data->Some_0,
            }),
        !cli.add && cli.encode && cli.input is None ==> spec_command(cli) == Err::<Command, MissingArgument>(MissingArgument::InputForEncode),
        !cli.add && cli.encode && cli.input is Some && cli.output is None
            ==> spec_command(cli) == Err::<Command, MissingArgument>(MissingArgument::OutputForEncode),
        !cli.add && cli.encode && cli.input is Some && cli.output is Some && cli.data is None
            ==> spec_command(cli) == Err::<Command, MissingArgument>(MissingArgument::DataForEncode),
        !cli.add && !cli.encode && cli.decode && cli.input is Some
            ==> spec_command(cli) == Ok::<Command, MissingArgument>(Command::Decode { input: cli.input->Some_0 }),
        !cli.add && !cli.encode && cli.decode && cli.input is None
            ==> spec_command(cli) == Err::<Command, MissingArgument>(MissingArgument::InputForDecode),
        !cli.add && !cli.encode && !cli.decode && cli.list ==> spec_command(cli) == Ok::<Command, MissingArgument>(Command::List),
        !cli.add && !cli.encode && !cli.decode && !cli.list && cli.delete && cli.id is Some
            ==> spec_command(cli) == Ok::<Command, MissingArgument>(Command::Delete { id: cli.id->Some_0 }),
        !cli.add && !cli.encode && !cli.decode && !cli.list && cli.delete && cli.id is None
            ==> spec_command(cli) == Err::<Command, MissingArgument>(MissingArgument::IdForDelete),
        !cli.add && !cli.encode && !cli.decode && !cli.list && !cli.delete && cli.update && cli.id is Some
            ==> spec_command(cli) == Ok::<Command, MissingArgument>(Command::Update { id: cli.id->Some_0, name: cli.name, filename: cli.filename }),
        !cli.add && !cli.encode && !cli.decode && !cli.list && !cli.delete && cli.update && cli.id is None
            ==> spec_command(cli) == Err::<Command, MissingArgument>(MissingArgument::IdForUpdate),
        !cli.add && !cli.encode && !cli.decode && !cli.list && !cli.delete && !cli.update
            ==> spec_command(cli) == Ok::<Command, MissingArgument>(Command::Help),
{
}

impl Cli {
    /// Selects the command and takes its arguments out of the flags.
    pub fn into_command(self) -> (res: Result<Command, MissingArgument>)
        ensures
            res == spec_command(self),
            self.add && self.name is Some && self.filename is Some
                ==> res == Ok::<Command, MissingArgument>(Command::Add { name: self.name->Some_0, filename: self.filename->Some_0 }),
            self.add && self.name is None ==> res == Err::<Command, MissingArgument>(MissingArgument::NameForAdd),
            self.add && self.name is Some && self.filename is None
                ==> res == Err::<Command, MissingArgument>(MissingArgument::FilenameForAdd),
            !self.add && self.encode && self.input is Some && self.output is Some && self.data is Some
                ==> res == Ok::<Command, MissingArgument>(Command::Encode {
                    input: self.input->Some_0,
                    output: self.output->Some_0,
                    data: self.data->Some_0,
                }),
            !self.add && self.encode && self.input is None ==> res == Err::<Command, MissingArgument>(MissingArgument::InputForEncode),
            !self.add && self.encode && self.input is Some && self.output is None
                ==> res == Err::<Command, MissingArgument>(MissingArgument::OutputForEncode),
            !self.add && self.encode && self.input is Some && self.output is Some && self.data is None
                ==> res == Err::<Command, MissingArgument>(MissingArgument::DataForEncode),
            !self.add && !self.encode && self.decode && self.input is Some
                ==> res == Ok::<Command, MissingArgument>(Command::Decode { input: self.input->Some_0 }),
            !self.add && !self.encode && self.decode && self.input is None
                ==> res == Err::<Command, MissingArgument>(MissingArgument::InputForDecode),
            !self.add && !self.encode && !self.decode && self.list ==> res == Ok::<Command, MissingArgument>(Command::List),
            !self.add && !self.encode && !self.decode && !self.list && self.delete && self.id is Some
                ==> res == Ok::<Command, MissingArgument>(Command::Delete { id: self.id->Some_0 }),
            !self.add && !self.encode && !self.decode && !self.list && self.delete && self.id is None
                ==> res == Err::<Command, MissingArgument>(MissingArgument::IdForDelete),
            !self.add && !self.encode && !self.decode && !self.list && !self.delete && self.update && self.id is Some
                ==> res == Ok::<Command, MissingArgument>(Command::Update { id: self.id->Some_0, name: self.name, filename: self.filename }),
            !self.add && !self.encode && !self.decode && !self.list && !self.delete && self.update && self.id is None
                ==> res == Err::<Command, MissingArgument>(MissingArgument::IdForUpdate),
            !self.add && !self.encode && !self.decode && !self.list && !self.delete && !self.update
                ==> res == Ok::<Command, MissingArgument>(Command::Help),
    {
        if self.add {
            match (self.name, self.filename) {
                (None, _) => Err(MissingArgument::NameForAdd),
                (Some(_), None) => Err(MissingArgument::FilenameForAdd),
                (Some(name), Some(filename)) => Ok(Command::Add { name, filename }),
            }
        } else if self.encode {
            match (self.input, self.output, self.data) {
                (None, _, _) => Err(MissingArgument::InputForEncode),
                (Some(_), None, _) => Err(MissingArgument::OutputForEncode),
                (Some(_), Some(_), None) => Err(MissingArgument::DataForEncode),
                (Some(input), Some(output), Some(data)) => Ok(Command::Encode { input, output, data }),
            }
        } else if self.decode {
            match self.input {
                None => Err(MissingArgument::InputForDecode),
                Some(input) => Ok(Command::Decode { input }),
            }
        } else if self.list {
            Ok(Command::List)
        } else if self.delete {
            match self.id {
                None => Err(MissingArgument::IdForDelete),
                Some(id) => Ok(Command::Delete { id }),
            }
        } else if self.update {
            match self.id {
                None => Err(MissingArgument::IdForUpdate),
                Some(id) => Ok(Command::Update { id, name: self.name, filename: self.filename }),
            }
        } else {
            Ok(Command::Help)
        }
    }
}

} // verus!
