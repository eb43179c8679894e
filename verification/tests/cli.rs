use stegrust::cli::{Cli, Command, MissingArgument};

fn flags() -> Cli {
    Cli {
        add: false,
        encode: false,
        decode: false,
        list: false,
        delete: false,
        update: false,
        name: None,
        filename: None,
        id: None,
        input: None,
        output: None,
        data: None,
    }
}

#[test]
fn add_needs_name_then_filename() {
    let mut c = flags();
    c.add = true;
    assert!(matches!(c.into_command(), Err(MissingArgument::NameForAdd)));
    let mut c = flags();
    c.add = true;
    c.name = Some("github".to_string());
    assert!(matches!(c.into_command(), Err(MissingArgument::FilenameForAdd)));
    let mut c = flags();
    c.add = true;
    c.name = Some("github".to_string());
    c.filename = Some("stego.png".to_string());
    match c.into_command() {
        Ok(Command::Add { name, filename }) => {
            assert_eq!(name, "github");
            assert_eq!(filename, "stego.png");
        }
        _ => panic!("expected add"),
    }
}

#[test]
fn encode_needs_input_output_data() {
    let mut c = flags();
    c.encode = true;
    c.output = Some("o".to_string());
    c.data = Some("d".to_string());
    assert!(matches!(c.into_command(), Err(MissingArgument::InputForEncode)));
    let mut c = flags();
    c.encode = true;
    c.input = Some("i".to_string());
    c.data = Some("d".to_string());
    assert!(matches!(c.into_command(), Err(MissingArgument::OutputForEncode)));
    let mut c = flags();
    c.encode = true;
    c.input = Some("i".to_string());
    c.output = Some("o".to_string());
    assert!(matches!(c.into_command(), Err(MissingArgument::DataForEncode)));
    let mut c = flags();
    c.encode = true;
    c.input = Some("cover.png".to_string());
    c.output = Some("stego.png".to_string());
    c.data = Some("github_token: ghp_123456".to_string());
    match c.into_command() {
        Ok(Command::Encode { input, output, data }) => {
            assert_eq!((input.as_str(), output.as_str(), data.as_str()), ("cover.png", "stego.png", "github_token: ghp_123456"));
        }
        _ => panic!("expected encode"),
    }
}

#[test]
fn decode_list_delete_update_help() {
    let mut c = flags();
    c.decode = true;
    assert!(matches!(c.into_command(), Err(MissingArgument::InputForDecode)));
    let mut c = flags();
    c.decode = true;
    c.input = Some("stego.png".to_string());
    assert!(matches!(c.into_command(), Ok(Command::Decode { input }) if input == "stego.png"));
    let mut c = flags();
    c.list = true;
    assert!(matches!(c.into_command(), Ok(Command::List)));
    let mut c = flags();
    c.delete = true;
    assert!(matches!(c.into_command(), Err(MissingArgument::IdForDelete)));
    let mut c = flags();
    c.delete = true;
    c.id = Some(1);
    assert!(matches!(c.into_command(), Ok(Command::Delete { id: 1 })));
    let mut c = flags();
    c.update = true;
    assert!(matches!(c.into_command(), Err(MissingArgument::IdForUpdate)));
    let mut c = flags();
    c.update = true;
    c.id = Some(1);
    c.name = Some("github-token".to_string());
    match c.into_command() {
        Ok(Command::Update { id, name, filename }) => {
            assert_eq!(id, 1);
            assert_eq!(name.as_deref(), Some("github-token"));
            assert_eq!(filename, None);
        }
        _ => panic!("expected update"),
    }
    assert!(matches!(flags().into_command(), Ok(Command::Help)));
}

#[test]
fn first_selected_flag_wins() {
    let mut c = flags();
    c.list = true;
    c.delete = true;
    assert!(matches!(c.into_command(), Ok(Command::List)));
}

#[test]
fn missing_argument_messages() {
    assert_eq!(MissingArgument::NameForAdd.message(), "--name is required for --add");
    assert_eq!(MissingArgument::FilenameForAdd.message(), "--filename is required for --add");
    assert_eq!(MissingArgument::InputForEncode.message(), "--input is required for --encode");
    assert_eq!(MissingArgument::OutputForEncode.message(), "--output is required for --encode");
    assert_eq!(MissingArgument::DataForEncode.message(), "--data is required for --encode");
    assert_eq!(MissingArgument::InputForDecode.message(), "--input is required for --decode");
    assert_eq!(MissingArgument::IdForDelete.message(), "--id is required for --delete");
    assert_eq!(MissingArgument::IdForUpdate.message(), "--id is required for --update");
}
