use rojo_cli::matches::Matches;
use rojo_cli::schema::{Flag, Subcommand};

fn flag<'a>(flags: &'a [Flag], name: &str) -> &'a Flag {
    flags.iter().find(|f| f.name == name).unwrap()
}

#[test]
fn there_are_four_subcommands() {
    assert_eq!(
        Subcommand::all(),
        vec![Subcommand::Init, Subcommand::Serve, Subcommand::Build, Subcommand::Upload]
    );
}

#[test]
fn each_subcommand_has_its_word() {
    assert_eq!(Subcommand::Init.name(), "init");
    assert_eq!(Subcommand::Serve.name(), "serve");
    assert_eq!(Subcommand::Build.name(), "build");
    assert_eq!(Subcommand::Upload.name(), "upload");
}

#[test]
fn a_word_selects_its_subcommand() {
    assert_eq!(Subcommand::from_name("init"), Some(Subcommand::Init));
    assert_eq!(Subcommand::from_name("serve"), Some(Subcommand::Serve));
    assert_eq!(Subcommand::from_name("build"), Some(Subcommand::Build));
    assert_eq!(Subcommand::from_name("upload"), Some(Subcommand::Upload));
    for subcommand in Subcommand::all() {
        assert_eq!(Subcommand::from_name(subcommand.name()), Some(subcommand));
    }
}

#[test]
fn any_other_word_selects_nothing() {
    assert_eq!(Subcommand::from_name(""), None);
    assert_eq!(Subcommand::from_name("Init"), None);
    assert_eq!(Subcommand::from_name("init "), None);
    assert_eq!(Subcommand::from_name("help"), None);
    assert_eq!(Subcommand::from_name("builds"), None);
    assert_eq!(Subcommand::from_name("serv"), None);
}

#[test]
fn each_subcommand_is_described() {
    assert_eq!(Subcommand::Init.about(), "Creates a new Rojo project");
    assert_eq!(
        Subcommand::Serve.about(),
        "Serves the project's files for use with the Rojo Studio plugin."
    );
    assert_eq!(Subcommand::Build.about(), "Generates an rbxmx model file from the project.");
    assert_eq!(
        Subcommand::Upload.about(),
        "Generates a place or model file out of the project and uploads it to Roblox."
    );
}

#[test]
fn init_takes_a_path_and_a_kind() {
    let flags = Subcommand::Init.flags();
    assert_eq!(flags.len(), 2);
    assert_eq!(
        flags[0],
        Flag {
            name: "PATH",
            long: None,
            short: None,
            required: false,
            help: "Path to the place to create the project. Defaults to the current directory.",
        }
    );
    assert_eq!(
        flags[1],
        Flag {
            name: "kind",
            long: Some("kind"),
            short: None,
            required: false,
            help: "The kind of project to create, 'place' or 'model'. Defaults to place.",
        }
    );
}

#[test]
fn serve_takes_a_project_and_a_port() {
    let flags = Subcommand::Serve.flags();
    assert_eq!(flags.len(), 2);
    assert_eq!(
        flags[0],
        Flag {
            name: "PROJECT",
            long: None,
            short: None,
            required: false,
            help: "Path to the project to serve. Defaults to the current directory.",
        }
    );
    assert_eq!(
        flags[1],
        Flag {
            name: "port",
            long: Some("port"),
            short: None,
            required: false,
            help: "The port to listen on. Defaults to 8000.",
        }
    );
}

#[test]
fn build_takes_a_project_and_requires_an_output() {
    let flags = Subcommand::Build.flags();
    assert_eq!(flags.len(), 2);
    assert_eq!(flags[0].name, "PROJECT");
    assert!(flags[0].is_positional());
    assert!(!flags[0].required);
    assert_eq!(
        flags[1],
        Flag {
            name: "output",
            long: Some("output"),
            short: Some('o'),
            required: true,
            help: "Where to output the result.",
        }
    );
}

#[test]
fn upload_requires_a_cookie_and_an_asset_id() {
    let flags = Subcommand::Upload.flags();
    let names: Vec<&str> = flags.iter().map(|f| f.name).collect();
    assert_eq!(names, vec!["PROJECT", "kind", "cookie", "asset_id"]);
    assert!(!flag(&flags, "PROJECT").required);
    assert!(!flag(&flags, "kind").required);
    assert!(flag(&flags, "cookie").required);
    assert!(flag(&flags, "asset_id").required);
    assert_eq!(flag(&flags, "cookie").long, Some("cookie"));
    assert_eq!(flag(&flags, "asset_id").long, Some("asset_id"));
    assert_eq!(flag(&flags, "kind").long, Some("kind"));
    assert_eq!(flag(&flags, "cookie").short, None);
    assert_eq!(
        flag(&flags, "PROJECT").help,
        "Path to the project to upload. Defaults to the current directory."
    );
    assert_eq!(
        flag(&flags, "kind").help,
        "The kind of asset to generate, 'place', or 'model'. Defaults to place."
    );
    assert_eq!(flag(&flags, "cookie").help, "Security cookie to authenticate with.");
    assert_eq!(flag(&flags, "asset_id").help, "Asset ID to upload to.");
}

#[test]
fn only_positional_arguments_take_no_value_of_their_own() {
    for subcommand in Subcommand::all() {
        for flag in subcommand.flags() {
            assert_eq!(flag.is_positional(), flag.long.is_none() && flag.short.is_none());
            assert_eq!(flag.takes_value(), !flag.is_positional());
        }
    }
    assert!(Flag::positional("PATH", "a path").is_positional());
    assert!(Flag::long_option("kind", false, "a kind").takes_value());
    assert_eq!(
        Flag::long_option("cookie", true, "a cookie"),
        Flag { name: "cookie", long: Some("cookie"), short: None, required: true, help: "a cookie" }
    );
}

#[test]
fn init_and_serve_accept_any_arguments() {
    let empty = Matches::new();
    assert!(Subcommand::Init.accepts(&empty));
    assert!(Subcommand::Serve.accepts(&empty));
    let mut some = Matches::new();
    some.insert("port", "abc");
    assert!(Subcommand::Serve.accepts(&some));
}

#[test]
fn build_is_accepted_only_with_an_output() {
    let mut matches = Matches::new();
    assert!(!Subcommand::Build.accepts(&matches));
    matches.insert("PROJECT", "game");
    assert!(!Subcommand::Build.accepts(&matches));
    matches.insert("output", "out.rbxmx");
    assert!(Subcommand::Build.accepts(&matches));
}

#[test]
fn upload_is_accepted_only_with_cookie_and_asset_id() {
    let mut matches = Matches::new();
    assert!(!Subcommand::Upload.accepts(&matches));
    matches.insert("cookie", "secret");
    assert!(!Subcommand::Upload.accepts(&matches));
    let mut only_id = Matches::new();
    only_id.insert("asset_id", "12");
    assert!(!Subcommand::Upload.accepts(&only_id));
    matches.insert("asset_id", "12");
    assert!(Subcommand::Upload.accepts(&matches));
}
