use std::path::Path;

use clap::{App, Arg, ErrorKind, SubCommand};
use rojo_cli::dispatch::{dispatch, Action, Exit, Failure};
use rojo_cli::matches::Matches;
use rojo_cli::options::{InitOptions, ServeOptions, UploadOptions};
use rojo_cli::schema::Subcommand;

fn command_line() -> App<'static, 'static> {
    let mut app = App::new("Rojo");
    for subcommand in Subcommand::all() {
        let mut command = SubCommand::with_name(subcommand.name()).about(subcommand.about());
        for flag in subcommand.flags() {
            let mut arg = Arg::with_name(flag.name).help(flag.help).required(flag.required);
            if let Some(long) = flag.long {
                arg = arg.long(long);
            }
            if let Some(short) = flag.short {
                arg = arg.short(short.to_string());
            }
            if flag.takes_value() {
                arg = arg.takes_value(true);
            }
            command = command.arg(arg);
        }
        app = app.subcommand(command);
    }
    app
}

fn parse(args: &[&str]) -> Result<(Option<Subcommand>, Matches), clap::Error> {
    let matches = command_line().get_matches_from_safe(args)?;
    let (name, sub_matches) = matches.subcommand();
    let mut values = Matches::new();
    match (Subcommand::from_name(name), sub_matches) {
        (Some(subcommand), Some(sub_matches)) => {
            for flag in subcommand.flags() {
                if let Some(value) = sub_matches.value_of(flag.name) {
                    values.insert(flag.name, value);
                }
            }
            Ok((Some(subcommand), values))
        }
        _ => Ok((None, values)),
    }
}

fn run(args: &[&str], current_dir: Option<&str>) -> Action {
    let (subcommand, values) = parse(args).unwrap();
    dispatch(subcommand, &values, current_dir)
}

#[test]
fn build_with_output_from_the_project_directory() {
    let action = run(&["rojo", "build", "--output", "./out.rbxmx"], Some("/home/user/proj"));
    match action {
        Action::Build(options) => {
            assert_eq!(Path::new(&options.project_path), Path::new("/home/user/proj"));
            assert_eq!(
                Path::new(&options.output_file),
                Path::new("/home/user/proj/out.rbxmx")
            );
            assert_eq!(options.output_kind, None);
        }
        other => panic!("not a build: {:?}", other),
    }
}

#[test]
fn build_takes_its_output_in_short_form() {
    let action = run(&["rojo", "build", "game", "-o", "/tmp/out.rbxmx"], Some("/home/user"));
    match action {
        Action::Build(options) => {
            assert_eq!(options.project_path, "/home/user/game");
            assert_eq!(options.output_file, "/tmp/out.rbxmx");
            assert_eq!(options.output_kind, None);
        }
        other => panic!("not a build: {:?}", other),
    }
}

#[test]
fn build_without_output_is_refused_by_the_parser() {
    let refused = parse(&["rojo", "build"]).unwrap_err();
    assert_eq!(refused.kind, ErrorKind::MissingRequiredArgument);
    let refused = parse(&["rojo", "build", "game"]).unwrap_err();
    assert_eq!(refused.kind, ErrorKind::MissingRequiredArgument);
}

#[test]
fn serve_with_port_70000_is_stopped() {
    let action = run(&["rojo", "serve", "--port", "70000"], Some("/home/user/proj"));
    assert_eq!(action, Action::Abort(Failure::InvalidPort("70000".to_string())));
    assert_eq!(
        action.exit(),
        Some(Exit { status: 1, error: Some("Invalid port 70000".to_string()) })
    );
}

#[test]
fn serve_is_stopped_by_any_port_that_is_no_number() {
    for text in ["abc", "99999", "65536", "8000x", "+"] {
        let action = run(&["rojo", "serve", "--port", text], Some("/home/user/proj"));
        assert_eq!(action, Action::Abort(Failure::InvalidPort(text.to_string())));
        assert_eq!(action.exit().unwrap().status, 1);
    }
    let action = run(&["rojo", "serve", "--port=-1"], Some("/home/user/proj"));
    assert_eq!(action, Action::Abort(Failure::InvalidPort("-1".to_string())));
    assert_eq!(action.exit().unwrap().status, 1);
}

#[test]
fn serve_with_a_project_and_a_port() {
    assert_eq!(
        run(&["rojo", "serve", "game", "--port", "8000"], Some("/home/user")),
        Action::Serve(ServeOptions {
            project_path: "/home/user/game".to_string(),
            port: Some(8000),
        })
    );
    assert_eq!(
        run(&["rojo", "serve"], Some("/home/user")),
        Action::Serve(ServeOptions { project_path: "/home/user".to_string(), port: None })
    );
}

#[test]
fn init_with_and_without_a_path() {
    assert_eq!(
        run(&["rojo", "init", "/srv/new", "--kind", "model"], None),
        Action::Init(InitOptions {
            project_path: "/srv/new".to_string(),
            kind: Some("model".to_string()),
        })
    );
    match run(&["rojo", "init"], Some("/home/user/proj")) {
        Action::Init(options) => {
            assert_eq!(Path::new(&options.project_path), Path::new("/home/user/proj"));
            assert_eq!(options.kind, None);
        }
        other => panic!("not an init: {:?}", other),
    }
}

#[test]
fn upload_with_all_its_arguments() {
    let action = run(
        &["rojo", "upload", "game", "--kind", "place", "--cookie", "s3cr3t value", "--asset_id", "742"],
        Some("/home/user"),
    );
    assert_eq!(
        action,
        Action::Upload(UploadOptions {
            project_path: "/home/user/game".to_string(),
            security_cookie: "s3cr3t value".to_string(),
            asset_id: 742,
            kind: Some("place".to_string()),
        })
    );
}

#[test]
fn upload_is_stopped_by_an_asset_id_that_is_no_number() {
    for text in ["abc", "18446744073709551616", "12.5", "0x10"] {
        let action = run(
            &["rojo", "upload", "--cookie", "c", "--asset_id", text],
            Some("/home/user"),
        );
        assert_eq!(action, Action::Abort(Failure::InvalidAssetId(text.to_string())));
        assert_eq!(
            action.exit(),
            Some(Exit { status: 1, error: Some(format!("Invalid place ID {}", text)) })
        );
    }
}

#[test]
fn upload_without_cookie_or_asset_id_is_refused_by_the_parser() {
    let refused = parse(&["rojo", "upload", "--asset_id", "1"]).unwrap_err();
    assert_eq!(refused.kind, ErrorKind::MissingRequiredArgument);
    let refused = parse(&["rojo", "upload", "--cookie", "c"]).unwrap_err();
    assert_eq!(refused.kind, ErrorKind::MissingRequiredArgument);
}

#[test]
fn an_unknown_argument_is_refused_by_the_parser() {
    let refused = parse(&["rojo", "serve", "--speed", "9"]).unwrap_err();
    assert_eq!(refused.kind, ErrorKind::UnknownArgument);
}

#[test]
fn no_subcommand_and_no_flags_shows_help() {
    let (subcommand, values) = parse(&["rojo"]).unwrap();
    assert_eq!(subcommand, None);
    let action = dispatch(subcommand, &values, None);
    assert_eq!(action, Action::Help);
    assert_eq!(action.exit(), Some(Exit { status: 0, error: None }));
}

#[test]
fn what_the_parser_accepts_the_dispatcher_accepts() {
    let lines: [&[&str]; 6] = [
        &["rojo", "init"],
        &["rojo", "init", "x", "--kind", "place"],
        &["rojo", "serve", "--port", "1"],
        &["rojo", "build", "-o", "x"],
        &["rojo", "upload", "--cookie", "c", "--asset_id", "1"],
        &["rojo", "upload", "p", "--asset_id", "1", "--cookie", "c", "--kind", "model"],
    ];
    for line in lines {
        let (subcommand, values) = parse(line).unwrap();
        assert!(subcommand.unwrap().accepts(&values));
        assert_ne!(dispatch(subcommand, &values, Some("/c")), Action::Usage);
    }
}
