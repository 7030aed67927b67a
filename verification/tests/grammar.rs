use password_generator::args::{Args, ArgsError, ArgsErrorKind};
use password_generator::complexity::ComplexityEnum;
use password_generator::error::PasswordError;

fn failure(argv: &[&str]) -> ArgsError {
    Args::try_parse_from(argv).unwrap_err()
}

#[test]
fn no_arguments_give_the_defaults() {
    let args = Args::try_parse_from(&["password_generator"]).unwrap();

    assert_eq!(args.length, 12);
    assert_eq!(args.quantity, 1);
    assert_eq!(args.complexity, ComplexityEnum::Secure);
    assert!(!args.special);
    assert!(!args.hide);
    assert!(!args.copy);
    assert_eq!(args.export, "");
    assert!(!args.update);
}

#[test]
fn an_empty_list_gives_the_defaults() {
    let args = Args::try_parse_from(&[]).unwrap();

    assert_eq!(args.length, 12);
    assert_eq!(args.quantity, 1);
}

#[test]
fn the_program_name_is_passed_over() {
    let args = Args::try_parse_from(&["--bogus", "-l", "9"]).unwrap();

    assert_eq!(args.length, 9);
}

#[test]
fn every_option_by_its_long_name() {
    let args = Args::try_parse_from(&[
        "password_generator",
        "--length",
        "20",
        "--quantity",
        "4",
        "--complexity",
        "complex",
        "--special",
        "--hide",
        "--copy",
        "--export",
        "out.txt",
        "--update",
    ])
    .unwrap();

    assert_eq!(args.length, 20);
    assert_eq!(args.quantity, 4);
    assert_eq!(args.complexity, ComplexityEnum::Complex);
    assert!(args.special);
    assert!(args.hide);
    assert!(args.copy);
    assert_eq!(args.export, "out.txt");
    assert!(args.update);
}

#[test]
fn a_value_attached_to_a_long_name() {
    let args = Args::try_parse_from(&[
        "password_generator",
        "--length=20",
        "--complexity=simple",
        "--export=a=b",
    ])
    .unwrap();

    assert_eq!(args.length, 20);
    assert_eq!(args.complexity, ComplexityEnum::Simple);
    assert_eq!(args.export, "a=b");
}

#[test]
fn a_value_attached_to_a_short_name() {
    let args = Args::try_parse_from(&["password_generator", "-l20", "-q=3", "-csimple"]).unwrap();

    assert_eq!(args.length, 20);
    assert_eq!(args.quantity, 3);
    assert_eq!(args.complexity, ComplexityEnum::Simple);
}

#[test]
fn a_cluster_of_short_names() {
    let args = Args::try_parse_from(&["password_generator", "-sl", "20"]).unwrap();
    assert!(args.special);
    assert_eq!(args.length, 20);

    let args = Args::try_parse_from(&["password_generator", "-sq5"]).unwrap();
    assert!(args.special);
    assert_eq!(args.quantity, 5);
}

#[test]
fn the_complexity_token_in_any_letter_case() {
    let args = Args::try_parse_from(&["password_generator", "-c", "COMPLEX"]).unwrap();

    assert_eq!(args.complexity, ComplexityEnum::Complex);
}

#[test]
fn an_empty_export_path_and_a_single_hyphen_are_values() {
    let args = Args::try_parse_from(&["password_generator", "--export", ""]).unwrap();
    assert_eq!(args.export, "");

    let args = Args::try_parse_from(&["password_generator", "--export="]).unwrap();
    assert_eq!(args.export, "");

    let args = Args::try_parse_from(&["password_generator", "--export", "-"]).unwrap();
    assert_eq!(args.export, "-");
}

#[test]
fn the_end_of_options_may_close_the_list() {
    let args = Args::try_parse_from(&["password_generator", "-s", "--"]).unwrap();

    assert!(args.special);
}

#[test]
fn nothing_may_follow_the_end_of_options() {
    assert_eq!(
        failure(&["password_generator", "--", "-s"]),
        ArgsError { kind: ArgsErrorKind::UnknownArgument, index: 2 }
    );
}

#[test]
fn unknown_names_and_stray_arguments() {
    assert_eq!(
        failure(&["password_generator", "--bogus"]),
        ArgsError { kind: ArgsErrorKind::UnknownArgument, index: 1 }
    );
    assert_eq!(
        failure(&["password_generator", "-s", "-x"]),
        ArgsError { kind: ArgsErrorKind::UnknownArgument, index: 2 }
    );
    assert_eq!(
        failure(&["password_generator", "-sx"]),
        ArgsError { kind: ArgsErrorKind::UnknownArgument, index: 1 }
    );
    assert_eq!(
        failure(&["password_generator", "16"]),
        ArgsError { kind: ArgsErrorKind::UnknownArgument, index: 1 }
    );
    assert_eq!(
        failure(&["password_generator", "-"]),
        ArgsError { kind: ArgsErrorKind::UnknownArgument, index: 1 }
    );
    assert_eq!(
        failure(&["password_generator", "--len", "16"]),
        ArgsError { kind: ArgsErrorKind::UnknownArgument, index: 1 }
    );
    assert_eq!(
        failure(&["password_generator", "--Length", "16"]),
        ArgsError { kind: ArgsErrorKind::UnknownArgument, index: 1 }
    );
    assert_eq!(
        failure(&["password_generator", "-e", "out.txt"]),
        ArgsError { kind: ArgsErrorKind::UnknownArgument, index: 1 }
    );
}

#[test]
fn an_option_without_its_value() {
    assert_eq!(
        failure(&["password_generator", "--length"]),
        ArgsError { kind: ArgsErrorKind::MissingValue, index: 1 }
    );
    assert_eq!(
        failure(&["password_generator", "-l", "--special"]),
        ArgsError { kind: ArgsErrorKind::MissingValue, index: 1 }
    );
    assert_eq!(
        failure(&["password_generator", "-s", "-l", "-5"]),
        ArgsError { kind: ArgsErrorKind::MissingValue, index: 2 }
    );
    assert_eq!(
        failure(&["password_generator", "--export", "--"]),
        ArgsError { kind: ArgsErrorKind::MissingValue, index: 1 }
    );
    assert_eq!(
        failure(&["password_generator", "-q", "--help"]),
        ArgsError { kind: ArgsErrorKind::MissingValue, index: 1 }
    );
}

#[test]
fn a_value_that_is_no_number() {
    assert_eq!(
        failure(&["password_generator", "--length", "abc"]),
        ArgsError { kind: ArgsErrorKind::InvalidValue, index: 2 }
    );
    assert_eq!(
        failure(&["password_generator", "--length=-5"]),
        ArgsError { kind: ArgsErrorKind::InvalidValue, index: 1 }
    );
    assert_eq!(
        failure(&["password_generator", "-l16s"]),
        ArgsError { kind: ArgsErrorKind::InvalidValue, index: 1 }
    );
    assert_eq!(
        failure(&["password_generator", "-q", ""]),
        ArgsError { kind: ArgsErrorKind::InvalidValue, index: 2 }
    );
    assert_eq!(
        failure(&["password_generator", "-q="]),
        ArgsError { kind: ArgsErrorKind::InvalidValue, index: 1 }
    );
}

#[test]
fn a_value_that_names_no_tier() {
    assert_eq!(
        failure(&["password_generator", "-c", "invalid"]),
        ArgsError { kind: ArgsErrorKind::UnsupportedComplexity, index: 2 }
    );
    assert_eq!(
        failure(&["password_generator", "--complexity=strong"]),
        ArgsError { kind: ArgsErrorKind::UnsupportedComplexity, index: 1 }
    );
}

#[test]
fn a_value_attached_to_a_flag() {
    assert_eq!(
        failure(&["password_generator", "--special=true"]),
        ArgsError { kind: ArgsErrorKind::UnexpectedValue, index: 1 }
    );
    assert_eq!(
        failure(&["password_generator", "--help=all"]),
        ArgsError { kind: ArgsErrorKind::UnexpectedValue, index: 1 }
    );
    assert_eq!(
        failure(&["password_generator", "--hide="]),
        ArgsError { kind: ArgsErrorKind::UnexpectedValue, index: 1 }
    );
}

#[test]
fn an_option_given_twice() {
    assert_eq!(
        failure(&["password_generator", "-l", "9", "--length", "10"]),
        ArgsError { kind: ArgsErrorKind::DuplicateArgument, index: 3 }
    );
    assert_eq!(
        failure(&["password_generator", "-ss"]),
        ArgsError { kind: ArgsErrorKind::DuplicateArgument, index: 1 }
    );
    assert_eq!(
        failure(&["password_generator", "--copy", "--hide", "--copy"]),
        ArgsError { kind: ArgsErrorKind::DuplicateArgument, index: 3 }
    );
    assert_eq!(
        failure(&["password_generator", "--export=a", "--export=b"]),
        ArgsError { kind: ArgsErrorKind::DuplicateArgument, index: 2 }
    );
}

#[test]
fn asking_for_the_help_text_or_the_version() {
    assert_eq!(
        failure(&["password_generator", "-h"]),
        ArgsError { kind: ArgsErrorKind::DisplayHelp, index: 1 }
    );
    assert_eq!(
        failure(&["password_generator", "-l", "9", "--help"]),
        ArgsError { kind: ArgsErrorKind::DisplayHelp, index: 3 }
    );
    assert_eq!(
        failure(&["password_generator", "-sh"]),
        ArgsError { kind: ArgsErrorKind::DisplayHelp, index: 1 }
    );
    assert_eq!(
        failure(&["password_generator", "-V"]),
        ArgsError { kind: ArgsErrorKind::DisplayVersion, index: 1 }
    );
    assert_eq!(
        failure(&["password_generator", "--version", "--bogus"]),
        ArgsError { kind: ArgsErrorKind::DisplayVersion, index: 1 }
    );
}

#[test]
fn reading_stops_at_the_first_failure() {
    assert_eq!(
        failure(&["password_generator", "--bogus", "--help"]),
        ArgsError { kind: ArgsErrorKind::UnknownArgument, index: 1 }
    );
    assert_eq!(
        failure(&["password_generator", "-l", "abc", "--bogus"]),
        ArgsError { kind: ArgsErrorKind::InvalidValue, index: 2 }
    );
}

#[test]
fn lengths_below_eight_are_not_accepted() {
    let mut args = Args::try_parse_from(&["password_generator", "-l", "7"]).unwrap();
    assert_eq!(args.check_length(), Err(PasswordError::InvalidLength));

    args.length = 0;
    assert_eq!(args.check_length(), Err(PasswordError::InvalidLength));

    args.length = 8;
    assert_eq!(args.check_length(), Ok(()));

    let args = Args::try_parse_from(&["password_generator"]).unwrap();
    assert_eq!(args.check_length(), Ok(()));
}
