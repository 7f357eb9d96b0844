use periphery::build_args::{parse_build_args, EnvironmentVar};

/// Splits a command line into words the way a POSIX shell does for
/// unquoted plain characters, blanks, single quotes and backslashes
/// (the only syntax the escaped flags use), then removes the quotes.
fn shell_words(command: &str) -> Vec<String> {
    let mut words = Vec::new();
    let mut word: Option<String> = None;
    let mut chars = command.chars();
    while let Some(c) = chars.next() {
        match c {
            ' ' | '\t' => {
                if let Some(w) = word.take() {
                    words.push(w);
                }
            }
            '\'' => {
                let w = word.get_or_insert_with(String::new);
                loop {
                    match chars.next() {
                        Some('\'') => break,
                        Some(q) => w.push(q),
                        None => panic!("unterminated single quote in {command:?}"),
                    }
                }
            }
            '\\' => {
                let escaped = chars.next().expect("dangling backslash");
                word.get_or_insert_with(String::new).push(escaped);
            }
            c if c.is_ascii_alphanumeric() || "-_=/,.+".contains(c) => {
                word.get_or_insert_with(String::new).push(c);
            }
            c => panic!("unquoted shell metacharacter {c:?} in {command:?}"),
        }
    }
    if let Some(w) = word {
        words.push(w);
    }
    words
}

/// What `printf '<%s>'` prints for these words.
fn printf_each(words: &[String]) -> String {
    words.iter().map(|w| format!("<{w}>")).collect()
}

/// Every build arg value must survive the round trip through the
/// shell byte-for-byte: values reach the docker CLI exactly as the
/// user wrote them, with no shell interpretation in between.
#[test]
fn parse_build_args_values_survive_shell_round_trip() {
    let values = [
        "plain",
        "p@$$w0rd!",
        "$(id)",
        "pre`id`post",
        "say \"hi\"",
        "it's",
        "line1\nline2",
        "a # b",
        "trailing ",
        "*glob*",
        "C:\\path",
        "",
    ];

    let build_args = values
        .iter()
        .enumerate()
        .map(|(i, value)| EnvironmentVar {
            variable: format!("ARG_{i}"),
            value: value.to_string(),
        })
        .collect::<Vec<_>>();

    let command = format!("printf '<%s>'{}", parse_build_args(&build_args));
    let words = shell_words(&command);
    assert_eq!(words[0], "printf");
    assert_eq!(words[1], "<%s>");
    let stdout = printf_each(&words[2..]);

    let mut expected = String::new();
    for (i, value) in values.iter().enumerate() {
        expected.push_str(&format!("<--build-arg><ARG_{i}={value}>"));
    }
    assert_eq!(stdout, expected);
}

#[test]
fn safe_values_are_left_unquoted() {
    let args = vec![EnvironmentVar { variable: "VERSION".into(), value: "1.2.3-rc_1".into() }];
    assert_eq!(parse_build_args(&args), " --build-arg VERSION=1.2.3-rc_1");
}

#[test]
fn unsafe_values_are_single_quoted() {
    let args = vec![
        EnvironmentVar { variable: "A".into(), value: "a b".into() },
        EnvironmentVar { variable: "B".into(), value: "it's!".into() },
        EnvironmentVar { variable: "C".into(), value: "".into() },
    ];
    assert_eq!(
        parse_build_args(&args),
        " --build-arg A='a b' --build-arg B='it'\\''s'\\!'' --build-arg C=''"
    );
}

#[test]
fn no_args_give_no_flags() {
    assert_eq!(parse_build_args(&[]), "");
}
