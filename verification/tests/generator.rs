use og_image::{HostEnvironment, Invocation, OgImageError, OgImageGenerator};

fn set(value: &str) -> Result<Option<String>, String> {
    Ok(Some(value.to_string()))
}

fn unset() -> Result<Option<String>, String> {
    Ok(None)
}

fn unreadable(reason: &str) -> Result<Option<String>, String> {
    Err(reason.to_string())
}

fn strings(values: &[&str]) -> Vec<String> {
    values.iter().map(|value| value.to_string()).collect()
}

#[test]
fn defaults_expect_both_tools_on_the_search_path() {
    let generator = OgImageGenerator::new();
    assert_eq!(generator.typst_binary_path(), "typst");
    assert_eq!(generator.typst_font_path(), None);
    assert_eq!(generator.oxipng_binary_path(), "oxipng");

    let generator = OgImageGenerator::default();
    assert_eq!(generator.typst_binary_path(), "typst");
    assert_eq!(generator.typst_font_path(), None);
    assert_eq!(generator.oxipng_binary_path(), "oxipng");
}

#[test]
fn an_empty_environment_gives_the_defaults() {
    let generator = OgImageGenerator::from_environment(unset(), unset(), unset()).unwrap();
    assert_eq!(generator.typst_binary_path(), "typst");
    assert_eq!(generator.typst_font_path(), None);
    assert_eq!(generator.oxipng_binary_path(), "oxipng");
}

#[test]
fn each_variable_sets_its_own_field() {
    let generator =
        OgImageGenerator::from_environment(set("/opt/typst"), unset(), unset()).unwrap();
    assert_eq!(generator.typst_binary_path(), "/opt/typst");
    assert_eq!(generator.typst_font_path(), None);
    assert_eq!(generator.oxipng_binary_path(), "oxipng");

    let generator =
        OgImageGenerator::from_environment(unset(), set("/usr/share/fonts"), unset()).unwrap();
    assert_eq!(generator.typst_binary_path(), "typst");
    assert_eq!(generator.typst_font_path(), Some("/usr/share/fonts"));
    assert_eq!(generator.oxipng_binary_path(), "oxipng");

    let generator =
        OgImageGenerator::from_environment(unset(), unset(), set("/opt/oxipng")).unwrap();
    assert_eq!(generator.typst_binary_path(), "typst");
    assert_eq!(generator.typst_font_path(), None);
    assert_eq!(generator.oxipng_binary_path(), "/opt/oxipng");

    let generator =
        OgImageGenerator::from_environment(set("/a/typst"), set("/b/fonts"), set("/c/oxipng"))
            .unwrap();
    assert_eq!(generator.typst_binary_path(), "/a/typst");
    assert_eq!(generator.typst_font_path(), Some("/b/fonts"));
    assert_eq!(generator.oxipng_binary_path(), "/c/oxipng");
}

#[test]
fn an_unreadable_variable_fails_the_construction() {
    let result = OgImageGenerator::from_environment(unreadable("not unicode"), unset(), unset());
    assert_eq!(result.unwrap_err(), OgImageError::EnvVarError("not unicode".to_string()));
    let result = OgImageGenerator::from_environment(set("/t"), unreadable("bad font"), unset());
    assert_eq!(result.unwrap_err(), OgImageError::EnvVarError("bad font".to_string()));
    let result = OgImageGenerator::from_environment(set("/t"), set("/f"), unreadable("bad oxi"));
    assert_eq!(result.unwrap_err(), OgImageError::EnvVarError("bad oxi".to_string()));
}

#[test]
fn the_first_unreadable_variable_is_reported() {
    let result = OgImageGenerator::from_environment(
        unreadable("first"),
        unreadable("second"),
        unreadable("third"),
    );
    assert_eq!(result.unwrap_err(), OgImageError::EnvVarError("first".to_string()));
    let result = OgImageGenerator::from_environment(unset(), unreadable("second"), unreadable("third"));
    assert_eq!(result.unwrap_err(), OgImageError::EnvVarError("second".to_string()));
}

#[test]
fn an_override_wins_over_the_environment() {
    let generator =
        OgImageGenerator::from_environment(set("/env/typst"), set("/env/fonts"), set("/env/oxipng"))
            .unwrap()
            .with_typst_path("/override/typst".to_string());
    assert_eq!(generator.typst_binary_path(), "/override/typst");
    assert_eq!(generator.typst_font_path(), Some("/env/fonts"));
    assert_eq!(generator.oxipng_binary_path(), "/env/oxipng");

    let generator = generator.with_font_path("/override/fonts".to_string());
    assert_eq!(generator.typst_binary_path(), "/override/typst");
    assert_eq!(generator.typst_font_path(), Some("/override/fonts"));
    assert_eq!(generator.oxipng_binary_path(), "/env/oxipng");

    let generator = generator.with_oxipng_path("/override/oxipng".to_string());
    assert_eq!(generator.typst_binary_path(), "/override/typst");
    assert_eq!(generator.typst_font_path(), Some("/override/fonts"));
    assert_eq!(generator.oxipng_binary_path(), "/override/oxipng");
}

#[test]
fn an_override_wins_over_the_default() {
    let generator = OgImageGenerator::default().with_typst_path("/usr/local/bin/typst".to_string());
    assert_eq!(generator.typst_binary_path(), "/usr/local/bin/typst");
    assert_eq!(generator.oxipng_binary_path(), "oxipng");
    let generator = OgImageGenerator::default().with_font_path("/usr/share/fonts".to_string());
    assert_eq!(generator.typst_font_path(), Some("/usr/share/fonts"));
    let generator =
        OgImageGenerator::default().with_oxipng_path("/usr/local/bin/oxipng".to_string());
    assert_eq!(generator.oxipng_binary_path(), "/usr/local/bin/oxipng");
    assert_eq!(generator.typst_binary_path(), "typst");
}

#[test]
fn typst_command_without_fonts() {
    let generator = OgImageGenerator::new();
    let host = HostEnvironment { path: Some("/usr/bin:/bin".to_string()), home: Some("/home/u".to_string()) };
    let invocation = generator.typst_command(
        &host,
        "{\"question\":\"q\"}",
        "{}",
        "/tmp/w/og-image.typ",
        "/tmp/out.png",
    );
    assert_eq!(
        invocation,
        Invocation {
            program: "typst".to_string(),
            args: strings(&[
                "compile",
                "--format",
                "png",
                "--input",
                "data={\"question\":\"q\"}",
                "--input",
                "avatar_map={}",
                "/tmp/w/og-image.typ",
                "/tmp/out.png",
            ]),
            env: vec![
                ("PATH".to_string(), "/usr/bin:/bin".to_string()),
                ("HOME".to_string(), "/home/u".to_string()),
            ],
        }
    );
}

#[test]
fn typst_command_with_fonts() {
    let generator = OgImageGenerator::new()
        .with_typst_path("/opt/typst".to_string())
        .with_font_path("/opt/fonts".to_string());
    let host = HostEnvironment { path: None, home: None };
    let invocation = generator.typst_command(&host, "1", "2", "in.typ", "out.png");
    assert_eq!(invocation.program, "/opt/typst");
    assert_eq!(
        invocation.args,
        strings(&[
            "compile",
            "--format",
            "png",
            "--input",
            "data=1",
            "--input",
            "avatar_map=2",
            "--font-path",
            "/opt/fonts",
            "--ignore-system-fonts",
            "in.typ",
            "out.png",
        ])
    );
    assert_eq!(invocation.env, Vec::<(String, String)>::new());
}

#[test]
fn typst_is_given_only_the_variables_that_are_set() {
    let generator = OgImageGenerator::new();
    let host = HostEnvironment { path: None, home: Some("/root".to_string()) };
    let invocation = generator.typst_command(&host, "", "", "a", "b");
    assert_eq!(invocation.env, vec![("HOME".to_string(), "/root".to_string())]);
    let host = HostEnvironment { path: Some("/bin".to_string()), home: None };
    let invocation = generator.typst_command(&host, "", "", "a", "b");
    assert_eq!(invocation.env, vec![("PATH".to_string(), "/bin".to_string())]);
}

#[test]
fn oxipng_command() {
    let generator = OgImageGenerator::new();
    let host = HostEnvironment { path: Some("/usr/bin".to_string()), home: Some("/home/u".to_string()) };
    let invocation = generator.oxipng_command(&host, "/tmp/out.png");
    assert_eq!(
        invocation,
        Invocation {
            program: "oxipng".to_string(),
            args: strings(&["--opt", "2", "--strip", "safe", "/tmp/out.png"]),
            env: vec![("PATH".to_string(), "/usr/bin".to_string())],
        }
    );
}

#[test]
fn oxipng_is_never_given_the_home_directory() {
    let generator = OgImageGenerator::new().with_oxipng_path("/opt/oxipng".to_string());
    let host = HostEnvironment { path: None, home: Some("/home/u".to_string()) };
    let invocation = generator.oxipng_command(&host, "image.png");
    assert_eq!(invocation.program, "/opt/oxipng");
    assert_eq!(invocation.env, Vec::<(String, String)>::new());
}
