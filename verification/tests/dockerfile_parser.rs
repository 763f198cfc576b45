use container_runtime::daemon::dockerfile::parser::{
    parse_dockerfile_contents, reaches_incomplete_copy, DockerfileInstruction,
};

#[test]
fn run_and_copy_lines_are_parsed() {
    let text = "RUN  echo   hello\n\n   \nCOPY ./src /dst ignored\n";
    assert!(!reaches_incomplete_copy(text));
    assert_eq!(
        parse_dockerfile_contents(text),
        Ok(vec![
            DockerfileInstruction::RUN("echo hello".to_string()),
            DockerfileInstruction::COPY("./src".to_string(), "/dst".to_string()),
        ])
    );
}

#[test]
fn comments_are_not_understood() {
    let text = "# comment\nRUN ls\n";
    assert!(!reaches_incomplete_copy(text));
    assert_eq!(
        parse_dockerfile_contents(text),
        Err("Instruction # is invalid".to_string())
    );
}

#[test]
fn copy_without_two_paths_is_detected() {
    assert!(reaches_incomplete_copy("COPY onlyone\n"));
    assert!(reaches_incomplete_copy("RUN ls\nCOPY\n"));
    assert!(!reaches_incomplete_copy("FROM x\nCOPY a\n"));
    assert_eq!(
        parse_dockerfile_contents("FROM x\nCOPY a\n"),
        Err("Instruction FROM is invalid".to_string())
    );
}

#[test]
fn run_without_words_is_empty() {
    assert_eq!(
        parse_dockerfile_contents("RUN\n"),
        Ok(vec![DockerfileInstruction::RUN(String::new())])
    );
}
