use container_runtime::daemon::image_builder::parser::{
    is_line_comment, map_dockerfile_instruction, parse_dockerfile_contents, reaches_blank_line,
    DockerfileInstruction,
};

fn words(ws: &[&str]) -> Vec<String> {
    ws.iter().map(|w| w.to_string()).collect()
}

#[test]
fn comment_lines_start_with_hash() {
    assert!(is_line_comment("# a comment"));
    assert!(is_line_comment("#"));
    assert!(!is_line_comment(" # indented"));
    assert!(!is_line_comment("RUN echo # not a comment"));
    assert!(!is_line_comment(""));
}

#[test]
fn from_glues_its_words_together() {
    let r = map_dockerfile_instruction("FROM", &words(&["debian", "latest"]));
    assert_eq!(r, Ok(DockerfileInstruction::FROM("debianlatest".to_string())));
    let r = map_dockerfile_instruction("FROM", &words(&[]));
    assert_eq!(r, Ok(DockerfileInstruction::FROM(String::new())));
}

#[test]
fn run_and_entrypoint_join_words_with_spaces() {
    let r = map_dockerfile_instruction("RUN", &words(&["apt-get", "install", "-y", "curl"]));
    assert_eq!(r, Ok(DockerfileInstruction::RUN("apt-get install -y curl".to_string())));
    let r = map_dockerfile_instruction("ENTRYPOINT", &words(&["/bin/sh"]));
    assert_eq!(r, Ok(DockerfileInstruction::ENTRYPOINT("/bin/sh".to_string())));
}

#[test]
fn copy_takes_two_paths_or_empty() {
    let r = map_dockerfile_instruction("COPY", &words(&["a.txt", "/opt/a.txt", "extra"]));
    assert_eq!(
        r,
        Ok(DockerfileInstruction::COPY("a.txt".to_string(), "/opt/a.txt".to_string()))
    );
    let r = map_dockerfile_instruction("COPY", &words(&["only"]));
    assert_eq!(r, Ok(DockerfileInstruction::COPY("only".to_string(), String::new())));
    let r = map_dockerfile_instruction("COPY", &words(&[]));
    assert_eq!(r, Ok(DockerfileInstruction::COPY(String::new(), String::new())));
}

#[test]
fn unknown_instruction_is_an_error() {
    let r = map_dockerfile_instruction("CMD", &words(&["ls"]));
    assert_eq!(r, Err("Instruction CMD is invalid".to_string()));
    let r = map_dockerfile_instruction("run", &words(&["ls"]));
    assert_eq!(r, Err("Instruction run is invalid".to_string()));
}

#[test]
fn parses_a_dockerfile_line_by_line() {
    let text = "# base image\nFROM base\nRUN  apt-get   update\r\nCOPY app.py /app/app.py\nENTRYPOINT python3 /app/app.py\n";
    assert!(!reaches_blank_line(text));
    let r = parse_dockerfile_contents(text);
    assert_eq!(
        r,
        Ok(vec![
            DockerfileInstruction::FROM("base".to_string()),
            DockerfileInstruction::RUN("apt-get update".to_string()),
            DockerfileInstruction::COPY("app.py".to_string(), "/app/app.py".to_string()),
            DockerfileInstruction::ENTRYPOINT("python3 /app/app.py".to_string()),
        ])
    );
}

#[test]
fn first_invalid_instruction_is_reported() {
    let text = "RUN ls\nCMD bad\nWORKDIR /x\n";
    assert!(!reaches_blank_line(text));
    assert_eq!(
        parse_dockerfile_contents(text),
        Err("Instruction CMD is invalid".to_string())
    );
}

#[test]
fn empty_dockerfile_has_no_instructions() {
    assert!(!reaches_blank_line(""));
    assert_eq!(parse_dockerfile_contents(""), Ok(vec![]));
    assert!(!reaches_blank_line("# only a comment"));
    assert_eq!(parse_dockerfile_contents("# only a comment"), Ok(vec![]));
}

#[test]
fn blank_line_is_detected() {
    assert!(reaches_blank_line("RUN ls\n\nRUN pwd\n"));
    assert!(reaches_blank_line("   \n"));
    // an invalid instruction before the blank line ends the parse first
    assert!(!reaches_blank_line("BAD x\n\n"));
}
