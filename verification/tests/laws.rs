use container_runtime::common::client_request::ClientId;
use container_runtime::common::image::Image;
use container_runtime::container::Container;
use container_runtime::daemon::dockerfile::parser::parse_dockerfile_contents as parse_first_form;
use container_runtime::daemon::image::Image as DaemonImage;
use container_runtime::daemon::image_builder::parser::{
    parse_dockerfile_contents, DockerfileInstruction,
};

fn render(is: &[DockerfileInstruction]) -> String {
    let mut out = String::new();
    for i in is {
        let line = match i {
            DockerfileInstruction::FROM(x) => format!("FROM {}", x),
            DockerfileInstruction::RUN(c) => format!("RUN {}", c),
            DockerfileInstruction::ENTRYPOINT(c) => format!("ENTRYPOINT {}", c),
            DockerfileInstruction::COPY(s, d) => format!("COPY {} {}", s, d),
        };
        out.push_str(&line);
        out.push('\n');
    }
    out
}

#[test]
fn law_parse_concatenation_example() {
    let a = "FROM base\n# note\nRUN make   all\n";
    let b = "COPY x y\nENTRYPOINT ./run";
    let both = format!("{}{}", a, b);
    let mut expected = parse_dockerfile_contents(a).unwrap();
    expected.extend(parse_dockerfile_contents(b).unwrap());
    assert_eq!(parse_dockerfile_contents(&both), Ok(expected));
    // an error in the first part ends the parse
    let bad = format!("{}{}", "LABEL x\n", b);
    assert_eq!(parse_dockerfile_contents(&bad), Err("Instruction LABEL is invalid".to_string()));
    // the first form of Dockerfiles composes the same way
    let a1 = "RUN a\n";
    let b1 = "COPY s d\n";
    let mut expected1 = parse_first_form(a1).unwrap();
    expected1.extend(parse_first_form(b1).unwrap());
    assert_eq!(parse_first_form(&format!("{}{}", a1, b1)), Ok(expected1));
}

#[test]
fn law_comment_line_ignored_example() {
    let b = "RUN echo hi\n";
    assert_eq!(
        parse_dockerfile_contents(&format!("# anything at all: RUN x\n{}", b)),
        parse_dockerfile_contents(b)
    );
}

#[test]
fn law_render_parse_roundtrip_example() {
    let text = "FROM  ubuntu 22.04\nRUN apt-get\t install  -y   git\nCOPY\n COPY only\nCOPY a b c\nENTRYPOINT\n";
    let parsed = parse_dockerfile_contents(text).unwrap();
    assert_eq!(parse_dockerfile_contents(&render(&parsed)), Ok(parsed.clone()));
    assert_eq!(parsed[0], DockerfileInstruction::FROM("ubuntu22.04".to_string()));
}

#[test]
fn law_distinct_directories_example() {
    let install = "/rt";
    let ids = ["a", "b", "a/b", "ab"];
    for x in ids {
        for y in ids {
            let px = Image::new(x.to_string()).get_image_path(install).unwrap();
            let py = Image::new(y.to_string()).get_image_path(install).unwrap();
            assert_eq!(px == py, x == y);
            let cx = Container::new(x.to_string(), DaemonImage::new("i".to_string()), String::new(), vec![]);
            let cy = Container::new(y.to_string(), DaemonImage::new("i".to_string()), String::new(), vec![]);
            assert_eq!(cx.get_conatiner_path(Some(install)) == cy.get_conatiner_path(Some(install)), x == y);
        }
    }
}

#[test]
fn law_image_layout_example() {
    let image = Image::new("web".to_string());
    let dir = image.get_image_path("/rt").unwrap();
    assert_eq!(image.get_filesystem_path("/rt").unwrap(), format!("{}/rootfs", dir));
    assert_eq!(image.get_entrypoint_path("/rt").unwrap(), format!("{}/entrypoints.json", dir));
}

#[test]
fn law_overlay_layers_distinct_example() {
    let c = Container::new("c".to_string(), DaemonImage::new("i".to_string()), String::new(), vec![]);
    let dirs = c.prepare_container_directories(Some("/rt")).unwrap();
    assert_ne!(dirs[0], dirs[1]);
    assert_ne!(dirs[0], dirs[2]);
    assert_ne!(dirs[1], dirs[2]);
}

#[test]
fn law_client_ids_distinct_example() {
    let ids: Vec<String> = [0u64, 1, 9, 10, 99, 100, u64::MAX].iter().map(|n| ClientId::from_number(*n).0).collect();
    for i in 0..ids.len() {
        for j in 0..ids.len() {
            assert_eq!(ids[i] == ids[j], i == j);
        }
    }
}
