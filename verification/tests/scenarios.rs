use std::collections::HashMap;

use og_image::{
    Action, Event, HostEnvironment, OgImageAuthorData, OgImageCommunityData, OgImageData,
    OgImageDataPoint, OgImageError, OgImageGenerator, OgImageGraphData,
};

const PNG_AVATAR: [u8; 16] =
    [0x89, 0x50, 0x4E, 0x47, 0x0D, 0x0A, 0x1A, 0x0A, 0, 0, 0, 13, b'I', b'H', b'D', b'R'];
const JPEG_AVATAR: [u8; 10] = [0xFF, 0xD8, 0xFF, 0xE0, 0, 16, b'J', b'F', b'I', b'F'];

/// A host that performs no I/O: a server that knows three paths, a file system
/// that keeps what is written in memory, and tools that end as they are told.
struct Host {
    server_url: String,
    files: Vec<(String, Vec<u8>)>,
    directories: Vec<String>,
    requests: Vec<String>,
    invocations: Vec<og_image::Invocation>,
    typst_exit: Option<i32>,
    oxipng: Result<Option<i32>, String>,
    last_status: u16,
    last_body: Vec<u8>,
}

impl Host {
    fn new() -> Host {
        Host {
            server_url: "http://127.0.0.1:1234".to_string(),
            files: Vec::new(),
            directories: Vec::new(),
            requests: Vec::new(),
            invocations: Vec::new(),
            typst_exit: Some(0),
            oxipng: Ok(Some(0)),
            last_status: 0,
            last_body: Vec::new(),
        }
    }

    fn respond(&self, url: &str) -> (u16, Vec<u8>) {
        if url == format!("{}/test-avatar.png", self.server_url) {
            (200, PNG_AVATAR.to_vec())
        } else if url == format!("{}/test-avatar.jpg", self.server_url) {
            (200, JPEG_AVATAR.to_vec())
        } else if url == format!("{}/test-avatar.gif", self.server_url) {
            (200, b"GIF89a".to_vec())
        } else if url == format!("{}/forbidden.png", self.server_url) {
            (403, b"Forbidden".to_vec())
        } else {
            (404, b"Not Found".to_vec())
        }
    }

    fn file(&self, path: &str) -> Option<&Vec<u8>> {
        self.files.iter().find(|(name, _)| name == path).map(|(_, bytes)| bytes)
    }

    fn perform(&mut self, run: &og_image::Generation<'_>, action: Action, data_json: &str) -> Event {
        match action {
            Action::CreateWorkspace => Event::Ready("/tmp/workspace".to_string()),
            Action::CreateDirectory { path } => {
                self.directories.push(path.clone());
                Event::Ready(format!("/tmp/workspace/{path}"))
            }
            Action::WriteAsset { asset, path } => {
                self.files.push((path.clone(), format!("{asset:?}").into_bytes()));
                Event::Ready(format!("/tmp/workspace/{path}"))
            }
            Action::FetchAvatar { url } => {
                let (status, body) = self.respond(&url);
                self.requests.push(url);
                self.last_status = status;
                self.last_body = body;
                Event::Status(status)
            }
            Action::ReadAvatarBody => Event::Body(self.last_body.clone()),
            Action::WriteAvatar { path, bytes } => {
                self.files.push((path.clone(), bytes));
                Event::Ready(format!("/tmp/workspace/{path}"))
            }
            Action::AllocateOutput => Event::Ready("/tmp/output.png".to_string()),
            Action::Serialize => run.serialized(Ok(data_json.to_string())),
            Action::Run(invocation) => {
                let first = self.invocations.is_empty();
                self.invocations.push(invocation);
                if first {
                    Event::Exited {
                        code: self.typst_exit,
                        stdout: String::new(),
                        stderr: "error: compilation failed".to_string(),
                    }
                } else {
                    match &self.oxipng {
                        Ok(code) => Event::Exited {
                            code: *code,
                            stdout: String::new(),
                            stderr: String::new(),
                        },
                        Err(reason) => Event::Failed(reason.clone()),
                    }
                }
            }
            Action::Finish { .. } | Action::Fail(_) => unreachable!(),
        }
    }

    fn generate(
        &mut self,
        generator: &OgImageGenerator,
        data: &OgImageData<'_>,
    ) -> Result<String, OgImageError> {
        let environment = HostEnvironment { path: Some("/usr/bin".to_string()), home: None };
        let mut run = generator.generate(data, environment);
        for _ in 0..64 {
            match run.action() {
                Action::Finish { output } => return Ok(output),
                Action::Fail(error) => return Err(error),
                action => {
                    let event = self.perform(&run, action, "{\"question\":\"?\"}");
                    run = run.advance(event);
                }
            }
        }
        panic!("the run did not end");
    }

    fn avatar_map(&self) -> HashMap<String, String> {
        let argument = &self.invocations[0].args[6];
        let json = argument.strip_prefix("avatar_map=").expect("the avatar map's input");
        serde_json::from_str(json).expect("a JSON object of strings")
    }
}

fn generate_image(host: &mut Host, data: OgImageData<'_>) -> Option<String> {
    let generator = OgImageGenerator::from_environment(Ok(None), Ok(None), Ok(None))
        .expect("Failed to create OgImageGenerator");
    Some(host.generate(&generator, &data).expect("Failed to generate image"))
}

#[test]
fn test_generate_og_image_prediction_snapshot() {
    let mut host = Host::new();
    let server_url = host.server_url.clone();
    let data_points_yes = [
        OgImageDataPoint { time: 1744249342, value: 50 },
        OgImageDataPoint { time: 1744249423, value: 60 },
        OgImageDataPoint { time: 1744924887, value: 5 },
        OgImageDataPoint { time: 1745010399, value: 40 },
    ];
    let data_points_no = [
        OgImageDataPoint { time: 1744249342, value: 50 },
        OgImageDataPoint { time: 1744249396, value: 40 },
        OgImageDataPoint { time: 1744352237, value: 25 },
        OgImageDataPoint { time: 1744757651, value: 99 },
    ];
    let graph = [
        OgImageGraphData { outcome: "Yes", color: "#00F29C", data: &data_points_yes },
        OgImageGraphData { outcome: "No", color: "#D8605A", data: &data_points_no },
    ];
    let author_avatar = format!("{server_url}/test-avatar.png");
    let community_avatar = format!("{server_url}/test-avatar.jpg");
    let data = OgImageData {
        question: "Will AI achieve superintelligence by 2030?",
        author: OgImageAuthorData::new("@ai_researcher", &author_avatar),
        community: OgImageCommunityData::new("AI Predictions", &community_avatar),
        outcome: "NONE",
        graph: &graph,
    };

    if let Some(image) = generate_image(&mut host, data) {
        assert_eq!(image, "/tmp/output.png");
    }
    assert_eq!(host.requests, vec![author_avatar.clone(), community_avatar.clone()]);
    assert_eq!(host.file("assets/author_avatar.png"), Some(&PNG_AVATAR.to_vec()));
    assert_eq!(host.file("assets/community_avatar.jpg"), Some(&JPEG_AVATAR.to_vec()));
    assert_eq!(
        host.invocations[0].args[6],
        format!(
            "avatar_map={{\"{community_avatar}\":\"community_avatar.jpg\",\"{author_avatar}\":\"author_avatar.png\"}}"
        )
    );
    let mut expected = HashMap::new();
    expected.insert(author_avatar, "author_avatar.png".to_string());
    expected.insert(community_avatar, "community_avatar.jpg".to_string());
    assert_eq!(host.avatar_map(), expected);
}

#[test]
fn test_generate_og_image_minimal_snapshot() {
    let mut host = Host::new();
    let server_url = host.server_url.clone();
    let author_avatar = format!("{server_url}/test-avatar.png");
    let community_avatar = format!("{server_url}/test-avatar.jpg");
    let data = OgImageData {
        question: "Will this test pass?",
        author: OgImageAuthorData::new("test-user", &author_avatar),
        community: OgImageCommunityData::new("test-community", &community_avatar),
        outcome: "NONE",
        graph: &[],
    };

    if let Some(image) = generate_image(&mut host, data) {
        assert_eq!(image, "/tmp/output.png");
    }
    assert_eq!(host.directories, vec!["assets"]);
    let written: Vec<&str> = host.files.iter().map(|(path, _)| path.as_str()).collect();
    assert_eq!(
        written,
        vec![
            "assets/inertia.svg",
            "assets/likes.svg",
            "assets/og-template.svg",
            "assets/volume.svg",
            "assets/author_avatar.png",
            "assets/community_avatar.jpg",
            "og-image.typ",
        ]
    );
    assert_eq!(host.file("assets/author_avatar.png"), Some(&PNG_AVATAR.to_vec()));
    assert_eq!(host.file("assets/community_avatar.jpg"), Some(&JPEG_AVATAR.to_vec()));
    assert_eq!(host.invocations.len(), 2);
    assert_eq!(host.invocations[0].program, "typst");
    assert_eq!(
        host.invocations[0].args[..6],
        ["compile", "--format", "png", "--input", "data={\"question\":\"?\"}", "--input"]
    );
    assert_eq!(
        host.invocations[0].args[7..],
        ["/tmp/workspace/og-image.typ", "/tmp/output.png"]
    );
    assert_eq!(host.invocations[1].program, "oxipng");
    assert_eq!(host.invocations[1].args, ["--opt", "2", "--strip", "safe", "/tmp/output.png"]);
}

#[test]
fn test_generate_og_image_with_404_avatar() {
    let mut host = Host::new();
    let server_url = host.server_url.clone();

    // Create test data with a 404 avatar URL - should skip the avatar gracefully
    let author_avatar = format!("{server_url}/missing-avatar.png");
    let community_avatar = format!("{server_url}/test-avatar.jpg");

    let data = OgImageData {
        question: "Will this handle 404 avatars gracefully?",
        author: OgImageAuthorData::new("test-user", &author_avatar),
        community: OgImageCommunityData::new("test-community", &community_avatar),
        outcome: "NONE",
        graph: &[],
    };

    if let Some(image) = generate_image(&mut host, data) {
        assert_eq!(image, "/tmp/output.png");
    }
    assert_eq!(host.requests, vec![author_avatar.clone(), community_avatar.clone()]);
    assert_eq!(host.file("assets/author_avatar.png"), None);
    assert_eq!(host.file("assets/author_avatar.jpg"), None);
    assert_eq!(host.file("assets/community_avatar.jpg"), Some(&JPEG_AVATAR.to_vec()));
    let mut expected = HashMap::new();
    expected.insert(community_avatar, "community_avatar.jpg".to_string());
    assert_eq!(host.avatar_map(), expected);
}

#[test]
fn test_generate_og_image_long_question() {
    let mut host = Host::new();
    let server_url = host.server_url.clone();

    let author_avatar = format!("{server_url}/test-avatar.png");
    let community_avatar = format!("{server_url}/test-avatar.jpg");

    // Test case with a very long question
    let data = OgImageData {
        question: "This is a very long prediction market question that should test how the layout handles questions that might wrap to multiple lines or overflow the available space in the OpenGraph image template design. Will this extremely long question be handled gracefully by the text rendering system?",
        author: OgImageAuthorData::new("@verbose_predictor", &author_avatar),
        community: OgImageCommunityData::new("Long Questions Community", &community_avatar),
        outcome: "NONE",
        graph: &[],
    };

    if let Some(image) = generate_image(&mut host, data) {
        assert_eq!(image, "/tmp/output.png");
    }
    assert_eq!(host.invocations.len(), 2);
    assert_eq!(host.avatar_map().len(), 2);
}

#[test]
fn no_series_and_no_avatars_still_render() {
    let mut host = Host::new();
    let server_url = host.server_url.clone();
    let author_avatar = format!("{server_url}/missing-author.png");
    let community_avatar = format!("{server_url}/missing-community.png");
    let data = OgImageData {
        question: "Will this test pass?",
        author: OgImageAuthorData::new("test-user", &author_avatar),
        community: OgImageCommunityData::new("test-community", &community_avatar),
        outcome: "NONE",
        graph: &[],
    };
    let generator = OgImageGenerator::new();
    assert_eq!(host.generate(&generator, &data), Ok("/tmp/output.png".to_string()));
    assert_eq!(host.requests, vec![author_avatar, community_avatar]);
    assert!(host.files.iter().all(|(path, _)| !path.contains("avatar")));
    assert_eq!(host.invocations[0].args[6], "avatar_map={}");
    assert_eq!(host.avatar_map(), HashMap::new());
}

#[test]
fn an_avatar_of_an_unknown_format_is_left_out() {
    let mut host = Host::new();
    let server_url = host.server_url.clone();
    let author_avatar = format!("{server_url}/test-avatar.gif");
    let community_avatar = format!("{server_url}/test-avatar.png");
    let data = OgImageData {
        question: "Will this test pass?",
        author: OgImageAuthorData::new("test-user", &author_avatar),
        community: OgImageCommunityData::new("test-community", &community_avatar),
        outcome: "NONE",
        graph: &[],
    };
    let generator = OgImageGenerator::new();
    assert_eq!(host.generate(&generator, &data), Ok("/tmp/output.png".to_string()));
    assert!(host.files.iter().all(|(path, _)| !path.contains("author_avatar")));
    assert_eq!(host.file("assets/community_avatar.png"), Some(&PNG_AVATAR.to_vec()));
    let mut expected = HashMap::new();
    expected.insert(community_avatar, "community_avatar.png".to_string());
    assert_eq!(host.avatar_map(), expected);
}

#[test]
fn a_forbidden_avatar_fails_the_generation() {
    let mut host = Host::new();
    let server_url = host.server_url.clone();
    let author_avatar = format!("{server_url}/test-avatar.png");
    let community_avatar = format!("{server_url}/forbidden.png");
    let data = OgImageData {
        question: "Will this test pass?",
        author: OgImageAuthorData::new("test-user", &author_avatar),
        community: OgImageCommunityData::new("test-community", &community_avatar),
        outcome: "NONE",
        graph: &[],
    };
    let generator = OgImageGenerator::new();
    assert_eq!(
        host.generate(&generator, &data),
        Err(OgImageError::AvatarDownloadError {
            url: community_avatar,
            failure: og_image::DownloadFailure::Status(403),
        })
    );
    assert!(host.invocations.is_empty());
}

#[test]
fn a_missing_optimizer_leaves_the_image_as_rendered() {
    let mut host = Host::new();
    host.oxipng = Err("No such file or directory (os error 2)".to_string());
    let server_url = host.server_url.clone();
    let author_avatar = format!("{server_url}/test-avatar.png");
    let community_avatar = format!("{server_url}/test-avatar.jpg");
    let data = OgImageData {
        question: "Will this test pass?",
        author: OgImageAuthorData::new("test-user", &author_avatar),
        community: OgImageCommunityData::new("test-community", &community_avatar),
        outcome: "NONE",
        graph: &[],
    };
    let generator = OgImageGenerator::new().with_oxipng_path("/nowhere/oxipng".to_string());
    assert_eq!(host.generate(&generator, &data), Ok("/tmp/output.png".to_string()));
    assert_eq!(host.invocations.len(), 2);
    assert_eq!(host.invocations[1].program, "/nowhere/oxipng");
}

#[test]
fn a_failing_optimizer_leaves_the_image_as_rendered() {
    for code in [Some(1), Some(101), None] {
        let mut host = Host::new();
        host.oxipng = Ok(code);
        let data = OgImageData {
            question: "Will this test pass?",
            author: OgImageAuthorData::new("test-user", "http://127.0.0.1:1234/test-avatar.png"),
            community: OgImageCommunityData::new("test-community", "http://127.0.0.1:1234/x"),
            outcome: "NONE",
            graph: &[],
        };
        let generator = OgImageGenerator::new();
        assert_eq!(host.generate(&generator, &data), Ok("/tmp/output.png".to_string()));
    }
}

#[test]
fn a_failing_engine_fails_the_generation_before_the_optimizer() {
    let mut host = Host::new();
    host.typst_exit = Some(1);
    let data = OgImageData {
        question: "Will this test pass?",
        author: OgImageAuthorData::new("test-user", "http://127.0.0.1:1234/test-avatar.png"),
        community: OgImageCommunityData::new("test-community", "http://127.0.0.1:1234/x"),
        outcome: "NONE",
        graph: &[],
    };
    let generator = OgImageGenerator::new();
    assert_eq!(
        host.generate(&generator, &data),
        Err(OgImageError::TypstCompilationError {
            stderr: "error: compilation failed".to_string(),
            stdout: String::new(),
            exit_code: Some(1),
        })
    );
    assert_eq!(host.invocations.len(), 1);
}

#[test]
fn two_runs_on_one_input_ask_for_the_same_work() {
    let data = OgImageData {
        question: "Will this test pass?",
        author: OgImageAuthorData::new("test-user", "http://127.0.0.1:1234/test-avatar.png"),
        community: OgImageCommunityData::new("test-community", "http://127.0.0.1:1234/missing"),
        outcome: "NONE",
        graph: &[],
    };
    let generator = OgImageGenerator::new();
    let mut first = Host::new();
    let mut second = Host::new();
    assert_eq!(first.generate(&generator, &data), second.generate(&generator, &data));
    assert_eq!(first.requests, second.requests);
    assert_eq!(first.files, second.files);
    assert_eq!(first.invocations, second.invocations);
}

#[test]
fn the_avatar_map_is_encoded_as_a_json_object() {
    let mut host = Host::new();
    let data = OgImageData {
        question: "Will \"quotes\" pass?",
        author: OgImageAuthorData::new("test-user", "http://127.0.0.1:1234/test-avatar.png"),
        community: OgImageCommunityData::new("test-community", "http://127.0.0.1:1234/test-avatar.png"),
        outcome: "NONE",
        graph: &[],
    };
    let generator = OgImageGenerator::new();
    assert_eq!(host.generate(&generator, &data), Ok("/tmp/output.png".to_string()));
    assert_eq!(host.requests, vec!["http://127.0.0.1:1234/test-avatar.png"]);
    assert_eq!(
        host.invocations[0].args[6],
        "avatar_map={\"http://127.0.0.1:1234/test-avatar.png\":\"author_avatar.png\"}"
    );
}
