use generator::ConstructionError;
use generator::Generator;
use generator::RenderContext;
use generator::RenderError;

#[test]
fn initialization_ok() {
    let dir = tempdir::TempDir::new("initialization").unwrap();
    let project_path = dir.path().to_str().unwrap();
    let samples = tempdir::TempDir::new("samples").unwrap();
    let template_path = samples.path().to_str().unwrap();

    let generator = Generator::new(project_path, template_path).unwrap();

    assert_eq!(project_path, generator.get_project_path());
    assert_eq!(template_path, generator.get_template_path());
}

#[test]
fn missing_project_dir() {
    let project_path = "none";
    let template_path = "samples";

    let generator_err = Generator::new(project_path, template_path).err().unwrap();

    match generator_err {
        ConstructionError::ProjectDirError(_) => assert!(true),
        _ => assert!(false, "Expected ProjectDirErr"),
    }
}

#[test]
fn missing_template_dir() {
    let dir = tempdir::TempDir::new("initialization").unwrap();
    let project_path = dir.path().to_str().unwrap();
    let template_path = "none";

    let generator_err = Generator::new(project_path, template_path).err().unwrap();

    match generator_err {
        ConstructionError::TemplateDirError(_) => assert!(true),
        _ => assert!(false, "Expected TemplateDirErr"),
    }
}

#[test]
fn missing_src_path() {
    let dir = tempdir::TempDir::new("doesnt_exist").unwrap();
    let project_path = dir.path().to_str().unwrap();
    let samples = tempdir::TempDir::new("samples").unwrap();
    let template_path = samples.path().to_str().unwrap();
    let src_path = "";
    let dst_path = "dst/file.b";

    let context = RenderContext::new();

    let generator = Generator::new(project_path, template_path).unwrap();

    let err = generator
        .generate_file(&context, src_path, dst_path)
        .err()
        .unwrap();

    match err {
        RenderError::SrcPathError(_) => (),
        _ => assert!(false, "Expected SrcPathErr"),
    }
}

#[test]
fn missing_dst_path() {
    let dir = tempdir::TempDir::new("doesnt_exist").unwrap();
    let project_path = dir.path().to_str().unwrap();
    let samples = tempdir::TempDir::new("samples").unwrap();
    let template_path = samples.path().to_str().unwrap();
    let src_path = "src/file.a";
    let dst_path = "";

    let context = RenderContext::new();

    let generator = Generator::new(project_path, template_path).unwrap();

    let err = generator
        .generate_file(&context, src_path, dst_path)
        .err()
        .unwrap();

    match err {
        RenderError::DstPathError(_) => (),
        _ => assert!(false),
    }
}

#[test]
fn missing_template_rejected() {
    let dir = tempdir::TempDir::new("project").unwrap();
    let project_path = dir.path().to_str().unwrap();
    let templates = tempdir::TempDir::new("templates").unwrap();
    let template_path = templates.path().to_str().unwrap();

    let generator = Generator::new(project_path, template_path).unwrap();
    assert!(!generator.has_template("absent.txt"));

    let context = RenderContext::new();
    let err = generator
        .generate_file(&context, "absent.txt", "out.txt")
        .err()
        .unwrap();
    match err {
        RenderError::MissingTemplateError(p) => assert_eq!(p, "absent.txt"),
        _ => assert!(false, "Expected MissingTemplateError"),
    }
}

#[test]
fn error_paths_are_echoed() {
    let dir = tempdir::TempDir::new("project").unwrap();
    let project_path = dir.path().to_str().unwrap();
    let templates = tempdir::TempDir::new("templates").unwrap();
    let template_path = templates.path().to_str().unwrap();

    let generator = Generator::new(project_path, template_path).unwrap();
    let context = RenderContext::new();

    match generator.generate_file(&context, "", "dst.txt") {
        Err(RenderError::SrcPathError(p)) => assert_eq!(p, ""),
        _ => assert!(false),
    }
    match generator.generate_file(&context, "src.txt", "") {
        Err(RenderError::DstPathError(p)) => assert_eq!(p, ""),
        _ => assert!(false),
    }
}

#[test]
fn generator_stays_usable_after_failure() {
    let dir = tempdir::TempDir::new("project").unwrap();
    let project_path = dir.path().to_str().unwrap();
    let templates = tempdir::TempDir::new("templates").unwrap();
    let template_path = templates.path().to_str().unwrap();

    let generator = Generator::new(project_path, template_path).unwrap();
    let context = RenderContext::new();

    assert!(generator.generate_file(&context, "", "dst.txt").is_err());
    assert!(generator
        .generate_file(&context, "still.txt", "dst.txt")
        .is_err());
    assert_eq!(project_path, generator.get_project_path());
    assert_eq!(template_path, generator.get_template_path());
}

#[test]
fn assemble_output_resolves_destination() {
    let out = generator::assemble_output(
        "proj",
        "nested/out.txt",
        String::from("hello"),
    );
    assert_eq!(out.dst_path, "proj/nested/out.txt");
    assert_eq!(out.parent_dir, "proj/nested");
    assert_eq!(out.contents, "hello");
}

#[test]
fn assemble_output_plain_destination() {
    let out = generator::assemble_output("proj", "out.txt", String::from("x"));
    assert_eq!(out.dst_path, "proj/out.txt");
    assert_eq!(out.parent_dir, "proj");
    assert_eq!(out.contents, "x");
}
