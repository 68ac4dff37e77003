use generator::Generator;
use generator::RenderContext;
use generator::RenderError;

#[test]
fn as_json() {
    let dir = tempdir::TempDir::new("initialization").unwrap();
    let project_path = dir.path().to_str().unwrap();
    let templates = tempdir::TempDir::new("templates").unwrap();
    let template_path = templates.path().to_str().unwrap();

    let src_file = "src.txt";
    let dst_file = "dst.txt";
    let gen = Generator::new(project_path, template_path).unwrap();
    let context = RenderContext::new();

    let result = gen.generate_file(&context, src_file, dst_file);
    match result {
        Err(RenderError::MissingTemplateError(p)) => assert_eq!(p, "src.txt"),
        _ => assert!(false, "Expected MissingTemplateError"),
    }
}
