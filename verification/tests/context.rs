use generator::RenderContext;

#[test]
fn context_starts_empty() {
    let context = RenderContext::new();
    assert_eq!(context.len(), 0);
    assert!(context.get("msg").is_none());
}

#[test]
fn context_add_then_get() {
    let mut context = RenderContext::new();
    context.add("msg", "Hello World!");
    assert_eq!(context.len(), 1);
    assert_eq!(context.get("msg").unwrap(), "Hello World!");
    assert!(context.get("other").is_none());
}

#[test]
fn context_add_overwrites_in_place() {
    let mut context = RenderContext::new();
    context.add("msg", "first");
    context.add("name", "n");
    context.add("msg", "second");
    assert_eq!(context.len(), 2);
    assert_eq!(context.get("msg").unwrap(), "second");
    assert_eq!(context.get("name").unwrap(), "n");
}

#[test]
fn context_round_trip_matches_direct_use() {
    let mut built = RenderContext::new();
    built.add("msg", "X");

    let mut direct = RenderContext::new();
    direct.add("msg", "X");

    assert_eq!(built.len(), direct.len());
    assert_eq!(built.get("msg").unwrap(), direct.get("msg").unwrap());
}

#[test]
fn context_empty_key_is_kept() {
    let mut context = RenderContext::new();
    context.add("", "v");
    assert_eq!(context.len(), 1);
    assert_eq!(context.get("").unwrap(), "v");
}
