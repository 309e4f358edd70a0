use shaderpad::source::{loaded_or_empty, ShaderSourceSet};

fn text(s: &str) -> Option<String> {
    Some(String::from(s))
}

#[test]
fn missing_file_counts_as_empty() {
    assert_eq!(loaded_or_empty(None), "");
    assert_eq!(loaded_or_empty(text("void main(){}")), "void main(){}");
}

#[test]
fn framed_source_is_head_body_tail_one_after_the_other() {
    let set = ShaderSourceSet::framed(
        text("in vec4 p;"),
        text("#version 140\n"),
        text("void main(){}"),
        text("\n// end"),
    );
    assert!(set.is_framed());
    assert_eq!(set.vertex_source(), "in vec4 p;");
    assert_eq!(set.fragment_source(), "#version 140\nvoid main(){}\n// end");
}

#[test]
fn framed_source_with_empty_head_and_tail() {
    let body = "void main(){ outColor = vec4(1,0,0,1); }";
    let set = ShaderSourceSet::framed(None, text(""), text(body), text(""));
    assert!(set.is_framed());
    assert_eq!(set.fragment_source(), body);
    assert_eq!(set.vertex_source(), "");
}

#[test]
fn framed_source_with_missing_files_is_empty() {
    let set = ShaderSourceSet::framed(None, None, None, None);
    assert_eq!(set.fragment_head, Some(String::new()));
    assert_eq!(set.fragment_tail, Some(String::new()));
    assert_eq!(set.fragment_source(), "");
}

#[test]
fn single_source_is_the_body_alone() {
    let set = ShaderSourceSet::single(text("v"), text("void main(){}"));
    assert!(!set.is_framed());
    assert_eq!(set.fragment_head, None);
    assert_eq!(set.fragment_tail, None);
    assert_eq!(set.fragment_source(), "void main(){}");
    assert_eq!(set.vertex_source(), "v");
    let empty = ShaderSourceSet::single(None, None);
    assert_eq!(empty.fragment_source(), "");
}

#[test]
fn one_sided_frame_puts_nothing_in_between() {
    let set = ShaderSourceSet {
        vertex: String::new(),
        fragment_head: Some(String::from("head")),
        fragment_body: String::from("body"),
        fragment_tail: None,
    };
    assert!(set.is_framed());
    assert_eq!(set.fragment_source(), "headbody");
    let set = ShaderSourceSet {
        vertex: String::new(),
        fragment_head: None,
        fragment_body: String::from("body"),
        fragment_tail: Some(String::from("tail")),
    };
    assert_eq!(set.fragment_source(), "bodytail");
}

#[test]
fn set_body_replaces_only_the_body() {
    let mut set = ShaderSourceSet::framed(text("v"), text("h"), text("old"), text("t"));
    set.set_body(String::from("new"));
    assert_eq!(set.fragment_source(), "hnewt");
    assert_eq!(set.vertex_source(), "v");
    assert_eq!(set.fragment_head, text("h"));
    assert_eq!(set.fragment_tail, text("t"));
}

#[test]
fn text_beyond_ascii_is_kept() {
    let set = ShaderSourceSet::framed(None, text("// é\n"), text("// 色\n"), text("// ü"));
    assert_eq!(set.fragment_source(), "// é\n// 色\n// ü");
    let set = ShaderSourceSet::framed(None, text("é"), text("色"), text("ü"));
    assert_eq!(set.fragment_source(), "é色ü");
}
