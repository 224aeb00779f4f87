use gfx_trials::shader::{check_compile, check_link, info_log_text, ProgramKind, ShaderStage, INFO_LOG_CAPACITY, STATUS_OK};

#[test]
fn compiled_shader_reports_nothing() {
    let buf = vec![0u8; 512];
    assert!(check_compile(ShaderStage::Vertex, STATUS_OK, &buf).is_none());
    assert!(check_compile(ShaderStage::Fragment, STATUS_OK, &buf).is_none());
}

#[test]
fn linked_programs_report_nothing() {
    let buf = vec![0u8; 512];
    assert!(check_link(ProgramKind::Orange, STATUS_OK, &buf).is_none());
    assert!(check_link(ProgramKind::Yellow, STATUS_OK, &buf).is_none());
}

#[test]
fn failed_compile_reports_headline_and_log() {
    let mut buf = vec![0u8; 512];
    let text = b"0:1(1): error: syntax error";
    buf[..text.len()].copy_from_slice(text);
    let err = check_compile(ShaderStage::Fragment, 0, &buf).expect("failure expected");
    assert_eq!(err.headline(), "ERROR::SHADER::FRAGMENT::COMPILATION_FAILED");
    assert_eq!(err.log().as_slice(), &text[..]);
}

#[test]
fn failed_vertex_compile_headline() {
    let err = check_compile(ShaderStage::Vertex, 0, &vec![0u8; 512]).expect("failure expected");
    assert_eq!(err.headline(), "ERROR::SHADER::VERTEX::COMPILATION_FAILED");
    assert!(err.log().is_empty());
    assert!(!err.headline().is_empty());
}

#[test]
fn failed_links_name_their_program() {
    let buf = b"link error\0junk".to_vec();
    let orange = check_link(ProgramKind::Orange, 0, &buf).expect("failure expected");
    let yellow = check_link(ProgramKind::Yellow, 0, &buf).expect("failure expected");
    assert_eq!(orange.headline(), "ERROR::PROGRAM::ORANGE_SHADER::LINKING_FAILED");
    assert_eq!(yellow.headline(), "ERROR::PROGRAM::YELLOW_SHADER::LINKING_FAILED");
    assert_eq!(yellow.log().as_slice(), b"link error");
}

#[test]
fn info_log_is_cut_at_nul_and_capacity() {
    assert_eq!(info_log_text(&b"abc\0def".to_vec()), b"abc".to_vec());
    assert_eq!(info_log_text(&b"abc".to_vec()), b"abc".to_vec());
    assert_eq!(info_log_text(&Vec::new()), Vec::<u8>::new());
    let long = vec![b'x'; 600];
    assert_eq!(info_log_text(&long).len(), INFO_LOG_CAPACITY);
}
