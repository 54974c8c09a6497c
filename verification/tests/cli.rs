use engine::cli::{parse_dims, parse_u32};
use engine::EngineError;

fn chars(s: &str) -> Vec<char> {
    s.chars().collect()
}

#[test]
fn parse_u32_matches_std() {
    for s in ["0", "42", "+7", "4294967295", "4294967296", "", "+", "-1", "1a", " 1", "007"] {
        assert_eq!(parse_u32(&chars(s)), s.parse::<u32>().ok(), "input {s:?}");
    }
}

#[test]
fn parse_dims_accepts_w_x_h() {
    assert_eq!(parse_dims("1920x1080"), Ok((1920, 1080)));
    assert_eq!(parse_dims("800X600"), Ok((800, 600)));
}

#[test]
fn parse_dims_reports_each_error() {
    assert_eq!(
        parse_dims("1920"),
        Err("dimensions must look like WxH, e.g. 1920x1080".to_string())
    );
    assert_eq!(
        parse_dims("1x2x3"),
        Err("dimensions must look like WxH, e.g. 1920x1080".to_string())
    );
    assert_eq!(parse_dims("ax2"), Err("invalid width".to_string()));
    assert_eq!(parse_dims("2x"), Err("invalid height".to_string()));
    assert_eq!(
        parse_dims("0x5"),
        Err("dimensions must be greater than zero".to_string())
    );
}

#[test]
fn error_messages_carry_their_cause() {
    let io = EngineError::Io {
        path: "/a.jpg".to_string(),
        message: "denied".to_string(),
    };
    assert_eq!(io.message(), "I/O error for /a.jpg: denied");
    assert_eq!(
        EngineError::Encode("x".to_string()).message(),
        "could not encode image: x"
    );
    assert_eq!(
        EngineError::Resize("y".to_string()).message(),
        "resize failed: y"
    );
}
