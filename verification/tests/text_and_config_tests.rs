use restix::config::{config_contents, initial_redis_url, parse_config};
use restix::text::{
    chars_of, is_char_boundary, lines_of_str, shorten, split_str, string_from, trim_chars,
};

fn trimmed(s: &str) -> String {
    string_from(&trim_chars(&chars_of(s)))
}

#[test]
fn lines_like_std() {
    let samples = [
        "", "a", "a\n", "a\nb", "a\r\nb\r\n", "\n", "\n\n", "a\rb", "x\r", "x\r\n\r\n", "é\nü",
        "one\ntwo\n\nthree",
    ];
    for s in samples {
        let expected: Vec<String> = s.lines().map(|l| l.to_string()).collect();
        assert_eq!(lines_of_str(s), expected, "input {:?}", s);
    }
}

#[test]
fn trim_like_std() {
    let samples = ["", "  ", " a ", "\t\na b\r\n", "\u{3000}x\u{2003}", "\u{85}y\u{a0}", "z"];
    for s in samples {
        assert_eq!(trimmed(s), s.trim(), "input {:?}", s);
    }
}

#[test]
fn split_like_std() {
    let samples = [
        ("Tab:nav | Enter:view | p:pause", " | "),
        ("", " | "),
        (" | ", " | "),
        ("a | | b", " | "),
        ("a |  | b", " | "),
        ("abc", "b"),
        ("aaa", "aa"),
    ];
    for (s, sep) in samples {
        let expected: Vec<String> = s.split(sep).map(|p| p.to_string()).collect();
        assert_eq!(split_str(s, sep), expected, "input {:?} {:?}", s, sep);
    }
}

#[test]
fn char_boundaries_like_std() {
    let s = "aé€😀b";
    for b in 0..=s.len() + 2 {
        assert_eq!(is_char_boundary(s, b), s.is_char_boundary(b) && b <= s.len(), "byte {}", b);
    }
}

#[test]
fn shortening() {
    assert_eq!(shorten("short", 30, 27), "short");
    let long = "abcdefghijklmnopqrstuvwxyz0123456789";
    assert_eq!(shorten(long, 30, 27), format!("{}...", &long[..27]));
    let exactly = "a".repeat(30);
    assert_eq!(shorten(&exactly, 30, 27), exactly);
}

#[test]
fn config_parsing() {
    assert_eq!(parse_config("REDIS_URL=redis://host:1\n"), Some("redis://host:1".to_string()));
    assert_eq!(parse_config("# comment\nREDIS_URL= redis://a \r\n"), Some("redis://a".to_string()));
    assert_eq!(parse_config("REDIS_URL=\nREDIS_URL=redis://b"), Some("redis://b".to_string()));
    assert_eq!(parse_config("REDIS_URL=REDIS_URL=redis://c"), Some("redis://c".to_string()));
    assert_eq!(parse_config(" REDIS_URL=redis://d"), None);
    assert_eq!(parse_config("OTHER=1"), None);
    assert_eq!(parse_config(""), None);
    assert_eq!(parse_config("REDIS_URL=   "), None);
}

#[test]
fn config_round_trip() {
    for url in ["redis://localhost:6379", "  redis://x  ", "rediss://user:pw@h:1/0", "u\r"] {
        let text = config_contents(url);
        assert_eq!(text, format!("REDIS_URL={}\n", url));
        assert_eq!(parse_config(&text), Some(url.trim().to_string()));
    }
    assert_eq!(parse_config(&config_contents("   ")), None);
}

#[test]
fn startup_url() {
    assert_eq!(initial_redis_url(None), "redis://localhost:6379");
    assert_eq!(initial_redis_url(Some("nothing here".to_string())), "redis://localhost:6379");
    assert_eq!(initial_redis_url(Some("REDIS_URL=redis://z:2\n".to_string())), "redis://z:2");
}
