use invite_runner::errors::TaskError;
use invite_runner::records::{
    pair_records, parse_identity_record, parse_pairing, parse_proxy_record, read_worklist,
    split_fields, strip_return, text_lines,
};

#[test]
fn fields_are_split_at_each_separator() {
    assert_eq!(split_fields("a:b:c", ':'), vec!["a", "b", "c"]);
    assert_eq!(split_fields("", ':'), vec![""]);
    assert_eq!(split_fields("abc", ':'), vec!["abc"]);
    assert_eq!(split_fields(":", ':'), vec!["", ""]);
    assert_eq!(split_fields("a::b:", ':'), vec!["a", "", "b", ""]);
    assert_eq!(split_fields(":a", ':'), vec!["", "a"]);
    assert_eq!(split_fields("h\u{e9}:\u{4e16}\u{754c}", ':'), vec!["h\u{e9}", "\u{4e16}\u{754c}"]);
    assert_eq!(split_fields("a:b", ','), vec!["a:b"]);
}

#[test]
fn splitting_agrees_with_the_standard_library() {
    for text in ["", ":", "a", "a:b", "::", "a:b:c:d", ":a:", "x:\u{e9}:y", "no separator"] {
        let expected: Vec<String> = text.split(':').map(|field| field.to_string()).collect();
        assert_eq!(split_fields(text, ':'), expected);
    }
}

#[test]
fn proxy_record_has_four_fields() {
    let endpoint = parse_proxy_record("10.0.0.1:8080:user:secret").unwrap();
    assert_eq!(endpoint.host, "10.0.0.1");
    assert_eq!(endpoint.port, "8080");
    assert_eq!(endpoint.username, "user");
    assert_eq!(endpoint.password, "secret");
    let endpoint = parse_proxy_record(":::").unwrap();
    assert_eq!(endpoint.host, "");
    assert_eq!(endpoint.password, "");
}

#[test]
fn proxy_record_with_wrong_field_count_is_malformed() {
    for line in ["", "host", "host:1", "host:1:user", "host:1:user:pass:more", "a:b:c:d:"] {
        assert_eq!(
            parse_proxy_record(line).unwrap_err(),
            TaskError::MalformedInputRecord
        );
    }
}

#[test]
fn identity_record_has_two_fields() {
    let identity = parse_identity_record("me@example.com:imap-pass", "CODE7").unwrap();
    assert_eq!(identity.email, "me@example.com");
    assert_eq!(identity.invite_code, "CODE7");
    let identity = parse_identity_record(":", "").unwrap();
    assert_eq!(identity.email, "");
    assert_eq!(identity.invite_code, "");
}

#[test]
fn identity_record_with_wrong_field_count_is_malformed() {
    for line in ["", "me@example.com", "a:b:c"] {
        assert_eq!(
            parse_identity_record(line, "C").unwrap_err(),
            TaskError::MalformedInputRecord
        );
    }
}

#[test]
fn pairing_needs_both_records() {
    let item = parse_pairing("h:1:u:p", "e@x.io:aux", "INV").unwrap();
    assert_eq!(item.endpoint.host, "h");
    assert_eq!(item.endpoint.port, "1");
    assert_eq!(item.identity.email, "e@x.io");
    assert_eq!(item.identity.invite_code, "INV");
    assert_eq!(
        parse_pairing("h:1:u", "e@x.io:aux", "INV").unwrap_err(),
        TaskError::MalformedInputRecord
    );
    assert_eq!(
        parse_pairing("h:1:u:p", "e@x.io", "INV").unwrap_err(),
        TaskError::MalformedInputRecord
    );
}

#[test]
fn records_are_paired_by_position() {
    let proxies = vec![
        "h0:1:u:p".to_string(),
        "broken".to_string(),
        "h2:3:u:p".to_string(),
        "h3:4:u:p".to_string(),
    ];
    let identities = vec![
        "zero@x.io:a".to_string(),
        "one@x.io:a".to_string(),
        "two@x.io:a".to_string(),
    ];
    let worklist = pair_records(&proxies, &identities, "INV");
    assert_eq!(worklist.len(), 3);
    let first = worklist[0].as_ref().unwrap();
    assert_eq!(first.endpoint.host, "h0");
    assert_eq!(first.identity.email, "zero@x.io");
    assert_eq!(
        *worklist[1].as_ref().unwrap_err(),
        TaskError::MalformedInputRecord
    );
    let third = worklist[2].as_ref().unwrap();
    assert_eq!(third.endpoint.host, "h2");
    assert_eq!(third.endpoint.port, "3");
    assert_eq!(third.identity.email, "two@x.io");
    assert_eq!(pair_records(&Vec::new(), &identities, "INV").len(), 0);
    assert_eq!(pair_records(&proxies, &Vec::new(), "INV").len(), 0);
}

#[test]
fn lines_end_at_line_feeds() {
    assert_eq!(text_lines(""), Vec::<String>::new());
    assert_eq!(text_lines("a"), vec!["a"]);
    assert_eq!(text_lines("a\n"), vec!["a"]);
    assert_eq!(text_lines("a\nb"), vec!["a", "b"]);
    assert_eq!(text_lines("a\r\nb\r\n"), vec!["a", "b"]);
    assert_eq!(text_lines("a\n\nb"), vec!["a", "", "b"]);
    assert_eq!(text_lines("\n"), vec![""]);
    assert_eq!(text_lines("a\r"), vec!["a\r"]);
    assert_eq!(text_lines("a\r\r\nb"), vec!["a\r", "b"]);
    assert_eq!(text_lines("\r\n"), vec![""]);
}

#[test]
fn lines_agree_with_the_standard_library() {
    for text in [
        "",
        "x",
        "x\n",
        "x\ny",
        "x\r\ny\r\n",
        "\n\n",
        "x\r",
        "\r",
        "a\r\n\r\nb",
        "h:1:u:p\nh:2:u:p\n",
        "\u{e9}\n\u{4e16}",
    ] {
        let expected: Vec<String> = text.lines().map(|line| line.to_string()).collect();
        assert_eq!(text_lines(text), expected);
    }
}

#[test]
fn carriage_return_is_stripped_once() {
    assert_eq!(strip_return("abc\r"), "abc");
    assert_eq!(strip_return("abc"), "abc");
    assert_eq!(strip_return(""), "");
    assert_eq!(strip_return("\r"), "");
    assert_eq!(strip_return("a\r\r"), "a\r");
    assert_eq!(strip_return("\ra"), "\ra");
}

#[test]
fn worklist_is_read_from_two_texts() {
    let worklist = read_worklist(
        "1.1.1.1:80:u1:pw-a\r\n2.2.2.2:81:u2:pw-b\n3.3.3.3:82:u3:pw-c\n",
        "a@x.io:ia\nb@x.io\n",
        "CODE",
    );
    assert_eq!(worklist.len(), 2);
    let first = worklist[0].as_ref().unwrap();
    assert_eq!(first.endpoint.host, "1.1.1.1");
    assert_eq!(first.endpoint.password, "pw-a");
    assert_eq!(first.identity.email, "a@x.io");
    assert_eq!(first.identity.invite_code, "CODE");
    assert_eq!(
        *worklist[1].as_ref().unwrap_err(),
        TaskError::MalformedInputRecord
    );
    assert_eq!(read_worklist("", "a@x.io:ia\n", "CODE").len(), 0);
}
