use sbtui::command::ClientCommand;
use sbtui::gui_lang::Locale;
use sbtui::gui_parse::{
    classify_import, clipboard_import, file_import_request, import_name, link_edit_request, parse_count, parse_port,
    subscription_request, url_editor_target, ImportAttempt, ImportReject, ImportRequest,
};

#[test]
fn parse_port_accepts_real_ports_and_rejects_zero_or_garbage() {
    assert_eq!(parse_port("2080"), Some(2080));
    assert_eq!(parse_port(" 7890 "), Some(7890));
    assert_eq!(parse_port("0"), None);
    assert_eq!(parse_port(""), None);
    assert_eq!(parse_port("abc"), None);
    assert_eq!(parse_port("99999"), None);
}

#[test]
fn parse_count_accepts_zero_for_off() {
    assert_eq!(parse_count("0"), Some(0));
    assert_eq!(parse_count("30"), Some(30));
    assert_eq!(parse_count("-1"), None);
    assert_eq!(parse_count(""), None);
}

#[test]
fn an_empty_link_is_refused_with_a_reason_instead_of_vanishing() {
    for blank in ["", "   ", "\t\n"] {
        assert_eq!(
            classify_import(blank),
            ImportAttempt::Reject(ImportReject::EmptyUrl),
            "whitespace is as empty as nothing: {blank:?}"
        );
    }
    assert_eq!(
        ImportReject::EmptyUrl.label(Locale::Zh),
        "订阅链接不能为空。",
        "Chinese keeps the terminal client's shape: it names what is missing"
    );
    assert!(
        !ImportReject::EmptyUrl.label(Locale::En).is_empty(),
        "an English window must not fall back to Chinese for its errors"
    );
    assert_ne!(
        ImportReject::EmptyUrl.label(Locale::Zh),
        ImportReject::EmptyUrl.label(Locale::En)
    );
}

#[test]
fn a_real_link_goes_to_the_engine_and_only_a_valid_one_clears_the_field() {
    assert_eq!(
        classify_import("  https://sub.example.test/sb.json  "),
        ImportAttempt::Submit {
            url: "https://sub.example.test/sb.json".to_owned(),
            keep_in_field: false,
        }
    );
    assert!(matches!(
        classify_import("http://example.test/a"),
        ImportAttempt::Submit {
            keep_in_field: false,
            ..
        }
    ));
    assert_eq!(
        classify_import("ftp://example.test/a"),
        ImportAttempt::Submit {
            url: "ftp://example.test/a".to_owned(),
            keep_in_field: true,
        }
    );
}

#[test]
fn a_local_path_is_imported_as_a_file_and_stays_in_the_field() {
    assert_eq!(
        file_import_request("  C:\\sbctl\\home 本地.json  "),
        ImportRequest::Send {
            command: ClientCommand::ImportProfileFile("C:\\sbctl\\home 本地.json".to_owned()),
            keep_in_field: true,
        }
    );
    for path in ["/home/u/.config/sb/local.json", "D:\\sb.json", "local.json"] {
        assert!(
            !matches!(
                file_import_request(path),
                ImportRequest::Send {
                    command: ClientCommand::ImportSubscription { .. },
                    ..
                }
            ),
            "a path must never be fetched as a link: {path}"
        );
    }
}

#[test]
fn an_empty_path_is_refused_with_a_reason_of_its_own() {
    for blank in ["", "   ", "\t\n"] {
        assert_eq!(
            file_import_request(blank),
            ImportRequest::Reject(ImportReject::EmptyPath),
            "a blank path is no file to read: {blank:?}"
        );
    }
    assert_eq!(
        ImportReject::EmptyPath.label(Locale::Zh),
        "本地 JSON 文件路径不能为空。",
        "Chinese names the field the way the other refusal names its field"
    );
    assert_ne!(
        ImportReject::EmptyPath.label(Locale::Zh),
        ImportReject::EmptyUrl.label(Locale::Zh),
        "the two blanks must not blame the same field"
    );
    assert!(
        !ImportReject::EmptyPath.label(Locale::En).contains("本地"),
        "an English window must not fall back to Chinese for its errors"
    );
}

#[test]
fn a_typed_profile_name_reaches_the_engine_and_a_blank_one_does_not() {
    assert_eq!(
        subscription_request(" 家宽 ", "https://sub.example.test/sb.json"),
        ImportRequest::Send {
            command: ClientCommand::ImportSubscription {
                name: Some("家宽".to_owned()),
                url: "https://sub.example.test/sb.json".to_owned(),
            },
            keep_in_field: false,
        }
    );
    for blank in ["", "   ", "\n"] {
        assert_eq!(import_name(blank), None, "whitespace is not a name: {blank:?}");
    }
    assert_eq!(
        subscription_request("家宽", "   "),
        ImportRequest::Reject(ImportReject::EmptyUrl)
    );
}

#[test]
fn the_link_editor_rewrites_its_own_profile_and_refuses_an_empty_link() {
    assert_eq!(
        link_edit_request("内网订阅", "https://new.example.test/sb.json"),
        ImportRequest::Send {
            command: ClientCommand::SetProfileUrl {
                name: "内网订阅".to_owned(),
                url: "https://new.example.test/sb.json".to_owned(),
            },
            keep_in_field: false,
        }
    );
    assert_eq!(
        link_edit_request("内网订阅", "   "),
        ImportRequest::Reject(ImportReject::EmptyUrl),
        "a file-only profile's editor opens empty; saving that must not clear the link"
    );
    assert_eq!(
        link_edit_request("内网订阅", "ftp://example.test/a"),
        ImportRequest::Send {
            command: ClientCommand::SetProfileUrl {
                name: "内网订阅".to_owned(),
                url: "ftp://example.test/a".to_owned(),
            },
            keep_in_field: true,
        }
    );
    let edited = link_edit_request("内网订阅", "https://x.test/a");
    assert!(
        !matches!(
            edited,
            ImportRequest::Send {
                command: ClientCommand::ImportSubscription { .. },
                ..
            }
        ),
        "editing a link must never import a second profile: {edited:?}"
    );
}

#[test]
fn one_link_editor_is_open_at_a_time_and_arming_it_again_closes_it() {
    assert_eq!(
        url_editor_target(None, "内网"),
        Some("内网".to_owned()),
        "a closed row opens on its first click"
    );
    assert_eq!(url_editor_target(Some("内网"), "内网"), None);
    assert_eq!(
        url_editor_target(Some("内网"), "机场"),
        Some("机场".to_owned()),
        "another row moves the editor rather than stacking a second one"
    );
}

#[test]
fn the_clipboard_imports_its_text_untouched_unless_blank() {
    assert_eq!(clipboard_import("  \n"), None);
    assert_eq!(
        clipboard_import(" https://sub.example/a \n"),
        Some(ClientCommand::ImportSubscription { name: None, url: " https://sub.example/a \n".to_owned() })
    );
}
