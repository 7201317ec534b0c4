use clipsync::clipboard::{classify_local_command, clipboard_error_means_empty, clipboard_read_result, LocalCommand};

#[test]
fn empty_clipboard_errors() {
    assert!(clipboard_error_means_empty("clipboard is empty"));
    assert!(clipboard_error_means_empty("Null pointer"));
    assert!(!clipboard_error_means_empty("permission denied"));
    assert_eq!(clipboard_read_result(Ok("".into())), Ok(None));
    assert_eq!(clipboard_read_result(Ok("x".into())), Ok(Some("x".to_string())));
    assert_eq!(clipboard_read_result(Err("no text available".into())), Ok(None));
    assert_eq!(clipboard_read_result(Err("denied".into())), Err("denied".to_string()));
}

#[test]
fn bridge_commands() {
    assert_eq!(classify_local_command("text", Some("a".into()), None, None), LocalCommand::Text("a".into()));
    assert_eq!(classify_local_command("text", None, None, None), LocalCommand::Ignore);
    assert_eq!(
        classify_local_command("image", None, Some("image/png".into()), Some("QQ==".into())),
        LocalCommand::Image("image/png".into(), "QQ==".into())
    );
    assert_eq!(classify_local_command("image", None, Some("image/png".into()), None), LocalCommand::Ignore);
    assert_eq!(classify_local_command("other", Some("a".into()), None, None), LocalCommand::Ignore);
}
