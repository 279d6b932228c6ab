use aiosc::conversation::new_conversation;
use aiosc::message::Role;
use aiosc::protocol::{
    confirmation_decision, parse_reply, record_abort, record_execution, serialize_directive,
    Directive, DirectiveKind, ParsedReply,
};

fn expect_command(r: ParsedReply) -> Directive {
    match r {
        ParsedReply::Command(d) => d,
        ParsedReply::Plain => panic!("expected a command directive"),
    }
}

#[test]
fn silent_tag_extracts_trimmed_body() {
    let d = expect_command(parse_reply("<cmd>  ls -la  </cmd>"));
    assert!(matches!(d.kind, DirectiveKind::Silent));
    assert!(!d.kind.wants_full_output());
    assert_eq!(d.body, "ls -la");
    assert_eq!(d.commentary, "");
}

#[test]
fn contextual_tag_extracts_trimmed_body() {
    let d = expect_command(parse_reply("<cmdctx>cat log.txt\n</cmdctx>"));
    assert!(matches!(d.kind, DirectiveKind::Contextual));
    assert!(d.kind.wants_full_output());
    assert_eq!(d.body, "cat log.txt");
}

#[test]
fn commentary_before_the_tag_is_kept_and_trimmed() {
    let d = expect_command(parse_reply("Listing the directory...\n<cmd>ls</cmd>"));
    assert!(matches!(d.kind, DirectiveKind::Silent));
    assert_eq!(d.body, "ls");
    assert_eq!(d.commentary, "Listing the directory...");
}

#[test]
fn earlier_contextual_tag_wins() {
    let d = expect_command(parse_reply("<cmdctx>first</cmdctx> and <cmd>second</cmd>"));
    assert!(matches!(d.kind, DirectiveKind::Contextual));
    assert_eq!(d.body, "first");
}

#[test]
fn earlier_silent_tag_wins() {
    let d = expect_command(parse_reply("<cmd>first</cmd> and <cmdctx>second</cmdctx>"));
    assert!(matches!(d.kind, DirectiveKind::Silent));
    assert_eq!(d.body, "first");
}

#[test]
fn empty_body_is_extracted_empty() {
    let d = expect_command(parse_reply("<cmd></cmd>"));
    assert_eq!(d.body, "");
}

#[test]
fn reply_without_tags_is_plain() {
    assert!(matches!(parse_reply("just some prose"), ParsedReply::Plain));
    assert!(matches!(parse_reply(""), ParsedReply::Plain));
}

#[test]
fn unclosed_tag_is_treated_as_plain_text() {
    assert!(matches!(parse_reply("<cmd>ls -la"), ParsedReply::Plain));
    assert!(matches!(parse_reply("<cmdctx>cat x"), ParsedReply::Plain));
    // A close tag of the other kind does not match.
    assert!(matches!(parse_reply("<cmd>ls</cmdctx>"), ParsedReply::Plain));
}

#[test]
fn serialized_directive_round_trips() {
    let s = serialize_directive(DirectiveKind::Silent, "mkdir /tmp/t");
    assert_eq!(s, "<cmd>mkdir /tmp/t</cmd>");
    let d = expect_command(parse_reply(&s));
    assert!(matches!(d.kind, DirectiveKind::Silent));
    assert_eq!(d.body, "mkdir /tmp/t");

    let s = serialize_directive(DirectiveKind::Contextual, "ps aux");
    assert_eq!(s, "<cmdctx>ps aux</cmdctx>");
    let d = expect_command(parse_reply(&s));
    assert!(matches!(d.kind, DirectiveKind::Contextual));
    assert_eq!(d.body, "ps aux");
}

#[test]
fn confirmation_gate_accepts_only_blank_answers() {
    assert!(confirmation_decision(true, ""));
    assert!(confirmation_decision(true, "\n"));
    assert!(confirmation_decision(true, "   \n"));
    assert!(!confirmation_decision(true, "n\n"));
    assert!(!confirmation_decision(true, "anything"));
    assert!(confirmation_decision(false, "n"));
    assert!(confirmation_decision(false, ""));
}

#[test]
fn executed_directive_is_recorded_as_two_messages() {
    let mut conv = new_conversation("sys".to_string());
    record_execution(&mut conv, DirectiveKind::Contextual, "echo hi", "hi\n".to_string());
    assert_eq!(conv.len(), 3);
    assert!(matches!(conv[1].role, Role::Assistant));
    assert_eq!(conv[1].content, "<cmdctx>echo hi</cmdctx>");
    assert!(matches!(conv[2].role, Role::Tool));
    assert_eq!(conv[2].content, "hi\n");
}

#[test]
fn declined_confirmation_leaves_an_abort_notice() {
    // End to end: the model proposes a command, confirmation is required
    // and declined, so nothing is executed and the conversation ends with
    // the abort notice.
    let mut conv = new_conversation("sys".to_string());
    let d = expect_command(parse_reply("<cmd>ls -la</cmd>"));
    assert!(matches!(d.kind, DirectiveKind::Silent));
    assert_eq!(d.body, "ls -la");
    let proceed = confirmation_decision(true, "n\n");
    assert!(!proceed);
    record_abort(&mut conv);
    assert_eq!(conv.len(), 2);
    let last = conv.last().unwrap();
    assert!(matches!(last.role, Role::Assistant));
    assert_eq!(last.content, "Command aborted by user.");
}
