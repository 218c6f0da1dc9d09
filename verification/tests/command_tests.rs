use zimiri::commands::{
    no_images_reply, output_filename, ping_reply, plan_image_command, strip_token,
    ImageCommandPlan,
};
use zimiri::error::{ErrorKind, ZimiriError};

fn chars(s: &str) -> Vec<char> {
    s.chars().collect()
}

fn text(v: &[char]) -> String {
    v.iter().collect()
}

#[test]
fn zero_attachments_only_reply_that_none_were_provided() {
    let plan = plan_image_command(&Vec::new());
    assert!(matches!(plan, ImageCommandPlan::ReplyNoImages));
    assert_eq!(no_images_reply(), "No image(s) provided.");
}

#[test]
fn only_image_attachments_are_processed_in_order() {
    let plan = plan_image_command(&vec![true, false, true]);
    match plan {
        ImageCommandPlan::Transform(idx) => assert_eq!(idx, vec![0, 2]),
        ImageCommandPlan::ReplyNoImages => panic!("attachments were provided"),
    }
}

#[test]
fn non_image_attachments_alone_give_an_empty_plan() {
    let plan = plan_image_command(&vec![false, false]);
    match plan {
        ImageCommandPlan::Transform(idx) => assert!(idx.is_empty()),
        ImageCommandPlan::ReplyNoImages => panic!("attachments were provided"),
    }
}

#[test]
fn fixed_replies() {
    assert_eq!(ping_reply(), "Pong!");
    assert_eq!(output_filename(), "output.png");
}

#[test]
fn strip_token_removes_the_command_invocation() {
    let out = strip_token(&chars("!repeat hello there"), &chars("!repeat"));
    assert_eq!(text(&out), " hello there");
}

#[test]
fn strip_token_removes_only_the_leading_token() {
    let out = strip_token(&chars("!repeat!repeat"), &chars("!repeat"));
    assert_eq!(text(&out), "!repeat");
    let out = strip_token(&chars("ababa"), &chars("ab"));
    assert_eq!(text(&out), "aba");
}

#[test]
fn strip_token_leaves_text_without_the_leading_token_alone() {
    let out = strip_token(&chars("hello"), &chars("!repeat"));
    assert_eq!(text(&out), "hello");
    let out = strip_token(&chars("say !repeat again"), &chars("!repeat"));
    assert_eq!(text(&out), "say !repeat again");
    let out = strip_token(&chars("hi"), &chars(""));
    assert_eq!(text(&out), "hi");
}

#[test]
fn error_carries_its_kind_and_message() {
    let e = ZimiriError::new(ErrorKind::Transport, "connection lost");
    assert_eq!(e.kind, ErrorKind::Transport);
    assert_eq!(e.describe(), "connection lost");
}
