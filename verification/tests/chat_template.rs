use spnl::chat_template::{apply, detect, ChatTemplate, ModelNotFoundError};
use spnl::message::Message;

#[test]
fn detect_template() {
    assert_eq!(detect("llama3"), Ok(ChatTemplate::Llama3));
    assert_eq!(detect("google/gemma-3-270m"), Ok(ChatTemplate::Gemma));

    assert_eq!(detect("granite"), Ok(ChatTemplate::Granite));
    assert_eq!(detect("ibm-granite/granite-3.3-8b-instruct"), Ok(ChatTemplate::Granite));
}

#[test]
fn apply_template() {
    let chat = &[Message::User("hi".into())];
    assert_eq!(
        apply(ChatTemplate::Granite, chat, false),
        "<|start_of_role|>user<|end_of_role|>hi<|end_of_text|>"
    );
    assert_eq!(
        apply(ChatTemplate::Granite, chat, true),
        "<|start_of_role|>user<|end_of_role|>hi<|end_of_text|>\n<|start_of_role|>assistant<|end_of_role|>"
    );
    assert_eq!(
        apply(ChatTemplate::Glmedge, chat, true),
        "\n<|user|>\nhi\n<|assistant|>\n"
    );
}

#[test]
fn detect_unknown_model_is_an_error() {
    assert_eq!(detect("some-unknown-model"), Err(ModelNotFoundError));
}

#[test]
fn detect_takes_the_first_listed_family() {
    // "mistral-v7-tekken" also contains "mistral-v7", which is checked first
    assert_eq!(detect("mistral-v7-tekken"), Ok(ChatTemplate::MistralV7));
    assert_eq!(detect("deepseek3"), Ok(ChatTemplate::Deepseek));
    assert_eq!(detect("THUDM/Tulu-2"), Ok(ChatTemplate::Glmedge));
    assert_eq!(detect("openai/gpt-oss-20b"), Ok(ChatTemplate::OpenaiMoe));
}

#[test]
fn apply_chatml_multi_turn() {
    let chat = vec![
        Message::System("be brief".into()),
        Message::User("hi".into()),
        Message::Assistant("hello".into()),
    ];
    assert_eq!(
        apply(ChatTemplate::Chatml, &chat, true),
        "<|im_start|>system\nbe brief<|im_end|>\n<|im_start|>user\nhi<|im_end|>\n<|im_start|>assistant\nhello<|im_end|>\n<|im_start|>assistant"
    );
}

#[test]
fn apply_trims_where_the_family_trims() {
    let chat = vec![Message::System("  sys \n".into()), Message::Assistant(" out ".into())];
    assert_eq!(
        apply(ChatTemplate::Gemma, &chat, true),
        "<start_of_turn>user\nsys<end_of_turn>\n<start_of_turn>model\nout<end_of_turn>\n<start_of_turn>model"
    );
    assert_eq!(
        apply(ChatTemplate::Llama3, &[Message::User("\u{3000}x\t".into())], false),
        "<|start_header_id|>user<|end_header_id|>\n\nx<|eot_id|>"
    );
}

#[test]
fn apply_families_without_assistant_cue() {
    let chat = vec![Message::User("q".into()), Message::Assistant("a".into())];
    assert_eq!(
        apply(ChatTemplate::MistralV7, &chat, true),
        "[INST] q[/INST] a</s>"
    );
    assert_eq!(
        apply(ChatTemplate::MistralV7Tekken, &chat, true),
        "[INST]q[/INST]a</s>"
    );
    assert_eq!(
        apply(ChatTemplate::RwkvWorld, &[Message::User(" q ".into())], true),
        "User: q\n\nAssistant:"
    );
    assert_eq!(
        apply(ChatTemplate::Minicpm, &[Message::User(" q ".into())], true),
        "<<\u{7528}\u{6237}>>q<AI>"
    );
}

#[test]
fn apply_position_dependent_families() {
    let chat = vec![
        Message::System("s".into()),
        Message::User("u".into()),
        Message::System("late".into()),
    ];
    assert_eq!(
        apply(ChatTemplate::Monarch, &chat, false),
        "system\ns</s>\n<s>user\nu</s>\n<s>system\nlate</s>"
    );
    assert_eq!(
        apply(ChatTemplate::HunyuanDense, &chat, false),
        "s<\u{ff5c}hy_place\u{2581}holder\u{2581}no\u{2581}3\u{ff5c}><\u{ff5c}hy_User\u{ff5c}>u"
    );
}

#[test]
fn apply_prologue_families() {
    let chat = vec![Message::User("hi".into())];
    assert_eq!(apply(ChatTemplate::Chatglm4, &chat, true), "[gMASK]sop<|user|>\nhi<|assistant|>\n");
    assert_eq!(apply(ChatTemplate::Smolvlm, &[], false), "<|im_start|>");
}

#[test]
fn apply_of_a_concatenation_for_position_free_families() {
    let a = vec![Message::System("s".into()), Message::User("u".into())];
    let b = vec![Message::Assistant("x".into()), Message::User("v".into())];
    let ab: Vec<Message> = a.iter().chain(b.iter()).cloned().collect();
    for t in [ChatTemplate::Llama3, ChatTemplate::MistralV7, ChatTemplate::Phi4, ChatTemplate::CommandR] {
        assert_eq!(apply(t, &ab, false), apply(t, &a, false) + &apply(t, &b, false));
    }
}
