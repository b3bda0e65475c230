//! Chat templates: rendering a list of chat messages as the single
//! prompt string that a given model family expects.

use vstd::prelude::*;

use crate::message::{Message, MessageModel};
use crate::text::{contains, has_substring, join, occurs_at, owned, push_text, trim, trimmed, views, join_strings};

verus! {

/// No chat template is known for the given model name.
#[derive(Debug, Clone, Copy, PartialEq, Eq)]
pub struct ModelNotFoundError;

/// The chat template families that can be rendered.
#[derive(Clone, Copy, Debug, PartialEq, Eq)]
pub enum ChatTemplate {
    Chatml,
    MistralV7,
    MistralV7Tekken,
    Phi3,
    Phi4,
    Falcon3,
    Zephyr,
    Monarch,
    Gemma,
    Orion,
    Openchat,
    Vicuna,
    VicunaOrca,
    Deepseek,
    CommandR,
    Llama3,
    Chatglm3,
    Chatglm4,
    Glmedge,
    Minicpm,
    Deepseek2,
    Deepseek3,
    Exaone3,
    Exaone4,
    RwkvWorld,
    Granite,
    Megrez,
    Yandex,
    Bailing,
    Llama4,
    Smolvlm,
    Dots1,
    HunyuanMoe,
    OpenaiMoe,
    HunyuanDense,
    KimiK2,
    SeedOss,
}

/// Items that precede the messages.
pub open spec fn prologue(t: ChatTemplate) -> Seq<Seq<char>> {
    match t {
        ChatTemplate::Chatglm3 => seq!["[gMASK]sop"@],
        ChatTemplate::Chatglm4 => seq!["[gMASK]sop"@],
        ChatTemplate::Smolvlm => seq!["<|im_start|>"@],
        _ => Seq::empty(),
    }
}

/// The text placed between neighbouring items.
pub open spec fn separator(t: ChatTemplate) -> Seq<char> {
    match t {
        ChatTemplate::Chatml => "\n"@,
        ChatTemplate::Phi3 => "\n"@,
        ChatTemplate::Falcon3 => "\n"@,
        ChatTemplate::Zephyr => "\n"@,
        ChatTemplate::Monarch => "\n"@,
        ChatTemplate::Gemma => "\n"@,
        ChatTemplate::Vicuna => "\n"@,
        ChatTemplate::VicunaOrca => "\n"@,
        ChatTemplate::Deepseek => "\n"@,
        ChatTemplate::Granite => "\n"@,
        _ => ""@,
    }
}

/// The item that invites the assistant to answer, where the family has one.
pub open spec fn assistant_cue(t: ChatTemplate) -> Option<Seq<char>> {
    match t {
        ChatTemplate::Chatml => Some("<|im_start|>assistant"@),
        ChatTemplate::Phi3 => Some("<|assistant|>"@),
        ChatTemplate::Phi4 => Some("<|im_start|>assistant<|im_sep|>"@),
        ChatTemplate::Falcon3 => Some("<|assistant|>"@),
        ChatTemplate::Zephyr => Some("<|assistant|>"@),
        ChatTemplate::Monarch => Some("<s>assistant"@),
        ChatTemplate::Gemma => Some("<start_of_turn>model"@),
        ChatTemplate::Openchat => Some("GPT4 Correct Assistant:"@),
        ChatTemplate::Vicuna => Some("ASSISTANT:"@),
        ChatTemplate::VicunaOrca => Some("ASSISTANT:"@),
        ChatTemplate::Deepseek => Some("### Response:"@),
        ChatTemplate::CommandR => Some("<|START_OF_TURN_TOKEN|><|CHATBOT_TOKEN|>"@),
        ChatTemplate::Llama3 => Some("<|start_header_id|>assistant<|end_header_id|>\n\n"@),
        ChatTemplate::Chatglm3 => Some("<|assistant|>"@),
        ChatTemplate::Chatglm4 => Some("<|assistant|>\n"@),
        ChatTemplate::Glmedge => Some("\n<|assistant|>\n"@),
        ChatTemplate::Deepseek2 => Some("Assistant:"@),
        ChatTemplate::Deepseek3 => Some("<\u{ff5c}Assistant\u{ff5c}>"@),
        ChatTemplate::Exaone3 => Some("[|assistant|]"@),
        ChatTemplate::Exaone4 => Some("[|assistant|]"@),
        ChatTemplate::Granite => Some("<|start_of_role|>assistant<|end_of_role|>"@),
        ChatTemplate::Megrez => Some("<|role_start|>assistant<|role_end|>"@),
        ChatTemplate::Yandex => Some(" \u{410}\u{441}\u{441}\u{438}\u{441}\u{442}\u{435}\u{43d}\u{442}:[SEP]"@),
        ChatTemplate::Bailing => Some("<role>ASSISTANT</role>"@),
        ChatTemplate::Llama4 => Some("<|header_start|>assistant<|header_end|>\n\n"@),
        ChatTemplate::Smolvlm => Some("Assistant:"@),
        ChatTemplate::Dots1 => Some("<|response|>"@),
        ChatTemplate::OpenaiMoe => Some("<|start|>assistant"@),
        ChatTemplate::KimiK2 => Some("<|im_assistant|>assistant<|im_middle|>"@),
        ChatTemplate::SeedOss => Some("<seed:bos>assistant\n"@),
        _ => None,
    }
}

/// The rendering of message `m`, the `i`-th of `n`, in template `t`.
pub open spec fn render(t: ChatTemplate, i: int, n: int, m: MessageModel) -> Seq<char> {
    match t {
        ChatTemplate::Chatml => "<|im_start|>"@ + m.role() + "\n"@ + m.content() + "<|im_end|>"@,
        ChatTemplate::MistralV7 => match m {
            MessageModel::System(s) => "[SYSTEM_PROMPT] "@ + s + "[/SYSTEM_PROMPT]"@,
            MessageModel::User(s) => "[INST] "@ + s + "[/INST]"@,
            MessageModel::Assistant(s) => " "@ + s + "</s>"@,
        },
        ChatTemplate::MistralV7Tekken => match m {
            MessageModel::System(s) => "[SYSTEM_PROMPT]"@ + s + "[/SYSTEM_PROMPT]"@,
            MessageModel::User(s) => "[INST]"@ + s + "[/INST]"@,
            MessageModel::Assistant(s) => s + "</s>"@,
        },
        ChatTemplate::Phi3 => "<|"@ + m.role() + "|>\n"@ + m.content() + "<|end|>"@,
        ChatTemplate::Phi4 => "<|im_start|>"@ + m.role() + "<|im_sep|>"@ + m.content() + "<|im_end|>"@,
        ChatTemplate::Falcon3 => "<|"@ + m.role() + "|>\n"@ + m.content(),
        ChatTemplate::Zephyr => "<|"@ + m.role() + "|>\n"@ + m.content() + "<|endoftext|>"@,
        ChatTemplate::Monarch => (if i == 0 { Seq::<char>::empty() } else { "<s>"@ }) + m.role() + "\n"@ + m.content() + "</s>"@,
        ChatTemplate::Gemma => match m {
            MessageModel::System(s) => "<start_of_turn>user\n"@ + trimmed(s) + "<end_of_turn>"@,
            MessageModel::User(s) => "<start_of_turn>user\n"@ + trimmed(s) + "<end_of_turn>"@,
            MessageModel::Assistant(s) => "<start_of_turn>model\n"@ + trimmed(s) + "<end_of_turn>"@,
        },
        ChatTemplate::Orion => match m {
            MessageModel::System(s) => "Human: "@ + s + "\n\nAssistant: </s>"@,
            MessageModel::User(s) => "Human: "@ + s + "\n\nAssistant: </s>"@,
            MessageModel::Assistant(s) => s + "</s>"@,
        },
        ChatTemplate::Openchat => match m {
            MessageModel::System(s) => s + "<|end_of_turn|>"@,
            MessageModel::User(s) => "GPT4 Correct User: "@ + s + "<|end_of_turn|>"@,
            MessageModel::Assistant(s) => "GPT4 Correct Assistant: "@ + s + "<|end_of_turn|>"@,
        },
        ChatTemplate::Vicuna => match m {
            MessageModel::System(s) => s,
            MessageModel::User(s) => "USER: "@ + s,
            MessageModel::Assistant(s) => "ASSISTANT: "@ + s + "</s>"@,
        },
        ChatTemplate::VicunaOrca => match m {
            MessageModel::System(s) => "SYSTEM: "@ + s,
            MessageModel::User(s) => "USER: "@ + s,
            MessageModel::Assistant(s) => "ASSISTANT: "@ + s + "</s>"@,
        },
        ChatTemplate::Deepseek => match m {
            MessageModel::System(s) => s,
            MessageModel::User(s) => "### Instruction:\n"@ + s,
            MessageModel::Assistant(s) => "### Response:\n"@ + s + "n<|EOT|>"@,
        },
        ChatTemplate::CommandR => match m {
            MessageModel::System(s) => "<|START_OF_TURN_TOKEN|><|SYSTEM_TOKEN|>"@ + trimmed(s) + "<|END_OF_TURN_TOKEN|>"@,
            MessageModel::User(s) => "<|START_OF_TURN_TOKEN|><|USER_TOKEN|>"@ + trimmed(s) + "<|END_OF_TURN_TOKEN|>"@,
            MessageModel::Assistant(s) => "<|START_OF_TURN_TOKEN|><|CHATBOT_TOKEN|>"@ + trimmed(s) + "<|END_OF_TURN_TOKEN|>"@,
        },
        ChatTemplate::Llama3 => "<|start_header_id|>"@ + m.role() + "<|end_header_id|>\n\n"@ + trimmed(m.content()) + "<|eot_id|>"@,
        ChatTemplate::Chatglm3 => "<|"@ + m.role() + "|>\n"@ + m.content(),
        ChatTemplate::Chatglm4 => "<|"@ + m.role() + "|>\n"@ + m.content(),
        ChatTemplate::Glmedge => "\n<|"@ + m.role() + "|>\n"@ + m.content(),
        ChatTemplate::Minicpm => match m {
            MessageModel::System(s) => trimmed(s),
            MessageModel::User(s) => "<<\u{7528}\u{6237}>>"@ + trimmed(s) + "<AI>"@,
            MessageModel::Assistant(s) => trimmed(s),
        },
        ChatTemplate::Deepseek2 => match m {
            MessageModel::System(s) => s + "\n\n"@,
            MessageModel::User(s) => "User: "@ + s + "\n\n"@,
            MessageModel::Assistant(s) => "Assistant: "@ + s + "<\u{ff5c}end\u{2581}of\u{2581}sentence\u{ff5c}>"@,
        },
        ChatTemplate::Deepseek3 => match m {
            MessageModel::System(s) => s + "\n\n"@,
            MessageModel::User(s) => "<\u{ff5c}User\u{ff5c}>User: "@ + s + "\n\n"@,
            MessageModel::Assistant(s) => "<\u{ff5c}Assistant\u{ff5c}>"@ + s + "<\u{ff5c}end\u{2581}of\u{2581}sentence\u{ff5c}>"@,
        },
        ChatTemplate::Exaone3 => match m {
            MessageModel::System(s) => "[|system|]"@ + trimmed(s) + "[|endofturn|]\n"@,
            MessageModel::User(s) => "[|user|]"@ + trimmed(s) + "\n"@,
            MessageModel::Assistant(s) => "[|assistant|]"@ + trimmed(s) + "[|endofturn|]\n"@,
        },
        ChatTemplate::Exaone4 => match m {
            MessageModel::System(s) => "[|system|]"@ + trimmed(s) + "[|endofturn|]\n"@,
            MessageModel::User(s) => "[|user|]"@ + trimmed(s) + "\n"@,
            MessageModel::Assistant(s) => "[|assistant|]"@ + trimmed(s) + "[|endofturn|]\n"@,
        },
        ChatTemplate::RwkvWorld => match m {
            MessageModel::System(s) => "System: "@ + trimmed(s) + "\n\n"@,
            MessageModel::User(s) => "User: "@ + trimmed(s) + "\n\n"@ + (if i == n - 1 { "Assistant:"@ } else { ""@ }),
            MessageModel::Assistant(s) => "Assistant: "@ + trimmed(s) + "\n\n"@,
        },
        ChatTemplate::Granite => "<|start_of_role|>"@ + m.role() + "<|end_of_role|>"@ + m.content() + "<|end_of_text|>"@,
        ChatTemplate::Megrez => "<|role_start|>"@ + m.role() + "<|role_end|>"@ + m.content() + "<|turn_end|>"@,
        ChatTemplate::Yandex => match m {
            MessageModel::System(s) => " \u{41f}\u{43e}\u{43b}\u{44c}\u{437}\u{43e}\u{432}\u{430}\u{442}\u{435}\u{43b}\u{44c}: "@ + s + "\n\n"@,
            MessageModel::User(s) => " \u{41f}\u{43e}\u{43b}\u{44c}\u{437}\u{43e}\u{432}\u{430}\u{442}\u{435}\u{43b}\u{44c}: "@ + s + "\n\n"@,
            MessageModel::Assistant(s) => " \u{410}\u{441}\u{441}\u{438}\u{441}\u{442}\u{435}\u{43d}\u{442}: "@ + s + "\n\n"@,
        },
        ChatTemplate::Bailing => match m {
            MessageModel::System(s) => "<role>SYSTEM</role>"@ + s,
            MessageModel::User(s) => "<role>HUMAN</role>"@ + s,
            MessageModel::Assistant(s) => "<role>ASSISTANT</role>"@ + s,
        },
        ChatTemplate::Llama4 => "<|header_start|>"@ + m.role() + "<|header_end|>\n\n"@ + trimmed(m.content()) + "<|eot|>"@,
        ChatTemplate::Smolvlm => match m {
            MessageModel::System(s) => s + "\n\n"@,
            MessageModel::User(s) => "User: "@ + s + "<end_of_utterance>\n"@,
            MessageModel::Assistant(s) => "Assistant: "@ + s + "<end_of_utterance>\n"@,
        },
        ChatTemplate::Dots1 => match m {
            MessageModel::System(s) => "<|system|>"@ + s + "<|endofsystem|>"@,
            MessageModel::User(s) => "<|userprompt|>"@ + s + "<|endofuserprompt|>"@,
            MessageModel::Assistant(s) => "<|response|>"@ + s + "<|endofresponse|>"@,
        },
        ChatTemplate::HunyuanMoe => match m {
            MessageModel::System(s) => "<|startoftext|>"@ + s + "<|extra_4|>"@,
            MessageModel::User(s) => "<|startoftext|>"@ + s + "<|extra_0|>"@,
            MessageModel::Assistant(s) => s + "<|eos|>"@,
        },
        ChatTemplate::OpenaiMoe => match m {
            MessageModel::System(s) => "<|start|>system<|message|>"@ + s + "<|end|>"@,
            MessageModel::User(s) => "<|start|>user<|message|>"@ + s + "<|end|>"@,
            MessageModel::Assistant(s) => "<|start|>assistant<|message|>"@ + s + "<|return|>"@,
        },
        ChatTemplate::HunyuanDense => match m {
            MessageModel::System(s) => if i == 0 { s + "<\u{ff5c}hy_place\u{2581}holder\u{2581}no\u{2581}3\u{ff5c}>"@ } else { Seq::<char>::empty() },
            MessageModel::User(s) => "<\u{ff5c}hy_User\u{ff5c}>"@ + s + (if i == n - 1 { "<\u{ff5c}hy_Assistant\u{ff5c}>"@ } else { ""@ }),
            MessageModel::Assistant(s) => "<\u{ff5c}hy_Assistant\u{ff5c}>"@ + s + "<\u{ff5c}hy_place\u{2581}holder\u{2581}no\u{2581}2\u{ff5c}>"@,
        },
        ChatTemplate::KimiK2 => "<|im_"@ + m.role() + "|>"@ + m.role() + "<|im_middle|>"@ + m.content() + "<|im_end|>"@,
        ChatTemplate::SeedOss => match m {
            MessageModel::System(s) => "<seed:bos>system\n"@ + s + "<seed:eos>"@,
            MessageModel::User(s) => "<seed:bos>user\n"@ + s + "<seed:eos>"@,
            MessageModel::Assistant(s) => "<seed:bos>assistant\n"@ + trimmed(s) + "<seed:eos>"@,
        },
    }
}

/// The models of a list of messages.
pub open spec fn messages_model(chat: Seq<Message>) -> Seq<MessageModel> {
    chat.map_values(|m: Message| m@)
}

/// The items of a rendering: prologue, one item per message, and the
/// assistant cue when asked for and the family has one.
pub open spec fn items(t: ChatTemplate, chat: Seq<MessageModel>, add_ass: bool) -> Seq<Seq<char>> {
    prologue(t) + Seq::new(chat.len(), |i: int| render(t, i, chat.len() as int, chat[i])) + if add_ass
        && assistant_cue(t) is Some {
        seq![assistant_cue(t)->0]
    } else {
        Seq::empty()
    }
}

/// The prompt that `apply` renders: the items joined by the separator.
pub open spec fn spec_apply(t: ChatTemplate, chat: Seq<MessageModel>, add_ass: bool) -> Seq<char> {
    join(items(t, chat, add_ass), separator(t))
}

/// The family renders a message the same wherever it stands in the chat.
pub open spec fn position_free(t: ChatTemplate) -> bool {
    forall|i: int, n: int, j: int, k: int, m: MessageModel|
        #![trigger render(t, i, n, m), render(t, j, k, m)]
        render(t, i, n, m) == render(t, j, k, m)
}

proof fn lemma_join_concat(x: Seq<Seq<char>>, y: Seq<Seq<char>>)
    ensures
        join(x + y, Seq::<char>::empty()) == join(x, Seq::<char>::empty()) + join(
            y,
            Seq::<char>::empty(),
        ),
    decreases y.len(),
{
    let e = Seq::<char>::empty();
    let z = x + y;
    if y.len() == 0 {
        assert(z =~= x);
        assert(join(x, e) + join(y, e) =~= join(x, e));
    } else {
        assert(z.drop_last() =~= x + y.drop_last());
        assert(z.last() == y.last());
        lemma_join_concat(x, y.drop_last());
        if z.len() == 1 {
            assert(x.len() == 0);
            assert(z =~= y);
            assert(join(x, e) + join(y, e) =~= join(y, e));
        } else if y.len() == 1 {
            assert(y.drop_last() =~= Seq::<Seq<char>>::empty());
            assert(join(y, e) == y[0]);
            assert(join(z, e) =~= join(x, e) + join(y, e));
        } else {
            assert(join(z, e) =~= join(x, e) + join(y, e));
        }
    }
}

/// For a family without prologue or separator whose messages render the
/// same wherever they stand, rendering two chats one after the other is
/// rendering them apart and joining the results.
pub proof fn law_apply_concat(t: ChatTemplate, a: Seq<MessageModel>, b: Seq<MessageModel>)
    requires
        prologue(t).len() == 0,
        separator(t) == Seq::<char>::empty(),
        position_free(t),
    ensures
        spec_apply(t, a + b, false) == spec_apply(t, a, false) + spec_apply(t, b, false),
{
    let c = a + b;
    let ic = items(t, c, false);
    let ia = items(t, a, false);
    let ib = items(t, b, false);
    assert(ic =~= ia + ib) by {
        assert forall|i: int| 0 <= i < ic.len() implies ic[i] == (ia + ib)[i] by {
            if i < a.len() {
                assert(c[i] == a[i]);
                assert(render(t, i, c.len() as int, c[i]) == render(t, i, a.len() as int, a[i]));
            } else {
                assert(c[i] == b[i - a.len()]);
                assert(render(t, i, c.len() as int, c[i]) == render(
                    t,
                    i - a.len(),
                    b.len() as int,
                    b[i - a.len()],
                ));
            }
        }
    }
    lemma_join_concat(ia, ib);
}

/// These families have no prologue and no separator, and render a
/// message the same wherever it stands: [`law_apply_concat`] holds of them.
pub proof fn law_concat_families(t: ChatTemplate)
    requires
        t == ChatTemplate::MistralV7 || t == ChatTemplate::MistralV7Tekken || t == ChatTemplate::Phi4 || t == ChatTemplate::Orion || t == ChatTemplate::Openchat || t == ChatTemplate::CommandR || t == ChatTemplate::Llama3 || t == ChatTemplate::Glmedge || t == ChatTemplate::Minicpm || t == ChatTemplate::Deepseek2 || t == ChatTemplate::Deepseek3 || t == ChatTemplate::Exaone3 || t == ChatTemplate::Exaone4 || t == ChatTemplate::Megrez || t == ChatTemplate::Yandex || t == ChatTemplate::Bailing || t == ChatTemplate::Llama4 || t == ChatTemplate::Dots1 || t == ChatTemplate::HunyuanMoe || t == ChatTemplate::OpenaiMoe || t == ChatTemplate::KimiK2 || t == ChatTemplate::SeedOss,
    ensures
        prologue(t).len() == 0,
        separator(t) == Seq::<char>::empty(),
        position_free(t),
{
    reveal_strlit("");
    assert(separator(t) =~= Seq::<char>::empty());
}

/// Asking for the assistant cue only appends it: a family without a cue
/// renders the same either way; with one, the cue follows the rendering,
/// after the separator when there is something before it.
pub proof fn law_assistant_cue_appends(t: ChatTemplate, chat: Seq<MessageModel>)
    ensures
        assistant_cue(t) is None ==> spec_apply(t, chat, true) == spec_apply(t, chat, false),
        assistant_cue(t) is Some && items(t, chat, false).len() > 0 ==> spec_apply(t, chat, true)
            == spec_apply(t, chat, false) + separator(t) + assistant_cue(t)->0,
        assistant_cue(t) is Some && items(t, chat, false).len() == 0 ==> spec_apply(t, chat, true)
            == assistant_cue(t)->0,
{
    let without = items(t, chat, false);
    if assistant_cue(t) is Some {
        let c = assistant_cue(t)->0;
        assert(items(t, chat, true) =~= without.push(c));
        assert(without.push(c).drop_last() =~= without);
        if without.len() == 0 {
            assert(without.push(c) =~= seq![c]);
        }
    } else {
        assert(items(t, chat, true) =~= without);
    }
}

/// The names by which the families call the assistant's turn: the role's
/// own name in any case, or the family's name for it.
pub open spec fn assistant_marks() -> Seq<Seq<char>> {
    seq!["assistant"@, "Assistant"@, "ASSISTANT"@, "model"@, "Response"@, "response"@, "CHATBOT"@, "\u{410}\u{441}\u{441}\u{438}\u{441}\u{442}\u{435}\u{43d}\u{442}"@]
}

/// The assistant cue of every family that has one names the assistant's
/// turn: one of [`assistant_marks`] occurs in it.
pub proof fn law_assistant_cue_names_assistant(t: ChatTemplate)
    ensures
        assistant_cue(t) is Some ==> exists|k: int|
            0 <= k < assistant_marks().len() && has_substring(
                assistant_cue(t)->0,
                #[trigger] assistant_marks()[k],
            ),
{
    let marks = assistant_marks();
    reveal_strlit(" \u{410}\u{441}\u{441}\u{438}\u{441}\u{442}\u{435}\u{43d}\u{442}:[SEP]");
    reveal_strlit("### Response:");
    reveal_strlit("<\u{ff5c}Assistant\u{ff5c}>");
    reveal_strlit("<role>ASSISTANT</role>");
    reveal_strlit("<s>assistant");
    reveal_strlit("<seed:bos>assistant\n");
    reveal_strlit("<start_of_turn>model");
    reveal_strlit("<|START_OF_TURN_TOKEN|><|CHATBOT_TOKEN|>");
    reveal_strlit("<|assistant|>");
    reveal_strlit("<|assistant|>\n");
    reveal_strlit("<|header_start|>assistant<|header_end|>\n\n");
    reveal_strlit("<|im_assistant|>assistant<|im_middle|>");
    reveal_strlit("<|im_start|>assistant");
    reveal_strlit("<|im_start|>assistant<|im_sep|>");
    reveal_strlit("<|response|>");
    reveal_strlit("<|role_start|>assistant<|role_end|>");
    reveal_strlit("<|start_header_id|>assistant<|end_header_id|>\n\n");
    reveal_strlit("<|start_of_role|>assistant<|end_of_role|>");
    reveal_strlit("<|start|>assistant");
    reveal_strlit("ASSISTANT:");
    reveal_strlit("Assistant:");
    reveal_strlit("GPT4 Correct Assistant:");
    reveal_strlit("[|assistant|]");
    reveal_strlit("\n<|assistant|>\n");
    reveal_strlit("assistant");
    reveal_strlit("Assistant");
    reveal_strlit("ASSISTANT");
    reveal_strlit("model");
    reveal_strlit("Response");
    reveal_strlit("response");
    reveal_strlit("CHATBOT");
    reveal_strlit("\u{410}\u{441}\u{441}\u{438}\u{441}\u{442}\u{435}\u{43d}\u{442}");
    match t {
        ChatTemplate::Chatml => {
            assert("<|im_start|>assistant"@.subrange(12, 21) =~= "assistant"@);
            assert(occurs_at("<|im_start|>assistant"@, "assistant"@, 12));
            assert(marks[0] == "assistant"@);
        },
        ChatTemplate::Phi3 => {
            assert("<|assistant|>"@.subrange(2, 11) =~= "assistant"@);
            assert(occurs_at("<|assistant|>"@, "assistant"@, 2));
            assert(marks[0] == "assistant"@);
        },
        ChatTemplate::Phi4 => {
            assert("<|im_start|>assistant<|im_sep|>"@.subrange(12, 21) =~= "assistant"@);
            assert(occurs_at("<|im_start|>assistant<|im_sep|>"@, "assistant"@, 12));
            assert(marks[0] == "assistant"@);
        },
        ChatTemplate::Falcon3 => {
            assert("<|assistant|>"@.subrange(2, 11) =~= "assistant"@);
            assert(occurs_at("<|assistant|>"@, "assistant"@, 2));
            assert(marks[0] == "assistant"@);
        },
        ChatTemplate::Zephyr => {
            assert("<|assistant|>"@.subrange(2, 11) =~= "assistant"@);
            assert(occurs_at("<|assistant|>"@, "assistant"@, 2));
            assert(marks[0] == "assistant"@);
        },
        ChatTemplate::Monarch => {
            assert("<s>assistant"@.subrange(3, 12) =~= "assistant"@);
            assert(occurs_at("<s>assistant"@, "assistant"@, 3));
            assert(marks[0] == "assistant"@);
        },
        ChatTemplate::Gemma => {
            assert("<start_of_turn>model"@.subrange(15, 20) =~= "model"@);
            assert(occurs_at("<start_of_turn>model"@, "model"@, 15));
            assert(marks[3] == "model"@);
        },
        ChatTemplate::Openchat => {
            assert("GPT4 Correct Assistant:"@.subrange(13, 22) =~= "Assistant"@);
            assert(occurs_at("GPT4 Correct Assistant:"@, "Assistant"@, 13));
            assert(marks[1] == "Assistant"@);
        },
        ChatTemplate::Vicuna => {
            assert("ASSISTANT:"@.subrange(0, 9) =~= "ASSISTANT"@);
            assert(occurs_at("ASSISTANT:"@, "ASSISTANT"@, 0));
            assert(marks[2] == "ASSISTANT"@);
        },
        ChatTemplate::VicunaOrca => {
            assert("ASSISTANT:"@.subrange(0, 9) =~= "ASSISTANT"@);
            assert(occurs_at("ASSISTANT:"@, "ASSISTANT"@, 0));
            assert(marks[2] == "ASSISTANT"@);
        },
        ChatTemplate::Deepseek => {
            assert("### Response:"@.subrange(4, 12) =~= "Response"@);
            assert(occurs_at("### Response:"@, "Response"@, 4));
            assert(marks[4] == "Response"@);
        },
        ChatTemplate::CommandR => {
            assert("<|START_OF_TURN_TOKEN|><|CHATBOT_TOKEN|>"@.subrange(25, 32) =~= "CHATBOT"@);
            assert(occurs_at("<|START_OF_TURN_TOKEN|><|CHATBOT_TOKEN|>"@, "CHATBOT"@, 25));
            assert(marks[6] == "CHATBOT"@);
        },
        ChatTemplate::Llama3 => {
            assert("<|start_header_id|>assistant<|end_header_id|>\n\n"@.subrange(19, 28) =~= "assistant"@);
            assert(occurs_at("<|start_header_id|>assistant<|end_header_id|>\n\n"@, "assistant"@, 19));
            assert(marks[0] == "assistant"@);
        },
        ChatTemplate::Chatglm3 => {
            assert("<|assistant|>"@.subrange(2, 11) =~= "assistant"@);
            assert(occurs_at("<|assistant|>"@, "assistant"@, 2));
            assert(marks[0] == "assistant"@);
        },
        ChatTemplate::Chatglm4 => {
            assert("<|assistant|>\n"@.subrange(2, 11) =~= "assistant"@);
            assert(occurs_at("<|assistant|>\n"@, "assistant"@, 2));
            assert(marks[0] == "assistant"@);
        },
        ChatTemplate::Glmedge => {
            assert("\n<|assistant|>\n"@.subrange(3, 12) =~= "assistant"@);
            assert(occurs_at("\n<|assistant|>\n"@, "assistant"@, 3));
            assert(marks[0] == "assistant"@);
        },
        ChatTemplate::Deepseek2 => {
            assert("Assistant:"@.subrange(0, 9) =~= "Assistant"@);
            assert(occurs_at("Assistant:"@, "Assistant"@, 0));
            assert(marks[1] == "Assistant"@);
        },
        ChatTemplate::Deepseek3 => {
            assert("<\u{ff5c}Assistant\u{ff5c}>"@.subrange(2, 11) =~= "Assistant"@);
            assert(occurs_at("<\u{ff5c}Assistant\u{ff5c}>"@, "Assistant"@, 2));
            assert(marks[1] == "Assistant"@);
        },
        ChatTemplate::Exaone3 => {
            assert("[|assistant|]"@.subrange(2, 11) =~= "assistant"@);
            assert(occurs_at("[|assistant|]"@, "assistant"@, 2));
            assert(marks[0] == "assistant"@);
        },
        ChatTemplate::Exaone4 => {
            assert("[|assistant|]"@.subrange(2, 11) =~= "assistant"@);
            assert(occurs_at("[|assistant|]"@, "assistant"@, 2));
            assert(marks[0] == "assistant"@);
        },
        ChatTemplate::Granite => {
            assert("<|start_of_role|>assistant<|end_of_role|>"@.subrange(17, 26) =~= "assistant"@);
            assert(occurs_at("<|start_of_role|>assistant<|end_of_role|>"@, "assistant"@, 17));
            assert(marks[0] == "assistant"@);
        },
        ChatTemplate::Megrez => {
            assert("<|role_start|>assistant<|role_end|>"@.subrange(14, 23) =~= "assistant"@);
            assert(occurs_at("<|role_start|>assistant<|role_end|>"@, "assistant"@, 14));
            assert(marks[0] == "assistant"@);
        },
        ChatTemplate::Yandex => {
            assert(" \u{410}\u{441}\u{441}\u{438}\u{441}\u{442}\u{435}\u{43d}\u{442}:[SEP]"@.subrange(1, 10) =~= "\u{410}\u{441}\u{441}\u{438}\u{441}\u{442}\u{435}\u{43d}\u{442}"@);
            assert(occurs_at(" \u{410}\u{441}\u{441}\u{438}\u{441}\u{442}\u{435}\u{43d}\u{442}:[SEP]"@, "\u{410}\u{441}\u{441}\u{438}\u{441}\u{442}\u{435}\u{43d}\u{442}"@, 1));
            assert(marks[7] == "\u{410}\u{441}\u{441}\u{438}\u{441}\u{442}\u{435}\u{43d}\u{442}"@);
        },
        ChatTemplate::Bailing => {
            assert("<role>ASSISTANT</role>"@.subrange(6, 15) =~= "ASSISTANT"@);
            assert(occurs_at("<role>ASSISTANT</role>"@, "ASSISTANT"@, 6));
            assert(marks[2] == "ASSISTANT"@);
        },
        ChatTemplate::Llama4 => {
            assert("<|header_start|>assistant<|header_end|>\n\n"@.subrange(16, 25) =~= "assistant"@);
            assert(occurs_at("<|header_start|>assistant<|header_end|>\n\n"@, "assistant"@, 16));
            assert(marks[0] == "assistant"@);
        },
        ChatTemplate::Smolvlm => {
            assert("Assistant:"@.subrange(0, 9) =~= "Assistant"@);
            assert(occurs_at("Assistant:"@, "Assistant"@, 0));
            assert(marks[1] == "Assistant"@);
        },
        ChatTemplate::Dots1 => {
            assert("<|response|>"@.subrange(2, 10) =~= "response"@);
            assert(occurs_at("<|response|>"@, "response"@, 2));
            assert(marks[5] == "response"@);
        },
        ChatTemplate::OpenaiMoe => {
            assert("<|start|>assistant"@.subrange(9, 18) =~= "assistant"@);
            assert(occurs_at("<|start|>assistant"@, "assistant"@, 9));
            assert(marks[0] == "assistant"@);
        },
        ChatTemplate::KimiK2 => {
            assert("<|im_assistant|>assistant<|im_middle|>"@.subrange(5, 14) =~= "assistant"@);
            assert(occurs_at("<|im_assistant|>assistant<|im_middle|>"@, "assistant"@, 5));
            assert(marks[0] == "assistant"@);
        },
        ChatTemplate::SeedOss => {
            assert("<seed:bos>assistant\n"@.subrange(10, 19) =~= "assistant"@);
            assert(occurs_at("<seed:bos>assistant\n"@, "assistant"@, 10));
            assert(marks[0] == "assistant"@);
        },
        _ => {},
    }
}

/// No two neighbouring characters of `s` are the first two of `p`: `p`
/// does not occur in `s`.
proof fn lemma_no_occurrence(s: Seq<char>, p: Seq<char>)
    requires
        p.len() >= 2,
        forall|i: int| 0 <= i && i + 1 < s.len() ==> !(#[trigger] s[i] == p[0] && s[i + 1] == p[1]),
    ensures
        !has_substring(s, p),
{
    if has_substring(s, p) {
        let i = choose|i: int| occurs_at(s, p, i);
        assert(s.subrange(i, i + p.len())[0] == s[i]);
        assert(s.subrange(i, i + p.len())[1] == s[i + 1]);
    }
}

/// The role names that a user's turn goes by.
pub open spec fn user_marks() -> Seq<Seq<char>> {
    seq!["user"@, "User"@, "USER"@]
}

/// The assistant cue of every family never names the user's turn: none
/// of [`user_marks`] occurs in it.
pub proof fn law_assistant_cue_not_user(t: ChatTemplate)
    ensures
        assistant_cue(t) is Some ==> forall|k: int|
            0 <= k < user_marks().len() ==> !has_substring(
                assistant_cue(t)->0,
                #[trigger] user_marks()[k],
            ),
{
    reveal_strlit("user");
    reveal_strlit("User");
    reveal_strlit("USER");
    reveal_strlit(" \u{410}\u{441}\u{441}\u{438}\u{441}\u{442}\u{435}\u{43d}\u{442}:[SEP]");
    reveal_strlit("### Response:");
    reveal_strlit("<\u{ff5c}Assistant\u{ff5c}>");
    reveal_strlit("<role>ASSISTANT</role>");
    reveal_strlit("<s>assistant");
    reveal_strlit("<seed:bos>assistant\n");
    reveal_strlit("<start_of_turn>model");
    reveal_strlit("<|START_OF_TURN_TOKEN|><|CHATBOT_TOKEN|>");
    reveal_strlit("<|assistant|>");
    reveal_strlit("<|assistant|>\n");
    reveal_strlit("<|header_start|>assistant<|header_end|>\n\n");
    reveal_strlit("<|im_assistant|>assistant<|im_middle|>");
    reveal_strlit("<|im_start|>assistant");
    reveal_strlit("<|im_start|>assistant<|im_sep|>");
    reveal_strlit("<|response|>");
    reveal_strlit("<|role_start|>assistant<|role_end|>");
    reveal_strlit("<|start_header_id|>assistant<|end_header_id|>\n\n");
    reveal_strlit("<|start_of_role|>assistant<|end_of_role|>");
    reveal_strlit("<|start|>assistant");
    reveal_strlit("ASSISTANT:");
    reveal_strlit("Assistant:");
    reveal_strlit("GPT4 Correct Assistant:");
    reveal_strlit("[|assistant|]");
    reveal_strlit("\n<|assistant|>\n");
    if assistant_cue(t) is Some {
        let c = assistant_cue(t)->0;
        assert forall|k: int| 0 <= k < user_marks().len() implies !has_substring(
            c,
            #[trigger] user_marks()[k],
        ) by {
            let p = user_marks()[k];
            assert(p.len() >= 2);
            lemma_no_occurrence(c, p);
        }
    }
}

/// For Llama 3, asking for the assistant cue appends the header that opens
/// the assistant's turn to the rendering, whatever the chat.
pub proof fn law_llama3_cue(chat: Seq<MessageModel>)
    ensures
        spec_apply(ChatTemplate::Llama3, chat, true) == spec_apply(ChatTemplate::Llama3, chat, false)
            + "<|start_header_id|>assistant<|end_header_id|>\n\n"@,
{
    let t = ChatTemplate::Llama3;
    reveal_strlit("");
    law_assistant_cue_appends(t, chat);
    let c = "<|start_header_id|>assistant<|end_header_id|>\n\n"@;
    assert(separator(t) =~= Seq::<char>::empty());
    if items(t, chat, false).len() == 0 {
        assert(chat.len() == 0);
        assert(items(t, chat, false) =~= Seq::<Seq<char>>::empty());
        assert(spec_apply(t, chat, false) =~= Seq::<char>::empty());
        assert(spec_apply(t, chat, false) + c =~= c);
    } else {
        assert(spec_apply(t, chat, false) + separator(t) =~= spec_apply(t, chat, false));
    }
}

/// Render message `m`, the `i`-th of `n`, in template `t`.
pub fn render_message(t: ChatTemplate, i: usize, n: usize, m: &Message) -> (r: String)
    requires
        i < n,
    ensures
        r@ == render(t, i as int, n as int, m@),
{
    match t {
        ChatTemplate::Chatml => {
            let mut r = owned("<|im_start|>");
            push_text(&mut r, m.role());
            push_text(&mut r, "\n");
            push_text(&mut r, m.content().as_str());
            push_text(&mut r, "<|im_end|>");
            r
        },
        ChatTemplate::MistralV7 => match m {
            Message::System(s) => {
                let mut r = owned("[SYSTEM_PROMPT] ");
                push_text(&mut r, s.as_str());
                push_text(&mut r, "[/SYSTEM_PROMPT]");
                r
            },
            Message::User(s) => {
                let mut r = owned("[INST] ");
                push_text(&mut r, s.as_str());
                push_text(&mut r, "[/INST]");
                r
            },
            Message::Assistant(s) => {
                let mut r = owned(" ");
                push_text(&mut r, s.as_str());
                push_text(&mut r, "</s>");
                r
            },
        },
        ChatTemplate::MistralV7Tekken => match m {
            Message::System(s) => {
                let mut r = owned("[SYSTEM_PROMPT]");
                push_text(&mut r, s.as_str());
                push_text(&mut r, "[/SYSTEM_PROMPT]");
                r
            },
            Message::User(s) => {
                let mut r = owned("[INST]");
                push_text(&mut r, s.as_str());
                push_text(&mut r, "[/INST]");
                r
            },
            Message::Assistant(s) => {
                let mut r = owned(s.as_str());
                push_text(&mut r, "</s>");
                r
            },
        },
        ChatTemplate::Phi3 => {
            let mut r = owned("<|");
            push_text(&mut r, m.role());
            push_text(&mut r, "|>\n");
            push_text(&mut r, m.content().as_str());
            push_text(&mut r, "<|end|>");
            r
        },
        ChatTemplate::Phi4 => {
            let mut r = owned("<|im_start|>");
            push_text(&mut r, m.role());
            push_text(&mut r, "<|im_sep|>");
            push_text(&mut r, m.content().as_str());
            push_text(&mut r, "<|im_end|>");
            r
        },
        ChatTemplate::Falcon3 => {
            let mut r = owned("<|");
            push_text(&mut r, m.role());
            push_text(&mut r, "|>\n");
            push_text(&mut r, m.content().as_str());
            r
        },
        ChatTemplate::Zephyr => {
            let mut r = owned("<|");
            push_text(&mut r, m.role());
            push_text(&mut r, "|>\n");
            push_text(&mut r, m.content().as_str());
            push_text(&mut r, "<|endoftext|>");
            r
        },
        ChatTemplate::Monarch => {
            let mut r = if i == 0 { String::new() } else { owned("<s>") };
            push_text(&mut r, m.role());
            push_text(&mut r, "\n");
            push_text(&mut r, m.content().as_str());
            push_text(&mut r, "</s>");
            r
        },
        ChatTemplate::Gemma => match m {
            Message::System(s) => {
                let mut r = owned("<start_of_turn>user\n");
                push_text(&mut r, trim(s.as_str()).as_str());
                push_text(&mut r, "<end_of_turn>");
                r
            },
            Message::User(s) => {
                let mut r = owned("<start_of_turn>user\n");
                push_text(&mut r, trim(s.as_str()).as_str());
                push_text(&mut r, "<end_of_turn>");
                r
            },
            Message::Assistant(s) => {
                let mut r = owned("<start_of_turn>model\n");
                push_text(&mut r, trim(s.as_str()).as_str());
                push_text(&mut r, "<end_of_turn>");
                r
            },
        },
        ChatTemplate::Orion => match m {
            Message::System(s) => {
                let mut r = owned("Human: ");
                push_text(&mut r, s.as_str());
                push_text(&mut r, "\n\nAssistant: </s>");
                r
            },
            Message::User(s) => {
                let mut r = owned("Human: ");
                push_text(&mut r, s.as_str());
                push_text(&mut r, "\n\nAssistant: </s>");
                r
            },
            Message::Assistant(s) => {
                let mut r = owned(s.as_str());
                push_text(&mut r, "</s>");
                r
            },
        },
        ChatTemplate::Openchat => match m {
            Message::System(s) => {
                let mut r = owned(s.as_str());
                push_text(&mut r, "<|end_of_turn|>");
                r
            },
            Message::User(s) => {
                let mut r = owned("GPT4 Correct User: ");
                push_text(&mut r, s.as_str());
                push_text(&mut r, "<|end_of_turn|>");
                r
            },
            Message::Assistant(s) => {
                let mut r = owned("GPT4 Correct Assistant: ");
                push_text(&mut r, s.as_str());
                push_text(&mut r, "<|end_of_turn|>");
                r
            },
        },
        ChatTemplate::Vicuna => match m {
            Message::System(s) => {
                let mut r = owned(s.as_str());
                r
            },
            Message::User(s) => {
                let mut r = owned("USER: ");
                push_text(&mut r, s.as_str());
                r
            },
            Message::Assistant(s) => {
                let mut r = owned("ASSISTANT: ");
                push_text(&mut r, s.as_str());
                push_text(&mut r, "</s>");
                r
            },
        },
        ChatTemplate::VicunaOrca => match m {
            Message::System(s) => {
                let mut r = owned("SYSTEM: ");
                push_text(&mut r, s.as_str());
                r
            },
            Message::User(s) => {
                let mut r = owned("USER: ");
                push_text(&mut r, s.as_str());
                r
            },
            Message::Assistant(s) => {
                let mut r = owned("ASSISTANT: ");
                push_text(&mut r, s.as_str());
                push_text(&mut r, "</s>");
                r
            },
        },
        ChatTemplate::Deepseek => match m {
            Message::System(s) => {
                let mut r = owned(s.as_str());
                r
            },
            Message::User(s) => {
                let mut r = owned("### Instruction:\n");
                push_text(&mut r, s.as_str());
                r
            },
            Message::Assistant(s) => {
                let mut r = owned("### Response:\n");
                push_text(&mut r, s.as_str());
                push_text(&mut r, "n<|EOT|>");
                r
            },
        },
        ChatTemplate::CommandR => match m {
            Message::System(s) => {
                let mut r = owned("<|START_OF_TURN_TOKEN|><|SYSTEM_TOKEN|>");
                push_text(&mut r, trim(s.as_str()).as_str());
                push_text(&mut r, "<|END_OF_TURN_TOKEN|>");
                r
            },
            Message::User(s) => {
                let mut r = owned("<|START_OF_TURN_TOKEN|><|USER_TOKEN|>");
                push_text(&mut r, trim(s.as_str()).as_str());
                push_text(&mut r, "<|END_OF_TURN_TOKEN|>");
                r
            },
            Message::Assistant(s) => {
                let mut r = owned("<|START_OF_TURN_TOKEN|><|CHATBOT_TOKEN|>");
                push_text(&mut r, trim(s.as_str()).as_str());
                push_text(&mut r, "<|END_OF_TURN_TOKEN|>");
                r
            },
        },
        ChatTemplate::Llama3 => {
            let mut r = owned("<|start_header_id|>");
            push_text(&mut r, m.role());
            push_text(&mut r, "<|end_header_id|>\n\n");
            push_text(&mut r, trim(m.content().as_str()).as_str());
            push_text(&mut r, "<|eot_id|>");
            r
        },
        ChatTemplate::Chatglm3 => {
            let mut r = owned("<|");
            push_text(&mut r, m.role());
            push_text(&mut r, "|>\n");
            push_text(&mut r, m.content().as_str());
            r
        },
        ChatTemplate::Chatglm4 => {
            let mut r = owned("<|");
            push_text(&mut r, m.role());
            push_text(&mut r, "|>\n");
            push_text(&mut r, m.content().as_str());
            r
        },
        ChatTemplate::Glmedge => {
            let mut r = owned("\n<|");
            push_text(&mut r, m.role());
            push_text(&mut r, "|>\n");
            push_text(&mut r, m.content().as_str());
            r
        },
        ChatTemplate::Minicpm => match m {
            Message::System(s) => {
                let mut r = trim(s.as_str());
                r
            },
            Message::User(s) => {
                let mut r = owned("<<\u{7528}\u{6237}>>");
                push_text(&mut r, trim(s.as_str()).as_str());
                push_text(&mut r, "<AI>");
                r
            },
            Message::Assistant(s) => {
                let mut r = trim(s.as_str());
                r
            },
        },
        ChatTemplate::Deepseek2 => match m {
            Message::System(s) => {
                let mut r = owned(s.as_str());
                push_text(&mut r, "\n\n");
                r
            },
            Message::User(s) => {
                let mut r = owned("User: ");
                push_text(&mut r, s.as_str());
                push_text(&mut r, "\n\n");
                r
            },
            Message::Assistant(s) => {
                let mut r = owned("Assistant: ");
                push_text(&mut r, s.as_str());
                push_text(&mut r, "<\u{ff5c}end\u{2581}of\u{2581}sentence\u{ff5c}>");
                r
            },
        },
        ChatTemplate::Deepseek3 => match m {
            Message::System(s) => {
                let mut r = owned(s.as_str());
                push_text(&mut r, "\n\n");
                r
            },
            Message::User(s) => {
                let mut r = owned("<\u{ff5c}User\u{ff5c}>User: ");
                push_text(&mut r, s.as_str());
                push_text(&mut r, "\n\n");
                r
            },
            Message::Assistant(s) => {
                let mut r = owned("<\u{ff5c}Assistant\u{ff5c}>");
                push_text(&mut r, s.as_str());
                push_text(&mut r, "<\u{ff5c}end\u{2581}of\u{2581}sentence\u{ff5c}>");
                r
            },
        },
        ChatTemplate::Exaone3 => match m {
            Message::System(s) => {
                let mut r = owned("[|system|]");
                push_text(&mut r, trim(s.as_str()).as_str());
                push_text(&mut r, "[|endofturn|]\n");
                r
            },
            Message::User(s) => {
                let mut r = owned("[|user|]");
                push_text(&mut r, trim(s.as_str()).as_str());
                push_text(&mut r, "\n");
                r
            },
            Message::Assistant(s) => {
                let mut r = owned("[|assistant|]");
                push_text(&mut r, trim(s.as_str()).as_str());
                push_text(&mut r, "[|endofturn|]\n");
                r
            },
        },
        ChatTemplate::Exaone4 => match m {
            Message::System(s) => {
                let mut r = owned("[|system|]");
                push_text(&mut r, trim(s.as_str()).as_str());
                push_text(&mut r, "[|endofturn|]\n");
                r
            },
            Message::User(s) => {
                let mut r = owned("[|user|]");
                push_text(&mut r, trim(s.as_str()).as_str());
                push_text(&mut r, "\n");
                r
            },
            Message::Assistant(s) => {
                let mut r = owned("[|assistant|]");
                push_text(&mut r, trim(s.as_str()).as_str());
                push_text(&mut r, "[|endofturn|]\n");
                r
            },
        },
        ChatTemplate::RwkvWorld => match m {
            Message::System(s) => {
                let mut r = owned("System: ");
                push_text(&mut r, trim(s.as_str()).as_str());
                push_text(&mut r, "\n\n");
                r
            },
            Message::User(s) => {
                let mut r = owned("User: ");
                push_text(&mut r, trim(s.as_str()).as_str());
                push_text(&mut r, "\n\n");
                push_text(&mut r, if i + 1 == n { "Assistant:" } else { "" });
                r
            },
            Message::Assistant(s) => {
                let mut r = owned("Assistant: ");
                push_text(&mut r, trim(s.as_str()).as_str());
                push_text(&mut r, "\n\n");
                r
            },
        },
        ChatTemplate::Granite => {
            let mut r = owned("<|start_of_role|>");
            push_text(&mut r, m.role());
            push_text(&mut r, "<|end_of_role|>");
            push_text(&mut r, m.content().as_str());
            push_text(&mut r, "<|end_of_text|>");
            r
        },
        ChatTemplate::Megrez => {
            let mut r = owned("<|role_start|>");
            push_text(&mut r, m.role());
            push_text(&mut r, "<|role_end|>");
            push_text(&mut r, m.content().as_str());
            push_text(&mut r, "<|turn_end|>");
            r
        },
        ChatTemplate::Yandex => match m {
            Message::System(s) => {
                let mut r = owned(" \u{41f}\u{43e}\u{43b}\u{44c}\u{437}\u{43e}\u{432}\u{430}\u{442}\u{435}\u{43b}\u{44c}: ");
                push_text(&mut r, s.as_str());
                push_text(&mut r, "\n\n");
                r
            },
            Message::User(s) => {
                let mut r = owned(" \u{41f}\u{43e}\u{43b}\u{44c}\u{437}\u{43e}\u{432}\u{430}\u{442}\u{435}\u{43b}\u{44c}: ");
                push_text(&mut r, s.as_str());
                push_text(&mut r, "\n\n");
                r
            },
            Message::Assistant(s) => {
                let mut r = owned(" \u{410}\u{441}\u{441}\u{438}\u{441}\u{442}\u{435}\u{43d}\u{442}: ");
                push_text(&mut r, s.as_str());
                push_text(&mut r, "\n\n");
                r
            },
        },
        ChatTemplate::Bailing => match m {
            Message::System(s) => {
                let mut r = owned("<role>SYSTEM</role>");
                push_text(&mut r, s.as_str());
                r
            },
            Message::User(s) => {
                let mut r = owned("<role>HUMAN</role>");
                push_text(&mut r, s.as_str());
                r
            },
            Message::Assistant(s) => {
                let mut r = owned("<role>ASSISTANT</role>");
                push_text(&mut r, s.as_str());
                r
            },
        },
        ChatTemplate::Llama4 => {
            let mut r = owned("<|header_start|>");
            push_text(&mut r, m.role());
            push_text(&mut r, "<|header_end|>\n\n");
            push_text(&mut r, trim(m.content().as_str()).as_str());
            push_text(&mut r, "<|eot|>");
            r
        },
        ChatTemplate::Smolvlm => match m {
            Message::System(s) => {
                let mut r = owned(s.as_str());
                push_text(&mut r, "\n\n");
                r
            },
            Message::User(s) => {
                let mut r = owned("User: ");
                push_text(&mut r, s.as_str());
                push_text(&mut r, "<end_of_utterance>\n");
                r
            },
            Message::Assistant(s) => {
                let mut r = owned("Assistant: ");
                push_text(&mut r, s.as_str());
                push_text(&mut r, "<end_of_utterance>\n");
                r
            },
        },
        ChatTemplate::Dots1 => match m {
            Message::System(s) => {
                let mut r = owned("<|system|>");
                push_text(&mut r, s.as_str());
                push_text(&mut r, "<|endofsystem|>");
                r
            },
            Message::User(s) => {
                let mut r = owned("<|userprompt|>");
                push_text(&mut r, s.as_str());
                push_text(&mut r, "<|endofuserprompt|>");
                r
            },
            Message::Assistant(s) => {
                let mut r = owned("<|response|>");
                push_text(&mut r, s.as_str());
                push_text(&mut r, "<|endofresponse|>");
                r
            },
        },
        ChatTemplate::HunyuanMoe => match m {
            Message::System(s) => {
                let mut r = owned("<|startoftext|>");
                push_text(&mut r, s.as_str());
                push_text(&mut r, "<|extra_4|>");
                r
            },
            Message::User(s) => {
                let mut r = owned("<|startoftext|>");
                push_text(&mut r, s.as_str());
                push_text(&mut r, "<|extra_0|>");
                r
            },
            Message::Assistant(s) => {
                let mut r = owned(s.as_str());
                push_text(&mut r, "<|eos|>");
                r
            },
        },
        ChatTemplate::OpenaiMoe => match m {
            Message::System(s) => {
                let mut r = owned("<|start|>system<|message|>");
                push_text(&mut r, s.as_str());
                push_text(&mut r, "<|end|>");
                r
            },
            Message::User(s) => {
                let mut r = owned("<|start|>user<|message|>");
                push_text(&mut r, s.as_str());
                push_text(&mut r, "<|end|>");
                r
            },
            Message::Assistant(s) => {
                let mut r = owned("<|start|>assistant<|message|>");
                push_text(&mut r, s.as_str());
                push_text(&mut r, "<|return|>");
                r
            },
        },
        ChatTemplate::HunyuanDense => match m {
            Message::System(s) => {
                if i == 0 {
                    let mut r = owned(s.as_str());
                    push_text(&mut r, "<\u{ff5c}hy_place\u{2581}holder\u{2581}no\u{2581}3\u{ff5c}>");
                    r
                } else {
                    String::new()
                }
            },
            Message::User(s) => {
                let mut r = owned("<\u{ff5c}hy_User\u{ff5c}>");
                push_text(&mut r, s.as_str());
                push_text(&mut r, if i + 1 == n { "<\u{ff5c}hy_Assistant\u{ff5c}>" } else { "" });
                r
            },
            Message::Assistant(s) => {
                let mut r = owned("<\u{ff5c}hy_Assistant\u{ff5c}>");
                push_text(&mut r, s.as_str());
                push_text(&mut r, "<\u{ff5c}hy_place\u{2581}holder\u{2581}no\u{2581}2\u{ff5c}>");
                r
            },
        },
        ChatTemplate::KimiK2 => {
            let mut r = owned("<|im_");
            push_text(&mut r, m.role());
            push_text(&mut r, "|>");
            push_text(&mut r, m.role());
            push_text(&mut r, "<|im_middle|>");
            push_text(&mut r, m.content().as_str());
            push_text(&mut r, "<|im_end|>");
            r
        },
        ChatTemplate::SeedOss => match m {
            Message::System(s) => {
                let mut r = owned("<seed:bos>system\n");
                push_text(&mut r, s.as_str());
                push_text(&mut r, "<seed:eos>");
                r
            },
            Message::User(s) => {
                let mut r = owned("<seed:bos>user\n");
                push_text(&mut r, s.as_str());
                push_text(&mut r, "<seed:eos>");
                r
            },
            Message::Assistant(s) => {
                let mut r = owned("<seed:bos>assistant\n");
                push_text(&mut r, trim(s.as_str()).as_str());
                push_text(&mut r, "<seed:eos>");
                r
            },
        },
    }
}

/// The prologue items of template `t`.
fn prologue_items(t: ChatTemplate) -> (r: Vec<String>)
    ensures
        views(r@) == prologue(t),
{
    let mut r: Vec<String> = Vec::new();
    match t {
        ChatTemplate::Chatglm3 => {
            r.push(owned("[gMASK]sop"));
        },
        ChatTemplate::Chatglm4 => {
            r.push(owned("[gMASK]sop"));
        },
        ChatTemplate::Smolvlm => {
            r.push(owned("<|im_start|>"));
        },
        _ => {},
    }
    assert(views(r@) =~= prologue(t));
    r
}

/// The separator of template `t`.
fn separator_text(t: ChatTemplate) -> (r: &'static str)
    ensures
        r@ == separator(t),
{
    match t {
        ChatTemplate::Chatml => "\n",
        ChatTemplate::Phi3 => "\n",
        ChatTemplate::Falcon3 => "\n",
        ChatTemplate::Zephyr => "\n",
        ChatTemplate::Monarch => "\n",
        ChatTemplate::Gemma => "\n",
        ChatTemplate::Vicuna => "\n",
        ChatTemplate::VicunaOrca => "\n",
        ChatTemplate::Deepseek => "\n",
        ChatTemplate::Granite => "\n",
        _ => "",
    }
}

/// The assistant cue of template `t`, if it has one.
fn cue_text(t: ChatTemplate) -> (r: Option<&'static str>)
    ensures
        match r {
            Some(c) => assistant_cue(t) == Some(c@),
            None => assistant_cue(t) is None,
        },
{
    match t {
        ChatTemplate::Chatml => Some("<|im_start|>assistant"),
        ChatTemplate::Phi3 => Some("<|assistant|>"),
        ChatTemplate::Phi4 => Some("<|im_start|>assistant<|im_sep|>"),
        ChatTemplate::Falcon3 => Some("<|assistant|>"),
        ChatTemplate::Zephyr => Some("<|assistant|>"),
        ChatTemplate::Monarch => Some("<s>assistant"),
        ChatTemplate::Gemma => Some("<start_of_turn>model"),
        ChatTemplate::Openchat => Some("GPT4 Correct Assistant:"),
        ChatTemplate::Vicuna => Some("ASSISTANT:"),
        ChatTemplate::VicunaOrca => Some("ASSISTANT:"),
        ChatTemplate::Deepseek => Some("### Response:"),
        ChatTemplate::CommandR => Some("<|START_OF_TURN_TOKEN|><|CHATBOT_TOKEN|>"),
        ChatTemplate::Llama3 => Some("<|start_header_id|>assistant<|end_header_id|>\n\n"),
        ChatTemplate::Chatglm3 => Some("<|assistant|>"),
        ChatTemplate::Chatglm4 => Some("<|assistant|>\n"),
        ChatTemplate::Glmedge => Some("\n<|assistant|>\n"),
        ChatTemplate::Deepseek2 => Some("Assistant:"),
        ChatTemplate::Deepseek3 => Some("<\u{ff5c}Assistant\u{ff5c}>"),
        ChatTemplate::Exaone3 => Some("[|assistant|]"),
        ChatTemplate::Exaone4 => Some("[|assistant|]"),
        ChatTemplate::Granite => Some("<|start_of_role|>assistant<|end_of_role|>"),
        ChatTemplate::Megrez => Some("<|role_start|>assistant<|role_end|>"),
        ChatTemplate::Yandex => Some(" \u{410}\u{441}\u{441}\u{438}\u{441}\u{442}\u{435}\u{43d}\u{442}:[SEP]"),
        ChatTemplate::Bailing => Some("<role>ASSISTANT</role>"),
        ChatTemplate::Llama4 => Some("<|header_start|>assistant<|header_end|>\n\n"),
        ChatTemplate::Smolvlm => Some("Assistant:"),
        ChatTemplate::Dots1 => Some("<|response|>"),
        ChatTemplate::OpenaiMoe => Some("<|start|>assistant"),
        ChatTemplate::KimiK2 => Some("<|im_assistant|>assistant<|im_middle|>"),
        ChatTemplate::SeedOss => Some("<seed:bos>assistant\n"),
        _ => None,
    }
}

/// Simple version of "llama_apply_chat_template" that only works with strings.
/// This function uses heuristic checks to determine commonly used template. It is not a jinja parser.
pub fn apply(tmpl: ChatTemplate, chat: &[Message], add_ass: bool) -> (r: String)
    ensures
        r@ == spec_apply(tmpl, messages_model(chat@), add_ass),
{
    let ghost model = messages_model(chat@);
    let mut parts = prologue_items(tmpl);
    let ghost pro = prologue(tmpl);
    let n = chat.len();
    let mut i: usize = 0;
    while i < n
        invariant
            n == chat@.len(),
            model == messages_model(chat@),
            pro == prologue(tmpl),
            i <= n,
            views(parts@) == pro + Seq::new(i as nat, |k: int| render(tmpl, k, n as int, model[k])),
        decreases n - i,
    {
        let item = render_message(tmpl, i, n, &chat[i]);
        let ghost before = parts@;
        parts.push(item);
        proof {
            assert(views(parts@) =~= views(before) + seq![item@]);
            assert(Seq::new((i + 1) as nat, |k: int| render(tmpl, k, n as int, model[k])) =~= Seq::new(
                i as nat,
                |k: int| render(tmpl, k, n as int, model[k]),
            ) + seq![render(tmpl, i as int, n as int, model[i as int])]);
        }
        i = i + 1;
    }
    let ghost body = views(parts@);
    if add_ass {
        match cue_text(tmpl) {
            Some(c) => {
                parts.push(owned(c));
                assert(views(parts@) =~= body + seq![c@]);
            },
            None => {},
        }
    }
    proof {
        assert(Seq::new(n as nat, |k: int| render(tmpl, k, n as int, model[k])) =~= Seq::new(
            model.len(),
            |k: int| render(tmpl, k, model.len() as int, model[k]),
        ));
        assert(views(parts@) =~= items(tmpl, model, add_ass));
    }
    join_strings(&parts, separator_text(tmpl))
}

/// The template family named in model name `m`: the first of the
/// listed fragments that `m` contains decides.
pub open spec fn spec_detect(m: Seq<char>) -> Option<ChatTemplate> {
    if has_substring(m, "chatml"@) {
        Some(ChatTemplate::Chatml)
    }     else if has_substring(m, "mistral-v7"@) {
        Some(ChatTemplate::MistralV7)
    }     else if has_substring(m, "mistral-v7-tekken"@) {
        Some(ChatTemplate::MistralV7Tekken)
    }     else if has_substring(m, "phi3"@) {
        Some(ChatTemplate::Phi3)
    }     else if has_substring(m, "phi4"@) {
        Some(ChatTemplate::Phi4)
    }     else if has_substring(m, "falcon3"@) {
        Some(ChatTemplate::Falcon3)
    }     else if has_substring(m, "zephyr"@) {
        Some(ChatTemplate::Zephyr)
    }     else if has_substring(m, "monarch"@) {
        Some(ChatTemplate::Monarch)
    }     else if has_substring(m, "gemma"@) {
        Some(ChatTemplate::Gemma)
    }     else if has_substring(m, "orion"@) {
        Some(ChatTemplate::Orion)
    }     else if has_substring(m, "openchat"@) {
        Some(ChatTemplate::Openchat)
    }     else if has_substring(m, "vicuna"@) {
        Some(ChatTemplate::Vicuna)
    }     else if has_substring(m, "vicuna-orca"@) {
        Some(ChatTemplate::VicunaOrca)
    }     else if has_substring(m, "deepseek"@) {
        Some(ChatTemplate::Deepseek)
    }     else if has_substring(m, "deepseek2"@) {
        Some(ChatTemplate::Deepseek2)
    }     else if has_substring(m, "deepseek3"@) {
        Some(ChatTemplate::Deepseek3)
    }     else if has_substring(m, "command-r"@) {
        Some(ChatTemplate::CommandR)
    }     else if has_substring(m, "llama3"@) {
        Some(ChatTemplate::Llama3)
    }     else if has_substring(m, "chatglm3"@) {
        Some(ChatTemplate::Chatglm3)
    }     else if has_substring(m, "chatglm4"@) {
        Some(ChatTemplate::Chatglm4)
    }     else if has_substring(m, "Tulu"@) || has_substring(m, "glmedge"@) {
        Some(ChatTemplate::Glmedge)
    }     else if has_substring(m, "minicpm"@) {
        Some(ChatTemplate::Minicpm)
    }     else if has_substring(m, "exaone3"@) {
        Some(ChatTemplate::Exaone3)
    }     else if has_substring(m, "exaone4"@) {
        Some(ChatTemplate::Exaone4)
    }     else if has_substring(m, "rwkv-world"@) {
        Some(ChatTemplate::RwkvWorld)
    }     else if has_substring(m, "granite"@) {
        Some(ChatTemplate::Granite)
    }     else if has_substring(m, "megrez"@) {
        Some(ChatTemplate::Megrez)
    }     else if has_substring(m, "yandex"@) {
        Some(ChatTemplate::Yandex)
    }     else if has_substring(m, "bailing"@) {
        Some(ChatTemplate::Bailing)
    }     else if has_substring(m, "llama4"@) {
        Some(ChatTemplate::Llama4)
    }     else if has_substring(m, "smolvlm"@) {
        Some(ChatTemplate::Smolvlm)
    }     else if has_substring(m, "hunyuan-moe"@) {
        Some(ChatTemplate::HunyuanMoe)
    }     else if has_substring(m, "gpt-oss"@) {
        Some(ChatTemplate::OpenaiMoe)
    }     else if has_substring(m, "hunyuan-dense"@) {
        Some(ChatTemplate::HunyuanDense)
    }     else if has_substring(m, "kimi-k2"@) {
        Some(ChatTemplate::KimiK2)
    }     else if has_substring(m, "seed_oss"@) {
        Some(ChatTemplate::SeedOss)
    } else {
        None
    }
}

/// The fragments of a model name that name each family, as the detection
/// looks for them (none for a family that is never detected).
pub open spec fn name_fragments(t: ChatTemplate) -> Seq<Seq<char>> {
    match t {
        ChatTemplate::Chatml => seq!["chatml"@],
        ChatTemplate::MistralV7 => seq!["mistral-v7"@],
        ChatTemplate::MistralV7Tekken => seq!["mistral-v7-tekken"@],
        ChatTemplate::Phi3 => seq!["phi3"@],
        ChatTemplate::Phi4 => seq!["phi4"@],
        ChatTemplate::Falcon3 => seq!["falcon3"@],
        ChatTemplate::Zephyr => seq!["zephyr"@],
        ChatTemplate::Monarch => seq!["monarch"@],
        ChatTemplate::Gemma => seq!["gemma"@],
        ChatTemplate::Orion => seq!["orion"@],
        ChatTemplate::Openchat => seq!["openchat"@],
        ChatTemplate::Vicuna => seq!["vicuna"@],
        ChatTemplate::VicunaOrca => seq!["vicuna-orca"@],
        ChatTemplate::Deepseek => seq!["deepseek"@],
        ChatTemplate::Deepseek2 => seq!["deepseek2"@],
        ChatTemplate::Deepseek3 => seq!["deepseek3"@],
        ChatTemplate::CommandR => seq!["command-r"@],
        ChatTemplate::Llama3 => seq!["llama3"@],
        ChatTemplate::Chatglm3 => seq!["chatglm3"@],
        ChatTemplate::Chatglm4 => seq!["chatglm4"@],
        ChatTemplate::Glmedge => seq!["Tulu"@, "glmedge"@],
        ChatTemplate::Minicpm => seq!["minicpm"@],
        ChatTemplate::Exaone3 => seq!["exaone3"@],
        ChatTemplate::Exaone4 => seq!["exaone4"@],
        ChatTemplate::RwkvWorld => seq!["rwkv-world"@],
        ChatTemplate::Granite => seq!["granite"@],
        ChatTemplate::Megrez => seq!["megrez"@],
        ChatTemplate::Yandex => seq!["yandex"@],
        ChatTemplate::Bailing => seq!["bailing"@],
        ChatTemplate::Llama4 => seq!["llama4"@],
        ChatTemplate::Smolvlm => seq!["smolvlm"@],
        ChatTemplate::HunyuanMoe => seq!["hunyuan-moe"@],
        ChatTemplate::OpenaiMoe => seq!["gpt-oss"@],
        ChatTemplate::HunyuanDense => seq!["hunyuan-dense"@],
        ChatTemplate::KimiK2 => seq!["kimi-k2"@],
        ChatTemplate::SeedOss => seq!["seed_oss"@],
        _ => Seq::empty(),
    }
}

/// Every fragment that the detection looks for.
pub open spec fn all_name_fragments() -> Seq<Seq<char>> {
    seq!["chatml"@, "mistral-v7"@, "mistral-v7-tekken"@, "phi3"@, "phi4"@, "falcon3"@, "zephyr"@, "monarch"@, "gemma"@, "orion"@, "openchat"@, "vicuna"@, "vicuna-orca"@, "deepseek"@, "deepseek2"@, "deepseek3"@, "command-r"@, "llama3"@, "chatglm3"@, "chatglm4"@, "Tulu"@, "glmedge"@, "minicpm"@, "exaone3"@, "exaone4"@, "rwkv-world"@, "granite"@, "megrez"@, "yandex"@, "bailing"@, "llama4"@, "smolvlm"@, "hunyuan-moe"@, "gpt-oss"@, "hunyuan-dense"@, "kimi-k2"@, "seed_oss"@]
}

/// The detected family is named in the model name: one of that family's
/// own fragments occurs in it.
pub proof fn law_detect_names_family(m: Seq<char>)
    ensures
        spec_detect(m) is Some ==> exists|k: int|
            0 <= k < name_fragments(spec_detect(m)->0).len() && has_substring(
                m,
                #[trigger] name_fragments(spec_detect(m)->0)[k],
            ),
{
    if spec_detect(m) is Some {
        let t = spec_detect(m)->0;
        let f = name_fragments(t);
        if t == ChatTemplate::Glmedge && !has_substring(m, "Tulu"@) {
            assert(has_substring(m, f[1]));
        } else {
            assert(has_substring(m, f[0]));
        }
    }
}

/// A model name in which some fragment of a family occurs is detected.
pub proof fn law_detect_total(m: Seq<char>, k: int)
    requires
        0 <= k < all_name_fragments().len(),
        has_substring(m, all_name_fragments()[k]),
    ensures
        spec_detect(m) is Some,
{
    let a = all_name_fragments();
    assert(a[0] == "chatml"@);
    assert(a[1] == "mistral-v7"@);
    assert(a[2] == "mistral-v7-tekken"@);
    assert(a[3] == "phi3"@);
    assert(a[4] == "phi4"@);
    assert(a[5] == "falcon3"@);
    assert(a[6] == "zephyr"@);
    assert(a[7] == "monarch"@);
    assert(a[8] == "gemma"@);
    assert(a[9] == "orion"@);
    assert(a[10] == "openchat"@);
    assert(a[11] == "vicuna"@);
    assert(a[12] == "vicuna-orca"@);
    assert(a[13] == "deepseek"@);
    assert(a[14] == "deepseek2"@);
    assert(a[15] == "deepseek3"@);
    assert(a[16] == "command-r"@);
    assert(a[17] == "llama3"@);
    assert(a[18] == "chatglm3"@);
    assert(a[19] == "chatglm4"@);
    assert(a[20] == "Tulu"@);
    assert(a[21] == "glmedge"@);
    assert(a[22] == "minicpm"@);
    assert(a[23] == "exaone3"@);
    assert(a[24] == "exaone4"@);
    assert(a[25] == "rwkv-world"@);
    assert(a[26] == "granite"@);
    assert(a[27] == "megrez"@);
    assert(a[28] == "yandex"@);
    assert(a[29] == "bailing"@);
    assert(a[30] == "llama4"@);
    assert(a[31] == "smolvlm"@);
    assert(a[32] == "hunyuan-moe"@);
    assert(a[33] == "gpt-oss"@);
    assert(a[34] == "hunyuan-dense"@);
    assert(a[35] == "kimi-k2"@);
    assert(a[36] == "seed_oss"@);
}

/// Detect the chat template family from a model name.
pub fn detect(m: &str) -> (r: Result<ChatTemplate, ModelNotFoundError>)
    ensures
        match r {
            Ok(t) => spec_detect(m@) == Some(t),
            Err(_) => spec_detect(m@) is None,
        },
{
    if contains(m, "chatml") {
        Ok(ChatTemplate::Chatml)
    }     else if contains(m, "mistral-v7") {
        Ok(ChatTemplate::MistralV7)
    }     else if contains(m, "mistral-v7-tekken") {
        Ok(ChatTemplate::MistralV7Tekken)
    }     else if contains(m, "phi3") {
        Ok(ChatTemplate::Phi3)
    }     else if contains(m, "phi4") {
        Ok(ChatTemplate::Phi4)
    }     else if contains(m, "falcon3") {
        Ok(ChatTemplate::Falcon3)
    }     else if contains(m, "zephyr") {
        Ok(ChatTemplate::Zephyr)
    }     else if contains(m, "monarch") {
        Ok(ChatTemplate::Monarch)
    }     else if contains(m, "gemma") {
        Ok(ChatTemplate::Gemma)
    }     else if contains(m, "orion") {
        Ok(ChatTemplate::Orion)
    }     else if contains(m, "openchat") {
        Ok(ChatTemplate::Openchat)
    }     else if contains(m, "vicuna") {
        Ok(ChatTemplate::Vicuna)
    }     else if contains(m, "vicuna-orca") {
        Ok(ChatTemplate::VicunaOrca)
    }     else if contains(m, "deepseek") {
        Ok(ChatTemplate::Deepseek)
    }     else if contains(m, "deepseek2") {
        Ok(ChatTemplate::Deepseek2)
    }     else if contains(m, "deepseek3") {
        Ok(ChatTemplate::Deepseek3)
    }     else if contains(m, "command-r") {
        Ok(ChatTemplate::CommandR)
    }     else if contains(m, "llama3") {
        Ok(ChatTemplate::Llama3)
    }     else if contains(m, "chatglm3") {
        Ok(ChatTemplate::Chatglm3)
    }     else if contains(m, "chatglm4") {
        Ok(ChatTemplate::Chatglm4)
    }     else if contains(m, "Tulu") || contains(m, "glmedge") {
        Ok(ChatTemplate::Glmedge)
    }     else if contains(m, "minicpm") {
        Ok(ChatTemplate::Minicpm)
    }     else if contains(m, "exaone3") {
        Ok(ChatTemplate::Exaone3)
    }     else if contains(m, "exaone4") {
        Ok(ChatTemplate::Exaone4)
    }     else if contains(m, "rwkv-world") {
        Ok(ChatTemplate::RwkvWorld)
    }     else if contains(m, "granite") {
        Ok(ChatTemplate::Granite)
    }     else if contains(m, "megrez") {
        Ok(ChatTemplate::Megrez)
    }     else if contains(m, "yandex") {
        Ok(ChatTemplate::Yandex)
    }     else if contains(m, "bailing") {
        Ok(ChatTemplate::Bailing)
    }     else if contains(m, "llama4") {
        Ok(ChatTemplate::Llama4)
    }     else if contains(m, "smolvlm") {
        Ok(ChatTemplate::Smolvlm)
    }     else if contains(m, "hunyuan-moe") {
        Ok(ChatTemplate::HunyuanMoe)
    }     else if contains(m, "gpt-oss") {
        Ok(ChatTemplate::OpenaiMoe)
    }     else if contains(m, "hunyuan-dense") {
        Ok(ChatTemplate::HunyuanDense)
    }     else if contains(m, "kimi-k2") {
        Ok(ChatTemplate::KimiK2)
    }     else if contains(m, "seed_oss") {
        Ok(ChatTemplate::SeedOss)
    } else {
        Err(ModelNotFoundError)
    }
}

} // verus!
