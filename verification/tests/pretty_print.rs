use spnl::message::Message::{Assistant, System, User};
use spnl::pretty_print::{trim, truncate};
use spnl::query::Query::{Cross, Message, Monad, Par, Plus, Sequence};
use spnl::query::{Batch, Bulk, Generate, GenerateMetadata, Query, Repeat};

#[test]
fn truncate_keeps_short_text() {
    assert_eq!(truncate("hello", 10), "hello");
    assert_eq!(truncate("hello", 5), "hello");
    assert_eq!(truncate("", 0), "");
}

#[test]
fn truncate_cuts_long_text_with_ellipsis() {
    assert_eq!(truncate("hello world", 5), "hello\u{2026}");
    assert_eq!(truncate("abc", 0), "\u{2026}");
}

#[test]
fn truncate_counts_characters_not_bytes() {
    // four characters, eight bytes
    assert_eq!(truncate("ééé é", 5), "ééé é");
    assert_eq!(truncate("ééé é", 3), "ééé\u{2026}");
}

#[test]
fn trim_trims_and_joins_lines() {
    assert_eq!(trim("  a\nb  ", 700), "a b");
    assert_eq!(trim("line one\nline two", 6), "line o\u{2026}");
}

#[test]
fn display_of_message_is_its_text() {
    assert_eq!(Message(User("hi there".into())).display_text(), "hi there");
}

#[test]
fn display_of_plus_and_cross_joins_lines() {
    let q = Plus(vec![Message(User("a".into())), Message(System("b".into()))]);
    assert_eq!(q.display_text(), "a\nb");
    let q = Cross(vec![
        Message(User("x".into())),
        Plus(vec![Message(User("y".into())), Message(User("z".into()))]),
    ]);
    assert_eq!(q.display_text(), "x\ny\nz");
}

#[test]
fn display_of_other_queries_is_empty() {
    let q = Sequence(vec![Message(User("a".into()))]);
    assert_eq!(q.display_text(), "");
    let g = Query::Generate(Generate::new(GenerateMetadata::new("m"), Message(User("a".into()))));
    assert_eq!(g.display_text(), "");
}

#[test]
fn labels_of_messages() {
    assert_eq!(
        Message(User("  hello\nworld ".into())).tree_label(),
        "\x1b[33mUser\x1b[0m hello world"
    );
    assert_eq!(
        Message(Assistant("ok".into())).tree_label(),
        "\x1b[32mAssistant\x1b[0m ok"
    );
    assert_eq!(
        Message(System("sys".into())).tree_label(),
        "\x1b[34mSystem\x1b[0m sys"
    );
}

#[test]
fn labels_of_lists() {
    assert_eq!(Sequence(vec![]).tree_label(), "\x1b[31;1mSequence\x1b[0m");
    assert_eq!(Par(vec![]).tree_label(), "\x1b[31;1mParallel\x1b[0m");
    assert_eq!(Plus(vec![]).tree_label(), "\x1b[31;1mPlus\x1b[0m");
    assert_eq!(Cross(vec![]).tree_label(), "\x1b[31;1mCross\x1b[0m");
    assert_eq!(
        Monad(Box::new(Message(User("a".into())))).tree_label(),
        "\x1b[2mMonad\x1b[0m"
    );
}

#[test]
fn labels_of_generate() {
    let g = Query::Generate(Generate::new(
        GenerateMetadata::with_limits("ollama/x", Some(42), None),
        Message(User("a".into())),
    ));
    assert_eq!(
        g.tree_label(),
        "\x1b[31;1mGenerate\x1b[0m \x1b[2mmax_tokens=42 model=ollama/x\x1b[0m"
    );
    let g = Query::Generate(Generate::new(
        GenerateMetadata::with_limits("m", Some(0), None),
        Message(User("a".into())),
    ));
    assert_eq!(g.tree_label(), "\x1b[31;1mGenerate\x1b[0m \x1b[2mmodel=m\x1b[0m");
    let g = Query::Generate(Generate::new(
        GenerateMetadata::with_limits("m", Some(-3), None),
        Message(User("a".into())),
    ));
    assert_eq!(
        g.tree_label(),
        "\x1b[31;1mGenerate\x1b[0m \x1b[2mmax_tokens=-3 model=m\x1b[0m"
    );
}

#[test]
fn labels_of_bulk() {
    let gen = Generate::new(GenerateMetadata::new("m"), Message(User("a".into())));
    let r = Query::Bulk(Bulk::Repeat(Repeat { n: 7, generate: gen }));
    assert_eq!(r.tree_label(), "Repeat 7");
    let b = Query::Bulk(Bulk::Batch(Batch {
        metadata: GenerateMetadata::new("m"),
        inputs: vec!["a".into(), "b".into(), "c".into()],
    }));
    assert_eq!(b.tree_label(), "Map 3");
    assert_eq!(Query::zip(Message(User("a".into())), Message(User("b".into()))).tree_label(), "Zip");
}

#[test]
fn children_of_nodes() {
    let a = Message(User("a".into()));
    let b = Message(User("b".into()));
    assert_eq!(Sequence(vec![a.clone(), b.clone()]).tree_children(), vec![a.clone(), b.clone()]);
    assert_eq!(Monad(Box::new(a.clone())).tree_children(), vec![a.clone()]);
    let gen = Generate::new(GenerateMetadata::new("m"), a.clone());
    assert_eq!(Query::Generate(gen.clone()).tree_children(), vec![a.clone()]);
    let r = Query::Bulk(Bulk::Repeat(Repeat { n: 2, generate: gen }));
    assert_eq!(r.tree_children(), vec![a.clone()]);
    assert_eq!(Query::zip(a.clone(), b.clone()).tree_children(), vec![a.clone(), b.clone()]);
    assert_eq!(a.tree_children(), Vec::<Query>::new());
}
