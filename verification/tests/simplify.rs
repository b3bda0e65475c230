use spnl::message::Message::{System, User};
use spnl::query::Query::{Bulk, Cross, Generate, Message, Monad, Par, Plus, Sequence};
use spnl::query::{Batch, Bulk as BulkOp, Generate as Gen, GenerateMetadata, Query, Repeat, Temperature};
use spnl::simplify::simplify;

fn user(s: &str) -> Query {
    Message(User(s.into()))
}

#[test]
// Message -> Message (i.e. no change)
fn simplify_noop() {
    let q = user("hello");
    assert_eq!(simplify(&q), q);
}

#[test]
// Seq(a) = a
fn simplify_singleton_vec() {
    let a = user("a");
    let q = Sequence(vec![a.clone()]);
    assert_eq!(simplify(&q), a);
}

#[test]
// Seq(Seq(a)) = a
fn simplify_seq_of_seq() {
    let a = user("a");
    let qq = Sequence(vec![a.clone()]);
    let q = Sequence(vec![qq]);
    assert_eq!(simplify(&q), a);
}

#[test]
// Plus(Seq(a,b), c, d) -> Plus(a,b,c,d)
fn simplify_plus_of_seq() {
    let a = user("a");
    let b = user("b");
    let c = user("c");
    let d = user("d");
    let qq = Sequence(vec![a.clone(), b.clone()]);
    let q = Plus(vec![qq, c.clone(), d.clone()]);
    assert_eq!(simplify(&q), Plus(vec![a, b, c, d]));
}

#[test]
fn simplify_repeat_expansion() {
    let n = 2u8;
    let g = Gen::new(
        // important: indicate the backend DOES NOT support Batch::Map
        GenerateMetadata::new("disable_bulk_map/xxx"),
        user("hello"),
    );
    let q = Bulk(BulkOp::Repeat(Repeat { n, generate: g.clone() }));
    assert_eq!(simplify(&q), Bulk(BulkOp::Repeat(Repeat { n, generate: g })));
}

fn bulk_form(inputs: &[String], metadata: &GenerateMetadata) -> Query {
    Bulk(BulkOp::Batch(Batch { metadata: metadata.clone(), inputs: inputs.to_vec() }))
}

fn expanded_form_of_bulk_form(inputs: &[String], metadata: &GenerateMetadata) -> Query {
    Plus(vec![
        Generate(Gen::new(metadata.clone(), user(&inputs[0]))),
        Generate(Gen::new(metadata.clone(), user(&inputs[1]))),
        Generate(Gen::new(metadata.clone(), user(&inputs[2]))),
    ])
}

// Note: this should be the inverse of simplify_batch_consolidation()
#[test]
fn simplify_batch_expansion() {
    let inputs = ["a".into(), "b".into(), "c".into()];
    // important: indicate the backend DOES NOT support Batch::Map
    let metadata = GenerateMetadata::new("disable_bulk_map/xxx");
    assert_eq!(
        simplify(&bulk_form(&inputs, &metadata)),
        expanded_form_of_bulk_form(&inputs, &metadata)
    );
}

// Note: this should be the inverse of simplify_batch_expansion()
#[test]
fn simplify_batch_consolidation() {
    let inputs = ["a".into(), "b".into(), "c".into()];
    // important: indicate the backend DOES support Batch::Map
    let metadata = GenerateMetadata::new("openai/xxx");
    assert_eq!(
        simplify(&expanded_form_of_bulk_form(&inputs, &metadata)),
        bulk_form(&inputs, &metadata),
    );
}

#[test]
fn simplify_expansion_then_consolidation_round_trip() {
    let inputs: Vec<String> = vec!["x".into(), "y".into(), "z".into()];
    let metadata = GenerateMetadata::new("disable_bulk_map/m");
    let once = simplify(&bulk_form(&inputs, &metadata));
    assert_eq!(simplify(&once), bulk_form(&inputs, &metadata));
}

#[test]
fn simplify_nan_temperature_blocks_consolidation() {
    let inputs = ["a".into(), "b".into(), "c".into()];
    let metadata = GenerateMetadata::with_limits(
        "openai/xxx",
        Some(0),
        Some(Temperature::from_bits(f32::NAN.to_bits())),
    );
    let q = expanded_form_of_bulk_form(&inputs, &metadata);
    assert_eq!(simplify(&q), q);
}

#[test]
fn simplify_mixed_message_kinds_are_not_consolidated() {
    let md = GenerateMetadata::new("openai/m");
    let q = Plus(vec![
        Generate(Gen::new(md.clone(), user("a"))),
        Generate(Gen::new(md.clone(), Message(System("b".into())))),
    ]);
    assert_eq!(simplify(&q), q);
}

#[test]
fn simplify_repeat_unrolled_for_provider_without_bulk_repeat() {
    let g = Gen::new(GenerateMetadata::new("ollama/m"), user("hi"));
    let q = Bulk(BulkOp::Repeat(Repeat { n: 3, generate: g.clone() }));
    assert_eq!(
        simplify(&q),
        Par(vec![Generate(g.clone()), Generate(g.clone()), Generate(g)])
    );
}

#[test]
fn simplify_repeat_kept_for_bulk_repeat_provider() {
    let g = Gen::new(GenerateMetadata::new("openai/m"), user("hi"));
    let q = Bulk(BulkOp::Repeat(Repeat { n: 3, generate: g }));
    assert_eq!(simplify(&q), q);
}

#[test]
fn simplify_drops_empty_messages_and_empty_lists() {
    assert_eq!(simplify(&Sequence(vec![])), Sequence(vec![]));
    assert_eq!(simplify(&user("")), Sequence(vec![]));
    assert_eq!(
        simplify(&Sequence(vec![user(""), user("a"), user("b")])),
        Sequence(vec![user("a"), user("b")])
    );
}

#[test]
fn simplify_cross_with_tail_cross_and_monad() {
    let q = Cross(vec![user("a"), Cross(vec![user("b"), user("c")])]);
    assert_eq!(simplify(&q), Cross(vec![user("a"), user("b"), user("c")]));
    let m = Monad(Box::new(Sequence(vec![user("z")])));
    assert_eq!(simplify(&m), Monad(Box::new(user("z"))));
}
