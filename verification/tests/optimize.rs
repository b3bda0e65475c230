use spnl::message::Message::{System, User};
use spnl::optimize::{optimize, Options};
use spnl::query::Query::{Message, Plus, Sequence};
use spnl::query::{Generate, GenerateMetadata, Query};
use spnl::simplify::simplify;

fn nested_gen_query(model: &str) -> (Query, Generate, Query, Query, Query) {
    let s2 = Message(System("outer system".into()));
    let s1 = Message(System("inner system".into()));
    let u1 = Message(User("inner user".into()));
    let inner_generate = Generate::new(
        GenerateMetadata::new(model),
        Sequence(vec![s1.clone(), u1.clone()]),
    );
    let outer_generate = Query::Generate(Generate::new(
        GenerateMetadata::new(model),
        Sequence(vec![s2.clone(), Plus(vec![Query::Generate(inner_generate.clone())])]),
    ));
    (outer_generate, inner_generate, s2, s1, u1)
}

#[test]
fn nested_gen_expect_no_span_optimization() {
    let (outer_generate, _, _, _, _) = nested_gen_query("m");
    assert_eq!(optimize(&outer_generate, &Options::default()), outer_generate);
}

#[test]
fn nested_gen_expect_span_optimization() {
    let model = "spnl/m";
    let (outer_generate, inner_generate, s2, s1, u1) = nested_gen_query(model);
    assert_eq!(
        optimize(&outer_generate, &Options::default()),
        simplify(&Query::Generate(Generate::new(
            GenerateMetadata::new(model),
            Sequence(vec![
                s2,
                Plus(vec![s1, u1, Query::Generate(inner_generate.wrap_plus())])
            ])
        )))
    );
}

#[test]
fn optimize_rewrites_each_nested_generate_in_parallel() {
    let model = "spnl/m";
    let g1 = Generate::new(GenerateMetadata::new(model), Message(User("a".into())));
    let g2 = Generate::new(GenerateMetadata::new(model), Message(User("b".into())));
    let outer = Query::Generate(Generate::new(
        GenerateMetadata::new(model),
        Sequence(vec![
            Message(System("sys".into())),
            Plus(vec![Query::Generate(g1.clone()), Query::Generate(g2.clone())]),
        ]),
    ));
    let expected = Query::Generate(Generate::new(
        GenerateMetadata::new(model),
        Sequence(vec![
            Message(System("sys".into())),
            Query::Par(vec![
                Plus(vec![Message(User("a".into())), Query::Generate(g1.wrap_plus())]),
                Plus(vec![Message(User("b".into())), Query::Generate(g2.wrap_plus())]),
            ]),
        ]),
    ));
    assert_eq!(optimize(&outer, &Options::default()), expected);
}
