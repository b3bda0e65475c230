use spnl::message::Message::{System, User};
use spnl::plan::{plan, tidy, PlanOptions};
use spnl::query::Query::{Cross, Message, Par, Plus, Sequence};
use spnl::query::{Generate, GenerateMetadata, Query};

#[test]
fn simplify1() {
    // Message -> Message (i.e. no change)
    let q = Message(User("hello".into()));
    assert_eq!(tidy(&q), q);
}

#[test]
fn simplify2() {
    // Seq(a) = a
    let a = Message(User("a".into()));
    let q = Sequence(vec![a.clone()]);
    assert_eq!(tidy(&q), a);
}

#[test]
fn simplify3() {
    // Seq(Seq(a)) = a
    let a = Message(User("a".into()));
    let qq = Sequence(vec![a.clone()]);
    let q = Sequence(vec![qq]);
    assert_eq!(tidy(&q), a);
}

#[test]
fn simplify4() {
    // Plus(Seq(a,b), c, d) -> Plus(a,b,c,d)
    let a = Message(User("a".into()));
    let b = Message(User("b".into()));
    let c = Message(User("c".into()));
    let d = Message(User("d".into()));
    let qq = Sequence(vec![a.clone(), b.clone()]);
    let q = Plus(vec![qq, c.clone(), d.clone()]);
    assert_eq!(tidy(&q), Plus(vec![a, b, c, d]));
}

#[test]
fn nested_gen() {
    let s2 = Message(System("outer system".into()));
    let s1 = Message(System("inner system".into()));
    let u1 = Message(User("inner user".into()));
    let inner_generate = Query::Generate(Generate::new(
        GenerateMetadata::new("m"),
        Sequence(vec![s1.clone(), u1.clone()]),
    ));
    let outer_generate = Query::Generate(Generate::new(
        GenerateMetadata::new("m"),
        Sequence(vec![s2.clone(), Plus(vec![inner_generate.clone()])]),
    ));
    assert_eq!(
        plan(&outer_generate, &PlanOptions::default()),
        Query::Generate(Generate::new(
            GenerateMetadata::new("m"),
            Sequence(vec![s2, Plus(vec![s1, u1, inner_generate])])
        ))
    );
}

#[test]
fn tidy_cross_with_tail_cross() {
    let a = Message(User("a".into()));
    let b = Message(User("b".into()));
    let c = Message(User("c".into()));
    let q = Cross(vec![a.clone(), Cross(vec![b.clone(), c.clone()])]);
    assert_eq!(tidy(&q), Cross(vec![a, b, c]));
}

#[test]
fn tidy_splices_inner_sequences_and_par_singleton() {
    let a = Message(User("a".into()));
    let b = Message(User("b".into()));
    let c = Message(User("c".into()));
    let q = Sequence(vec![a.clone(), Sequence(vec![b.clone(), c.clone()])]);
    assert_eq!(tidy(&q), Sequence(vec![a.clone(), b.clone(), c.clone()]));
    assert_eq!(tidy(&Par(vec![a.clone()])), a);
    assert_eq!(tidy(&Par(vec![a.clone(), b.clone()])), Par(vec![a, b]));
}

#[test]
fn plan_of_a_message_is_the_message() {
    let a = Message(User("a".into()));
    assert_eq!(plan(&a, &PlanOptions::default()), a);
}
