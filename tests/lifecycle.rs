use satif_minisat::lit::{Lit, Var};
use satif_minisat::session::{Phase, Session};
use satif_minisat::native::EngineFault;

fn three_vars() -> (Session, Lit, Lit, Lit) {
    let mut s = Session::new();
    let x0 = s.record_new_var(0).unwrap().lit();
    let x1 = s.record_new_var(1).unwrap().lit();
    let x2 = s.record_new_var(2).unwrap().lit();
    (s, x0, x1, x2)
}

#[test]
fn fresh_session() {
    let s = Session::new();
    assert_eq!(s.num_var, 0);
    assert_eq!(s.phase, Phase::Ready);
    assert!(!s.eliminated);
}

#[test]
fn new_vars_count_up() {
    let (s, _, _, x2) = three_vars();
    assert_eq!(s.num_var, 3);
    assert_eq!(x2.var(), Var::new(2));
}

#[test]
fn negative_index_is_a_fault() {
    let (mut s, _, _, _) = three_vars();
    assert_eq!(s.record_new_var(-1), Err(EngineFault::NegativeIndex { code: -1 }));
    assert_eq!(s.num_var, 3);
}

#[test]
fn released_index_reused() {
    let (mut s, _, x1, _) = three_vars();
    s.record_change();
    let again = s.record_new_var(1).unwrap();
    assert_eq!(again, x1.var());
    assert_eq!(s.num_var, 3);
    s.record_new_var(3).unwrap();
    assert_eq!(s.num_var, 4);
}

#[test]
fn clauses_over_known_vars() {
    let (s, x0, x1, x2) = three_vars();
    assert!(s.knows(&[x0, x2.negate()]));
    assert!(s.knows(&[x0.negate(), x1.negate(), x2]));
    assert!(s.knows(&[]));
    assert!(!s.knows(&[x0, Var::new(3).lit()]));
}

#[test]
fn model_readable_until_next_change() {
    let (mut s, x0, _, x2) = three_vars();
    assert!(!s.may_read_model(x0));
    s.record_verdict(true);
    assert_eq!(s.phase, Phase::Satisfied);
    assert!(s.may_read_model(x0));
    assert!(!s.may_read_model(Var::new(9).lit()));
    assert!(!s.may_read_conflict(x2));
    s.record_change();
    assert!(!s.may_read_model(x0));
}

#[test]
fn conflict_readable_after_unsat() {
    let (mut s, _, _, x2) = three_vars();
    s.record_verdict(false);
    assert_eq!(s.phase, Phase::Unsatisfied);
    assert!(s.may_read_conflict(x2));
    assert!(!s.may_read_model(x2));
}

#[test]
fn freezing_only_before_elimination() {
    let (mut s, _, _, x2) = three_vars();
    assert!(s.may_freeze(x2.var()));
    assert!(!s.may_freeze(Var::new(3)));
    s.record_elimination();
    assert!(s.eliminated);
    assert!(!s.may_freeze(x2.var()));
}
