use revcomb::comb::Comb;
use revcomb::context::CombCtx;
use revcomb::error::MachineError;
use revcomb::iso::Iso;
use revcomb::machine::MachineState;
use revcomb::value::Val;

fn sym(name: &str) -> Val {
    Val::Symbol(name.to_string())
}

fn left(v: Val) -> Val {
    Val::Left(Box::new(v))
}

fn right(v: Val) -> Val {
    Val::Right(Box::new(v))
}

fn pair(a: Val, b: Val) -> Val {
    Val::Pair(Box::new(a), Box::new(b))
}

fn iso(i: Iso) -> Comb {
    Comb::Iso(i)
}

fn sequence(a: Comb, b: Comb) -> Comb {
    Comb::Sequence(Box::new(a), Box::new(b))
}

fn sum(a: Comb, b: Comb) -> Comb {
    Comb::Sum(Box::new(a), Box::new(b))
}

fn prod(a: Comb, b: Comb) -> Comb {
    Comb::Prod(Box::new(a), Box::new(b))
}

fn is_terminal(s: &MachineState) -> bool {
    matches!(s, MachineState::Post(_, _, CombCtx::Empty))
}

/// Drive the machine to a terminal state, counting transitions; the bound
/// guards the loop as a driver would.
fn run_to_terminal(mut s: MachineState, bound: usize) -> (usize, MachineState) {
    let mut n: usize = 0;
    while !is_terminal(&s) {
        assert!(n < bound, "no terminal state within the bound");
        s = s.step().expect("step failed");
        n += 1;
    }
    (n, s)
}

#[test]
fn example_sequence_run() {
    // program "uniti; swap*" applied to 'foo
    let program = sequence(iso(Iso::Uniti), iso(Iso::SwapP));
    let s0 = MachineState::Pre(program, sym("foo"), CombCtx::Empty);

    // entering the sequence descends into its first stage
    let s1 = s0.step().unwrap();
    assert_eq!(
        s1,
        MachineState::Pre(
            iso(Iso::Uniti),
            sym("foo"),
            CombCtx::Fst(Box::new(CombCtx::Empty), iso(Iso::SwapP)),
        )
    );

    // uniti produces Pair(Unit, 'foo)
    let s2 = s1.step().unwrap();
    assert_eq!(
        s2,
        MachineState::Post(
            iso(Iso::Uniti),
            pair(Val::Unit, sym("foo")),
            CombCtx::Fst(Box::new(CombCtx::Empty), iso(Iso::SwapP)),
        )
    );

    // the intermediate value is handed to the second stage
    let s3 = s2.step().unwrap();
    assert_eq!(
        s3,
        MachineState::Pre(
            iso(Iso::SwapP),
            pair(Val::Unit, sym("foo")),
            CombCtx::Snd(iso(Iso::Uniti), Box::new(CombCtx::Empty)),
        )
    );

    // swap* produces Pair('foo, Unit)
    let s4 = s3.step().unwrap();
    let s5 = s4.step().unwrap();
    assert_eq!(
        s5,
        MachineState::Post(
            sequence(iso(Iso::Uniti), iso(Iso::SwapP)),
            pair(sym("foo"), Val::Unit),
            CombCtx::Empty,
        )
    );
    assert!(is_terminal(&s5));
}

#[test]
fn example_reversal_run() {
    // run the sequence example forward, dualize the terminal state, and run
    // the same number of transitions backward: the input value reappears
    let program = sequence(iso(Iso::Uniti), iso(Iso::SwapP));
    let s0 = MachineState::Pre(program, sym("foo"), CombCtx::Empty);
    let (n_fwd, terminal) = run_to_terminal(s0, 100);
    assert_eq!(n_fwd, 5);

    let (n_bwd, reversed) = run_to_terminal(terminal.dual(), 100);
    assert_eq!(n_bwd, 5);
    assert_eq!(
        reversed,
        MachineState::Post(
            sequence(iso(Iso::SwapP), iso(Iso::Unite)),
            sym("foo"),
            CombCtx::Empty,
        )
    );
}

#[test]
fn terminal_state_is_a_fixed_point() {
    let make = || MachineState::Post(Comb::Id, sym("v"), CombCtx::Empty);
    assert_eq!(make().step(), Ok(make()));
}

#[test]
fn id_passes_the_value_through() {
    let s = MachineState::Pre(Comb::Id, sym("v"), CombCtx::Empty);
    assert_eq!(
        s.step(),
        Ok(MachineState::Post(Comb::Id, sym("v"), CombCtx::Empty))
    );
}

#[test]
fn sym_relabels_to_the_dual_without_reducing() {
    // regression pin: a formal inverse is relabeled to its structural dual in
    // one transition, not re-entered for reduction
    let s = MachineState::Pre(
        Comb::Sym(Box::new(iso(Iso::AssoclS))),
        sym("v"),
        CombCtx::Empty,
    );
    assert_eq!(
        s.step(),
        Ok(MachineState::Post(iso(Iso::AssocrS), sym("v"), CombCtx::Empty))
    );
}

#[test]
fn sum_dispatches_on_the_injection() {
    let make = || sum(iso(Iso::Uniti), iso(Iso::SwapS));
    let s0 = MachineState::Pre(make(), left(sym("a")), CombCtx::Empty);
    let (n, terminal) = run_to_terminal(s0, 100);
    assert_eq!(n, 3);
    assert_eq!(
        terminal,
        MachineState::Post(make(), left(pair(Val::Unit, sym("a"))), CombCtx::Empty)
    );

    let s0 = MachineState::Pre(make(), right(left(sym("b"))), CombCtx::Empty);
    let (n, terminal) = run_to_terminal(s0, 100);
    assert_eq!(n, 3);
    assert_eq!(
        terminal,
        MachineState::Post(make(), right(right(sym("b"))), CombCtx::Empty)
    );
}

#[test]
fn prod_evaluates_both_components_left_then_right() {
    let make = || prod(iso(Iso::SwapS), iso(Iso::Uniti));
    let s0 = MachineState::Pre(make(), pair(left(sym("a")), sym("b")), CombCtx::Empty);
    let (n, terminal) = run_to_terminal(s0, 100);
    assert_eq!(n, 5);
    // the zipper reassembles the same program and pairs the two outputs
    assert_eq!(
        terminal,
        MachineState::Post(
            make(),
            pair(right(sym("a")), pair(Val::Unit, sym("b"))),
            CombCtx::Empty,
        )
    );
}

#[test]
fn nested_program_runs_forward_and_backward() {
    // a sym-free program over every composite constructor
    let make = || {
        sequence(
            iso(Iso::Uniti),
            sequence(
                prod(Comb::Id, iso(Iso::Uniti)),
                iso(Iso::AssoclP),
            ),
        )
    };
    let input = || right(sym("x"));
    let s0 = MachineState::Pre(make(), input(), CombCtx::Empty);
    let (n_fwd, terminal) = run_to_terminal(s0, 1000);
    let expected = pair(pair(Val::Unit, Val::Unit), right(sym("x")));
    match &terminal {
        MachineState::Post(c, v, CombCtx::Empty) => {
            assert_eq!(*c, make());
            assert_eq!(*v, expected);
        },
        other => panic!("not terminal: {:?}", other),
    }

    let (n_bwd, reversed) = run_to_terminal(terminal.dual(), 1000);
    assert_eq!(n_bwd, n_fwd);
    match &reversed {
        MachineState::Post(c, v, CombCtx::Empty) => {
            assert_eq!(*c, make().dual());
            assert_eq!(*v, input());
        },
        other => panic!("not terminal: {:?}", other),
    }
}

#[test]
fn sum_on_a_non_sum_value_is_a_shape_mismatch() {
    let s = MachineState::Pre(sum(Comb::Id, Comb::Id), Val::Unit, CombCtx::Empty);
    assert_eq!(
        s.step(),
        Err(MachineError::ShapeMismatch(sum(Comb::Id, Comb::Id), Val::Unit))
    );
}

#[test]
fn prod_on_a_non_pair_value_is_a_shape_mismatch() {
    let s = MachineState::Pre(prod(Comb::Id, Comb::Id), sym("x"), CombCtx::Empty);
    assert_eq!(
        s.step(),
        Err(MachineError::ShapeMismatch(prod(Comb::Id, Comb::Id), sym("x")))
    );
}

#[test]
fn unsupported_isomorphism_surfaces_from_the_machine() {
    let s = MachineState::Pre(iso(Iso::EtaP), sym("x"), CombCtx::Empty);
    assert_eq!(s.step(), Err(MachineError::UnsupportedIsomorphism(Iso::EtaP)));
}

#[test]
fn machine_dual_flips_the_tag_and_dualizes_the_program() {
    let s = MachineState::Pre(
        sequence(iso(Iso::Uniti), iso(Iso::SwapP)),
        sym("v"),
        CombCtx::Empty,
    );
    assert_eq!(
        s.dual(),
        MachineState::Post(
            sequence(iso(Iso::SwapP), iso(Iso::Unite)),
            sym("v"),
            CombCtx::Empty,
        )
    );
    let t = MachineState::Post(Comb::Id, sym("v"), CombCtx::Empty);
    assert_eq!(
        t.dual(),
        MachineState::Pre(Comb::Id, sym("v"), CombCtx::Empty)
    );
}
