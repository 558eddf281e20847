use revcomb::comb::Comb;
use revcomb::iso::Iso;

fn iso(i: Iso) -> Comb {
    Comb::Iso(i)
}

fn sequence(a: Comb, b: Comb) -> Comb {
    Comb::Sequence(Box::new(a), Box::new(b))
}

fn sum(a: Comb, b: Comb) -> Comb {
    Comb::Sum(Box::new(a), Box::new(b))
}

fn prod(a: Comb, b: Comb) -> Comb {
    Comb::Prod(Box::new(a), Box::new(b))
}

fn inverse(a: Comb) -> Comb {
    Comb::Sym(Box::new(a))
}

#[test]
fn comb_dual_structure() {
    assert_eq!(Comb::Id.dual(), Comb::Id);
    assert_eq!(iso(Iso::AssoclS).dual(), iso(Iso::AssocrS));
    assert_eq!(
        inverse(iso(Iso::Unite)).dual(),
        inverse(iso(Iso::Uniti))
    );
    // a sequence is reversed: undoing it means undoing the second stage first
    assert_eq!(
        sequence(iso(Iso::Uniti), iso(Iso::SwapP)).dual(),
        sequence(iso(Iso::SwapP), iso(Iso::Unite))
    );
    assert_eq!(
        sum(iso(Iso::SwapS), Comb::Id).dual(),
        sum(iso(Iso::SwapS), Comb::Id)
    );
    assert_eq!(
        prod(iso(Iso::Distrib), iso(Iso::Factor)).dual(),
        prod(iso(Iso::Factor), iso(Iso::Distrib))
    );
}

#[test]
fn comb_double_dual_is_identity() {
    let build = || {
        sequence(
            prod(iso(Iso::AssoclP), inverse(iso(Iso::Unite))),
            sum(sequence(iso(Iso::Distrib), Comb::Id), iso(Iso::SwapS)),
        )
    };
    assert_eq!(build().dual().dual(), build());
}

#[test]
fn comb_double_dual_on_each_constructor() {
    let cases: Vec<Box<dyn Fn() -> Comb>> = vec![
        Box::new(|| Comb::Id),
        Box::new(|| iso(Iso::EtaS)),
        Box::new(|| inverse(iso(Iso::AssocrP))),
        Box::new(|| sequence(Comb::Id, iso(Iso::SwapP))),
        Box::new(|| sum(Comb::Id, iso(Iso::SwapS))),
        Box::new(|| prod(iso(Iso::Uniti), Comb::Id)),
    ];
    for case in cases {
        assert_eq!(case().dual().dual(), case());
    }
}
